//! System commands of the AWD host: their output, a recording runner for
//! tests, the structured argument lists of the `wg`, `iptables` and
//! `conntrack` invocations (never a shell string), and the filtering of an
//! `iptables-save` snapshot.

use vstd::prelude::*;

use crate::lines::{split_lines, text_lines, texts};
use crate::text::{cat, contains_text, has_substring, owned, u64_decimal, dec};

verus! {

/// What a finished command reported.
#[derive(Debug, PartialEq, Eq)]
pub struct CommandOutput {
    pub exit_code: i32,
    pub stdout: String,
    pub stderr: String,
}

/// Something that runs a program with a structured argument list.
pub trait CommandRunner {
    /// Runs `program` with `args`; `Err` carries why it could not run.
    fn run(&mut self, program: &str, args: &[String]) -> Result<CommandOutput, String>;
}

/// A runner that executes nothing: it records each command and reports success.
pub struct RecordingCommandRunner {
    commands: Vec<(String, Vec<String>)>,
}

/// Texts of recorded commands.
pub open spec fn command_texts(v: Seq<(String, Vec<String>)>) -> Seq<(Seq<char>, Seq<Seq<char>>)> {
    v.map_values(|c: (String, Vec<String>)| (c.0@, texts(c.1@)))
}

fn copy_strings(a: &[String]) -> (v: Vec<String>)
    ensures
        texts(v@) == texts(a@),
{
    let mut copy: Vec<String> = Vec::new();
    let mut j: usize = 0;
    while j < a.len()
        invariant
            j <= a@.len(),
            copy@.len() == j,
            forall|k: int| 0 <= k < j ==> copy@[k]@ == a@[k]@,
        decreases a@.len() - j,
    {
        copy.push(owned(a[j].as_str()));
        j = j + 1;
    }
    assert(texts(copy@) =~= texts(a@));
    copy
}

impl RecordingCommandRunner {
    /// Commands recorded so far, oldest first.
    pub closed spec fn log(&self) -> Seq<(Seq<char>, Seq<Seq<char>>)> {
        command_texts(self.commands@)
    }

    /// A runner with nothing recorded.
    pub fn new() -> (r: RecordingCommandRunner)
        ensures
            r.log() == Seq::<(Seq<char>, Seq<Seq<char>>)>::empty(),
    {
        let r = RecordingCommandRunner { commands: Vec::new() };
        assert(r.log() =~= Seq::<(Seq<char>, Seq<Seq<char>>)>::empty());
        r
    }

    /// Records one command and reports an empty successful output.
    pub fn record(&mut self, program: &str, args: &[String]) -> (out: CommandOutput)
        ensures
            final(self).log() == old(self).log().push((program@, texts(args@))),
            out.exit_code == 0,
            out.stdout@.len() == 0,
            out.stderr@.len() == 0,
    {
        let copy = copy_strings(args);
        let ghost before = self.commands@;
        self.commands.push((owned(program), copy));
        assert(command_texts(self.commands@) =~= command_texts(before).push((program@, texts(args@))));
        CommandOutput { exit_code: 0, stdout: String::new(), stderr: String::new() }
    }

    /// The recorded commands, oldest first.
    pub fn recorded(&self) -> (v: Vec<(String, Vec<String>)>)
        ensures
            command_texts(v@) == self.log(),
    {
        let mut out: Vec<(String, Vec<String>)> = Vec::new();
        let mut i: usize = 0;
        while i < self.commands.len()
            invariant
                i <= self.commands@.len(),
                out@.len() == i,
                forall|k: int| 0 <= k < i ==> out@[k].0@ == self.commands@[k].0@ && texts(out@[k].1@) == texts(self.commands@[k].1@),
            decreases self.commands@.len() - i,
        {
            let (p, a) = &self.commands[i];
            let copy = copy_strings(a.as_slice());
            out.push((owned(p.as_str()), copy));
            i = i + 1;
        }
        assert(command_texts(out@) =~= command_texts(self.commands@));
        out
    }
}

impl CommandRunner for RecordingCommandRunner {
    fn run(&mut self, program: &str, args: &[String]) -> (r: Result<CommandOutput, String>)
        ensures
            final(self).log() == old(self).log().push((program@, texts(args@))),
            r matches Ok(o) && o.exit_code == 0,
    {
        Ok(self.record(program, args))
    }
}

fn strings(parts: &[&str]) -> (v: Vec<String>)
    ensures
        texts(v@) == parts@.map_values(|s: &str| s@),
{
    let mut v: Vec<String> = Vec::new();
    let mut i: usize = 0;
    while i < parts.len()
        invariant
            i <= parts@.len(),
            v@.len() == i,
            forall|k: int| 0 <= k < i ==> v@[k]@ == parts@[k]@,
        decreases parts@.len() - i,
    {
        v.push(owned(parts[i]));
        i = i + 1;
    }
    assert(texts(v@) =~= parts@.map_values(|s: &str| s@));
    v
}

/// `wg set {iface} private-key /dev/stdin listen-port {port}` (the key is fed on stdin).
pub fn wg_set_interface_args(iface: &str, listen_port: u16) -> (v: Vec<String>)
    ensures
        texts(v@) == seq!["set"@, iface@, "private-key"@, "/dev/stdin"@, "listen-port"@, dec(listen_port as nat)],
{
    let port = u64_decimal(listen_port as u64);
    let v = strings(&["set", iface, "private-key", "/dev/stdin", "listen-port", port.as_str()]);
    v
}

/// `wg set {iface} peer {public_key} allowed-ips {allowed_ips}`.
pub fn wg_add_peer_args(iface: &str, public_key: &str, allowed_ips: &str) -> (v: Vec<String>)
    ensures
        texts(v@) == seq!["set"@, iface@, "peer"@, public_key@, "allowed-ips"@, allowed_ips@],
{
    strings(&["set", iface, "peer", public_key, "allowed-ips", allowed_ips])
}

/// `wg set {iface} peer {public_key} remove`.
pub fn wg_remove_peer_args(iface: &str, public_key: &str) -> (v: Vec<String>)
    ensures
        texts(v@) == seq!["set"@, iface@, "peer"@, public_key@, "remove"@],
{
    strings(&["set", iface, "peer", public_key, "remove"])
}

/// `conntrack -D -s {cidr}`: drops the tracked connections from a block.
pub fn conntrack_flush_args(cidr: &str) -> (v: Vec<String>)
    ensures
        texts(v@) == seq!["-D"@, "-s"@, cidr@],
{
    strings(&["-D", "-s", cidr])
}

/// `iptables-restore --noflush {file}`: applies a rule file without flushing other chains.
pub fn iptables_restore_args(rules_file: &str) -> (v: Vec<String>)
    ensures
        texts(v@) == seq!["--noflush"@, rules_file@],
{
    strings(&["--noflush", rules_file])
}

/// `iptables-save -t filter`.
pub fn iptables_save_args() -> (v: Vec<String>)
    ensures
        texts(v@) == seq!["-t"@, "filter"@],
{
    strings(&["-t", "filter"])
}

/// The lines that mention `prefix`, in order.
pub open spec fn lines_with(lines: Seq<Seq<char>>, prefix: Seq<char>) -> Seq<Seq<char>>
    decreases lines.len(),
{
    if lines.len() == 0 {
        Seq::empty()
    } else {
        let before = lines_with(lines.drop_last(), prefix);
        if has_substring(lines.last(), prefix) { before.push(lines.last()) } else { before }
    }
}

/// Lines joined with `\n` (no trailing newline).
pub open spec fn join_newline(lines: Seq<Seq<char>>) -> Seq<char>
    decreases lines.len(),
{
    if lines.len() == 0 {
        Seq::empty()
    } else if lines.len() == 1 {
        lines[0]
    } else {
        join_newline(lines.drop_last()) + "\n"@ + lines.last()
    }
}

/// The part of an `iptables-save` snapshot that concerns one chain family:
/// its lines that mention `chain_prefix`, joined with newlines.
pub fn filter_snapshot(stdout: &str, chain_prefix: &str) -> (s: String)
    ensures
        s@ == join_newline(lines_with(text_lines(stdout@), chain_prefix@)),
{
    let lines = split_lines(stdout);
    let mut out = String::new();
    let mut kept: usize = 0;
    let mut i: usize = 0;
    while i < lines.len()
        invariant
            texts(lines@) == text_lines(stdout@),
            i <= lines@.len(),
            out@ == join_newline(lines_with(texts(lines@).subrange(0, i as int), chain_prefix@)),
            kept == lines_with(texts(lines@).subrange(0, i as int), chain_prefix@).len(),
            kept <= i,
        decreases lines@.len() - i,
    {
        let ghost prev = texts(lines@).subrange(0, i as int);
        assert(texts(lines@).subrange(0, i + 1).drop_last() =~= prev);
        assert(texts(lines@).subrange(0, i + 1).last() == lines@[i as int]@);
        let l = lines[i].as_str();
        let ghost next = texts(lines@).subrange(0, i + 1);
        if contains_text(l, chain_prefix) {
            let ghost before = lines_with(prev, chain_prefix@);
            assert(lines_with(next, chain_prefix@) == before.push(l@));
            if kept == 0 {
                out = owned(l);
                assert(before.push(l@) =~= seq![l@]);
            } else {
                out = cat(cat(out, "\n"), l);
                assert(before.push(l@).drop_last() =~= before);
            }
            kept = kept + 1;
        } else {
            assert(lines_with(next, chain_prefix@) == lines_with(prev, chain_prefix@));
        }
        i = i + 1;
    }
    assert(texts(lines@).subrange(0, i as int) =~= text_lines(stdout@));
    out
}

} // verus!
