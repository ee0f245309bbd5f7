//! iptables rule rendering for AWD events: chain naming (short event hashes
//! that respect the 28-character chain-name limit), per-phase rule sets
//! (hardening, attack, pause), per-team ban chains, and the merge of several
//! events' renders into one atomic `iptables-restore` input.

use vstd::prelude::*;

use crate::awd_event::AwdPhase;
use crate::cidr::{Ipv4Cidr, cidr_parse_spec, cidr_text, ipv4_parse_spec, parse_digits};
use crate::digest::{sha256, sha256_of};
use crate::error::AwdError;
use crate::lines::{dedup, dedup_lines, lemma_dedup_contains, split_lines, text_lines, texts, trim, trim_spec};
use crate::text::{cat, dec, hex_encode, hex_lower, owned, push_char, to_chars};

verus! {

/// First 8 lowercase hex digits of the SHA-256 of the UTF-8 text.
pub open spec fn short_hash_spec(input: Seq<char>) -> Seq<char> {
    hex_lower(sha256_of(vstd::utf8::encode_utf8(input)).subrange(0, 4))
}

/// Short hash for chain naming: the first 8 hex digits of SHA-256.
pub fn short_hash(input: &str) -> (h: String)
    ensures
        h@ == short_hash_spec(input@),
        h@.len() == 8,
{
    let d = sha256(input.as_bytes());
    let mut first: Vec<u8> = Vec::new();
    first.push(d[0]);
    first.push(d[1]);
    first.push(d[2]);
    first.push(d[3]);
    assert(first@ =~= d@.subrange(0, 4));
    hex_encode(first.as_slice())
}

/// Per-event chain names derived from the event's short hash.
pub struct ChainNames {
    pub master: String,
    pub allow: String,
    pub deny: String,
    pub hardening: String,
    pub pause: String,
}

/// Name of the per-event chain with the given prefix (`FCTF-A-`, `FCTF-X-`, ...).
pub open spec fn event_chain(prefix: Seq<char>, event_id: Seq<char>) -> Seq<char> {
    prefix + short_hash_spec(event_id)
}

/// Name of a team's ban chain: `FCTF-B-{event_hash}-{team_hash}`.
pub open spec fn ban_chain_spec(event_id: Seq<char>, team_id: Seq<char>) -> Seq<char> {
    "FCTF-B-"@ + short_hash_spec(event_id) + "-"@ + short_hash_spec(team_id)
}

impl ChainNames {
    /// The names are a fixed master chain and per-event allow / deny /
    /// hardening / pause chains.
    pub open spec fn names_of(self, event_id: Seq<char>) -> bool {
        &&& self.master@ == "FCTF-AWD"@
        &&& self.allow@ == event_chain("FCTF-A-"@, event_id)
        &&& self.deny@ == event_chain("FCTF-X-"@, event_id)
        &&& self.hardening@ == event_chain("FCTF-H-"@, event_id)
        &&& self.pause@ == event_chain("FCTF-P-"@, event_id)
    }

    /// Chain names of one event.
    pub fn for_event(event_id: &str) -> (c: ChainNames)
        ensures
            c.names_of(event_id@),
            c.master@.len() <= 28,
            c.allow@.len() <= 28,
            c.deny@.len() <= 28,
            c.hardening@.len() <= 28,
            c.pause@.len() <= 28,
    {
        proof {
            reveal_strlit("FCTF-AWD");
            reveal_strlit("FCTF-A-");
            reveal_strlit("FCTF-X-");
            reveal_strlit("FCTF-H-");
            reveal_strlit("FCTF-P-");
        }
        let h = short_hash(event_id);
        ChainNames {
            master: owned("FCTF-AWD"),
            allow: cat(owned("FCTF-A-"), h.as_str()),
            deny: cat(owned("FCTF-X-"), h.as_str()),
            hardening: cat(owned("FCTF-H-"), h.as_str()),
            pause: cat(owned("FCTF-P-"), h.as_str()),
        }
    }

    /// Ban chain of one team in one event; it fits iptables' 28-character limit.
    pub fn ban_chain(event_id: &str, team_id: &str) -> (s: String)
        ensures
            s@ == ban_chain_spec(event_id@, team_id@),
            s@.len() <= 28,
    {
        proof {
            reveal_strlit("FCTF-B-");
            reveal_strlit("-");
        }
        let e = short_hash(event_id);
        let t = short_hash(team_id);
        cat(cat(cat(owned("FCTF-B-"), e.as_str()), "-"), t.as_str())
    }
}

/// Rendered iptables rules for one event phase (or a merge of several).
pub struct RenderedRules {
    pub iptables_restore_input: String,
    pub description: String,
}

/// Lines joined with `\n` (no trailing newline).
pub open spec fn join_lines(lines: Seq<Seq<char>>) -> Seq<char>
    decreases lines.len(),
{
    if lines.len() == 0 {
        Seq::empty()
    } else if lines.len() == 1 {
        lines[0]
    } else {
        join_lines(lines.drop_last()) + seq!['\n'] + lines.last()
    }
}

/// An `iptables-restore` input for the filter table holding `lines`.
pub open spec fn restore_text(lines: Seq<Seq<char>>) -> Seq<char> {
    "*filter\n"@ + join_lines(lines) + "\nCOMMIT\n"@
}

/// Wraps rule lines into one filter-table `iptables-restore` block.
pub fn filter_block(rules: &Vec<String>) -> (s: String)
    ensures
        s@ == restore_text(texts(rules@)),
{
    let mut body = String::new();
    let mut i: usize = 0;
    while i < rules.len()
        invariant
            0 <= i <= rules@.len(),
            body@ == join_lines(texts(rules@.subrange(0, i as int))),
        decreases rules@.len() - i,
    {
        proof {
            let pre = texts(rules@.subrange(0, i as int + 1));
            assert(pre.drop_last() =~= texts(rules@.subrange(0, i as int)));
            assert(pre.last() == rules@[i as int]@);
        }
        if i > 0 {
            push_char(&mut body, '\n');
        }
        body = cat(body, rules[i].as_str());
        i = i + 1;
    }
    assert(rules@.subrange(0, rules@.len() as int) =~= rules@);
    let s = cat(owned("*filter\n"), body.as_str());
    cat(s, "\nCOMMIT\n")
}

/// `:{chain} -` — declares the chain.
pub open spec fn line_new(chain: Seq<char>) -> Seq<char> {
    ":"@ + chain + " -"@
}

/// Accepts established and related flows.
pub open spec fn line_established(chain: Seq<char>) -> Seq<char> {
    "-A "@ + chain + " -m conntrack --ctstate ESTABLISHED,RELATED -j ACCEPT"@
}

/// `-A {chain} -s {src} -d {dst} -j {target}`.
pub open spec fn line_sd(chain: Seq<char>, src: Seq<char>, dst: Seq<char>, target: Seq<char>) -> Seq<char> {
    "-A "@ + chain + " -s "@ + src + " -d "@ + dst + " -j "@ + target
}

/// `-A {chain} -s {src} -j {target}`.
pub open spec fn line_s(chain: Seq<char>, src: Seq<char>, target: Seq<char>) -> Seq<char> {
    "-A "@ + chain + " -s "@ + src + " -j "@ + target
}

/// `-A {chain} -d {dst} -j {target}`.
pub open spec fn line_d(chain: Seq<char>, dst: Seq<char>, target: Seq<char>) -> Seq<char> {
    "-A "@ + chain + " -d "@ + dst + " -j "@ + target
}

/// `-A {chain} -j RETURN` — back to the master chain.
pub open spec fn line_return(chain: Seq<char>) -> Seq<char> {
    "-A "@ + chain + " -j RETURN"@
}

fn rule_new(chain: &str) -> (s: String)
    ensures
        s@ == line_new(chain@),
{
    cat(cat(owned(":"), chain), " -")
}

fn rule_established(chain: &str) -> (s: String)
    ensures
        s@ == line_established(chain@),
{
    cat(cat(owned("-A "), chain), " -m conntrack --ctstate ESTABLISHED,RELATED -j ACCEPT")
}

fn rule_sd(chain: &str, src: &str, dst: &str, target: &str) -> (s: String)
    ensures
        s@ == line_sd(chain@, src@, dst@, target@),
{
    let s = cat(cat(cat(owned("-A "), chain), " -s "), src);
    cat(cat(cat(s, " -d "), dst), " -j ").concat(target)
}

fn rule_s(chain: &str, src: &str, target: &str) -> (s: String)
    ensures
        s@ == line_s(chain@, src@, target@),
{
    cat(cat(cat(cat(cat(owned("-A "), chain), " -s "), src), " -j "), target)
}

fn rule_d(chain: &str, dst: &str, target: &str) -> (s: String)
    ensures
        s@ == line_d(chain@, dst@, target@),
{
    cat(cat(cat(cat(cat(owned("-A "), chain), " -d "), dst), " -j "), target)
}

fn rule_return(chain: &str) -> (s: String)
    ensures
        s@ == line_return(chain@),
{
    cat(cat(owned("-A "), chain), " -j RETURN")
}

/// Player access lines of the hardening phase: each team's WireGuard block may
/// reach its own gamebox block, through the team's ban chain.
pub open spec fn team_access_lines(event_id: Seq<char>, chain: Seq<char>, teams: Seq<(String, String, String)>) -> Seq<
    Seq<char>,
> {
    Seq::new(
        teams.len(),
        |i: int| line_sd(chain, teams[i].2@, teams[i].1@, ban_chain_spec(event_id, teams[i].0@)),
    )
}

/// Hardening-phase rule lines.
pub open spec fn hardening_lines(
    event_id: Seq<char>,
    gb: Seq<char>,
    wg: Seq<char>,
    fs: Seq<char>,
    js: Seq<char>,
    teams: Seq<(String, String, String)>,
) -> Seq<Seq<char>> {
    let h = event_chain("FCTF-H-"@, event_id);
    seq![line_new(h), line_established(h), line_sd(h, js, gb, "ACCEPT"@)] + team_access_lines(event_id, h, teams)
        + seq![
        line_sd(h, gb, gb, "DROP"@),
        line_sd(h, gb, wg, "DROP"@),
        line_sd(h, gb, fs, "DROP"@),
        line_sd(h, gb, js, "DROP"@),
        line_sd(h, "0.0.0.0/0"@, fs, "DROP"@),
        line_sd(h, "0.0.0.0/0"@, js, "DROP"@),
        line_sd(h, gb, "0.0.0.0/8"@, "DROP"@),
        line_sd(h, gb, "10.0.0.0/8"@, "DROP"@),
        line_sd(h, gb, "172.16.0.0/12"@, "DROP"@),
        line_sd(h, gb, "192.168.0.0/16"@, "DROP"@),
        line_return(h),
    ]
}

/// Renders the hardening phase: teams reach only their own gameboxes, the
/// JudgeServer reaches all gameboxes, gameboxes are isolated from each other,
/// from players' WireGuard block, from the FlagServer / JudgeServer and from
/// private and public ranges; nobody else reaches the FlagServer / JudgeServer.
///
/// `team_subnets` holds `(team_id, gamebox_subnet, wireguard_subnet)`.
pub fn render_hardening_rules(
    event_id: &str,
    gamebox_cidr: &Ipv4Cidr,
    wg_cidr: &Ipv4Cidr,
    flagserver_ip: &str,
    judgeserver_ip: &str,
    team_subnets: &[(String, String, String)],
) -> (r: RenderedRules)
    ensures
        r.iptables_restore_input@ == restore_text(
            hardening_lines(event_id@, cidr_text(*gamebox_cidr), cidr_text(*wg_cidr), flagserver_ip@, judgeserver_ip@, team_subnets@),
        ),
        r.description@ == "Hardening rules for event "@ + short_hash_spec(event_id@),
{
    let chains = ChainNames::for_event(event_id);
    let h = chains.hardening.as_str();
    let gb_s = gamebox_cidr.to_string();
    let gb = gb_s.as_str();
    let wg_s = wg_cidr.to_string();
    let wg = wg_s.as_str();
    let mut rules: Vec<String> = Vec::new();
    rules.push(rule_new(h));
    rules.push(rule_established(h));
    rules.push(rule_sd(h, judgeserver_ip, gb, "ACCEPT"));
    let ghost head = seq![line_new(h@), line_established(h@), line_sd(h@, judgeserver_ip@, gb@, "ACCEPT"@)];
    assert(texts(rules@) =~= head);
    let mut i: usize = 0;
    while i < team_subnets.len()
        invariant
            0 <= i <= team_subnets@.len(),
            h@ == event_chain("FCTF-H-"@, event_id@),
            texts(rules@) =~= head + team_access_lines(event_id@, h@, team_subnets@.subrange(0, i as int)),
        decreases team_subnets@.len() - i,
    {
        let (team_id, gamebox_subnet, wg_subnet) = &team_subnets[i];
        let ban_chain = ChainNames::ban_chain(event_id, team_id.as_str());
        let ghost old_rules = rules@;
        let line = rule_sd(h, wg_subnet.as_str(), gamebox_subnet.as_str(), ban_chain.as_str());
        rules.push(line);
        assert(texts(rules@) =~= texts(old_rules).push(line@));
        assert(team_access_lines(event_id@, h@, team_subnets@.subrange(0, i as int + 1)) =~= team_access_lines(
            event_id@,
            h@,
            team_subnets@.subrange(0, i as int),
        ).push(line_sd(h@, wg_subnet@, gamebox_subnet@, ban_chain_spec(event_id@, team_id@))));
        i = i + 1;
    }
    assert(team_subnets@.subrange(0, team_subnets@.len() as int) =~= team_subnets@);
    rules.push(rule_sd(h, gb, gb, "DROP"));
    rules.push(rule_sd(h, gb, wg, "DROP"));
    rules.push(rule_sd(h, gb, flagserver_ip, "DROP"));
    rules.push(rule_sd(h, gb, judgeserver_ip, "DROP"));
    rules.push(rule_sd(h, "0.0.0.0/0", flagserver_ip, "DROP"));
    rules.push(rule_sd(h, "0.0.0.0/0", judgeserver_ip, "DROP"));
    rules.push(rule_sd(h, gb, "0.0.0.0/8", "DROP"));
    rules.push(rule_sd(h, gb, "10.0.0.0/8", "DROP"));
    rules.push(rule_sd(h, gb, "172.16.0.0/12", "DROP"));
    rules.push(rule_sd(h, gb, "192.168.0.0/16", "DROP"));
    rules.push(rule_return(h));
    assert(texts(rules@) =~= hardening_lines(
        event_id@,
        gb@,
        wg@,
        flagserver_ip@,
        judgeserver_ip@,
        team_subnets@,
    ));
    let output = filter_block(&rules);
    let hash = short_hash(event_id);
    RenderedRules {
        iptables_restore_input: output,
        description: cat(owned("Hardening rules for event "), hash.as_str()),
    }
}

/// The lines of a chain: its declaration, the accept of established and
/// related flows, one `-A {chain} -s {src} -d {dst} -j {target}` line per rule
/// `(src, dst, target)`, and the return to the master chain.
pub open spec fn chain_lines(chain: Seq<char>, rules: Seq<(Seq<char>, Seq<char>, Seq<char>)>) -> Seq<Seq<char>> {
    seq![line_new(chain), line_established(chain)] + Seq::new(
        rules.len(),
        |i: int| line_sd(chain, rules[i].0, rules[i].1, rules[i].2),
    ) + seq![line_return(chain)]
}

/// Source / destination / target of the attack-phase rules, in order: the
/// drops that keep the servers out of reach come before the broad accepts, so
/// that a FlagServer or JudgeServer address inside the gamebox block stays
/// protected.
pub open spec fn attack_rules(gb: Seq<char>, wg: Seq<char>, fs: Seq<char>, js: Seq<char>) -> Seq<
    (Seq<char>, Seq<char>, Seq<char>),
> {
    seq![
        (gb, js, "DROP"@),
        (wg, fs, "DROP"@),
        (wg, js, "DROP"@),
        (gb, gb, "ACCEPT"@),
        (gb, fs, "ACCEPT"@),
        (wg, gb, "ACCEPT"@),
    ]
}

/// Attack-phase rule lines.
pub open spec fn attack_lines(event_id: Seq<char>, gb: Seq<char>, wg: Seq<char>, fs: Seq<char>, js: Seq<char>) -> Seq<
    Seq<char>,
> {
    chain_lines(event_chain("FCTF-A-"@, event_id), attack_rules(gb, wg, fs, js))
}

/// The addresses an address text of a rule stands for: a `network/prefix`
/// block, or a single dotted-decimal address.
pub open spec fn text_covers(t: Seq<char>, a: u32) -> bool {
    match cidr_parse_spec(t) {
        Some(c) => c.has(a as int),
        None => ipv4_parse_spec(t) == Some(a),
    }
}

/// What a chain does with a new connection from `src` to `dst`: the target of
/// the first rule whose source covers `src` and whose destination covers
/// `dst`, or `None` when none does and the packet returns to the master chain.
/// (The established/related accept never matches a new connection.)
pub open spec fn first_verdict(rules: Seq<(Seq<char>, Seq<char>, Seq<char>)>, src: u32, dst: u32) -> Option<
    Seq<char>,
>
    decreases rules.len(),
{
    if rules.len() == 0 {
        None
    } else if text_covers(rules[0].0, src) && text_covers(rules[0].1, dst) {
        Some(rules[0].2)
    } else {
        first_verdict(rules.drop_first(), src, dst)
    }
}

/// During the attack phase a new connection from a gamebox to the
/// JudgeServer, or from a player's WireGuard address to the FlagServer or the
/// JudgeServer, is dropped, wherever those servers' addresses lie (inside the
/// gamebox block too).
pub proof fn lemma_attack_protects_servers(gb: Seq<char>, wg: Seq<char>, fs: Seq<char>, js: Seq<char>, src: u32, dst: u32)
    requires
        (text_covers(gb, src) && text_covers(js, dst)) || (text_covers(wg, src) && text_covers(fs, dst)) || (
        text_covers(wg, src) && text_covers(js, dst)),
    ensures
        first_verdict(attack_rules(gb, wg, fs, js), src, dst) == Some("DROP"@),
{
    reveal_with_fuel(first_verdict, 4);
    let r = attack_rules(gb, wg, fs, js);
    assert(r.drop_first() =~= r.subrange(1, 6));
    assert(r.drop_first().drop_first() =~= r.subrange(2, 6));
}

/// The attack lines are the attack chain rendering `attack_rules`, one line
/// per rule in their order, between the declaration / established accept
/// and the return.
pub proof fn lemma_attack_chain(event_id: Seq<char>, gb: Seq<char>, wg: Seq<char>, fs: Seq<char>, js: Seq<char>)
    ensures
        attack_lines(event_id, gb, wg, fs, js) == chain_lines(event_chain("FCTF-A-"@, event_id), attack_rules(gb, wg, fs, js)),
        attack_lines(event_id, gb, wg, fs, js).len() == attack_rules(gb, wg, fs, js).len() + 3,
{
}

/// During the attack phase players reach every gamebox that is neither the
/// FlagServer nor the JudgeServer, and gameboxes reach each other and the
/// FlagServer (for a source outside the players' block and a destination
/// that is not the JudgeServer).
pub proof fn lemma_attack_opens_gameboxes(gb: Seq<char>, wg: Seq<char>, fs: Seq<char>, js: Seq<char>, src: u32, dst: u32)
    requires
        (text_covers(wg, src) && !text_covers(gb, src) && text_covers(gb, dst) && !text_covers(fs, dst)
            && !text_covers(js, dst)) || (text_covers(gb, src) && !text_covers(wg, src) && (text_covers(gb, dst)
            || text_covers(fs, dst)) && !text_covers(js, dst)),
    ensures
        first_verdict(attack_rules(gb, wg, fs, js), src, dst) == Some("ACCEPT"@),
{
    reveal_with_fuel(first_verdict, 7);
    let r = attack_rules(gb, wg, fs, js);
    assert(r.drop_first() =~= r.subrange(1, 6));
    assert(r.subrange(1, 6).drop_first() =~= r.subrange(2, 6));
    assert(r.subrange(2, 6).drop_first() =~= r.subrange(3, 6));
    assert(r.subrange(3, 6).drop_first() =~= r.subrange(4, 6));
    assert(r.subrange(4, 6).drop_first() =~= r.subrange(5, 6));
}

/// A rule matches a new connection from `src` to `dst`.
pub open spec fn rule_matches(r: (Seq<char>, Seq<char>, Seq<char>), src: u32, dst: u32) -> bool {
    text_covers(r.0, src) && text_covers(r.1, dst)
}

/// The verdict of a chain made of two runs of rules: the first run decides
/// when one of its rules matches, the second one otherwise.
pub proof fn lemma_first_verdict_concat(
    p: Seq<(Seq<char>, Seq<char>, Seq<char>)>,
    q: Seq<(Seq<char>, Seq<char>, Seq<char>)>,
    src: u32,
    dst: u32,
)
    ensures
        first_verdict(p + q, src, dst) == match first_verdict(p, src, dst) {
            Some(t) => Some(t),
            None => first_verdict(q, src, dst),
        },
    decreases p.len(),
{
    if p.len() == 0 {
        assert(p + q =~= q);
    } else {
        assert((p + q).drop_first() =~= p.drop_first() + q);
        assert((p + q)[0] == p[0]);
        lemma_first_verdict_concat(p.drop_first(), q, src, dst);
    }
}

/// No rule matches: the connection falls through the rules.
pub proof fn lemma_first_verdict_none(rules: Seq<(Seq<char>, Seq<char>, Seq<char>)>, src: u32, dst: u32)
    requires
        forall|i: int| 0 <= i < rules.len() ==> !rule_matches(#[trigger] rules[i], src, dst),
    ensures
        first_verdict(rules, src, dst) is None,
    decreases rules.len(),
{
    if rules.len() > 0 {
        assert(!rule_matches(rules[0], src, dst));
        assert forall|i: int| 0 <= i < rules.drop_first().len() implies !rule_matches(
            #[trigger] rules.drop_first()[i],
            src,
            dst,
        ) by {
            assert(rules.drop_first()[i] == rules[i + 1]);
        }
        lemma_first_verdict_none(rules.drop_first(), src, dst);
    }
}

/// Some rule matches and every matching rule drops: the connection is dropped.
pub proof fn lemma_first_verdict_drop(rules: Seq<(Seq<char>, Seq<char>, Seq<char>)>, k: int, src: u32, dst: u32)
    requires
        0 <= k < rules.len(),
        rule_matches(rules[k], src, dst),
        forall|i: int| 0 <= i < rules.len() && rule_matches(#[trigger] rules[i], src, dst) ==> rules[i].2 == "DROP"@,
    ensures
        first_verdict(rules, src, dst) == Some("DROP"@),
    decreases rules.len(),
{
    if !rule_matches(rules[0], src, dst) {
        let rest = rules.drop_first();
        assert(rest[k - 1] == rules[k]);
        assert forall|i: int| 0 <= i < rest.len() && rule_matches(#[trigger] rest[i], src, dst) implies rest[i].2
            == "DROP"@ by {
            assert(rest[i] == rules[i + 1]);
        }
        lemma_first_verdict_drop(rest, k - 1, src, dst);
    }
}

/// The first matching rule decides.
pub proof fn lemma_first_verdict_at(rules: Seq<(Seq<char>, Seq<char>, Seq<char>)>, k: int, src: u32, dst: u32)
    requires
        0 <= k < rules.len(),
        rule_matches(rules[k], src, dst),
        forall|i: int| 0 <= i < k ==> !rule_matches(#[trigger] rules[i], src, dst),
    ensures
        first_verdict(rules, src, dst) == Some(rules[k].2),
    decreases k,
{
    if k > 0 {
        let rest = rules.drop_first();
        assert(!rule_matches(rules[0], src, dst));
        assert(rest[k - 1] == rules[k]);
        assert forall|i: int| 0 <= i < k - 1 implies !rule_matches(#[trigger] rest[i], src, dst) by {
            assert(rest[i] == rules[i + 1]);
        }
        lemma_first_verdict_at(rest, k - 1, src, dst);
    }
}

/// The players' access rules of the hardening phase: each team's WireGuard
/// block to its own gamebox block, handed to the team's ban chain.
pub open spec fn team_rules(event_id: Seq<char>, teams: Seq<(String, String, String)>) -> Seq<
    (Seq<char>, Seq<char>, Seq<char>),
> {
    Seq::new(teams.len(), |i: int| (teams[i].2@, teams[i].1@, ban_chain_spec(event_id, teams[i].0@)))
}

/// The isolation drops of the hardening phase.
pub open spec fn hardening_drops(gb: Seq<char>, wg: Seq<char>, fs: Seq<char>, js: Seq<char>) -> Seq<
    (Seq<char>, Seq<char>, Seq<char>),
> {
    seq![
        (gb, gb, "DROP"@),
        (gb, wg, "DROP"@),
        (gb, fs, "DROP"@),
        (gb, js, "DROP"@),
        ("0.0.0.0/0"@, fs, "DROP"@),
        ("0.0.0.0/0"@, js, "DROP"@),
        (gb, "0.0.0.0/8"@, "DROP"@),
        (gb, "10.0.0.0/8"@, "DROP"@),
        (gb, "172.16.0.0/12"@, "DROP"@),
        (gb, "192.168.0.0/16"@, "DROP"@),
    ]
}

/// Source / destination / target of the hardening-phase rules, in order.
pub open spec fn hardening_rules(
    event_id: Seq<char>,
    gb: Seq<char>,
    wg: Seq<char>,
    fs: Seq<char>,
    js: Seq<char>,
    teams: Seq<(String, String, String)>,
) -> Seq<(Seq<char>, Seq<char>, Seq<char>)> {
    seq![(js, gb, "ACCEPT"@)] + team_rules(event_id, teams) + hardening_drops(gb, wg, fs, js)
}

/// The hardening lines are the hardening chain holding `hardening_rules`.
pub proof fn lemma_hardening_chain(
    event_id: Seq<char>,
    gb: Seq<char>,
    wg: Seq<char>,
    fs: Seq<char>,
    js: Seq<char>,
    teams: Seq<(String, String, String)>,
)
    ensures
        hardening_lines(event_id, gb, wg, fs, js, teams) == chain_lines(
            event_chain("FCTF-H-"@, event_id),
            hardening_rules(event_id, gb, wg, fs, js, teams),
        ),
{
    let h = event_chain("FCTF-H-"@, event_id);
    let a = hardening_lines(event_id, gb, wg, fs, js, teams);
    let b = chain_lines(h, hardening_rules(event_id, gb, wg, fs, js, teams));
    let n = teams.len() as int;
    assert(a.len() == b.len());
    assert forall|i: int| 0 <= i < a.len() implies a[i] == b[i] by {
        if 3 <= i < 3 + n {
            assert(team_access_lines(event_id, h, teams)[i - 3] == line_sd(
                h,
                teams[i - 3].2@,
                teams[i - 3].1@,
                ban_chain_spec(event_id, teams[i - 3].0@),
            ));
        }
    }
    assert(a =~= b);
}

/// During the hardening phase a new connection from a gamebox to a gamebox,
/// to the players' WireGuard block, to the FlagServer or to the JudgeServer is
/// dropped (for a source that is neither the JudgeServer nor inside a team's
/// WireGuard block).
pub proof fn lemma_hardening_isolates_gameboxes(
    event_id: Seq<char>,
    gb: Seq<char>,
    wg: Seq<char>,
    fs: Seq<char>,
    js: Seq<char>,
    teams: Seq<(String, String, String)>,
    src: u32,
    dst: u32,
)
    requires
        text_covers(gb, src),
        !text_covers(js, src),
        forall|i: int| 0 <= i < teams.len() ==> !text_covers(#[trigger] teams[i].2@, src),
        text_covers(gb, dst) || text_covers(wg, dst) || text_covers(fs, dst) || text_covers(js, dst),
    ensures
        first_verdict(hardening_rules(event_id, gb, wg, fs, js, teams), src, dst) == Some("DROP"@),
{
    let head = seq![(js, gb, "ACCEPT"@)] + team_rules(event_id, teams);
    let drops = hardening_drops(gb, wg, fs, js);
    assert forall|i: int| 0 <= i < head.len() implies !rule_matches(#[trigger] head[i], src, dst) by {
        if i > 0 {
            assert(head[i] == team_rules(event_id, teams)[i - 1]);
        }
    }
    lemma_first_verdict_none(head, src, dst);
    lemma_first_verdict_concat(head, drops, src, dst);
    let k: int = if text_covers(gb, dst) {
        0
    } else if text_covers(wg, dst) {
        1
    } else if text_covers(fs, dst) {
        2
    } else {
        3
    };
    lemma_first_verdict_drop(drops, k, src, dst);
}

/// During the hardening phase a team's WireGuard block reaches its own gamebox
/// block through the team's ban chain: a new connection matching team `k`'s
/// access rule (and no earlier team's, and not from the JudgeServer) is handed
/// to `FCTF-B-{event}-{team}`.
pub proof fn lemma_hardening_team_access(
    event_id: Seq<char>,
    gb: Seq<char>,
    wg: Seq<char>,
    fs: Seq<char>,
    js: Seq<char>,
    teams: Seq<(String, String, String)>,
    k: int,
    src: u32,
    dst: u32,
)
    requires
        0 <= k < teams.len(),
        text_covers(teams[k].2@, src),
        text_covers(teams[k].1@, dst),
        !(text_covers(js, src) && text_covers(gb, dst)),
        forall|j: int| 0 <= j < k ==> !(text_covers(#[trigger] teams[j].2@, src) && text_covers(teams[j].1@, dst)),
    ensures
        first_verdict(hardening_rules(event_id, gb, wg, fs, js, teams), src, dst) == Some(
            ban_chain_spec(event_id, teams[k].0@),
        ),
{
    let rules = hardening_rules(event_id, gb, wg, fs, js, teams);
    let tr = team_rules(event_id, teams);
    assert(rules[k + 1] == tr[k]);
    assert forall|i: int| 0 <= i < k + 1 implies !rule_matches(#[trigger] rules[i], src, dst) by {
        if i > 0 {
            assert(rules[i] == tr[i - 1]);
        }
    }
    lemma_first_verdict_at(rules, k + 1, src, dst);
}

/// Renders the attack phase: players reach all gameboxes, gameboxes reach each
/// other and the FlagServer; gameboxes do not reach the JudgeServer, and
/// players reach neither the FlagServer nor the JudgeServer (those drops come
/// first, see `attack_rules`).
pub fn render_attack_rules(
    event_id: &str,
    gamebox_cidr: &Ipv4Cidr,
    wg_cidr: &Ipv4Cidr,
    flagserver_ip: &str,
    judgeserver_ip: &str,
) -> (r: RenderedRules)
    ensures
        r.iptables_restore_input@ == restore_text(
            attack_lines(event_id@, cidr_text(*gamebox_cidr), cidr_text(*wg_cidr), flagserver_ip@, judgeserver_ip@),
        ),
        r.description@ == "Attack rules for event "@ + short_hash_spec(event_id@),
{
    let chains = ChainNames::for_event(event_id);
    let a = chains.allow.as_str();
    let wg_s = wg_cidr.to_string();
    let wg = wg_s.as_str();
    let gb_s = gamebox_cidr.to_string();
    let gb = gb_s.as_str();
    let mut rules: Vec<String> = Vec::new();
    rules.push(rule_new(a));
    rules.push(rule_established(a));
    rules.push(rule_sd(a, gb, judgeserver_ip, "DROP"));
    rules.push(rule_sd(a, wg, flagserver_ip, "DROP"));
    rules.push(rule_sd(a, wg, judgeserver_ip, "DROP"));
    rules.push(rule_sd(a, gb, gb, "ACCEPT"));
    rules.push(rule_sd(a, gb, flagserver_ip, "ACCEPT"));
    rules.push(rule_sd(a, wg, gb, "ACCEPT"));
    rules.push(rule_return(a));
    assert(texts(rules@) =~= attack_lines(event_id@, gb@, wg@, flagserver_ip@, judgeserver_ip@));
    let output = filter_block(&rules);
    let hash = short_hash(event_id);
    RenderedRules { iptables_restore_input: output, description: cat(owned("Attack rules for event "), hash.as_str()) }
}

/// The line of a rule with an optional source and an optional destination
/// (`None`: any address): `-A {chain} [-s {src}] [-d {dst}] -j {target}`.
pub open spec fn rule_line(chain: Seq<char>, r: (Option<Seq<char>>, Option<Seq<char>>, Seq<char>)) -> Seq<char> {
    match (r.0, r.1) {
        (Some(src), Some(dst)) => line_sd(chain, src, dst, r.2),
        (Some(src), None) => line_s(chain, src, r.2),
        (None, Some(dst)) => line_d(chain, dst, r.2),
        (None, None) => "-A "@ + chain + " -j "@ + r.2,
    }
}

/// An optional address text covers `a`: any address when absent.
pub open spec fn opt_covers(t: Option<Seq<char>>, a: u32) -> bool {
    match t {
        None => true,
        Some(x) => text_covers(x, a),
    }
}

/// The target of the first rule (optional source, optional destination)
/// matching a new connection from `src` to `dst`; `None` when none does.
pub open spec fn first_target(rules: Seq<(Option<Seq<char>>, Option<Seq<char>>, Seq<char>)>, src: u32, dst: u32) -> Option<
    Seq<char>,
>
    decreases rules.len(),
{
    if rules.len() == 0 {
        None
    } else if opt_covers(rules[0].0, src) && opt_covers(rules[0].1, dst) {
        Some(rules[0].2)
    } else {
        first_target(rules.drop_first(), src, dst)
    }
}

/// The lines of a chain holding rules with optional source / destination:
/// declaration, established/related accept, one line per rule, return.
pub open spec fn rule_chain_lines(chain: Seq<char>, rules: Seq<(Option<Seq<char>>, Option<Seq<char>>, Seq<char>)>) -> Seq<
    Seq<char>,
> {
    seq![line_new(chain), line_established(chain)] + Seq::new(rules.len(), |i: int| rule_line(chain, rules[i]))
        + seq![line_return(chain)]
}

/// How a rule is written for `iptables-restore`: `-A`, the chain, `-s` with
/// the source when there is one, `-d` with the destination when there is
/// one, then `-j` and the target.
pub proof fn lemma_rule_line_syntax(chain: Seq<char>, src: Seq<char>, dst: Seq<char>, target: Seq<char>)
    ensures
        rule_line(chain, (Some(src), Some(dst), target)) == "-A "@ + chain + " -s "@ + src + " -d "@ + dst + " -j "@
            + target,
        rule_line(chain, (Some(src), None, target)) == "-A "@ + chain + " -s "@ + src + " -j "@ + target,
        rule_line(chain, (None, Some(dst), target)) == "-A "@ + chain + " -d "@ + dst + " -j "@ + target,
        rule_line(chain, (None, None, target)) == "-A "@ + chain + " -j "@ + target,
{
}

/// A chain of rules is written as its declaration `:{chain} -`, the accept
/// of established and related flows, each rule on its own line in order, and
/// the return `-A {chain} -j RETURN`.
pub proof fn lemma_rule_chain_layout(chain: Seq<char>, rules: Seq<(Option<Seq<char>>, Option<Seq<char>>, Seq<char>)>)
    ensures
        rule_chain_lines(chain, rules).len() == rules.len() + 3,
        rule_chain_lines(chain, rules)[0] == ":"@ + chain + " -"@,
        rule_chain_lines(chain, rules)[1] == "-A "@ + chain + " -m conntrack --ctstate ESTABLISHED,RELATED -j ACCEPT"@,
        forall|k: int| 0 <= k < rules.len() ==> #[trigger] rule_chain_lines(chain, rules)[k + 2] == rule_line(chain, rules[k]),
        rule_chain_lines(chain, rules)[rules.len() as int + 2] == "-A "@ + chain + " -j RETURN"@,
{
}

/// A chain of two-sided rules is written as its declaration, the accept of
/// established and related flows, `-A {chain} -s {src} -d {dst} -j {target}`
/// for each rule in order, and the return.
pub proof fn lemma_chain_layout(chain: Seq<char>, rules: Seq<(Seq<char>, Seq<char>, Seq<char>)>)
    ensures
        chain_lines(chain, rules).len() == rules.len() + 3,
        chain_lines(chain, rules)[0] == ":"@ + chain + " -"@,
        chain_lines(chain, rules)[1] == "-A "@ + chain + " -m conntrack --ctstate ESTABLISHED,RELATED -j ACCEPT"@,
        forall|k: int| 0 <= k < rules.len() ==> #[trigger] chain_lines(chain, rules)[k + 2] == "-A "@ + chain + " -s "@
            + rules[k].0 + " -d "@ + rules[k].1 + " -j "@ + rules[k].2,
        chain_lines(chain, rules)[rules.len() as int + 2] == "-A "@ + chain + " -j RETURN"@,
{
}

/// The pause-phase rules: new connections from the gamebox block, then new
/// connections to it, are dropped.
pub open spec fn pause_rules(gb: Seq<char>) -> Seq<(Option<Seq<char>>, Option<Seq<char>>, Seq<char>)> {
    seq![(Some(gb), None, "DROP"@), (None, Some(gb), "DROP"@)]
}

/// Pause-phase rule lines.
pub open spec fn pause_lines(event_id: Seq<char>, gb: Seq<char>) -> Seq<Seq<char>> {
    rule_chain_lines(event_chain("FCTF-P-"@, event_id), pause_rules(gb))
}

/// During a pause every new connection that leaves or enters the gamebox
/// block is dropped: the pause chain renders its rules one line each, and the
/// first of them matching a connection from `src` to `dst` drops it whenever
/// `src` or `dst` lies in the gamebox block.
pub proof fn lemma_pause_blocks_gameboxes(event_id: Seq<char>, gb: Seq<char>, src: u32, dst: u32)
    requires
        text_covers(gb, src) || text_covers(gb, dst),
    ensures
        pause_lines(event_id, gb) == rule_chain_lines(event_chain("FCTF-P-"@, event_id), pause_rules(gb)),
        pause_lines(event_id, gb).len() == pause_rules(gb).len() + 3,
        first_target(pause_rules(gb), src, dst) == Some("DROP"@),
{
    reveal_with_fuel(first_target, 3);
    let r = pause_rules(gb);
    assert(r.drop_first() =~= seq![(None::<Seq<char>>, Some(gb), "DROP"@)]);
}

/// Renders the pause phase: established flows continue, every new connection
/// from or to a gamebox is dropped.
pub fn render_pause_rules(event_id: &str, gamebox_cidr: &Ipv4Cidr) -> (r: RenderedRules)
    ensures
        r.iptables_restore_input@ == restore_text(pause_lines(event_id@, cidr_text(*gamebox_cidr))),
        r.description@ == "Pause rules for event "@ + short_hash_spec(event_id@),
{
    let chains = ChainNames::for_event(event_id);
    let p = chains.pause.as_str();
    let gb_s = gamebox_cidr.to_string();
    let gb = gb_s.as_str();
    let mut rules: Vec<String> = Vec::new();
    rules.push(rule_new(p));
    rules.push(rule_established(p));
    rules.push(rule_s(p, gb, "DROP"));
    rules.push(rule_d(p, gb, "DROP"));
    rules.push(rule_return(p));
    assert(texts(rules@) =~= pause_lines(event_id@, gb@));
    let output = filter_block(&rules);
    let hash = short_hash(event_id);
    RenderedRules { iptables_restore_input: output, description: cat(owned("Pause rules for event "), hash.as_str()) }
}

/// Ban rule lines of one team.
pub open spec fn ban_lines(event_id: Seq<char>, team_id: Seq<char>, team_subnet: Seq<char>) -> Seq<Seq<char>> {
    let b = ban_chain_spec(event_id, team_id);
    seq![
        line_new(b),
        line_s(b, team_subnet + "/24"@, "DROP"@),
        line_d(b, team_subnet + "/24"@, "DROP"@),
        line_return(b),
    ]
}

/// Renders a team's ban chain: all traffic from or to the team's /24 is dropped.
pub fn render_ban_rules(event_id: &str, team_id: &str, team_subnet: &str) -> (r: RenderedRules)
    ensures
        r.iptables_restore_input@ == restore_text(ban_lines(event_id@, team_id@, team_subnet@)),
        r.description@ == "Ban rules for team "@ + short_hash_spec(team_id@),
{
    let ban_chain = ChainNames::ban_chain(event_id, team_id);
    let b = ban_chain.as_str();
    let net = cat(owned(team_subnet), "/24");
    let mut rules: Vec<String> = Vec::new();
    rules.push(rule_new(b));
    rules.push(rule_s(b, net.as_str(), "DROP"));
    rules.push(rule_d(b, net.as_str(), "DROP"));
    rules.push(rule_return(b));
    assert(texts(rules@) =~= ban_lines(event_id@, team_id@, team_subnet@));
    let output = filter_block(&rules);
    let hash = short_hash(team_id);
    RenderedRules { iptables_restore_input: output, description: cat(owned("Ban rules for team "), hash.as_str()) }
}

/// A rule line survives a merge: not blank, not a table header, not a commit.
pub open spec fn kept_line(l: Seq<char>) -> bool {
    let t = trim_spec(l);
    !(t.len() == 0 || t == "*filter"@ || t == "COMMIT"@)
}

/// The surviving lines of one render, in order.
pub open spec fn kept_lines(ls: Seq<Seq<char>>) -> Seq<Seq<char>>
    decreases ls.len(),
{
    if ls.len() == 0 {
        Seq::empty()
    } else if kept_line(ls.last()) {
        kept_lines(ls.drop_last()).push(ls.last())
    } else {
        kept_lines(ls.drop_last())
    }
}

/// The surviving lines of all renders, render after render.
pub open spec fn merged_body(parts: Seq<RenderedRules>) -> Seq<Seq<char>>
    decreases parts.len(),
{
    if parts.len() == 0 {
        Seq::empty()
    } else {
        merged_body(parts.drop_last()) + kept_lines(text_lines(parts.last().iptables_restore_input@))
    }
}

/// Texts joined with a separator.
pub open spec fn join_sep(ss: Seq<Seq<char>>, sep: Seq<char>) -> Seq<char>
    decreases ss.len(),
{
    if ss.len() == 0 {
        Seq::empty()
    } else if ss.len() == 1 {
        ss[0]
    } else {
        join_sep(ss.drop_last(), sep) + sep + ss.last()
    }
}

/// Descriptions of the renders.
pub open spec fn descriptions(parts: Seq<RenderedRules>) -> Seq<Seq<char>> {
    Seq::new(parts.len(), |i: int| parts[i].description@)
}

/// The merged `iptables-restore` input of several renders.
pub open spec fn merged_text(parts: Seq<RenderedRules>) -> Seq<char> {
    if parts.len() == 0 {
        "*filter\nCOMMIT\n"@
    } else if parts.len() == 1 {
        parts[0].iptables_restore_input@
    } else {
        restore_text(dedup(merged_body(parts)))
    }
}

/// The description of a merge.
pub open spec fn merged_description(parts: Seq<RenderedRules>) -> Seq<char> {
    if parts.len() == 0 {
        "empty multi-event rules"@
    } else if parts.len() == 1 {
        parts[0].description@
    } else {
        "merged: "@ + join_sep(descriptions(parts), " | "@)
    }
}

fn copy_rules(r: &RenderedRules) -> (c: RenderedRules)
    ensures
        c.iptables_restore_input@ == r.iptables_restore_input@,
        c.description@ == r.description@,
{
    RenderedRules { iptables_restore_input: r.iptables_restore_input.clone(), description: r.description.clone() }
}

/// Merges several events' renders into one atomic `iptables-restore` input, so
/// that applying one event never wipes another event's chains: the rule lines
/// of every render, in order, without repeated lines, in one filter block.
pub fn merge_rendered_rules(parts: &[RenderedRules]) -> (r: RenderedRules)
    ensures
        r.iptables_restore_input@ == merged_text(parts@),
        r.description@ == merged_description(parts@),
{
    if parts.len() == 0 {
        return RenderedRules {
            iptables_restore_input: owned("*filter\nCOMMIT\n"),
            description: owned("empty multi-event rules"),
        };
    }
    if parts.len() == 1 {
        return copy_rules(&parts[0]);
    }
    let filter_header = owned("*filter");
    let commit = owned("COMMIT");
    let mut body_lines: Vec<String> = Vec::new();
    let mut descs = String::new();
    let mut k: usize = 0;
    while k < parts.len()
        invariant
            0 <= k <= parts@.len(),
            parts@.len() >= 2,
            filter_header@ == "*filter"@,
            commit@ == "COMMIT"@,
            texts(body_lines@) == merged_body(parts@.subrange(0, k as int)),
            descs@ == join_sep(descriptions(parts@.subrange(0, k as int)), " | "@),
        decreases parts@.len() - k,
    {
        let p = &parts[k];
        proof {
            let pre = parts@.subrange(0, k as int + 1);
            assert(pre.drop_last() =~= parts@.subrange(0, k as int));
            assert(descriptions(pre).drop_last() =~= descriptions(parts@.subrange(0, k as int)));
        }
        if k > 0 {
            descs = crate::text::cat(descs, " | ");
        }
        descs = crate::text::cat(descs, p.description.as_str());
        let lines = split_lines(p.iptables_restore_input.as_str());
        let ghost before = texts(body_lines@);
        let mut j: usize = 0;
        while j < lines.len()
            invariant
                0 <= j <= lines@.len(),
                filter_header@ == "*filter"@,
                commit@ == "COMMIT"@,
                texts(body_lines@) == before + kept_lines(texts(lines@).subrange(0, j as int)),
            decreases lines@.len() - j,
        {
            let line = &lines[j];
            let t = trim(line.as_str());
            proof {
                let pre = texts(lines@).subrange(0, j as int + 1);
                assert(pre.drop_last() =~= texts(lines@).subrange(0, j as int));
                assert(pre.last() == line@);
            }
            if !(t.as_str().is_empty() || t == filter_header || t == commit) {
                let ghost old_body = body_lines@;
                body_lines.push(line.clone());
                assert(texts(body_lines@) =~= texts(old_body).push(line@));
            }
            j = j + 1;
        }
        assert(texts(lines@).subrange(0, lines@.len() as int) =~= texts(lines@));
        k = k + 1;
    }
    assert(parts@.subrange(0, parts@.len() as int) =~= parts@);
    let deduped = dedup_lines(body_lines);
    let output = filter_block(&deduped);
    RenderedRules { iptables_restore_input: output, description: crate::text::cat(owned("merged: "), descs.as_str()) }
}

/// A merge of two or more renders keeps every rule line of every render:
/// no event's chains are lost to another event's restore.
pub proof fn law_merge_keeps_every_rule(parts: Seq<RenderedRules>, k: int, line: Seq<char>)
    requires
        parts.len() >= 2,
        0 <= k < parts.len(),
        kept_lines(text_lines(parts[k].iptables_restore_input@)).contains(line),
    ensures
        dedup(merged_body(parts)).contains(line),
{
    lemma_body_contains(parts, k, line);
    lemma_dedup_contains(merged_body(parts), line);
}

proof fn lemma_body_contains(parts: Seq<RenderedRules>, k: int, line: Seq<char>)
    requires
        0 <= k < parts.len(),
        kept_lines(text_lines(parts[k].iptables_restore_input@)).contains(line),
    ensures
        merged_body(parts).contains(line),
    decreases parts.len(),
{
    let last = kept_lines(text_lines(parts.last().iptables_restore_input@));
    let rest = merged_body(parts.drop_last());
    if k == parts.len() - 1 {
        let i = choose|i: int| 0 <= i < last.len() && last[i] == line;
        assert((rest + last)[rest.len() + i] == line);
    } else {
        assert(parts.drop_last()[k] == parts[k]);
        lemma_body_contains(parts.drop_last(), k, line);
        let i = choose|i: int| 0 <= i < rest.len() && rest[i] == line;
        assert((rest + last)[i] == line);
    }
}

/// Every rule line that a merge keeps comes from one of the renders.
pub proof fn law_merge_adds_nothing(parts: Seq<RenderedRules>, line: Seq<char>)
    requires
        dedup(merged_body(parts)).contains(line),
    ensures
        exists|k: int| 0 <= k < parts.len() && #[trigger] kept_lines(text_lines(parts[k].iptables_restore_input@)).contains(line),
    decreases parts.len(),
{
    lemma_dedup_contains(merged_body(parts), line);
    lemma_body_origin(parts, line);
}

proof fn lemma_body_origin(parts: Seq<RenderedRules>, line: Seq<char>)
    requires
        merged_body(parts).contains(line),
    ensures
        exists|k: int| 0 <= k < parts.len() && #[trigger] kept_lines(text_lines(parts[k].iptables_restore_input@)).contains(line),
    decreases parts.len(),
{
    if parts.len() > 0 {
        let last = kept_lines(text_lines(parts.last().iptables_restore_input@));
        let rest = merged_body(parts.drop_last());
        let i = choose|i: int| 0 <= i < (rest + last).len() && (rest + last)[i] == line;
        if i < rest.len() {
            assert(rest[i] == line);
            lemma_body_origin(parts.drop_last(), line);
            let k = choose|k: int| 0 <= k < parts.drop_last().len() && #[trigger] kept_lines(text_lines(parts.drop_last()[k].iptables_restore_input@)).contains(line);
            assert(parts.drop_last()[k] == parts[k]);
        } else {
            assert(last[i - rest.len()] == line);
            assert(kept_lines(text_lines(parts[parts.len() - 1].iptables_restore_input@)).contains(line));
        }
    }
}

/// The rule set of a phase.
pub open spec fn phase_text(
    event_id: Seq<char>,
    phase: AwdPhase,
    gb: Ipv4Cidr,
    wg: Ipv4Cidr,
    fs: Seq<char>,
    js: Seq<char>,
    teams: Seq<(String, String, String)>,
) -> Seq<char> {
    match phase {
        AwdPhase::Hardening => restore_text(hardening_lines(event_id, cidr_text(gb), cidr_text(wg), fs, js, teams)),
        AwdPhase::Attack => restore_text(attack_lines(event_id, cidr_text(gb), cidr_text(wg), fs, js)),
        AwdPhase::Pause => restore_text(pause_lines(event_id, cidr_text(gb))),
    }
}

/// The description of a phase's rule set.
pub open spec fn phase_description(event_id: Seq<char>, phase: AwdPhase) -> Seq<char> {
    match phase {
        AwdPhase::Hardening => "Hardening rules for event "@ + short_hash_spec(event_id),
        AwdPhase::Attack => "Attack rules for event "@ + short_hash_spec(event_id),
        AwdPhase::Pause => "Pause rules for event "@ + short_hash_spec(event_id),
    }
}

/// Phase → rules: hardening, attack or pause rules for the event.
pub fn render_rules_for_phase(
    event_id: &str,
    phase: AwdPhase,
    gamebox_cidr: &Ipv4Cidr,
    wg_cidr: &Ipv4Cidr,
    flagserver_ip: &str,
    judgeserver_ip: &str,
    team_subnets: &[(String, String, String)],
) -> (r: RenderedRules)
    ensures
        r.iptables_restore_input@ == phase_text(
            event_id@,
            phase,
            *gamebox_cidr,
            *wg_cidr,
            flagserver_ip@,
            judgeserver_ip@,
            team_subnets@,
        ),
        r.description@ == phase_description(event_id@, phase),
{
    match phase {
        AwdPhase::Hardening => render_hardening_rules(
            event_id,
            gamebox_cidr,
            wg_cidr,
            flagserver_ip,
            judgeserver_ip,
            team_subnets,
        ),
        AwdPhase::Attack => render_attack_rules(event_id, gamebox_cidr, wg_cidr, flagserver_ip, judgeserver_ip),
        AwdPhase::Pause => render_pause_rules(event_id, gamebox_cidr),
    }
}

/// Infrastructure network of an event: the /24 holding its FlagServer.
pub fn infra_network(flagserver_ip: u32) -> (n: Ipv4Cidr)
    ensures
        n.prefix_len == 24,
        n.wf(),
        n.has(flagserver_ip as int),
        n.network == flagserver_ip - flagserver_ip % 256,
{
    proof {
        vstd::arithmetic::power2::lemma2_to64();
    }
    Ipv4Cidr::containing(flagserver_ip, 24)
}

/// Decimal digits whose value fits in `u64`.
pub open spec fn u64_digits(digits: Seq<char>) -> Option<u64> {
    match parse_digits(digits) {
        Some(v) => if v <= u64::MAX { Some(v as u64) } else { None },
        None => None,
    }
}

/// `u64`'s `FromStr`: an optional `+`, then decimal digits whose value fits.
pub open spec fn u64_parse_spec(s: Seq<char>) -> Option<u64> {
    u64_digits(if s.len() > 0 && s[0] == '+' { s.drop_first() } else { s })
}

/// Parses a `u64` as `str::parse` does.
pub fn parse_u64(s: &str) -> (r: Option<u64>)
    ensures
        r == u64_parse_spec(s@),
{
    let cs = to_chars(s);
    let start: usize = if cs.len() > 0 && cs[0] == '+' { 1 } else { 0 };
    let ghost digits = cs@.subrange(start as int, cs@.len() as int);
    proof {
        if cs@.len() > 0 && cs@[0] == '+' {
            assert(digits =~= s@.drop_first());
        } else {
            assert(digits =~= s@);
        }
    }
    if start == cs.len() {
        assert(digits.len() == 0);
        return None;
    }
    let mut acc: u64 = 0;
    let mut i: usize = start;
    while i < cs.len()
        invariant
            cs@ == s@,
            start < cs@.len(),
            start <= i <= cs@.len(),
            digits == cs@.subrange(start as int, cs@.len() as int),
            u64_parse_spec(s@) == u64_digits(digits),
            i == start ==> acc == 0,
            i > start ==> parse_digits(cs@.subrange(start as int, i as int)) == Some(acc as nat),
        decreases cs@.len() - i,
    {
        let c = cs[i];
        let ghost k = (i - start) as int;
        assert(digits.subrange(0, k + 1) =~= cs@.subrange(start as int, i + 1));
        assert(cs@.subrange(start as int, i + 1).drop_last() =~= cs@.subrange(start as int, i as int));
        if !('0' <= c && c <= '9') {
            proof {
                if parse_digits(digits) is Some {
                    crate::cidr::lemma_parse_digits_prefix(digits, k + 1);
                }
            }
            return None;
        }
        let d: u64 = (c as u32 - 48) as u64;
        if acc > (u64::MAX - d) / 10 {
            proof {
                assert(acc * 10 + d > u64::MAX) by (nonlinear_arith)
                    requires
                        acc > (u64::MAX - d) / 10,
                        d <= 9,
                ;
                if parse_digits(digits) is Some {
                    crate::cidr::lemma_parse_digits_prefix(digits, k + 1);
                }
            }
            return None;
        }
        assert(acc * 10 + d <= u64::MAX) by (nonlinear_arith)
            requires
                acc <= (u64::MAX - d) / 10,
                d <= 9,
        ;
        acc = acc * 10 + d;
        i = i + 1;
    }
    assert(cs@.subrange(start as int, i as int) =~= digits);
    Some(acc)
}

/// The stored network-policy revision: the setting's number, 0 when it is
/// missing or not a number (nothing reconciled yet).
pub fn network_revision(setting: Option<&str>) -> (r: u64)
    ensures
        r == (match setting {
            Some(t) => match u64_parse_spec(t@) {
                Some(v) => v,
                None => 0,
            },
            None => 0,
        }),
{
    match setting {
        Some(t) => match parse_u64(t) {
            Some(v) => v,
            None => 0,
        },
        None => 0,
    }
}

/// The revision a change of the desired state is published under: one past the stored one.
pub fn next_network_revision(setting: Option<&str>) -> (r: u64)
    requires
        network_revision_value(setting) < u64::MAX,
    ensures
        r == network_revision_value(setting) + 1,
{
    network_revision(setting) + 1
}

/// The stored revision as [`network_revision`] reads it.
pub open spec fn network_revision_value(setting: Option<&str>) -> u64 {
    match setting {
        Some(t) => match u64_parse_spec(t@) {
            Some(v) => v,
            None => 0,
        },
        None => 0,
    }
}

proof fn lemma_parse_dec(n: nat)
    ensures
        parse_digits(dec(n)) == Some(n),
        dec(n).len() > 0,
        '0' <= dec(n)[0] <= '9',
    decreases n,
{
    if n < 10 {
        assert(dec(n) =~= seq![crate::text::dec_digit(n as int)]);
    } else {
        lemma_parse_dec(n / 10);
        let s = dec(n);
        assert(s.drop_last() =~= dec(n / 10));
        assert(s[0] == dec(n / 10)[0]);
    }
}

/// Law: the network revision written as decimal text is read back as the
/// same number.
pub proof fn law_revision_reads_back(n: u64)
    ensures
        u64_parse_spec(dec(n as nat)) == Some(n),
{
    lemma_parse_dec(n as nat);
}

/// Applying a rule set takes a snapshot of the `FCTF-` chains first; when that
/// fails nothing is applied and the error is a network error.
pub fn snapshot_failure(err: &str) -> (r: AwdError)
    ensures
        r matches AwdError::Network(m) && m@ == "Failed to snapshot rules: "@ + err@,
{
    AwdError::Network(cat(owned("Failed to snapshot rules: "), err))
}

/// When the new rule set fails to apply the snapshot is restored; the error
/// then says whether that restore failed too (`rollback` is its outcome).
pub fn apply_failure(apply_err: &str, rollback: Result<(), String>) -> (r: AwdError)
    ensures
        r matches AwdError::Network(m) && m@ == match rollback {
            Ok(()) => "Firewall apply failed, rolled back: "@ + apply_err@,
            Err(rb) => "Firewall apply failed ("@ + apply_err@ + ") AND rollback failed ("@ + rb@ + ")"@,
        },
{
    match rollback {
        Ok(()) => AwdError::Network(cat(owned("Firewall apply failed, rolled back: "), apply_err)),
        Err(rb) => {
            let m = cat(cat(owned("Firewall apply failed ("), apply_err), ") AND rollback failed (");
            AwdError::Network(cat(cat(m, rb.as_str()), ")"))
        },
    }
}

/// Where the application of a rule set stands: taking the snapshot of the
/// `FCTF-` chains (with the rules to apply), applying the rules (with the
/// snapshot to restore), restoring the snapshot after a failed apply (with
/// that failure), or finished.
#[derive(Debug, PartialEq, Eq)]
pub enum ApplyState {
    Snapshotting { rules: String },
    Applying { snapshot: String },
    RollingBack { apply_err: String },
    Done,
}

/// What the host is asked to do next.
#[derive(Debug, PartialEq, Eq)]
pub enum ApplyAction {
    /// Save the rules of the chains with this prefix.
    Snapshot { chain_prefix: String },
    /// Load this `iptables-restore` input.
    Apply { rules: String },
    /// Stop with this result.
    Finish(Result<(), AwdError>),
}

/// What the host reports back.
#[derive(Debug, PartialEq, Eq)]
pub enum ApplyEvent {
    /// The snapshot (or why it could not be taken).
    Snapshot(Result<String, String>),
    /// The outcome of loading rules.
    Applied(Result<(), String>),
}

/// The event answers the action the state is waiting on.
pub open spec fn apply_event_fits(state: ApplyState, event: ApplyEvent) -> bool {
    match state {
        ApplyState::Snapshotting { .. } => event is Snapshot,
        ApplyState::Applying { .. } => event is Applied,
        ApplyState::RollingBack { .. } => event is Applied,
        ApplyState::Done => false,
    }
}

/// The action leaves the state waiting on the matching event.
pub open spec fn action_awaited(state: ApplyState, action: ApplyAction) -> bool {
    match action {
        ApplyAction::Snapshot { .. } => state is Snapshotting,
        ApplyAction::Apply { .. } => state is Applying || state is RollingBack,
        ApplyAction::Finish(_) => state is Done,
    }
}

/// Applying a rule set starts with a snapshot of the `FCTF-` chains.
pub fn apply_start(rules: String) -> (r: (ApplyState, ApplyAction))
    ensures
        r.0 == (ApplyState::Snapshotting { rules }),
        r.1 matches ApplyAction::Snapshot { chain_prefix } && chain_prefix@ == "FCTF-"@,
        action_awaited(r.0, r.1),
{
    (ApplyState::Snapshotting { rules }, ApplyAction::Snapshot { chain_prefix: owned("FCTF-") })
}

/// One step of applying a rule set: with the snapshot taken the rules are
/// applied; a failed snapshot stops with nothing applied; a successful apply
/// finishes; a failed apply restores the snapshot and then stops with an
/// error saying whether that restore failed too.
pub fn apply_step(state: ApplyState, event: ApplyEvent) -> (r: (ApplyState, ApplyAction))
    requires
        apply_event_fits(state, event),
    ensures
        action_awaited(r.0, r.1),
        match (state, event) {
            (ApplyState::Snapshotting { rules }, ApplyEvent::Snapshot(Ok(snapshot))) => r == (
                ApplyState::Applying { snapshot },
                ApplyAction::Apply { rules },
            ),
            (ApplyState::Snapshotting { .. }, ApplyEvent::Snapshot(Err(e))) => r.0 == ApplyState::Done && (
            r.1 matches ApplyAction::Finish(Err(AwdError::Network(m))) && m@ == "Failed to snapshot rules: "@ + e@),
            (ApplyState::Applying { .. }, ApplyEvent::Applied(Ok(()))) => r == (
                ApplyState::Done,
                ApplyAction::Finish(Ok(())),
            ),
            (ApplyState::Applying { snapshot }, ApplyEvent::Applied(Err(e))) => r == (
                ApplyState::RollingBack { apply_err: e },
                ApplyAction::Apply { rules: snapshot },
            ),
            (ApplyState::RollingBack { apply_err }, ApplyEvent::Applied(rollback)) => r.0 == ApplyState::Done && (
            r.1 matches ApplyAction::Finish(Err(AwdError::Network(m))) && m@ == match rollback {
                Ok(()) => "Firewall apply failed, rolled back: "@ + apply_err@,
                Err(rb) => "Firewall apply failed ("@ + apply_err@ + ") AND rollback failed ("@ + rb@ + ")"@,
            }),
            _ => false,
        },
{
    match (state, event) {
        (ApplyState::Snapshotting { rules }, ApplyEvent::Snapshot(Ok(snapshot))) => (
            ApplyState::Applying { snapshot },
            ApplyAction::Apply { rules },
        ),
        (ApplyState::Snapshotting { .. }, ApplyEvent::Snapshot(Err(e))) => (
            ApplyState::Done,
            ApplyAction::Finish(Err(snapshot_failure(e.as_str()))),
        ),
        (ApplyState::Applying { .. }, ApplyEvent::Applied(Ok(()))) => (ApplyState::Done, ApplyAction::Finish(Ok(()))),
        (ApplyState::Applying { snapshot }, ApplyEvent::Applied(Err(e))) => (
            ApplyState::RollingBack { apply_err: e },
            ApplyAction::Apply { rules: snapshot },
        ),
        (ApplyState::RollingBack { apply_err }, ApplyEvent::Applied(rollback)) => (
            ApplyState::Done,
            ApplyAction::Finish(Err(apply_failure(apply_err.as_str(), rollback))),
        ),
        (ApplyState::Snapshotting { .. }, ApplyEvent::Applied(_)) => {
            proof {
                assert(false);
            }
            (ApplyState::Done, ApplyAction::Finish(Ok(())))
        },
        (ApplyState::Applying { .. }, ApplyEvent::Snapshot(_)) => {
            proof {
                assert(false);
            }
            (ApplyState::Done, ApplyAction::Finish(Ok(())))
        },
        (ApplyState::RollingBack { .. }, ApplyEvent::Snapshot(_)) => {
            proof {
                assert(false);
            }
            (ApplyState::Done, ApplyAction::Finish(Ok(())))
        },
        (ApplyState::Done, _) => {
            proof {
                assert(false);
            }
            (ApplyState::Done, ApplyAction::Finish(Ok(())))
        },
    }
}

} // verus!
