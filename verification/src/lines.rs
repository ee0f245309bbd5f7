//! Line splitting (with `str::lines` semantics), whitespace trimming (with
//! `str::trim` semantics over Unicode White_Space) and order-preserving
//! de-duplication of text lines.

use vstd::prelude::*;

use crate::text::{from_chars, sub_chars, to_chars};

verus! {

/// The line without one trailing carriage return.
pub open spec fn strip_cr(l: Seq<char>) -> Seq<char> {
    if l.len() > 0 && l.last() == '\r' {
        l.drop_last()
    } else {
        l
    }
}

/// Lines of `s` scanning from position `i`, the current line starting at `start`.
/// A line ended by `\n` loses that `\n` and one `\r` before it; a final line
/// without `\n` is kept as is; nothing follows a final `\n`.
pub open spec fn lines_from(s: Seq<char>, start: int, i: int) -> Seq<Seq<char>>
    decreases s.len() - i,
{
    if i >= s.len() || i < 0 {
        if 0 <= start < s.len() {
            seq![s.subrange(start, s.len() as int)]
        } else {
            Seq::empty()
        }
    } else if s[i] == '\n' {
        seq![strip_cr(s.subrange(start, i))] + lines_from(s, i + 1, i + 1)
    } else {
        lines_from(s, start, i + 1)
    }
}

/// The lines of a text, as `str::lines` yields them.
pub open spec fn text_lines(s: Seq<char>) -> Seq<Seq<char>> {
    lines_from(s, 0, 0)
}

/// The texts of a sequence of strings.
pub open spec fn texts(v: Seq<String>) -> Seq<Seq<char>> {
    Seq::new(v.len(), |i: int| v[i]@)
}

/// Splits a text into lines (the `str::lines` rules: `\n` or `\r\n` endings,
/// the final ending optional).
pub fn split_lines(s: &str) -> (out: Vec<String>)
    ensures
        texts(out@) == text_lines(s@),
{
    let cs = to_chars(s);
    let n = cs.len();
    let mut out: Vec<String> = Vec::new();
    let mut start: usize = 0;
    let mut i: usize = 0;
    while i < n
        invariant
            n == cs@.len(),
            cs@ == s@,
            0 <= start <= i <= n,
            texts(out@) + lines_from(s@, start as int, i as int) =~= text_lines(s@),
        decreases n - i,
    {
        if cs[i] == '\n' {
            let mut end = i;
            if end > start && cs[end - 1] == '\r' {
                end = end - 1;
            }
            let line = from_chars(sub_chars(cs.as_slice(), start, end).as_slice());
            proof {
                let l = s@.subrange(start as int, i as int);
                if l.len() > 0 && l.last() == '\r' {
                    assert(strip_cr(l) =~= s@.subrange(start as int, end as int));
                } else {
                    assert(strip_cr(l) =~= s@.subrange(start as int, end as int));
                }
            }
            let ghost old_out = out@;
            out.push(line);
            assert(texts(out@) =~= texts(old_out).push(line@));
            start = i + 1;
        }
        i = i + 1;
    }
    if start < n {
        let line = from_chars(sub_chars(cs.as_slice(), start, n).as_slice());
        let ghost old_out = out@;
        out.push(line);
        assert(texts(out@) =~= texts(old_out).push(line@));
    }
    out
}

/// Unicode White_Space characters (what `char::is_whitespace` accepts).
pub open spec fn is_ws(c: char) -> bool {
    let v = c as u32;
    (0x09 <= v && v <= 0x0D) || v == 0x20 || v == 0x85 || v == 0xA0 || v == 0x1680 || (0x2000 <= v && v <= 0x200A)
        || v == 0x2028 || v == 0x2029 || v == 0x202F || v == 0x205F || v == 0x3000
}

fn is_whitespace(c: char) -> (b: bool)
    ensures
        b == is_ws(c),
{
    let v = c as u32;
    (0x09 <= v && v <= 0x0D) || v == 0x20 || v == 0x85 || v == 0xA0 || v == 0x1680 || (0x2000 <= v && v <= 0x200A)
        || v == 0x2028 || v == 0x2029 || v == 0x202F || v == 0x205F || v == 0x3000
}

/// The text without leading whitespace.
pub open spec fn trim_start(s: Seq<char>) -> Seq<char>
    decreases s.len(),
{
    if s.len() > 0 && is_ws(s[0]) {
        trim_start(s.drop_first())
    } else {
        s
    }
}

/// The text without trailing whitespace.
pub open spec fn trim_end(s: Seq<char>) -> Seq<char>
    decreases s.len(),
{
    if s.len() > 0 && is_ws(s.last()) {
        trim_end(s.drop_last())
    } else {
        s
    }
}

/// The text without leading and trailing whitespace (`str::trim`).
pub open spec fn trim_spec(s: Seq<char>) -> Seq<char> {
    trim_end(trim_start(s))
}

/// Removes leading and trailing whitespace.
pub fn trim(s: &str) -> (t: String)
    ensures
        t@ == trim_spec(s@),
{
    let cs = to_chars(s);
    let n = cs.len();
    let mut a: usize = 0;
    assert(s@.subrange(0, n as int) =~= s@);
    while a < n && is_whitespace(cs[a])
        invariant
            n == cs@.len(),
            cs@ == s@,
            0 <= a <= n,
            trim_start(s@) == trim_start(s@.subrange(a as int, n as int)),
        decreases n - a,
    {
        assert(s@.subrange(a as int, n as int).drop_first() =~= s@.subrange(a as int + 1, n as int));
        a = a + 1;
    }
    proof {
        if a < n {
            assert(trim_start(s@.subrange(a as int, n as int)) == s@.subrange(a as int, n as int));
        } else {
            assert(s@.subrange(a as int, n as int).len() == 0);
        }
    }
    let mut b: usize = n;
    while b > a && is_whitespace(cs[b - 1])
        invariant
            n == cs@.len(),
            cs@ == s@,
            0 <= a <= b <= n,
            trim_spec(s@) == trim_end(s@.subrange(a as int, b as int)),
        decreases b,
    {
        assert(s@.subrange(a as int, b as int).drop_last() =~= s@.subrange(a as int, b as int - 1));
        b = b - 1;
    }
    from_chars(sub_chars(cs.as_slice(), a, b).as_slice())
}

/// Lines with later repeats removed; first occurrences keep their order.
pub open spec fn dedup(ls: Seq<Seq<char>>) -> Seq<Seq<char>>
    decreases ls.len(),
{
    if ls.len() == 0 {
        Seq::empty()
    } else {
        let d = dedup(ls.drop_last());
        if d.contains(ls.last()) {
            d
        } else {
            d.push(ls.last())
        }
    }
}

/// De-duplication keeps exactly the lines that occur.
pub proof fn lemma_dedup_contains(ls: Seq<Seq<char>>, x: Seq<char>)
    ensures
        dedup(ls).contains(x) <==> ls.contains(x),
    decreases ls.len(),
{
    if ls.len() > 0 {
        lemma_dedup_contains(ls.drop_last(), x);
        let d = dedup(ls.drop_last());
        if ls.drop_last().contains(x) {
            let k = choose|k: int| 0 <= k < ls.drop_last().len() && ls.drop_last()[k] == x;
            assert(ls[k] == x);
        }
        if ls.contains(x) {
            let k = choose|k: int| 0 <= k < ls.len() && ls[k] == x;
            if k < ls.len() - 1 {
                assert(ls.drop_last()[k] == x);
            }
        }
        if !d.contains(ls.last()) {
            assert(d.push(ls.last())[d.len() as int] == ls.last());
            if d.contains(x) {
                let k = choose|k: int| 0 <= k < d.len() && d[k] == x;
                assert(d.push(ls.last())[k] == x);
            }
            if d.push(ls.last()).contains(x) && x != ls.last() {
                let k = choose|k: int| 0 <= k < d.len() + 1 && d.push(ls.last())[k] == x;
                assert(d[k] == x);
            }
        }
    }
}

fn contains_string(v: &Vec<String>, x: &String) -> (b: bool)
    ensures
        b == texts(v@).contains(x@),
{
    let mut i: usize = 0;
    while i < v.len()
        invariant
            0 <= i <= v@.len(),
            forall|j: int| 0 <= j < i ==> v@[j]@ != x@,
        decreases v@.len() - i,
    {
        if v[i] == *x {
            assert(texts(v@)[i as int] == x@);
            return true;
        }
        i = i + 1;
    }
    assert forall|j: int| 0 <= j < texts(v@).len() implies texts(v@)[j] != x@ by {
        assert(texts(v@)[j] == v@[j]@);
    }
    false
}

/// Removes repeated lines, keeping the first occurrence of each in order.
pub fn dedup_lines(lines: Vec<String>) -> (out: Vec<String>)
    ensures
        texts(out@) == dedup(texts(lines@)),
{
    let mut out: Vec<String> = Vec::new();
    let mut i: usize = 0;
    while i < lines.len()
        invariant
            0 <= i <= lines@.len(),
            texts(out@) == dedup(texts(lines@.subrange(0, i as int))),
        decreases lines@.len() - i,
    {
        let l = lines[i].clone();
        proof {
            let pre = texts(lines@.subrange(0, i as int + 1));
            assert(pre.drop_last() =~= texts(lines@.subrange(0, i as int)));
            assert(pre.last() == l@);
        }
        if !contains_string(&out, &l) {
            let ghost old_out = out@;
            out.push(l);
            assert(texts(out@) =~= texts(old_out).push(lines@[i as int]@));
        }
        i = i + 1;
    }
    assert(lines@.subrange(0, lines@.len() as int) =~= lines@);
    out
}

} // verus!
