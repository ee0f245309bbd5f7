//! IPv4 addresses and CIDR blocks: parsing, rendering, containment,
//! overlap, host and sub-block enumeration.

use vstd::arithmetic::power2::{pow2, lemma_pow2_adds, lemma_pow2_pos};
use vstd::bits::lemma_u64_shl_is_mul;
use vstd::prelude::*;

use crate::text::{cat, dec, owned, push_char, sub_chars, to_chars, u64_decimal};

verus! {

/// Number of addresses in a block with prefix length `p` (`p <= 32`).
pub open spec fn block_len(p: nat) -> nat {
    pow2((32 - p) as nat)
}

/// The four dotted-decimal octets of an address, most significant first.
pub open spec fn octets(a: u32) -> (nat, nat, nat, nat) {
    (
        (a as nat / 16777216) as nat,
        ((a as nat / 65536) % 256) as nat,
        ((a as nat / 256) % 256) as nat,
        (a as nat % 256) as nat,
    )
}

/// Dotted-decimal text of an address (`a.b.c.d`).
pub open spec fn ipv4_text(a: u32) -> Seq<char> {
    let o = octets(a);
    dec(o.0) + seq!['.'] + dec(o.1) + seq!['.'] + dec(o.2) + seq!['.'] + dec(o.3)
}

/// Value of a run of ASCII decimal digits (`None` for an empty text or any non-digit).
pub open spec fn parse_digits(s: Seq<char>) -> Option<nat>
    decreases s.len(),
{
    if s.len() == 0 {
        None
    } else if !('0' <= s.last() && s.last() <= '9') {
        None
    } else if s.len() == 1 {
        Some((s.last() as nat - 48) as nat)
    } else {
        match parse_digits(s.drop_last()) {
            Some(v) => Some(v * 10 + (s.last() as nat - 48) as nat),
            None => None,
        }
    }
}

/// A parsed digit run parses in every non-empty prefix, to no more than the whole.
pub proof fn lemma_parse_digits_prefix(s: Seq<char>, i: int)
    requires
        0 < i <= s.len(),
        parse_digits(s) is Some,
    ensures
        parse_digits(s.subrange(0, i)) is Some,
        parse_digits(s.subrange(0, i))->0 <= parse_digits(s)->0,
    decreases s.len(),
{
    if i == s.len() {
        assert(s.subrange(0, i) =~= s);
    } else {
        lemma_parse_digits_prefix(s.drop_last(), i);
        assert(s.drop_last().subrange(0, i) =~= s.subrange(0, i));
    }
}

/// The index of the first `c` in `s`, if any.
pub open spec fn first_index_of(s: Seq<char>, c: char) -> Option<int> {
    if exists|i: int| 0 <= i < s.len() && s[i] == c {
        Some(choose|i: int| 0 <= i < s.len() && s[i] == c && forall|j: int| 0 <= j < i ==> s[j] != c)
    } else {
        None
    }
}

/// One octet of a dotted-decimal address: one to three digits, no leading
/// zero unless the octet is `0` itself, value at most 255.
pub open spec fn octet_value(t: Seq<char>) -> Option<nat> {
    if 1 <= t.len() <= 3 && (t.len() == 1 || t[0] != '0') {
        match parse_digits(t) {
            Some(v) => if v <= 255 {
                Some(v)
            } else {
                None
            },
            None => None,
        }
    } else {
        None
    }
}

/// The address a dotted-decimal text denotes: exactly four octets separated by `.`.
#[verifier::opaque]
pub open spec fn ipv4_parse_spec(s: Seq<char>) -> Option<u32> {
    match first_index_of(s, '.') {
        None => None,
        Some(a) => {
            let r1 = s.subrange(a + 1, s.len() as int);
            match first_index_of(r1, '.') {
                None => None,
                Some(b) => {
                    let r2 = r1.subrange(b + 1, r1.len() as int);
                    match first_index_of(r2, '.') {
                        None => None,
                        Some(c) => {
                            let r3 = r2.subrange(c + 1, r2.len() as int);
                            match (
                                octet_value(s.subrange(0, a)),
                                octet_value(r1.subrange(0, b)),
                                octet_value(r2.subrange(0, c)),
                                octet_value(r3),
                            ) {
                                (Some(o0), Some(o1), Some(o2), Some(o3)) => Some(
                                    (o0 * 16777216 + o1 * 65536 + o2 * 256 + o3) as u32,
                                ),
                                _ => None,
                            }
                        },
                    }
                },
            }
        },
    }
}

/// Position of the first `c` in `cs`.
pub fn find_char(cs: &[char], c: char) -> (r: Option<usize>)
    ensures
        match r {
            Some(i) => i < cs@.len() && cs@[i as int] == c && forall|j: int| 0 <= j < i ==> cs@[j] != c,
            None => forall|j: int| 0 <= j < cs@.len() ==> cs@[j] != c,
        },
{
    let mut i: usize = 0;
    while i < cs.len()
        invariant
            i <= cs@.len(),
            forall|j: int| 0 <= j < i ==> cs@[j] != c,
        decreases cs@.len() - i,
    {
        if cs[i] == c {
            return Some(i);
        }
        i = i + 1;
    }
    None
}

/// Address count of a block with prefix `prefix`.
pub fn block_size(prefix: u8) -> (r: u64)
    requires
        prefix <= 32,
    ensures
        r as nat == block_len(prefix as nat),
        1 <= r <= 0x1_0000_0000,
{
    let shift: u64 = (32 - prefix) as u64;
    proof {
        vstd::bits::lemma_u64_pow2_no_overflow(shift as nat);
        lemma_pow2_adds(shift as nat, (32 - shift) as nat);
        lemma_pow2_pos((32 - shift) as nat);
        vstd::arithmetic::power2::lemma2_to64();
        assert(pow2(shift as nat) * pow2((32 - shift) as nat) == 0x1_0000_0000);
        assert(pow2(shift as nat) <= 0x1_0000_0000) by (nonlinear_arith)
            requires
                pow2(shift as nat) * pow2((32 - shift) as nat) == 0x1_0000_0000,
                pow2((32 - shift) as nat) >= 1,
        ;
        lemma_u64_shl_is_mul(1, shift);
    }
    1u64 << shift
}

/// A block of `2^(32 - prefix_len)` consecutive IPv4 addresses starting at `network`.
#[derive(Clone, Copy, Debug, PartialEq, Eq)]
pub struct Ipv4Cidr {
    pub network: u32,
    pub prefix_len: u8,
}

/// A block-aligned network address and a prefix length of at most 32.
pub open spec fn aligned(network: nat, prefix: nat) -> bool {
    prefix <= 32 && network % block_len(prefix) == 0 && network < 0x1_0000_0000
}

pub proof fn lemma_block_fits(network: nat, prefix: nat)
    requires
        aligned(network, prefix),
    ensures
        network + block_len(prefix) <= 0x1_0000_0000,
        block_len(prefix) >= 1,
{
    let s = block_len(prefix);
    let e = (32 - prefix) as nat;
    lemma_pow2_pos(e);
    lemma_pow2_adds(e, prefix);
    vstd::arithmetic::power2::lemma2_to64();
    let m = pow2(prefix);
    assert(s * m == 0x1_0000_0000);
    let k = network / s;
    vstd::arithmetic::div_mod::lemma_fundamental_div_mod(network as int, s as int);
    assert(network == s * k);
    assert(k < m) by (nonlinear_arith)
        requires
            network == s * k,
            s * m == 0x1_0000_0000,
            network < 0x1_0000_0000,
            s >= 1,
    ;
    assert(network + s <= 0x1_0000_0000) by (nonlinear_arith)
        requires
            network == s * k,
            s * m == 0x1_0000_0000,
            k < m,
            k >= 0,
    ;
}

/// The block of prefix `prefix` holding address `a`.
pub open spec fn block_of(a: nat, prefix: nat) -> Ipv4Cidr {
    Ipv4Cidr { network: (a - a % block_len(prefix)) as u32, prefix_len: prefix as u8 }
}

/// What `Ipv4Cidr::parse` accepts: `addr/prefix` with an address std accepts
/// and a decimal prefix of at most 32; host bits of the address are cleared.
#[verifier::opaque]
pub open spec fn cidr_parse_spec(s: Seq<char>) -> Option<Ipv4Cidr> {
    match first_index_of(s, '/') {
        None => None,
        Some(i) => match (ipv4_parse_spec(s.subrange(0, i)), parse_digits(s.subrange(i + 1, s.len() as int))) {
            (Some(a), Some(p)) => if p <= 32 {
                Some(block_of(a as nat, p))
            } else {
                None
            },
            _ => None,
        },
    }
}

/// Text of a block: `network/prefix`.
pub open spec fn cidr_text(c: Ipv4Cidr) -> Seq<char> {
    ipv4_text(c.network) + seq!['/'] + dec(c.prefix_len as nat)
}

/// Renders an address as dotted decimal.
pub fn ipv4_to_string(a: u32) -> (s: String)
    ensures
        s@ == ipv4_text(a),
{
    let o0 = a / 16777216;
    let o1 = (a / 65536) % 256;
    let o2 = (a / 256) % 256;
    let o3 = a % 256;
    let mut s = u64_decimal(o0 as u64);
    push_char(&mut s, '.');
    let t1 = u64_decimal(o1 as u64);
    let mut s = cat(s, t1.as_str());
    push_char(&mut s, '.');
    let t2 = u64_decimal(o2 as u64);
    let mut s = cat(s, t2.as_str());
    push_char(&mut s, '.');
    let t3 = u64_decimal(o3 as u64);
    let s = cat(s, t3.as_str());
    s
}

impl Ipv4Cidr {
    /// Well-formed: prefix at most 32 and the network address block-aligned.
    pub open spec fn wf(self) -> bool {
        aligned(self.network as nat, self.prefix_len as nat)
    }

    /// Number of addresses in the block.
    pub open spec fn size(self) -> nat {
        block_len(self.prefix_len as nat)
    }

    /// Address `a` lies inside the block.
    pub open spec fn has(self, a: int) -> bool {
        self.network <= a < self.network + self.size()
    }

    /// The two blocks share at least one address.
    pub open spec fn meets(self, other: Ipv4Cidr) -> bool {
        self.network < other.network + other.size() && other.network < self.network + self.size()
    }

    /// The block with prefix `prefix` that holds `addr` (host bits cleared).
    pub fn containing(addr: u32, prefix: u8) -> (c: Ipv4Cidr)
        requires
            prefix <= 32,
        ensures
            c == block_of(addr as nat, prefix as nat),
            c.wf(),
            c.has(addr as int),
    {
        let size = block_size(prefix);
        let a = addr as u64;
        proof {
            vstd::arithmetic::div_mod::lemma_fundamental_div_mod(a as int, size as int);
            vstd::arithmetic::mul::lemma_mul_nonnegative(size as int, (a / size) as int);
        }
        let net = a - a % size;
        proof {
            vstd::arithmetic::div_mod::lemma_fundamental_div_mod(a as int, size as int);
            vstd::arithmetic::div_mod::lemma_mod_multiples_basic((a / size) as int, size as int);
            vstd::arithmetic::mul::lemma_mul_is_commutative((a / size) as int, size as int);
            assert((a - a % size) as int == size * (a / size) as int);
        }
        Ipv4Cidr { network: net as u32, prefix_len: prefix }
    }

    /// Parses `a.b.c.d/p`; the address as std reads it, `p` a decimal of at most 32.
    pub fn parse(s: &str) -> (r: Result<Ipv4Cidr, String>)
        ensures
            match cidr_parse_spec(s@) {
                Some(c) => r == Ok::<Ipv4Cidr, String>(c),
                None => r matches Err(m) && m@ == "invalid CIDR: "@ + s@,
            },
            r matches Ok(c) ==> c.wf(),
    {
        reveal(cidr_parse_spec);
        let cs = to_chars(s);
        let slash = find_char(cs.as_slice(), '/');
        proof {
            match slash {
                Some(i) => {
                    assert(first_index_of(s@, '/') == Some(i as int));
                },
                None => {},
            }
        }
        let bad = cat(owned("invalid CIDR: "), s);
        match slash {
            None => Err(bad),
            Some(i) => {
                let addr_chars = sub_chars(cs.as_slice(), 0, i);
                let prefix_chars = sub_chars(cs.as_slice(), i + 1, cs.len());
                let addr = parse_ipv4_chars(&addr_chars);
                let prefix = parse_prefix(&prefix_chars);
                assert(addr_chars@ =~= s@.subrange(0, i as int));
                assert(prefix_chars@ =~= s@.subrange(i + 1, s@.len() as int));
                match (addr, prefix) {
                    (Some(a), Some(p)) => Ok(Ipv4Cidr::containing(a, p)),
                    _ => Err(bad),
                }
            },
        }
    }

    /// Renders the block as `network/prefix`.
    pub fn to_string(&self) -> (s: String)
        ensures
            s@ == cidr_text(*self),
    {
        let mut s = ipv4_to_string(self.network);
        push_char(&mut s, '/');
        let p = u64_decimal(self.prefix_len as u64);
        cat(s, p.as_str())
    }

    /// Address `addr` lies inside the block.
    pub fn contains(&self, addr: u32) -> (b: bool)
        requires
            self.wf(),
        ensures
            b == self.has(addr as int),
    {
        let size = block_size(self.prefix_len);
        let n = self.network as u64;
        n <= addr as u64 && (addr as u64) < n + size
    }

    /// The two blocks share at least one address.
    pub fn overlaps(&self, other: &Ipv4Cidr) -> (b: bool)
        requires
            self.wf(),
            other.wf(),
        ensures
            b == self.meets(*other),
    {
        let s1 = block_size(self.prefix_len);
        let s2 = block_size(other.prefix_len);
        let n1 = self.network as u64;
        let n2 = other.network as u64;
        n1 < n2 + s2 && n2 < n1 + s1
    }

    /// The `n`-th usable host (0 = first address after the network address);
    /// `None` where it would reach the last address of the block.
    pub fn nth_host(&self, n: u32) -> (r: Option<u32>)
        requires
            self.wf(),
        ensures
            match r {
                Some(h) => h == self.network + 1 + n && 1 + n + 1 < self.size(),
                None => 1 + n + 1 >= self.size(),
            },
    {
        let size = block_size(self.prefix_len);
        proof {
            lemma_block_fits(self.network as nat, self.prefix_len as nat);
        }
        if (n as u64) + 2 < size {
            Some((self.network as u64 + 1 + n as u64) as u32)
        } else {
            None
        }
    }

    /// The `i`-th sub-block of prefix `prefix` (in address order).
    pub fn nth_subnet(&self, prefix: u8, i: u64) -> (r: Option<Ipv4Cidr>)
        requires
            self.wf(),
        ensures
            match r {
                Some(c) => self.prefix_len <= prefix <= 32 && i * block_len(prefix as nat) < self.size()
                    && c.prefix_len == prefix && c.network == self.network + i * block_len(prefix as nat)
                    && c.wf(),
                None => !(self.prefix_len <= prefix <= 32) || i * block_len(prefix as nat) >= self.size(),
            },
    {
        if prefix < self.prefix_len || prefix > 32 {
            return None;
        }
        let outer = block_size(self.prefix_len);
        let inner = block_size(prefix);
        let count = outer / inner;
        proof {
            lemma_block_fits(self.network as nat, self.prefix_len as nat);
            let d = (prefix - self.prefix_len) as nat;
            lemma_pow2_adds((32 - prefix) as nat, d);
            lemma_pow2_pos(d);
            assert(outer == inner * pow2(d));
            vstd::arithmetic::div_mod::lemma_div_by_multiple(pow2(d) as int, inner as int);
            vstd::arithmetic::mul::lemma_mul_is_commutative(pow2(d) as int, inner as int);
            assert(count == pow2(d));
        }
        if i >= count {
            proof {
                assert(i * inner >= count * inner) by (nonlinear_arith)
                    requires
                        i >= count,
                        inner >= 1,
                ;
                vstd::arithmetic::mul::lemma_mul_is_commutative(count as int, inner as int);
            }
            return None;
        }
        proof {
            assert(i * inner + inner <= count * inner) by (nonlinear_arith)
                requires
                    i < count,
                    inner >= 1,
            ;
            vstd::arithmetic::mul::lemma_mul_is_commutative(count as int, inner as int);
            let q = self.network as nat / outer as nat;
            vstd::arithmetic::div_mod::lemma_fundamental_div_mod(self.network as int, outer as int);
            let d = (prefix - self.prefix_len) as nat;
            assert(self.network as int == outer * q);
            assert((self.network + i * inner) as int == inner * (q * pow2(d) + i)) by (nonlinear_arith)
                requires
                    self.network as int == outer * q,
                    outer == inner * pow2(d),
            ;
            vstd::arithmetic::div_mod::lemma_mod_multiples_basic((q * pow2(d) + i) as int, inner as int);
            vstd::arithmetic::mul::lemma_mul_is_commutative((q * pow2(d) + i) as int, inner as int);
        }
        let net = self.network as u64 + i * inner;
        Some(Ipv4Cidr { network: net as u32, prefix_len: prefix })
    }
}

/// Parses a dotted-decimal IPv4 address, as its big-endian `u32`.
pub fn parse_ipv4(s: &str) -> (r: Option<u32>)
    ensures
        r == ipv4_parse_spec(s@),
{
    let cs = to_chars(s);
    parse_ipv4_chars(&cs)
}

fn parse_ipv4_chars(s: &Vec<char>) -> (r: Option<u32>)
    ensures
        r == ipv4_parse_spec(s@),
{
    reveal(ipv4_parse_spec);
    let fa = find_char(s.as_slice(), '.');
    let a = match fa {
        None => return None,
        Some(a) => a,
    };
    assert(first_index_of(s@, '.') == Some(a as int));
    let n = s.len();
    let r1 = sub_chars(s.as_slice(), a + 1, n);
    assert(r1@ =~= s@.subrange(a + 1, s@.len() as int));
    let b = match find_char(r1.as_slice(), '.') {
        None => return None,
        Some(b) => b,
    };
    assert(first_index_of(r1@, '.') == Some(b as int));
    let r2 = sub_chars(r1.as_slice(), b + 1, r1.len());
    assert(r2@ =~= r1@.subrange(b + 1, r1@.len() as int));
    let c = match find_char(r2.as_slice(), '.') {
        None => return None,
        Some(c) => c,
    };
    assert(first_index_of(r2@, '.') == Some(c as int));
    let r3 = sub_chars(r2.as_slice(), c + 1, r2.len());
    assert(r3@ =~= r2@.subrange(c + 1, r2@.len() as int));
    let t0 = sub_chars(s.as_slice(), 0, a);
    let t1 = sub_chars(r1.as_slice(), 0, b);
    let t2 = sub_chars(r2.as_slice(), 0, c);
    assert(t0@ =~= s@.subrange(0, a as int));
    assert(t1@ =~= r1@.subrange(0, b as int));
    assert(t2@ =~= r2@.subrange(0, c as int));
    let o0 = parse_octet(&t0);
    let o1 = parse_octet(&t1);
    let o2 = parse_octet(&t2);
    let o3 = parse_octet(&r3);
    match (o0, o1, o2, o3) {
        (Some(o0), Some(o1), Some(o2), Some(o3)) => {
            Some(o0 as u32 * 16777216 + o1 as u32 * 65536 + o2 as u32 * 256 + o3 as u32)
        },
        _ => None,
    }
}

fn parse_octet(t: &Vec<char>) -> (r: Option<u8>)
    ensures
        match r {
            Some(v) => octet_value(t@) == Some(v as nat),
            None => octet_value(t@) is None,
        },
{
    if t.len() < 1 || t.len() > 3 || (t.len() > 1 && t[0] == '0') {
        return None;
    }
    let mut v: u64 = 0;
    let mut i: usize = 0;
    while i < t.len()
        invariant
            0 <= i <= t@.len(),
            1 <= t@.len() <= 3,
            v < 1000,
            v <= (if i == 0 { 0int } else if i == 1 { 9int } else if i == 2 { 99int } else { 999int }),
            i > 0 ==> parse_digits(t@.subrange(0, i as int)) == Some(v as nat),
        decreases t@.len() - i,
    {
        let c = t[i];
        proof {
            let pre = t@.subrange(0, i as int + 1);
            assert(pre.drop_last() =~= t@.subrange(0, i as int));
            assert(pre.last() == c);
        }
        if !('0' <= c && c <= '9') {
            proof {
                if parse_digits(t@) is Some {
                    lemma_parse_digits_prefix(t@, i as int + 1);
                }
            }
            return None;
        }
        v = v * 10 + (c as u32 - 48) as u64;
        i = i + 1;
    }
    assert(t@.subrange(0, t@.len() as int) =~= t@);
    if v > 255 {
        return None;
    }
    Some(v as u8)
}

/// Reads a decimal prefix length of at most 32.
fn parse_prefix(cs: &Vec<char>) -> (r: Option<u8>)
    ensures
        match r {
            Some(p) => parse_digits(cs@) == Some(p as nat) && p <= 32,
            None => !(parse_digits(cs@) matches Some(v) && v <= 32),
        },
{
    if cs.len() == 0 {
        return None;
    }
    let mut v: u64 = 0;
    let mut i: usize = 0;
    while i < cs.len()
        invariant
            0 <= i <= cs@.len(),
            cs@.len() > 0,
            v <= 32,
            i == 0 ==> v == 0,
            i > 0 ==> parse_digits(cs@.subrange(0, i as int)) == Some(v as nat),
        decreases cs@.len() - i,
    {
        let c = cs[i];
        proof {
            let pre = cs@.subrange(0, i as int + 1);
            assert(pre.drop_last() =~= cs@.subrange(0, i as int));
            assert(pre.last() == c);
        }
        if !('0' <= c && c <= '9') {
            proof {
                if parse_digits(cs@) is Some {
                    lemma_parse_digits_prefix(cs@, i as int + 1);
                }
            }
            return None;
        }
        let d = (c as u32 - 48) as u64;
        let nv = v * 10 + d;
        proof {
            let pre = cs@.subrange(0, i as int + 1);
            assert('0' <= pre.last() && pre.last() <= '9');
            assert(d as nat == (pre.last() as nat - 48) as nat);
            if i == 0 {
                assert(pre.len() == 1);
            } else {
                assert(parse_digits(pre.drop_last()) == Some(v as nat));
            }
            if i == 0 {
                assert(parse_digits(pre) == Some(d as nat));
            } else {
                assert(parse_digits(pre) == Some((v * 10 + d) as nat));
            }
            assert(parse_digits(pre) == Some(nv as nat));
        }
        if nv > 32 {
            proof {
                if parse_digits(cs@) is Some {
                    lemma_parse_digits_prefix(cs@, i as int + 1);
                }
            }
            return None;
        }
        v = nv;
        i = i + 1;
    }
    assert(cs@.subrange(0, cs@.len() as int) =~= cs@);
    Some(v as u8)
}

} // verus!
