//! Textual IP addresses. A lookup request arrives as text; this module
//! decides whether the text is a well-formed IPv4 or IPv6 address and, if so,
//! reduces it to the fixed-width binary key under which answers are cached.
//!
//! The grammar follows the usual textual forms: IPv4 as four decimal octets
//! without leading zeros, IPv6 as colon-separated groups of one to four hex
//! digits, with at most one `::` and an optional embedded IPv4 tail.

use vstd::prelude::*;
use vstd::string::*;

verus! {

/// The binary form of one IP address: the cache key.
#[derive(Clone, Copy, PartialEq, Eq, Structural, Debug)]
pub enum IpKey {
    V4(u32),
    V6(u128),
}

/// Longest well-formed address text: eight 4-digit groups and an embedded
/// IPv4 tail never exceed this; longer inputs are malformed outright.
pub const MAX_IP_TEXT: usize = 45;

pub open spec fn is_digit(c: char) -> bool {
    '0' <= c && c <= '9'
}

pub open spec fn digit_val(c: char) -> int {
    c as int - '0' as int
}

pub open spec fn is_hex_digit(c: char) -> bool {
    is_digit(c) || ('a' <= c && c <= 'f') || ('A' <= c && c <= 'F')
}

pub open spec fn hex_val(c: char) -> int {
    if is_digit(c) {
        digit_val(c)
    } else if 'a' <= c && c <= 'f' {
        c as int - 'a' as int + 10
    } else {
        c as int - 'A' as int + 10
    }
}

/// One decimal octet starting at `i`: one to three digits, value at most 255,
/// no leading zero. Yields the value and the position just past it.
pub open spec fn spec_octet(s: Seq<char>, i: int) -> Option<(u32, int)> {
    if 0 <= i < s.len() && is_digit(s[i]) {
        let d0 = digit_val(s[i]);
        if i + 1 < s.len() && is_digit(s[i + 1]) {
            if d0 == 0 {
                None
            } else {
                let d1 = digit_val(s[i + 1]);
                if i + 2 < s.len() && is_digit(s[i + 2]) {
                    let v = d0 * 100 + d1 * 10 + digit_val(s[i + 2]);
                    if v <= 255 {
                        Some(((v as u32), i + 3))
                    } else {
                        None
                    }
                } else {
                    Some((((d0 * 10 + d1) as u32), i + 2))
                }
            }
        } else {
            Some(((d0 as u32), i + 1))
        }
    } else {
        None
    }
}

/// A dotted quad starting at `i` and running exactly to the end of the text.
pub open spec fn spec_v4_at(s: Seq<char>, i: int) -> Option<u32> {
    match spec_octet(s, i) {
        None => None,
        Some((a, i1)) => if i1 < s.len() && s[i1] == '.' {
            match spec_octet(s, i1 + 1) {
                None => None,
                Some((b, i2)) => if i2 < s.len() && s[i2] == '.' {
                    match spec_octet(s, i2 + 1) {
                        None => None,
                        Some((c, i3)) => if i3 < s.len() && s[i3] == '.' {
                            match spec_octet(s, i3 + 1) {
                                None => None,
                                Some((d, i4)) => if i4 == s.len() {
                                    Some((a * 0x1000000 + b * 0x10000 + c * 0x100 + d) as u32)
                                } else {
                                    None
                                },
                            }
                        } else {
                            None
                        },
                    }
                } else {
                    None
                },
            }
        } else {
            None
        },
    }
}

/// One group of an IPv6 address starting at `i`: one to four hex digits.
/// Yields the value and the position just past it.
pub open spec fn spec_hex_group(s: Seq<char>, i: int) -> Option<(u16, int)> {
    if 0 <= i < s.len() && is_hex_digit(s[i]) {
        let h0 = hex_val(s[i]);
        if i + 1 < s.len() && is_hex_digit(s[i + 1]) {
            let h1 = hex_val(s[i + 1]);
            if i + 2 < s.len() && is_hex_digit(s[i + 2]) {
                let h2 = hex_val(s[i + 2]);
                if i + 3 < s.len() && is_hex_digit(s[i + 3]) {
                    let h3 = hex_val(s[i + 3]);
                    Some((((h0 * 4096 + h1 * 256 + h2 * 16 + h3) as u16), i + 4))
                } else {
                    Some((((h0 * 256 + h1 * 16 + h2) as u16), i + 3))
                }
            } else {
                Some((((h0 * 16 + h1) as u16), i + 2))
            }
        } else {
            Some(((h0 as u16), i + 1))
        }
    } else {
        None
    }
}

/// The high group of an embedded IPv4 tail.
pub open spec fn v4_hi(w: u32) -> u16 {
    (w / 0x10000) as u16
}

/// The low group of an embedded IPv4 tail.
pub open spec fn v4_lo(w: u32) -> u16 {
    (w % 0x10000) as u16
}

/// The groups after a `::`, starting at `i`: colon-separated hex groups,
/// optionally ending in an embedded IPv4 quad, never another `::`, running to
/// the end of the text. `acc` carries the groups read so far.
pub open spec fn spec_tail(s: Seq<char>, i: int, acc: Seq<u16>) -> Option<Seq<u16>>
    decreases s.len() - i,
{
    if i == s.len() {
        Some(acc)
    } else if !(0 <= i < s.len()) {
        None
    } else {
        match spec_v4_at(s, i) {
            Some(w) => Some(acc + seq![v4_hi(w), v4_lo(w)]),
            None => match spec_hex_group(s, i) {
                None => None,
                Some((g, j)) => if j == s.len() {
                    Some(acc.push(g))
                } else if s[j] == ':' && j + 1 < s.len() && s[j + 1] != ':' {
                    spec_tail(s, j + 1, acc.push(g))
                } else {
                    None
                },
            },
        }
    }
}

/// The groups before any `::`, starting at `i`. The parse either completes
/// the address with eight groups (an embedded IPv4 quad may supply the last
/// two) or stops at a `::`, yielding the position just past it.
pub open spec fn spec_head(s: Seq<char>, i: int, acc: Seq<u16>) -> Option<(Seq<u16>, Option<int>)>
    decreases s.len() - i,
{
    if !(0 <= i <= s.len()) || acc.len() > 8 {
        None
    } else if acc.len() == 6 && spec_v4_at(s, i) is Some {
        match spec_v4_at(s, i) {
            Some(w) => Some((acc + seq![v4_hi(w), v4_lo(w)], None)),
            None => None,
        }
    } else {
        match spec_hex_group(s, i) {
            None => None,
            Some((g, j)) => {
                let acc2 = acc.push(g);
                if j == s.len() {
                    if acc2.len() == 8 {
                        Some((acc2, None))
                    } else {
                        None
                    }
                } else if s[j] == ':' {
                    if j + 1 < s.len() && s[j + 1] == ':' {
                        Some((acc2, Some(j + 2)))
                    } else if j + 1 < s.len() && acc2.len() < 8 {
                        spec_head(s, j + 1, acc2)
                    } else {
                        None
                    }
                } else {
                    None
                }
            },
        }
    }
}

/// `n` zero groups: what one `::` stands for.
pub open spec fn zero_groups(n: int) -> Seq<u16> {
    Seq::new(n as nat, |k: int| 0u16)
}

/// The eight groups of a full address: head, elided zeros, tail.
pub open spec fn full_groups(h: Seq<u16>, t: Seq<u16>) -> Seq<u16> {
    h + zero_groups(8 - h.len() - t.len()) + t
}

/// The 128-bit value of eight 16-bit groups, most significant first.
pub open spec fn groups_to_u128(gs: Seq<u16>) -> int {
    gs[0] * 0x10000000000000000000000000000 + gs[1] * 0x1000000000000000000000000
        + gs[2] * 0x100000000000000000000 + gs[3] * 0x10000000000000000
        + gs[4] * 0x1000000000000 + gs[5] * 0x100000000 + gs[6] * 0x10000 + gs[7]
}

/// A full IPv6 address text: either `::` with a tail of at most seven
/// groups, or a head that completes eight groups, or head `::` tail with at
/// most seven groups in all.
pub open spec fn spec_v6(s: Seq<char>) -> Option<u128> {
    if s.len() >= 2 && s[0] == ':' && s[1] == ':' {
        match spec_tail(s, 2, Seq::empty()) {
            None => None,
            Some(t) => if t.len() <= 7 {
                Some(groups_to_u128(full_groups(Seq::empty(), t)) as u128)
            } else {
                None
            },
        }
    } else {
        match spec_head(s, 0, Seq::empty()) {
            None => None,
            Some((h, tail_pos)) => match tail_pos {
                None => if h.len() == 8 {
                    Some(groups_to_u128(h) as u128)
                } else {
                    None
                },
                Some(j) => match spec_tail(s, j, Seq::empty()) {
                    None => None,
                    Some(t) => if h.len() + t.len() <= 7 {
                        Some(groups_to_u128(full_groups(h, t)) as u128)
                    } else {
                        None
                    },
                },
            },
        }
    }
}

/// What a lookup request's text denotes: an IPv4 key, an IPv6 key, or
/// nothing. This is the whole grammar of accepted inputs.
pub open spec fn spec_parse_ip(s: Seq<char>) -> Option<IpKey> {
    if s.len() > MAX_IP_TEXT as nat {
        None
    } else {
        match spec_v4_at(s, 0) {
            Some(w) => Some(IpKey::V4(w)),
            None => match spec_v6(s) {
                Some(v) => Some(IpKey::V6(v)),
                None => None,
            },
        }
    }
}

fn digit(c: char) -> (b: bool)
    ensures
        b == is_digit(c),
{
    '0' <= c && c <= '9'
}

fn hex_digit(c: char) -> (b: bool)
    ensures
        b == is_hex_digit(c),
{
    ('0' <= c && c <= '9') || ('a' <= c && c <= 'f') || ('A' <= c && c <= 'F')
}

fn hexval(c: char) -> (v: u32)
    requires
        is_hex_digit(c),
    ensures
        v as int == hex_val(c),
        v <= 15,
{
    if '0' <= c && c <= '9' {
        c as u32 - 48
    } else if 'a' <= c && c <= 'f' {
        c as u32 - 87
    } else {
        c as u32 - 55
    }
}

fn octet_at(s: &str, i: usize) -> (r: Option<(u32, usize)>)
    requires
        s@.len() <= MAX_IP_TEXT as nat,
        i <= s@.len(),
    ensures
        r is Some <==> spec_octet(s@, i as int) is Some,
        r matches Some(q) ==> spec_octet(s@, i as int) == Some((q.0, q.1 as int)) && i < q.1
            <= s@.len() && q.0 <= 255,
{
    let n = s.unicode_len();
    if i >= n {
        return None;
    }
    let c0 = s.get_char(i);
    if !digit(c0) {
        return None;
    }
    let d0 = c0 as u32 - 48;
    if i + 1 < n && digit(s.get_char(i + 1)) {
        if d0 == 0 {
            return None;
        }
        let d1 = s.get_char(i + 1) as u32 - 48;
        if i + 2 < n && digit(s.get_char(i + 2)) {
            let d2 = s.get_char(i + 2) as u32 - 48;
            let v = d0 * 100 + d1 * 10 + d2;
            if v <= 255 {
                Some((v, i + 3))
            } else {
                None
            }
        } else {
            Some((d0 * 10 + d1, i + 2))
        }
    } else {
        Some((d0, i + 1))
    }
}

fn v4_at(s: &str, i: usize) -> (r: Option<u32>)
    requires
        s@.len() <= MAX_IP_TEXT as nat,
        i <= s@.len(),
    ensures
        r == spec_v4_at(s@, i as int),
{
    let n = s.unicode_len();
    let (a, i1) = match octet_at(s, i) {
        Some(q) => q,
        None => {
            return None;
        },
    };
    if !(i1 < n && s.get_char(i1) == '.') {
        return None;
    }
    let (b, i2) = match octet_at(s, i1 + 1) {
        Some(q) => q,
        None => {
            return None;
        },
    };
    if !(i2 < n && s.get_char(i2) == '.') {
        return None;
    }
    let (c, i3) = match octet_at(s, i2 + 1) {
        Some(q) => q,
        None => {
            return None;
        },
    };
    if !(i3 < n && s.get_char(i3) == '.') {
        return None;
    }
    let (d, i4) = match octet_at(s, i3 + 1) {
        Some(q) => q,
        None => {
            return None;
        },
    };
    if i4 == n {
        Some(a * 0x1000000 + b * 0x10000 + c * 0x100 + d)
    } else {
        None
    }
}

fn hex_group_at(s: &str, i: usize) -> (r: Option<(u16, usize)>)
    requires
        s@.len() <= MAX_IP_TEXT as nat,
        i <= s@.len(),
    ensures
        r is Some <==> spec_hex_group(s@, i as int) is Some,
        r matches Some(q) ==> spec_hex_group(s@, i as int) == Some((q.0, q.1 as int)) && i < q.1
            <= s@.len(),
{
    let n = s.unicode_len();
    if i >= n {
        return None;
    }
    let c0 = s.get_char(i);
    if !hex_digit(c0) {
        return None;
    }
    let h0 = hexval(c0);
    if i + 1 < n && hex_digit(s.get_char(i + 1)) {
        let h1 = hexval(s.get_char(i + 1));
        if i + 2 < n && hex_digit(s.get_char(i + 2)) {
            let h2 = hexval(s.get_char(i + 2));
            if i + 3 < n && hex_digit(s.get_char(i + 3)) {
                let h3 = hexval(s.get_char(i + 3));
                Some((((h0 * 4096 + h1 * 256 + h2 * 16 + h3) as u16), i + 4))
            } else {
                Some((((h0 * 256 + h1 * 16 + h2) as u16), i + 3))
            }
        } else {
            Some((((h0 * 16 + h1) as u16), i + 2))
        }
    } else {
        Some(((h0 as u16), i + 1))
    }
}

fn tail_at(s: &str, i: usize, acc: &mut Vec<u16>) -> (ok: bool)
    requires
        s@.len() <= MAX_IP_TEXT as nat,
        i <= s@.len(),
    ensures
        ok <==> spec_tail(s@, i as int, old(acc)@) is Some,
        spec_tail(s@, i as int, old(acc)@) matches Some(t) ==> final(acc)@ == t,
    decreases s@.len() - i,
{
    let n = s.unicode_len();
    if i == n {
        return true;
    }
    if let Some(w) = v4_at(s, i) {
        acc.push((w / 0x10000) as u16);
        acc.push((w % 0x10000) as u16);
        proof {
            assert(acc@ =~= old(acc)@ + seq![v4_hi(w), v4_lo(w)]);
        }
        return true;
    }
    match hex_group_at(s, i) {
        None => false,
        Some((g, j)) => {
            if j == n {
                acc.push(g);
                true
            } else if s.get_char(j) == ':' && j + 1 < n && s.get_char(j + 1) != ':' {
                acc.push(g);
                tail_at(s, j + 1, acc)
            } else {
                false
            }
        },
    }
}

enum HeadOut {
    Fail,
    Complete,
    Tail(usize),
}

fn head_at(s: &str, i: usize, acc: &mut Vec<u16>) -> (r: HeadOut)
    requires
        s@.len() <= MAX_IP_TEXT as nat,
        i <= s@.len(),
    ensures
        r is Fail <==> spec_head(s@, i as int, old(acc)@) is None,
        r is Complete ==> spec_head(s@, i as int, old(acc)@) == Some(
            (final(acc)@, Option::<int>::None),
        ),
        r matches HeadOut::Tail(j) ==> spec_head(s@, i as int, old(acc)@) == Some(
            (final(acc)@, Some(j as int)),
        ) && j <= s@.len(),
    decreases s@.len() - i,
{
    let n = s.unicode_len();
    if acc.len() > 8 {
        return HeadOut::Fail;
    }
    if acc.len() == 6 {
        if let Some(w) = v4_at(s, i) {
            acc.push((w / 0x10000) as u16);
            acc.push((w % 0x10000) as u16);
            proof {
                assert(acc@ =~= old(acc)@ + seq![v4_hi(w), v4_lo(w)]);
            }
            return HeadOut::Complete;
        }
    }
    match hex_group_at(s, i) {
        None => HeadOut::Fail,
        Some((g, j)) => {
            acc.push(g);
            if j == n {
                if acc.len() == 8 {
                    HeadOut::Complete
                } else {
                    HeadOut::Fail
                }
            } else if s.get_char(j) == ':' {
                if j + 1 < n && s.get_char(j + 1) == ':' {
                    HeadOut::Tail(j + 2)
                } else if j + 1 < n && acc.len() < 8 {
                    head_at(s, j + 1, acc)
                } else {
                    HeadOut::Fail
                }
            } else {
                HeadOut::Fail
            }
        },
    }
}

fn group_value(g: &Vec<u16>) -> (v: u128)
    requires
        g@.len() == 8,
    ensures
        v as int == groups_to_u128(g@),
{
    (g[0] as u128) * 0x10000000000000000000000000000 + (g[1] as u128)
        * 0x1000000000000000000000000 + (g[2] as u128) * 0x100000000000000000000 + (g[3] as u128)
        * 0x10000000000000000 + (g[4] as u128) * 0x1000000000000 + (g[5] as u128) * 0x100000000 + (
    g[6] as u128) * 0x10000 + (g[7] as u128)
}

fn assemble(h: &Vec<u16>, t: &Vec<u16>) -> (v: u128)
    requires
        h@.len() + t@.len() <= 8,
    ensures
        v as int == groups_to_u128(full_groups(h@, t@)),
{
    let mut g: Vec<u16> = Vec::new();
    let mut k: usize = 0;
    while k < h.len()
        invariant
            k <= h@.len(),
            g@ == h@.subrange(0, k as int),
            h@.len() + t@.len() <= 8,
        decreases h@.len() - k,
    {
        g.push(h[k]);
        k = k + 1;
    }
    proof {
        assert(g@ =~= h@);
    }
    while g.len() + t.len() < 8
        invariant
            g@.len() + t@.len() <= 8,
            g@.len() >= h@.len(),
            g@ == h@ + zero_groups(g@.len() - h@.len()),
        decreases 8 - g@.len(),
    {
        g.push(0);
        proof {
            assert(g@ =~= h@ + zero_groups(g@.len() - h@.len()));
        }
    }
    let mut k2: usize = 0;
    while k2 < t.len()
        invariant
            k2 <= t@.len(),
            g@ == h@ + zero_groups(8 - h@.len() - t@.len()) + t@.subrange(0, k2 as int),
        decreases t@.len() - k2,
    {
        g.push(t[k2]);
        k2 = k2 + 1;
        proof {
            assert(g@ =~= h@ + zero_groups(8 - h@.len() - t@.len()) + t@.subrange(0, k2 as int));
        }
    }
    proof {
        assert(g@ =~= full_groups(h@, t@));
    }
    group_value(&g)
}

fn v6_at(s: &str) -> (r: Option<u128>)
    requires
        s@.len() <= MAX_IP_TEXT as nat,
    ensures
        r == spec_v6(s@),
{
    let n = s.unicode_len();
    if n >= 2 && s.get_char(0) == ':' && s.get_char(1) == ':' {
        let mut t: Vec<u16> = Vec::new();
        if tail_at(s, 2, &mut t) {
            if t.len() <= 7 {
                let h: Vec<u16> = Vec::new();
                Some(assemble(&h, &t))
            } else {
                None
            }
        } else {
            None
        }
    } else {
        let mut h: Vec<u16> = Vec::new();
        match head_at(s, 0, &mut h) {
            HeadOut::Fail => None,
            HeadOut::Complete => {
                if h.len() == 8 {
                    let t: Vec<u16> = Vec::new();
                    proof {
                        assert(full_groups(h@, Seq::<u16>::empty()) =~= h@);
                    }
                    Some(assemble(&h, &t))
                } else {
                    None
                }
            },
            HeadOut::Tail(j) => {
                let mut t: Vec<u16> = Vec::new();
                if tail_at(s, j, &mut t) {
                    if h.len() <= 7 && t.len() <= 7 && h.len() + t.len() <= 7 {
                        Some(assemble(&h, &t))
                    } else {
                        None
                    }
                } else {
                    None
                }
            },
        }
    }
}

/// Decide whether `s` is a well-formed IP address text and reduce it to its
/// binary key. Returns the key exactly when the grammar accepts the text.
pub fn parse_ip(s: &str) -> (r: Option<IpKey>)
    ensures
        r == spec_parse_ip(s@),
{
    let n = s.unicode_len();
    if n > MAX_IP_TEXT {
        return None;
    }
    match v4_at(s, 0) {
        Some(w) => Some(IpKey::V4(w)),
        None => match v6_at(s) {
            Some(v) => Some(IpKey::V6(v)),
            None => None,
        },
    }
}

} // verus!
