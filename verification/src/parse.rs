//! Textual target parsing: `"host:port"` strings, IPv4 and IPv6 literals.

use vstd::prelude::*;
use vstd::std_specs::iter::IteratorSpec;

use crate::addr::domain_target;
use crate::addr::str_bytes;
use crate::addr::target_model;
use crate::addr::target_ok;
use crate::addr::IpAddress;
use crate::addr::SocketAddress;
use crate::addr::TargetAddr;
use crate::addr::TargetModel;
use crate::codec::be16;
use crate::error::Error;
use crate::error::InvalidTargetReason;

verus! {

broadcast use vstd::string::group_string_axioms;

/// A decimal digit.
pub open spec fn is_digit(c: char) -> bool {
    ('0' as u32) <= (c as u32) <= ('9' as u32)
}

/// The value of a decimal digit.
pub open spec fn digit_val(c: char) -> int {
    (c as u32) - ('0' as u32)
}

/// Every character of the sequence is a decimal digit.
pub open spec fn all_digits(s: Seq<char>) -> bool {
    forall|i: int| 0 <= i < s.len() ==> is_digit(#[trigger] s[i])
}

/// The value of a digit sequence read as a decimal number.
pub open spec fn dec_value(s: Seq<char>) -> int
    decreases s.len(),
{
    if s.len() == 0 {
        0
    } else {
        dec_value(s.drop_last()) * 10 + digit_val(s.last())
    }
}

/// A digit sequence is worth at least zero.
pub proof fn lemma_dec_value_nonneg(s: Seq<char>)
    requires
        all_digits(s),
    ensures
        dec_value(s) >= 0,
    decreases s.len(),
{
    if s.len() > 0 {
        assert(all_digits(s.drop_last()));
        lemma_dec_value_nonneg(s.drop_last());
    }
}

/// Appending digits never lowers the value.
pub proof fn lemma_dec_value_mono(s: Seq<char>, k: int)
    requires
        all_digits(s),
        0 <= k <= s.len(),
    ensures
        dec_value(s) >= dec_value(s.take(k)),
    decreases s.len(),
{
    if k == s.len() {
        assert(s.take(k) =~= s);
    } else {
        let d = s.drop_last();
        assert(all_digits(d));
        lemma_dec_value_nonneg(d);
        lemma_dec_value_mono(d, k);
        assert(d.take(k) =~= s.take(k));
    }
}

/// A nonempty digit string worth at most `max`, read as a number.
pub open spec fn spec_parse_decimal(s: Seq<char>, max: int) -> Option<int> {
    if s.len() >= 1 && all_digits(s) && dec_value(s) <= max {
        Some(dec_value(s))
    } else {
        None
    }
}

/// Reads the characters `[from, to)` as a decimal number of value at most
/// `max`; empty runs, other characters and larger values give nothing.
pub fn parse_decimal(v: &Vec<char>, from: usize, to: usize, max: u32) -> (r: Option<u32>)
    requires
        from <= to <= v@.len(),
        max <= 65535,
    ensures
        match r {
            Some(x) => spec_parse_decimal(v@.subrange(from as int, to as int), max as int) == Some(
                x as int,
            ) && x <= max,
            None => spec_parse_decimal(v@.subrange(from as int, to as int), max as int) is None,
        },
{
    let ghost s = v@.subrange(from as int, to as int);
    if from == to {
        return None;
    }
    let mut acc: u32 = 0;
    let mut i: usize = from;
    while i < to
        invariant
            from <= i <= to <= v@.len(),
            s == v@.subrange(from as int, to as int),
            max <= 65535,
            acc <= max,
            all_digits(s.take(i - from)),
            acc == dec_value(s.take(i - from)),
        decreases to - i,
    {
        let c = v[i];
        let cu = c as u32;
        if cu < 48 || cu > 57 {
            assert(!is_digit(s[i - from]));
            return None;
        }
        let d = cu - 48;
        proof {
            assert(s.take(i + 1 - from).drop_last() =~= s.take(i - from));
            assert(s.take(i + 1 - from).last() == s[i - from]);
        }
        let next = acc * 10 + d;
        if next > max {
            proof {
                if all_digits(s) {
                    lemma_dec_value_mono(s, i + 1 - from);
                }
            }
            return None;
        }
        acc = next;
        i = i + 1;
    }
    proof {
        assert(s.take(to - from) =~= s);
    }
    Some(acc)
}

/// The first position at or after `from` holding `sep`, or the length.
pub open spec fn spec_find(s: Seq<char>, sep: char, from: int) -> int
    decreases s.len() - from,
    when 0 <= from <= s.len()
{
    if from >= s.len() {
        s.len() as int
    } else if s[from] == sep {
        from
    } else {
        spec_find(s, sep, from + 1)
    }
}

/// The found position lies between `from` and the length, nothing before
/// it matches, and it holds the separator when within bounds.
pub proof fn lemma_find_bounds(s: Seq<char>, sep: char, from: int)
    requires
        0 <= from <= s.len(),
    ensures
        from <= spec_find(s, sep, from) <= s.len(),
        spec_find(s, sep, from) < s.len() ==> s[spec_find(s, sep, from)] == sep,
    decreases s.len() - from,
{
    if from < s.len() && s[from] != sep {
        lemma_find_bounds(s, sep, from + 1);
    }
}

/// Finds the first `sep` at or after `from`, or the length when none.
fn find_char(v: &Vec<char>, sep: char, from: usize) -> (r: usize)
    requires
        from <= v@.len(),
    ensures
        r == spec_find(v@, sep, from as int),
        from <= r <= v@.len(),
        r < v@.len() ==> v@[r as int] == sep,
{
    let n = v.len();
    let mut i: usize = from;
    while i < n
        invariant
            from <= i <= n == v@.len(),
            spec_find(v@, sep, from as int) == spec_find(v@, sep, i as int),
        decreases n - i,
    {
        if v[i] == sep {
            return i;
        }
        i = i + 1;
    }
    i
}

/// Copies the character range `[from, to)` out of a vector.
fn chars_range(v: &Vec<char>, from: usize, to: usize) -> (r: Vec<char>)
    requires
        from <= to <= v@.len(),
    ensures
        r@ == v@.subrange(from as int, to as int),
{
    vstd::slice::slice_to_vec(vstd::slice::slice_subrange(v.as_slice(), from, to))
}

/// One dotted-decimal octet: one to three digits, value at most 255, and
/// no leading zero unless the octet is exactly "0".
pub open spec fn spec_octet(s: Seq<char>) -> Option<u8> {
    if 1 <= s.len() <= 3 && (s.len() > 1 ==> s[0] != '0') && all_digits(s) && dec_value(s)
        <= 255 {
        Some(dec_value(s) as u8)
    } else {
        None
    }
}

/// Reads one octet from the characters `[from, to)`.
fn parse_octet(v: &Vec<char>, from: usize, to: usize) -> (r: Option<u8>)
    requires
        from <= to <= v@.len(),
    ensures
        r == spec_octet(v@.subrange(from as int, to as int)),
{
    let ghost s = v@.subrange(from as int, to as int);
    let len = to - from;
    if len < 1 || len > 3 {
        return None;
    }
    if len > 1 && v[from] == '0' {
        return None;
    }
    match parse_decimal(v, from, to, 255) {
        Some(x) => {
            proof {
                lemma_dec_value_nonneg(s);
            }
            Some(x as u8)
        },
        None => None,
    }
}

/// `remaining` dotted-decimal octets from `from`, ending exactly at the
/// end of the sequence.
pub open spec fn spec_v4_groups(s: Seq<char>, from: int, remaining: int) -> Option<Seq<u8>>
    decreases remaining,
    when remaining >= 1 && 0 <= from <= s.len()
{
    let j = spec_find(s, '.', from);
    if remaining == 1 {
        if j == s.len() {
            match spec_octet(s.subrange(from, j)) {
                Some(o) => Some(seq![o]),
                None => None,
            }
        } else {
            None
        }
    } else {
        if j < s.len() {
            match spec_octet(s.subrange(from, j)) {
                Some(o) => match spec_v4_groups(s, j + 1, remaining - 1) {
                    Some(rest) => Some(seq![o] + rest),
                    None => None,
                },
                None => None,
            }
        } else {
            None
        }
    }
}

/// An IPv4 literal: exactly four octets joined by dots.
pub open spec fn spec_parse_v4(s: Seq<char>) -> Option<Seq<u8>> {
    spec_v4_groups(s, 0, 4)
}

/// Parsed groups have as many octets as were asked for.
pub proof fn lemma_v4_groups_len(s: Seq<char>, from: int, remaining: int)
    requires
        remaining >= 1,
        0 <= from <= s.len(),
        spec_v4_groups(s, from, remaining) is Some,
    ensures
        spec_v4_groups(s, from, remaining)->0.len() == remaining,
    decreases remaining,
{
    let j = spec_find(s, '.', from);
    lemma_find_bounds(s, '.', from);
    if remaining > 1 {
        lemma_v4_groups_len(s, j + 1, remaining - 1);
    }
}

/// Reads `remaining` dotted octets, which must span through the end.
fn v4_groups(v: &Vec<char>, from: usize, remaining: u8) -> (r: Option<Vec<u8>>)
    requires
        from <= v@.len(),
        1 <= remaining <= 4,
    ensures
        match r {
            Some(gs) => spec_v4_groups(v@, from as int, remaining as int) == Some(gs@),
            None => spec_v4_groups(v@, from as int, remaining as int) is None,
        },
    decreases remaining,
{
    let j = find_char(v, '.', from);
    if remaining == 1 {
        if j != v.len() {
            return None;
        }
        match parse_octet(v, from, j) {
            Some(o) => {
                let mut gs: Vec<u8> = Vec::new();
                gs.push(o);
                assert(gs@ =~= seq![o]);
                Some(gs)
            },
            None => None,
        }
    } else {
        if j == v.len() {
            return None;
        }
        match parse_octet(v, from, j) {
            Some(o) => match v4_groups(v, j + 1, remaining - 1) {
                Some(mut rest) => {
                    let mut gs: Vec<u8> = Vec::new();
                    gs.push(o);
                    gs.append(&mut rest);
                    assert(gs@ =~= seq![o] + spec_v4_groups(
                        v@,
                        j + 1 as int,
                        remaining - 1 as int,
                    )->0);
                    Some(gs)
                },
                None => None,
            },
            None => None,
        }
    }
}

/// Reads an IPv4 literal spanning the whole vector.
pub fn parse_v4(v: &Vec<char>) -> (r: Option<[u8; 4]>)
    ensures
        match r {
            Some(ip) => spec_parse_v4(v@) == Some(ip@),
            None => spec_parse_v4(v@) is None,
        },
{
    match v4_groups(v, 0, 4) {
        Some(gs) => {
            proof {
                lemma_v4_groups_len(v@, 0, 4);
            }
            let ip: [u8; 4] = [gs[0], gs[1], gs[2], gs[3]];
            proof {
                assert(ip@ =~= gs@);
            }
            Some(ip)
        },
        None => None,
    }
}


/// A hexadecimal digit.
pub open spec fn is_hex_digit(c: char) -> bool {
    is_digit(c) || (('a' as u32) <= (c as u32) <= ('f' as u32)) || (('A' as u32) <= (c as u32)
        <= ('F' as u32))
}

/// The value of a hexadecimal digit.
pub open spec fn hex_val(c: char) -> int {
    if is_digit(c) {
        (c as u32) - 48
    } else if ('a' as u32) <= (c as u32) <= ('f' as u32) {
        (c as u32) - 87
    } else {
        (c as u32) - 55
    }
}

/// Every character of the sequence is a hexadecimal digit.
pub open spec fn all_hex(s: Seq<char>) -> bool {
    forall|i: int| 0 <= i < s.len() ==> is_hex_digit(#[trigger] s[i])
}

/// The value of a hex-digit sequence.
pub open spec fn hex_value(s: Seq<char>) -> int
    decreases s.len(),
{
    if s.len() == 0 {
        0
    } else {
        hex_value(s.drop_last()) * 16 + hex_val(s.last())
    }
}

/// Sixteen to the given power.
pub open spec fn power16(n: nat) -> int
    decreases n,
{
    if n == 0 {
        1
    } else {
        16 * power16((n - 1) as nat)
    }
}

/// A hex-digit sequence of length `n` is worth less than sixteen to the `n`.
pub proof fn lemma_hex_value_bound(s: Seq<char>)
    requires
        all_hex(s),
    ensures
        0 <= hex_value(s) < power16(s.len()),
    decreases s.len(),
{
    if s.len() > 0 {
        assert(all_hex(s.drop_last()));
        lemma_hex_value_bound(s.drop_last());
    }
}

/// One IPv6 group: one to four hex digits.
pub open spec fn spec_group(s: Seq<char>) -> Option<u16> {
    if 1 <= s.len() <= 4 && all_hex(s) {
        Some(hex_value(s) as u16)
    } else {
        None
    }
}

/// Reads one IPv6 group from the characters `[from, to)`.
fn parse_group(v: &Vec<char>, from: usize, to: usize) -> (r: Option<u16>)
    requires
        from <= to <= v@.len(),
    ensures
        r == spec_group(v@.subrange(from as int, to as int)),
{
    let ghost s = v@.subrange(from as int, to as int);
    let len = to - from;
    if len < 1 || len > 4 {
        return None;
    }
    let mut acc: u32 = 0;
    let mut i: usize = from;
    while i < to
        invariant
            from <= i <= to <= v@.len(),
            to - from <= 4,
            s == v@.subrange(from as int, to as int),
            all_hex(s.take(i - from)),
            acc == hex_value(s.take(i - from)),
            acc < power16((i - from) as nat),
        decreases to - i,
    {
        let c = v[i];
        let cu = c as u32;
        let d: u32;
        if cu >= 48 && cu <= 57 {
            d = cu - 48;
        } else if cu >= 97 && cu <= 102 {
            d = cu - 87;
        } else if cu >= 65 && cu <= 70 {
            d = cu - 55;
        } else {
            assert(!is_hex_digit(s[i - from]));
            return None;
        }
        proof {
            assert(s.take(i + 1 - from).drop_last() =~= s.take(i - from));
            assert(s.take(i + 1 - from).last() == s[i - from]);
            reveal_with_fuel(power16, 5);
        }
        acc = acc * 16 + d;
        i = i + 1;
    }
    proof {
        assert(s.take(to - from) =~= s);
        lemma_hex_value_bound(s);
        reveal_with_fuel(power16, 5);
    }
    Some(acc as u16)
}

/// The bytes of a group sequence, each group in network order.
pub open spec fn groups_bytes(gs: Seq<u16>) -> Seq<u8>
    decreases gs.len(),
{
    if gs.len() == 0 {
        Seq::<u8>::empty()
    } else {
        be16(gs[0]) + groups_bytes(gs.drop_first())
    }
}

/// Group bytes come two per group.
pub proof fn lemma_groups_bytes_len(gs: Seq<u16>)
    ensures
        groups_bytes(gs).len() == 2 * gs.len(),
    decreases gs.len(),
{
    if gs.len() > 0 {
        lemma_groups_bytes_len(gs.drop_first());
    }
}

/// Appending a group appends its two bytes.
pub proof fn lemma_groups_bytes_snoc(gs: Seq<u16>, g: u16)
    ensures
        groups_bytes(gs.push(g)) == groups_bytes(gs) + be16(g),
    decreases gs.len(),
{
    if gs.len() == 0 {
        assert(gs.push(g).drop_first() =~= Seq::<u16>::empty());
        assert(gs.push(g)[0] == g);
        assert(groups_bytes(gs.push(g)) == be16(g) + groups_bytes(Seq::<u16>::empty()));
        assert(groups_bytes(Seq::<u16>::empty()) == Seq::<u8>::empty());
        assert(groups_bytes(gs) == Seq::<u8>::empty());
        assert(groups_bytes(gs.push(g)) =~= groups_bytes(gs) + be16(g));
    } else {
        assert(gs.push(g).drop_first() =~= gs.drop_first().push(g));
        lemma_groups_bytes_snoc(gs.drop_first(), g);
        assert(gs.push(g)[0] == gs[0]);
        assert(groups_bytes(gs.push(g)) == be16(gs[0]) + groups_bytes(gs.drop_first().push(g)));
        assert(groups_bytes(gs.push(g)) =~= groups_bytes(gs) + be16(g));
    }
}

/// The first position at or after `from` where two colons stand side by
/// side, or the length when there is none.
pub open spec fn spec_find_dc(s: Seq<char>, from: int) -> int
    decreases s.len() - from,
    when 0 <= from <= s.len()
{
    if from + 1 >= s.len() {
        s.len() as int
    } else if s[from] == ':' && s[from + 1] == ':' {
        from
    } else {
        spec_find_dc(s, from + 1)
    }
}

/// The double colon found is in range and really a double colon.
pub proof fn lemma_find_dc_bounds(s: Seq<char>, from: int)
    requires
        0 <= from <= s.len(),
    ensures
        from <= spec_find_dc(s, from) <= s.len(),
        spec_find_dc(s, from) < s.len() ==> spec_find_dc(s, from) + 2 <= s.len() && s[spec_find_dc(
            s,
            from,
        )] == ':' && s[spec_find_dc(s, from) + 1] == ':',
    decreases s.len() - from,
{
    if from + 1 < s.len() && !(s[from] == ':' && s[from + 1] == ':') {
        lemma_find_dc_bounds(s, from + 1);
    }
}

/// Finds the first double colon, or the length when there is none.
fn find_dc(v: &Vec<char>) -> (r: usize)
    ensures
        r == spec_find_dc(v@, 0),
        r <= v@.len(),
        r < v@.len() ==> r + 2 <= v@.len(),
{
    let n = v.len();
    let mut i: usize = 0;
    while n >= 1 && i < n - 1
        invariant
            i <= n == v@.len(),
            spec_find_dc(v@, 0) == spec_find_dc(v@, i as int),
        decreases n - i,
    {
        if v[i] == ':' && v[i + 1] == ':' {
            proof {
                lemma_find_dc_bounds(v@, i as int);
            }
            return i;
        }
        i = i + 1;
    }
    proof {
        lemma_find_dc_bounds(v@, i as int);
    }
    n
}

/// Colon-separated IPv6 groups from `from` through the end: up to
/// `budget` hex groups, the last of which may instead be an embedded
/// IPv4 literal (two groups) when `allow_v4` holds.
pub open spec fn spec_v6_groups(s: Seq<char>, from: int, budget: int, allow_v4: bool) -> Option<
    Seq<u16>,
>
    decreases budget,
    when budget >= 1 && 0 <= from <= s.len()
{
    let j = spec_find(s, ':', from);
    let tok = s.subrange(from, j);
    if j == s.len() {
        match spec_group(tok) {
            Some(g) => Some(seq![g]),
            None => {
                if allow_v4 {
                    match spec_parse_v4(tok) {
                        Some(o) => Some(
                            seq![
                                crate::codec::be16_value(o[0], o[1]),
                                crate::codec::be16_value(o[2], o[3]),
                            ],
                        ),
                        None => None,
                    }
                } else {
                    None
                }
            },
        }
    } else {
        if budget == 1 {
            None
        } else {
            match spec_group(tok) {
                Some(g) => match spec_v6_groups(s, j + 1, budget - 1, allow_v4) {
                    Some(rest) => Some(seq![g] + rest),
                    None => None,
                },
                None => None,
            }
        }
    }
}

/// Reads colon-separated IPv6 groups spanning `[from, len)`.
fn v6_groups(v: &Vec<char>, from: usize, budget: u8, allow_v4: bool) -> (r: Option<Vec<u16>>)
    requires
        from <= v@.len(),
        1 <= budget <= 8,
    ensures
        match r {
            Some(gs) => spec_v6_groups(v@, from as int, budget as int, allow_v4) == Some(gs@),
            None => spec_v6_groups(v@, from as int, budget as int, allow_v4) is None,
        },
    decreases budget,
{
    let j = find_char(v, ':', from);
    if j == v.len() {
        match parse_group(v, from, j) {
            Some(g) => {
                let mut gs: Vec<u16> = Vec::new();
                gs.push(g);
                assert(gs@ =~= seq![g]);
                Some(gs)
            },
            None => {
                if allow_v4 {
                    let tok = chars_range(v, from, j);
                    match parse_v4(&tok) {
                        Some(o) => {
                            let g1 = crate::codec::u16_from_be(o[0], o[1]);
                            let g2 = crate::codec::u16_from_be(o[2], o[3]);
                            let mut gs: Vec<u16> = Vec::new();
                            gs.push(g1);
                            gs.push(g2);
                            assert(gs@ =~= seq![g1, g2]);
                            Some(gs)
                        },
                        None => None,
                    }
                } else {
                    None
                }
            },
        }
    } else {
        if budget == 1 {
            return None;
        }
        match parse_group(v, from, j) {
            Some(g) => match v6_groups(v, j + 1, budget - 1, allow_v4) {
                Some(mut rest) => {
                    let mut gs: Vec<u16> = Vec::new();
                    gs.push(g);
                    gs.append(&mut rest);
                    assert(gs@ =~= seq![g] + spec_v6_groups(
                        v@,
                        j + 1 as int,
                        budget - 1 as int,
                        allow_v4,
                    )->0);
                    Some(gs)
                },
                None => None,
            },
            None => None,
        }
    }
}

/// An IPv6 literal: eight groups, or fewer around one double colon that
/// stands for the missing zero groups; the final group may be an
/// embedded IPv4 literal, which counts for two.
pub open spec fn spec_parse_ipv6(s: Seq<char>) -> Option<Seq<u8>> {
    let dc = spec_find_dc(s, 0);
    if dc == s.len() {
        match spec_v6_groups(s, 0, 8, true) {
            Some(gs) => if gs.len() == 8 {
                Some(groups_bytes(gs))
            } else {
                None
            },
            None => None,
        }
    } else {
        let left = s.subrange(0, dc);
        let right = s.subrange(dc + 2, s.len() as int);
        let lgs = if left.len() == 0 {
            Some(Seq::<u16>::empty())
        } else {
            spec_v6_groups(left, 0, 8, false)
        };
        let rgs = if right.len() == 0 {
            Some(Seq::<u16>::empty())
        } else {
            spec_v6_groups(right, 0, 8, true)
        };
        match (lgs, rgs) {
            (Some(l), Some(r)) => if l.len() + r.len() <= 7 {
                Some(
                    groups_bytes(
                        l + Seq::new((8 - l.len() - r.len()) as nat, |i: int| 0u16) + r,
                    ),
                )
            } else {
                None
            },
            _ => None,
        }
    }
}

/// Packs eight groups into their sixteen network-order bytes.
fn pack_groups(full: &Vec<u16>) -> (r: [u8; 16])
    requires
        full@.len() == 8,
    ensures
        r@ == groups_bytes(full@),
{
    let mut bytes: Vec<u8> = Vec::new();
    let mut k: usize = 0;
    while k < 8
        invariant
            k <= 8,
            full@.len() == 8,
            bytes@ == groups_bytes(full@.take(k as int)),
            bytes@.len() == 2 * k,
        decreases 8 - k,
    {
        proof {
            lemma_groups_bytes_len(full@.take(k as int));
            lemma_groups_bytes_snoc(full@.take(k as int), full@[k as int]);
            assert(full@.take(k as int).push(full@[k as int]) =~= full@.take(k + 1 as int));
        }
        let g = full[k];
        bytes.push((g / 256) as u8);
        bytes.push((g % 256) as u8);
        proof {
            assert(bytes@ =~= groups_bytes(full@.take(k as int)) + be16(g));
        }
        k = k + 1;
    }
    proof {
        assert(full@.take(8) =~= full@);
    }
    let r: [u8; 16] = [
        bytes[0],
        bytes[1],
        bytes[2],
        bytes[3],
        bytes[4],
        bytes[5],
        bytes[6],
        bytes[7],
        bytes[8],
        bytes[9],
        bytes[10],
        bytes[11],
        bytes[12],
        bytes[13],
        bytes[14],
        bytes[15],
    ];
    proof {
        assert(r@ =~= bytes@);
    }
    r
}

/// Reads an IPv6 literal spanning the whole vector.
pub fn parse_ipv6(v: &Vec<char>) -> (r: Option<[u8; 16]>)
    ensures
        match r {
            Some(ip) => spec_parse_ipv6(v@) == Some(ip@),
            None => spec_parse_ipv6(v@) is None,
        },
{
    let dc = find_dc(v);
    if dc == v.len() {
        match v6_groups(v, 0, 8, true) {
            Some(gs) => {
                if gs.len() == 8 {
                    Some(pack_groups(&gs))
                } else {
                    None
                }
            },
            None => None,
        }
    } else {
        let left = chars_range(v, 0, dc);
        let right = chars_range(v, dc + 2, v.len());
        let lgs: Option<Vec<u16>> = if left.len() == 0 {
            Some(Vec::new())
        } else {
            v6_groups(&left, 0, 8, false)
        };
        let rgs: Option<Vec<u16>> = if right.len() == 0 {
            Some(Vec::new())
        } else {
            v6_groups(&right, 0, 8, true)
        };
        match (lgs, rgs) {
            (Some(l), Some(r)) => {
                if l.len() <= 7 && r.len() <= 7 && l.len() + r.len() <= 7 {
                    let ghost lv = l@;
                    let ghost rv = r@;
                    let zeros = 8 - l.len() - r.len();
                    let mut full = l;
                    let mut z: usize = 0;
                    while z < zeros
                        invariant
                            z <= zeros,
                            full@ =~= lv + Seq::new(z as nat, |i: int| 0u16),
                        decreases zeros - z,
                    {
                        full.push(0);
                        proof {
                            assert(full@ =~= lv + Seq::new((z + 1) as nat, |i: int| 0u16));
                        }
                        z = z + 1;
                    }
                    let mut r2 = r;
                    full.append(&mut r2);
                    proof {
                        assert(full@ =~= lv + Seq::new((8 - lv.len() - rv.len()) as nat, |i: int| 0u16) + rv);
                    }
                    Some(pack_groups(&full))
                } else {
                    None
                }
            },
            _ => None,
        }
    }
}


/// The characters of a string, as a vector.
pub fn str_chars(s: &str) -> (r: Vec<char>)
    ensures
        r@ == s@,
{
    let mut it = s.chars();
    let mut r: Vec<char> = Vec::new();
    loop
        invariant
            it.obeys_prophetic_iter_laws(),
            it.decrease() is Some,
            r@ + it.remaining() == s@,
        ensures
            r@ == s@,
        decreases it.decrease()->0,
    {
        let ghost prev = r@;
        match it.next() {
            Some(c) => {
                r.push(c);
                proof {
                    assert(r@ + it.remaining() =~= s@);
                }
            },
            None => {
                proof {
                    assert(r@ =~= s@);
                }
                break;
            },
        }
    }
    r
}

/// The position of the rightmost colon, or -1 when there is none.
pub open spec fn spec_rfind_colon(s: Seq<char>) -> int
    decreases s.len(),
{
    if s.len() == 0 {
        -1
    } else if s[s.len() - 1] == ':' {
        s.len() - 1
    } else {
        spec_rfind_colon(s.drop_last())
    }
}

/// Finds the rightmost colon.
fn rfind_colon(v: &Vec<char>) -> (r: Option<usize>)
    ensures
        match r {
            Some(j) => j == spec_rfind_colon(v@) && j < v@.len(),
            None => spec_rfind_colon(v@) == -1,
        },
{
    proof {
        assert(v@.take(v@.len() as int) =~= v@);
    }
    let mut i: usize = v.len();
    while i > 0
        invariant
            i <= v@.len(),
            spec_rfind_colon(v@) == spec_rfind_colon(v@.take(i as int)),
        decreases i,
    {
        proof {
            assert(v@.take(i as int).len() == i);
            assert(v@.take(i as int).last() == v@[i - 1]);
            assert(v@.take(i as int).drop_last() =~= v@.take(i - 1));
        }
        if v[i - 1] == ':' {
            return Some(i - 1);
        }
        i = i - 1;
    }
    proof {
        assert(v@.take(0) =~= Seq::<char>::empty());
    }
    None
}

/// How a bare host resolves. A host of more than 255 bytes is rejected
/// outright — no IP literal is ever that long — and an empty host is
/// malformed. Otherwise an IPv4 or IPv6 literal becomes an IP endpoint
/// and anything else becomes a domain name.
pub open spec fn spec_host_target(h: Seq<char>, port: u16) -> Result<TargetModel, Error> {
    if str_bytes(h).len() > 255 {
        Err(Error::InvalidTargetAddress(InvalidTargetReason::OverlongDomain))
    } else if str_bytes(h).len() == 0 {
        Err(Error::InvalidTargetAddress(InvalidTargetReason::Format))
    } else if spec_parse_v4(h) is Some {
        Ok(TargetModel::Ip { ip: spec_parse_v4(h)->0, port })
    } else if spec_parse_ipv6(h) is Some {
        Ok(TargetModel::Ip { ip: spec_parse_ipv6(h)->0, port })
    } else {
        Ok(TargetModel::Domain { name: str_bytes(h), port })
    }
}

/// Coerces a `(host, port)` pair into a target: IP literals become IP
/// endpoints, anything else becomes a domain name of 1 to 255 bytes.
pub fn make_target_pair(host: &str, port: u16) -> (r: Result<TargetAddr, Error>)
    ensures
        match spec_host_target(host@, port) {
            Ok(m) => r matches Result::Ok(t) && target_model(t) == m && target_ok(t),
            Err(e) => r == Result::<TargetAddr, Error>::Err(e),
        },
{
    let n = host.as_bytes().len();
    if n > 255 {
        return Err(Error::InvalidTargetAddress(InvalidTargetReason::OverlongDomain));
    }
    if n == 0 {
        return Err(Error::InvalidTargetAddress(InvalidTargetReason::Format));
    }
    let hv = str_chars(host);
    if let Some(ip) = parse_v4(&hv) {
        return Ok(TargetAddr::Ip(SocketAddress { ip: IpAddress::V4(ip), port }));
    }
    if let Some(ip) = parse_ipv6(&hv) {
        return Ok(TargetAddr::Ip(SocketAddress { ip: IpAddress::V6(ip), port }));
    }
    domain_target(host, port)
}

/// How a combined `"host:port"` string resolves: the split is at the
/// rightmost colon, the port is decimal and at most 65535, and a
/// bracketed host must hold an IPv6 literal to be an IP endpoint.
pub open spec fn spec_make_target(s: Seq<char>) -> Result<TargetModel, Error> {
    let j = spec_rfind_colon(s);
    if j < 0 {
        Err(Error::InvalidTargetAddress(InvalidTargetReason::Format))
    } else {
        match spec_parse_decimal(s.subrange(j + 1, s.len() as int), 65535) {
            Option::None => Err(Error::InvalidTargetAddress(InvalidTargetReason::Format)),
            Option::Some(p) => {
                if j >= 2 && s[0] == '[' && s[j - 1] == ']' && spec_parse_ipv6(
                    s.subrange(1, j - 1),
                ) is Some {
                    Ok(
                        TargetModel::Ip {
                            ip: spec_parse_ipv6(s.subrange(1, j - 1))->0,
                            port: p as u16,
                        },
                    )
                } else {
                    spec_host_target(s.subrange(0, j), p as u16)
                }
            },
        }
    }
}

/// Coerces a combined `"host:port"` string into a target.
pub fn make_target(s: &str) -> (r: Result<TargetAddr, Error>)
    ensures
        match spec_make_target(s@) {
            Ok(m) => r matches Result::Ok(t) && target_model(t) == m && target_ok(t),
            Err(e) => r == Result::<TargetAddr, Error>::Err(e),
        },
{
    let v = str_chars(s);
    let j = match rfind_colon(&v) {
        Some(j) => j,
        None => {
            return Err(Error::InvalidTargetAddress(InvalidTargetReason::Format));
        },
    };
    let n = v.len();
    let port: u16 = match parse_decimal(&v, j + 1, n, 65535) {
        Some(p) => p as u16,
        None => {
            return Err(Error::InvalidTargetAddress(InvalidTargetReason::Format));
        },
    };
    if j >= 2 && v[0] == '[' && v[j - 1] == ']' {
        let inner = chars_range(&v, 1, j - 1);
        if let Some(ip) = parse_ipv6(&inner) {
            return Ok(TargetAddr::Ip(SocketAddress { ip: IpAddress::V6(ip), port }));
        }
    }
    let host = s.substring_char(0, j);
    make_target_pair(host, port)
}


/// Coercion round trip for domains: a name of 1 to 255 bytes that is not
/// an IP literal comes back exactly as the domain it spells, with the
/// port untouched.
pub proof fn lemma_domain_round_trip(h: Seq<char>, port: u16)
    requires
        1 <= str_bytes(h).len() <= 255,
        spec_parse_v4(h) is None,
        spec_parse_ipv6(h) is None,
    ensures
        spec_host_target(h, port) == Result::<TargetModel, Error>::Ok(
            TargetModel::Domain { name: str_bytes(h), port },
        ),
{
}

/// A host of more than 255 bytes is always rejected as an overlong
/// domain, whatever its characters.
pub proof fn lemma_overlong_domain_rejected(h: Seq<char>, port: u16)
    requires
        str_bytes(h).len() > 255,
    ensures
        spec_host_target(h, port) == Result::<TargetModel, Error>::Err(
            Error::InvalidTargetAddress(InvalidTargetReason::OverlongDomain),
        ),
{
}

} // verus!
