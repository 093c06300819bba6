//! Validation of the caller's textual arguments: unsigned numbers, dotted
//! IPv4 addresses, colon-separated MAC addresses, and interface names.

use vstd::prelude::*;
use vstd::string::StringExecFns;
use vstd::string::StrSliceExecFns;

verus! {

/// A decimal digit.
pub open spec fn spec_is_digit(c: char) -> bool {
    '0' <= c && c <= '9'
}

/// The value a decimal digit stands for.
pub open spec fn spec_digit_value(c: char) -> int {
    c as int - '0' as int
}

/// Whether every character is a decimal digit.
pub open spec fn spec_all_digits(s: Seq<char>) -> bool {
    forall|t: int| 0 <= t < s.len() ==> spec_is_digit(#[trigger] s[t])
}

/// The value a string of decimal digits spells, most significant first.
pub open spec fn spec_dec_value(s: Seq<char>) -> int
    decreases s.len(),
{
    if s.len() == 0 {
        0
    } else {
        spec_dec_value(s.drop_last()) * 10 + spec_digit_value(s.last())
    }
}

proof fn lemma_dec_value_nonneg(s: Seq<char>)
    requires
        spec_all_digits(s),
    ensures
        spec_dec_value(s) >= 0,
    decreases s.len(),
{
    if s.len() > 0 {
        assert(spec_all_digits(s.drop_last()));
        lemma_dec_value_nonneg(s.drop_last());
    }
}

/// A digit string's value never falls when more digits follow.
proof fn lemma_dec_value_take_le(s: Seq<char>, i: int)
    requires
        0 <= i <= s.len(),
        spec_all_digits(s),
    ensures
        spec_dec_value(s.take(i)) <= spec_dec_value(s),
    decreases s.len() - i,
{
    if i < s.len() {
        assert(s.take(i + 1).drop_last() =~= s.take(i));
        assert(spec_all_digits(s.take(i)));
        lemma_dec_value_nonneg(s.take(i));
        assert(spec_dec_value(s.take(i + 1)) == spec_dec_value(s.take(i)) * 10
            + spec_digit_value(s.take(i + 1).last()));
        lemma_dec_value_take_le(s, i + 1);
        assert(s.take(s.len() as int) =~= s);
    } else {
        assert(s.take(i) =~= s);
    }
}

/// The digits of a would-be unsigned number: a single leading plus sign is
/// tolerated, as the standard library's number parsing tolerates it.
pub open spec fn spec_u64_digits(s: Seq<char>) -> Seq<char> {
    if s.len() > 0 && s[0] == '+' {
        s.skip(1)
    } else {
        s
    }
}

/// A string spells an unsigned 64-bit number when, past an optional plus
/// sign, it is all digits, at least one, and their value fits.
pub open spec fn spec_valid_u64(s: Seq<char>) -> bool {
    let d = spec_u64_digits(s);
    d.len() > 0 && spec_all_digits(d) && spec_dec_value(d) <= u64::MAX
}

/// Parse a decimal unsigned 64-bit number.
pub fn parse_u64(s: &str) -> (r: Option<u64>)
    ensures
        r is Some <==> spec_valid_u64(s@),
        r matches Some(v) ==> v == spec_dec_value(spec_u64_digits(s@)),
{
    let n = s.unicode_len();
    let start: usize = if n > 0 && s.get_char(0) == '+' {
        1
    } else {
        0
    };
    proof {
        assert(spec_u64_digits(s@) =~= s@.skip(start as int));
    }
    if n == start {
        return None;
    }
    let mut acc: u128 = 0;
    let mut i: usize = start;
    while i < n
        invariant
            start <= i <= n,
            n == s@.len(),
            spec_u64_digits(s@) == s@.skip(start as int),
            spec_all_digits(s@.subrange(start as int, i as int)),
            acc == spec_dec_value(s@.subrange(start as int, i as int)),
            acc <= u64::MAX,
        decreases n - i,
    {
        let c = s.get_char(i);
        let code = c as u32;
        if code < 48 || code > 57 {
            proof {
                assert(s@.skip(start as int)[i - start] == s@[i as int]);
                assert(!spec_is_digit(s@[i as int]));
            }
            return None;
        }
        let digit = (code - 48) as u128;
        proof {
            assert(s@.subrange(start as int, i + 1).drop_last() =~= s@.subrange(
                start as int,
                i as int,
            ));
            assert(s@.subrange(start as int, i + 1).last() == s@[i as int]);
        }
        acc = acc * 10 + digit;
        i = i + 1;
        if acc > u64::MAX as u128 {
            proof {
                let d = s@.skip(start as int);
                if spec_all_digits(d) {
                    assert(s@.subrange(start as int, i as int) =~= d.take(i - start));
                    lemma_dec_value_take_le(d, i - start);
                }
            }
            return None;
        }
    }
    proof {
        assert(s@.subrange(start as int, n as int) =~= s@.skip(start as int));
    }
    Some(acc as u64)
}

/// The positions of every occurrence of `sep`, in increasing order.
pub open spec fn spec_sep_positions(s: Seq<char>, sep: char) -> Seq<int>
    decreases s.len(),
{
    if s.len() == 0 {
        seq![]
    } else if s.last() == sep {
        spec_sep_positions(s.drop_last(), sep).push(s.len() - 1)
    } else {
        spec_sep_positions(s.drop_last(), sep)
    }
}

proof fn lemma_sep_positions_bounds(s: Seq<char>, sep: char)
    ensures
        forall|t: int|
            0 <= t < spec_sep_positions(s, sep).len() ==> 0 <= #[trigger] spec_sep_positions(
                s,
                sep,
            )[t] < s.len(),
        forall|t1: int, t2: int|
            0 <= t1 < t2 < spec_sep_positions(s, sep).len() ==> spec_sep_positions(s, sep)[t1]
                < spec_sep_positions(s, sep)[t2],
    decreases s.len(),
{
    if s.len() > 0 {
        lemma_sep_positions_bounds(s.drop_last(), sep);
        let rest = spec_sep_positions(s.drop_last(), sep);
        let whole = spec_sep_positions(s, sep);
        if s.last() == sep {
            assert(whole == rest.push(s.len() - 1));
            assert forall|t: int| 0 <= t < whole.len() implies 0 <= #[trigger] whole[t] < s.len() by {
                if t < rest.len() {
                    assert(whole[t] == rest[t]);
                }
            }
            assert forall|t1: int, t2: int| 0 <= t1 < t2 < whole.len() implies #[trigger] whole[t1]
                < #[trigger] whole[t2] by {
                if t2 < rest.len() {
                    assert(whole[t1] == rest[t1] && whole[t2] == rest[t2]);
                } else {
                    assert(whole[t2] == s.len() - 1);
                    if t1 < rest.len() {
                        assert(whole[t1] == rest[t1]);
                        assert(rest[t1] < s.drop_last().len());
                    }
                }
            }
        } else {
            assert(whole == rest);
        }
    }
}

/// A decimal octet as an IPv4 address writes it: one to three digits, no
/// leading zero unless the octet is zero itself, value at most 255.
pub open spec fn spec_valid_octet(s: Seq<char>) -> bool {
    s.len() >= 1 && spec_all_digits(s) && (s.len() > 1 ==> s[0] != '0') && spec_dec_value(s) <= 255
}

/// Whether a string is a dotted-quad IPv4 address: exactly three dots, a
/// valid decimal octet between and around them.
pub open spec fn spec_valid_ipv4(s: Seq<char>) -> bool {
    let d = spec_sep_positions(s, '.');
    &&& d.len() == 3
    &&& spec_valid_octet(s.subrange(0, d[0]))
    &&& spec_valid_octet(s.subrange(d[0] + 1, d[1]))
    &&& spec_valid_octet(s.subrange(d[1] + 1, d[2]))
    &&& spec_valid_octet(s.subrange(d[2] + 1, s.len() as int))
}

/// The address a valid dotted quad spells.
pub open spec fn spec_ipv4_of(s: Seq<char>) -> crate::net::Ipv4Address {
    let d = spec_sep_positions(s, '.');
    crate::net::Ipv4Address(
        spec_dec_value(s.subrange(0, d[0])) as u8,
        spec_dec_value(s.subrange(d[0] + 1, d[1])) as u8,
        spec_dec_value(s.subrange(d[1] + 1, d[2])) as u8,
        spec_dec_value(s.subrange(d[2] + 1, s.len() as int)) as u8,
    )
}

/// The positions of every occurrence of `sep` in `s`, in increasing order.
fn separator_positions(s: &str, sep: char) -> (positions: Vec<usize>)
    ensures
        positions@.map_values(|p: usize| p as int) == spec_sep_positions(s@, sep),
{
    let n = s.unicode_len();
    let mut positions: Vec<usize> = Vec::new();
    let mut i: usize = 0;
    while i < n
        invariant
            i <= n,
            n == s@.len(),
            positions@.map_values(|p: usize| p as int) == spec_sep_positions(
                s@.take(i as int),
                sep,
            ),
        decreases n - i,
    {
        let c = s.get_char(i);
        proof {
            assert(s@.take(i + 1).drop_last() =~= s@.take(i as int));
            assert(s@.take(i + 1).last() == s@[i as int]);
        }
        if c == sep {
            positions.push(i);
            proof {
                assert(positions@.map_values(|p: usize| p as int) =~= spec_sep_positions(
                    s@.take(i + 1),
                    sep,
                ));
            }
        }
        i = i + 1;
    }
    proof {
        assert(s@.take(n as int) =~= s@);
    }
    positions
}

/// Parse the characters from `from` to `to` as a decimal octet.
fn parse_octet_range(s: &str, from: usize, to: usize) -> (r: Option<u8>)
    requires
        from <= to <= s@.len(),
    ensures
        r is Some <==> spec_valid_octet(s@.subrange(from as int, to as int)),
        r matches Some(v) ==> v == spec_dec_value(s@.subrange(from as int, to as int)),
{
    let ghost seg = s@.subrange(from as int, to as int);
    if to == from {
        return None;
    }
    if to - from > 1 && s.get_char(from) == '0' {
        proof {
            assert(seg[0] == s@[from as int]);
        }
        return None;
    }
    let mut acc: u32 = 0;
    let mut i: usize = from;
    while i < to
        invariant
            from <= i <= to <= s@.len(),
            seg == s@.subrange(from as int, to as int),
            spec_all_digits(s@.subrange(from as int, i as int)),
            acc == spec_dec_value(s@.subrange(from as int, i as int)),
            acc <= 255,
        decreases to - i,
    {
        let c = s.get_char(i);
        let code = c as u32;
        if code < 48 || code > 57 {
            proof {
                assert(seg[i - from] == s@[i as int]);
                assert(!spec_is_digit(s@[i as int]));
            }
            return None;
        }
        proof {
            assert(s@.subrange(from as int, i + 1).drop_last() =~= s@.subrange(
                from as int,
                i as int,
            ));
            assert(s@.subrange(from as int, i + 1).last() == s@[i as int]);
        }
        acc = acc * 10 + (code - 48);
        i = i + 1;
        if acc > 255 {
            proof {
                if spec_all_digits(seg) {
                    assert(s@.subrange(from as int, i as int) =~= seg.take(i - from));
                    lemma_dec_value_take_le(seg, i - from);
                }
            }
            return None;
        }
    }
    proof {
        assert(s@.subrange(from as int, to as int) =~= seg);
    }
    Some(acc as u8)
}

/// Parse a dotted-quad IPv4 address.
pub fn parse_ipv4(s: &str) -> (r: Option<crate::net::Ipv4Address>)
    ensures
        r is Some <==> spec_valid_ipv4(s@),
        r matches Some(a) ==> a == spec_ipv4_of(s@),
{
    let n = s.unicode_len();
    let dots = separator_positions(s, '.');
    proof {
        lemma_sep_positions_bounds(s@, '.');
    }
    if dots.len() != 3 {
        return None;
    }
    let d0 = dots[0];
    let d1 = dots[1];
    let d2 = dots[2];
    proof {
        assert(dots@.map_values(|p: usize| p as int)[0] == d0 as int);
        assert(dots@.map_values(|p: usize| p as int)[1] == d1 as int);
        assert(dots@.map_values(|p: usize| p as int)[2] == d2 as int);
    }
    let o0 = match parse_octet_range(s, 0, d0) {
        Some(v) => v,
        None => {
            return None;
        },
    };
    let o1 = match parse_octet_range(s, d0 + 1, d1) {
        Some(v) => v,
        None => {
            return None;
        },
    };
    let o2 = match parse_octet_range(s, d1 + 1, d2) {
        Some(v) => v,
        None => {
            return None;
        },
    };
    let o3 = match parse_octet_range(s, d2 + 1, n) {
        Some(v) => v,
        None => {
            return None;
        },
    };
    Some(crate::net::Ipv4Address(o0, o1, o2, o3))
}

/// Accept a string that spells an IPv4 address.
pub fn ip_address_validator(value: String) -> (r: Result<(), String>)
    ensures
        r is Ok <==> spec_valid_ipv4(value@),
        r matches Err(m) ==> m@ == "bad IP address: "@ + value@,
{
    match parse_ipv4(value.as_str()) {
        Some(_) => Ok(()),
        None => Err(String::from_str("bad IP address: ").concat(value.as_str())),
    }
}

/// A hexadecimal digit, either case.
pub open spec fn spec_is_hex_digit(c: char) -> bool {
    ('0' <= c && c <= '9') || ('a' <= c && c <= 'f') || ('A' <= c && c <= 'F')
}

/// The value a hexadecimal digit stands for.
pub open spec fn spec_hex_digit_value(c: char) -> int {
    if '0' <= c && c <= '9' {
        c as int - '0' as int
    } else if 'a' <= c && c <= 'f' {
        c as int - 'a' as int + 10
    } else {
        c as int - 'A' as int + 10
    }
}

/// Whether every character is a hexadecimal digit.
pub open spec fn spec_all_hex_digits(s: Seq<char>) -> bool {
    forall|t: int| 0 <= t < s.len() ==> spec_is_hex_digit(#[trigger] s[t])
}

/// The value a string of hexadecimal digits spells, most significant first.
pub open spec fn spec_hex_value(s: Seq<char>) -> int
    decreases s.len(),
{
    if s.len() == 0 {
        0
    } else {
        spec_hex_value(s.drop_last()) * 16 + spec_hex_digit_value(s.last())
    }
}

/// The digits of a hexadecimal MAC component: a single leading plus sign
/// is tolerated, as the standard library's radix parsing tolerates it.
pub open spec fn spec_hex_component_digits(s: Seq<char>) -> Seq<char> {
    if s.len() > 0 && s[0] == '+' {
        s.skip(1)
    } else {
        s
    }
}

/// A component of a MAC address as its textual form writes it: past an
/// optional plus sign, one or more hexadecimal digits, as many as the
/// writer likes, whose value fits a byte.
pub open spec fn spec_valid_hex_component(s: Seq<char>) -> bool {
    let d = spec_hex_component_digits(s);
    d.len() > 0 && spec_all_hex_digits(d) && spec_hex_value(d) <= 255
}

/// The byte value a component spells.
pub open spec fn spec_hex_component_value(s: Seq<char>) -> int {
    spec_hex_value(spec_hex_component_digits(s))
}

proof fn lemma_hex_value_nonneg(s: Seq<char>)
    requires
        spec_all_hex_digits(s),
    ensures
        spec_hex_value(s) >= 0,
    decreases s.len(),
{
    if s.len() > 0 {
        assert(spec_all_hex_digits(s.drop_last()));
        lemma_hex_value_nonneg(s.drop_last());
    }
}

/// A hex string's value never falls when more digits follow.
proof fn lemma_hex_value_take_le(s: Seq<char>, i: int)
    requires
        0 <= i <= s.len(),
        spec_all_hex_digits(s),
    ensures
        spec_hex_value(s.take(i)) <= spec_hex_value(s),
    decreases s.len() - i,
{
    if i < s.len() {
        assert(s.take(i + 1).drop_last() =~= s.take(i));
        assert(spec_all_hex_digits(s.take(i)));
        lemma_hex_value_nonneg(s.take(i));
        assert(spec_hex_value(s.take(i + 1)) == spec_hex_value(s.take(i)) * 16
            + spec_hex_digit_value(s.take(i + 1).last()));
        lemma_hex_value_take_le(s, i + 1);
        assert(s.take(s.len() as int) =~= s);
    } else {
        assert(s.take(i) =~= s);
    }
}

/// Whether a string is a colon-separated MAC address: exactly five colons,
/// a valid hexadecimal component between and around them.
pub open spec fn spec_valid_mac(s: Seq<char>) -> bool {
    let d = spec_sep_positions(s, ':');
    &&& d.len() == 5
    &&& spec_valid_hex_component(s.subrange(0, d[0]))
    &&& spec_valid_hex_component(s.subrange(d[0] + 1, d[1]))
    &&& spec_valid_hex_component(s.subrange(d[1] + 1, d[2]))
    &&& spec_valid_hex_component(s.subrange(d[2] + 1, d[3]))
    &&& spec_valid_hex_component(s.subrange(d[3] + 1, d[4]))
    &&& spec_valid_hex_component(s.subrange(d[4] + 1, s.len() as int))
}

/// The address a valid colon-separated MAC string spells.
pub open spec fn spec_mac_of(s: Seq<char>) -> crate::net::MacAddress {
    let d = spec_sep_positions(s, ':');
    crate::net::MacAddress(
        spec_hex_component_value(s.subrange(0, d[0])) as u8,
        spec_hex_component_value(s.subrange(d[0] + 1, d[1])) as u8,
        spec_hex_component_value(s.subrange(d[1] + 1, d[2])) as u8,
        spec_hex_component_value(s.subrange(d[2] + 1, d[3])) as u8,
        spec_hex_component_value(s.subrange(d[3] + 1, d[4])) as u8,
        spec_hex_component_value(s.subrange(d[4] + 1, s.len() as int)) as u8,
    )
}

/// The value of one hexadecimal digit character, if it is one.
fn hex_digit(c: char) -> (r: Option<u32>)
    ensures
        r is Some <==> spec_is_hex_digit(c),
        r matches Some(v) ==> v == spec_hex_digit_value(c),
{
    let code = c as u32;
    if 48 <= code && code <= 57 {
        Some(code - 48)
    } else if 97 <= code && code <= 102 {
        Some(code - 97 + 10)
    } else if 65 <= code && code <= 70 {
        Some(code - 65 + 10)
    } else {
        None
    }
}

/// Parse the characters from `from` to `to` as one MAC component.
fn parse_hex_component_range(s: &str, from: usize, to: usize) -> (r: Option<u8>)
    requires
        from <= to <= s@.len(),
    ensures
        r is Some <==> spec_valid_hex_component(s@.subrange(from as int, to as int)),
        r matches Some(v) ==> v == spec_hex_component_value(s@.subrange(from as int, to as int)),
{
    let ghost seg = s@.subrange(from as int, to as int);
    let start: usize = if to > from && s.get_char(from) == '+' {
        from + 1
    } else {
        from
    };
    proof {
        if to > from {
            assert(seg[0] == s@[from as int]);
        }
        assert(spec_hex_component_digits(seg) =~= s@.subrange(start as int, to as int));
    }
    if start == to {
        return None;
    }
    let mut acc: u32 = 0;
    let mut i: usize = start;
    while i < to
        invariant
            from <= start <= i <= to <= s@.len(),
            seg == s@.subrange(from as int, to as int),
            spec_hex_component_digits(seg) == s@.subrange(start as int, to as int),
            spec_all_hex_digits(s@.subrange(start as int, i as int)),
            acc == spec_hex_value(s@.subrange(start as int, i as int)),
            acc <= 255,
        decreases to - i,
    {
        let c = s.get_char(i);
        proof {
            assert(s@.subrange(start as int, to as int)[i - start] == s@[i as int]);
            assert(s@.subrange(start as int, i + 1).drop_last() =~= s@.subrange(
                start as int,
                i as int,
            ));
            assert(s@.subrange(start as int, i + 1).last() == s@[i as int]);
        }
        let digit = match hex_digit(c) {
            Some(v) => v,
            None => {
                return None;
            },
        };
        acc = acc * 16 + digit;
        i = i + 1;
        if acc > 255 {
            proof {
                let d = s@.subrange(start as int, to as int);
                if spec_all_hex_digits(d) {
                    assert(s@.subrange(start as int, i as int) =~= d.take(i - start));
                    lemma_hex_value_take_le(d, i - start);
                }
            }
            return None;
        }
    }
    proof {
        assert(s@.subrange(start as int, to as int) =~= spec_hex_component_digits(seg));
    }
    Some(acc as u8)
}

/// Parse a colon-separated MAC address.
pub fn parse_mac(s: &str) -> (r: Option<crate::net::MacAddress>)
    ensures
        r is Some <==> spec_valid_mac(s@),
        r matches Some(a) ==> a == spec_mac_of(s@),
{
    let n = s.unicode_len();
    let colons = separator_positions(s, ':');
    proof {
        lemma_sep_positions_bounds(s@, ':');
    }
    if colons.len() != 5 {
        return None;
    }
    let d0 = colons[0];
    let d1 = colons[1];
    let d2 = colons[2];
    let d3 = colons[3];
    let d4 = colons[4];
    proof {
        assert(colons@.map_values(|p: usize| p as int)[0] == d0 as int);
        assert(colons@.map_values(|p: usize| p as int)[1] == d1 as int);
        assert(colons@.map_values(|p: usize| p as int)[2] == d2 as int);
        assert(colons@.map_values(|p: usize| p as int)[3] == d3 as int);
        assert(colons@.map_values(|p: usize| p as int)[4] == d4 as int);
    }
    let o0 = match parse_hex_component_range(s, 0, d0) {
        Some(v) => v,
        None => {
            return None;
        },
    };
    let o1 = match parse_hex_component_range(s, d0 + 1, d1) {
        Some(v) => v,
        None => {
            return None;
        },
    };
    let o2 = match parse_hex_component_range(s, d1 + 1, d2) {
        Some(v) => v,
        None => {
            return None;
        },
    };
    let o3 = match parse_hex_component_range(s, d2 + 1, d3) {
        Some(v) => v,
        None => {
            return None;
        },
    };
    let o4 = match parse_hex_component_range(s, d3 + 1, d4) {
        Some(v) => v,
        None => {
            return None;
        },
    };
    let o5 = match parse_hex_component_range(s, d4 + 1, n) {
        Some(v) => v,
        None => {
            return None;
        },
    };
    Some(crate::net::MacAddress(o0, o1, o2, o3, o4, o5))
}

/// Accept a string that spells a MAC address.
pub fn mac_address_validator(value: String) -> (r: Result<(), String>)
    ensures
        r is Ok <==> spec_valid_mac(value@),
        r matches Err(m) ==> m@ == "bad MAC address: "@ + value@,
{
    match parse_mac(value.as_str()) {
        Some(_) => Ok(()),
        None => Err(String::from_str("bad MAC address: ").concat(value.as_str())),
    }
}

/// Accept a string that spells an unsigned 64-bit number.
pub fn num_validator(value: String) -> (r: Result<(), String>)
    ensures
        r is Ok <==> spec_valid_u64(value@),
        r matches Err(m) ==> m@ == "value "@ + value@ + " is not a number"@,
{
    match parse_u64(value.as_str()) {
        Some(_) => Ok(()),
        None => Err(String::from_str("value ").concat(value.as_str()).concat(" is not a number")),
    }
}

/// The first IPv4 address among an interface's configured networks, kept
/// in their given order. The caller hands one entry per network: the
/// network's address where it is IPv4, `None` where it is not.
pub fn first_ipv4_address(addresses: &Vec<Option<crate::net::Ipv4Address>>) -> (r: Option<
    crate::net::Ipv4Address,
>)
    ensures
        r is None <==> (forall|t: int|
            0 <= t < addresses@.len() ==> #[trigger] addresses@[t] is None),
        r matches Some(a) ==> (exists|t: int|
            0 <= t < addresses@.len() && #[trigger] addresses@[t] == Some(a) && (forall|u: int|
                0 <= u < t ==> #[trigger] addresses@[u] is None)),
{
    let mut t: usize = 0;
    while t < addresses.len()
        invariant
            t <= addresses@.len(),
            forall|u: int| 0 <= u < t ==> #[trigger] addresses@[u] is None,
        decreases addresses@.len() - t,
    {
        match addresses[t] {
            Some(a) => {
                return Some(a);
            },
            None => {},
        }
        t = t + 1;
    }
    None
}

/// Relies on pnet's `datalink::interfaces`: the names of the network
/// interfaces the operating system reports at the moment of the call. What
/// comes back depends on the machine, so nothing is stated of it.
#[verifier::external_body]
fn interface_names() -> (names: Vec<String>) {
    pnet::datalink::interfaces().into_iter().map(|i| i.name).collect()
}

/// Whether `name` occurs among `names`.
pub fn name_is_known(name: &String, names: &Vec<String>) -> (r: bool)
    ensures
        r == (exists|t: int| 0 <= t < names@.len() && #[trigger] names@[t]@ == name@),
{
    let mut t: usize = 0;
    while t < names.len()
        invariant
            t <= names@.len(),
            forall|u: int| 0 <= u < t ==> #[trigger] names@[u]@ != name@,
        decreases names@.len() - t,
    {
        if names[t] == *name {
            return true;
        }
        t = t + 1;
    }
    false
}

/// Accept the name of a network interface that exists on this machine.
///
/// Which interfaces exist is the machine's affair and changes under our
/// feet, so only the shape of the answer is stated: whatever the system
/// reported, a rejection carries the message below.
pub fn interface_validator(name: String) -> (r: Result<(), String>)
    ensures
        r matches Err(m) ==> m@ == "interface "@ + name@ + " does not exist"@,
{
    let names = interface_names();
    if name_is_known(&name, &names) {
        Ok(())
    } else {
        Err(String::from_str("interface ").concat(name.as_str()).concat(" does not exist"))
    }
}

} // verus!
