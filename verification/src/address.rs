//! IP addresses and the literals that denote them.
//!
//! A literal is read as a sequence of bytes. An IPv4 literal is four decimal octets between
//! dots, none with a leading zero. An IPv6 literal is eight groups of up to four hexadecimal
//! digits between colons; one pair of adjacent colons may stand for one or more groups of
//! zeros, and the last two groups may be written as an IPv4 literal.

use vstd::prelude::*;
use vstd::slice::slice_subrange;
use crate::model::IpVersion;

verus! {

/// An IP address: four octets, or eight groups of sixteen bits.
#[derive(Debug, Clone, Copy, PartialEq, Eq, Structural)]
pub enum IpAddress {
    V4(u8, u8, u8, u8),
    V6(u16, u16, u16, u16, u16, u16, u16, u16),
}

impl IpAddress {
    /// The version of the protocol that the address belongs to.
    pub open spec fn version(self) -> IpVersion {
        match self {
            IpAddress::V4(..) => IpVersion::V4,
            IpAddress::V6(..) => IpVersion::V6,
        }
    }
}

/// The byte that separates the octets of an IPv4 literal.
pub const DOT: u8 = 0x2e;

/// The byte that separates the groups of an IPv6 literal.
pub const COLON: u8 = 0x3a;

/// The pieces of `text` between the occurrences of `separator`, in order. There is always at
/// least one piece, and a piece may be empty.
pub open spec fn fields(text: Seq<u8>, separator: u8) -> Seq<Seq<u8>>
    decreases text.len(),
{
    if text.len() == 0 {
        seq![Seq::<u8>::empty()]
    } else {
        let before = fields(text.drop_last(), separator);
        if text.last() == separator {
            before.push(Seq::<u8>::empty())
        } else {
            before.drop_last().push(before.last().push(text.last()))
        }
    }
}

pub open spec fn is_decimal_digit(byte: u8) -> bool {
    0x30 <= byte <= 0x39
}

/// The number that a run of decimal digits denotes.
pub open spec fn decimal_value(digits: Seq<u8>) -> nat
    decreases digits.len(),
{
    if digits.len() == 0 {
        0
    } else {
        (decimal_value(digits.drop_last()) * 10 + (digits.last() - 0x30)) as nat
    }
}

/// The octet that `text` denotes: one to three decimal digits, without a leading zero unless
/// the octet is written as the single digit `0`, and at most 255.
pub open spec fn octet_of(text: Seq<u8>) -> Option<u8> {
    if 1 <= text.len() <= 3 && (forall|i: int| 0 <= i < text.len() ==> is_decimal_digit(text[i]))
        && (text.len() > 1 ==> text[0] != 0x30) && decimal_value(text) <= 255 {
        Some(decimal_value(text) as u8)
    } else {
        None
    }
}

/// The address that an IPv4 literal denotes.
pub open spec fn ipv4_of(text: Seq<u8>) -> Option<IpAddress> {
    let parts = fields(text, DOT);
    if parts.len() == 4 && octet_of(parts[0]) is Some && octet_of(parts[1]) is Some && octet_of(
        parts[2],
    ) is Some && octet_of(parts[3]) is Some {
        Some(
            IpAddress::V4(
                octet_of(parts[0])->0,
                octet_of(parts[1])->0,
                octet_of(parts[2])->0,
                octet_of(parts[3])->0,
            ),
        )
    } else {
        None
    }
}

/// The value of a hexadecimal digit, in either case.
pub open spec fn hex_digit_value(byte: u8) -> Option<nat> {
    if 0x30 <= byte <= 0x39 {
        Some((byte - 0x30) as nat)
    } else if 0x61 <= byte <= 0x66 {
        Some((byte - 0x61 + 10) as nat)
    } else if 0x41 <= byte <= 0x46 {
        Some((byte - 0x41 + 10) as nat)
    } else {
        None
    }
}

/// The number that a run of hexadecimal digits denotes.
pub open spec fn hex_value(digits: Seq<u8>) -> nat
    decreases digits.len(),
{
    if digits.len() == 0 {
        0
    } else {
        match hex_digit_value(digits.last()) {
            Some(digit) => hex_value(digits.drop_last()) * 16 + digit,
            None => hex_value(digits.drop_last()) * 16,
        }
    }
}

/// The group that `text` denotes: one to four hexadecimal digits.
pub open spec fn group_of(text: Seq<u8>) -> Option<u16> {
    if 1 <= text.len() <= 4 && (forall|i: int|
        0 <= i < text.len() ==> hex_digit_value(#[trigger] text[i]) is Some) {
        Some(hex_value(text) as u16)
    } else {
        None
    }
}

/// The two groups that the octets of an IPv4 address fill.
pub open spec fn embedded_groups(address: IpAddress) -> Seq<u16> {
    match address {
        IpAddress::V4(a, b, c, d) => seq![(a * 256 + b) as u16, (c * 256 + d) as u16],
        IpAddress::V6(..) => Seq::empty(),
    }
}

/// The groups written in one stretch of an IPv6 literal, which is the whole literal or what
/// stands on one side of its pair of colons. An empty stretch holds no group. Otherwise the
/// pieces between its colons are groups, but for the last one where `embedded` allows it: that
/// one may be an IPv4 literal, which stands for two groups.
pub open spec fn groups_of(text: Seq<u8>, embedded: bool) -> Option<Seq<u16>> {
    let parts = fields(text, COLON);
    let front = parts.drop_last();
    if text.len() == 0 {
        Some(Seq::empty())
    } else if forall|i: int| 0 <= i < front.len() ==> group_of(#[trigger] front[i]) is Some {
        let groups = front.map_values(|part: Seq<u8>| group_of(part)->0);
        if group_of(parts.last()) is Some {
            Some(groups.push(group_of(parts.last())->0))
        } else if embedded && ipv4_of(parts.last()) is Some {
            Some(groups + embedded_groups(ipv4_of(parts.last())->0))
        } else {
            None
        }
    } else {
        None
    }
}

/// Where the first pair of adjacent colons of `text` begins, looking from `from` on.
pub open spec fn first_gap(text: Seq<u8>, from: int) -> Option<int>
    decreases text.len() - from,
{
    if from < 0 || from + 1 >= text.len() {
        None
    } else if text[from] == COLON && text[from + 1] == COLON {
        Some(from)
    } else {
        first_gap(text, from + 1)
    }
}

/// The address with the given eight groups.
pub open spec fn address_of_groups(groups: Seq<u16>) -> IpAddress {
    IpAddress::V6(
        groups[0],
        groups[1],
        groups[2],
        groups[3],
        groups[4],
        groups[5],
        groups[6],
        groups[7],
    )
}

/// `count` groups of zeros.
pub open spec fn zero_groups(count: nat) -> Seq<u16> {
    Seq::new(count, |i: int| 0u16)
}

/// The address that an IPv6 literal denotes. Without a pair of adjacent colons the literal
/// holds all eight groups. With one, the groups before it open the address, those after it
/// close it, and at least one group of zeros lies between.
pub open spec fn ipv6_of(text: Seq<u8>) -> Option<IpAddress> {
    match first_gap(text, 0) {
        None => match groups_of(text, true) {
            Some(groups) => if groups.len() == 8 {
                Some(address_of_groups(groups))
            } else {
                None
            },
            None => None,
        },
        Some(gap) => match (
            groups_of(text.take(gap), false),
            groups_of(text.skip(gap + 2), true),
        ) {
            (Some(front), Some(back)) => if front.len() + back.len() <= 7 {
                Some(
                    address_of_groups(
                        front + zero_groups((8 - front.len() - back.len()) as nat) + back,
                    ),
                )
            } else {
                None
            },
            _ => None,
        },
    }
}

/// The address that a literal of the given version denotes.
pub open spec fn address_of(version: IpVersion, text: Seq<u8>) -> Option<IpAddress> {
    match version {
        IpVersion::V4 => ipv4_of(text),
        IpVersion::V6 => ipv6_of(text),
    }
}

/// The contents of each of `parts`.
pub open spec fn contents(parts: Seq<Vec<u8>>) -> Seq<Seq<u8>> {
    parts.map_values(|part: Vec<u8>| part@)
}

/// Splits `text` at every occurrence of `separator`.
pub fn split_fields(text: &[u8], separator: u8) -> (parts: Vec<Vec<u8>>)
    ensures
        contents(parts@) == fields(text@, separator),
        parts@.len() >= 1,
{
    let mut parts: Vec<Vec<u8>> = Vec::new();
    let mut current: Vec<u8> = Vec::new();
    let mut i: usize = 0;
    while i < text.len()
        invariant
            i <= text.len(),
            fields(text@.take(i as int), separator) == contents(parts@).push(current@),
        decreases text.len() - i,
    {
        let byte = text[i];
        proof {
            assert(text@.take(i + 1).drop_last() == text@.take(i as int));
            assert(contents(parts@).push(current@).drop_last() == contents(parts@));
        }
        if byte == separator {
            proof {
                assert(contents(parts@.push(current)) == contents(parts@).push(current@));
            }
            parts.push(current);
            current = Vec::new();
        } else {
            current.push(byte);
        }
        i += 1;
    }
    proof {
        assert(text@.take(i as int) == text@);
        assert(contents(parts@.push(current)) == contents(parts@).push(current@));
    }
    parts.push(current);
    parts
}

/// Reads one octet of an IPv4 literal.
pub fn parse_octet(text: &[u8]) -> (octet: Option<u8>)
    ensures
        octet == octet_of(text@),
{
    let length = text.len();
    if length == 0 || length > 3 {
        return None;
    }
    if length > 1 && text[0] == 0x30 {
        return None;
    }
    let mut value: u32 = 0;
    let mut i: usize = 0;
    while i < length
        invariant
            i <= length == text@.len() <= 3,
            forall|j: int| 0 <= j < i ==> is_decimal_digit(text@[j]),
            value == decimal_value(text@.take(i as int)),
            value <= 999,
            i <= 2 ==> value <= 99,
            i <= 1 ==> value <= 9,
            i == 0 ==> value == 0,
        decreases length - i,
    {
        let byte = text[i];
        if byte < 0x30 || byte > 0x39 {
            return None;
        }
        proof {
            assert(text@.take(i + 1).drop_last() == text@.take(i as int));
        }
        value = value * 10 + (byte - 0x30) as u32;
        i += 1;
    }
    proof {
        assert(text@.take(i as int) == text@);
    }
    if value > 255 {
        None
    } else {
        Some(value as u8)
    }
}

/// Reads an IPv4 literal.
pub fn parse_ipv4(text: &[u8]) -> (address: Option<IpAddress>)
    ensures
        address == ipv4_of(text@),
{
    let parts = split_fields(text, DOT);
    if parts.len() != 4 {
        return None;
    }
    assert(forall|i: int| 0 <= i < 4 ==> contents(parts@)[i] == #[trigger] parts@[i]@);
    match (
        parse_octet(parts[0].as_slice()),
        parse_octet(parts[1].as_slice()),
        parse_octet(parts[2].as_slice()),
        parse_octet(parts[3].as_slice()),
    ) {
        (Some(a), Some(b), Some(c), Some(d)) => Some(IpAddress::V4(a, b, c, d)),
        _ => None,
    }
}

/// Reads one hexadecimal digit.
pub fn parse_hex_digit(byte: u8) -> (digit: Option<u16>)
    ensures
        match digit {
            Some(value) => hex_digit_value(byte) == Some(value as nat),
            None => hex_digit_value(byte) is None,
        },
{
    if 0x30 <= byte && byte <= 0x39 {
        Some((byte - 0x30) as u16)
    } else if 0x61 <= byte && byte <= 0x66 {
        Some((byte - 0x61 + 10) as u16)
    } else if 0x41 <= byte && byte <= 0x46 {
        Some((byte - 0x41 + 10) as u16)
    } else {
        None
    }
}

/// Reads one group of an IPv6 literal.
pub fn parse_group(text: &[u8]) -> (group: Option<u16>)
    ensures
        group == group_of(text@),
{
    let length = text.len();
    if length == 0 || length > 4 {
        return None;
    }
    let mut value: u32 = 0;
    let mut i: usize = 0;
    while i < length
        invariant
            i <= length == text@.len() <= 4,
            forall|j: int| 0 <= j < i ==> hex_digit_value(#[trigger] text@[j]) is Some,
            value == hex_value(text@.take(i as int)),
            value < 0x10000,
            i <= 3 ==> value < 0x1000,
            i <= 2 ==> value < 0x100,
            i <= 1 ==> value < 0x10,
            i == 0 ==> value == 0,
        decreases length - i,
    {
        proof {
            assert(text@.take(i + 1).drop_last() == text@.take(i as int));
        }
        match parse_hex_digit(text[i]) {
            Some(digit) => {
                value = value * 16 + digit as u32;
            },
            None => {
                return None;
            },
        }
        i += 1;
    }
    proof {
        assert(text@.take(i as int) == text@);
    }
    Some(value as u16)
}

/// Reads the groups of one stretch of an IPv6 literal.
pub fn parse_groups(text: &[u8], embedded: bool) -> (groups: Option<Vec<u16>>)
    ensures
        match groups {
            Some(found) => groups_of(text@, embedded) == Some(found@),
            None => groups_of(text@, embedded) is None,
        },
{
    if text.len() == 0 {
        return Some(Vec::new());
    }
    let parts = split_fields(text, COLON);
    let last = parts.len() - 1;
    let ghost front = fields(text@, COLON).drop_last();
    let mut groups: Vec<u16> = Vec::new();
    let mut i: usize = 0;
    while i < last
        invariant
            i <= last == parts@.len() - 1,
            contents(parts@) == fields(text@, COLON),
            front == fields(text@, COLON).drop_last(),
            groups@.len() == i,
            forall|j: int| 0 <= j < i ==> group_of(#[trigger] front[j]) == Some(groups@[j]),
        decreases last - i,
    {
        assert(contents(parts@)[i as int] == parts@[i as int]@);
        match parse_group(parts[i].as_slice()) {
            Some(group) => {
                groups.push(group);
            },
            None => {
                assert(group_of(front[i as int]) is None);
                return None;
            },
        }
        i += 1;
    }
    assert(groups@ == front.map_values(|part: Seq<u8>| group_of(part)->0));
    assert(contents(parts@)[last as int] == parts@[last as int]@);
    match parse_group(parts[last].as_slice()) {
        Some(group) => {
            groups.push(group);
            Some(groups)
        },
        None => {
            if !embedded {
                return None;
            }
            match parse_ipv4(parts[last].as_slice()) {
                Some(IpAddress::V4(a, b, c, d)) => {
                    let ghost before = groups@;
                    groups.push(a as u16 * 256 + b as u16);
                    groups.push(c as u16 * 256 + d as u16);
                    assert(groups@ == before + embedded_groups(IpAddress::V4(a, b, c, d)));
                    Some(groups)
                },
                _ => None,
            }
        },
    }
}

/// Finds the first pair of adjacent colons.
pub fn find_gap(text: &[u8]) -> (gap: Option<usize>)
    ensures
        match gap {
            Some(position) => first_gap(text@, 0) == Some(position as int),
            None => first_gap(text@, 0) is None,
        },
{
    if text.len() < 2 {
        return None;
    }
    let mut i: usize = 0;
    while i <= text.len() - 2
        invariant
            text@.len() >= 2,
            i <= text@.len() - 1,
            first_gap(text@, 0) == first_gap(text@, i as int),
        decreases text.len() - i,
    {
        if text[i] == COLON && text[i + 1] == COLON {
            return Some(i);
        }
        i += 1;
    }
    None
}

/// Reads an IPv6 literal.
pub fn parse_ipv6(text: &[u8]) -> (address: Option<IpAddress>)
    ensures
        address == ipv6_of(text@),
{
    match find_gap(text) {
        None => match parse_groups(text, true) {
            Some(groups) => {
                if groups.len() == 8 {
                    Some(
                        IpAddress::V6(
                            groups[0],
                            groups[1],
                            groups[2],
                            groups[3],
                            groups[4],
                            groups[5],
                            groups[6],
                            groups[7],
                        ),
                    )
                } else {
                    None
                }
            },
            None => None,
        },
        Some(gap) => {
            let length = text.len();
            assert(gap + 2 <= length) by {
                lemma_gap_in_range(text@, 0);
            }
            assert(text@.take(gap as int) == text@.subrange(0, gap as int));
            assert(text@.skip(gap + 2) == text@.subrange(gap + 2, text@.len() as int));
            let front = parse_groups(slice_subrange(text, 0, gap), false);
            let back = parse_groups(slice_subrange(text, gap + 2, length), true);
            match (front, back) {
                (Some(front), Some(back)) => {
                    if front.len() > 7 || back.len() > 7 - front.len() {
                        return None;
                    }
                    let ghost wanted = front@ + zero_groups((8 - front@.len() - back@.len()) as nat)
                        + back@;
                    let mut groups: Vec<u16> = Vec::new();
                    let mut i: usize = 0;
                    while i < 8
                        invariant
                            i <= 8,
                            front@.len() + back@.len() <= 7,
                            wanted == front@ + zero_groups(
                                (8 - front@.len() - back@.len()) as nat,
                            ) + back@,
                            groups@ == wanted.take(i as int),
                        decreases 8 - i,
                    {
                        let group = if i < front.len() {
                            front[i]
                        } else if i < 8 - back.len() {
                            0
                        } else {
                            back[i - (8 - back.len())]
                        };
                        assert(group == wanted[i as int]);
                        groups.push(group);
                        assert(groups@ == wanted.take(i + 1));
                        i += 1;
                    }
                    assert(groups@ == wanted);
                    Some(
                        IpAddress::V6(
                            groups[0],
                            groups[1],
                            groups[2],
                            groups[3],
                            groups[4],
                            groups[5],
                            groups[6],
                            groups[7],
                        ),
                    )
                },
                _ => None,
            }
        },
    }
}

/// A pair of adjacent colons lies within the text.
proof fn lemma_gap_in_range(text: Seq<u8>, from: int)
    requires
        0 <= from,
    ensures
        first_gap(text, from) matches Some(gap) ==> from <= gap && gap + 2 <= text.len()
            && text[gap] == COLON && text[gap + 1] == COLON,
    decreases text.len() - from,
{
    if from + 1 < text.len() && !(text[from] == COLON && text[from + 1] == COLON) {
        lemma_gap_in_range(text, from + 1);
    }
}

/// Reads a literal of the given version.
pub fn parse_address(version: IpVersion, text: &[u8]) -> (address: Option<IpAddress>)
    ensures
        address == address_of(version, text@),
{
    match version {
        IpVersion::V4 => parse_ipv4(text),
        IpVersion::V6 => parse_ipv6(text),
    }
}

} // verus!
