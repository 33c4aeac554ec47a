//! Motor IDs as given on a command line: a number, or the special value "broadcast".
use vstd::prelude::*;

use crate::bus::packet_id;
use vstd::string::StringSliceAdditionalSpecFns;

verus! {

/// A motor ID, or the broadcast ID that addresses all motors.
#[derive(Debug, Copy, Clone, PartialEq, Eq)]
pub enum MotorId {
    /// A single motor.
    Id(u8),
    /// All motors.
    Broadcast,
}

/// The ASCII lower case form of a byte.
pub open spec fn spec_to_ascii_lowercase(b: u8) -> u8 {
    if 0x41 <= b <= 0x5A {
        (b + 0x20) as u8
    } else {
        b
    }
}

/// The two byte strings are equal, ignoring ASCII case.
pub open spec fn spec_eq_ignore_ascii_case(a: Seq<u8>, b: Seq<u8>) -> bool {
    &&& a.len() == b.len()
    &&& forall|i: int| 0 <= i < a.len() ==> spec_to_ascii_lowercase(#[trigger] a[i]) == spec_to_ascii_lowercase(b[i])
}

/// The byte is an ASCII decimal digit.
pub open spec fn spec_is_digit(b: u8) -> bool {
    0x30 <= b <= 0x39
}

/// Every byte of the string is an ASCII decimal digit.
pub open spec fn spec_all_digits(s: Seq<u8>) -> bool {
    forall|i: int| 0 <= i < s.len() ==> spec_is_digit(#[trigger] s[i])
}

/// The value of a string of decimal digits.
pub open spec fn spec_decimal_value(s: Seq<u8>) -> nat
    decreases s.len(),
{
    if s.len() == 0 {
        0
    } else {
        spec_decimal_value(s.drop_last()) * 10 + (s.last() - 0x30) as nat
    }
}

/// The `u8` that a string stands for in decimal notation, with an optional leading `+`, if any.
pub open spec fn spec_parse_u8(s: Seq<u8>) -> Option<u8> {
    let digits = if s.len() > 0 && s[0] == 0x2Bu8 { s.skip(1) } else { s };
    if digits.len() > 0 && spec_all_digits(digits) && spec_decimal_value(digits) <= u8::MAX {
        Some(spec_decimal_value(digits) as u8)
    } else {
        None
    }
}

/// The word that stands for the broadcast ID.
pub open spec fn spec_broadcast_word() -> Seq<u8> {
    seq![0x62u8, 0x72u8, 0x6Fu8, 0x61u8, 0x64u8, 0x63u8, 0x61u8, 0x73u8, 0x74u8]
}

/// The motor ID that a command line argument stands for: "broadcast" in any case, or a number,
/// where the number of the broadcast ID also stands for the broadcast ID.
pub open spec fn spec_parse_motor_id(s: Seq<u8>) -> Option<MotorId> {
    if spec_eq_ignore_ascii_case(s, spec_broadcast_word()) {
        Some(MotorId::Broadcast)
    } else {
        match spec_parse_u8(s) {
            Some(id) => if id == packet_id::BROADCAST {
                Some(MotorId::Broadcast)
            } else {
                Some(MotorId::Id(id))
            },
            None => None,
        }
    }
}

/// A prefix of a string of digits has at most its value.
proof fn lemma_decimal_value_prefix(s: Seq<u8>, j: int)
    requires
        0 <= j <= s.len(),
        spec_all_digits(s),
    ensures
        spec_decimal_value(s.take(j)) <= spec_decimal_value(s),
    decreases s.len() - j,
{
    if j < s.len() {
        lemma_decimal_value_prefix(s, j + 1);
        assert(s.take(j + 1).drop_last() =~= s.take(j));
    } else {
        assert(s.take(j) =~= s);
    }
}

/// The ASCII lower case form of a byte.
fn to_ascii_lowercase(b: u8) -> (r: u8)
    ensures
        r == spec_to_ascii_lowercase(b),
{
    if 0x41 <= b && b <= 0x5A {
        b + 0x20
    } else {
        b
    }
}

/// Check if two byte strings are equal, ignoring ASCII case.
fn eq_ignore_ascii_case(a: &[u8], b: &[u8]) -> (r: bool)
    ensures
        r == spec_eq_ignore_ascii_case(a@, b@),
{
    if a.len() != b.len() {
        return false;
    }
    let mut i: usize = 0;
    while i < a.len()
        invariant
            a@.len() == b@.len(),
            i <= a@.len(),
            forall|k: int| 0 <= k < i ==> spec_to_ascii_lowercase(#[trigger] a@[k]) == spec_to_ascii_lowercase(b@[k]),
        decreases a@.len() - i,
    {
        if to_ascii_lowercase(a[i]) != to_ascii_lowercase(b[i]) {
            return false;
        }
        i = i + 1;
    }
    true
}

/// Parse a `u8` in decimal notation, with an optional leading `+`.
pub fn parse_u8(s: &[u8]) -> (r: Option<u8>)
    ensures
        r == spec_parse_u8(s@),
{
    let start: usize = if s.len() > 0 && s[0] == 0x2B { 1 } else { 0 };
    let ghost digits = if s@.len() > 0 && s@[0] == 0x2Bu8 { s@.skip(1) } else { s@ };
    assert(digits =~= s@.skip(start as int));
    if start >= s.len() {
        return None;
    }
    let mut value: u32 = 0;
    let mut i: usize = start;
    while i < s.len()
        invariant
            start <= i <= s@.len(),
            start < s@.len(),
            digits == (if s@.len() > 0 && s@[0] == 0x2Bu8 { s@.skip(1) } else { s@ }),
            digits =~= s@.skip(start as int),
            forall|k: int| 0 <= k < i - start ==> spec_is_digit(#[trigger] digits[k]),
            value == spec_decimal_value(digits.take(i - start)),
            value <= u8::MAX,
        decreases s@.len() - i,
    {
        let b = s[i];
        if !(0x30 <= b && b <= 0x39) {
            assert(!spec_is_digit(digits[i - start]));
            assert(!spec_all_digits(digits));
            return None;
        }
        assert(digits.take(i - start + 1).drop_last() =~= digits.take(i - start));
        value = value * 10 + (b - 0x30) as u32;
        i = i + 1;
        if value > 0xFF {
            proof {
                if spec_all_digits(digits) {
                    lemma_decimal_value_prefix(digits, i - start);
                }
            }
            return None;
        }
    }
    assert(digits.take(i - start) =~= digits);
    Some(value as u8)
}

impl MotorId {
    /// The raw motor ID, which is the broadcast ID for [`MotorId::Broadcast`].
    pub fn raw(self) -> (r: u8)
        ensures
            r == (match self {
                MotorId::Id(raw) => raw,
                MotorId::Broadcast => packet_id::BROADCAST,
            }),
    {
        match self {
            MotorId::Id(raw) => raw,
            MotorId::Broadcast => packet_id::BROADCAST,
        }
    }

    /// The motor ID of a single motor, or an error for the broadcast ID,
    /// for commands that can not be broadcast.
    pub fn assume_unicast(self) -> (r: Result<u8, ()>)
        ensures
            r == (match self {
                MotorId::Id(raw) => Ok::<u8, ()>(raw),
                MotorId::Broadcast => Err(()),
            }),
    {
        match self {
            MotorId::Id(raw) => Ok(raw),
            MotorId::Broadcast => Err(()),
        }
    }

    /// Parse a motor ID: "broadcast" in any case, or a number in the range 0..255.
    ///
    /// The number of the broadcast ID also stands for [`MotorId::Broadcast`].
    pub fn parse(data: &[u8]) -> (r: Option<Self>)
        ensures
            r == spec_parse_motor_id(data@),
    {
        let word: [u8; 9] = [0x62, 0x72, 0x6F, 0x61, 0x64, 0x63, 0x61, 0x73, 0x74];
        assert(word@ =~= spec_broadcast_word());
        if eq_ignore_ascii_case(data, word.as_slice()) {
            Some(MotorId::Broadcast)
        } else {
            match parse_u8(data) {
                Some(id) => if id == packet_id::BROADCAST {
                    Some(MotorId::Broadcast)
                } else {
                    Some(MotorId::Id(id))
                },
                None => None,
            }
        }
    }
}

impl core::str::FromStr for MotorId {
    type Err = &'static str;

    fn from_str(data: &str) -> (r: Result<Self, Self::Err>)
        ensures
            r is Ok <==> spec_parse_motor_id(data.spec_bytes()) is Some,
            r matches Ok(id) ==> spec_parse_motor_id(data.spec_bytes()) == Some(id),
            r matches Err(message) ==> message@
                == "invalid motor ID: expected a number in the range 0..255 or the special value \"broadcast\""@,
    {
        match MotorId::parse(data.as_bytes()) {
            Some(id) => Ok(id),
            None => Err("invalid motor ID: expected a number in the range 0..255 or the special value \"broadcast\""),
        }
    }
}

} // verus!
