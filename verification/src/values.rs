//! Typed attribute values: numbers, versions, serial numbers, object classes.

use vstd::prelude::*;
use crate::codec::{decoded_bytes, percent_decode_bytes};
use crate::text::{chars_of, first_index, same_text, split_once};

verus! {

/// Major and minor version of a library, one byte each.
#[derive(Copy, Clone, Debug, PartialEq, Eq, Structural)]
pub struct Version {
    pub major: u8,
    pub minor: u8,
}

/// The class of an object on a token.
#[derive(Copy, Clone, Debug, PartialEq, Eq, Structural)]
pub enum ObjectClass {
    Certificate,
    Data,
    PrivateKey,
    PublicKey,
    SecretKey,
}

pub open spec fn is_digit(c: char) -> bool {
    '0' <= c <= '9'
}

pub open spec fn digit_value(c: char) -> nat {
    (c as u32 - '0' as u32) as nat
}

/// A non-empty run of decimal digits.
pub open spec fn is_decimal(s: Seq<char>) -> bool {
    s.len() > 0 && forall|i: int| 0 <= i < s.len() ==> is_digit(#[trigger] s[i])
}

/// The number that a run of decimal digits spells.
pub open spec fn decimal_value(s: Seq<char>) -> nat
    decreases s.len(),
{
    if s.len() == 0 {
        0
    } else {
        decimal_value(s.drop_last()) * 10 + digit_value(s.last())
    }
}

/// The number that `s` spells in decimal, where it is one and is at most
/// `max`.
pub open spec fn decimal(s: Seq<char>, max: nat) -> Option<nat> {
    if is_decimal(s) && decimal_value(s) <= max {
        Some(decimal_value(s))
    } else {
        None
    }
}

/// A prefix never spells a larger number than the whole.
pub proof fn lemma_decimal_prefix(s: Seq<char>, i: int)
    requires
        0 <= i <= s.len(),
    ensures
        decimal_value(s.take(i)) <= decimal_value(s),
    decreases s.len(),
{
    if i == s.len() {
        assert(s.take(i) =~= s);
    } else {
        lemma_decimal_prefix(s.drop_last(), i);
        assert(s.drop_last().take(i) =~= s.take(i));
    }
}

/// Reads `value` as a decimal number no larger than `max`. Signs, blanks and
/// any other non-digit are refused, and so is the empty text.
pub fn parse_decimal(value: &str, max: u64) -> (number: Option<u64>)
    ensures
        number matches Some(n) ==> decimal(value@, max as nat) == Some(n as nat),
        number is None ==> decimal(value@, max as nat) is None,
{
    let chars = chars_of(value);
    let n = chars.len();
    if n == 0 {
        return None;
    }
    let mut acc: u64 = 0;
    let mut i: usize = 0;
    while i < n
        invariant
            chars@ == value@,
            n == chars@.len(),
            i <= n,
            acc as nat == decimal_value(chars@.take(i as int)),
            acc <= max,
            forall|j: int| 0 <= j < i ==> is_digit(#[trigger] chars@[j]),
        decreases n - i,
    {
        let c = chars[i];
        if !('0' <= c && c <= '9') {
            return None;
        }
        let d: u64 = (c as u32 - '0' as u32) as u64;
        proof {
            assert(chars@.take(i + 1).drop_last() =~= chars@.take(i as int));
            lemma_decimal_prefix(chars@, i + 1);
        }
        if d > max || acc > (max - d) / 10 {
            return None;
        }
        acc = acc * 10 + d;
        i += 1;
    }
    assert(chars@.take(n as int) =~= chars@);
    Some(acc)
}

/// The slot identifier that `value` spells.
pub open spec fn slot_id_of(value: Seq<char>) -> Option<u64> {
    match decimal(value, u64::MAX as nat) {
        Some(n) => Some(n as u64),
        None => None,
    }
}

/// Reads a slot identifier: a decimal number that fits the identifier type.
/// On failure `value` is handed back.
pub fn parse_slot_id(value: &str) -> (id: Result<u64, &str>)
    ensures
        id matches Ok(n) ==> slot_id_of(value@) == Some(n),
        id matches Err(raw) ==> slot_id_of(value@) is None && raw@ == value@,
{
    match parse_decimal(value, u64::MAX) {
        Some(n) => Ok(n),
        None => Err(value),
    }
}

/// The version that `value` spells: `M.N`, or `M` alone for `M.0`.
pub open spec fn version_of(value: Seq<char>) -> Option<Version> {
    let dot = first_index(value, '.');
    if value.contains('.') {
        match (
            decimal(value.subrange(0, dot), 255),
            decimal(value.subrange(dot + 1, value.len() as int), 255),
        ) {
            (Some(major), Some(minor)) => Some(Version { major: major as u8, minor: minor as u8 }),
            _ => None,
        }
    } else {
        match decimal(value, 255) {
            Some(major) => Some(Version { major: major as u8, minor: 0 }),
            None => None,
        }
    }
}

/// Reads a library version. With a dot the text is a major and a minor
/// number, split at the first dot; without one it is the major number and
/// the minor number is 0. On failure `value` is handed back.
pub fn parse_library_version(value: &str) -> (version: Result<Version, &str>)
    ensures
        version matches Ok(v) ==> version_of(value@) == Some(v),
        version matches Err(raw) ==> version_of(value@) is None && raw@ == value@,
{
    match split_once(value, '.') {
        Some((major, minor)) => {
            let major = match parse_decimal(major, 255) {
                Some(n) => n as u8,
                None => return Err(value),
            };
            let minor = match parse_decimal(minor, 255) {
                Some(n) => n as u8,
                None => return Err(value),
            };
            Ok(Version { major, minor })
        },
        None => match parse_decimal(value, 255) {
            Some(n) => Ok(Version { major: n as u8, minor: 0 }),
            None => Err(value),
        },
    }
}

/// `bytes` followed by as many blanks as it takes to fill 16 bytes.
pub open spec fn blank_padded(bytes: Seq<u8>) -> Seq<u8>
    recommends
        bytes.len() <= 16,
{
    Seq::new(16, |i: int| if i < bytes.len() { bytes[i] } else { 0x20u8 })
}

/// The serial number that `value` spells: its decoded bytes, blank-padded to
/// 16, where there are at most 16 of them.
pub open spec fn serial_of(value: Seq<char>) -> Option<Seq<u8>> {
    if decoded_bytes(value).len() <= 16 {
        Some(blank_padded(decoded_bytes(value)))
    } else {
        None
    }
}

/// A serial number of one byte is that byte and 15 blanks.
pub proof fn lemma_serial_of_one_byte(value: Seq<char>)
    requires
        decoded_bytes(value).len() == 1,
    ensures
        serial_of(value) == Some(seq![decoded_bytes(value)[0]] + Seq::new(15, |i: int| 0x20u8)),
{
    assert(blank_padded(decoded_bytes(value)) =~= seq![decoded_bytes(value)[0]] + Seq::new(
        15,
        |i: int| 0x20u8,
    ));
}

/// Reads a token serial number: the percent-decoded bytes of `value`, padded
/// on the right with blanks to exactly 16 bytes. More than 16 bytes are
/// refused, and `value` is handed back.
pub fn parse_serial_number(value: &str) -> (serial: Result<[u8; 16], &str>)
    ensures
        serial matches Ok(s) ==> serial_of(value@) == Some(s@),
        serial matches Err(raw) ==> serial_of(value@) is None && raw@ == value@,
{
    let bytes = match percent_decode_bytes(value) {
        Ok(bytes) => bytes,
        Err(_) => return Err(value),
    };
    if bytes.len() > 16 {
        return Err(value);
    }
    let mut serial: [u8; 16] = [0x20u8; 16];
    let mut i: usize = 0;
    while i < bytes.len()
        invariant
            bytes.len() <= 16,
            i <= bytes.len(),
            forall|j: int| 0 <= j < i ==> serial@[j] == bytes@[j],
            forall|j: int| i <= j < 16 ==> serial@[j] == 0x20u8,
        decreases bytes.len() - i,
    {
        serial[i] = bytes[i];
        i += 1;
    }
    assert(serial@ =~= blank_padded(bytes@));
    Ok(serial)
}

/// The object class that `value` names.
pub open spec fn object_class_of(value: Seq<char>) -> Option<ObjectClass> {
    if value == "cert"@ {
        Some(ObjectClass::Certificate)
    } else if value == "data"@ {
        Some(ObjectClass::Data)
    } else if value == "private"@ {
        Some(ObjectClass::PrivateKey)
    } else if value == "public"@ {
        Some(ObjectClass::PublicKey)
    } else if value == "secret-key"@ {
        Some(ObjectClass::SecretKey)
    } else {
        None
    }
}

impl ObjectClass {
    /// The class that `s` names, or `s` itself where it names none. The names
    /// are `cert`, `data`, `private`, `public` and `secret-key`, exactly.
    pub fn try_from(s: &str) -> (class: Result<ObjectClass, &str>)
        ensures
            class matches Ok(c) ==> object_class_of(s@) == Some(c),
            class matches Err(raw) ==> object_class_of(s@) is None && raw@ == s@,
    {
        if same_text(s, "cert") {
            Ok(ObjectClass::Certificate)
        } else if same_text(s, "data") {
            Ok(ObjectClass::Data)
        } else if same_text(s, "private") {
            Ok(ObjectClass::PrivateKey)
        } else if same_text(s, "public") {
            Ok(ObjectClass::PublicKey)
        } else if same_text(s, "secret-key") {
            Ok(ObjectClass::SecretKey)
        } else {
            Err(s)
        }
    }

    /// The number that stands for this class in an object search.
    pub open spec fn spec_raw(self) -> u64 {
        match self {
            ObjectClass::Data => 0,
            ObjectClass::Certificate => 1,
            ObjectClass::PublicKey => 2,
            ObjectClass::PrivateKey => 3,
            ObjectClass::SecretKey => 4,
        }
    }

    /// The number that stands for this class in an object search.
    #[verifier::when_used_as_spec(spec_raw)]
    pub fn raw(self) -> (value: u64)
        ensures
            value == self.spec_raw(),
    {
        match self {
            ObjectClass::Data => 0,
            ObjectClass::Certificate => 1,
            ObjectClass::PublicKey => 2,
            ObjectClass::PrivateKey => 3,
            ObjectClass::SecretKey => 4,
        }
    }
}

/// Reads an object class by its name. On failure `value` is handed back.
pub fn parse_object_class(value: &str) -> (class: Result<ObjectClass, &str>)
    ensures
        class matches Ok(c) ==> object_class_of(value@) == Some(c),
        class matches Err(raw) ==> object_class_of(value@) is None && raw@ == value@,
{
    ObjectClass::try_from(value)
}

} // verus!
