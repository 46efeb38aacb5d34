//! A payload as a tree of values, and the readers that take the members of
//! an object by name: texts, numbers, flags, and the numbers that travel as
//! decimal or hexadecimal text.

use vstd::prelude::*;
use crate::messages::GcodeState;
use crate::text::{
    dec_digits, hex_digits, lemma_signed_dec_round_trip, lemma_unsigned_dec_round_trip,
    lemma_unsigned_hex_round_trip, parse_i32_decimal, parse_signed_dec, parse_u32_decimal,
    parse_u32_hex, parse_unsigned_dec, parse_unsigned_hex, signed_dec_digits,
};

verus! {

/// How a number was written.
#[derive(Debug, Clone, Copy, PartialEq, Eq)]
pub enum NumberKind {
    /// A whole number that is not negative.
    PosInt(u64),
    /// A negative whole number.
    NegInt(i64),
    /// A number with a fraction or an exponent.
    Float,
}

/// A number of a payload.
#[derive(Debug, Clone, Copy, PartialEq, Eq)]
pub struct JsonNumber {
    pub kind: NumberKind,
    /// The single-precision number nearest to it, as its bits.
    pub single: u32,
}

/// A value of a payload. The members of an object stand in the order in
/// which they are looked up: the first member of a name is the one that
/// counts.
#[derive(Debug, PartialEq)]
pub enum Json {
    Null,
    Bool(bool),
    Number(JsonNumber),
    Text(String),
    Array(Vec<Json>),
    Object(Vec<(String, Json)>),
}

/// Why a value does not have the shape that was asked for.
#[derive(Debug, Clone, Copy, PartialEq, Eq, Structural)]
pub enum Malformed {
    /// A member is missing, or of another type, or a text that should
    /// denote a number does not.
    Fault,
}

/// The members of an object.
pub type Members = Seq<(String, Json)>;

/// The first member named `key`, if there is one.
pub open spec fn spec_member(members: Members, key: Seq<char>) -> Option<Json>
    decreases members.len(),
{
    if members.len() == 0 {
        None
    } else if members[0].0@ == key {
        Some(members[0].1)
    } else {
        spec_member(members.drop_first(), key)
    }
}

/// The member named `key` where it is there and not null.
pub open spec fn spec_present(members: Members, key: Seq<char>) -> Option<Json> {
    match spec_member(members, key) {
        Some(Json::Null) => None,
        other => other,
    }
}

/// The 32-bit signed number that a number of a payload denotes.
pub open spec fn spec_as_i32(number: JsonNumber) -> Result<i32, Malformed> {
    match number.kind {
        NumberKind::PosInt(u) => if u <= 0x7fff_ffff {
            Ok(u as i32)
        } else {
            Err(Malformed::Fault)
        },
        NumberKind::NegInt(i) => if -0x8000_0000 <= i <= 0x7fff_ffff {
            Ok(i as i32)
        } else {
            Err(Malformed::Fault)
        },
        NumberKind::Float => Err(Malformed::Fault),
    }
}

/// The 32-bit unsigned number that a number of a payload denotes.
pub open spec fn spec_as_u32(number: JsonNumber) -> Result<u32, Malformed> {
    match number.kind {
        NumberKind::PosInt(u) => if u <= 0xffff_ffff {
            Ok(u as u32)
        } else {
            Err(Malformed::Fault)
        },
        NumberKind::NegInt(i) => if 0 <= i <= 0xffff_ffff {
            Ok(i as u32)
        } else {
            Err(Malformed::Fault)
        },
        NumberKind::Float => Err(Malformed::Fault),
    }
}

/// What an unsigned decimal text denotes, as a result.
pub open spec fn spec_u32_of_text(text: Seq<char>) -> Result<u32, Malformed> {
    match parse_unsigned_dec(text, 0xffff_ffff) {
        Some(v) => Ok(v as u32),
        None => Err(Malformed::Fault),
    }
}

/// What a signed decimal text denotes, as a result.
pub open spec fn spec_i32_of_text(text: Seq<char>) -> Result<i32, Malformed> {
    match parse_signed_dec(text) {
        Some(v) => Ok(v as i32),
        None => Err(Malformed::Fault),
    }
}

/// What a hexadecimal text denotes, as a result.
pub open spec fn spec_u32_of_hex(text: Seq<char>) -> Result<u32, Malformed> {
    match parse_unsigned_hex(text) {
        Some(v) => Ok(v as u32),
        None => Err(Malformed::Fault),
    }
}

/// An optional text member: absent where the member is missing or null, a
/// fault where it is no text.
pub open spec fn spec_text_field(members: Members, key: Seq<char>) -> Result<
    Option<String>,
    Malformed,
> {
    match spec_present(members, key) {
        None => Ok(None),
        Some(Json::Text(t)) => Ok(Some(t)),
        Some(_) => Err(Malformed::Fault),
    }
}

/// A text member that must be there.
pub open spec fn spec_required_text(members: Members, key: Seq<char>) -> Result<String, Malformed> {
    match spec_member(members, key) {
        Some(Json::Text(t)) => Ok(t),
        _ => Err(Malformed::Fault),
    }
}

/// An optional member that is a 32-bit signed number.
pub open spec fn spec_i32_field(members: Members, key: Seq<char>) -> Result<Option<i32>, Malformed> {
    match spec_present(members, key) {
        None => Ok(None),
        Some(Json::Number(n)) => match spec_as_i32(n) {
            Ok(v) => Ok(Some(v)),
            Err(e) => Err(e),
        },
        Some(_) => Err(Malformed::Fault),
    }
}

/// A member that is a 32-bit signed number and must be there.
pub open spec fn spec_required_i32(members: Members, key: Seq<char>) -> Result<i32, Malformed> {
    match spec_member(members, key) {
        Some(Json::Number(n)) => spec_as_i32(n),
        _ => Err(Malformed::Fault),
    }
}

/// An optional member that is a 32-bit unsigned number.
pub open spec fn spec_u32_field(members: Members, key: Seq<char>) -> Result<Option<u32>, Malformed> {
    match spec_present(members, key) {
        None => Ok(None),
        Some(Json::Number(n)) => match spec_as_u32(n) {
            Ok(v) => Ok(Some(v)),
            Err(e) => Err(e),
        },
        Some(_) => Err(Malformed::Fault),
    }
}

/// A member that is a 32-bit unsigned number and must be there.
pub open spec fn spec_required_u32(members: Members, key: Seq<char>) -> Result<u32, Malformed> {
    match spec_member(members, key) {
        Some(Json::Number(n)) => spec_as_u32(n),
        _ => Err(Malformed::Fault),
    }
}

/// An optional member that is a flag.
pub open spec fn spec_bool_field(members: Members, key: Seq<char>) -> Result<
    Option<bool>,
    Malformed,
> {
    match spec_present(members, key) {
        None => Ok(None),
        Some(Json::Bool(b)) => Ok(Some(b)),
        Some(_) => Err(Malformed::Fault),
    }
}

/// An optional member that is a number, as the bits of the nearest
/// single-precision number.
pub open spec fn spec_single_field(members: Members, key: Seq<char>) -> Result<
    Option<u32>,
    Malformed,
> {
    match spec_present(members, key) {
        None => Ok(None),
        Some(Json::Number(n)) => Ok(Some(n.single)),
        Some(_) => Err(Malformed::Fault),
    }
}

/// A member that is a number and must be there, as the bits of the nearest
/// single-precision number.
pub open spec fn spec_required_single(members: Members, key: Seq<char>) -> Result<u32, Malformed> {
    match spec_member(members, key) {
        Some(Json::Number(n)) => Ok(n.single),
        _ => Err(Malformed::Fault),
    }
}

/// An optional unsigned number that travels as decimal text.
pub open spec fn spec_u32_text_field(members: Members, key: Seq<char>) -> Result<
    Option<u32>,
    Malformed,
> {
    match spec_present(members, key) {
        None => Ok(None),
        Some(Json::Text(t)) => match spec_u32_of_text(t@) {
            Ok(v) => Ok(Some(v)),
            Err(e) => Err(e),
        },
        Some(_) => Err(Malformed::Fault),
    }
}

/// An unsigned number that travels as decimal text and must be there.
pub open spec fn spec_required_u32_text(members: Members, key: Seq<char>) -> Result<u32, Malformed> {
    match spec_member(members, key) {
        Some(Json::Text(t)) => spec_u32_of_text(t@),
        _ => Err(Malformed::Fault),
    }
}

/// An optional signed number that travels as decimal text.
pub open spec fn spec_i32_text_field(members: Members, key: Seq<char>) -> Result<
    Option<i32>,
    Malformed,
> {
    match spec_present(members, key) {
        None => Ok(None),
        Some(Json::Text(t)) => match spec_i32_of_text(t@) {
            Ok(v) => Ok(Some(v)),
            Err(e) => Err(e),
        },
        Some(_) => Err(Malformed::Fault),
    }
}

/// An optional unsigned number that travels as hexadecimal text.
pub open spec fn spec_u32_hex_field(members: Members, key: Seq<char>) -> Result<
    Option<u32>,
    Malformed,
> {
    match spec_present(members, key) {
        None => Ok(None),
        Some(Json::Text(t)) => match spec_u32_of_hex(t@) {
            Ok(v) => Ok(Some(v)),
            Err(e) => Err(e),
        },
        Some(_) => Err(Malformed::Fault),
    }
}

/// An optional phase of the print job: the phase that the word names.
pub open spec fn spec_phase_field(members: Members, key: Seq<char>) -> Result<
    Option<GcodeState>,
    Malformed,
> {
    match spec_present(members, key) {
        None => Ok(None),
        Some(Json::Text(t)) => Ok(Some(GcodeState::spec_from_name(t@))),
        Some(_) => Err(Malformed::Fault),
    }
}

/// The first member named `key`, if there is one.
pub fn member<'a>(members: &'a Vec<(String, Json)>, key: &str) -> (found: Option<&'a Json>)
    ensures
        found.is_some() == spec_member(members@, key@).is_some(),
        found matches Some(v) ==> spec_member(members@, key@) == Some(*v),
{
    let name = key.to_owned();
    let mut i: usize = 0;
    assert(members@.subrange(0, members@.len() as int) =~= members@);
    while i < members.len()
        invariant
            i <= members@.len(),
            name@ == key@,
            spec_member(members@, key@) == spec_member(
                members@.subrange(i as int, members@.len() as int),
                key@,
            ),
        decreases members@.len() - i,
    {
        let ghost rest = members@.subrange(i as int, members@.len() as int);
        assert(rest[0] == members@[i as int]);
        if members[i].0 == name {
            return Some(&members[i].1);
        }
        assert(rest.drop_first() =~= members@.subrange(i + 1, members@.len() as int));
        i = i + 1;
    }
    None
}

/// The member named `key` where it is there and not null.
pub fn present<'a>(members: &'a Vec<(String, Json)>, key: &str) -> (found: Option<&'a Json>)
    ensures
        found.is_some() == spec_present(members@, key@).is_some(),
        found matches Some(v) ==> spec_present(members@, key@) == Some(*v),
{
    match member(members, key) {
        Some(Json::Null) => None,
        other => other,
    }
}

fn as_i32(number: &JsonNumber) -> (value: Result<i32, Malformed>)
    ensures
        value == spec_as_i32(*number),
{
    match number.kind {
        NumberKind::PosInt(u) => if u <= 0x7fff_ffff {
            Ok(u as i32)
        } else {
            Err(Malformed::Fault)
        },
        NumberKind::NegInt(i) => if -0x8000_0000 <= i && i <= 0x7fff_ffff {
            Ok(i as i32)
        } else {
            Err(Malformed::Fault)
        },
        NumberKind::Float => Err(Malformed::Fault),
    }
}

fn as_u32(number: &JsonNumber) -> (value: Result<u32, Malformed>)
    ensures
        value == spec_as_u32(*number),
{
    match number.kind {
        NumberKind::PosInt(u) => if u <= 0xffff_ffff {
            Ok(u as u32)
        } else {
            Err(Malformed::Fault)
        },
        NumberKind::NegInt(i) => if 0 <= i && i <= 0xffff_ffff {
            Ok(i as u32)
        } else {
            Err(Malformed::Fault)
        },
        NumberKind::Float => Err(Malformed::Fault),
    }
}

fn u32_of_text(text: &String) -> (value: Result<u32, Malformed>)
    ensures
        value == spec_u32_of_text(text@),
{
    match parse_u32_decimal(text.as_str()) {
        Some(v) => Ok(v),
        None => Err(Malformed::Fault),
    }
}

fn i32_of_text(text: &String) -> (value: Result<i32, Malformed>)
    ensures
        value == spec_i32_of_text(text@),
{
    match parse_i32_decimal(text.as_str()) {
        Some(v) => Ok(v),
        None => Err(Malformed::Fault),
    }
}

fn u32_of_hex(text: &String) -> (value: Result<u32, Malformed>)
    ensures
        value == spec_u32_of_hex(text@),
{
    match parse_u32_hex(text.as_str()) {
        Some(v) => Ok(v),
        None => Err(Malformed::Fault),
    }
}

/// Reads an optional text member.
pub fn text_field(members: &Vec<(String, Json)>, key: &str) -> (value: Result<
    Option<String>,
    Malformed,
>)
    ensures
        value == spec_text_field(members@, key@),
{
    match present(members, key) {
        None => Ok(None),
        Some(Json::Text(t)) => Ok(Some(t.clone())),
        Some(_) => Err(Malformed::Fault),
    }
}

/// Reads a text member that must be there.
pub fn required_text(members: &Vec<(String, Json)>, key: &str) -> (value: Result<String, Malformed>)
    ensures
        value == spec_required_text(members@, key@),
{
    match member(members, key) {
        Some(Json::Text(t)) => Ok(t.clone()),
        _ => Err(Malformed::Fault),
    }
}

/// Reads an optional member that is a 32-bit signed number.
pub fn i32_field(members: &Vec<(String, Json)>, key: &str) -> (value: Result<
    Option<i32>,
    Malformed,
>)
    ensures
        value == spec_i32_field(members@, key@),
{
    match present(members, key) {
        None => Ok(None),
        Some(Json::Number(n)) => match as_i32(n) {
            Ok(v) => Ok(Some(v)),
            Err(e) => Err(e),
        },
        Some(_) => Err(Malformed::Fault),
    }
}

/// Reads a member that is a 32-bit signed number and must be there.
pub fn required_i32(members: &Vec<(String, Json)>, key: &str) -> (value: Result<i32, Malformed>)
    ensures
        value == spec_required_i32(members@, key@),
{
    match member(members, key) {
        Some(Json::Number(n)) => as_i32(n),
        _ => Err(Malformed::Fault),
    }
}

/// Reads an optional member that is a 32-bit unsigned number.
pub fn u32_field(members: &Vec<(String, Json)>, key: &str) -> (value: Result<
    Option<u32>,
    Malformed,
>)
    ensures
        value == spec_u32_field(members@, key@),
{
    match present(members, key) {
        None => Ok(None),
        Some(Json::Number(n)) => match as_u32(n) {
            Ok(v) => Ok(Some(v)),
            Err(e) => Err(e),
        },
        Some(_) => Err(Malformed::Fault),
    }
}

/// Reads a member that is a 32-bit unsigned number and must be there.
pub fn required_u32(members: &Vec<(String, Json)>, key: &str) -> (value: Result<u32, Malformed>)
    ensures
        value == spec_required_u32(members@, key@),
{
    match member(members, key) {
        Some(Json::Number(n)) => as_u32(n),
        _ => Err(Malformed::Fault),
    }
}

/// Reads an optional member that is a flag.
pub fn bool_field(members: &Vec<(String, Json)>, key: &str) -> (value: Result<
    Option<bool>,
    Malformed,
>)
    ensures
        value == spec_bool_field(members@, key@),
{
    match present(members, key) {
        None => Ok(None),
        Some(Json::Bool(b)) => Ok(Some(*b)),
        Some(_) => Err(Malformed::Fault),
    }
}

/// Reads an optional member that is a number, as single-precision bits.
pub fn single_field(members: &Vec<(String, Json)>, key: &str) -> (value: Result<
    Option<u32>,
    Malformed,
>)
    ensures
        value == spec_single_field(members@, key@),
{
    match present(members, key) {
        None => Ok(None),
        Some(Json::Number(n)) => Ok(Some(n.single)),
        Some(_) => Err(Malformed::Fault),
    }
}

/// Reads a member that is a number and must be there, as single-precision
/// bits.
pub fn required_single(members: &Vec<(String, Json)>, key: &str) -> (value: Result<u32, Malformed>)
    ensures
        value == spec_required_single(members@, key@),
{
    match member(members, key) {
        Some(Json::Number(n)) => Ok(n.single),
        _ => Err(Malformed::Fault),
    }
}

/// Reads an optional unsigned number that travels as decimal text.
pub fn u32_text_field(members: &Vec<(String, Json)>, key: &str) -> (value: Result<
    Option<u32>,
    Malformed,
>)
    ensures
        value == spec_u32_text_field(members@, key@),
{
    match present(members, key) {
        None => Ok(None),
        Some(Json::Text(t)) => match u32_of_text(t) {
            Ok(v) => Ok(Some(v)),
            Err(e) => Err(e),
        },
        Some(_) => Err(Malformed::Fault),
    }
}

/// Reads an unsigned number that travels as decimal text and must be there.
pub fn required_u32_text(members: &Vec<(String, Json)>, key: &str) -> (value: Result<
    u32,
    Malformed,
>)
    ensures
        value == spec_required_u32_text(members@, key@),
{
    match member(members, key) {
        Some(Json::Text(t)) => u32_of_text(t),
        _ => Err(Malformed::Fault),
    }
}

/// Reads an optional signed number that travels as decimal text.
pub fn i32_text_field(members: &Vec<(String, Json)>, key: &str) -> (value: Result<
    Option<i32>,
    Malformed,
>)
    ensures
        value == spec_i32_text_field(members@, key@),
{
    match present(members, key) {
        None => Ok(None),
        Some(Json::Text(t)) => match i32_of_text(t) {
            Ok(v) => Ok(Some(v)),
            Err(e) => Err(e),
        },
        Some(_) => Err(Malformed::Fault),
    }
}

/// Reads an optional unsigned number that travels as hexadecimal text.
pub fn u32_hex_field(members: &Vec<(String, Json)>, key: &str) -> (value: Result<
    Option<u32>,
    Malformed,
>)
    ensures
        value == spec_u32_hex_field(members@, key@),
{
    match present(members, key) {
        None => Ok(None),
        Some(Json::Text(t)) => match u32_of_hex(t) {
            Ok(v) => Ok(Some(v)),
            Err(e) => Err(e),
        },
        Some(_) => Err(Malformed::Fault),
    }
}

/// Reads an optional phase of the print job.
pub fn phase_field(members: &Vec<(String, Json)>, key: &str) -> (value: Result<
    Option<GcodeState>,
    Malformed,
>)
    ensures
        value == spec_phase_field(members@, key@),
{
    match present(members, key) {
        None => Ok(None),
        Some(Json::Text(t)) => Ok(Some(GcodeState::from_name(t.as_str()))),
        Some(_) => Err(Malformed::Fault),
    }
}

/// A number that was written as decimal or hexadecimal text is read back
/// as the same number.
pub proof fn lemma_text_numbers_round_trip(unsigned: u32, signed: i32)
    ensures
        spec_u32_of_text(dec_digits(unsigned as nat)) == Ok::<u32, Malformed>(unsigned),
        spec_i32_of_text(signed_dec_digits(signed as int)) == Ok::<i32, Malformed>(signed),
        spec_u32_of_hex(hex_digits(unsigned as nat)) == Ok::<u32, Malformed>(unsigned),
{
    lemma_unsigned_dec_round_trip(unsigned as nat, 0xffff_ffff);
    lemma_signed_dec_round_trip(signed as int);
    lemma_unsigned_hex_round_trip(unsigned as nat);
}

/// A member that is missing and a member that is zero are told apart: the
/// one reads as nothing, the other as the number zero.
pub proof fn lemma_absent_is_not_zero(members: Members, key: Seq<char>, zero: String)
    requires
        zero@ == dec_digits(0),
    ensures
        spec_member(members, key).is_none() ==> spec_u32_text_field(members, key) == Ok::<
            Option<u32>,
            Malformed,
        >(None),
        spec_member(members, key) == Some(Json::Text(zero)) ==> spec_u32_text_field(members, key)
            == Ok::<Option<u32>, Malformed>(Some(0u32)),
{
    lemma_unsigned_dec_round_trip(0, 0xffff_ffff);
}

} // verus!
