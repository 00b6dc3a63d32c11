//! The primitive bit-width cast table.
//!
//! Every pair of a type name and its canonical decomposition, for the
//! one-bit boolean type and the power-of-two unsigned integer widths up
//! to 256 bits; each cast is listed in both directions.  The table is
//! fixed and its order is the declaration order below.

use vstd::prelude::*;
use vstd::string::StringExecFns;

use crate::chars::str_eq;

verus! {

/// The cast table as pairs of views: target type first, source
/// decomposition second.
pub open spec fn spec_cast_pairs() -> Seq<(Seq<char>, Seq<char>)> {
    seq![
        ("u1"@, "bool"@),
        ("u2"@, "(u1, u1)"@),
        ("u4"@, "(u2, u2)"@),
        ("u8"@, "(u4, u4)"@),
        ("u16"@, "(u8, u8)"@),
        ("u32"@, "(u16, u16)"@),
        ("u64"@, "(u32, u32)"@),
        ("u128"@, "(u64, u64)"@),
        ("u256"@, "(u128, u128)"@),
        ("bool"@, "u1"@),
        ("(u1, u1)"@, "u2"@),
        ("(u2, u2)"@, "u4"@),
        ("(u4, u4)"@, "u8"@),
        ("(u8, u8)"@, "u16"@),
        ("(u16, u16)"@, "u32"@),
        ("(u32, u32)"@, "u64"@),
        ("(u64, u64)"@, "u128"@),
        ("(u128, u128)"@, "u256"@),
    ]
}

/// The decomposition that the table assigns to a type name.
pub open spec fn spec_cast_of(t: Seq<char>) -> Option<Seq<char>> {
    if t == "u1"@ {
        Some("bool"@)
    } else if t == "u2"@ {
        Some("(u1, u1)"@)
    } else if t == "u4"@ {
        Some("(u2, u2)"@)
    } else if t == "u8"@ {
        Some("(u4, u4)"@)
    } else if t == "u16"@ {
        Some("(u8, u8)"@)
    } else if t == "u32"@ {
        Some("(u16, u16)"@)
    } else if t == "u64"@ {
        Some("(u32, u32)"@)
    } else if t == "u128"@ {
        Some("(u64, u64)"@)
    } else if t == "u256"@ {
        Some("(u128, u128)"@)
    } else if t == "bool"@ {
        Some("u1"@)
    } else if t == "(u1, u1)"@ {
        Some("u2"@)
    } else if t == "(u2, u2)"@ {
        Some("u4"@)
    } else if t == "(u4, u4)"@ {
        Some("u8"@)
    } else if t == "(u8, u8)"@ {
        Some("u16"@)
    } else if t == "(u16, u16)"@ {
        Some("u32"@)
    } else if t == "(u32, u32)"@ {
        Some("u64"@)
    } else if t == "(u64, u64)"@ {
        Some("u128"@)
    } else if t == "(u128, u128)"@ {
        Some("u256"@)
    } else {
        None
    }
}

/// The cast table as owned strings, in declaration order.
pub fn cast_pairs() -> (r: Vec<(String, String)>)
    ensures
        r@.len() == spec_cast_pairs().len(),
        forall|i: int|
            0 <= i < r@.len() ==> (#[trigger] r@[i].0)@ == spec_cast_pairs()[i].0 && r@[i].1@
                == spec_cast_pairs()[i].1,
{
    let mut r: Vec<(String, String)> = Vec::new();
    r.push((String::from_str("u1"), String::from_str("bool")));
    r.push((String::from_str("u2"), String::from_str("(u1, u1)")));
    r.push((String::from_str("u4"), String::from_str("(u2, u2)")));
    r.push((String::from_str("u8"), String::from_str("(u4, u4)")));
    r.push((String::from_str("u16"), String::from_str("(u8, u8)")));
    r.push((String::from_str("u32"), String::from_str("(u16, u16)")));
    r.push((String::from_str("u64"), String::from_str("(u32, u32)")));
    r.push((String::from_str("u128"), String::from_str("(u64, u64)")));
    r.push((String::from_str("u256"), String::from_str("(u128, u128)")));
    r.push((String::from_str("bool"), String::from_str("u1")));
    r.push((String::from_str("(u1, u1)"), String::from_str("u2")));
    r.push((String::from_str("(u2, u2)"), String::from_str("u4")));
    r.push((String::from_str("(u4, u4)"), String::from_str("u8")));
    r.push((String::from_str("(u8, u8)"), String::from_str("u16")));
    r.push((String::from_str("(u16, u16)"), String::from_str("u32")));
    r.push((String::from_str("(u32, u32)"), String::from_str("u64")));
    r.push((String::from_str("(u64, u64)"), String::from_str("u128")));
    r.push((String::from_str("(u128, u128)"), String::from_str("u256")));
    r
}

/// The decomposition the table assigns to `ty`, if any.
pub fn cast_lookup(ty: &str) -> (r: Option<String>)
    ensures
        match r {
            Some(s) => spec_cast_of(ty@) == Some(s@),
            None => spec_cast_of(ty@) is None,
        },
{
    if str_eq(ty, "u1") {
        Some(String::from_str("bool"))
    } else if str_eq(ty, "u2") {
        Some(String::from_str("(u1, u1)"))
    } else if str_eq(ty, "u4") {
        Some(String::from_str("(u2, u2)"))
    } else if str_eq(ty, "u8") {
        Some(String::from_str("(u4, u4)"))
    } else if str_eq(ty, "u16") {
        Some(String::from_str("(u8, u8)"))
    } else if str_eq(ty, "u32") {
        Some(String::from_str("(u16, u16)"))
    } else if str_eq(ty, "u64") {
        Some(String::from_str("(u32, u32)"))
    } else if str_eq(ty, "u128") {
        Some(String::from_str("(u64, u64)"))
    } else if str_eq(ty, "u256") {
        Some(String::from_str("(u128, u128)"))
    } else if str_eq(ty, "bool") {
        Some(String::from_str("u1"))
    } else if str_eq(ty, "(u1, u1)") {
        Some(String::from_str("u2"))
    } else if str_eq(ty, "(u2, u2)") {
        Some(String::from_str("u4"))
    } else if str_eq(ty, "(u4, u4)") {
        Some(String::from_str("u8"))
    } else if str_eq(ty, "(u8, u8)") {
        Some(String::from_str("u16"))
    } else if str_eq(ty, "(u16, u16)") {
        Some(String::from_str("u32"))
    } else if str_eq(ty, "(u32, u32)") {
        Some(String::from_str("u64"))
    } else if str_eq(ty, "(u64, u64)") {
        Some(String::from_str("u128"))
    } else if str_eq(ty, "(u128, u128)") {
        Some(String::from_str("u256"))
    } else {
        None
    }
}

} // verus!
