//! Property lists for the fixed-schema function drivers.
//!
//! Each of those drivers is configured by writing a handful of key/value
//! property files; the value a given configuration produces for each key
//! is computed here, and the surrounding program performs the writes.

use vstd::prelude::*;

use crate::text::{i16_to_decimal, spec_decimal, spec_decimal_i16, u32_to_decimal, u64_to_decimal};

verus! {

/// One property to write: the file name and the value bytes.
#[derive(Debug, Clone, PartialEq, Eq)]
pub struct Prop {
    /// Property file name.
    pub name: String,
    /// Value bytes.
    pub value: Vec<u8>,
}

/// The ghost mirror of a property list.
pub open spec fn spec_props_view(ps: Seq<Prop>) -> Seq<(Seq<char>, Seq<u8>)> {
    ps.map_values(|p: Prop| (p.name@, p.value@))
}

/// The property pair for a string value.
pub open spec fn spec_prop_str(name: Seq<char>, value: Seq<char>) -> (Seq<char>, Seq<u8>) {
    (name, vstd::utf8::encode_utf8(value))
}

/// The property list extended by an optional 32-bit decimal value.
pub open spec fn spec_with_u32(
    ps: Seq<(Seq<char>, Seq<u8>)>,
    name: Seq<char>,
    value: Option<u32>,
) -> Seq<(Seq<char>, Seq<u8>)> {
    match value {
        Some(v) => ps.push(spec_prop_str(name, spec_decimal(v as int))),
        None => ps,
    }
}

/// The property list extended by an optional 8-bit decimal value.
pub open spec fn spec_with_u8(
    ps: Seq<(Seq<char>, Seq<u8>)>,
    name: Seq<char>,
    value: Option<u8>,
) -> Seq<(Seq<char>, Seq<u8>)> {
    match value {
        Some(v) => ps.push(spec_prop_str(name, spec_decimal(v as int))),
        None => ps,
    }
}

/// The property list extended by an optional 16-bit decimal value.
pub open spec fn spec_with_u16(
    ps: Seq<(Seq<char>, Seq<u8>)>,
    name: Seq<char>,
    value: Option<u16>,
) -> Seq<(Seq<char>, Seq<u8>)> {
    match value {
        Some(v) => ps.push(spec_prop_str(name, spec_decimal(v as int))),
        None => ps,
    }
}

/// The property list extended by an optional signed 16-bit decimal value.
pub open spec fn spec_with_i16(
    ps: Seq<(Seq<char>, Seq<u8>)>,
    name: Seq<char>,
    value: Option<i16>,
) -> Seq<(Seq<char>, Seq<u8>)> {
    match value {
        Some(v) => ps.push(spec_prop_str(name, spec_decimal_i16(v as int))),
        None => ps,
    }
}

/// The property list extended by an optional truth value, written as `1`
/// or `0`.
pub open spec fn spec_with_bool(
    ps: Seq<(Seq<char>, Seq<u8>)>,
    name: Seq<char>,
    value: Option<bool>,
) -> Seq<(Seq<char>, Seq<u8>)> {
    match value {
        Some(v) => ps.push(
            spec_prop_str(
                name,
                if v {
                    spec_decimal(1)
                } else {
                    spec_decimal(0)
                },
            ),
        ),
        None => ps,
    }
}

/// The property list extended by an optional string value.
pub open spec fn spec_with_str(
    ps: Seq<(Seq<char>, Seq<u8>)>,
    name: Seq<char>,
    value: Option<Seq<char>>,
) -> Seq<(Seq<char>, Seq<u8>)> {
    match value {
        Some(v) => ps.push(spec_prop_str(name, v)),
        None => ps,
    }
}

/// Appends a property with a string value.
pub fn push_prop_str(ps: &mut Vec<Prop>, name: &str, value: &str)
    ensures
        spec_props_view(final(ps)@) == spec_props_view(old(ps)@).push(
            spec_prop_str(name@, value@),
        ),
{
    let ghost pre = ps@;
    ps.push(Prop { name: name.to_owned(), value: value.as_bytes_vec() });
    proof {
        assert(spec_props_view(ps@) =~= spec_props_view(pre).push(spec_prop_str(name@, value@)));
    }
}

/// Appends a property with a decimal value, when the value is set.
pub fn push_prop_u32(ps: &mut Vec<Prop>, name: &str, value: Option<u32>)
    ensures
        spec_props_view(final(ps)@) == spec_with_u32(spec_props_view(old(ps)@), name@, value),
{
    if let Some(v) = value {
        push_prop_str(ps, name, u32_to_decimal(v).as_str());
    }
}

/// Appends a property with a decimal value, when the value is set.
pub fn push_prop_u8(ps: &mut Vec<Prop>, name: &str, value: Option<u8>)
    ensures
        spec_props_view(final(ps)@) == spec_with_u8(spec_props_view(old(ps)@), name@, value),
{
    if let Some(v) = value {
        push_prop_str(ps, name, u64_to_decimal(v as u64).as_str());
    }
}

/// Appends a property with a decimal value, when the value is set.
pub fn push_prop_u16(ps: &mut Vec<Prop>, name: &str, value: Option<u16>)
    ensures
        spec_props_view(final(ps)@) == spec_with_u16(spec_props_view(old(ps)@), name@, value),
{
    if let Some(v) = value {
        push_prop_str(ps, name, u64_to_decimal(v as u64).as_str());
    }
}

/// Appends a property with a signed decimal value, when the value is set.
pub fn push_prop_i16(ps: &mut Vec<Prop>, name: &str, value: Option<i16>)
    ensures
        spec_props_view(final(ps)@) == spec_with_i16(spec_props_view(old(ps)@), name@, value),
{
    if let Some(v) = value {
        push_prop_str(ps, name, i16_to_decimal(v).as_str());
    }
}

/// Appends a property with a `1` or `0` value, when the value is set.
pub fn push_prop_bool(ps: &mut Vec<Prop>, name: &str, value: Option<bool>)
    ensures
        spec_props_view(final(ps)@) == spec_with_bool(spec_props_view(old(ps)@), name@, value),
{
    if let Some(v) = value {
        let text = if v {
            u64_to_decimal(1)
        } else {
            u64_to_decimal(0)
        };
        push_prop_str(ps, name, text.as_str());
    }
}

/// Appends a property with a string value, when the value is set.
pub fn push_prop_string(ps: &mut Vec<Prop>, name: &str, value: &Option<String>)
    ensures
        spec_props_view(final(ps)@) == spec_with_str(
            spec_props_view(old(ps)@),
            name@,
            match value {
                Some(v) => Some(v@),
                None => None,
            },
        ),
{
    match value {
        Some(v) => {
            push_prop_str(ps, name, v.as_str());
        },
        None => {},
    }
}

} // verus!
