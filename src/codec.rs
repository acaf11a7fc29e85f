use vstd::prelude::*;
use crate::id::{bson_id, oid_marker, result_view, text_id, BsonValue, DecodeError, IdView, ID};
use crate::object_id::hex_of;

verus! {

/// What a generic structured decoder hands over: a nested map, already read as a
/// binary-format value, a string, a signed or an unsigned integer.
#[derive(Clone, Debug, PartialEq, Eq)]
pub enum StructuredInput {
    Nested(BsonValue),
    Str(String),
    Signed(i64),
    Unsigned(u64),
}

/// The extended-JSON form of an identifier: an object identifier becomes the single-entry
/// map `{"$oid": <hex>}`, held here by its hexadecimal text; text and integers stand bare.
#[derive(Clone, Debug, PartialEq, Eq)]
pub enum StructuredOutput {
    ObjectIdMap(String),
    Str(String),
    I64(i64),
}

/// A value of the query language's scalar protocol: a plain string or a 32-bit integer.
#[derive(Clone, Debug, PartialEq, Eq)]
pub enum ScalarValue {
    Str(String),
    Int(i32),
}

/// A token of the query language's scalar protocol; `Other` names a token of another kind.
#[derive(Clone, Debug, PartialEq, Eq)]
pub enum ScalarInput {
    Str(String),
    Int(i32),
    Other(String),
}

/// A scalar token that cannot stand for an identifier.
#[derive(Clone, Debug, PartialEq, Eq)]
pub enum ScalarError {
    UnexpectedToken(String),
}

/// What structured input decodes to. An unsigned integer above the signed 64-bit range is
/// rejected rather than wrapped.
pub open spec fn decoded(input: StructuredInput) -> Result<IdView, DecodeError> {
    match input {
        StructuredInput::Nested(v) => bson_id(v),
        StructuredInput::Str(s) => Ok(text_id(s@)),
        StructuredInput::Signed(i) => Ok(IdView::I64(i)),
        StructuredInput::Unsigned(u) => if u <= i64::MAX {
            Ok(IdView::I64(u as i64))
        } else {
            Err(DecodeError::IntegerOverflow(u))
        },
    }
}

/// `out` is the extended-JSON form of `v`.
pub open spec fn is_structured_form(v: IdView, out: StructuredOutput) -> bool {
    match (v, out) {
        (IdView::ObjectId(b), StructuredOutput::ObjectIdMap(h)) => h@ == hex_of(b),
        (IdView::String(s), StructuredOutput::Str(t)) => t@ == s,
        (IdView::I64(i), StructuredOutput::I64(j)) => i == j,
        _ => false,
    }
}

/// A 64-bit integer brought into the 32-bit range by clamping to its nearest end.
pub open spec fn saturate_i32(i: i64) -> i32 {
    if i > i32::MAX {
        i32::MAX
    } else if i < i32::MIN {
        i32::MIN
    } else {
        i as i32
    }
}

/// `out` is the scalar-protocol form of `v`: an object identifier as the marker followed
/// by its hexadecimal text, text as it is, an integer clamped to 32 bits.
pub open spec fn is_scalar_form(v: IdView, out: ScalarValue) -> bool {
    match (v, out) {
        (IdView::ObjectId(b), ScalarValue::Str(t)) => t@ == oid_marker() + hex_of(b),
        (IdView::String(s), ScalarValue::Str(t)) => t@ == s,
        (IdView::I64(i), ScalarValue::Int(n)) => n == saturate_i32(i),
        _ => false,
    }
}

/// What a scalar-protocol token decodes to.
pub open spec fn scalar_decoded(input: ScalarInput) -> Result<IdView, ScalarError> {
    match input {
        ScalarInput::Str(s) => Ok(text_id(s@)),
        ScalarInput::Int(n) => Ok(IdView::I64(n as i64)),
        ScalarInput::Other(k) => Err(ScalarError::UnexpectedToken(k)),
    }
}

impl ID {
    /// Decodes structured input; text goes through the `$oid:` marker rule.
    pub fn decode(input: StructuredInput) -> (r: Result<ID, DecodeError>)
        ensures
            result_view(r) == decoded(input),
    {
        match input {
            StructuredInput::Nested(v) => ID::with_bson(&v),
            StructuredInput::Str(s) => Ok(ID::decode_text(s)),
            StructuredInput::Signed(i) => Ok(ID::I64(i)),
            StructuredInput::Unsigned(u) => if u <= i64::MAX as u64 {
                Ok(ID::I64(u as i64))
            } else {
                Err(DecodeError::IntegerOverflow(u))
            },
        }
    }

    /// The extended-JSON form.
    pub fn encode(&self) -> (r: StructuredOutput)
        ensures
            is_structured_form(self@, r),
    {
        match self {
            ID::ObjectId(o) => StructuredOutput::ObjectIdMap(o.to_hex()),
            ID::String(s) => StructuredOutput::Str(s.clone()),
            ID::I64(i) => StructuredOutput::I64(*i),
        }
    }

    /// The scalar-protocol form.
    pub fn to_scalar(&self) -> (r: ScalarValue)
        ensures
            is_scalar_form(self@, r),
    {
        match self {
            ID::ObjectId(o) => {
                let mut t = "$oid:".to_owned();
                proof {
                    reveal_strlit("$oid:");
                }
                let hex = o.to_hex();
                t.append(hex.as_str());
                assert(t@ =~= oid_marker() + hex_of(o@));
                ScalarValue::Str(t)
            },
            ID::String(s) => ScalarValue::Str(s.clone()),
            ID::I64(i) => {
                let n: i32 = if *i > i32::MAX as i64 {
                    i32::MAX
                } else if *i < i32::MIN as i64 {
                    i32::MIN
                } else {
                    *i as i32
                };
                ScalarValue::Int(n)
            },
        }
    }

    /// Decodes a scalar-protocol token; a string goes through the `$oid:` marker rule.
    pub fn from_scalar(input: ScalarInput) -> (r: Result<ID, ScalarError>)
        ensures
            result_view(r) == scalar_decoded(input),
    {
        match input {
            ScalarInput::Str(s) => Ok(ID::decode_text(s)),
            ScalarInput::Int(n) => Ok(ID::I64(n as i64)),
            ScalarInput::Other(k) => Err(ScalarError::UnexpectedToken(k)),
        }
    }
}

} // verus!
