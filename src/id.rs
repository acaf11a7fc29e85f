use vstd::prelude::*;
use crate::decimal::{decimal_of, decimal_string, lemma_decimal_i64_len};
use crate::object_id::{bytes_of_hex, hex_of, is_oid_hex, InvalidObjectId, ObjectId};

verus! {

/// The mathematical value of an identifier.
pub enum IdView {
    ObjectId(Seq<u8>),
    String(Seq<char>),
    I64(i64),
}

/// A record identifier: a binary object identifier, opaque text, or a signed 64-bit integer.
#[derive(Clone, Debug, Eq, Hash)]
pub enum ID {
    ObjectId(ObjectId),
    String(String),
    I64(i64),
}

impl View for ID {
    type V = IdView;

    open spec fn view(&self) -> IdView {
        match self {
            ID::ObjectId(o) => IdView::ObjectId(o@),
            ID::String(s) => IdView::String(s@),
            ID::I64(i) => IdView::I64(*i),
        }
    }
}

/// The identifier view of a result, with the error kept as it is.
pub open spec fn result_view<E>(r: Result<ID, E>) -> Result<IdView, E> {
    match r {
        Ok(id) => Ok(id@),
        Err(e) => Err(e),
    }
}

fn same_bytes(a: &[u8; 12], b: &[u8; 12]) -> (r: bool)
    ensures
        r == (a@ == b@),
{
    let mut i: usize = 0;
    while i < 12
        invariant
            0 <= i <= 12,
            forall|j: int| 0 <= j < i ==> a@[j] == b@[j],
        decreases 12 - i,
    {
        if a[i] != b[i] {
            return false;
        }
        i = i + 1;
    }
    assert(a@ =~= b@);
    true
}

impl PartialEq for ID {
    fn eq(&self, other: &ID) -> (r: bool) {
        match (self, other) {
            (ID::ObjectId(a), ID::ObjectId(b)) => same_bytes(&a.bytes, &b.bytes),
            (ID::String(a), ID::String(b)) => a.eq(b),
            (ID::I64(a), ID::I64(b)) => *a == *b,
            _ => false,
        }
    }
}

impl vstd::std_specs::cmp::PartialEqSpecImpl for ID {
    open spec fn obeys_eq_spec() -> bool {
        true
    }

    open spec fn eq_spec(&self, other: &ID) -> bool {
        self@ == other@
    }
}

/// The canonical text of an identifier: 24 lowercase hexadecimal digits, the text itself,
/// or the decimal spelling.
pub open spec fn canonical_text(v: IdView) -> Seq<char> {
    match v {
        IdView::ObjectId(b) => hex_of(b),
        IdView::String(s) => s,
        IdView::I64(i) => decimal_of(i as int),
    }
}

/// The object identifier that an identifier converts to, if any.
pub open spec fn object_id_of(v: IdView) -> Option<Seq<u8>> {
    match v {
        IdView::ObjectId(b) => Some(b),
        IdView::String(s) => if is_oid_hex(s) {
            Some(bytes_of_hex(s))
        } else {
            None
        },
        IdView::I64(i) => if is_oid_hex(decimal_of(i as int)) {
            Some(bytes_of_hex(decimal_of(i as int)))
        } else {
            None
        },
    }
}

impl ID {
    /// An identifier holding the given text as it is.
    pub fn from_string(value: String) -> (r: ID)
        ensures
            r@ == IdView::String(value@),
    {
        ID::String(value)
    }

    /// An identifier holding the given text as it is.
    pub fn with_string(value: String) -> (r: ID)
        ensures
            r@ == IdView::String(value@),
    {
        ID::String(value)
    }

    /// An integer identifier.
    pub fn with_i64(value: i64) -> (r: ID)
        ensures
            r@ == IdView::I64(value),
    {
        ID::I64(value)
    }

    /// An object-identifier identifier.
    pub fn with_oid(value: ObjectId) -> (r: ID)
        ensures
            r@ == IdView::ObjectId(value@),
    {
        ID::ObjectId(value)
    }

    /// Reads text that must spell an object identifier; other text is an error.
    pub fn with_string_to_oid(value: &str) -> (r: Result<ID, InvalidObjectId>)
        ensures
            r is Ok <==> is_oid_hex(value@),
            r is Ok ==> r->Ok_0@ == IdView::ObjectId(bytes_of_hex(value@)),
            r is Err ==> r->Err_0.input@ == value@,
    {
        match ObjectId::parse_str(value) {
            Ok(o) => Ok(ID::ObjectId(o)),
            Err(e) => Err(e),
        }
    }

    /// The canonical text: no marker before an object identifier.
    pub fn to_string(&self) -> (r: String)
        ensures
            r@ == canonical_text(self@),
    {
        match self {
            ID::ObjectId(o) => o.to_hex(),
            ID::String(s) => s.clone(),
            ID::I64(i) => decimal_string(*i),
        }
    }

    /// Converts to an object identifier; text and integers must spell one.
    pub fn to_object_id(&self) -> (r: Result<ObjectId, InvalidObjectId>)
        ensures
            r is Ok <==> object_id_of(self@) is Some,
            r is Ok ==> r->Ok_0@ == object_id_of(self@)->Some_0,
            r is Err ==> r->Err_0.input@ == canonical_text(self@),
            self is I64 ==> r is Err,
    {
        match self {
            ID::ObjectId(o) => Ok(*o),
            ID::String(s) => ObjectId::parse_str(s.as_str()),
            ID::I64(i) => {
                let text = decimal_string(*i);
                proof {
                    lemma_decimal_i64_len(*i);
                }
                ObjectId::parse_str(text.as_str())
            },
        }
    }
}

/// A value of the document store's binary format, as far as identifiers are concerned:
/// an object identifier, a string, a 64-bit integer, or a value of another element type,
/// kept as its one-byte type code.
#[derive(Clone, Debug, PartialEq, Eq)]
pub enum BsonValue {
    ObjectId(ObjectId),
    String(String),
    Int64(i64),
    Other(u8),
}

/// Why a value could not be read as an identifier.
#[derive(Clone, Copy, Debug, PartialEq, Eq, Hash)]
pub enum DecodeError {
    /// A binary-format value of an element type that holds no identifier.
    UnsupportedBsonType(u8),
    /// An unsigned integer above the largest signed 64-bit integer.
    IntegerOverflow(u64),
}

/// The identifier held by a binary-format value, or the error for its element type.
pub open spec fn bson_id(v: BsonValue) -> Result<IdView, DecodeError> {
    match v {
        BsonValue::ObjectId(o) => Ok(IdView::ObjectId(o@)),
        BsonValue::String(s) => Ok(IdView::String(s@)),
        BsonValue::Int64(i) => Ok(IdView::I64(i)),
        BsonValue::Other(t) => Err(DecodeError::UnsupportedBsonType(t)),
    }
}

/// The marker `$oid:` that, before text, says the rest spells an object identifier.
pub open spec fn oid_marker() -> Seq<char> {
    seq!['$', 'o', 'i', 'd', ':']
}

pub open spec fn has_oid_marker(s: Seq<char>) -> bool {
    s.len() >= 5 && s.subrange(0, 5) == oid_marker()
}

/// The identifier that text stands for: an object identifier where the marker is followed
/// by its spelling, else the text itself, marker and all.
pub open spec fn text_id(s: Seq<char>) -> IdView {
    if has_oid_marker(s) && is_oid_hex(s.subrange(5, s.len() as int)) {
        IdView::ObjectId(bytes_of_hex(s.subrange(5, s.len() as int)))
    } else {
        IdView::String(s)
    }
}

fn starts_with_marker(v: &str) -> (r: bool)
    ensures
        r == has_oid_marker(v@),
{
    let n = v.unicode_len();
    let r = n >= 5 && v.get_char(0) == '$' && v.get_char(1) == 'o' && v.get_char(2) == 'i'
        && v.get_char(3) == 'd' && v.get_char(4) == ':';
    if r {
        assert(v@.subrange(0, 5) =~= oid_marker());
    } else if n >= 5 {
        assert(v@.subrange(0, 5) != oid_marker()) by {
            if v@.subrange(0, 5) == oid_marker() {
                assert(v@.subrange(0, 5)[0] == '$');
                assert(v@.subrange(0, 5)[1] == 'o');
                assert(v@.subrange(0, 5)[2] == 'i');
                assert(v@.subrange(0, 5)[3] == 'd');
                assert(v@.subrange(0, 5)[4] == ':');
            }
        }
    }
    r
}

impl ID {
    /// Reads a binary-format value; an element type other than object identifier, string
    /// or 64-bit integer is an error.
    pub fn with_bson(value: &BsonValue) -> (r: Result<ID, DecodeError>)
        ensures
            result_view(r) == bson_id(*value),
    {
        match value {
            BsonValue::ObjectId(o) => Ok(ID::ObjectId(*o)),
            BsonValue::String(s) => Ok(ID::String(s.clone())),
            BsonValue::Int64(i) => Ok(ID::I64(*i)),
            BsonValue::Other(t) => Err(DecodeError::UnsupportedBsonType(*t)),
        }
    }

    /// The binary-format value of this identifier.
    pub fn to_bson(&self) -> (r: BsonValue)
        ensures
            bson_id(r) == Ok::<IdView, DecodeError>(self@),
    {
        match self {
            ID::ObjectId(o) => BsonValue::ObjectId(*o),
            ID::String(s) => BsonValue::String(s.clone()),
            ID::I64(i) => BsonValue::Int64(*i),
        }
    }

    /// Reads text that may carry an object identifier behind the marker `$oid:`. Text
    /// without the marker, or whose rest does not spell an object identifier, stays text.
    pub fn decode_text(v: String) -> (r: ID)
        ensures
            r@ == text_id(v@),
    {
        if starts_with_marker(v.as_str()) {
            let parsed = {
                let s = v.as_str();
                let rest = s.substring_char(5, s.unicode_len());
                ObjectId::parse_str(rest)
            };
            match parsed {
                Ok(o) => ID::ObjectId(o),
                Err(_) => ID::String(v),
            }
        } else {
            ID::String(v)
        }
    }
}

impl From<String> for ID {
    fn from(s: String) -> ID {
        ID::String(s)
    }
}

impl vstd::std_specs::convert::FromSpecImpl<String> for ID {
    open spec fn obeys_from_spec() -> bool {
        true
    }

    open spec fn from_spec(s: String) -> ID {
        ID::String(s)
    }
}

impl From<i64> for ID {
    fn from(i: i64) -> ID {
        ID::I64(i)
    }
}

impl vstd::std_specs::convert::FromSpecImpl<i64> for ID {
    open spec fn obeys_from_spec() -> bool {
        true
    }

    open spec fn from_spec(i: i64) -> ID {
        ID::I64(i)
    }
}

impl From<ObjectId> for ID {
    fn from(o: ObjectId) -> ID {
        ID::ObjectId(o)
    }
}

impl vstd::std_specs::convert::FromSpecImpl<ObjectId> for ID {
    open spec fn obeys_from_spec() -> bool {
        true
    }

    open spec fn from_spec(o: ObjectId) -> ID {
        ID::ObjectId(o)
    }
}

} // verus!
