use vstd::prelude::*;

verus! {

/// An ASCII hexadecimal digit, of either case.
pub open spec fn is_hex_char(c: char) -> bool {
    ('0' <= c && c <= '9') || ('a' <= c && c <= 'f') || ('A' <= c && c <= 'F')
}

/// An ASCII hexadecimal digit that is a decimal digit or a lowercase letter.
pub open spec fn is_lower_hex_char(c: char) -> bool {
    ('0' <= c && c <= '9') || ('a' <= c && c <= 'f')
}

/// The value of a hexadecimal digit.
pub open spec fn hex_val(c: char) -> int {
    if '0' <= c && c <= '9' {
        c as int - '0' as int
    } else if 'a' <= c && c <= 'f' {
        c as int - 'a' as int + 10
    } else {
        c as int - 'A' as int + 10
    }
}

/// The lowercase digit for a value below sixteen.
pub open spec fn lower_digit(n: int) -> char {
    if n == 0 { '0' } else if n == 1 { '1' } else if n == 2 { '2' } else if n == 3 { '3' }
    else if n == 4 { '4' } else if n == 5 { '5' } else if n == 6 { '6' } else if n == 7 { '7' }
    else if n == 8 { '8' } else if n == 9 { '9' } else if n == 10 { 'a' } else if n == 11 { 'b' }
    else if n == 12 { 'c' } else if n == 13 { 'd' } else if n == 14 { 'e' } else { 'f' }
}

/// Text that spells an object identifier: exactly 24 hexadecimal digits.
pub open spec fn is_oid_hex(s: Seq<char>) -> bool {
    &&& s.len() == 24
    &&& forall|i: int| 0 <= i < 24 ==> #[trigger] is_hex_char(s[i])
}

/// Text in the canonical form of an object identifier: 24 digits, letters in lowercase.
pub open spec fn is_canonical_oid_hex(s: Seq<char>) -> bool {
    &&& s.len() == 24
    &&& forall|i: int| 0 <= i < 24 ==> #[trigger] is_lower_hex_char(s[i])
}

/// The bytes spelled by hexadecimal text, two digits per byte, high digit first.
pub open spec fn bytes_of_hex(s: Seq<char>) -> Seq<u8> {
    Seq::new((s.len() / 2) as nat, |i: int| (hex_val(s[2 * i]) * 16 + hex_val(s[2 * i + 1])) as u8)
}

/// The lowercase hexadecimal spelling of bytes, two digits per byte, high digit first.
pub open spec fn hex_of(b: Seq<u8>) -> Seq<char> {
    Seq::new(
        2 * b.len(),
        |i: int|
            if i % 2 == 0 {
                lower_digit(b[i / 2] as int / 16)
            } else {
                lower_digit(b[i / 2] as int % 16)
            },
    )
}

/// A 12-byte binary object identifier of the document store.
#[derive(Clone, Copy, Debug, PartialEq, Eq, Hash)]
pub struct ObjectId {
    pub bytes: [u8; 12],
}

impl View for ObjectId {
    type V = Seq<u8>;

    open spec fn view(&self) -> Seq<u8> {
        self.bytes@
    }
}

/// The error of `bson::oid::ObjectId::parse_str`, carried opaquely.
#[verifier::external_type_specification]
#[verifier::external_body]
pub struct ExOidError(bson::oid::Error);

/// Relies on `bson::oid::ObjectId::parse_str`: it accepts exactly 24 hexadecimal digits
/// of either case and turns each pair into one byte, high digit first.
#[verifier::external_body]
fn parse_hex_bytes(s: &str) -> (r: Result<[u8; 12], bson::oid::Error>)
    ensures
        r is Ok <==> is_oid_hex(s@),
        r is Ok ==> r->Ok_0@ == bytes_of_hex(s@),
{
    match bson::oid::ObjectId::parse_str(s) {
        Ok(o) => Ok(o.bytes()),
        Err(e) => Err(e),
    }
}

/// Relies on `bson::oid::ObjectId::to_hex`: two lowercase hexadecimal digits per byte,
/// high digit first.
#[verifier::external_body]
fn hex_string(b: [u8; 12]) -> (r: String)
    ensures
        r@ == hex_of(b@),
{
    bson::oid::ObjectId::from_bytes(b).to_hex()
}

/// Text that is not the spelling of an object identifier.
#[derive(Clone, Debug, PartialEq, Eq)]
pub struct InvalidObjectId {
    pub input: String,
}

impl ObjectId {
    /// The object identifier with the given bytes.
    pub fn from_bytes(bytes: [u8; 12]) -> (r: ObjectId)
        ensures
            r@ == bytes@,
    {
        ObjectId { bytes }
    }

    pub fn bytes(&self) -> (r: [u8; 12])
        ensures
            r@ == self@,
    {
        self.bytes
    }

    /// Reads 24 hexadecimal digits of either case.
    pub fn parse_str(s: &str) -> (r: Result<ObjectId, InvalidObjectId>)
        ensures
            r is Ok <==> is_oid_hex(s@),
            r is Ok ==> r->Ok_0@ == bytes_of_hex(s@),
            r is Err ==> r->Err_0.input@ == s@,
    {
        match parse_hex_bytes(s) {
            Ok(bytes) => Ok(ObjectId { bytes }),
            Err(_) => Err(InvalidObjectId { input: s.to_owned() }),
        }
    }

    /// The canonical spelling: 24 lowercase hexadecimal digits.
    pub fn to_hex(&self) -> (r: String)
        ensures
            r@ == hex_of(self@),
            is_canonical_oid_hex(r@),
    {
        proof {
            lemma_hex_of_is_canonical(self@);
        }
        hex_string(self.bytes)
    }
}

/// A value below sixteen has a lowercase digit, which reads back as that value.
pub proof fn lemma_lower_digit(n: int)
    requires
        0 <= n < 16,
    ensures
        is_hex_char(lower_digit(n)),
        is_lower_hex_char(lower_digit(n)),
        hex_val(lower_digit(n)) == n,
{
}

proof fn lemma_hex_of_is_canonical(b: Seq<u8>)
    requires
        b.len() == 12,
    ensures
        is_canonical_oid_hex(hex_of(b)),
{
    assert forall|i: int| 0 <= i < 24 implies #[trigger] is_lower_hex_char(hex_of(b)[i]) by {
        lemma_lower_digit(b[i / 2] as int / 16);
        lemma_lower_digit(b[i / 2] as int % 16);
    }
}

/// Reading canonical text and spelling it again gives the same text back.
pub proof fn lemma_canonical_hex_round_trip(s: Seq<char>)
    requires
        is_canonical_oid_hex(s),
    ensures
        is_oid_hex(s),
        hex_of(bytes_of_hex(s)) == s,
{
    let b = bytes_of_hex(s);
    assert forall|i: int| 0 <= i < 24 implies #[trigger] is_hex_char(s[i]) by {
        assert(is_lower_hex_char(s[i]));
    }
    assert forall|i: int| 0 <= i < 24 implies #[trigger] hex_of(b)[i] == s[i] by {
        let k = i / 2;
        assert(is_lower_hex_char(s[2 * k]));
        assert(is_lower_hex_char(s[2 * k + 1]));
        let hi = hex_val(s[2 * k]);
        let lo = hex_val(s[2 * k + 1]);
        assert(0 <= hi < 16 && 0 <= lo < 16);
        assert(b[k] as int == hi * 16 + lo);
        assert((hi * 16 + lo) / 16 == hi && (hi * 16 + lo) % 16 == lo) by (nonlinear_arith)
            requires
                0 <= hi < 16,
                0 <= lo < 16,
        ;
        lemma_lower_digit(hi);
        lemma_lower_digit(lo);
        assert(lower_digit(hex_val(s[i])) == s[i]);
    }
    assert(hex_of(b) =~= s);
}

} // verus!
