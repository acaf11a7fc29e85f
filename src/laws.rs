use vstd::prelude::*;
use crate::codec::{decoded, is_scalar_form, scalar_decoded, ScalarInput, ScalarValue, StructuredInput};
use crate::id::{bson_id, canonical_text, has_oid_marker, object_id_of, oid_marker, text_id, BsonValue, DecodeError, IdView};
use crate::object_id::{
    bytes_of_hex, hex_of, hex_val, is_canonical_oid_hex, is_hex_char, is_oid_hex,
    is_lower_hex_char, lemma_canonical_hex_round_trip, lemma_lower_digit,
};

verus! {

/// A binary-format value that encodes an identifier decodes back to that identifier, both
/// directly and when it arrives nested in structured input.
pub proof fn lemma_bson_round_trip(id: IdView, b: BsonValue)
    requires
        bson_id(b) == Ok::<IdView, DecodeError>(id),
    ensures
        decoded(StructuredInput::Nested(b)) == Ok::<IdView, DecodeError>(id),
{
}

proof fn lemma_marker_prefix(s: Seq<char>)
    ensures
        has_oid_marker(oid_marker() + s),
        (oid_marker() + s).subrange(5, (oid_marker() + s).len() as int) == s,
{
    assert((oid_marker() + s).subrange(0, 5) =~= oid_marker());
    assert((oid_marker() + s).subrange(5, (oid_marker() + s).len() as int) =~= s);
}

/// The marker followed by the spelling of an object identifier decodes to that object
/// identifier; followed by anything else, the whole text stays text.
pub proof fn lemma_marked_text_decodes(s: Seq<char>)
    ensures
        is_oid_hex(s) ==> text_id(oid_marker() + s) == IdView::ObjectId(bytes_of_hex(s)),
        !is_oid_hex(s) ==> text_id(oid_marker() + s) == IdView::String(oid_marker() + s),
{
    lemma_marker_prefix(s);
}

/// Text without the marker decodes to itself.
pub proof fn lemma_unmarked_text_decodes(s: Seq<char>)
    requires
        !has_oid_marker(s),
    ensures
        text_id(s) == IdView::String(s),
{
}

/// Bytes spelled in hexadecimal and read back are the same bytes, and the spelling is that
/// of an object identifier.
pub proof fn lemma_hex_bytes_round_trip(b: Seq<u8>)
    requires
        b.len() == 12,
    ensures
        is_canonical_oid_hex(hex_of(b)),
        is_oid_hex(hex_of(b)),
        bytes_of_hex(hex_of(b)) == b,
{
    let h = hex_of(b);
    assert forall|i: int| 0 <= i < 24 implies #[trigger] is_hex_char(h[i]) by {
        lemma_lower_digit(b[i / 2] as int / 16);
        lemma_lower_digit(b[i / 2] as int % 16);
    }
    assert forall|i: int|
        0 <= i < 24 implies is_lower_hex_char(#[trigger] h[i]) by {
        lemma_lower_digit(b[i / 2] as int / 16);
        lemma_lower_digit(b[i / 2] as int % 16);
    }
    assert forall|k: int| 0 <= k < 12 implies #[trigger] bytes_of_hex(h)[k] == b[k] by {
        let x = b[k] as int;
        assert((2 * k) / 2 == k && (2 * k + 1) / 2 == k);
        assert((2 * k) % 2 == 0 && (2 * k + 1) % 2 == 1);
        lemma_lower_digit(x / 16);
        lemma_lower_digit(x % 16);
        assert(hex_val(h[2 * k]) == x / 16);
        assert(hex_val(h[2 * k + 1]) == x % 16);
        assert((x / 16) * 16 + x % 16 == x);
    }
    assert(bytes_of_hex(h) =~= b);
}

/// The canonical text of an object identifier is its hexadecimal spelling with no marker:
/// for text in canonical form, exactly the text the identifier was read from.
pub proof fn lemma_object_id_text(h: Seq<char>)
    requires
        is_canonical_oid_hex(h),
    ensures
        canonical_text(IdView::ObjectId(bytes_of_hex(h))) == h,
{
    lemma_canonical_hex_round_trip(h);
}

/// The scalar-protocol form of an object identifier is the marker followed by its canonical
/// text, and decoding that token gives the object identifier back.
pub proof fn lemma_scalar_object_id_round_trip(b: Seq<u8>, out: ScalarValue)
    requires
        b.len() == 12,
        is_scalar_form(IdView::ObjectId(b), out),
    ensures
        out is Str,
        out->Str_0@ == oid_marker() + canonical_text(IdView::ObjectId(b)),
        scalar_decoded(ScalarInput::Str(out->Str_0)) == Ok::<IdView, crate::codec::ScalarError>(
            IdView::ObjectId(b),
        ),
{
    lemma_hex_bytes_round_trip(b);
    lemma_marked_text_decodes(hex_of(b));
}

/// Identifiers of different kinds are never equal, whatever their values.
pub proof fn lemma_variants_distinct(i: i64, s: Seq<char>, b: Seq<u8>)
    ensures
        IdView::I64(i) != IdView::String(s),
        IdView::I64(i) != IdView::ObjectId(b),
        IdView::String(s) != IdView::ObjectId(b),
{
}

/// An object identifier made into an identifier converts back to itself; one read from its
/// spelling converts back to the bytes spelled.
pub proof fn lemma_object_id_round_trip(b: Seq<u8>, h: Seq<char>)
    ensures
        object_id_of(IdView::ObjectId(b)) == Some(b),
        is_oid_hex(h) ==> object_id_of(text_id(oid_marker() + h)) == Some(bytes_of_hex(h)),
{
    lemma_marked_text_decodes(h);
}

/// An unsigned integer within the signed 64-bit range decodes to that integer; one above it
/// is rejected with an overflow error, never wrapped.
pub proof fn lemma_unsigned_decoding(u: u64)
    ensures
        u <= i64::MAX ==> decoded(StructuredInput::Unsigned(u)) == Ok::<IdView, DecodeError>(
            IdView::I64(u as i64),
        ),
        u > i64::MAX ==> decoded(StructuredInput::Unsigned(u)) == Err::<IdView, DecodeError>(
            DecodeError::IntegerOverflow(u),
        ),
{
}

} // verus!
