use polyid::codec::{ScalarError, ScalarInput, ScalarValue, StructuredInput, StructuredOutput};
use polyid::decimal::decimal_string;
use polyid::id::{BsonValue, DecodeError, ID};
use polyid::object_id::ObjectId;

const HEX: &str = "507f1f77bcf86cd799439011";
const BYTES: [u8; 12] = [0x50, 0x7f, 0x1f, 0x77, 0xbc, 0xf8, 0x6c, 0xd7, 0x99, 0x43, 0x90, 0x11];

fn oid() -> ObjectId {
    ObjectId::parse_str(HEX).unwrap()
}

#[test]
fn nested_oid_map_decodes_to_object_id() {
    let input = StructuredInput::Nested(BsonValue::ObjectId(oid()));
    let id = ID::decode(input).unwrap();
    assert_eq!(id, ID::ObjectId(ObjectId::from_bytes(BYTES)));
    assert_eq!(id.to_string(), HEX);
}

#[test]
fn hello_decodes_to_text_and_encodes_bare() {
    let id = ID::decode(StructuredInput::Str("hello".to_string())).unwrap();
    assert_eq!(id, ID::String("hello".to_string()));
    assert_eq!(id.encode(), StructuredOutput::Str("hello".to_string()));
}

#[test]
fn forty_two_decodes_to_integer_and_scalar() {
    let id = ID::decode(StructuredInput::Signed(42)).unwrap();
    assert_eq!(id, ID::I64(42));
    assert_eq!(id.to_scalar(), ScalarValue::Int(42));
}

#[test]
fn bson_round_trip_each_kind() {
    for id in [ID::ObjectId(oid()), ID::String("abc".to_string()), ID::I64(-5)] {
        let b = id.to_bson();
        assert_eq!(ID::with_bson(&b).unwrap(), id);
        assert_eq!(ID::decode(StructuredInput::Nested(b)).unwrap(), id);
    }
}

#[test]
fn bson_values_map_to_kinds() {
    assert_eq!(ID::I64(9).to_bson(), BsonValue::Int64(9));
    assert_eq!(ID::String("x".to_string()).to_bson(), BsonValue::String("x".to_string()));
    assert_eq!(ID::ObjectId(oid()).to_bson(), BsonValue::ObjectId(oid()));
}

#[test]
fn bson_other_type_is_rejected() {
    assert_eq!(ID::with_bson(&BsonValue::Other(0x08)), Err(DecodeError::UnsupportedBsonType(0x08)));
    assert_eq!(
        ID::decode(StructuredInput::Nested(BsonValue::Other(0x01))),
        Err(DecodeError::UnsupportedBsonType(0x01))
    );
}

#[test]
fn marked_hex_decodes_to_object_id() {
    let text = format!("$oid:{}", HEX);
    assert_eq!(ID::decode_text(text.clone()), ID::ObjectId(oid()));
    assert_eq!(ID::decode(StructuredInput::Str(text)).unwrap(), ID::ObjectId(oid()));
    let upper = format!("$oid:{}", HEX.to_uppercase());
    assert_eq!(ID::decode_text(upper), ID::ObjectId(oid()));
}

#[test]
fn marked_non_hex_stays_text() {
    for text in ["$oid:xyz", "$oid:", "$oid:507f1f77bcf86cd79943901", "$oid:507f1f77bcf86cd7994390110", "$oid:507f1f77bcf86cd79943901g"] {
        assert_eq!(ID::decode_text(text.to_string()), ID::String(text.to_string()));
    }
}

#[test]
fn unmarked_text_stays_text() {
    for text in ["", "hello", "$oi", "oid:507f1f77bcf86cd799439011", HEX, "$OID:507f1f77bcf86cd799439011", "é$oid:"] {
        assert_eq!(ID::decode_text(text.to_string()), ID::String(text.to_string()));
    }
}

#[test]
fn object_id_text_has_no_marker() {
    assert_eq!(ID::ObjectId(oid()).to_string(), HEX);
    assert_eq!(ID::with_oid(ObjectId::from_bytes(BYTES)).to_string(), HEX);
    let upper = ObjectId::parse_str("507F1F77BCF86CD799439011").unwrap();
    assert_eq!(ID::ObjectId(upper).to_string(), HEX);
}

#[test]
fn hex_reads_and_writes_bytes() {
    assert_eq!(oid().bytes(), BYTES);
    assert_eq!(ObjectId::from_bytes([0; 12]).to_hex(), "000000000000000000000000");
    assert_eq!(ObjectId::from_bytes([0xff; 12]).to_hex(), "ffffffffffffffffffffffff");
    let err = ObjectId::parse_str("zz").unwrap_err();
    assert_eq!(err.input, "zz");
}

#[test]
fn scalar_form_of_object_id_round_trips() {
    let id = ID::ObjectId(oid());
    let out = id.to_scalar();
    assert_eq!(out, ScalarValue::Str(format!("$oid:{}", HEX)));
    let ScalarValue::Str(token) = out else { panic!("expected a string token") };
    assert_eq!(ID::from_scalar(ScalarInput::Str(token)).unwrap(), id);
}

#[test]
fn scalar_text_and_tokens() {
    assert_eq!(ID::String("t".to_string()).to_scalar(), ScalarValue::Str("t".to_string()));
    assert_eq!(ID::from_scalar(ScalarInput::Int(-3)).unwrap(), ID::I64(-3));
    assert_eq!(ID::from_scalar(ScalarInput::Str("abc".to_string())).unwrap(), ID::String("abc".to_string()));
    assert_eq!(
        ID::from_scalar(ScalarInput::Other("Float".to_string())),
        Err(ScalarError::UnexpectedToken("Float".to_string()))
    );
}

#[test]
fn scalar_integer_saturates() {
    assert_eq!(ID::I64(i64::MAX).to_scalar(), ScalarValue::Int(i32::MAX));
    assert_eq!(ID::I64(i64::MIN).to_scalar(), ScalarValue::Int(i32::MIN));
    assert_eq!(ID::I64(i32::MIN as i64).to_scalar(), ScalarValue::Int(i32::MIN));
    assert_eq!(ID::I64(3_000_000_000).to_scalar(), ScalarValue::Int(i32::MAX));
}

#[test]
fn equality_is_kind_sensitive() {
    assert_ne!(ID::I64(7), ID::String("7".to_string()));
    assert_ne!(ID::I64(7), ID::ObjectId(ObjectId::from_bytes([0, 0, 0, 0, 0, 0, 0, 0, 0, 0, 0, 7])));
    assert_ne!(ID::String(HEX.to_string()), ID::ObjectId(oid()));
    assert_eq!(ID::I64(7), ID::I64(7));
    assert_ne!(ID::ObjectId(oid()), ID::ObjectId(ObjectId::from_bytes([0; 12])));
}

#[test]
fn object_id_conversion_round_trips() {
    assert_eq!(ID::from(oid()).to_object_id().unwrap(), oid());
    assert_eq!(ID::String(HEX.to_string()).to_object_id().unwrap(), oid());
    let err = ID::String("nope".to_string()).to_object_id().unwrap_err();
    assert_eq!(err.input, "nope");
    let err = ID::I64(123).to_object_id().unwrap_err();
    assert_eq!(err.input, "123");
}

#[test]
fn unsigned_overflow_is_rejected() {
    assert_eq!(ID::decode(StructuredInput::Unsigned(u64::MAX)), Err(DecodeError::IntegerOverflow(u64::MAX)));
    let edge = i64::MAX as u64 + 1;
    assert_eq!(ID::decode(StructuredInput::Unsigned(edge)), Err(DecodeError::IntegerOverflow(edge)));
    assert_eq!(ID::decode(StructuredInput::Unsigned(i64::MAX as u64)).unwrap(), ID::I64(i64::MAX));
    assert_eq!(ID::decode(StructuredInput::Unsigned(5)).unwrap(), ID::I64(5));
}

#[test]
fn integers_render_in_decimal() {
    assert_eq!(ID::I64(0).to_string(), "0");
    assert_eq!(ID::I64(1234567).to_string(), "1234567");
    assert_eq!(ID::I64(-40).to_string(), "-40");
    assert_eq!(decimal_string(i64::MIN), "-9223372036854775808");
    assert_eq!(decimal_string(i64::MAX), "9223372036854775807");
}

#[test]
fn constructors_pick_their_kind() {
    assert_eq!(ID::from_string("a".to_string()), ID::String("a".to_string()));
    assert_eq!(ID::with_string("b".to_string()), ID::String("b".to_string()));
    assert_eq!(ID::with_i64(-1), ID::I64(-1));
    assert_eq!(ID::from(8i64), ID::I64(8));
    assert_eq!(ID::from("$oid:x".to_string()), ID::String("$oid:x".to_string()));
    assert_eq!(ID::from(format!("$oid:{}", HEX)), ID::String(format!("$oid:{}", HEX)));
}

#[test]
fn strict_object_id_constructor() {
    assert_eq!(ID::with_string_to_oid(HEX).unwrap(), ID::ObjectId(oid()));
    let err = ID::with_string_to_oid("hello").unwrap_err();
    assert_eq!(err.input, "hello");
}

#[test]
fn structured_forms_of_each_kind() {
    assert_eq!(ID::ObjectId(oid()).encode(), StructuredOutput::ObjectIdMap(HEX.to_string()));
    assert_eq!(ID::I64(-2).encode(), StructuredOutput::I64(-2));
}
