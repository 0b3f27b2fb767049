use std::collections::BTreeMap;

use wireproto::{
    CommonCreateRequest, Cursor, CreateRequest, CustomSpuSpec, DecodeError, Decoder,
    DecoderVarInt, DerivedStreamSpec, Encoder, ManagedConnectorSpec, ObjectApiCreateRequest,
    ObjectCreateRequest, SmartModuleSpec, SpuGroupSpec, TableFormatSpec, TopicSpec,
};

fn round_trip_bytes<T: Encoder>(value: &T, version: i16) -> (Vec<u8>, T)
where
    T: Sized,
{
    let mut out: Vec<u8> = vec![];
    let size = value.write_size(version);
    let ret = value.encode(&mut out, version);
    assert!(ret.is_ok());
    assert_eq!(out.len(), size);
    let decoded = T::decode_from(&mut Cursor::new(out.clone()), version).expect("round trip");
    (out, decoded)
}

#[test]
fn test_round_trip_primitives() {
    for version in [0i16, 7] {
        let (_, v) = round_trip_bytes(&true, version);
        assert!(v);
        let (_, v) = round_trip_bytes(&0x8fu8, version);
        assert_eq!(v, 0x8f);
        let (_, v) = round_trip_bytes(&-5i8, version);
        assert_eq!(v, -5);
        let (_, v) = round_trip_bytes(&0xbeefu16, version);
        assert_eq!(v, 0xbeef);
        let (_, v) = round_trip_bytes(&-12345i16, version);
        assert_eq!(v, -12345);
        let (_, v) = round_trip_bytes(&0xdeadbeefu32, version);
        assert_eq!(v, 0xdeadbeef);
        let (_, v) = round_trip_bytes(&-123456789i32, version);
        assert_eq!(v, -123456789);
        let (_, v) = round_trip_bytes(&0xdeadbeefcafef00du64, version);
        assert_eq!(v, 0xdeadbeefcafef00d);
        let (_, v) = round_trip_bytes(&-1234567890123i64, version);
        assert_eq!(v, -1234567890123);
    }
}

#[test]
fn test_round_trip_string_and_containers() {
    let (bytes, v) = round_trip_bytes(&"consumer-1".to_string(), 0);
    assert_eq!(bytes[..2], [0x00, 0x0a]);
    assert_eq!(v, "consumer-1");

    let (_, v) = round_trip_bytes(&String::new(), 0);
    assert_eq!(v, "");

    let (bytes, v) = round_trip_bytes(&vec![1u16, 2, 3], 0);
    assert_eq!(bytes, [0, 0, 0, 3, 0, 1, 0, 2, 0, 3]);
    assert_eq!(v, vec![1u16, 2, 3]);

    let (bytes, v) = round_trip_bytes(&Some(16u16), 0);
    assert_eq!(bytes, [0x01, 0x00, 0x10]);
    assert_eq!(v, Some(16));

    let (bytes, v) = round_trip_bytes(&None::<u16>, 0);
    assert_eq!(bytes, [0x00]);
    assert_eq!(v, None);
}

#[test]
fn test_exact_fixed_width_values() {
    let data = [0x12, 0x34, 0x56, 0x78];
    let v = u32::decode_from(&mut Cursor::new(data.to_vec()), 0).unwrap();
    assert_eq!(v, 0x12345678);

    let data = [0xff, 0xfe];
    let v = i16::decode_from(&mut Cursor::new(data.to_vec()), 0).unwrap();
    assert_eq!(v, -2);

    let data = [0xff; 8];
    let v = i64::decode_from(&mut Cursor::new(data.to_vec()), 0).unwrap();
    assert_eq!(v, -1);

    let data = [0x01, 0x02, 0x03, 0x04, 0x05, 0x06, 0x07, 0x08];
    let v = u64::decode_from(&mut Cursor::new(data.to_vec()), 0).unwrap();
    assert_eq!(v, 0x0102030405060708);
}

#[test]
fn test_error_kinds() {
    let err = u32::decode_from(&mut Cursor::new(vec![1, 2]), 0).unwrap_err();
    assert_eq!(err, DecodeError::UnexpectedEof);

    let err = bool::decode_from(&mut Cursor::new(vec![0x23]), 0).unwrap_err();
    assert_eq!(err, DecodeError::InvalidData);

    // a string length prefix promising more bytes than remain
    let err = String::decode_from(&mut Cursor::new(vec![0x00, 0x0a, 0x63]), 0).unwrap_err();
    assert_eq!(err, DecodeError::UnexpectedEof);

    // invalid UTF-8 payload is invalid data, not truncation
    let err = String::decode_from(&mut Cursor::new(vec![0x00, 0x01, 0xff]), 0).unwrap_err();
    assert_eq!(err, DecodeError::InvalidData);
}

#[test]
fn test_multibyte_utf8_string() {
    // length 3: 'a' then the two-byte encoding of 'e' with acute accent
    let data = vec![0x00, 0x03, 0x61, 0xc3, 0xa9];
    let v = String::decode_from(&mut Cursor::new(data), 0).unwrap();
    assert_eq!(v.chars().count(), 2);
    assert_eq!(v.chars().next(), Some('a'));
}

#[test]
fn test_negative_sequence_count_is_empty() {
    // count -1: no elements, not an error
    let data = vec![0xff, 0xff, 0xff, 0xff];
    let v = Vec::<u16>::decode_from(&mut Cursor::new(data), 0).unwrap();
    assert!(v.is_empty());

    // count -5 likewise, and the bytes after the count are untouched
    let data = vec![0xff, 0xff, 0xff, 0xfb, 0x41];
    let mut cursor = Cursor::new(data);
    let v = Vec::<u8>::decode_from(&mut cursor, 0).unwrap();
    assert!(v.is_empty());
    assert_eq!(u8::decode_from(&mut cursor, 0).unwrap(), 0x41);
}

#[test]
fn test_string_negative_length_consumes_nothing_more() {
    // length -1 gives the empty string and leaves the next byte in place
    let data = vec![0xff, 0xff, 0x41];
    let mut cursor = Cursor::new(data);
    let v = String::decode_from(&mut cursor, 0).unwrap();
    assert_eq!(v, "");
    assert_eq!(u8::decode_from(&mut cursor, 0).unwrap(), 0x41);
}

#[test]
fn test_varint_negative_values() {
    // zig-zag: 1 -> -1, 3 -> -2
    let v = i64::decode_varint_from(&mut Cursor::new(vec![0x01])).unwrap();
    assert_eq!(v, -1);
    let v = i64::decode_varint_from(&mut Cursor::new(vec![0x03])).unwrap();
    assert_eq!(v, -2);
    // two groups: 0x80 0x01 carries raw 128 -> 64
    let v = i64::decode_varint_from(&mut Cursor::new(vec![0x80, 0x01])).unwrap();
    assert_eq!(v, 64);
}

#[test]
fn test_varint_unterminated_fails() {
    let err = i64::decode_varint_from(&mut Cursor::new(vec![0x80, 0x80])).unwrap_err();
    assert_eq!(err, DecodeError::UnexpectedEof);

    // exhaustion stays truncation even after ten continuation bytes
    let err = i64::decode_varint_from(&mut Cursor::new(vec![0x80; 10])).unwrap_err();
    assert_eq!(err, DecodeError::UnexpectedEof);
}

#[test]
fn test_varint_overlong_is_invalid() {
    // an eleventh group with input still remaining cannot fit 64 bits
    let mut data = vec![0x80; 10];
    data.push(0x01);
    let err = i64::decode_varint_from(&mut Cursor::new(data)).unwrap_err();
    assert_eq!(err, DecodeError::InvalidData);
}

#[test]
fn test_fixed_width_failure_consumes_nothing() {
    // a failed fixed-width read leaves the cursor where it was
    let mut cursor = Cursor::new(vec![0x12, 0x34]);
    let err = u32::decode_from(&mut cursor, 0).unwrap_err();
    assert_eq!(err, DecodeError::UnexpectedEof);
    assert_eq!(u16::decode_from(&mut cursor, 0).unwrap(), 0x1234);
}

#[test]
fn test_bool_invalid_consumes_its_byte() {
    // the flag byte is consumed even when it is out of domain
    let mut cursor = Cursor::new(vec![0x23, 0x41]);
    let err = bool::decode_from(&mut cursor, 0).unwrap_err();
    assert_eq!(err, DecodeError::InvalidData);
    assert_eq!(u8::decode_from(&mut cursor, 0).unwrap(), 0x41);
}

#[test]
fn test_error_messages() {
    assert_eq!(DecodeError::UnexpectedEof.message(), "unexpected end of input");
    assert_eq!(DecodeError::InvalidData.message(), "invalid data");
}

#[test]
fn test_map_last_write_wins() {
    // two pairs sharing key 1: the second value 20 wins
    let data = vec![0x00, 0x02, 0x00, 0x01, 0x00, 0x0a, 0x00, 0x01, 0x00, 0x14];
    let m = BTreeMap::<u16, u16>::decode_from(&mut Cursor::new(data), 0).unwrap();
    assert_eq!(m.len(), 1);
    assert_eq!(m.get(&1), Some(&20));
}

#[test]
fn test_map_keeps_distinct_keys_ordered() {
    let data = vec![0x00, 0x02, 0x00, 0x05, 0x00, 0x0a, 0x00, 0x02, 0x00, 0x14];
    let m = BTreeMap::<u16, u16>::decode_from(&mut Cursor::new(data), 0).unwrap();
    assert_eq!(m.len(), 2);
    let keys: Vec<u16> = m.keys().copied().collect();
    assert_eq!(keys, vec![2, 5]);
    assert_eq!(m.get(&5), Some(&10));
}

#[test]
fn test_map_truncated_pair_fails() {
    let data = vec![0x00, 0x02, 0x00, 0x01, 0x00, 0x0a, 0x00];
    let err = BTreeMap::<u16, u16>::decode_from(&mut Cursor::new(data), 0).unwrap_err();
    assert_eq!(err, DecodeError::UnexpectedEof);
}

#[test]
fn test_union_round_trip_every_variant() {
    let variants = vec![
        ObjectCreateRequest::Topic(TopicSpec {
            partitions: 3,
            replication_factor: 2,
            ignore_rack_assignment: true,
        }),
        ObjectCreateRequest::CustomSpu(CustomSpuSpec {
            id: 5001,
            public_port: 9005,
            private_port: 9006,
        }),
        ObjectCreateRequest::SmartModule(SmartModuleSpec { body: vec![0xde, 0xad] }),
        ObjectCreateRequest::ManagedConnector(ManagedConnectorSpec {
            name: "mqtt".to_string(),
        }),
        ObjectCreateRequest::SpuGroup(SpuGroupSpec { replicas: 3, min_id: 10 }),
        ObjectCreateRequest::TableFormat(TableFormatSpec { name: "events".to_string() }),
        ObjectCreateRequest::DerivedStream(DerivedStreamSpec { stream: "clicks".to_string() }),
    ];
    for value in &variants {
        let (bytes, decoded) = round_trip_bytes(value, 9);
        assert_eq!(bytes[0], value.type_value());
        assert_eq!(decoded.type_value(), value.type_value());
        match (value, &decoded) {
            (ObjectCreateRequest::Topic(a), ObjectCreateRequest::Topic(b)) => assert_eq!(a, b),
            (ObjectCreateRequest::CustomSpu(a), ObjectCreateRequest::CustomSpu(b)) => {
                assert_eq!(a, b)
            }
            (ObjectCreateRequest::SmartModule(a), ObjectCreateRequest::SmartModule(b)) => {
                assert_eq!(a.body, b.body)
            }
            (
                ObjectCreateRequest::ManagedConnector(a),
                ObjectCreateRequest::ManagedConnector(b),
            ) => assert_eq!(a.name, b.name),
            (ObjectCreateRequest::SpuGroup(a), ObjectCreateRequest::SpuGroup(b)) => {
                assert_eq!(a, b)
            }
            (ObjectCreateRequest::TableFormat(a), ObjectCreateRequest::TableFormat(b)) => {
                assert_eq!(a.name, b.name)
            }
            (ObjectCreateRequest::DerivedStream(a), ObjectCreateRequest::DerivedStream(b)) => {
                assert_eq!(a.stream, b.stream)
            }
            _ => panic!("variant changed across the round trip"),
        }
    }
}

#[test]
fn test_union_unknown_tag_fails() {
    let data = vec![0x09, 0x00, 0x00];
    let err = ObjectCreateRequest::decode_from(&mut Cursor::new(data), 9).unwrap_err();
    assert_eq!(err, DecodeError::InvalidData);
}

#[test]
fn test_union_default_variant() {
    let value = ObjectCreateRequest::default();
    assert_eq!(value.type_value(), TopicSpec::CREATE_TYPE);
    assert!(matches!(value, ObjectCreateRequest::Topic(t) if t == TopicSpec::default()));
}

#[test]
fn test_common_request_version_gating() {
    let request = CommonCreateRequest {
        name: "topic-a".to_string(),
        dry_run: true,
        timeout: Some(1500),
    };

    // at version 7 the timeout is carried
    let (bytes, decoded) = round_trip_bytes(&request, 7);
    assert_eq!(decoded.name, "topic-a");
    assert!(decoded.dry_run);
    assert_eq!(decoded.timeout, Some(1500));

    // below version 7 no bytes exist for the timeout at all
    let mut old_bytes: Vec<u8> = vec![];
    let old_request = CommonCreateRequest { timeout: None, ..request };
    let ret = old_request.encode(&mut old_bytes, 6);
    assert!(ret.is_ok());
    assert_eq!(old_bytes.len() + 5, bytes.len());
    let decoded = CommonCreateRequest::decode_from(&mut Cursor::new(old_bytes), 6).unwrap();
    assert_eq!(decoded.timeout, None);
}

#[test]
fn test_api_request_round_trip() {
    let request = ObjectApiCreateRequest {
        common: CommonCreateRequest {
            name: "events".to_string(),
            dry_run: false,
            timeout: Some(30),
        },
        request: ObjectCreateRequest::SpuGroup(SpuGroupSpec { replicas: 2, min_id: 1 }),
    };
    let (_, decoded) = round_trip_bytes(&request, 9);
    assert_eq!(decoded.common.name, "events");
    assert!(!decoded.common.dry_run);
    assert_eq!(decoded.common.timeout, Some(30));
    assert!(
        matches!(decoded.request, ObjectCreateRequest::SpuGroup(g) if g.replicas == 2 && g.min_id == 1)
    );
}

#[test]
fn test_create_request_wrapper_round_trip() {
    let request = CreateRequest {
        request: TopicSpec { partitions: 1, replication_factor: 1, ignore_rack_assignment: false },
    };
    let (_, decoded) = round_trip_bytes(&request, 9);
    assert_eq!(decoded.request, request.request);
}

#[test]
fn test_write_size_matches_encoding() {
    let request = ObjectApiCreateRequest {
        common: CommonCreateRequest {
            name: "size-check".to_string(),
            dry_run: true,
            timeout: None,
        },
        request: ObjectCreateRequest::SmartModule(SmartModuleSpec { body: vec![1, 2, 3, 4] }),
    };
    for version in [0i16, 7, 9] {
        let mut out: Vec<u8> = vec![];
        let ret = request.encode(&mut out, version);
        assert!(ret.is_ok());
        assert_eq!(out.len(), request.write_size(version));
    }
}
