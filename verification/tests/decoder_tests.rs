use wireproto::{Cursor, Decoder, DecoderVarInt, Encoder, TestRecord};

#[test]
fn test_decode_i18_not_enough() {
    let data: [u8; 0] = []; // no values
    let result = i8::decode_from(&mut Cursor::new(data.to_vec()), 0);
    assert!(result.is_err());
}

#[test]
fn test_decode_i8() {
    let data = [0x12];

    let result = i8::decode_from(&mut Cursor::new(data.to_vec()), 0);
    assert!(result.is_ok());
    assert_eq!(result.unwrap(), 18);
}

#[test]
fn test_decode_u18_not_enough() {
    let data: [u8; 0] = []; // no values
    let result = u8::decode_from(&mut Cursor::new(data.to_vec()), 0);
    assert!(result.is_err());
}

#[test]
fn test_decode_u8() {
    let data = [0x12];

    let result = u8::decode_from(&mut Cursor::new(data.to_vec()), 0);
    assert!(result.is_ok());
    assert_eq!(result.unwrap(), 18);
}

#[test]
fn test_decode_i16_not_enough() {
    let data = [0x11]; // only one value

    let result = i16::decode_from(&mut Cursor::new(data.to_vec()), 0);
    assert!(result.is_err());
}

#[test]
fn test_decode_i16() {
    let data = [0x00, 0x05];

    let result = i16::decode_from(&mut Cursor::new(data.to_vec()), 0);
    assert!(result.is_ok());
    assert_eq!(result.unwrap(), 5);
}

#[test]
fn test_decode_u16_not_enough() {
    let data = [0x11]; // only one value

    let result = u16::decode_from(&mut Cursor::new(data.to_vec()), 0);
    assert!(result.is_err());
}

#[test]
fn test_decode_u16() {
    let data = [0x00, 0x05];

    let result = u16::decode_from(&mut Cursor::new(data.to_vec()), 0);
    assert!(result.is_ok());
    assert_eq!(result.unwrap(), 5);
}

#[test]
fn test_decode_option_u16_none() {
    let data = [0x00];

    let Ok(None) = Option::<u16>::decode_from(&mut Cursor::new(data.to_vec()), 0) else {
        unreachable!();
    };
}

#[test]
fn test_decode_option_u16_val() {
    let data = [0x01, 0x00, 0x10];

    let Ok(Some(16)) = Option::<u16>::decode_from(&mut Cursor::new(data.to_vec()), 0) else {
        unreachable!();
    };
}

#[test]
fn test_decode_u32_not_enough() {
    let data = [0x11];

    let result = u32::decode_from(&mut Cursor::new(data.to_vec()), 0);
    assert!(result.is_err());
}

#[test]
fn test_decode_u32() {
    let data = [0x00, 0x00, 0x00, 0x05];

    let Ok(5) = u32::decode_from(&mut Cursor::new(data.to_vec()), 0) else {
        unreachable!()
    };
}

#[test]
fn test_decode_option_u32_none() {
    let data = [0x00];

    let Ok(None) = Option::<u32>::decode_from(&mut Cursor::new(data.to_vec()), 0) else {
        unreachable!();
    };
}

#[test]
fn test_decode_option_u32_val() {
    let data = [0x01, 0x00, 0x00, 0x01, 0x10];

    let Ok(Some(272)) = Option::<u32>::decode_from(&mut Cursor::new(data.to_vec()), 0) else {
        unreachable!();
    };
}

#[test]
fn test_decode_u64_not_enough() {
    let data = [0x11];

    let result = u32::decode_from(&mut Cursor::new(data.to_vec()), 0);
    assert!(result.is_err());
}

#[test]
fn test_decode_u64() {
    let data = [0x00, 0x00, 0x00, 0x00, 0x00, 0x00, 0x00, 0x05];

    let result = u64::decode_from(&mut Cursor::new(data.to_vec()), 0);
    assert!(result.is_ok());
    assert_eq!(result.unwrap(), 5);
}

#[test]
fn test_decode_option_u64_none() {
    let data = [0x00];

    let Ok(None) = Option::<u64>::decode_from(&mut Cursor::new(data.to_vec()), 0) else {
        unreachable!();
    };
}

#[test]
fn test_decode_option_u64_val() {
    let data = [0x01, 0x00, 0x00, 0x00, 0x00, 0x00, 0x00, 0x00, 0x05];

    let Ok(Some(5)) = Option::<u64>::decode_from(&mut Cursor::new(data.to_vec()), 0) else {
        unreachable!();
    };
}

#[test]
fn test_decode_i32_not_enough() {
    let data = [0x11, 0x11, 0x00]; // still need one more

    let result = i32::decode_from(&mut Cursor::new(data.to_vec()), 0);
    assert!(result.is_err());
}

#[test]
fn test_decode_i32() {
    let data = [0x00, 0x00, 0x00, 0x10];

    let Ok(16) = i32::decode_from(&mut Cursor::new(data.to_vec()), 0) else {
        unreachable!();
    };
}

#[test]
fn test_decode_i32_2() {
    let data = [0x00, 0x00, 0x00, 0x01];

    let Ok(1) = i32::decode_from(&mut Cursor::new(data.to_vec()), 0) else {
        unreachable!();
    };
}

#[test]
fn test_decode_i64_not_enough() {
    let data = [0x11, 0x11, 0x00]; // still need one more

    let result = i64::decode_from(&mut Cursor::new(data.to_vec()), 0);
    assert!(result.is_err());
}

#[test]
fn test_decode_i64() {
    let data = [0x00, 0x00, 0x00, 0x00, 0x00, 0x00, 0x00, 0x20];

    let Ok(32) = i64::decode_from(&mut Cursor::new(data.to_vec()), 0) else {
        unreachable!()
    };
}

#[test]
fn test_decode_invalid_string_not_len() {
    let data = [0x11]; // doesn't have right bytes

    let result = String::decode_from(&mut Cursor::new(data.to_vec()), 0);
    assert!(result.is_err());
}

#[test]
fn test_decode_invalid_string() {
    let data = [0x00, 0x0a, 0x63]; // len and string doesn't match

    let result = String::decode_from(&mut Cursor::new(data.to_vec()), 0);
    assert!(result.is_err());
}

#[test]
fn test_decode_null_option_string() {
    let data = [0x00];

    let Ok(None) = Option::<String>::decode_from(&mut Cursor::new(data.to_vec()), 0) else {
        unreachable!()
    };
}

#[test]
fn test_decode_some_option_string() {
    let data = [0x01, 0x00, 0x02, 0x77, 0x6f];

    let Ok(Some(value)) = Option::<String>::decode_from(&mut Cursor::new(data.to_vec()), 0) else {
        unreachable!();
    };
    assert_eq!(value, "wo");
}

#[test]
fn test_decode_string_existing_value() {
    let src = [0x0, 0x7, 0x30, 0x2e, 0x30, 0x2e, 0x30, 0x2e, 0x30];
    let Ok(decode_target) = String::decode_from(&mut Cursor::new(src.to_vec()), 0) else {
        unreachable!();
    };
    assert_eq!(decode_target, "0.0.0.0".to_string());
}

#[test]
fn test_decode_string() {
    let data = [
        0x00, 0x0a, 0x63, 0x6f, 0x6e, 0x73, 0x75, 0x6d, 0x65, 0x72, 0x2d, 0x31,
    ];

    let Ok(value) = String::decode_from(&mut Cursor::new(data.to_vec()), 0) else {
        unreachable!()
    };
    assert_eq!(value, "consumer-1");
}

#[test]
fn test_decode_bool_not_enough() {
    let data: [u8; 0] = []; // no values

    let result = bool::decode_from(&mut Cursor::new(data.to_vec()), 0);
    assert!(result.is_err());
}

#[test]
fn test_decode_bool_false() {
    let data = [0x0];

    let Ok(value) = bool::decode_from(&mut Cursor::new(data.to_vec()), 0) else {
        unreachable!()
    };
    assert!(!value);
}

#[test]
fn test_decode_bool_true() {
    let data = [0x1];

    let Ok(value) = bool::decode_from(&mut Cursor::new(data.to_vec()), 0) else {
        unreachable!()
    };
    assert!(value);
}

#[test]
fn test_decode_bool_invalid_value() {
    let data = [0x23]; // not bool

    let result = bool::decode_from(&mut Cursor::new(data.to_vec()), 0);
    assert!(result.is_err());
}

#[test]
fn test_decode_valid_string_vectors() {
    // array of strings with "test"
    let data = [0, 0, 0, 0x01, 0x00, 0x04, 0x74, 0x65, 0x73, 0x74];

    let Ok(values) = Vec::<String>::decode_from(&mut Cursor::new(data.to_vec()), 0) else {
        unreachable!()
    };
    assert_eq!(values.len(), 1);
    let first_str = &values[0];
    assert_eq!(first_str, "test");
}

#[test]
fn test_decode_varint_trait() {
    let data = [0x7e];

    let result = i64::decode_varint_from(&mut Cursor::new(data.to_vec()));
    assert!(matches!(result, Ok(63)));
}

#[test]
fn test_decode_varint_vec8() {
    let data = [0x06, 0x64, 0x6f, 0x67];

    let result = Vec::<u8>::decode_varint_from(&mut Cursor::new(data.to_vec()));
    assert!(result.is_ok());
    let value = result.unwrap();
    assert_eq!(value.len(), 3);
    assert_eq!(value[0], 0x64);
}

#[test]
fn test_vec8_encode_and_decode() {
    let in_vec: Vec<u8> = vec![1, 2, 3];
    let mut out: Vec<u8> = vec![];
    let ret = in_vec.encode(&mut out, 0);
    assert!(ret.is_ok());
}

#[test]
fn test_decode_varint_vec8_fail() {
    let data = [0x06, 0x64, 0x6f];

    let result = Vec::<u8>::decode_varint_from(&mut Cursor::new(data.to_vec()));
    assert!(matches!(result, Err(_)));
}

#[test]
fn test_varint_decode_array_opton_vec8_simple_array() {
    let data = [0x06, 0x64, 0x6f, 0x67, 0x00]; // should only read first 3

    let result = Option::<Vec<u8>>::decode_varint_from(&mut Cursor::new(data.to_vec()));
    assert!(matches!(result, Ok(Some(array)) if array.len() == 3 && array[0] == 0x64));
}

#[test]
fn test_decoding_struct() {
    let data = [0x06];

    // v1
    let result = TestRecord::decode_from(&mut Cursor::new(data.to_vec()), 0);
    assert!(result.is_ok());
    let record = result.unwrap();
    assert_eq!(record.value, 6);
    assert_eq!(record.value2, 0);

    // v2
    let data2 = [0x06, 0x09];
    let record2 = TestRecord::decode_from(&mut Cursor::new(data2.to_vec()), 2).expect("decode");
    assert_eq!(record2.value, 6);
    assert_eq!(record2.value2, 9);
}
