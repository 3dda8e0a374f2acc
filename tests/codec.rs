use monarch2::codec::{decode_int, decode_str, encode_request, split_fields, Arg};
use monarch2::mobile_equipment::{FunctionalMode, ResetFlag, SetFunctionality};
use monarch2::pdp::PDPType;
use monarch2::types::{Bool, CodecError, Nullable};

#[test]
fn test_pdp_type() {
    let written = encode_request("", "", &vec![PDPType::IP.to_arg()], "", false);
    assert_eq!(String::from_utf8(written).unwrap(), "\"IP\"");
}

#[test]
fn pdp_type_parsing() {
    let written = encode_request("", "", &vec![PDPType::IP.to_arg()], "", false);
    assert_eq!(written.len(), 4);
    assert_eq!(String::from_utf8(written).unwrap(), "\"IP\"");
    assert_eq!(PDPType::from_literal(b"IP"), Some(PDPType::IP));
    assert_eq!(PDPType::from_literal(b"X.25"), Some(PDPType::X25));
    assert_eq!(PDPType::from_literal(b"IPX"), None);
}

#[test]
fn ser_nullable() {
    let args = vec![
        Arg::Int(0),
        Nullable::Value(2i64).to_arg(),
        Nullable::<i64>::Empty.to_arg(),
        Arg::Int(4),
    ];
    let written = encode_request("AT", "+CMD", &args, "\r\n", true);
    assert_eq!(String::from_utf8(written).unwrap(), "AT+CMD=0,2,,4\r\n");
}

#[test]
fn de_nullable() {
    let input = b"0,1,,\"foo\",2";
    let fs = split_fields(input);
    assert_eq!(fs.len(), 5);
    assert_eq!(decode_int(&fs[0]), Some(0));
    assert_eq!(Nullable::<i64>::decode(&fs[1]), Nullable::Value(1));
    assert_eq!(Nullable::<i64>::decode(&fs[2]), Nullable::Empty);
    assert_eq!(Nullable::<Vec<u8>>::decode(&fs[3]), Nullable::Value(b"foo".to_vec()));
    assert_eq!(Nullable::<Vec<u8>>::decode(&fs[2]), Nullable::Empty);
    assert_eq!(decode_int(&fs[4]), Some(2));
}

#[test]
fn trailing_absent_arguments_are_dropped() {
    let c = SetFunctionality { fun: FunctionalMode::Full, rst: None };
    assert_eq!(c.encode(), b"AT+CFUN=1\r\n".to_vec());
    let c = SetFunctionality { fun: FunctionalMode::AirplaneMode, rst: Some(ResetFlag::On) };
    assert_eq!(c.encode(), b"AT+CFUN=4,1\r\n".to_vec());
    let args = vec![Arg::Int(1), Arg::Absent, Arg::Int(3), Arg::Absent, Arg::Absent];
    assert_eq!(encode_request("AT", "+X", &args, "\r\n", true), b"AT+X=1,,3\r\n".to_vec());
    assert_eq!(encode_request("AT", "+X", &vec![Arg::Absent], "\r\n", true), b"AT+X\r\n".to_vec());
}

#[test]
fn round_trip_of_plain_arguments() {
    let args = vec![Arg::Int(-42), Arg::Str(b"a,b".to_vec()), Arg::Empty, Arg::Int(7)];
    let line = encode_request("", "", &args, "", false);
    assert_eq!(line, b"-42,\"a,b\",,7".to_vec());
    let fs = split_fields(&line);
    assert_eq!(decode_int(&fs[0]), Some(-42));
    assert_eq!(decode_str(&fs[1]), Some(b"a,b".to_vec()));
    assert_eq!(fs[2].len(), 0);
    assert_eq!(decode_int(&fs[3]), Some(7));
}

#[test]
fn decimal_edges() {
    let line = encode_request("", "", &vec![Arg::Int(i64::MIN as i128), Arg::Int(0)], "", false);
    assert_eq!(line, b"-9223372036854775808,0".to_vec());
    assert_eq!(decode_int(b"-"), None);
    assert_eq!(decode_int(b""), None);
    assert_eq!(decode_int(b"12a"), None);
    assert_eq!(decode_int(b"9223372036854775807"), Some(i64::MAX));
    assert_eq!(decode_int(b"-9223372036854775808"), Some(i64::MIN));
    assert_eq!(decode_int(b"9223372036854775808"), None);
    assert_eq!(decode_int(b"-9223372036854775809"), None);
    assert_eq!(Nullable::<i64>::decode(b"2000000000000000000"), Nullable::Value(2_000_000_000_000_000_000));
}

#[test]
fn modem_bool_round_trip() {
    assert_eq!(Bool::decode(b"1", 3), Ok(Bool::True));
    assert_eq!(Bool::decode(b"0", 3), Ok(Bool::False));
    assert_eq!(Bool::decode(b"2", 3), Err(CodecError::InvalidField(3)));
    assert_eq!(Bool::decode(b"", 0), Err(CodecError::InvalidField(0)));
    assert_eq!(Bool::decode(b"true", 1), Err(CodecError::InvalidField(1)));
    assert!(Bool::True.as_bool());
    assert!(!Bool::False.as_bool());
    assert_eq!(Bool::from(true), Bool::True);
    assert!(!bool::from(Bool::False));
    let line = encode_request("", "", &vec![Bool::True.to_arg(), Bool::False.to_arg()], "", false);
    assert_eq!(line, b"1,0".to_vec());
}

#[test]
fn nullable_conversions() {
    let n = Nullable::from_option(Some(3u8));
    assert_eq!(n.into_option(), Some(3));
    assert_eq!(Nullable::<u8>::from_option(None), Nullable::Empty);
    assert_eq!(Nullable::Value(5u8).as_option(), Some(&5));
    assert_eq!(Nullable::<i64>::decode(b"x"), Nullable::Empty);
}

#[test]
fn nullable_arguments_keep_positions() {
    let args = vec![
        Nullable::Value(Arg::Str(b"x".to_vec())).into_arg(),
        Nullable::<Arg>::Empty.into_arg(),
        Nullable::Value(Arg::Int(5)).into_arg(),
    ];
    let line = encode_request("", "", &args, "", false);
    assert_eq!(line, b"\"x\",,5".to_vec());
    let fs = split_fields(&line);
    assert_eq!(fs.len(), 3);
    assert!(fs[1].is_empty());
}
