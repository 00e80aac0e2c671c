use sqlx_core::decode::Decode;
use sqlx_core::encode::{Encode, IsNull};
use sqlx_core::error::Error;
use sqlx_core::type_info::{AnyTypeInfo, AnyTypeInfoKind, Type};
use sqlx_core::uuid::{Hyphenated, Simple, Uuid};
use sqlx_core::value::{AnyArgumentBuffer, AnyValueKind};

const SAMPLE: [u8; 16] = [
    0x00, 0x11, 0x22, 0x33, 0x44, 0x55, 0x66, 0x77, 0x88, 0x99, 0xaa, 0xbb, 0xcc, 0xdd, 0xee,
    0xff,
];

fn sample_uuid() -> Uuid {
    Uuid::from_slice(&SAMPLE).unwrap()
}

#[test]
fn round_trip_binary() {
    let u = sample_uuid();
    let mut buf = AnyArgumentBuffer::new();
    assert_eq!(u.encode_by_ref(&mut buf), Ok(IsNull::No));
    assert_eq!(buf.len(), 1);
    let back = <Uuid as Decode>::decode(buf.get(0)).unwrap();
    assert_eq!(back.as_bytes_vec(), SAMPLE.to_vec());
}

#[test]
fn round_trip_hyphenated() {
    let h = sample_uuid().hyphenated();
    let mut buf = AnyArgumentBuffer::new();
    assert_eq!(h.encode_by_ref(&mut buf), Ok(IsNull::No));
    let back = <Hyphenated as Decode>::decode(buf.get(0)).unwrap();
    assert_eq!(back.into_uuid().as_bytes_vec(), SAMPLE.to_vec());
}

#[test]
fn round_trip_simple() {
    let s = sample_uuid().simple();
    let mut buf = AnyArgumentBuffer::new();
    assert_eq!(s.encode_by_ref(&mut buf), Ok(IsNull::No));
    let back = <Simple as Decode>::decode(buf.get(0)).unwrap();
    assert_eq!(back.into_uuid().as_bytes_vec(), SAMPLE.to_vec());
}

#[test]
fn encode_order_is_call_order() {
    let a = Uuid::from_slice(&[1u8; 16]).unwrap();
    let b = Uuid::from_slice(&[2u8; 16]).unwrap();
    let c = Uuid::from_slice(&[3u8; 16]).unwrap();
    let mut buf = AnyArgumentBuffer::new();
    a.encode_by_ref(&mut buf).unwrap();
    b.encode_by_ref(&mut buf).unwrap();
    c.encode_by_ref(&mut buf).unwrap();
    assert_eq!(buf.len(), 3);
    for (i, expected) in [[1u8; 16], [2u8; 16], [3u8; 16]].iter().enumerate() {
        match buf.get(i) {
            AnyValueKind::Uuid(u) => assert_eq!(u.as_bytes_vec(), expected.to_vec()),
            _ => panic!("entry {} has the wrong kind", i),
        }
    }
}

#[test]
fn blob_kind_rejected_for_binary() {
    let value = AnyValueKind::Blob(SAMPLE.to_vec());
    let err = <Uuid as Decode>::decode(&value).unwrap_err();
    assert_eq!(
        err,
        Error::UnexpectedKindError {
            expected: AnyTypeInfoKind::Uuid,
            actual: AnyTypeInfoKind::Blob,
        }
    );
}

#[test]
fn blob_kind_rejected_for_hyphenated() {
    let value = AnyValueKind::Blob(vec![]);
    let err = <Hyphenated as Decode>::decode(&value).unwrap_err();
    assert!(matches!(err, Error::UnexpectedKindError { .. }));
}

#[test]
fn blob_kind_rejected_for_simple() {
    let value = AnyValueKind::Blob(vec![0u8; 16]);
    let err = <Simple as Decode>::decode(&value).unwrap_err();
    assert!(matches!(err, Error::UnexpectedKindError { .. }));
}

#[test]
fn malformed_text_rejected_for_all_representations() {
    let value = AnyValueKind::Text("not-a-uuid".to_owned());
    assert!(matches!(
        <Uuid as Decode>::decode(&value),
        Err(Error::ConversionError { .. })
    ));
    assert!(matches!(
        <Hyphenated as Decode>::decode(&value),
        Err(Error::ConversionError { .. })
    ));
    assert!(matches!(
        <Simple as Decode>::decode(&value),
        Err(Error::ConversionError { .. })
    ));
}

#[test]
fn empty_text_rejected() {
    let value = AnyValueKind::Text(String::new());
    assert!(matches!(
        <Uuid as Decode>::decode(&value),
        Err(Error::ConversionError { .. })
    ));
}

#[test]
fn hyphenated_text_decodes() {
    let value = AnyValueKind::Text("00112233-4455-6677-8899-aabbccddeeff".to_owned());
    let u = <Uuid as Decode>::decode(&value).unwrap();
    assert_eq!(u.as_bytes_vec(), SAMPLE.to_vec());
}

#[test]
fn simple_text_decodes() {
    let value = AnyValueKind::Text("00112233445566778899aabbccddeeff".to_owned());
    let u = <Uuid as Decode>::decode(&value).unwrap();
    assert_eq!(u.as_bytes_vec(), SAMPLE.to_vec());
}

#[test]
fn upper_case_text_decodes() {
    let value = AnyValueKind::Text("00112233-4455-6677-8899-AABBCCDDEEFF".to_owned());
    let u = <Uuid as Decode>::decode(&value).unwrap();
    assert_eq!(u.as_bytes_vec(), SAMPLE.to_vec());
}

#[test]
fn text_with_wrong_hyphen_positions_rejected() {
    let value = AnyValueKind::Text("001122334455-6677-8899-aabbccddeeff-".to_owned());
    assert!(matches!(
        <Uuid as Decode>::decode(&value),
        Err(Error::ConversionError { .. })
    ));
}

#[test]
fn from_slice_needs_sixteen_bytes() {
    assert!(matches!(
        Uuid::from_slice(&[0u8; 15]),
        Err(Error::ConversionError { .. })
    ));
    assert!(matches!(
        Uuid::from_slice(&[0u8; 17]),
        Err(Error::ConversionError { .. })
    ));
    assert!(Uuid::from_slice(&[0u8; 16]).is_ok());
}

#[test]
fn renders_hyphenated_text() {
    let h = sample_uuid().hyphenated();
    assert_eq!(h.to_text(), "00112233-4455-6677-8899-aabbccddeeff");
}

#[test]
fn renders_simple_text() {
    let s = sample_uuid().simple();
    assert_eq!(s.to_text(), "00112233445566778899aabbccddeeff");
}

#[test]
fn compatibility_is_asymmetric_for_binary() {
    let blob = AnyTypeInfo { kind: AnyTypeInfoKind::Blob };
    let text = AnyTypeInfo { kind: AnyTypeInfoKind::Text };
    let uuid = AnyTypeInfo { kind: AnyTypeInfoKind::Uuid };
    assert!(<Uuid as Type>::compatible(&blob));
    assert!(<Uuid as Type>::compatible(&text));
    assert!(!<Uuid as Type>::compatible(&uuid));
    assert_eq!(<Uuid as Type>::type_info().kind, AnyTypeInfoKind::Uuid);
}

#[test]
fn text_representations_accept_only_their_produce_kind() {
    let blob = AnyTypeInfo { kind: AnyTypeInfoKind::Blob };
    let text = AnyTypeInfo { kind: AnyTypeInfoKind::Text };
    let uuid = AnyTypeInfo { kind: AnyTypeInfoKind::Uuid };
    assert!(!<Hyphenated as Type>::compatible(&blob));
    assert!(!<Hyphenated as Type>::compatible(&text));
    assert!(<Hyphenated as Type>::compatible(&uuid));
    assert!(!<Simple as Type>::compatible(&blob));
    assert!(!<Simple as Type>::compatible(&text));
    assert!(<Simple as Type>::compatible(&uuid));
    assert_eq!(<Hyphenated as Type>::type_info().kind, AnyTypeInfoKind::Uuid);
    assert_eq!(<Simple as Type>::type_info().kind, AnyTypeInfoKind::Uuid);
}

#[test]
fn value_kind_tags() {
    assert_eq!(AnyValueKind::Blob(vec![]).kind(), AnyTypeInfoKind::Blob);
    assert_eq!(AnyValueKind::Text(String::new()).kind(), AnyTypeInfoKind::Text);
    assert_eq!(AnyValueKind::Uuid(sample_uuid()).kind(), AnyTypeInfoKind::Uuid);
}
