use classfile::read_constant_pool_item;
use classfile::read_from;
use classfile::ClassFile;
use classfile::ClassFileVersion;
use classfile::ConstantPoolItem;
use classfile::ConstantPoolItemTag;
use classfile::Error;
use classfile::Reader;

#[test]
fn test_invalid_magic() {
    let bytes = vec![0u8, 0u8, 0u8, 0u8];
    let result = read_from(&bytes);
    assert!(matches!(result.unwrap_err(), Error::InvalidMagic([0u8, 0u8, 0u8, 0u8])));
}

#[test]
fn test_valid_magic() {
    let bytes = vec![0xCA, 0xFE, 0xBA, 0xBE, 0u8, 10u8, 0u8, 10u8, 0u8, 0u8];
    let result = read_from(&bytes);
    assert_eq!(
        result.unwrap(),
        ClassFile { version: ClassFileVersion(10, 10), constant_pool: Vec::new() }
    );
}

#[test]
fn minimal_header_with_count_one() {
    // A count field of 1 declares zero logical slots: an empty pool.
    let bytes = vec![0xCA, 0xFE, 0xBA, 0xBE, 0, 10, 0, 10, 0, 1];
    let class_file = read_from(&bytes).unwrap();
    assert_eq!(class_file.version, ClassFileVersion(10, 10));
    assert!(class_file.constant_pool.is_empty());
}

#[test]
fn invalid_magic_reports_observed_bytes() {
    // The error carries the four bytes observed, not the expected magic,
    // whatever follows them in the stream.
    let bytes = vec![0xCA, 0xFE, 0xBA, 0xBF, 0, 10, 0, 10, 0, 1, 99, 99];
    assert!(matches!(read_from(&bytes).unwrap_err(), Error::InvalidMagic([0xCA, 0xFE, 0xBA, 0xBF])));
}

#[test]
fn round_trip_integer_constant() {
    // Magic, minor=10, major=10, count=2 (one slot), tag=Integer, value=42.
    let bytes = vec![0xCA, 0xFE, 0xBA, 0xBE, 0x00, 0x0A, 0x00, 0x0A, 0x00, 0x02, 0x03, 0x00, 0x00, 0x00, 0x2A];
    let class_file = read_from(&bytes).unwrap();
    assert_eq!(class_file.version, ClassFileVersion(10, 10));
    assert_eq!(class_file.constant_pool, vec![ConstantPoolItem::Integer(42)]);
}

#[test]
fn double_entry_fills_two_slots() {
    // count=3 declares two logical slots; a single Double entry fills both,
    // so the parse ends after exactly one decoded item.
    let bytes = vec![
        0xCA, 0xFE, 0xBA, 0xBE, 0, 0, 0, 55, 0, 3, // header, count=3
        6, 0x40, 0x00, 0x00, 0x00, 0x00, 0x00, 0x00, 0x00, // Double 2.0
    ];
    let class_file = read_from(&bytes).unwrap();
    assert_eq!(class_file.constant_pool, vec![ConstantPoolItem::Double(0x4000_0000_0000_0000)]);
    match &class_file.constant_pool[0] {
        ConstantPoolItem::Double(bits) => assert_eq!(f64::from_bits(*bits), 2.0),
        other => panic!("expected a Double entry, got {other:?}"),
    }
}

#[test]
fn long_entry_fills_two_slots() {
    let bytes = vec![
        0xCA, 0xFE, 0xBA, 0xBE, 0, 0, 0, 55, 0, 3, // header, count=3
        5, 0xFF, 0xFF, 0xFF, 0xFF, 0xFF, 0xFF, 0xFF, 0xFE, // Long -2
    ];
    let class_file = read_from(&bytes).unwrap();
    assert_eq!(class_file.constant_pool, vec![ConstantPoolItem::Long(-2)]);
}

#[test]
fn negative_integer_entry() {
    let bytes = vec![
        0xCA, 0xFE, 0xBA, 0xBE, 0, 0, 0, 55, 0, 2, // header, count=2
        3, 0xFF, 0xFF, 0xFF, 0xFF, // Integer -1
    ];
    let class_file = read_from(&bytes).unwrap();
    assert_eq!(class_file.constant_pool, vec![ConstantPoolItem::Integer(-1)]);
}

#[test]
fn float_entry_holds_ieee_bits() {
    let bytes = vec![
        0xCA, 0xFE, 0xBA, 0xBE, 0, 0, 0, 55, 0, 2, // header, count=2
        4, 0x3F, 0x80, 0x00, 0x00, // Float 1.0
    ];
    let class_file = read_from(&bytes).unwrap();
    assert_eq!(class_file.constant_pool, vec![ConstantPoolItem::Float(0x3F80_0000)]);
    match &class_file.constant_pool[0] {
        ConstantPoolItem::Float(bits) => assert_eq!(f32::from_bits(*bits), 1.0),
        other => panic!("expected a Float entry, got {other:?}"),
    }
}

#[test]
fn utf8_entry_ascii() {
    let bytes = vec![
        0xCA, 0xFE, 0xBA, 0xBE, 0, 0, 0, 55, 0, 2, // header, count=2
        1, 0, 5, b'h', b'e', b'l', b'l', b'o', // Utf8 "hello"
    ];
    let class_file = read_from(&bytes).unwrap();
    assert_eq!(class_file.constant_pool, vec![ConstantPoolItem::Utf8(String::from("hello"))]);
}

#[test]
fn utf8_entry_multibyte() {
    // A two-byte UTF-8 sequence decodes to a single character, so the decoded
    // text differs from the raw payload bytes.
    let bytes = vec![
        0xCA, 0xFE, 0xBA, 0xBE, 0, 0, 0, 55, 0, 2, // header, count=2
        1, 0, 2, 0xC3, 0xA9, // Utf8 "\u{e9}"
    ];
    let class_file = read_from(&bytes).unwrap();
    match &class_file.constant_pool[0] {
        ConstantPoolItem::Utf8(text) => {
            assert_eq!(text, "\u{e9}");
            assert_eq!(text.chars().count(), 1);
        }
        other => panic!("expected a Utf8 entry, got {other:?}"),
    }
}

#[test]
fn utf8_entry_invalid_payload() {
    // Length prefix 5, but the payload is five lone continuation bytes.
    let bytes = vec![
        0xCA, 0xFE, 0xBA, 0xBE, 0, 0, 0, 55, 0, 2, // header, count=2
        1, 0, 5, 0x80, 0x80, 0x80, 0x80, 0x80, // Utf8 with invalid payload
    ];
    match read_from(&bytes).unwrap_err() {
        Error::Utf8DecodeError(payload) => assert_eq!(payload, vec![0x80u8; 5]),
        other => panic!("expected a UTF-8 decode error, got {other:?}"),
    }
}

#[test]
fn utf8_length_prefix_past_end_of_stream() {
    // The length prefix is trusted as-is: a prefix that runs past the end of
    // the stream surfaces as an exhausted-stream error.
    let bytes = vec![
        0xCA, 0xFE, 0xBA, 0xBE, 0, 0, 0, 55, 0, 2, // header, count=2
        1, 0, 5, b'h', b'i', // Utf8 claiming 5 bytes, holding 2
    ];
    assert!(matches!(read_from(&bytes).unwrap_err(), Error::IoError));
}

#[test]
fn unrecognized_tag_zero() {
    let bytes = vec![
        0xCA, 0xFE, 0xBA, 0xBE, 0, 0, 0, 55, 0, 2, // header, count=2
        0, 0, 0, 0, 42, // unrecognized tag 0, then plausible bytes
    ];
    assert!(matches!(read_from(&bytes).unwrap_err(), Error::InvalidConstantPoolItemTag(0)));
}

#[test]
fn unrecognized_tag_nineteen() {
    // The tag is rejected even though the bytes after it would parse as a
    // valid Integer entry.
    let bytes = vec![
        0xCA, 0xFE, 0xBA, 0xBE, 0, 0, 0, 55, 0, 3, // header, count=3
        19, 3, 0, 0, 0, 42, // unrecognized tag 19, then Integer 42
    ];
    assert!(matches!(read_from(&bytes).unwrap_err(), Error::InvalidConstantPoolItemTag(19)));
}

#[test]
fn truncated_streams_fail_with_io_error() {
    assert!(matches!(read_from(&[]).unwrap_err(), Error::IoError));
    assert!(matches!(read_from(&[0xCA, 0xFE]).unwrap_err(), Error::IoError));
    assert!(matches!(read_from(&[0xCA, 0xFE, 0xBA, 0xBE, 0, 10]).unwrap_err(), Error::IoError));
    // Header complete, but the declared Integer entry is cut short.
    let bytes = vec![0xCA, 0xFE, 0xBA, 0xBE, 0, 10, 0, 10, 0, 2, 3, 0, 0];
    assert!(matches!(read_from(&bytes).unwrap_err(), Error::IoError));
}

#[test]
fn unsupported_entries_consume_their_payload() {
    // A Class entry is materialized as Unsupported, but its two payload bytes
    // are consumed, so the Integer entry after it decodes correctly.
    let bytes = vec![
        0xCA, 0xFE, 0xBA, 0xBE, 0, 0, 0, 55, 0, 3, // header, count=3
        7, 0, 1, // Class entry, name index 1
        3, 0, 0, 0, 42, // Integer 42
    ];
    let class_file = read_from(&bytes).unwrap();
    assert_eq!(
        class_file.constant_pool,
        vec![ConstantPoolItem::Unsupported, ConstantPoolItem::Integer(42)]
    );
}

#[test]
fn method_handle_entry_consumes_three_bytes() {
    let bytes = vec![
        0xCA, 0xFE, 0xBA, 0xBE, 0, 0, 0, 55, 0, 3, // header, count=3
        15, 6, 0, 9, // MethodHandle entry: kind 6, index 9
        3, 0, 0, 0, 7, // Integer 7
    ];
    let class_file = read_from(&bytes).unwrap();
    assert_eq!(
        class_file.constant_pool,
        vec![ConstantPoolItem::Unsupported, ConstantPoolItem::Integer(7)]
    );
}

#[test]
fn reference_entries_consume_four_bytes() {
    let bytes = vec![
        0xCA, 0xFE, 0xBA, 0xBE, 0, 0, 0, 55, 0, 4, // header, count=4
        10, 0, 1, 0, 2, // MethodRef entry: class 1, name-and-type 2
        12, 0, 3, 0, 4, // NameAndType entry: name 3, descriptor 4
        8, 0, 5, // String entry: index 5
    ];
    let class_file = read_from(&bytes).unwrap();
    assert_eq!(
        class_file.constant_pool,
        vec![
            ConstantPoolItem::Unsupported,
            ConstantPoolItem::Unsupported,
            ConstantPoolItem::Unsupported
        ]
    );
}

#[test]
fn decoding_is_deterministic() {
    let ok_bytes = vec![
        0xCA, 0xFE, 0xBA, 0xBE, 0, 0, 0, 55, 0, 2, 1, 0, 3, b'a', b'b', b'c',
    ];
    assert_eq!(read_from(&ok_bytes), read_from(&ok_bytes));
    let err_bytes = vec![1, 2, 3, 4, 5];
    assert_eq!(read_from(&err_bytes), read_from(&err_bytes));
}

#[test]
fn tag_conversions_are_inverse() {
    let pairs = [
        (1u8, ConstantPoolItemTag::Utf8),
        (3, ConstantPoolItemTag::Integer),
        (4, ConstantPoolItemTag::Float),
        (5, ConstantPoolItemTag::Long),
        (6, ConstantPoolItemTag::Double),
        (7, ConstantPoolItemTag::Class),
        (8, ConstantPoolItemTag::String),
        (9, ConstantPoolItemTag::FieldRef),
        (10, ConstantPoolItemTag::MethodRef),
        (11, ConstantPoolItemTag::InterfaceMethodRef),
        (12, ConstantPoolItemTag::NameAndType),
        (15, ConstantPoolItemTag::MethodHandle),
        (16, ConstantPoolItemTag::MethodType),
        (18, ConstantPoolItemTag::InvokeDynamic),
    ];
    for (byte, tag) in pairs {
        assert_eq!(ConstantPoolItemTag::try_from_u8(byte).unwrap(), tag);
        assert_eq!(tag.as_u8(), byte);
    }
    for byte in [0u8, 2, 13, 14, 17, 19, 20, 100, 255] {
        assert!(matches!(
            ConstantPoolItemTag::try_from_u8(byte).unwrap_err(),
            Error::InvalidConstantPoolItemTag(b) if b == byte
        ));
    }
}

#[test]
fn is_8byte_holds_exactly_for_long_and_double() {
    assert!(ConstantPoolItem::Long(0).is_8byte());
    assert!(ConstantPoolItem::Double(0).is_8byte());
    assert!(!ConstantPoolItem::Utf8(String::new()).is_8byte());
    assert!(!ConstantPoolItem::Integer(0).is_8byte());
    assert!(!ConstantPoolItem::Float(0).is_8byte());
    assert!(!ConstantPoolItem::Unsupported.is_8byte());
}

#[test]
fn reader_decodes_big_endian_primitives() {
    let bytes = vec![
        0x12, 0x34, // u16
        0xFF, 0xFF, 0xFF, 0xFF, // i32 -1
        0x80, 0x00, 0x00, 0x00, 0x00, 0x00, 0x00, 0x00, // i64 minimum
        0xAB, // u8
    ];
    let mut reader = Reader::new(&bytes);
    assert_eq!(reader.read_u16().unwrap(), 0x1234);
    assert_eq!(reader.read_i32().unwrap(), -1);
    assert_eq!(reader.read_i64().unwrap(), i64::MIN);
    assert_eq!(reader.read_u8().unwrap(), 0xAB);
    assert!(matches!(reader.read_u8().unwrap_err(), Error::IoError));
}

#[test]
fn single_entry_decodes_from_reader() {
    let bytes = vec![3, 0, 0, 0, 42];
    let mut reader = Reader::new(&bytes);
    assert_eq!(read_constant_pool_item(&mut reader).unwrap(), ConstantPoolItem::Integer(42));
}
