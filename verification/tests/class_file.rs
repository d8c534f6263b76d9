use classvm::class::simple_loader::attribute_info::{
    Attribute, AttributeInfo, SourceFileAttribute,
};
use classvm::class::simple_loader::class_reader::{decode, ClassFile, ClassReader, MemberInfo};
use classvm::class::simple_loader::constant_pool::ConstantPool;
use classvm::error::DecodeError;

const HEADER: [u8; 10] = [0xCA, 0xFE, 0xBA, 0xBE, 0x00, 0x00, 0x00, 0x34, 0x00, 0x01];

/// magic, version 52.0, a pool with "SourceFile" at 1 and "Main.java" at 2,
/// one interface, one field with one attribute, no methods, one attribute.
fn small_class() -> Vec<u8> {
    let mut bytes = vec![0xCA, 0xFE, 0xBA, 0xBE, 0x00, 0x03, 0x00, 0x34, 0x00, 0x03];
    bytes.extend_from_slice(&[1, 0, 10]);
    bytes.extend_from_slice(b"SourceFile");
    bytes.extend_from_slice(&[1, 0, 9]);
    bytes.extend_from_slice(b"Main.java");
    bytes.extend_from_slice(&[0x00, 0x21, 0x00, 0x05, 0x00, 0x06]);
    bytes.extend_from_slice(&[0x00, 0x01, 0x00, 0x07]);
    bytes.extend_from_slice(&[0x00, 0x01, 0x00, 0x02, 0x00, 0x08, 0x00, 0x09, 0x00, 0x01]);
    bytes.extend_from_slice(&[0x00, 0x01, 0, 0, 0, 2, 0x00, 0x02]);
    bytes.extend_from_slice(&[0x00, 0x00]);
    bytes.extend_from_slice(&[0x00, 0x01, 0x00, 0x01, 0, 0, 0, 2, 0x00, 0x02]);
    bytes
}

#[test]
fn header_and_empty_pool() {
    let mut reader = ClassReader::new(HEADER.to_vec());
    assert_eq!(reader.read_u32(), Ok(0xCAFEBABE));
    assert_eq!(reader.read_u16(), Ok(0));
    assert_eq!(reader.read_u16(), Ok(52));
    let pool = ConstantPool::new(&mut reader).unwrap();
    assert_eq!(pool.len(), 1);
    assert!(pool.get(0).is_none());
    assert_eq!(reader.remaining(), 0);
    // the header alone is no whole class, but its magic number is accepted
    assert_eq!(decode(HEADER.to_vec()), Err(DecodeError::TruncatedInput));
}

#[test]
fn minimal_class_decodes() {
    let mut bytes = HEADER.to_vec();
    bytes.extend_from_slice(&[0x00, 0x21, 0x00, 0x00, 0x00, 0x00, 0, 0, 0, 0, 0, 0, 0, 0]);
    let class = decode(bytes).unwrap();
    assert_eq!(class.minor_version, 0);
    assert_eq!(class.major_version, 52);
    assert_eq!(class.constant_pool.len(), 1);
    assert_eq!(class.access_flags, 0x21);
    assert_eq!(class.this_class, 0);
    assert_eq!(class.super_class, 0);
    assert!(class.interfaces.is_empty());
    assert!(class.fields.is_empty());
    assert!(class.methods.is_empty());
    assert!(class.attributes.is_empty());
}

#[test]
fn small_class_decodes_field_by_field() {
    let bytes = small_class();
    let len = bytes.len();
    let mut reader = ClassReader::new(bytes);
    let class = ClassFile::new(&mut reader).unwrap();
    assert_eq!(reader.offset(), len);
    assert_eq!(class.minor_version, 3);
    assert_eq!(class.major_version, 52);
    assert_eq!(class.constant_pool.get_utf8(2).unwrap().get_str(), "Main.java");
    assert_eq!(class.access_flags, 0x21);
    assert_eq!(class.this_class, 5);
    assert_eq!(class.super_class, 6);
    assert_eq!(class.interfaces, vec![7]);
    let source_file = || Attribute {
        name_index: 1,
        info: AttributeInfo::SourceFile(SourceFileAttribute { source_file_index: 2 }),
    };
    assert_eq!(
        class.fields,
        vec![MemberInfo {
            access_flags: 2,
            name_index: 8,
            descriptor_index: 9,
            attributes: vec![source_file()]
        }]
    );
    assert!(class.methods.is_empty());
    assert_eq!(class.attributes, vec![source_file()]);
}

#[test]
fn bytes_after_the_class_are_left_unread() {
    let mut bytes = small_class();
    let len = bytes.len();
    bytes.extend_from_slice(&[1, 2, 3]);
    let mut reader = ClassReader::new(bytes.clone());
    let class = ClassFile::new(&mut reader).unwrap();
    assert_eq!(reader.offset(), len);
    assert_eq!(reader.remaining(), 3);
    assert_eq!(class, decode(small_class()).unwrap());
}

#[test]
fn bad_magic_is_a_malformed_header() {
    assert_eq!(decode(vec![0xCA, 0xFE, 0xBA, 0xBF, 0, 0, 0, 52, 0, 1]), Err(DecodeError::MalformedHeader));
    assert_eq!(decode(vec![0xBE, 0xBA, 0xFE, 0xCA]), Err(DecodeError::MalformedHeader));
    assert_eq!(decode(vec![0, 0, 0, 0]), Err(DecodeError::MalformedHeader));
}

#[test]
fn every_cut_of_a_class_is_truncated() {
    let bytes = small_class();
    for cut in 0..bytes.len() {
        assert_eq!(decode(bytes[..cut].to_vec()), Err(DecodeError::TruncatedInput), "cut at {}", cut);
    }
    assert!(decode(bytes).is_ok());
}

#[test]
fn errors_inside_the_class_surface() {
    let mut bad_tag = small_class();
    bad_tag[10] = 2;
    assert_eq!(decode(bad_tag), Err(DecodeError::UnknownConstantTag(2)));
    let mut bad_text = small_class();
    bad_text[13] = 0xFF;
    assert_eq!(decode(bad_text), Err(DecodeError::MalformedStringEncoding));
    let mut bad_name = small_class();
    let at = bad_name.len() - 7;
    bad_name[at] = 9;
    assert_eq!(decode(bad_name), Err(DecodeError::InvalidNameIndex(9)));
    let mut long_payload = small_class();
    let at = long_payload.len() - 3;
    long_payload[at] = 3;
    long_payload.push(0);
    assert_eq!(decode(long_payload), Err(DecodeError::AttributeLengthMismatch));
}

#[test]
fn members_read_in_order() {
    let mut reader = ClassReader::new(HEADER[8..].to_vec());
    let pool = ConstantPool::new(&mut reader).unwrap();
    let mut members = ClassReader::new(vec![0, 2, 0, 1, 0, 2, 0, 3, 0, 0, 0, 4, 0, 5, 0, 6, 0, 0]);
    assert_eq!(
        MemberInfo::read_members(&mut members, &pool),
        Ok(vec![
            MemberInfo { access_flags: 1, name_index: 2, descriptor_index: 3, attributes: vec![] },
            MemberInfo { access_flags: 4, name_index: 5, descriptor_index: 6, attributes: vec![] },
        ])
    );
    let mut one = ClassReader::new(vec![0, 1, 0, 2, 0, 3, 0, 0]);
    assert_eq!(
        MemberInfo::new(&mut one, &pool),
        Ok(MemberInfo { access_flags: 1, name_index: 2, descriptor_index: 3, attributes: vec![] })
    );
    let mut short = ClassReader::new(vec![0, 1, 0, 2, 0, 3, 0]);
    assert_eq!(MemberInfo::new(&mut short, &pool), Err(DecodeError::TruncatedInput));
}
