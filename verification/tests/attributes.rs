use classvm::class::simple_loader::attribute_info::{
    read_attribute_info, read_attribute_info_vec, Attribute, AttributeInfo, CodeAttribute,
    ConstantValueAttribute, ExceptionTableEntry, ExceptionsAttribute, InnerClassesAttribute,
    InnerClassesEntry, LineNumberTableAttribute, LineNumberTableEntry,
    LocalVariableTableAttribute, LocalVariableTableEntry, SignatureAttribute,
    SourceFileAttribute, StackMapTableAttribute, UnknownAttributeInfo,
};
use classvm::class::simple_loader::class_reader::ClassReader;
use classvm::class::simple_loader::constant_pool::ConstantPool;
use classvm::error::DecodeError;

const NAMES: [&str; 10] = [
    "Code",
    "ConstantValue",
    "Exceptions",
    "InnerClasses",
    "Signature",
    "StackMapTable",
    "LineNumberTable",
    "LocalVariableTable",
    "SourceFile",
    "Bogus",
];

/// A pool with the names above at indices 1 to 10, and an integer at 11.
fn names_pool() -> ConstantPool {
    let mut bytes: Vec<u8> = vec![0x00, 0x0C];
    for name in NAMES {
        bytes.push(1);
        bytes.push(0);
        bytes.push(name.len() as u8);
        bytes.extend_from_slice(name.as_bytes());
    }
    bytes.extend_from_slice(&[3, 0, 0, 0, 1]);
    let mut reader = ClassReader::new(bytes);
    ConstantPool::new(&mut reader).unwrap()
}

fn record(name_index: u16, payload: &[u8]) -> Vec<u8> {
    let mut bytes = name_index.to_be_bytes().to_vec();
    bytes.extend_from_slice(&(payload.len() as u32).to_be_bytes());
    bytes.extend_from_slice(payload);
    bytes
}

fn decode_one(name_index: u16, payload: &[u8]) -> Result<Attribute, DecodeError> {
    let pool = names_pool();
    let bytes = record(name_index, payload);
    let len = bytes.len();
    let mut reader = ClassReader::new(bytes);
    let r = read_attribute_info(&mut reader, &pool);
    if r.is_ok() {
        assert_eq!(reader.offset(), len);
    }
    r
}

#[test]
fn empty_code_attribute() {
    let payload = [0x00, 0x02, 0x00, 0x01, 0, 0, 0, 0, 0x00, 0x00, 0x00, 0x00];
    let attribute = decode_one(1, &payload).unwrap();
    assert_eq!(attribute.name_index, 1);
    assert_eq!(attribute.info.get_name(), "Code");
    match attribute.info {
        AttributeInfo::Code(code) => {
            assert_eq!(code.max_stack, 2);
            assert_eq!(code.max_locals, 1);
            assert!(code.code.is_empty());
            assert!(code.exception_table.is_empty());
            assert!(code.attributes.is_empty());
            assert_eq!(code.get_name(), "Code");
        }
        other => panic!("not a Code attribute: {:?}", other),
    }
}

#[test]
fn unknown_attribute_keeps_name_and_bytes() {
    let pool = names_pool();
    let mut bytes = vec![0x00, 0x02];
    bytes.extend(record(10, &[0xAA, 0xBB, 0xCC]));
    bytes.extend(record(9, &[0x00, 0x07]));
    let mut reader = ClassReader::new(bytes);
    let list = read_attribute_info_vec(&mut reader, &pool).unwrap();
    assert_eq!(list.len(), 2);
    assert_eq!(
        list[0],
        Attribute {
            name_index: 10,
            info: AttributeInfo::Unknown(UnknownAttributeInfo {
                name: "Bogus".to_string(),
                data: vec![0xAA, 0xBB, 0xCC]
            })
        }
    );
    assert_eq!(list[0].info.get_name(), "Bogus");
    assert_eq!(
        list[1],
        Attribute {
            name_index: 9,
            info: AttributeInfo::SourceFile(SourceFileAttribute { source_file_index: 7 })
        }
    );
    assert_eq!(reader.remaining(), 0);
}

#[test]
fn full_code_attribute_with_nested_attributes() {
    let mut payload = vec![0x00, 0x03, 0x00, 0x02, 0, 0, 0, 2, 0x1A, 0x2A];
    payload.extend_from_slice(&[0x00, 0x01, 0, 1, 0, 2, 0, 3, 0, 4]);
    payload.extend_from_slice(&[0x00, 0x02]);
    payload.extend(record(7, &[0x00, 0x01, 0x00, 0x00, 0x00, 0x09]));
    payload.extend(record(8, &[0x00, 0x01, 0, 0, 0, 2, 0, 5, 0, 6, 0, 1]));
    let attribute = decode_one(1, &payload).unwrap();
    assert_eq!(
        attribute.info,
        AttributeInfo::Code(CodeAttribute {
            max_stack: 3,
            max_locals: 2,
            code: vec![0x1A, 0x2A],
            exception_table: vec![ExceptionTableEntry {
                start_pc: 1,
                end_pc: 2,
                handler_pc: 3,
                catch_type: 4
            }],
            attributes: vec![
                Attribute {
                    name_index: 7,
                    info: AttributeInfo::LineNumberTable(LineNumberTableAttribute {
                        line_number_entries: vec![LineNumberTableEntry { start_pc: 0, line_number: 9 }]
                    })
                },
                Attribute {
                    name_index: 8,
                    info: AttributeInfo::LocalVariableTable(LocalVariableTableAttribute {
                        local_var_table_entries: vec![LocalVariableTableEntry {
                            start_pc: 0,
                            length: 2,
                            name_index: 5,
                            descriptor_index: 6,
                            index: 1
                        }]
                    })
                },
            ],
        })
    );
}

#[test]
fn code_nested_in_code_is_decoded() {
    let inner = [0x00, 0x01, 0x00, 0x01, 0, 0, 0, 0, 0x00, 0x00, 0x00, 0x00];
    let mut payload = vec![0x00, 0x02, 0x00, 0x02, 0, 0, 0, 0, 0x00, 0x00, 0x00, 0x01];
    payload.extend(record(1, &inner));
    match decode_one(1, &payload).unwrap().info {
        AttributeInfo::Code(code) => match &code.attributes[0].info {
            AttributeInfo::Code(nested) => assert_eq!(nested.max_stack, 1),
            other => panic!("not a Code attribute: {:?}", other),
        },
        other => panic!("not a Code attribute: {:?}", other),
    }
}

#[test]
fn each_known_kind_is_decoded() {
    assert_eq!(
        decode_one(2, &[0x12, 0x34]).unwrap().info,
        AttributeInfo::ConstantValue(ConstantValueAttribute { constant_value_index: 0x1234 })
    );
    assert_eq!(
        decode_one(3, &[0, 2, 0, 5, 0, 6]).unwrap().info,
        AttributeInfo::Exceptions(ExceptionsAttribute { exception_index_table: vec![5, 6] })
    );
    assert_eq!(
        decode_one(4, &[0, 1, 0, 1, 0, 2, 0, 3, 0, 4]).unwrap().info,
        AttributeInfo::InnerClasses(InnerClassesAttribute {
            classes: vec![InnerClassesEntry {
                inner_class_info_index: 1,
                outer_class_info_index: 2,
                inner_name_index: 3,
                inner_class_access_flags: 4
            }]
        })
    );
    assert_eq!(
        decode_one(5, &[0, 9]).unwrap().info,
        AttributeInfo::Signature(SignatureAttribute { signature_index: 9 })
    );
    assert_eq!(
        decode_one(6, &[1, 2, 3, 4, 5]).unwrap().info,
        AttributeInfo::StackMapTable(StackMapTableAttribute { data: vec![1, 2, 3, 4, 5] })
    );
    assert_eq!(
        decode_one(7, &[0, 0]).unwrap().info,
        AttributeInfo::LineNumberTable(LineNumberTableAttribute { line_number_entries: vec![] })
    );
    assert_eq!(
        decode_one(8, &[0, 0]).unwrap().info,
        AttributeInfo::LocalVariableTable(LocalVariableTableAttribute {
            local_var_table_entries: vec![]
        })
    );
    for name in NAMES {
        assert_eq!(AttributeInfo::for_name(&name.to_string()).get_name(), name);
    }
    assert_eq!(
        AttributeInfo::for_name(&"code".to_string()),
        AttributeInfo::Unknown(UnknownAttributeInfo { name: "code".to_string(), data: vec![] })
    );
}

#[test]
fn payload_longer_than_its_fields_is_rejected() {
    assert_eq!(decode_one(2, &[0, 1, 0]), Err(DecodeError::AttributeLengthMismatch));
    assert_eq!(decode_one(5, &[0, 1, 0, 0]), Err(DecodeError::AttributeLengthMismatch));
    assert_eq!(decode_one(9, &[0, 1, 9]), Err(DecodeError::AttributeLengthMismatch));
    assert_eq!(decode_one(3, &[0, 1, 0, 5, 0]), Err(DecodeError::AttributeLengthMismatch));
    assert_eq!(decode_one(4, &[0, 0, 0]), Err(DecodeError::AttributeLengthMismatch));
    assert_eq!(decode_one(7, &[0, 0, 1]), Err(DecodeError::AttributeLengthMismatch));
    assert_eq!(decode_one(8, &[0, 0, 1]), Err(DecodeError::AttributeLengthMismatch));
    assert_eq!(
        decode_one(1, &[0, 2, 0, 1, 0, 0, 0, 0, 0, 0, 0, 0, 0xFF]),
        Err(DecodeError::AttributeLengthMismatch)
    );
}

#[test]
fn payload_shorter_than_its_fields_is_rejected() {
    assert_eq!(decode_one(2, &[0]), Err(DecodeError::TruncatedInput));
    assert_eq!(decode_one(2, &[]), Err(DecodeError::TruncatedInput));
    assert_eq!(decode_one(3, &[0, 2, 0, 5]), Err(DecodeError::TruncatedInput));
    assert_eq!(decode_one(4, &[0, 1, 0, 1, 0, 2, 0, 3, 0]), Err(DecodeError::TruncatedInput));
    assert_eq!(decode_one(7, &[0, 1, 0, 0, 0]), Err(DecodeError::TruncatedInput));
    assert_eq!(decode_one(8, &[0, 1, 0, 0, 0, 2, 0, 5, 0, 6, 0]), Err(DecodeError::TruncatedInput));
    assert_eq!(decode_one(1, &[0, 2, 0, 1, 0, 0, 0, 1]), Err(DecodeError::TruncatedInput));
    assert_eq!(decode_one(1, &[0, 2, 0, 1, 0, 0, 0, 0, 0, 1]), Err(DecodeError::TruncatedInput));
    assert_eq!(decode_one(1, &[0, 2, 0, 1, 0, 0, 0, 0, 0, 0]), Err(DecodeError::TruncatedInput));
}

#[test]
fn name_index_must_select_a_utf8_constant() {
    assert_eq!(decode_one(0, &[0, 1]), Err(DecodeError::InvalidNameIndex(0)));
    assert_eq!(decode_one(11, &[0, 1]), Err(DecodeError::InvalidNameIndex(11)));
    assert_eq!(decode_one(12, &[0, 1]), Err(DecodeError::InvalidNameIndex(12)));
    assert_eq!(decode_one(500, &[0, 1]), Err(DecodeError::InvalidNameIndex(500)));
}

#[test]
fn truncated_attribute_record_is_fatal() {
    let pool = names_pool();
    for bytes in [vec![], vec![0], vec![0, 10], vec![0, 10, 0, 0, 0], vec![0, 10, 0, 0, 0, 2, 1]] {
        let mut reader = ClassReader::new(bytes);
        assert_eq!(read_attribute_info(&mut reader, &pool), Err(DecodeError::TruncatedInput));
    }
    let mut list = ClassReader::new(vec![0, 2, 0, 10, 0, 0, 0, 0]);
    assert_eq!(read_attribute_info_vec(&mut list, &pool), Err(DecodeError::TruncatedInput));
    let mut none = ClassReader::new(vec![0]);
    assert_eq!(read_attribute_info_vec(&mut none, &pool), Err(DecodeError::TruncatedInput));
}

#[test]
fn exception_table_reads_in_order() {
    let mut reader = ClassReader::new(vec![0, 2, 0, 1, 0, 2, 0, 3, 0, 4, 0, 5, 0, 6, 0, 7, 0, 8, 9]);
    assert_eq!(
        CodeAttribute::read_exception_table(&mut reader),
        Ok(vec![
            ExceptionTableEntry { start_pc: 1, end_pc: 2, handler_pc: 3, catch_type: 4 },
            ExceptionTableEntry { start_pc: 5, end_pc: 6, handler_pc: 7, catch_type: 8 },
        ])
    );
    assert_eq!(reader.offset(), 18);
    let mut short = ClassReader::new(vec![0, 1, 0, 1, 0, 2, 0, 3, 0]);
    assert_eq!(CodeAttribute::read_exception_table(&mut short), Err(DecodeError::TruncatedInput));
}

#[test]
fn failed_read_keeps_the_attribute() {
    let pool = names_pool();
    let mut info = AttributeInfo::Signature(SignatureAttribute { signature_index: 3 });
    assert_eq!(info.read_data(vec![1], &pool), Err(DecodeError::TruncatedInput));
    assert_eq!(info, AttributeInfo::Signature(SignatureAttribute { signature_index: 3 }));
    assert_eq!(info.read_data(vec![0, 8], &pool), Ok(()));
    assert_eq!(info, AttributeInfo::Signature(SignatureAttribute { signature_index: 8 }));
}
