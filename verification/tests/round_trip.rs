use classvm::class::simple_loader::attribute_info::{
    Attribute, AttributeInfo, CodeAttribute, ExceptionTableEntry, ExceptionsAttribute,
    InnerClassesAttribute, InnerClassesEntry, LineNumberTableAttribute, LineNumberTableEntry,
    LocalVariableTableAttribute, LocalVariableTableEntry, StackMapTableAttribute,
    UnknownAttributeInfo,
};
use classvm::class::simple_loader::class_reader::{decode, ClassFile, ClassReader, MemberInfo};
use classvm::class::simple_loader::class_writer::{
    write_attribute_list, write_bytes, write_exception_table, write_inner_classes,
    write_line_number_table, write_local_variable_table, write_members, write_pool, write_u16,
    write_u16_list, write_u32, write_u64, write_u8,
};
use classvm::class::simple_loader::constant_pool::{ConstantInfo, ConstantPool, ConstantUTF8Info};

const NAMES: [&str; 10] = [
    "Code",
    "ConstantValue",
    "Exceptions",
    "InnerClasses",
    "Signature",
    "StackMapTable",
    "LineNumberTable",
    "LocalVariableTable",
    "SourceFile",
    "Later",
];

fn record(name_index: u16, payload: &[u8]) -> Vec<u8> {
    let mut bytes = name_index.to_be_bytes().to_vec();
    bytes.extend_from_slice(&(payload.len() as u32).to_be_bytes());
    bytes.extend_from_slice(payload);
    bytes
}

/// A class with every kind of constant and every kind of attribute.
fn rich_class() -> Vec<u8> {
    let mut bytes = vec![0xCA, 0xFE, 0xBA, 0xBE, 0x00, 0x01, 0x00, 0x37];
    bytes.extend_from_slice(&[0x00, 0x1B]); // 27: ten names, then 16 indices of records
    for name in NAMES {
        bytes.push(1);
        bytes.push(0);
        bytes.push(name.len() as u8);
        bytes.extend_from_slice(name.as_bytes());
    }
    bytes.extend_from_slice(&[1, 0, 6, 0x41, 0xC0, 0x80, 0xC1, 0x81, 0x42]); // 11, not canonical
    bytes.extend_from_slice(&[3, 0xFF, 0xFF, 0xFF, 0xFF]); // 12
    bytes.extend_from_slice(&[4, 0x7F, 0xC0, 0x00, 0x01]); // 13
    bytes.extend_from_slice(&[5, 0x80, 0, 0, 0, 0, 0, 0, 1]); // 14, 15
    bytes.extend_from_slice(&[6, 0xFF, 0xF8, 0, 0, 0, 0, 0, 2]); // 16, 17
    bytes.extend_from_slice(&[7, 0, 11]); // 18
    bytes.extend_from_slice(&[8, 0, 11]); // 19
    bytes.extend_from_slice(&[9, 0, 18, 0, 23]); // 20
    bytes.extend_from_slice(&[10, 0, 18, 0, 23]); // 21
    bytes.extend_from_slice(&[11, 0, 18, 0, 23]); // 22
    bytes.extend_from_slice(&[12, 0, 11, 0, 11]); // 23
    bytes.extend_from_slice(&[15, 9, 0, 21]); // 24
    bytes.extend_from_slice(&[16, 0, 11]); // 25
    bytes.extend_from_slice(&[18, 0, 0, 0, 23]); // 26
    bytes.extend_from_slice(&[0x00, 0x21, 0x00, 0x12, 0x00, 0x00]);
    bytes.extend_from_slice(&[0x00, 0x02, 0x00, 0x12, 0xFF, 0xFF]);
    // one field with a constant value and a signature
    bytes.extend_from_slice(&[0x00, 0x01, 0x00, 0x19, 0x00, 0x0B, 0x00, 0x0B, 0x00, 0x02]);
    bytes.extend(record(2, &[0, 12]));
    bytes.extend(record(5, &[0, 11]));
    // two methods, the first with code, the second with exceptions alone
    bytes.extend_from_slice(&[0x00, 0x02]);
    bytes.extend_from_slice(&[0x00, 0x09, 0x00, 0x0B, 0x00, 0x0B, 0x00, 0x01]);
    let mut code = vec![0x00, 0x02, 0x00, 0x03, 0, 0, 0, 4, 0x1A, 0x15, 0x01, 0x2A];
    code.extend_from_slice(&[0x00, 0x02, 0, 0, 0, 4, 0, 4, 0, 18, 0, 1, 0, 2, 0, 3, 0, 0]);
    code.extend_from_slice(&[0x00, 0x03]);
    code.extend(record(7, &[0, 2, 0, 0, 0, 10, 0, 2, 0, 11]));
    code.extend(record(8, &[0, 1, 0, 0, 0, 4, 0, 11, 0, 11, 0, 0]));
    code.extend(record(6, &[0, 1, 0xFF, 0, 0]));
    bytes.extend(record(1, &code));
    bytes.extend_from_slice(&[0x00, 0x00, 0x00, 0x0B, 0x00, 0x0B, 0x00, 0x01]);
    bytes.extend(record(3, &[0, 1, 0, 18]));
    // class attributes
    bytes.extend_from_slice(&[0x00, 0x04]);
    bytes.extend(record(9, &[0, 11]));
    bytes.extend(record(4, &[0, 1, 0, 18, 0, 0, 0, 11, 0, 8]));
    bytes.extend(record(10, &[]));
    bytes.extend(record(10, &[1, 2, 3, 4, 5, 6, 7]));
    bytes
}

#[test]
fn decoded_class_encodes_to_the_bytes_read() {
    let bytes = rich_class();
    let class = decode(bytes.clone()).unwrap();
    assert_eq!(class.methods.len(), 2);
    assert_eq!(class.attributes.len(), 4);
    assert_eq!(class.constant_pool.get_utf8(11).unwrap().get_str(), "A\u{0}AB");
    assert_eq!(class.encode(), Some(bytes));
}

#[test]
fn minimal_class_round_trips() {
    let bytes = vec![
        0xCA, 0xFE, 0xBA, 0xBE, 0x00, 0x00, 0x00, 0x34, 0x00, 0x01, 0x00, 0x21, 0x00, 0x00, 0x00,
        0x00, 0x00, 0x00, 0x00, 0x00, 0x00, 0x00, 0x00, 0x00,
    ];
    assert_eq!(decode(bytes.clone()).unwrap().encode(), Some(bytes));
}

#[test]
fn unread_bytes_are_not_written() {
    let mut bytes = rich_class();
    let len = bytes.len();
    bytes.extend_from_slice(&[9, 9, 9]);
    let mut reader = ClassReader::new(bytes.clone());
    let class = ClassFile::new(&mut reader).unwrap();
    assert_eq!(reader.offset(), len);
    assert_eq!(class.encode(), Some(bytes[..len].to_vec()));
}

#[test]
fn wide_constant_at_the_last_index_round_trips() {
    let mut bytes = vec![0xCA, 0xFE, 0xBA, 0xBE, 0, 0, 0, 52, 0x00, 0x02];
    bytes.extend_from_slice(&[5, 0, 0, 0, 0, 0, 0, 0, 1]);
    bytes.extend_from_slice(&[0, 0, 0, 0, 0, 0, 0, 0, 0, 0, 0, 0, 0, 0]);
    let class = decode(bytes.clone()).unwrap();
    assert_eq!(class.constant_pool.len(), 3);
    assert_eq!(class.constant_pool.count(), 2);
    assert_eq!(class.encode(), Some(bytes));
}

#[test]
fn pool_round_trips_on_its_own() {
    let bytes = rich_class();
    let mut reader = ClassReader::new(bytes[8..].to_vec());
    let pool = ConstantPool::new(&mut reader).unwrap();
    let end = reader.offset();
    let mut out = vec![0xEE];
    assert!(write_pool(&mut out, &pool));
    assert_eq!(out[0], 0xEE);
    assert_eq!(out[1..], bytes[8..8 + end]);
}

#[test]
fn primitive_writers_are_big_endian() {
    let mut out = vec![];
    write_u8(&mut out, 0xAB);
    write_u16(&mut out, 0x0102);
    write_u32(&mut out, 0xCAFEBABE);
    write_u64(&mut out, 0x0102030405060708);
    write_bytes(&mut out, &vec![9, 8]);
    write_bytes(&mut out, &vec![]);
    assert_eq!(
        out,
        vec![0xAB, 1, 2, 0xCA, 0xFE, 0xBA, 0xBE, 1, 2, 3, 4, 5, 6, 7, 8, 9, 8]
    );
    let mut list = vec![];
    assert!(write_u16_list(&mut list, &vec![0xFFFF, 0, 0x1234]));
    assert_eq!(list, vec![0, 3, 0xFF, 0xFF, 0, 0, 0x12, 0x34]);
    let mut reader = ClassReader::new(out);
    assert_eq!(reader.read_u8(), Ok(0xAB));
    assert_eq!(reader.read_u16(), Ok(0x0102));
    assert_eq!(reader.read_u32(), Ok(0xCAFEBABE));
    assert_eq!(reader.read_u64(), Ok(0x0102030405060708));
}

#[test]
fn tables_are_written_entry_by_entry() {
    let mut out = vec![];
    assert!(write_exception_table(
        &mut out,
        &vec![ExceptionTableEntry { start_pc: 1, end_pc: 2, handler_pc: 3, catch_type: 4 }]
    ));
    assert!(write_inner_classes(
        &mut out,
        &vec![InnerClassesEntry {
            inner_class_info_index: 5,
            outer_class_info_index: 6,
            inner_name_index: 7,
            inner_class_access_flags: 8
        }]
    ));
    assert!(write_line_number_table(
        &mut out,
        &vec![
            LineNumberTableEntry { start_pc: 9, line_number: 10 },
            LineNumberTableEntry { start_pc: 11, line_number: 12 }
        ]
    ));
    assert!(write_local_variable_table(
        &mut out,
        &vec![LocalVariableTableEntry {
            start_pc: 13,
            length: 14,
            name_index: 15,
            descriptor_index: 16,
            index: 0x1122
        }]
    ));
    assert!(write_members(&mut out, &vec![]));
    assert!(write_attribute_list(&mut out, &vec![]));
    assert_eq!(
        out,
        vec![
            0, 1, 0, 1, 0, 2, 0, 3, 0, 4, 0, 1, 0, 5, 0, 6, 0, 7, 0, 8, 0, 2, 0, 9, 0, 10, 0, 11,
            0, 12, 0, 1, 0, 13, 0, 14, 0, 15, 0, 16, 0x11, 0x22, 0, 0, 0, 0
        ]
    );
}

#[test]
fn attribute_is_written_with_the_length_of_its_payload() {
    let unknown = Attribute {
        name_index: 0x0102,
        info: AttributeInfo::Unknown(UnknownAttributeInfo { name: "X".to_string(), data: vec![7, 8, 9] }),
    };
    let mut out = vec![];
    assert!(unknown.write(&mut out));
    assert_eq!(out, vec![1, 2, 0, 0, 0, 3, 7, 8, 9]);
    assert_eq!(unknown.info.payload(), Some(vec![7, 8, 9]));
    let code = CodeAttribute {
        max_stack: 1,
        max_locals: 2,
        code: vec![0x1A],
        exception_table: vec![],
        attributes: vec![Attribute {
            name_index: 3,
            info: AttributeInfo::StackMapTable(StackMapTableAttribute { data: vec![] }),
        }],
    };
    assert_eq!(
        code.payload(),
        Some(vec![0, 1, 0, 2, 0, 0, 0, 1, 0x1A, 0, 0, 0, 1, 0, 3, 0, 0, 0, 0])
    );
    let member = MemberInfo { access_flags: 1, name_index: 2, descriptor_index: 3, attributes: vec![] };
    let mut written = vec![];
    assert!(member.write(&mut written));
    assert_eq!(written, vec![0, 1, 0, 2, 0, 3, 0, 0]);
}

#[test]
fn lists_too_long_for_their_count_are_not_written() {
    let mut class = decode(rich_class()).unwrap();
    assert!(class.encode().is_some());
    class.interfaces = vec![0; 0x1_0000];
    assert_eq!(class.encode(), None);
    class.interfaces = vec![0; 0xFFFF];
    assert_eq!(class.encode().map(|bytes| bytes.len()), Some(rich_class().len() + 2 * 0xFFFF - 4));
    class.interfaces = vec![];
    class.attributes.push(Attribute {
        name_index: 3,
        info: AttributeInfo::Exceptions(ExceptionsAttribute { exception_index_table: vec![1; 0x1_0000] }),
    });
    assert_eq!(class.encode(), None);
    class.attributes.pop();
    class.methods[0].attributes[0] = Attribute {
        name_index: 1,
        info: AttributeInfo::Code(CodeAttribute {
            max_stack: 0,
            max_locals: 0,
            code: vec![],
            exception_table: vec![],
            attributes: vec![Attribute {
                name_index: 7,
                info: AttributeInfo::LineNumberTable(LineNumberTableAttribute {
                    line_number_entries: vec![LineNumberTableEntry { start_pc: 0, line_number: 0 }; 0x1_0000],
                }),
            }],
        }),
    };
    assert_eq!(class.encode(), None);
    let mut out = vec![];
    assert!(!write_u16_list(&mut out, &vec![0; 0x1_0000]));
    assert!(!write_inner_classes(
        &mut out,
        &InnerClassesAttribute {
            classes: vec![
                InnerClassesEntry {
                    inner_class_info_index: 0,
                    outer_class_info_index: 0,
                    inner_name_index: 0,
                    inner_class_access_flags: 0
                };
                0x1_0000
            ]
        }
        .classes
    ));
    assert!(!write_local_variable_table(
        &mut out,
        &LocalVariableTableAttribute {
            local_var_table_entries: vec![
                LocalVariableTableEntry {
                    start_pc: 0,
                    length: 0,
                    name_index: 0,
                    descriptor_index: 0,
                    index: 0
                };
                0x1_0000
            ]
        }
        .local_var_table_entries
    ));
    let long_text = ConstantInfo::Utf8(ConstantUTF8Info { bytes: vec![b'a'; 0x1_0000], str: String::new() });
    assert!(!long_text.write(&mut out));
    let text = ConstantInfo::Utf8(ConstantUTF8Info { bytes: vec![b'a'; 0xFFFF], str: String::new() });
    assert!(text.write(&mut out));
}
