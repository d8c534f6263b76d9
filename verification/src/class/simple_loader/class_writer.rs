//! The bytes of a class file, from what a decoded class holds.
//!
//! Writing is the inverse of reading: what a decoder has read from a buffer,
//! written out again, is the stretch of the buffer that it was read from.
//! A class can be written if each of its lists and byte strings is short
//! enough for the field that holds its length.

use crate::bits::{
    pattern32, pattern64, to_u32, to_u64, u16_bytes, u16_run_bytes, u32_bytes, u64_bytes,
};
use crate::class::simple_loader::attribute_info::{
    attributes_model, Attribute, AttributeInfo, AttributeInfoModel, AttributeModel,
    CodeAttribute, CodeModel, ExceptionTableEntry, InnerClassesEntry, LineNumberTableEntry,
    LocalVariableTableEntry,
};
use crate::class::simple_loader::class_reader::{
    members_model, ClassFile, ClassFileModel, MemberInfo, MemberModel, MAGIC,
};
use crate::class::simple_loader::constant_pool::{
    ConstantInfo, ConstantModel, ConstantPool, ConstantPoolModel,
};
use vstd::prelude::*;

verus! {

/// The bytes of each of `items` in turn, where `bytes_of` gives the bytes of
/// one item.
pub open spec fn each_bytes<T>(items: Seq<T>, bytes_of: spec_fn(T) -> Seq<u8>) -> Seq<u8>
    decreases items.len(),
{
    if items.len() == 0 {
        Seq::empty()
    } else {
        each_bytes(items.drop_last(), bytes_of) + bytes_of(items.last())
    }
}

/// A 16-bit count of `values` and then the values.
pub open spec fn u16_list_bytes(values: Seq<u16>) -> Seq<u8> {
    u16_bytes(values.len() as u16) + u16_run_bytes(values)
}

/// A 16-bit count of `items` and then the bytes of each of them.
pub open spec fn counted_bytes<T>(items: Seq<T>, bytes_of: spec_fn(T) -> Seq<u8>) -> Seq<u8> {
    u16_bytes(items.len() as u16) + each_bytes(items, bytes_of)
}

impl ExceptionTableEntry {
    pub open spec fn bytes(self) -> Seq<u8> {
        u16_bytes(self.start_pc) + u16_bytes(self.end_pc) + u16_bytes(self.handler_pc)
            + u16_bytes(self.catch_type)
    }

    pub open spec fn writer() -> spec_fn(Self) -> Seq<u8> {
        |entry: Self| entry.bytes()
    }
}

impl InnerClassesEntry {
    pub open spec fn bytes(self) -> Seq<u8> {
        u16_bytes(self.inner_class_info_index) + u16_bytes(self.outer_class_info_index)
            + u16_bytes(self.inner_name_index) + u16_bytes(self.inner_class_access_flags)
    }

    pub open spec fn writer() -> spec_fn(Self) -> Seq<u8> {
        |entry: Self| entry.bytes()
    }
}

impl LineNumberTableEntry {
    pub open spec fn bytes(self) -> Seq<u8> {
        u16_bytes(self.start_pc) + u16_bytes(self.line_number)
    }

    pub open spec fn writer() -> spec_fn(Self) -> Seq<u8> {
        |entry: Self| entry.bytes()
    }
}

impl LocalVariableTableEntry {
    pub open spec fn bytes(self) -> Seq<u8> {
        u16_bytes(self.start_pc) + u16_bytes(self.length) + u16_bytes(self.name_index)
            + u16_bytes(self.descriptor_index) + u16_bytes(self.index)
    }

    pub open spec fn writer() -> spec_fn(Self) -> Seq<u8> {
        |entry: Self| entry.bytes()
    }
}

/// The fields of a constant record, without its tag.
pub open spec fn constant_fields(c: ConstantModel) -> Seq<u8> {
    match c {
        ConstantModel::Utf8(u) => u16_bytes(u.bytes.len() as u16) + u.bytes,
        ConstantModel::Integer(i) => u32_bytes(pattern32(i.val)),
        ConstantModel::Float(f) => u32_bytes(f.bits),
        ConstantModel::Long(l) => u64_bytes(pattern64(l.val)),
        ConstantModel::Double(d) => u64_bytes(d.bits),
        ConstantModel::Class(c) => u16_bytes(c.name_index),
        ConstantModel::Str(s) => u16_bytes(s.string_index),
        ConstantModel::FieldRef(r) => u16_bytes(r.class_index) + u16_bytes(r.name_and_type_index),
        ConstantModel::MethodRef(r) => u16_bytes(r.class_index) + u16_bytes(
            r.name_and_type_index,
        ),
        ConstantModel::InterfaceMethodRef(r) => u16_bytes(r.class_index) + u16_bytes(
            r.name_and_type_index,
        ),
        ConstantModel::NameAndType(n) => u16_bytes(n.name_index) + u16_bytes(n.descriptor_index),
        ConstantModel::MethodHandle(h) => seq![h.reference_kind] + u16_bytes(h.reference_index),
        ConstantModel::MethodType(t) => u16_bytes(t.descriptor_index),
        ConstantModel::InvokeDynamic(d) => u16_bytes(d.bootstrap_method_attr_index) + u16_bytes(
            d.name_and_type_index,
        ),
    }
}

/// A constant record: its tag and its fields.
pub open spec fn constant_bytes(c: ConstantModel) -> Seq<u8> {
    seq![c.tag()] + constant_fields(c)
}

/// What a pool slot adds to the file: a record, or nothing for an empty
/// slot.
pub open spec fn slot_bytes(slot: Option<ConstantModel>) -> Seq<u8> {
    match slot {
        Some(c) => constant_bytes(c),
        None => Seq::empty(),
    }
}

/// How a pool slot is written.
pub open spec fn slot_writer() -> spec_fn(Option<ConstantModel>) -> Seq<u8> {
    |slot: Option<ConstantModel>| slot_bytes(slot)
}

/// A constant pool: the count it declares, and its records.
pub open spec fn pool_bytes(pool: ConstantPoolModel) -> Seq<u8> {
    u16_bytes(pool.count) + each_bytes(pool.entries, slot_writer())
}

/// An attribute: the index of its name, the length of its payload, and the
/// payload.
pub open spec fn attribute_bytes(attribute: AttributeModel) -> Seq<u8>
    decreases attribute, 0int,
{
    u16_bytes(attribute.name_index) + u32_bytes(info_bytes(attribute.info).len() as u32)
        + info_bytes(attribute.info)
}

/// The payload of an attribute.
pub open spec fn info_bytes(info: AttributeInfoModel) -> Seq<u8>
    decreases info, 0int,
{
    match info {
        AttributeInfoModel::Code(code) => code_bytes(code),
        AttributeInfoModel::ConstantValue(a) => u16_bytes(a.constant_value_index),
        AttributeInfoModel::Exceptions(table) => u16_list_bytes(table),
        AttributeInfoModel::InnerClasses(table) => counted_bytes(
            table,
            InnerClassesEntry::writer(),
        ),
        AttributeInfoModel::Signature(a) => u16_bytes(a.signature_index),
        AttributeInfoModel::StackMapTable(data) => data,
        AttributeInfoModel::LineNumberTable(table) => counted_bytes(
            table,
            LineNumberTableEntry::writer(),
        ),
        AttributeInfoModel::LocalVariableTable(table) => counted_bytes(
            table,
            LocalVariableTableEntry::writer(),
        ),
        AttributeInfoModel::SourceFile(a) => u16_bytes(a.source_file_index),
        AttributeInfoModel::Unknown(u) => u.data,
    }
}

/// The payload of a `Code` attribute.
pub open spec fn code_bytes(code: CodeModel) -> Seq<u8>
    decreases code, 0int,
{
    u16_bytes(code.max_stack) + u16_bytes(code.max_locals) + u32_bytes(code.code.len() as u32)
        + code.code + counted_bytes(code.exception_table, ExceptionTableEntry::writer())
        + attribute_list_bytes(code.attributes)
}

/// The attributes of `list` in turn.
pub open spec fn attributes_bytes(list: Seq<AttributeModel>) -> Seq<u8>
    decreases list, 0int,
{
    if list.len() == 0 {
        Seq::empty()
    } else {
        attributes_bytes(list.drop_last()) + attribute_bytes(list.last())
    }
}

/// A 16-bit count of attributes and then the attributes.
pub open spec fn attribute_list_bytes(list: Seq<AttributeModel>) -> Seq<u8>
    decreases list, 1int,
{
    u16_bytes(list.len() as u16) + attributes_bytes(list)
}

/// A field or method.
pub open spec fn member_bytes(member: MemberModel) -> Seq<u8> {
    u16_bytes(member.access_flags) + u16_bytes(member.name_index) + u16_bytes(
        member.descriptor_index,
    ) + attribute_list_bytes(member.attributes)
}

/// How a member is written.
pub open spec fn member_writer() -> spec_fn(MemberModel) -> Seq<u8> {
    |member: MemberModel| member_bytes(member)
}

/// What follows the constant pool in a class file: flags, class indices,
/// interfaces, fields, methods and attributes.
pub open spec fn class_body_bytes(class: ClassFileModel) -> Seq<u8> {
    u16_bytes(class.access_flags) + u16_bytes(class.this_class) + u16_bytes(class.super_class)
        + u16_list_bytes(class.interfaces) + counted_bytes(class.fields, member_writer())
        + counted_bytes(class.methods, member_writer()) + attribute_list_bytes(class.attributes)
}

/// A class file: the magic number, the version, the constant pool, and the
/// rest.
pub open spec fn class_bytes(class: ClassFileModel) -> Seq<u8> {
    u32_bytes(MAGIC) + u16_bytes(class.minor_version) + u16_bytes(class.major_version)
        + pool_bytes(class.constant_pool) + class_body_bytes(class)
}

/// The largest number that a 16-bit length field can hold.
pub const MAX_U16_LEN: usize = 0xFFFF;

/// The largest number that a 32-bit length field can hold.
pub const MAX_U32_LEN: u64 = 0xFFFF_FFFF;

/// The UTF8 record, if `c` is one, is short enough for its length field.
pub open spec fn constant_writable(c: ConstantModel) -> bool {
    c matches ConstantModel::Utf8(u) ==> u.bytes.len() <= MAX_U16_LEN
}

/// Each record of the pool can be written.
pub open spec fn pool_writable(pool: ConstantPoolModel) -> bool {
    forall|i: int|
        0 <= i < pool.entries.len() && (#[trigger] pool.entries[i]) is Some ==> constant_writable(
            pool.entries[i]->0,
        )
}

/// The payload of the attribute can be written and is short enough for the
/// attribute's length field.
pub open spec fn attribute_writable(attribute: AttributeModel) -> bool
    decreases attribute, 0int,
{
    info_writable(attribute.info) && info_bytes(attribute.info).len() <= MAX_U32_LEN
}

/// Each list in the payload is short enough for its count field.
pub open spec fn info_writable(info: AttributeInfoModel) -> bool
    decreases info, 0int,
{
    match info {
        AttributeInfoModel::Code(code) => code_writable(code),
        AttributeInfoModel::Exceptions(table) => table.len() <= MAX_U16_LEN,
        AttributeInfoModel::InnerClasses(table) => table.len() <= MAX_U16_LEN,
        AttributeInfoModel::LineNumberTable(table) => table.len() <= MAX_U16_LEN,
        AttributeInfoModel::LocalVariableTable(table) => table.len() <= MAX_U16_LEN,
        _ => true,
    }
}

/// The code and the lists of a `Code` attribute are short enough for their
/// length fields, and its attributes can be written.
pub open spec fn code_writable(code: CodeModel) -> bool
    decreases code, 0int,
{
    &&& code.code.len() <= MAX_U32_LEN
    &&& code.exception_table.len() <= MAX_U16_LEN
    &&& attribute_list_writable(code.attributes)
}

/// Each attribute of the list can be written.
pub open spec fn attributes_writable(list: Seq<AttributeModel>) -> bool
    decreases list, 0int,
{
    forall|i: int| 0 <= i < list.len() ==> attribute_writable(#[trigger] list[i])
}

/// The list is short enough for its count field, and each of its attributes
/// can be written.
pub open spec fn attribute_list_writable(list: Seq<AttributeModel>) -> bool
    decreases list, 1int,
{
    list.len() <= MAX_U16_LEN && attributes_writable(list)
}

/// The attributes of the member can be written.
pub open spec fn member_writable(member: MemberModel) -> bool {
    attribute_list_writable(member.attributes)
}

/// The list is short enough for its count field, and each of its members
/// can be written.
pub open spec fn member_list_writable(list: Seq<MemberModel>) -> bool {
    &&& list.len() <= MAX_U16_LEN
    &&& forall|i: int| 0 <= i < list.len() ==> member_writable(#[trigger] list[i])
}

/// Every part of the class can be written.
pub open spec fn class_writable(class: ClassFileModel) -> bool {
    &&& pool_writable(class.constant_pool)
    &&& class.interfaces.len() <= MAX_U16_LEN
    &&& member_list_writable(class.fields)
    &&& member_list_writable(class.methods)
    &&& attribute_list_writable(class.attributes)
}

/// Appends one byte.
pub fn write_u8(out: &mut Vec<u8>, v: u8)
    ensures
        final(out)@ == old(out)@ + seq![v],
{
    out.push(v);
    assert(out@ =~= old(out)@ + seq![v]);
}

/// Appends a 16-bit value, the upper byte first.
pub fn write_u16(out: &mut Vec<u8>, v: u16)
    ensures
        final(out)@ == old(out)@ + u16_bytes(v),
{
    out.push((v / 0x100) as u8);
    out.push((v % 0x100) as u8);
    assert(out@ =~= old(out)@ + u16_bytes(v));
}

/// Appends a 32-bit value, the uppermost byte first.
pub fn write_u32(out: &mut Vec<u8>, v: u32)
    ensures
        final(out)@ == old(out)@ + u32_bytes(v),
{
    write_u16(out, (v / 0x1_0000) as u16);
    write_u16(out, (v % 0x1_0000) as u16);
    assert(out@ =~= old(out)@ + u32_bytes(v));
}

/// Appends a 64-bit value, the uppermost byte first.
pub fn write_u64(out: &mut Vec<u8>, v: u64)
    ensures
        final(out)@ == old(out)@ + u64_bytes(v),
{
    write_u32(out, (v / 0x1_0000_0000) as u32);
    write_u32(out, (v % 0x1_0000_0000) as u32);
    assert(out@ =~= old(out)@ + u64_bytes(v));
}

/// Appends the bytes of `data`.
pub fn write_bytes(out: &mut Vec<u8>, data: &Vec<u8>)
    ensures
        final(out)@ == old(out)@ + data@,
{
    let n: usize = data.len();
    let mut i: usize = 0;
    assert(out@ =~= old(out)@ + data@.take(0));
    while i < n
        invariant
            i <= n,
            n == data.len(),
            out@ == old(out)@ + data@.take(i as int),
        decreases n - i,
    {
        out.push(data[i]);
        i += 1;
        assert(out@ =~= old(out)@ + data@.take(i as int));
    }
    assert(data@.take(n as int) =~= data@);
}

/// Appends a 16-bit count of `values` and then the values, if the count fits.
pub fn write_u16_list(out: &mut Vec<u8>, values: &Vec<u16>) -> (done: bool)
    ensures
        done == (values@.len() <= MAX_U16_LEN),
        done ==> final(out)@ == old(out)@ + u16_list_bytes(values@),
{
    let n: usize = values.len();
    if n > MAX_U16_LEN {
        return false;
    }
    write_u16(out, n as u16);
    let ghost start = out@;
    let mut i: usize = 0;
    assert(u16_run_bytes(values@.take(0)) =~= Seq::<u8>::empty());
    assert(out@ =~= start + u16_run_bytes(values@.take(0)));
    while i < n
        invariant
            i <= n,
            n == values.len(),
            out@ == start + u16_run_bytes(values@.take(i as int)),
        decreases n - i,
    {
        write_u16(out, values[i]);
        i += 1;
        assert(values@.take(i as int).drop_last() =~= values@.take(i - 1));
        assert(out@ =~= start + u16_run_bytes(values@.take(i as int)));
    }
    assert(values@.take(n as int) =~= values@);
    assert(out@ =~= old(out)@ + u16_list_bytes(values@));
    true
}

impl ExceptionTableEntry {
    /// Appends the fields of this entry.
    pub fn write(&self, out: &mut Vec<u8>)
        ensures
            final(out)@ == old(out)@ + self.bytes(),
    {
        write_u16(out, self.start_pc);
        write_u16(out, self.end_pc);
        write_u16(out, self.handler_pc);
        write_u16(out, self.catch_type);
        assert(out@ =~= old(out)@ + self.bytes());
    }
}

/// Appends a 16-bit count of the entries and then the entries, if the count
/// fits.
pub fn write_exception_table(out: &mut Vec<u8>, table: &Vec<ExceptionTableEntry>) -> (done: bool)
    ensures
        done == (table@.len() <= MAX_U16_LEN),
        done ==> final(out)@ == old(out)@ + counted_bytes(table@, ExceptionTableEntry::writer()),
{
    let n: usize = table.len();
    if n > MAX_U16_LEN {
        return false;
    }
    write_u16(out, n as u16);
    let ghost start = out@;
    let mut i: usize = 0;
    assert(each_bytes(table@.take(0), ExceptionTableEntry::writer()) =~= Seq::<u8>::empty());
    assert(out@ =~= start + each_bytes(table@.take(0), ExceptionTableEntry::writer()));
    while i < n
        invariant
            i <= n,
            n == table.len(),
            out@ == start + each_bytes(table@.take(i as int), ExceptionTableEntry::writer()),
        decreases n - i,
    {
        table[i].write(out);
        i += 1;
        assert(table@.take(i as int).drop_last() =~= table@.take(i - 1));
        assert(out@ =~= start + each_bytes(table@.take(i as int), ExceptionTableEntry::writer()));
    }
    assert(table@.take(n as int) =~= table@);
    assert(out@ =~= old(out)@ + counted_bytes(table@, ExceptionTableEntry::writer()));
    true
}

impl InnerClassesEntry {
    /// Appends the fields of this entry.
    pub fn write(&self, out: &mut Vec<u8>)
        ensures
            final(out)@ == old(out)@ + self.bytes(),
    {
        write_u16(out, self.inner_class_info_index);
        write_u16(out, self.outer_class_info_index);
        write_u16(out, self.inner_name_index);
        write_u16(out, self.inner_class_access_flags);
        assert(out@ =~= old(out)@ + self.bytes());
    }
}

/// Appends a 16-bit count of the entries and then the entries, if the count
/// fits.
pub fn write_inner_classes(out: &mut Vec<u8>, table: &Vec<InnerClassesEntry>) -> (done: bool)
    ensures
        done == (table@.len() <= MAX_U16_LEN),
        done ==> final(out)@ == old(out)@ + counted_bytes(table@, InnerClassesEntry::writer()),
{
    let n: usize = table.len();
    if n > MAX_U16_LEN {
        return false;
    }
    write_u16(out, n as u16);
    let ghost start = out@;
    let mut i: usize = 0;
    assert(each_bytes(table@.take(0), InnerClassesEntry::writer()) =~= Seq::<u8>::empty());
    assert(out@ =~= start + each_bytes(table@.take(0), InnerClassesEntry::writer()));
    while i < n
        invariant
            i <= n,
            n == table.len(),
            out@ == start + each_bytes(table@.take(i as int), InnerClassesEntry::writer()),
        decreases n - i,
    {
        table[i].write(out);
        i += 1;
        assert(table@.take(i as int).drop_last() =~= table@.take(i - 1));
        assert(out@ =~= start + each_bytes(table@.take(i as int), InnerClassesEntry::writer()));
    }
    assert(table@.take(n as int) =~= table@);
    assert(out@ =~= old(out)@ + counted_bytes(table@, InnerClassesEntry::writer()));
    true
}

impl LineNumberTableEntry {
    /// Appends the fields of this entry.
    pub fn write(&self, out: &mut Vec<u8>)
        ensures
            final(out)@ == old(out)@ + self.bytes(),
    {
        write_u16(out, self.start_pc);
        write_u16(out, self.line_number);
        assert(out@ =~= old(out)@ + self.bytes());
    }
}

/// Appends a 16-bit count of the entries and then the entries, if the count
/// fits.
pub fn write_line_number_table(out: &mut Vec<u8>, table: &Vec<LineNumberTableEntry>) -> (done: bool)
    ensures
        done == (table@.len() <= MAX_U16_LEN),
        done ==> final(out)@ == old(out)@ + counted_bytes(table@, LineNumberTableEntry::writer()),
{
    let n: usize = table.len();
    if n > MAX_U16_LEN {
        return false;
    }
    write_u16(out, n as u16);
    let ghost start = out@;
    let mut i: usize = 0;
    assert(each_bytes(table@.take(0), LineNumberTableEntry::writer()) =~= Seq::<u8>::empty());
    assert(out@ =~= start + each_bytes(table@.take(0), LineNumberTableEntry::writer()));
    while i < n
        invariant
            i <= n,
            n == table.len(),
            out@ == start + each_bytes(table@.take(i as int), LineNumberTableEntry::writer()),
        decreases n - i,
    {
        table[i].write(out);
        i += 1;
        assert(table@.take(i as int).drop_last() =~= table@.take(i - 1));
        assert(out@ =~= start + each_bytes(table@.take(i as int), LineNumberTableEntry::writer()));
    }
    assert(table@.take(n as int) =~= table@);
    assert(out@ =~= old(out)@ + counted_bytes(table@, LineNumberTableEntry::writer()));
    true
}

impl LocalVariableTableEntry {
    /// Appends the fields of this entry.
    pub fn write(&self, out: &mut Vec<u8>)
        ensures
            final(out)@ == old(out)@ + self.bytes(),
    {
        write_u16(out, self.start_pc);
        write_u16(out, self.length);
        write_u16(out, self.name_index);
        write_u16(out, self.descriptor_index);
        write_u16(out, self.index);
        assert(out@ =~= old(out)@ + self.bytes());
    }
}

/// Appends a 16-bit count of the entries and then the entries, if the count
/// fits.
pub fn write_local_variable_table(out: &mut Vec<u8>, table: &Vec<LocalVariableTableEntry>) -> (done: bool)
    ensures
        done == (table@.len() <= MAX_U16_LEN),
        done ==> final(out)@ == old(out)@ + counted_bytes(table@, LocalVariableTableEntry::writer()),
{
    let n: usize = table.len();
    if n > MAX_U16_LEN {
        return false;
    }
    write_u16(out, n as u16);
    let ghost start = out@;
    let mut i: usize = 0;
    assert(each_bytes(table@.take(0), LocalVariableTableEntry::writer()) =~= Seq::<u8>::empty());
    assert(out@ =~= start + each_bytes(table@.take(0), LocalVariableTableEntry::writer()));
    while i < n
        invariant
            i <= n,
            n == table.len(),
            out@ == start + each_bytes(table@.take(i as int), LocalVariableTableEntry::writer()),
        decreases n - i,
    {
        table[i].write(out);
        i += 1;
        assert(table@.take(i as int).drop_last() =~= table@.take(i - 1));
        assert(out@ =~= start + each_bytes(table@.take(i as int), LocalVariableTableEntry::writer()));
    }
    assert(table@.take(n as int) =~= table@);
    assert(out@ =~= old(out)@ + counted_bytes(table@, LocalVariableTableEntry::writer()));
    true
}

impl ConstantInfo {
    /// Appends this record, tag and fields, if it can be written.
    pub fn write(&self, out: &mut Vec<u8>) -> (done: bool)
        ensures
            done == constant_writable(self@),
            done ==> final(out)@ == old(out)@ + constant_bytes(self@),
    {
        match self {
            ConstantInfo::Utf8(c) => {
                if c.bytes.len() > MAX_U16_LEN {
                    return false;
                }
                write_u8(out, 1);
                write_u16(out, c.bytes.len() as u16);
                write_bytes(out, &c.bytes);
            },
            ConstantInfo::Integer(c) => {
                write_u8(out, 3);
                write_u32(out, to_u32(c.val));
            },
            ConstantInfo::Float(c) => {
                write_u8(out, 4);
                write_u32(out, c.bits);
            },
            ConstantInfo::Long(c) => {
                write_u8(out, 5);
                write_u64(out, to_u64(c.val));
            },
            ConstantInfo::Double(c) => {
                write_u8(out, 6);
                write_u64(out, c.bits);
            },
            ConstantInfo::Class(c) => {
                write_u8(out, 7);
                write_u16(out, c.name_index);
            },
            ConstantInfo::Str(c) => {
                write_u8(out, 8);
                write_u16(out, c.string_index);
            },
            ConstantInfo::FieldRef(c) => {
                write_u8(out, 9);
                write_u16(out, c.class_index);
                write_u16(out, c.name_and_type_index);
            },
            ConstantInfo::MethodRef(c) => {
                write_u8(out, 10);
                write_u16(out, c.class_index);
                write_u16(out, c.name_and_type_index);
            },
            ConstantInfo::InterfaceMethodRef(c) => {
                write_u8(out, 11);
                write_u16(out, c.class_index);
                write_u16(out, c.name_and_type_index);
            },
            ConstantInfo::NameAndType(c) => {
                write_u8(out, 12);
                write_u16(out, c.name_index);
                write_u16(out, c.descriptor_index);
            },
            ConstantInfo::MethodHandle(c) => {
                write_u8(out, 15);
                write_u8(out, c.reference_kind);
                write_u16(out, c.reference_index);
            },
            ConstantInfo::MethodType(c) => {
                write_u8(out, 16);
                write_u16(out, c.descriptor_index);
            },
            ConstantInfo::InvokeDynamic(c) => {
                write_u8(out, 18);
                write_u16(out, c.bootstrap_method_attr_index);
                write_u16(out, c.name_and_type_index);
            },
        }
        assert(out@ =~= old(out)@ + constant_bytes(self@));
        true
    }
}

/// Appends the count that the pool declares and then its records, if each of
/// them can be written.
pub fn write_pool(out: &mut Vec<u8>, pool: &ConstantPool) -> (done: bool)
    ensures
        done == pool_writable(pool@),
        done ==> final(out)@ == old(out)@ + pool_bytes(pool@),
{
    write_u16(out, pool.count());
    let ghost start = out@;
    let n: usize = pool.len();
    let mut i: usize = 0;
    assert(each_bytes(pool@.entries.take(0), slot_writer()) =~= Seq::<u8>::empty());
    assert(out@ =~= start + each_bytes(pool@.entries.take(0), slot_writer()));
    while i < n
        invariant
            i <= n,
            n == pool@.entries.len(),
            out@ == start + each_bytes(pool@.entries.take(i as int), slot_writer()),
            forall|j: int|
                0 <= j < i && (#[trigger] pool@.entries[j]) is Some ==> constant_writable(
                    pool@.entries[j]->0,
                ),
        decreases n - i,
    {
        match pool.get(i) {
            Some(c) => {
                if !c.write(out) {
                    return false;
                }
            },
            None => {},
        }
        i += 1;
        assert(pool@.entries.take(i as int).drop_last() =~= pool@.entries.take(i - 1));
        assert(out@ =~= start + each_bytes(pool@.entries.take(i as int), slot_writer()));
    }
    assert(pool@.entries.take(n as int) =~= pool@.entries);
    assert(out@ =~= old(out)@ + pool_bytes(pool@));
    true
}

impl CodeAttribute {
    /// The payload of this attribute, if it can be written.
    pub fn payload(&self) -> (r: Option<Vec<u8>>)
        ensures
            match r {
                Some(bytes) => code_writable(self@) && bytes@ == code_bytes(self@),
                None => !code_writable(self@),
            },
        decreases self, 0int,
    {
        if self.code.len() as u64 > MAX_U32_LEN {
            return None;
        }
        let mut out: Vec<u8> = Vec::new();
        write_u16(&mut out, self.max_stack);
        write_u16(&mut out, self.max_locals);
        write_u32(&mut out, self.code.len() as u32);
        write_bytes(&mut out, &self.code);
        if !write_exception_table(&mut out, &self.exception_table) {
            return None;
        }
        if !write_attribute_list(&mut out, &self.attributes) {
            return None;
        }
        assert(out@ =~= code_bytes(self@));
        Some(out)
    }
}

impl AttributeInfo {
    /// The payload of this attribute, if it can be written.
    pub fn payload(&self) -> (r: Option<Vec<u8>>)
        ensures
            match r {
                Some(bytes) => info_writable(self@) && bytes@ == info_bytes(self@),
                None => !info_writable(self@),
            },
        decreases self, 0int,
    {
        let mut out: Vec<u8> = Vec::new();
        let done: bool = match self {
            AttributeInfo::Code(a) => {
                return a.payload();
            },
            AttributeInfo::ConstantValue(a) => {
                write_u16(&mut out, a.constant_value_index);
                true
            },
            AttributeInfo::Exceptions(a) => write_u16_list(&mut out, &a.exception_index_table),
            AttributeInfo::InnerClasses(a) => write_inner_classes(&mut out, &a.classes),
            AttributeInfo::Signature(a) => {
                write_u16(&mut out, a.signature_index);
                true
            },
            AttributeInfo::StackMapTable(a) => {
                write_bytes(&mut out, &a.data);
                true
            },
            AttributeInfo::LineNumberTable(a) => write_line_number_table(
                &mut out,
                &a.line_number_entries,
            ),
            AttributeInfo::LocalVariableTable(a) => write_local_variable_table(
                &mut out,
                &a.local_var_table_entries,
            ),
            AttributeInfo::SourceFile(a) => {
                write_u16(&mut out, a.source_file_index);
                true
            },
            AttributeInfo::Unknown(a) => {
                write_bytes(&mut out, &a.data);
                true
            },
        };
        if done {
            assert(out@ =~= info_bytes(self@));
            Some(out)
        } else {
            None
        }
    }
}

impl Attribute {
    /// Appends this attribute: the index of its name, the length of its
    /// payload, and the payload, if it can be written.
    pub fn write(&self, out: &mut Vec<u8>) -> (done: bool)
        ensures
            done == attribute_writable(self@),
            done ==> final(out)@ == old(out)@ + attribute_bytes(self@),
        decreases self, 1int,
    {
        let payload: Vec<u8> = match self.info.payload() {
            Some(bytes) => bytes,
            None => {
                return false;
            },
        };
        if payload.len() as u64 > MAX_U32_LEN {
            return false;
        }
        write_u16(out, self.name_index);
        write_u32(out, payload.len() as u32);
        write_bytes(out, &payload);
        assert(out@ =~= old(out)@ + attribute_bytes(self@));
        true
    }
}

/// Appends a 16-bit count of the attributes and then the attributes, if the
/// count fits and each of them can be written.
pub fn write_attribute_list(out: &mut Vec<u8>, list: &Vec<Attribute>) -> (done: bool)
    ensures
        done == attribute_list_writable(attributes_model(list@)),
        done ==> final(out)@ == old(out)@ + attribute_list_bytes(attributes_model(list@)),
    decreases list, 2int,
{
    let n: usize = list.len();
    if n > MAX_U16_LEN {
        return false;
    }
    write_u16(out, n as u16);
    let ghost start = out@;
    let ghost models = attributes_model(list@);
    let mut i: usize = 0;
    assert(attributes_bytes(models.take(0)) =~= Seq::<u8>::empty());
    assert(out@ =~= start + attributes_bytes(models.take(0)));
    while i < n
        invariant
            i <= n,
            n == list.len(),
            models == attributes_model(list@),
            out@ == start + attributes_bytes(models.take(i as int)),
            forall|j: int| 0 <= j < i ==> attribute_writable(#[trigger] models[j]),
        decreases n - i,
    {
        assert(models[i as int] == list@[i as int]@);
        if !list[i].write(out) {
            return false;
        }
        i += 1;
        assert(models.take(i as int).drop_last() =~= models.take(i - 1));
        assert(out@ =~= start + attributes_bytes(models.take(i as int)));
    }
    assert(models.take(n as int) =~= models);
    assert(out@ =~= old(out)@ + attribute_list_bytes(models));
    true
}

impl MemberInfo {
    /// Appends this member, if its attributes can be written.
    pub fn write(&self, out: &mut Vec<u8>) -> (done: bool)
        ensures
            done == member_writable(self@),
            done ==> final(out)@ == old(out)@ + member_bytes(self@),
    {
        write_u16(out, self.access_flags);
        write_u16(out, self.name_index);
        write_u16(out, self.descriptor_index);
        if !write_attribute_list(out, &self.attributes) {
            return false;
        }
        assert(out@ =~= old(out)@ + member_bytes(self@));
        true
    }
}

/// Appends a 16-bit count of the members and then the members, if the count
/// fits and each of them can be written.
pub fn write_members(out: &mut Vec<u8>, list: &Vec<MemberInfo>) -> (done: bool)
    ensures
        done == member_list_writable(members_model(list@)),
        done ==> final(out)@ == old(out)@ + counted_bytes(members_model(list@), member_writer()),
{
    let n: usize = list.len();
    if n > MAX_U16_LEN {
        return false;
    }
    write_u16(out, n as u16);
    let ghost start = out@;
    let ghost models = members_model(list@);
    let mut i: usize = 0;
    assert(each_bytes(models.take(0), member_writer()) =~= Seq::<u8>::empty());
    assert(out@ =~= start + each_bytes(models.take(0), member_writer()));
    while i < n
        invariant
            i <= n,
            n == list.len(),
            models == members_model(list@),
            out@ == start + each_bytes(models.take(i as int), member_writer()),
            forall|j: int| 0 <= j < i ==> member_writable(#[trigger] models[j]),
        decreases n - i,
    {
        assert(models[i as int] == list@[i as int]@);
        if !list[i].write(out) {
            return false;
        }
        i += 1;
        assert(models.take(i as int).drop_last() =~= models.take(i - 1));
        assert(out@ =~= start + each_bytes(models.take(i as int), member_writer()));
    }
    assert(models.take(n as int) =~= models);
    assert(out@ =~= old(out)@ + counted_bytes(models, member_writer()));
    true
}

impl ClassFile {
    /// The bytes of this class as a class file; nothing if some list or
    /// byte string in it is too long for the field that holds its length.
    pub fn encode(&self) -> (r: Option<Vec<u8>>)
        ensures
            match r {
                Some(bytes) => class_writable(self@) && bytes@ == class_bytes(self@),
                None => !class_writable(self@),
            },
    {
        let mut out: Vec<u8> = Vec::new();
        write_u32(&mut out, MAGIC);
        write_u16(&mut out, self.minor_version);
        write_u16(&mut out, self.major_version);
        if !write_pool(&mut out, &self.constant_pool) {
            return None;
        }
        let ghost head = out@;
        write_u16(&mut out, self.access_flags);
        write_u16(&mut out, self.this_class);
        write_u16(&mut out, self.super_class);
        if !write_u16_list(&mut out, &self.interfaces) {
            return None;
        }
        if !write_members(&mut out, &self.fields) {
            return None;
        }
        if !write_members(&mut out, &self.methods) {
            return None;
        }
        if !write_attribute_list(&mut out, &self.attributes) {
            return None;
        }
        assert(head =~= u32_bytes(MAGIC) + u16_bytes(self.minor_version) + u16_bytes(
            self.major_version,
        ) + pool_bytes(self@.constant_pool));
        assert(out@ =~= head + class_body_bytes(self@));
        Some(out)
    }
}

} // verus!
