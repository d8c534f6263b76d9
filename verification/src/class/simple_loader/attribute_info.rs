//! Attributes: the named, length-prefixed records attached to a class, to
//! its members, and to `Code` attributes.
//!
//! An attribute is decoded by its name, which is a UTF8 constant. Its fields
//! must fill the declared length exactly. An attribute with a name that is
//! not known here is kept as raw bytes.

use crate::bits::{be_u16, be_u32, fits};
use crate::class::simple_loader::class_reader::{
    fails, gives, refuses, table_end, table_fits, u16_at, u16s_at, whole, yields, ClassReader,
    Parsed,
};
use crate::class::simple_loader::constant_pool::{ConstantPool, ConstantPoolModel};
use crate::error::DecodeError;
use vstd::prelude::*;

verus! {

/// Fails unless the cursor has reached the end of its buffer.
fn expect_end(reader: &ClassReader) -> (r: Result<(), DecodeError>)
    ensures
        match r {
            Ok(_) => reader.position() == reader.bytes().len(),
            Err(e) => e == DecodeError::AttributeLengthMismatch && reader.position()
                != reader.bytes().len(),
        },
{
    if reader.remaining() != 0 {
        Err(DecodeError::AttributeLengthMismatch)
    } else {
        Ok(())
    }
}

/// Whether `name` is the text `literal`.
fn is_named(name: &String, literal: &str) -> (same: bool)
    ensures
        same == (name@ == literal@),
{
    let wanted: String = String::from_str(literal);
    *name == wanted
}

/// One range of a method's code that a handler protects.
#[derive(Clone, Copy, Debug, PartialEq, Eq, Structural)]
pub struct ExceptionTableEntry {
    pub start_pc: u16,
    pub end_pc: u16,
    pub handler_pc: u16,
    pub catch_type: u16,
}

impl ExceptionTableEntry {
    /// The entry whose fields start at `pos`.
    pub open spec fn at(data: Seq<u8>, pos: int) -> Self {
        ExceptionTableEntry {
            start_pc: be_u16(data, pos),
            end_pc: be_u16(data, pos + 2),
            handler_pc: be_u16(data, pos + 4),
            catch_type: be_u16(data, pos + 6),
        }
    }

    /// The first `n` entries of the table whose entries start at `pos`.
    pub open spec fn run(data: Seq<u8>, pos: int, n: int) -> Seq<Self> {
        Seq::new(n as nat, |i: int| Self::at(data, pos + 8 * i))
    }

    /// The counted table of entries at `pos`.
    pub open spec fn table_at(data: Seq<u8>, pos: int) -> Parsed<Seq<Self>> {
        if table_fits(data, pos, 8) {
            Ok((Self::run(data, pos + 2, be_u16(data, pos) as int), table_end(data, pos, 8)))
        } else {
            Err(DecodeError::TruncatedInput)
        }
    }
}

/// One class nested in, or enclosing, the class that names it.
#[derive(Clone, Copy, Debug, PartialEq, Eq, Structural)]
pub struct InnerClassesEntry {
    pub inner_class_info_index: u16,
    pub outer_class_info_index: u16,
    pub inner_name_index: u16,
    pub inner_class_access_flags: u16,
}

impl InnerClassesEntry {
    /// The entry whose fields start at `pos`.
    pub open spec fn at(data: Seq<u8>, pos: int) -> Self {
        InnerClassesEntry {
            inner_class_info_index: be_u16(data, pos),
            outer_class_info_index: be_u16(data, pos + 2),
            inner_name_index: be_u16(data, pos + 4),
            inner_class_access_flags: be_u16(data, pos + 6),
        }
    }

    /// The first `n` entries of the table whose entries start at `pos`.
    pub open spec fn run(data: Seq<u8>, pos: int, n: int) -> Seq<Self> {
        Seq::new(n as nat, |i: int| Self::at(data, pos + 8 * i))
    }

    /// The counted table of entries at `pos`.
    pub open spec fn table_at(data: Seq<u8>, pos: int) -> Parsed<Seq<Self>> {
        if table_fits(data, pos, 8) {
            Ok((Self::run(data, pos + 2, be_u16(data, pos) as int), table_end(data, pos, 8)))
        } else {
            Err(DecodeError::TruncatedInput)
        }
    }

    /// Reads a 16-bit count and then that many entries.
    pub fn read_table(reader: &mut ClassReader) -> (r: Result<Vec<InnerClassesEntry>, DecodeError>)
        ensures
            final(reader).same_buffer(*old(reader)),
            match r {
                Ok(table) => yields(
                    Self::table_at(old(reader).bytes(), old(reader).position()),
                    table@,
                    final(reader).position(),
                ),
                Err(e) => fails(Self::table_at(old(reader).bytes(), old(reader).position()), e),
            },
    {
        let n: u16 = reader.read_u16()?;
        let ghost data = reader.bytes();
        let ghost start = reader.position();
        let mut table: Vec<InnerClassesEntry> = Vec::new();
        let mut i: u16 = 0;
        while i < n
            invariant
                i <= n,
                data == old(reader).bytes(),
                start == old(reader).position() + 2,
                fits(data, old(reader).position(), 2),
                n == be_u16(data, old(reader).position()),
                reader.advanced(*old(reader), 2 + 8 * i),
                table@ == Self::run(data, start, i as int),
            decreases n - i,
        {
            let inner_class_info_index: u16 = reader.read_u16()?;
            let outer_class_info_index: u16 = reader.read_u16()?;
            let inner_name_index: u16 = reader.read_u16()?;
            let inner_class_access_flags: u16 = reader.read_u16()?;
            table.push(InnerClassesEntry { inner_class_info_index, outer_class_info_index, inner_name_index, inner_class_access_flags });
            i += 1;
            assert(table@ =~= Self::run(data, start, i as int));
        }
        Ok(table)
    }
}

/// The source line at which a stretch of code starts.
#[derive(Clone, Copy, Debug, PartialEq, Eq, Structural)]
pub struct LineNumberTableEntry {
    pub start_pc: u16,
    pub line_number: u16,
}

impl LineNumberTableEntry {
    /// The entry whose fields start at `pos`.
    pub open spec fn at(data: Seq<u8>, pos: int) -> Self {
        LineNumberTableEntry {
            start_pc: be_u16(data, pos),
            line_number: be_u16(data, pos + 2),
        }
    }

    /// The first `n` entries of the table whose entries start at `pos`.
    pub open spec fn run(data: Seq<u8>, pos: int, n: int) -> Seq<Self> {
        Seq::new(n as nat, |i: int| Self::at(data, pos + 4 * i))
    }

    /// The counted table of entries at `pos`.
    pub open spec fn table_at(data: Seq<u8>, pos: int) -> Parsed<Seq<Self>> {
        if table_fits(data, pos, 4) {
            Ok((Self::run(data, pos + 2, be_u16(data, pos) as int), table_end(data, pos, 4)))
        } else {
            Err(DecodeError::TruncatedInput)
        }
    }

    /// Reads a 16-bit count and then that many entries.
    pub fn read_table(reader: &mut ClassReader) -> (r: Result<Vec<LineNumberTableEntry>, DecodeError>)
        ensures
            final(reader).same_buffer(*old(reader)),
            match r {
                Ok(table) => yields(
                    Self::table_at(old(reader).bytes(), old(reader).position()),
                    table@,
                    final(reader).position(),
                ),
                Err(e) => fails(Self::table_at(old(reader).bytes(), old(reader).position()), e),
            },
    {
        let n: u16 = reader.read_u16()?;
        let ghost data = reader.bytes();
        let ghost start = reader.position();
        let mut table: Vec<LineNumberTableEntry> = Vec::new();
        let mut i: u16 = 0;
        while i < n
            invariant
                i <= n,
                data == old(reader).bytes(),
                start == old(reader).position() + 2,
                fits(data, old(reader).position(), 2),
                n == be_u16(data, old(reader).position()),
                reader.advanced(*old(reader), 2 + 4 * i),
                table@ == Self::run(data, start, i as int),
            decreases n - i,
        {
            let start_pc: u16 = reader.read_u16()?;
            let line_number: u16 = reader.read_u16()?;
            table.push(LineNumberTableEntry { start_pc, line_number });
            i += 1;
            assert(table@ =~= Self::run(data, start, i as int));
        }
        Ok(table)
    }
}

/// The name, type and slot of a local variable over a stretch of code.
#[derive(Clone, Copy, Debug, PartialEq, Eq, Structural)]
pub struct LocalVariableTableEntry {
    pub start_pc: u16,
    pub length: u16,
    pub name_index: u16,
    pub descriptor_index: u16,
    pub index: u16,
}

impl LocalVariableTableEntry {
    /// The entry whose fields start at `pos`.
    pub open spec fn at(data: Seq<u8>, pos: int) -> Self {
        LocalVariableTableEntry {
            start_pc: be_u16(data, pos),
            length: be_u16(data, pos + 2),
            name_index: be_u16(data, pos + 4),
            descriptor_index: be_u16(data, pos + 6),
            index: be_u16(data, pos + 8),
        }
    }

    /// The first `n` entries of the table whose entries start at `pos`.
    pub open spec fn run(data: Seq<u8>, pos: int, n: int) -> Seq<Self> {
        Seq::new(n as nat, |i: int| Self::at(data, pos + 10 * i))
    }

    /// The counted table of entries at `pos`.
    pub open spec fn table_at(data: Seq<u8>, pos: int) -> Parsed<Seq<Self>> {
        if table_fits(data, pos, 10) {
            Ok((Self::run(data, pos + 2, be_u16(data, pos) as int), table_end(data, pos, 10)))
        } else {
            Err(DecodeError::TruncatedInput)
        }
    }

    /// Reads a 16-bit count and then that many entries.
    pub fn read_table(reader: &mut ClassReader) -> (r: Result<Vec<LocalVariableTableEntry>, DecodeError>)
        ensures
            final(reader).same_buffer(*old(reader)),
            match r {
                Ok(table) => yields(
                    Self::table_at(old(reader).bytes(), old(reader).position()),
                    table@,
                    final(reader).position(),
                ),
                Err(e) => fails(Self::table_at(old(reader).bytes(), old(reader).position()), e),
            },
    {
        let n: u16 = reader.read_u16()?;
        let ghost data = reader.bytes();
        let ghost start = reader.position();
        let mut table: Vec<LocalVariableTableEntry> = Vec::new();
        let mut i: u16 = 0;
        while i < n
            invariant
                i <= n,
                data == old(reader).bytes(),
                start == old(reader).position() + 2,
                fits(data, old(reader).position(), 2),
                n == be_u16(data, old(reader).position()),
                reader.advanced(*old(reader), 2 + 10 * i),
                table@ == Self::run(data, start, i as int),
            decreases n - i,
        {
            let start_pc: u16 = reader.read_u16()?;
            let length: u16 = reader.read_u16()?;
            let name_index: u16 = reader.read_u16()?;
            let descriptor_index: u16 = reader.read_u16()?;
            let index: u16 = reader.read_u16()?;
            table.push(LocalVariableTableEntry { start_pc, length, name_index, descriptor_index, index });
            i += 1;
            assert(table@ =~= Self::run(data, start, i as int));
        }
        Ok(table)
    }
}
/// The constant a field starts out with.
#[derive(Clone, Copy, Debug, PartialEq, Eq, Structural)]
pub struct ConstantValueAttribute {
    pub constant_value_index: u16,
}

/// The generic signature of a class or member.
#[derive(Clone, Copy, Debug, PartialEq, Eq, Structural)]
pub struct SignatureAttribute {
    pub signature_index: u16,
}

/// The name of the source file a class was compiled from.
#[derive(Clone, Copy, Debug, PartialEq, Eq, Structural)]
pub struct SourceFileAttribute {
    pub source_file_index: u16,
}

/// The checked exceptions a method may throw.
#[derive(Clone, Debug, PartialEq, Eq)]
pub struct ExceptionsAttribute {
    pub exception_index_table: Vec<u16>,
}

/// The classes nested in a class, and those that enclose it.
#[derive(Clone, Debug, PartialEq, Eq)]
pub struct InnerClassesAttribute {
    pub classes: Vec<InnerClassesEntry>,
}

/// The stack map of a method's code, kept as it is stored.
#[derive(Clone, Debug, PartialEq, Eq)]
pub struct StackMapTableAttribute {
    pub data: Vec<u8>,
}

/// The source lines of a method's code.
#[derive(Clone, Debug, PartialEq, Eq)]
pub struct LineNumberTableAttribute {
    pub line_number_entries: Vec<LineNumberTableEntry>,
}

/// The local variables of a method's code.
#[derive(Clone, Debug, PartialEq, Eq)]
pub struct LocalVariableTableAttribute {
    pub local_var_table_entries: Vec<LocalVariableTableEntry>,
}

/// An attribute with a name that is not known here: the name, and the
/// payload as it is stored.
#[derive(Clone, Debug, PartialEq, Eq)]
pub struct UnknownAttributeInfo {
    pub name: String,
    pub data: Vec<u8>,
}

/// The code of a method: its limits, its instructions, its exception
/// handlers, and attributes of its own.
#[derive(Debug, PartialEq, Eq)]
pub struct CodeAttribute {
    pub max_stack: u16,
    pub max_locals: u16,
    pub code: Vec<u8>,
    pub exception_table: Vec<ExceptionTableEntry>,
    pub attributes: Vec<Attribute>,
}

/// The payload of an attribute, by kind.
#[derive(Debug, PartialEq, Eq)]
pub enum AttributeInfo {
    Code(CodeAttribute),
    ConstantValue(ConstantValueAttribute),
    Exceptions(ExceptionsAttribute),
    InnerClasses(InnerClassesAttribute),
    Signature(SignatureAttribute),
    StackMapTable(StackMapTableAttribute),
    LineNumberTable(LineNumberTableAttribute),
    LocalVariableTable(LocalVariableTableAttribute),
    SourceFile(SourceFileAttribute),
    Unknown(UnknownAttributeInfo),
}

/// One attribute: the pool index of its name, and its payload.
#[derive(Debug, PartialEq, Eq)]
pub struct Attribute {
    pub name_index: u16,
    pub info: AttributeInfo,
}

/// What an attribute of unknown kind holds.
pub struct UnknownModel {
    pub name: Seq<char>,
    pub data: Seq<u8>,
}

/// What a `Code` attribute holds.
pub struct CodeModel {
    pub max_stack: u16,
    pub max_locals: u16,
    pub code: Seq<u8>,
    pub exception_table: Seq<ExceptionTableEntry>,
    pub attributes: Seq<AttributeModel>,
}

/// What the payload of an attribute holds.
pub enum AttributeInfoModel {
    Code(CodeModel),
    ConstantValue(ConstantValueAttribute),
    Exceptions(Seq<u16>),
    InnerClasses(Seq<InnerClassesEntry>),
    Signature(SignatureAttribute),
    StackMapTable(Seq<u8>),
    LineNumberTable(Seq<LineNumberTableEntry>),
    LocalVariableTable(Seq<LocalVariableTableEntry>),
    SourceFile(SourceFileAttribute),
    Unknown(UnknownModel),
}

/// What an attribute holds.
pub struct AttributeModel {
    pub name_index: u16,
    pub info: AttributeInfoModel,
}

/// What `attribute` holds.
pub open spec fn attribute_model(attribute: Attribute) -> AttributeModel
    decreases attribute,
{
    AttributeModel { name_index: attribute.name_index, info: info_model(attribute.info) }
}

/// What the payload `info` holds.
pub open spec fn info_model(info: AttributeInfo) -> AttributeInfoModel
    decreases info,
{
    match info {
        AttributeInfo::Code(a) => AttributeInfoModel::Code(code_model(a)),
        AttributeInfo::ConstantValue(a) => AttributeInfoModel::ConstantValue(a),
        AttributeInfo::Exceptions(a) => AttributeInfoModel::Exceptions(a.exception_index_table@),
        AttributeInfo::InnerClasses(a) => AttributeInfoModel::InnerClasses(a.classes@),
        AttributeInfo::Signature(a) => AttributeInfoModel::Signature(a),
        AttributeInfo::StackMapTable(a) => AttributeInfoModel::StackMapTable(a.data@),
        AttributeInfo::LineNumberTable(a) => AttributeInfoModel::LineNumberTable(
            a.line_number_entries@,
        ),
        AttributeInfo::LocalVariableTable(a) => AttributeInfoModel::LocalVariableTable(
            a.local_var_table_entries@,
        ),
        AttributeInfo::SourceFile(a) => AttributeInfoModel::SourceFile(a),
        AttributeInfo::Unknown(a) => AttributeInfoModel::Unknown(
            UnknownModel { name: a.name@, data: a.data@ },
        ),
    }
}

/// What the `Code` attribute `code` holds.
pub open spec fn code_model(code: CodeAttribute) -> CodeModel
    decreases code,
{
    CodeModel {
        max_stack: code.max_stack,
        max_locals: code.max_locals,
        code: code.code@,
        exception_table: code.exception_table@,
        attributes: attributes_model(code.attributes@),
    }
}

/// What a list of attributes holds.
pub open spec fn attributes_model(list: Seq<Attribute>) -> Seq<AttributeModel>
    decreases list,
{
    Seq::new(
        list.len(),
        |i: int|
            if 0 <= i < list.len() {
                attribute_model(list[i])
            } else {
                arbitrary()
            },
    )
}

impl View for Attribute {
    type V = AttributeModel;

    open spec fn view(&self) -> AttributeModel {
        attribute_model(*self)
    }
}

impl View for AttributeInfo {
    type V = AttributeInfoModel;

    open spec fn view(&self) -> AttributeInfoModel {
        info_model(*self)
    }
}

impl View for CodeAttribute {
    type V = CodeModel;

    open spec fn view(&self) -> CodeModel {
        code_model(*self)
    }
}

impl AttributeInfoModel {
    /// The name of this kind of attribute; for an unknown kind, the name it
    /// was stored under.
    pub open spec fn name(self) -> Seq<char> {
        match self {
            AttributeInfoModel::Code(_) => "Code"@,
            AttributeInfoModel::ConstantValue(_) => "ConstantValue"@,
            AttributeInfoModel::Exceptions(_) => "Exceptions"@,
            AttributeInfoModel::InnerClasses(_) => "InnerClasses"@,
            AttributeInfoModel::Signature(_) => "Signature"@,
            AttributeInfoModel::StackMapTable(_) => "StackMapTable"@,
            AttributeInfoModel::LineNumberTable(_) => "LineNumberTable"@,
            AttributeInfoModel::LocalVariableTable(_) => "LocalVariableTable"@,
            AttributeInfoModel::SourceFile(_) => "SourceFile"@,
            AttributeInfoModel::Unknown(u) => u.name,
        }
    }
}

/// The payload of the kind that `name` selects, before any field is read:
/// every number 0, every list empty. A name that selects no known kind gives
/// the unknown kind, which keeps the name.
pub open spec fn blank_for_name(name: Seq<char>) -> AttributeInfoModel {
    if name == "Code"@ {
        AttributeInfoModel::Code(
            CodeModel {
                max_stack: 0,
                max_locals: 0,
                code: Seq::empty(),
                exception_table: Seq::empty(),
                attributes: Seq::empty(),
            },
        )
    } else if name == "ConstantValue"@ {
        AttributeInfoModel::ConstantValue(ConstantValueAttribute { constant_value_index: 0 })
    } else if name == "InnerClasses"@ {
        AttributeInfoModel::InnerClasses(Seq::empty())
    } else if name == "Exceptions"@ {
        AttributeInfoModel::Exceptions(Seq::empty())
    } else if name == "Signature"@ {
        AttributeInfoModel::Signature(SignatureAttribute { signature_index: 0 })
    } else if name == "StackMapTable"@ {
        AttributeInfoModel::StackMapTable(Seq::empty())
    } else if name == "LineNumberTable"@ {
        AttributeInfoModel::LineNumberTable(Seq::empty())
    } else if name == "LocalVariableTable"@ {
        AttributeInfoModel::LocalVariableTable(Seq::empty())
    } else if name == "SourceFile"@ {
        AttributeInfoModel::SourceFile(SourceFileAttribute { source_file_index: 0 })
    } else {
        AttributeInfoModel::Unknown(UnknownModel { name, data: Seq::empty() })
    }
}

/// The fields of a `Code` attribute, from the start of `data`.
pub open spec fn parse_code(data: Seq<u8>, pool: ConstantPoolModel) -> Parsed<CodeModel>
    decreases data.len(), 2int, 0int,
{
    if !fits(data, 0, 8) || !fits(data, 8, be_u32(data, 4) as int) {
        Err(DecodeError::TruncatedInput)
    } else {
        let code_end = 8 + be_u32(data, 4);
        match ExceptionTableEntry::table_at(data, code_end) {
            Err(e) => Err(e),
            Ok((exception_table, table_end)) => match parse_attribute_list(data, table_end, pool) {
                Err(e) => Err(e),
                Ok((attributes, end)) => Ok(
                    (
                        CodeModel {
                            max_stack: be_u16(data, 0),
                            max_locals: be_u16(data, 2),
                            code: data.subrange(8, code_end),
                            exception_table,
                            attributes,
                        },
                        end,
                    ),
                ),
            },
        }
    }
}

/// The payload `data` of an attribute, read as the kind of `kind`.
pub open spec fn parse_attribute_info(
    kind: AttributeInfoModel,
    data: Seq<u8>,
    pool: ConstantPoolModel,
) -> Result<AttributeInfoModel, DecodeError>
    decreases data.len(), 3int, 0int,
{
    match kind {
        AttributeInfoModel::Code(_) => match whole(data, parse_code(data, pool)) {
            Ok(code) => Ok(AttributeInfoModel::Code(code)),
            Err(e) => Err(e),
        },
        AttributeInfoModel::ConstantValue(_) => match whole(data, u16_at(data, 0)) {
            Ok(index) => Ok(
                AttributeInfoModel::ConstantValue(
                    ConstantValueAttribute { constant_value_index: index },
                ),
            ),
            Err(e) => Err(e),
        },
        AttributeInfoModel::Exceptions(_) => match whole(data, u16s_at(data, 0)) {
            Ok(table) => Ok(AttributeInfoModel::Exceptions(table)),
            Err(e) => Err(e),
        },
        AttributeInfoModel::InnerClasses(_) => match whole(
            data,
            InnerClassesEntry::table_at(data, 0),
        ) {
            Ok(table) => Ok(AttributeInfoModel::InnerClasses(table)),
            Err(e) => Err(e),
        },
        AttributeInfoModel::Signature(_) => match whole(data, u16_at(data, 0)) {
            Ok(index) => Ok(
                AttributeInfoModel::Signature(SignatureAttribute { signature_index: index }),
            ),
            Err(e) => Err(e),
        },
        AttributeInfoModel::StackMapTable(_) => Ok(AttributeInfoModel::StackMapTable(data)),
        AttributeInfoModel::LineNumberTable(_) => match whole(
            data,
            LineNumberTableEntry::table_at(data, 0),
        ) {
            Ok(table) => Ok(AttributeInfoModel::LineNumberTable(table)),
            Err(e) => Err(e),
        },
        AttributeInfoModel::LocalVariableTable(_) => match whole(
            data,
            LocalVariableTableEntry::table_at(data, 0),
        ) {
            Ok(table) => Ok(AttributeInfoModel::LocalVariableTable(table)),
            Err(e) => Err(e),
        },
        AttributeInfoModel::SourceFile(_) => match whole(data, u16_at(data, 0)) {
            Ok(index) => Ok(
                AttributeInfoModel::SourceFile(SourceFileAttribute { source_file_index: index }),
            ),
            Err(e) => Err(e),
        },
        AttributeInfoModel::Unknown(u) => Ok(
            AttributeInfoModel::Unknown(UnknownModel { name: u.name, data }),
        ),
    }
}

/// The attribute whose name index starts at `pos`.
pub open spec fn parse_attribute(data: Seq<u8>, pos: int, pool: ConstantPoolModel) -> Parsed<
    AttributeModel,
>
    decreases data.len(), 0int, 0int,
{
    if !fits(data, pos, 2) {
        Err(DecodeError::TruncatedInput)
    } else {
        let name_index = be_u16(data, pos);
        match pool.utf8(name_index as int) {
            None => Err(DecodeError::InvalidNameIndex(name_index)),
            Some(name) => if !fits(data, pos + 2, 4) || !fits(
                data,
                pos + 6,
                be_u32(data, pos + 2) as int,
            ) {
                Err(DecodeError::TruncatedInput)
            } else {
                let end = pos + 6 + be_u32(data, pos + 2);
                match parse_attribute_info(
                    blank_for_name(name.text),
                    data.subrange(pos + 6, end),
                    pool,
                ) {
                    Err(e) => Err(e),
                    Ok(info) => Ok((AttributeModel { name_index, info }, end)),
                }
            },
        }
    }
}

/// The `n` attributes that start at `pos`.
pub open spec fn parse_attributes(data: Seq<u8>, pos: int, n: int, pool: ConstantPoolModel) -> Parsed<
    Seq<AttributeModel>,
>
    decreases data.len(), 0int, n + 1,
{
    if n <= 0 {
        Ok((Seq::empty(), pos))
    } else {
        match parse_attribute(data, pos, pool) {
            Err(e) => Err(e),
            Ok((first, next)) => match parse_attributes(data, next, n - 1, pool) {
                Err(e) => Err(e),
                Ok((rest, end)) => Ok((seq![first] + rest, end)),
            },
        }
    }
}

/// The counted list of attributes at `pos`.
pub open spec fn parse_attribute_list(data: Seq<u8>, pos: int, pool: ConstantPoolModel) -> Parsed<
    Seq<AttributeModel>,
>
    decreases data.len(), 1int, 0int,
{
    if !fits(data, pos, 2) {
        Err(DecodeError::TruncatedInput)
    } else {
        parse_attributes(data, pos + 2, be_u16(data, pos) as int, pool)
    }
}

impl ConstantValueAttribute {
    /// Reads the one index that the payload holds.
    pub fn read_data(&mut self, data: Vec<u8>, constant_pool: &ConstantPool) -> (r: Result<
        (),
        DecodeError,
    >)
        ensures
            match r {
                Ok(_) => gives(whole(data@, u16_at(data@, 0)), final(self).constant_value_index),
                Err(e) => refuses(whole(data@, u16_at(data@, 0)), e) && *final(self) == *old(self),
            },
    {
        let mut reader: ClassReader = ClassReader::new(data);
        let index: u16 = reader.read_u16()?;
        expect_end(&reader)?;
        self.constant_value_index = index;
        Ok(())
    }

    pub fn get_name(&self) -> (name: &str)
        ensures
            name@ == "ConstantValue"@,
    {
        "ConstantValue"
    }
}

impl SignatureAttribute {
    /// Reads the one index that the payload holds.
    pub fn read_data(&mut self, data: Vec<u8>, constant_pool: &ConstantPool) -> (r: Result<
        (),
        DecodeError,
    >)
        ensures
            match r {
                Ok(_) => gives(whole(data@, u16_at(data@, 0)), final(self).signature_index),
                Err(e) => refuses(whole(data@, u16_at(data@, 0)), e) && *final(self) == *old(self),
            },
    {
        let mut reader: ClassReader = ClassReader::new(data);
        let index: u16 = reader.read_u16()?;
        expect_end(&reader)?;
        self.signature_index = index;
        Ok(())
    }

    pub fn get_name(&self) -> (name: &str)
        ensures
            name@ == "Signature"@,
    {
        "Signature"
    }
}

impl SourceFileAttribute {
    /// Reads the one index that the payload holds.
    pub fn read_data(&mut self, data: Vec<u8>, constant_pool: &ConstantPool) -> (r: Result<
        (),
        DecodeError,
    >)
        ensures
            match r {
                Ok(_) => gives(whole(data@, u16_at(data@, 0)), final(self).source_file_index),
                Err(e) => refuses(whole(data@, u16_at(data@, 0)), e) && *final(self) == *old(self),
            },
    {
        let mut reader: ClassReader = ClassReader::new(data);
        let index: u16 = reader.read_u16()?;
        expect_end(&reader)?;
        self.source_file_index = index;
        Ok(())
    }

    pub fn get_name(&self) -> (name: &str)
        ensures
            name@ == "SourceFile"@,
    {
        "SourceFile"
    }
}

impl InnerClassesAttribute {
    /// Reads the table that the payload holds.
    pub fn read_data(&mut self, data: Vec<u8>, constant_pool: &ConstantPool) -> (r: Result<
        (),
        DecodeError,
    >)
        ensures
            match r {
                Ok(_) => gives(whole(data@, InnerClassesEntry::table_at(data@, 0)), final(self).classes@),
                Err(e) => refuses(whole(data@, InnerClassesEntry::table_at(data@, 0)), e) && *final(self)
                    == *old(self),
            },
    {
        let mut reader: ClassReader = ClassReader::new(data);
        let table: Vec<InnerClassesEntry> = InnerClassesEntry::read_table(&mut reader)?;
        expect_end(&reader)?;
        self.classes = table;
        Ok(())
    }

    pub fn get_name(&self) -> (name: &str)
        ensures
            name@ == "InnerClasses"@,
    {
        "InnerClasses"
    }
}

impl LineNumberTableAttribute {
    /// Reads the table that the payload holds.
    pub fn read_data(&mut self, data: Vec<u8>, constant_pool: &ConstantPool) -> (r: Result<
        (),
        DecodeError,
    >)
        ensures
            match r {
                Ok(_) => gives(whole(data@, LineNumberTableEntry::table_at(data@, 0)), final(self).line_number_entries@),
                Err(e) => refuses(whole(data@, LineNumberTableEntry::table_at(data@, 0)), e) && *final(self)
                    == *old(self),
            },
    {
        let mut reader: ClassReader = ClassReader::new(data);
        let table: Vec<LineNumberTableEntry> = LineNumberTableEntry::read_table(&mut reader)?;
        expect_end(&reader)?;
        self.line_number_entries = table;
        Ok(())
    }

    pub fn get_name(&self) -> (name: &str)
        ensures
            name@ == "LineNumberTable"@,
    {
        "LineNumberTable"
    }
}

impl LocalVariableTableAttribute {
    /// Reads the table that the payload holds.
    pub fn read_data(&mut self, data: Vec<u8>, constant_pool: &ConstantPool) -> (r: Result<
        (),
        DecodeError,
    >)
        ensures
            match r {
                Ok(_) => gives(whole(data@, LocalVariableTableEntry::table_at(data@, 0)), final(self).local_var_table_entries@),
                Err(e) => refuses(whole(data@, LocalVariableTableEntry::table_at(data@, 0)), e) && *final(self)
                    == *old(self),
            },
    {
        let mut reader: ClassReader = ClassReader::new(data);
        let table: Vec<LocalVariableTableEntry> = LocalVariableTableEntry::read_table(&mut reader)?;
        expect_end(&reader)?;
        self.local_var_table_entries = table;
        Ok(())
    }

    pub fn get_name(&self) -> (name: &str)
        ensures
            name@ == "LocalVariableTable"@,
    {
        "LocalVariableTable"
    }
}

impl ExceptionsAttribute {
    /// Reads the counted list of class indices that the payload holds.
    pub fn read_data(&mut self, data: Vec<u8>, constant_pool: &ConstantPool) -> (r: Result<
        (),
        DecodeError,
    >)
        ensures
            match r {
                Ok(_) => gives(whole(data@, u16s_at(data@, 0)), final(self).exception_index_table@),
                Err(e) => refuses(whole(data@, u16s_at(data@, 0)), e) && *final(self) == *old(self),
            },
    {
        let mut reader: ClassReader = ClassReader::new(data);
        let table: Vec<u16> = reader.read_u16s()?;
        expect_end(&reader)?;
        self.exception_index_table = table;
        Ok(())
    }

    pub fn get_name(&self) -> (name: &str)
        ensures
            name@ == "Exceptions"@,
    {
        "Exceptions"
    }
}

impl StackMapTableAttribute {
    /// Keeps the payload as it is.
    pub fn read_data(&mut self, data: Vec<u8>, constant_pool: &ConstantPool) -> (r: Result<
        (),
        DecodeError,
    >)
        ensures
            r is Ok,
            final(self).data@ == data@,
    {
        self.data = data;
        Ok(())
    }

    pub fn get_name(&self) -> (name: &str)
        ensures
            name@ == "StackMapTable"@,
    {
        "StackMapTable"
    }
}

impl UnknownAttributeInfo {
    /// Keeps the payload as it is, beside the name.
    pub fn read_data(&mut self, data: Vec<u8>, constant_pool: &ConstantPool) -> (r: Result<
        (),
        DecodeError,
    >)
        ensures
            r is Ok,
            final(self).data@ == data@,
            final(self).name == old(self).name,
    {
        self.data = data;
        Ok(())
    }

    /// The name the attribute was stored under.
    pub fn get_name(&self) -> (name: &str)
        ensures
            name@ == self.name@,
    {
        self.name.as_str()
    }
}

impl CodeAttribute {
    /// Reads a 16-bit count and then that many exception-table entries.
    pub fn read_exception_table(reader: &mut ClassReader) -> (r: Result<Vec<ExceptionTableEntry>, DecodeError>)
        ensures
            final(reader).same_buffer(*old(reader)),
            match r {
                Ok(table) => yields(
                    ExceptionTableEntry::table_at(old(reader).bytes(), old(reader).position()),
                    table@,
                    final(reader).position(),
                ),
                Err(e) => fails(ExceptionTableEntry::table_at(old(reader).bytes(), old(reader).position()), e),
            },
    {
        let n: u16 = reader.read_u16()?;
        let ghost data = reader.bytes();
        let ghost start = reader.position();
        let mut table: Vec<ExceptionTableEntry> = Vec::new();
        let mut i: u16 = 0;
        while i < n
            invariant
                i <= n,
                data == old(reader).bytes(),
                start == old(reader).position() + 2,
                fits(data, old(reader).position(), 2),
                n == be_u16(data, old(reader).position()),
                reader.advanced(*old(reader), 2 + 8 * i),
                table@ == ExceptionTableEntry::run(data, start, i as int),
            decreases n - i,
        {
            let start_pc: u16 = reader.read_u16()?;
            let end_pc: u16 = reader.read_u16()?;
            let handler_pc: u16 = reader.read_u16()?;
            let catch_type: u16 = reader.read_u16()?;
            table.push(ExceptionTableEntry { start_pc, end_pc, handler_pc, catch_type });
            i += 1;
            assert(table@ =~= ExceptionTableEntry::run(data, start, i as int));
        }
        Ok(table)
    }

    /// Reads the limits, the code, the exception table and the nested
    /// attributes, in this order.
    pub fn read_data(&mut self, data: Vec<u8>, constant_pool: &ConstantPool) -> (r: Result<
        (),
        DecodeError,
    >)
        ensures
            match r {
                Ok(_) => gives(whole(data@, parse_code(data@, constant_pool@)), final(self)@),
                Err(e) => refuses(whole(data@, parse_code(data@, constant_pool@)), e) && *final(self)
                    == *old(self),
            },
        decreases data@.len(), 2int, 0int,
    {
        let mut reader: ClassReader = ClassReader::new(data);
        let max_stack: u16 = reader.read_u16()?;
        let max_locals: u16 = reader.read_u16()?;
        let code_len: u32 = reader.read_u32()?;
        let code: Vec<u8> = reader.read_data(code_len as usize)?;
        let exception_table: Vec<ExceptionTableEntry> = CodeAttribute::read_exception_table(
            &mut reader,
        )?;
        let attributes: Vec<Attribute> = read_attribute_info_vec(&mut reader, constant_pool)?;
        expect_end(&reader)?;
        self.max_stack = max_stack;
        self.max_locals = max_locals;
        self.code = code;
        self.exception_table = exception_table;
        self.attributes = attributes;
        Ok(())
    }

    pub fn get_name(&self) -> (name: &str)
        ensures
            name@ == "Code"@,
    {
        "Code"
    }
}

impl AttributeInfo {
    /// The blank payload of the kind that `name` selects.
    pub fn for_name(name: &String) -> (info: AttributeInfo)
        ensures
            info@ == blank_for_name(name@),
    {
        if is_named(name, "Code") {
            let info = AttributeInfo::Code(
                CodeAttribute {
                    max_stack: 0,
                    max_locals: 0,
                    code: Vec::new(),
                    exception_table: Vec::new(),
                    attributes: Vec::new(),
                },
            );
            assert(info@->Code_0.attributes =~= Seq::empty());
            info
        } else if is_named(name, "ConstantValue") {
            AttributeInfo::ConstantValue(ConstantValueAttribute { constant_value_index: 0 })
        } else if is_named(name, "InnerClasses") {
            AttributeInfo::InnerClasses(InnerClassesAttribute { classes: Vec::new() })
        } else if is_named(name, "Exceptions") {
            AttributeInfo::Exceptions(ExceptionsAttribute { exception_index_table: Vec::new() })
        } else if is_named(name, "Signature") {
            AttributeInfo::Signature(SignatureAttribute { signature_index: 0 })
        } else if is_named(name, "StackMapTable") {
            AttributeInfo::StackMapTable(StackMapTableAttribute { data: Vec::new() })
        } else if is_named(name, "LineNumberTable") {
            AttributeInfo::LineNumberTable(
                LineNumberTableAttribute { line_number_entries: Vec::new() },
            )
        } else if is_named(name, "LocalVariableTable") {
            AttributeInfo::LocalVariableTable(
                LocalVariableTableAttribute { local_var_table_entries: Vec::new() },
            )
        } else if is_named(name, "SourceFile") {
            AttributeInfo::SourceFile(SourceFileAttribute { source_file_index: 0 })
        } else {
            AttributeInfo::Unknown(UnknownAttributeInfo { name: name.clone(), data: Vec::new() })
        }
    }

    /// Reads the payload `data` into this attribute, whatever it held
    /// before.
    pub fn read_data(&mut self, data: Vec<u8>, constant_pool: &ConstantPool) -> (r: Result<
        (),
        DecodeError,
    >)
        ensures
            match r {
                Ok(_) => gives(
                    parse_attribute_info(old(self)@, data@, constant_pool@),
                    final(self)@,
                ),
                Err(e) => refuses(parse_attribute_info(old(self)@, data@, constant_pool@), e)
                    && *final(self) == *old(self),
            },
        decreases data@.len(), 3int, 0int,
    {
        match self {
            AttributeInfo::Code(a) => a.read_data(data, constant_pool),
            AttributeInfo::ConstantValue(a) => a.read_data(data, constant_pool),
            AttributeInfo::Exceptions(a) => a.read_data(data, constant_pool),
            AttributeInfo::InnerClasses(a) => a.read_data(data, constant_pool),
            AttributeInfo::Signature(a) => a.read_data(data, constant_pool),
            AttributeInfo::StackMapTable(a) => a.read_data(data, constant_pool),
            AttributeInfo::LineNumberTable(a) => a.read_data(data, constant_pool),
            AttributeInfo::LocalVariableTable(a) => a.read_data(data, constant_pool),
            AttributeInfo::SourceFile(a) => a.read_data(data, constant_pool),
            AttributeInfo::Unknown(a) => a.read_data(data, constant_pool),
        }
    }

    /// The name of this kind of attribute; for an unknown kind, the name it
    /// was stored under.
    pub fn get_name(&self) -> (name: &str)
        ensures
            name@ == self@.name(),
    {
        match self {
            AttributeInfo::Code(a) => a.get_name(),
            AttributeInfo::ConstantValue(a) => a.get_name(),
            AttributeInfo::Exceptions(a) => a.get_name(),
            AttributeInfo::InnerClasses(a) => a.get_name(),
            AttributeInfo::Signature(a) => a.get_name(),
            AttributeInfo::StackMapTable(a) => a.get_name(),
            AttributeInfo::LineNumberTable(a) => a.get_name(),
            AttributeInfo::LocalVariableTable(a) => a.get_name(),
            AttributeInfo::SourceFile(a) => a.get_name(),
            AttributeInfo::Unknown(a) => a.get_name(),
        }
    }
}

spec fn followed_by(done: Seq<AttributeModel>, rest: Parsed<Seq<AttributeModel>>) -> Parsed<
    Seq<AttributeModel>,
> {
    match rest {
        Ok((list, end)) => Ok((done + list, end)),
        Err(e) => Err(e),
    }
}

/// Reads a 16-bit count and then that many attributes, in order.
pub fn read_attribute_info_vec(reader: &mut ClassReader, cp: &ConstantPool) -> (r: Result<
    Vec<Attribute>,
    DecodeError,
>)
    ensures
        final(reader).same_buffer(*old(reader)),
        match r {
            Ok(list) => yields(
                parse_attribute_list(old(reader).bytes(), old(reader).position(), cp@),
                attributes_model(list@),
                final(reader).position(),
            ),
            Err(e) => fails(
                parse_attribute_list(old(reader).bytes(), old(reader).position(), cp@),
                e,
            ),
        },
    decreases old(reader).bytes().len(), 1int, 0int,
{
    let n: u16 = reader.read_u16()?;
    let ghost data = reader.bytes();
    let ghost start = reader.position();
    let ghost mut done: Seq<AttributeModel> = Seq::empty();
    let mut list: Vec<Attribute> = Vec::new();
    let mut i: u16 = 0;
    assert(attributes_model(list@) =~= done);
    assert(done + parse_attributes(data, start, n as int, cp@)->Ok_0.0 =~= parse_attributes(
        data,
        start,
        n as int,
        cp@,
    )->Ok_0.0);
    while i < n
        invariant
            i <= n,
            data == old(reader).bytes(),
            start == old(reader).position() + 2,
            fits(data, old(reader).position(), 2),
            n == be_u16(data, old(reader).position()),
            reader.same_buffer(*old(reader)),
            attributes_model(list@) == done,
            parse_attributes(data, start, n as int, cp@) == followed_by(
                done,
                parse_attributes(data, reader.position(), n - i, cp@),
            ),
        decreases n - i,
    {
        let ghost before = list@;
        let attribute: Attribute = read_attribute_info(reader, cp)?;
        let ghost model = attribute@;
        list.push(attribute);
        i += 1;
        proof {
            let rest = parse_attributes(data, reader.position(), n - i, cp@);
            let prior = done;
            done = prior.push(model);
            assert(attributes_model(list@) =~= attributes_model(before).push(model));
            if rest is Ok {
                assert(done + rest->Ok_0.0 =~= prior + (seq![model] + rest->Ok_0.0));
            }
        }
    }
    assert(done + Seq::<AttributeModel>::empty() =~= done);
    Ok(list)
}

/// Reads one attribute: the index of its name, its length, and a payload
/// of that length, which is decoded as the name says.
pub fn read_attribute_info(reader: &mut ClassReader, cp: &ConstantPool) -> (r: Result<
    Attribute,
    DecodeError,
>)
    ensures
        final(reader).same_buffer(*old(reader)),
        match r {
            Ok(attribute) => yields(
                parse_attribute(old(reader).bytes(), old(reader).position(), cp@),
                attribute@,
                final(reader).position(),
            ),
            Err(e) => fails(parse_attribute(old(reader).bytes(), old(reader).position(), cp@), e),
        },
    decreases old(reader).bytes().len(), 0int, 0int,
{
    let name_index: u16 = reader.read_u16()?;
    let name: &String = match cp.get_utf8(name_index as usize) {
        Some(utf8) => utf8.get_str(),
        None => {
            return Err(DecodeError::InvalidNameIndex(name_index));
        },
    };
    let data_len: u32 = reader.read_u32()?;
    let data: Vec<u8> = reader.read_data(data_len as usize)?;
    let mut info: AttributeInfo = AttributeInfo::for_name(name);
    info.read_data(data, cp)?;
    Ok(Attribute { name_index, info })
}

} // verus!
