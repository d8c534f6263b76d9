//! The constant pool: the table of literals and symbolic references that
//! the rest of a class file points into by index.
//!
//! Each record starts with a one-byte tag. Index 0 is never used, and a long
//! or double constant takes two indices, of which the second stays empty.

use crate::bits::{be_u16, be_u32, be_u64, fits, signed32, signed64, to_i32, to_i64};
use crate::class::simple_loader::class_reader::{fails, yields, ClassReader, Parsed};
use crate::class::simple_loader::mutf8::{decode_code_units, mutf8_text, utf16_to_string};
use crate::error::DecodeError;
use vstd::prelude::*;

verus! {

/// A UTF8 constant: the bytes as stored, and the text they encode.
#[derive(Clone, Debug, PartialEq, Eq)]
pub struct ConstantUTF8Info {
    pub bytes: Vec<u8>,
    pub str: String,
}

/// What a UTF8 constant holds.
pub struct Utf8Model {
    pub bytes: Seq<u8>,
    pub text: Seq<char>,
}

impl View for ConstantUTF8Info {
    type V = Utf8Model;

    open spec fn view(&self) -> Utf8Model {
        Utf8Model { bytes: self.bytes@, text: self.str@ }
    }
}

/// The UTF8 record whose length field starts at `pos`.
pub open spec fn parse_utf8(data: Seq<u8>, pos: int) -> Parsed<Utf8Model> {
    if !fits(data, pos, 2) || !fits(data, pos + 2, be_u16(data, pos) as int) {
        Err(DecodeError::TruncatedInput)
    } else {
        let end = pos + 2 + be_u16(data, pos);
        let bytes = data.subrange(pos + 2, end);
        match mutf8_text(bytes) {
            Some(text) => Ok((Utf8Model { bytes, text }, end)),
            None => Err(DecodeError::MalformedStringEncoding),
        }
    }
}

impl ConstantUTF8Info {
    /// Decodes a modified UTF-8 byte string: first into UTF-16 code units,
    /// then into text.
    pub fn decode_mutf8(data: &Vec<u8>) -> (r: Result<String, DecodeError>)
        ensures
            match r {
                Ok(text) => mutf8_text(data@) == Some(text@),
                Err(e) => e == DecodeError::MalformedStringEncoding && mutf8_text(data@) is None,
            },
    {
        let units: Vec<u16> = decode_code_units(data)?;
        Ok(utf16_to_string(&units))
    }

    pub fn get_str(&self) -> (s: &String)
        ensures
            s@ == self@.text,
    {
        &self.str
    }

    /// Reads the record's length and bytes, and decodes them. A UTF8 record
    /// is never wide.
    pub fn read_info(&mut self, reader: &mut ClassReader) -> (r: Result<bool, DecodeError>)
        ensures
            final(reader).same_buffer(*old(reader)),
            match r {
                Ok(wide) => !wide && yields(
                    parse_utf8(old(reader).bytes(), old(reader).position()),
                    final(self)@,
                    final(reader).position(),
                ),
                Err(e) => fails(parse_utf8(old(reader).bytes(), old(reader).position()), e)
                    && *final(self) == *old(self),
            },
    {
        let size: u16 = reader.read_u16()?;
        let data: Vec<u8> = reader.read_data(size as usize)?;
        let text: String = ConstantUTF8Info::decode_mutf8(&data)?;
        self.bytes = data;
        self.str = text;
        Ok(false)
    }
}

/// A 32-bit integer constant.
#[derive(Clone, Copy, Debug, PartialEq, Eq, Structural)]
pub struct ConstantIntegerInfo {
    pub val: i32,
}

impl ConstantIntegerInfo {
    /// The record whose fields start at `pos`.
    pub open spec fn at(data: Seq<u8>, pos: int) -> Self {
        ConstantIntegerInfo { val: signed32(be_u32(data, pos)) }
    }

    /// Reads the record's fields. The answer says whether the record is wide.
    pub fn read_info(&mut self, reader: &mut ClassReader) -> (r: Result<bool, DecodeError>)
        ensures
            match r {
                Ok(wide) => !wide && final(reader).took(*old(reader), 4) && *final(self)
                    == Self::at(old(reader).bytes(), old(reader).position()),
                Err(e) => e == DecodeError::TruncatedInput && final(reader).fell_short(
                    *old(reader),
                    4,
                ) && *final(self) == *old(self),
            },
    {
        let val: i32 = to_i32(reader.read_u32()?);
        self.val = val;
        Ok(false)
    }
}

/// A 32-bit floating-point constant, held as its IEEE 754 bit pattern.
#[derive(Clone, Copy, Debug, PartialEq, Eq, Structural)]
pub struct ConstantFloatInfo {
    pub bits: u32,
}

impl ConstantFloatInfo {
    /// The record whose fields start at `pos`.
    pub open spec fn at(data: Seq<u8>, pos: int) -> Self {
        ConstantFloatInfo { bits: be_u32(data, pos) }
    }

    /// Reads the record's fields. The answer says whether the record is wide.
    pub fn read_info(&mut self, reader: &mut ClassReader) -> (r: Result<bool, DecodeError>)
        ensures
            match r {
                Ok(wide) => !wide && final(reader).took(*old(reader), 4) && *final(self)
                    == Self::at(old(reader).bytes(), old(reader).position()),
                Err(e) => e == DecodeError::TruncatedInput && final(reader).fell_short(
                    *old(reader),
                    4,
                ) && *final(self) == *old(self),
            },
    {
        let bits: u32 = reader.read_u32()?;
        self.bits = bits;
        Ok(false)
    }
}

/// A 64-bit integer constant. It takes two pool indices.
#[derive(Clone, Copy, Debug, PartialEq, Eq, Structural)]
pub struct ConstantLongInfo {
    pub val: i64,
}

impl ConstantLongInfo {
    /// The record whose fields start at `pos`.
    pub open spec fn at(data: Seq<u8>, pos: int) -> Self {
        ConstantLongInfo { val: signed64(be_u64(data, pos)) }
    }

    /// Reads the record's fields. The answer says whether the record is wide.
    pub fn read_info(&mut self, reader: &mut ClassReader) -> (r: Result<bool, DecodeError>)
        ensures
            match r {
                Ok(wide) => wide && final(reader).took(*old(reader), 8) && *final(self)
                    == Self::at(old(reader).bytes(), old(reader).position()),
                Err(e) => e == DecodeError::TruncatedInput && final(reader).fell_short(
                    *old(reader),
                    8,
                ) && *final(self) == *old(self),
            },
    {
        let val: i64 = to_i64(reader.read_u64()?);
        self.val = val;
        Ok(true)
    }
}

/// A 64-bit floating-point constant, held as its IEEE 754 bit pattern. It
/// takes two pool indices.
#[derive(Clone, Copy, Debug, PartialEq, Eq, Structural)]
pub struct ConstantDoubleInfo {
    pub bits: u64,
}

impl ConstantDoubleInfo {
    /// The record whose fields start at `pos`.
    pub open spec fn at(data: Seq<u8>, pos: int) -> Self {
        ConstantDoubleInfo { bits: be_u64(data, pos) }
    }

    /// Reads the record's fields. The answer says whether the record is wide.
    pub fn read_info(&mut self, reader: &mut ClassReader) -> (r: Result<bool, DecodeError>)
        ensures
            match r {
                Ok(wide) => wide && final(reader).took(*old(reader), 8) && *final(self)
                    == Self::at(old(reader).bytes(), old(reader).position()),
                Err(e) => e == DecodeError::TruncatedInput && final(reader).fell_short(
                    *old(reader),
                    8,
                ) && *final(self) == *old(self),
            },
    {
        let bits: u64 = reader.read_u64()?;
        self.bits = bits;
        Ok(true)
    }
}

/// A class, named by a UTF8 constant.
#[derive(Clone, Copy, Debug, PartialEq, Eq, Structural)]
pub struct ConstantClassInfo {
    pub name_index: u16,
}

impl ConstantClassInfo {
    /// The record whose fields start at `pos`.
    pub open spec fn at(data: Seq<u8>, pos: int) -> Self {
        ConstantClassInfo { name_index: be_u16(data, pos) }
    }

    /// Reads the record's fields. The answer says whether the record is wide.
    pub fn read_info(&mut self, reader: &mut ClassReader) -> (r: Result<bool, DecodeError>)
        ensures
            match r {
                Ok(wide) => !wide && final(reader).took(*old(reader), 2) && *final(self)
                    == Self::at(old(reader).bytes(), old(reader).position()),
                Err(e) => e == DecodeError::TruncatedInput && final(reader).fell_short(
                    *old(reader),
                    2,
                ) && *final(self) == *old(self),
            },
    {
        let name_index: u16 = reader.read_u16()?;
        self.name_index = name_index;
        Ok(false)
    }
}

/// A string literal, whose text is a UTF8 constant.
#[derive(Clone, Copy, Debug, PartialEq, Eq, Structural)]
pub struct ConstantStringInfo {
    pub string_index: u16,
}

impl ConstantStringInfo {
    /// The record whose fields start at `pos`.
    pub open spec fn at(data: Seq<u8>, pos: int) -> Self {
        ConstantStringInfo { string_index: be_u16(data, pos) }
    }

    /// Reads the record's fields. The answer says whether the record is wide.
    pub fn read_info(&mut self, reader: &mut ClassReader) -> (r: Result<bool, DecodeError>)
        ensures
            match r {
                Ok(wide) => !wide && final(reader).took(*old(reader), 2) && *final(self)
                    == Self::at(old(reader).bytes(), old(reader).position()),
                Err(e) => e == DecodeError::TruncatedInput && final(reader).fell_short(
                    *old(reader),
                    2,
                ) && *final(self) == *old(self),
            },
    {
        let string_index: u16 = reader.read_u16()?;
        self.string_index = string_index;
        Ok(false)
    }
}

/// A field of a class.
#[derive(Clone, Copy, Debug, PartialEq, Eq, Structural)]
pub struct ConstantFieldRefInfo {
    pub class_index: u16,
    pub name_and_type_index: u16,
}

impl ConstantFieldRefInfo {
    /// The record whose fields start at `pos`.
    pub open spec fn at(data: Seq<u8>, pos: int) -> Self {
        ConstantFieldRefInfo {
            class_index: be_u16(data, pos),
            name_and_type_index: be_u16(data, pos + 2),
        }
    }

    /// Reads the record's fields. The answer says whether the record is wide.
    pub fn read_info(&mut self, reader: &mut ClassReader) -> (r: Result<bool, DecodeError>)
        ensures
            match r {
                Ok(wide) => !wide && final(reader).took(*old(reader), 4) && *final(self)
                    == Self::at(old(reader).bytes(), old(reader).position()),
                Err(e) => e == DecodeError::TruncatedInput && final(reader).fell_short(
                    *old(reader),
                    4,
                ) && *final(self) == *old(self),
            },
    {
        let class_index: u16 = reader.read_u16()?;
        let name_and_type_index: u16 = reader.read_u16()?;
        self.class_index = class_index;
        self.name_and_type_index = name_and_type_index;
        Ok(false)
    }
}

/// A method of a class.
#[derive(Clone, Copy, Debug, PartialEq, Eq, Structural)]
pub struct ConstantMethodRefInfo {
    pub class_index: u16,
    pub name_and_type_index: u16,
}

impl ConstantMethodRefInfo {
    /// The record whose fields start at `pos`.
    pub open spec fn at(data: Seq<u8>, pos: int) -> Self {
        ConstantMethodRefInfo {
            class_index: be_u16(data, pos),
            name_and_type_index: be_u16(data, pos + 2),
        }
    }

    /// Reads the record's fields. The answer says whether the record is wide.
    pub fn read_info(&mut self, reader: &mut ClassReader) -> (r: Result<bool, DecodeError>)
        ensures
            match r {
                Ok(wide) => !wide && final(reader).took(*old(reader), 4) && *final(self)
                    == Self::at(old(reader).bytes(), old(reader).position()),
                Err(e) => e == DecodeError::TruncatedInput && final(reader).fell_short(
                    *old(reader),
                    4,
                ) && *final(self) == *old(self),
            },
    {
        let class_index: u16 = reader.read_u16()?;
        let name_and_type_index: u16 = reader.read_u16()?;
        self.class_index = class_index;
        self.name_and_type_index = name_and_type_index;
        Ok(false)
    }
}

/// A method of an interface.
#[derive(Clone, Copy, Debug, PartialEq, Eq, Structural)]
pub struct ConstantInterfaceMethodRefInfo {
    pub class_index: u16,
    pub name_and_type_index: u16,
}

impl ConstantInterfaceMethodRefInfo {
    /// The record whose fields start at `pos`.
    pub open spec fn at(data: Seq<u8>, pos: int) -> Self {
        ConstantInterfaceMethodRefInfo {
            class_index: be_u16(data, pos),
            name_and_type_index: be_u16(data, pos + 2),
        }
    }

    /// Reads the record's fields. The answer says whether the record is wide.
    pub fn read_info(&mut self, reader: &mut ClassReader) -> (r: Result<bool, DecodeError>)
        ensures
            match r {
                Ok(wide) => !wide && final(reader).took(*old(reader), 4) && *final(self)
                    == Self::at(old(reader).bytes(), old(reader).position()),
                Err(e) => e == DecodeError::TruncatedInput && final(reader).fell_short(
                    *old(reader),
                    4,
                ) && *final(self) == *old(self),
            },
    {
        let class_index: u16 = reader.read_u16()?;
        let name_and_type_index: u16 = reader.read_u16()?;
        self.class_index = class_index;
        self.name_and_type_index = name_and_type_index;
        Ok(false)
    }
}

/// A name together with a type descriptor.
#[derive(Clone, Copy, Debug, PartialEq, Eq, Structural)]
pub struct ConstantNameAndTypeInfo {
    pub name_index: u16,
    pub descriptor_index: u16,
}

impl ConstantNameAndTypeInfo {
    /// The record whose fields start at `pos`.
    pub open spec fn at(data: Seq<u8>, pos: int) -> Self {
        ConstantNameAndTypeInfo {
            name_index: be_u16(data, pos),
            descriptor_index: be_u16(data, pos + 2),
        }
    }

    /// Reads the record's fields. The answer says whether the record is wide.
    pub fn read_info(&mut self, reader: &mut ClassReader) -> (r: Result<bool, DecodeError>)
        ensures
            match r {
                Ok(wide) => !wide && final(reader).took(*old(reader), 4) && *final(self)
                    == Self::at(old(reader).bytes(), old(reader).position()),
                Err(e) => e == DecodeError::TruncatedInput && final(reader).fell_short(
                    *old(reader),
                    4,
                ) && *final(self) == *old(self),
            },
    {
        let name_index: u16 = reader.read_u16()?;
        let descriptor_index: u16 = reader.read_u16()?;
        self.name_index = name_index;
        self.descriptor_index = descriptor_index;
        Ok(false)
    }
}

/// A method handle: what it does, and the member it refers to.
#[derive(Clone, Copy, Debug, PartialEq, Eq, Structural)]
pub struct ConstantMethodHandleInfo {
    pub reference_kind: u8,
    pub reference_index: u16,
}

impl ConstantMethodHandleInfo {
    /// The record whose fields start at `pos`.
    pub open spec fn at(data: Seq<u8>, pos: int) -> Self {
        ConstantMethodHandleInfo {
            reference_kind: data[pos],
            reference_index: be_u16(data, pos + 1),
        }
    }

    /// Reads the record's fields. The answer says whether the record is wide.
    pub fn read_info(&mut self, reader: &mut ClassReader) -> (r: Result<bool, DecodeError>)
        ensures
            match r {
                Ok(wide) => !wide && final(reader).took(*old(reader), 3) && *final(self)
                    == Self::at(old(reader).bytes(), old(reader).position()),
                Err(e) => e == DecodeError::TruncatedInput && final(reader).fell_short(
                    *old(reader),
                    3,
                ) && *final(self) == *old(self),
            },
    {
        let reference_kind: u8 = reader.read_u8()?;
        let reference_index: u16 = reader.read_u16()?;
        self.reference_kind = reference_kind;
        self.reference_index = reference_index;
        Ok(false)
    }
}

/// A method type, given by its descriptor.
#[derive(Clone, Copy, Debug, PartialEq, Eq, Structural)]
pub struct ConstantMethodTypeInfo {
    pub descriptor_index: u16,
}

impl ConstantMethodTypeInfo {
    /// The record whose fields start at `pos`.
    pub open spec fn at(data: Seq<u8>, pos: int) -> Self {
        ConstantMethodTypeInfo { descriptor_index: be_u16(data, pos) }
    }

    /// Reads the record's fields. The answer says whether the record is wide.
    pub fn read_info(&mut self, reader: &mut ClassReader) -> (r: Result<bool, DecodeError>)
        ensures
            match r {
                Ok(wide) => !wide && final(reader).took(*old(reader), 2) && *final(self)
                    == Self::at(old(reader).bytes(), old(reader).position()),
                Err(e) => e == DecodeError::TruncatedInput && final(reader).fell_short(
                    *old(reader),
                    2,
                ) && *final(self) == *old(self),
            },
    {
        let descriptor_index: u16 = reader.read_u16()?;
        self.descriptor_index = descriptor_index;
        Ok(false)
    }
}

/// A dynamically computed call site.
#[derive(Clone, Copy, Debug, PartialEq, Eq, Structural)]
pub struct ConstantInvokeDynamicInfo {
    pub bootstrap_method_attr_index: u16,
    pub name_and_type_index: u16,
}

impl ConstantInvokeDynamicInfo {
    /// The record whose fields start at `pos`.
    pub open spec fn at(data: Seq<u8>, pos: int) -> Self {
        ConstantInvokeDynamicInfo {
            bootstrap_method_attr_index: be_u16(data, pos),
            name_and_type_index: be_u16(data, pos + 2),
        }
    }

    /// Reads the record's fields. The answer says whether the record is wide.
    pub fn read_info(&mut self, reader: &mut ClassReader) -> (r: Result<bool, DecodeError>)
        ensures
            match r {
                Ok(wide) => !wide && final(reader).took(*old(reader), 4) && *final(self)
                    == Self::at(old(reader).bytes(), old(reader).position()),
                Err(e) => e == DecodeError::TruncatedInput && final(reader).fell_short(
                    *old(reader),
                    4,
                ) && *final(self) == *old(self),
            },
    {
        let bootstrap_method_attr_index: u16 = reader.read_u16()?;
        let name_and_type_index: u16 = reader.read_u16()?;
        self.bootstrap_method_attr_index = bootstrap_method_attr_index;
        self.name_and_type_index = name_and_type_index;
        Ok(false)
    }
}

/// The shape that field, method and interface-method references share.
#[derive(Clone, Copy, Debug, PartialEq, Eq, Structural)]
pub struct ConstantMemberRefInfo {
    pub class_index: u16,
    pub name_and_type_index: u16,
}

impl ConstantMemberRefInfo {
    /// The record whose fields start at `pos`.
    pub open spec fn at(data: Seq<u8>, pos: int) -> Self {
        ConstantMemberRefInfo {
            class_index: be_u16(data, pos),
            name_and_type_index: be_u16(data, pos + 2),
        }
    }

    /// Reads the record's fields. The answer says whether the record is wide.
    pub fn read_info(&mut self, reader: &mut ClassReader) -> (r: Result<bool, DecodeError>)
        ensures
            match r {
                Ok(wide) => !wide && final(reader).took(*old(reader), 4) && *final(self)
                    == Self::at(old(reader).bytes(), old(reader).position()),
                Err(e) => e == DecodeError::TruncatedInput && final(reader).fell_short(
                    *old(reader),
                    4,
                ) && *final(self) == *old(self),
            },
    {
        let class_index: u16 = reader.read_u16()?;
        let name_and_type_index: u16 = reader.read_u16()?;
        self.class_index = class_index;
        self.name_and_type_index = name_and_type_index;
        Ok(false)
    }
}
/// One constant of the pool.
#[derive(Clone, Debug, PartialEq, Eq)]
pub enum ConstantInfo {
    Utf8(ConstantUTF8Info),
    Integer(ConstantIntegerInfo),
    Float(ConstantFloatInfo),
    Long(ConstantLongInfo),
    Double(ConstantDoubleInfo),
    Class(ConstantClassInfo),
    Str(ConstantStringInfo),
    FieldRef(ConstantFieldRefInfo),
    MethodRef(ConstantMethodRefInfo),
    InterfaceMethodRef(ConstantInterfaceMethodRefInfo),
    NameAndType(ConstantNameAndTypeInfo),
    MethodHandle(ConstantMethodHandleInfo),
    MethodType(ConstantMethodTypeInfo),
    InvokeDynamic(ConstantInvokeDynamicInfo),
}

/// What a constant holds.
pub enum ConstantModel {
    Utf8(Utf8Model),
    Integer(ConstantIntegerInfo),
    Float(ConstantFloatInfo),
    Long(ConstantLongInfo),
    Double(ConstantDoubleInfo),
    Class(ConstantClassInfo),
    Str(ConstantStringInfo),
    FieldRef(ConstantFieldRefInfo),
    MethodRef(ConstantMethodRefInfo),
    InterfaceMethodRef(ConstantInterfaceMethodRefInfo),
    NameAndType(ConstantNameAndTypeInfo),
    MethodHandle(ConstantMethodHandleInfo),
    MethodType(ConstantMethodTypeInfo),
    InvokeDynamic(ConstantInvokeDynamicInfo),
}

impl ConstantModel {
    /// The tag byte that starts a record of this kind.
    pub open spec fn tag(self) -> u8 {
        match self {
            ConstantModel::Utf8(_) => 1,
            ConstantModel::Integer(_) => 3,
            ConstantModel::Float(_) => 4,
            ConstantModel::Long(_) => 5,
            ConstantModel::Double(_) => 6,
            ConstantModel::Class(_) => 7,
            ConstantModel::Str(_) => 8,
            ConstantModel::FieldRef(_) => 9,
            ConstantModel::MethodRef(_) => 10,
            ConstantModel::InterfaceMethodRef(_) => 11,
            ConstantModel::NameAndType(_) => 12,
            ConstantModel::MethodHandle(_) => 15,
            ConstantModel::MethodType(_) => 16,
            ConstantModel::InvokeDynamic(_) => 18,
        }
    }

    /// A long or a double: the record takes two pool indices.
    pub open spec fn is_wide(self) -> bool {
        self is Long || self is Double
    }

    /// Number of pool indices that this record takes.
    pub open spec fn index_span(self) -> int {
        if self.is_wide() {
            2
        } else {
            1
        }
    }

    /// The pool slots that this record fills.
    pub open spec fn slots(self) -> Seq<Option<ConstantModel>> {
        if self.is_wide() {
            seq![Some(self), None]
        } else {
            seq![Some(self)]
        }
    }
}

impl View for ConstantInfo {
    type V = ConstantModel;

    open spec fn view(&self) -> ConstantModel {
        match *self {
            ConstantInfo::Utf8(c) => ConstantModel::Utf8(c@),
            ConstantInfo::Integer(c) => ConstantModel::Integer(c),
            ConstantInfo::Float(c) => ConstantModel::Float(c),
            ConstantInfo::Long(c) => ConstantModel::Long(c),
            ConstantInfo::Double(c) => ConstantModel::Double(c),
            ConstantInfo::Class(c) => ConstantModel::Class(c),
            ConstantInfo::Str(c) => ConstantModel::Str(c),
            ConstantInfo::FieldRef(c) => ConstantModel::FieldRef(c),
            ConstantInfo::MethodRef(c) => ConstantModel::MethodRef(c),
            ConstantInfo::InterfaceMethodRef(c) => ConstantModel::InterfaceMethodRef(c),
            ConstantInfo::NameAndType(c) => ConstantModel::NameAndType(c),
            ConstantInfo::MethodHandle(c) => ConstantModel::MethodHandle(c),
            ConstantInfo::MethodType(c) => ConstantModel::MethodType(c),
            ConstantInfo::InvokeDynamic(c) => ConstantModel::InvokeDynamic(c),
        }
    }
}

/// `tag` starts a record of a known kind.
pub open spec fn is_known_tag(tag: u8) -> bool {
    tag == 1 || (3 <= tag <= 12) || tag == 15 || tag == 16 || tag == 18
}

/// Number of bytes after the tag in a record of fixed size.
pub open spec fn payload_width(tag: u8) -> int {
    if tag == 5 || tag == 6 {
        8
    } else if tag == 7 || tag == 8 || tag == 16 {
        2
    } else if tag == 15 {
        3
    } else {
        4
    }
}

/// The record of fixed size with the given tag whose fields start at `pos`.
pub open spec fn fixed_constant(tag: u8, data: Seq<u8>, pos: int) -> ConstantModel {
    if tag == 3 {
        ConstantModel::Integer(ConstantIntegerInfo::at(data, pos))
    } else if tag == 4 {
        ConstantModel::Float(ConstantFloatInfo::at(data, pos))
    } else if tag == 5 {
        ConstantModel::Long(ConstantLongInfo::at(data, pos))
    } else if tag == 6 {
        ConstantModel::Double(ConstantDoubleInfo::at(data, pos))
    } else if tag == 7 {
        ConstantModel::Class(ConstantClassInfo::at(data, pos))
    } else if tag == 8 {
        ConstantModel::Str(ConstantStringInfo::at(data, pos))
    } else if tag == 9 {
        ConstantModel::FieldRef(ConstantFieldRefInfo::at(data, pos))
    } else if tag == 10 {
        ConstantModel::MethodRef(ConstantMethodRefInfo::at(data, pos))
    } else if tag == 11 {
        ConstantModel::InterfaceMethodRef(ConstantInterfaceMethodRefInfo::at(data, pos))
    } else if tag == 12 {
        ConstantModel::NameAndType(ConstantNameAndTypeInfo::at(data, pos))
    } else if tag == 15 {
        ConstantModel::MethodHandle(ConstantMethodHandleInfo::at(data, pos))
    } else if tag == 16 {
        ConstantModel::MethodType(ConstantMethodTypeInfo::at(data, pos))
    } else {
        ConstantModel::InvokeDynamic(ConstantInvokeDynamicInfo::at(data, pos))
    }
}

/// The fields of a record with the given tag, starting at `pos`.
pub open spec fn parse_constant_body(tag: u8, data: Seq<u8>, pos: int) -> Parsed<ConstantModel> {
    if tag == 1 {
        match parse_utf8(data, pos) {
            Ok((u, end)) => Ok((ConstantModel::Utf8(u), end)),
            Err(e) => Err(e),
        }
    } else if !is_known_tag(tag) {
        Err(DecodeError::UnknownConstantTag(tag))
    } else if !fits(data, pos, payload_width(tag)) {
        Err(DecodeError::TruncatedInput)
    } else {
        Ok((fixed_constant(tag, data, pos), pos + payload_width(tag)))
    }
}

/// The record that starts with its tag at `pos`.
pub open spec fn parse_constant(data: Seq<u8>, pos: int) -> Parsed<ConstantModel> {
    if !fits(data, pos, 1) {
        Err(DecodeError::TruncatedInput)
    } else {
        parse_constant_body(data[pos], data, pos + 1)
    }
}

/// The record with the given tag before any field is read: every number 0,
/// every string empty.
pub open spec fn blank_constant(tag: u8) -> ConstantModel {
    if tag == 1 {
        ConstantModel::Utf8(Utf8Model { bytes: Seq::empty(), text: Seq::empty() })
    } else if tag == 3 {
        ConstantModel::Integer(ConstantIntegerInfo { val: 0 })
    } else if tag == 4 {
        ConstantModel::Float(ConstantFloatInfo { bits: 0 })
    } else if tag == 5 {
        ConstantModel::Long(ConstantLongInfo { val: 0 })
    } else if tag == 6 {
        ConstantModel::Double(ConstantDoubleInfo { bits: 0 })
    } else if tag == 7 {
        ConstantModel::Class(ConstantClassInfo { name_index: 0 })
    } else if tag == 8 {
        ConstantModel::Str(ConstantStringInfo { string_index: 0 })
    } else if tag == 9 {
        ConstantModel::FieldRef(ConstantFieldRefInfo { class_index: 0, name_and_type_index: 0 })
    } else if tag == 10 {
        ConstantModel::MethodRef(ConstantMethodRefInfo { class_index: 0, name_and_type_index: 0 })
    } else if tag == 11 {
        ConstantModel::InterfaceMethodRef(
            ConstantInterfaceMethodRefInfo { class_index: 0, name_and_type_index: 0 },
        )
    } else if tag == 12 {
        ConstantModel::NameAndType(ConstantNameAndTypeInfo { name_index: 0, descriptor_index: 0 })
    } else if tag == 15 {
        ConstantModel::MethodHandle(
            ConstantMethodHandleInfo { reference_kind: 0, reference_index: 0 },
        )
    } else if tag == 16 {
        ConstantModel::MethodType(ConstantMethodTypeInfo { descriptor_index: 0 })
    } else {
        ConstantModel::InvokeDynamic(
            ConstantInvokeDynamicInfo { bootstrap_method_attr_index: 0, name_and_type_index: 0 },
        )
    }
}

impl ConstantInfo {
    /// Reads the fields of this record, whatever it held before. The answer
    /// says whether the record is wide.
    pub fn read_info(&mut self, reader: &mut ClassReader) -> (r: Result<bool, DecodeError>)
        ensures
            final(reader).same_buffer(*old(reader)),
            match r {
                Ok(wide) => wide == final(self)@.is_wide() && yields(
                    parse_constant_body(
                        old(self)@.tag(),
                        old(reader).bytes(),
                        old(reader).position(),
                    ),
                    final(self)@,
                    final(reader).position(),
                ),
                Err(e) => fails(
                    parse_constant_body(
                        old(self)@.tag(),
                        old(reader).bytes(),
                        old(reader).position(),
                    ),
                    e,
                ) && *final(self) == *old(self),
            },
    {
        match self {
            ConstantInfo::Utf8(c) => c.read_info(reader),
            ConstantInfo::Integer(c) => c.read_info(reader),
            ConstantInfo::Float(c) => c.read_info(reader),
            ConstantInfo::Long(c) => c.read_info(reader),
            ConstantInfo::Double(c) => c.read_info(reader),
            ConstantInfo::Class(c) => c.read_info(reader),
            ConstantInfo::Str(c) => c.read_info(reader),
            ConstantInfo::FieldRef(c) => c.read_info(reader),
            ConstantInfo::MethodRef(c) => c.read_info(reader),
            ConstantInfo::InterfaceMethodRef(c) => c.read_info(reader),
            ConstantInfo::NameAndType(c) => c.read_info(reader),
            ConstantInfo::MethodHandle(c) => c.read_info(reader),
            ConstantInfo::MethodType(c) => c.read_info(reader),
            ConstantInfo::InvokeDynamic(c) => c.read_info(reader),
        }
    }
}

/// Reads a tag and makes the blank record of that kind.
pub fn read_constant_info(reader: &mut ClassReader) -> (r: Result<ConstantInfo, DecodeError>)
    ensures
        match r {
            Ok(c) => {
                let tag = old(reader).bytes()[old(reader).position()];
                &&& final(reader).took(*old(reader), 1)
                &&& is_known_tag(tag)
                &&& c@ == blank_constant(tag)
            },
            Err(e) => if fits(old(reader).bytes(), old(reader).position(), 1) {
                let tag = old(reader).bytes()[old(reader).position()];
                &&& !is_known_tag(tag)
                &&& e == DecodeError::UnknownConstantTag(tag)
                &&& final(reader).advanced(*old(reader), 1)
            } else {
                &&& e == DecodeError::TruncatedInput
                &&& final(reader).advanced(*old(reader), 0)
            },
        },
{
    let index: u8 = reader.read_u8()?;
    match index {
        1 => Ok(ConstantInfo::Utf8(ConstantUTF8Info { bytes: Vec::new(), str: String::new() })),
        3 => Ok(ConstantInfo::Integer(ConstantIntegerInfo { val: 0 })),
        4 => Ok(ConstantInfo::Float(ConstantFloatInfo { bits: 0 })),
        5 => Ok(ConstantInfo::Long(ConstantLongInfo { val: 0 })),
        6 => Ok(ConstantInfo::Double(ConstantDoubleInfo { bits: 0 })),
        7 => Ok(ConstantInfo::Class(ConstantClassInfo { name_index: 0 })),
        8 => Ok(ConstantInfo::Str(ConstantStringInfo { string_index: 0 })),
        9 => Ok(ConstantInfo::FieldRef(ConstantFieldRefInfo { class_index: 0, name_and_type_index: 0 })),
        10 => Ok(ConstantInfo::MethodRef(ConstantMethodRefInfo { class_index: 0, name_and_type_index: 0 })),
        11 => Ok(ConstantInfo::InterfaceMethodRef(ConstantInterfaceMethodRefInfo { class_index: 0, name_and_type_index: 0 })),
        12 => Ok(ConstantInfo::NameAndType(ConstantNameAndTypeInfo { name_index: 0, descriptor_index: 0 })),
        15 => Ok(ConstantInfo::MethodHandle(ConstantMethodHandleInfo { reference_kind: 0, reference_index: 0 })),
        16 => Ok(ConstantInfo::MethodType(ConstantMethodTypeInfo { descriptor_index: 0 })),
        18 => Ok(ConstantInfo::InvokeDynamic(ConstantInvokeDynamicInfo { bootstrap_method_attr_index: 0, name_and_type_index: 0 })),
        _ => Err(DecodeError::UnknownConstantTag(index)),
    }
}

/// The constant pool of one class.
#[derive(Debug, PartialEq, Eq)]
pub struct ConstantPool {
    count: u16,
    entries: Vec<Option<ConstantInfo>>,
}

/// What a constant pool holds: the count that its header declares, and its
/// slots by index. Slot 0 is empty, and so is the slot after a wide record.
pub struct ConstantPoolModel {
    pub count: u16,
    pub entries: Seq<Option<ConstantModel>>,
}

/// What a pool slot holds.
pub open spec fn slot_view(slot: Option<ConstantInfo>) -> Option<ConstantModel> {
    match slot {
        Some(c) => Some(c@),
        None => None,
    }
}

/// What a run of pool slots holds.
pub open spec fn slots_view(slots: Seq<Option<ConstantInfo>>) -> Seq<Option<ConstantModel>> {
    Seq::new(slots.len(), |i: int| slot_view(slots[i]))
}

/// The slots filled by the records that start at `pos`, where the first of
/// them gets pool index `index` and the pool's header declares `count`.
pub open spec fn parse_entries(data: Seq<u8>, pos: int, index: int, count: int) -> Parsed<
    Seq<Option<ConstantModel>>,
>
    decreases count + 1 - index,
{
    if index >= count {
        Ok((Seq::empty(), pos))
    } else {
        match parse_constant(data, pos) {
            Err(e) => Err(e),
            Ok((c, next)) => match parse_entries(data, next, index + c.index_span(), count) {
                Err(e) => Err(e),
                Ok((rest, end)) => Ok((c.slots() + rest, end)),
            },
        }
    }
}

/// The pool whose count field starts at `pos`.
pub open spec fn parse_pool(data: Seq<u8>, pos: int) -> Parsed<ConstantPoolModel> {
    if !fits(data, pos, 2) {
        Err(DecodeError::TruncatedInput)
    } else {
        let count = be_u16(data, pos);
        match parse_entries(data, pos + 2, 1, count as int) {
            Err(e) => Err(e),
            Ok((slots, end)) => Ok(
                (ConstantPoolModel { count, entries: seq![None] + slots }, end),
            ),
        }
    }
}

impl ConstantPoolModel {
    /// The record at `index`, if that slot holds one.
    pub open spec fn entry(self, index: int) -> Option<ConstantModel> {
        if 0 <= index < self.entries.len() {
            self.entries[index]
        } else {
            None
        }
    }

    /// The UTF8 record at `index`, if that slot holds one.
    pub open spec fn utf8(self, index: int) -> Option<Utf8Model> {
        match self.entry(index) {
            Some(ConstantModel::Utf8(u)) => Some(u),
            _ => None,
        }
    }
}

/// In `slots`, the slot after each wide record exists and is empty, and no
/// other slot from `first` on is empty.
pub open spec fn wide_records_paired(slots: Seq<Option<ConstantModel>>, first: int) -> bool {
    &&& forall|i: int|
        0 <= i < slots.len() && (#[trigger] slots[i]) is Some && slots[i]->0.is_wide() ==> i + 1
            < slots.len() && slots[i + 1] is None
    &&& forall|i: int|
        first <= i < slots.len() && (#[trigger] slots[i]) is None ==> i > first && slots[i - 1] is Some
            && slots[i - 1]->0.is_wide()
}

proof fn lemma_entries_paired(data: Seq<u8>, pos: int, index: int, count: int)
    requires
        parse_entries(data, pos, index, count) is Ok,
    ensures
        wide_records_paired(parse_entries(data, pos, index, count)->Ok_0.0, 0),
    decreases count + 1 - index,
{
    if index < count {
        let (c, next) = parse_constant(data, pos)->Ok_0;
        lemma_entries_paired(data, next, index + c.index_span(), count);
        let rest = parse_entries(data, next, index + c.index_span(), count)->Ok_0.0;
        let all = c.slots() + rest;
        let k = c.slots().len() as int;
        assert forall|i: int| 0 <= i < all.len() && (#[trigger] all[i]) is Some && all[i]->0.is_wide()
        implies i + 1 < all.len() && all[i + 1] is None by {
            if i >= k {
                assert(all[i] == rest[i - k]);
                assert(all[i + 1] == rest[i + 1 - k]);
            }
        }
        assert forall|i: int| 0 <= i < all.len() && (#[trigger] all[i]) is None implies i > 0
            && all[i - 1] is Some && all[i - 1]->0.is_wide() by {
            if i >= k {
                assert(all[i] == rest[i - k]);
                if i > k {
                    assert(all[i - 1] == rest[i - 1 - k]);
                }
            }
        }
    }
}

/// A long or double constant at index `i` leaves index `i + 1` empty, and
/// the slot at `i + 2`, if the pool reaches that far, holds a record again.
/// Apart from slot 0, no other slot of a decoded pool is empty.
pub proof fn lemma_wide_constant_takes_two_slots(data: Seq<u8>, pos: int, i: int)
    requires
        parse_pool(data, pos) is Ok,
        parse_pool(data, pos)->Ok_0.0.entry(i) is Some,
        parse_pool(data, pos)->Ok_0.0.entry(i)->0.is_wide(),
    ensures
        i + 1 < parse_pool(data, pos)->Ok_0.0.entries.len(),
        parse_pool(data, pos)->Ok_0.0.entry(i + 1) is None,
        i + 2 < parse_pool(data, pos)->Ok_0.0.entries.len() ==> parse_pool(
            data,
            pos,
        )->Ok_0.0.entry(i + 2) is Some,
        wide_records_paired(parse_pool(data, pos)->Ok_0.0.entries, 1),
{
    let count = be_u16(data, pos) as int;
    lemma_entries_paired(data, pos + 2, 1, count);
    let slots = parse_entries(data, pos + 2, 1, count)->Ok_0.0;
    let entries = parse_pool(data, pos)->Ok_0.0.entries;
    assert(entries =~= seq![None] + slots);
    assert forall|k: int| 0 <= k < entries.len() && (#[trigger] entries[k]) is Some && entries[k]->0.is_wide()
    implies k + 1 < entries.len() && entries[k + 1] is None by {
        assert(entries[k] == slots[k - 1]);
        assert(entries[k + 1] == slots[k]);
    }
    assert forall|k: int| 1 <= k < entries.len() && (#[trigger] entries[k]) is None implies k > 1
        && entries[k - 1] is Some && entries[k - 1]->0.is_wide() by {
        assert(entries[k] == slots[k - 1]);
        if k > 1 {
            assert(entries[k - 1] == slots[k - 2]);
        }
    }
    assert(entries[i] is Some);
    if i + 2 < entries.len() {
        if entries[i + 2] is None {
            assert(entries[i + 1] is Some);
        }
    }
}

spec fn followed_by(
    done: Seq<Option<ConstantModel>>,
    rest: Parsed<Seq<Option<ConstantModel>>>,
) -> Parsed<Seq<Option<ConstantModel>>> {
    match rest {
        Ok((slots, end)) => Ok((done + slots, end)),
        Err(e) => Err(e),
    }
}

impl View for ConstantPool {
    type V = ConstantPoolModel;

    closed spec fn view(&self) -> ConstantPoolModel {
        ConstantPoolModel { count: self.count, entries: slots_view(self.entries@) }
    }
}

impl ConstantPool {
    /// Reads the pool's count and then its records, up to the count.
    pub fn new(reader: &mut ClassReader) -> (r: Result<ConstantPool, DecodeError>)
        ensures
            final(reader).same_buffer(*old(reader)),
            match r {
                Ok(pool) => yields(
                    parse_pool(old(reader).bytes(), old(reader).position()),
                    pool@,
                    final(reader).position(),
                ),
                Err(e) => fails(parse_pool(old(reader).bytes(), old(reader).position()), e),
            },
    {
        let cp_count: u16 = reader.read_u16()?;
        let ghost data = reader.bytes();
        let ghost start = reader.position();
        let ghost mut done: Seq<Option<ConstantModel>> = Seq::empty();
        let mut info: Vec<Option<ConstantInfo>> = Vec::new();
        let mut i: u32 = 1;
        info.push(None);  // index 0 is never used
        assert(slots_view(info@) =~= seq![None] + done);
        assert(done + parse_entries(data, start, 1, cp_count as int)->Ok_0.0 =~= parse_entries(
            data,
            start,
            1,
            cp_count as int,
        )->Ok_0.0);
        while i < cp_count as u32
            invariant
                1 <= i <= cp_count + 1,
                data == old(reader).bytes(),
                start == old(reader).position() + 2,
                fits(data, old(reader).position(), 2),
                cp_count == be_u16(data, old(reader).position()),
                reader.same_buffer(*old(reader)),
                slots_view(info@) == seq![None] + done,
                parse_entries(data, start, 1, cp_count as int) == followed_by(
                    done,
                    parse_entries(data, reader.position(), i as int, cp_count as int),
                ),
            decreases cp_count + 1 - i,
        {
            let ghost before = info@;
            let ghost here = reader.position();
            let mut cp: ConstantInfo = read_constant_info(reader)?;
            assert(cp@.tag() == data[here]);
            let plus: bool = cp.read_info(reader)?;
            assert(yields(parse_constant(data, here), cp@, reader.position()));
            let ghost record = cp@;
            info.push(Some(cp));
            i += 1;
            assert(slots_view(info@) =~= slots_view(before).push(Some(record)));
            if plus {
                let ghost single = info@;
                i += 1;
                info.push(None);
                assert(slots_view(info@) =~= slots_view(single).push(None));
            }
            proof {
                let rest = parse_entries(data, reader.position(), i as int, cp_count as int);
                let prior = done;
                done = prior + record.slots();
                assert(slots_view(info@) =~= seq![None] + done);
                if rest is Ok {
                    assert(done + rest->Ok_0.0 =~= prior + (record.slots() + rest->Ok_0.0));
                }
            }
        }
        assert(done + Seq::<Option<ConstantModel>>::empty() =~= done);
        Ok(ConstantPool { count: cp_count, entries: info })
    }

    /// The count that the pool's header declares.
    pub fn count(&self) -> (n: u16)
        ensures
            n == self@.count,
    {
        self.count
    }

    /// Number of slots, the unused slot 0 and the empty ones included.
    pub fn len(&self) -> (n: usize)
        ensures
            n == self@.entries.len(),
    {
        self.entries.len()
    }

    /// The record at index `n`; nothing if `n` is out of range or selects
    /// an empty slot.
    pub fn get(&self, n: usize) -> (r: Option<&ConstantInfo>)
        ensures
            match r {
                Some(c) => self@.entry(n as int) == Some(c@),
                None => self@.entry(n as int) is None,
            },
    {
        if n >= self.entries.len() {
            return None;
        }
        match &self.entries[n] {
            Some(c) => Some(c),
            None => None,
        }
    }

    /// The UTF8 record at index `n`; nothing if `n` does not select a UTF8
    /// record.
    pub fn get_utf8(&self, n: usize) -> (r: Option<&ConstantUTF8Info>)
        ensures
            match r {
                Some(u) => self@.utf8(n as int) == Some(u@),
                None => self@.utf8(n as int) is None,
            },
    {
        match self.get(n) {
            Some(ConstantInfo::Utf8(u)) => Some(u),
            _ => None,
        }
    }

    /// The record at index `n`, which must hold one.
    pub fn get_any(&self, n: usize) -> (c: &ConstantInfo)
        requires
            self@.entry(n as int) is Some,
        ensures
            self@.entry(n as int) == Some(c@),
    {
        match &self.entries[n] {
            Some(c) => c,
            None => {
                proof {
                    assert(false);
                }
                unreached()
            },
        }
    }
}

} // verus!
