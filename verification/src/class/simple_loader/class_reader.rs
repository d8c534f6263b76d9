//! The byte cursor that every decoder reads through, and the decoder of the
//! class file as a whole: header, constant pool, flags, interfaces, fields,
//! methods and attributes.

use crate::bits::{
    be_u16, be_u16_run, be_u32, be_u64, fits, lemma_join_u16, lemma_join_u32, lemma_join_u64,
};
use crate::class::simple_loader::attribute_info::{
    attributes_model, parse_attribute_list, read_attribute_info_vec, Attribute, AttributeModel,
};
use crate::class::simple_loader::constant_pool::{parse_pool, ConstantPool, ConstantPoolModel};
use crate::error::DecodeError;
use vstd::prelude::*;

verus! {

/// What a decoder makes of a buffer from some position on: a value and the
/// position after it, or the reason why there is none.
pub type Parsed<T> = Result<(T, int), DecodeError>;

/// `parsed` is the value `v`, which ends at `end`.
pub open spec fn yields<T>(parsed: Parsed<T>, v: T, end: int) -> bool {
    parsed == Ok::<(T, int), DecodeError>((v, end))
}

/// `parsed` is the failure `e`.
pub open spec fn fails<T>(parsed: Parsed<T>, e: DecodeError) -> bool {
    parsed == Err::<(T, int), DecodeError>(e)
}

/// `data` holds a 16-bit count at `pos` and then that many entries of
/// `width` bytes each.
pub open spec fn table_fits(data: Seq<u8>, pos: int, width: int) -> bool {
    fits(data, pos, 2) && fits(data, pos, 2 + width * be_u16(data, pos))
}

/// The position after the table that starts at `pos`.
pub open spec fn table_end(data: Seq<u8>, pos: int, width: int) -> int {
    pos + 2 + width * be_u16(data, pos)
}

/// The value `parsed`, provided that it ends where `data` ends.
pub open spec fn whole<T>(data: Seq<u8>, parsed: Parsed<T>) -> Result<T, DecodeError> {
    match parsed {
        Err(e) => Err(e),
        Ok((v, end)) => if end == data.len() {
            Ok(v)
        } else {
            Err(DecodeError::AttributeLengthMismatch)
        },
    }
}

/// The 16-bit value at `pos`.
pub open spec fn u16_at(data: Seq<u8>, pos: int) -> Parsed<u16> {
    if fits(data, pos, 2) {
        Ok((be_u16(data, pos), pos + 2))
    } else {
        Err(DecodeError::TruncatedInput)
    }
}

/// The counted run of 16-bit values at `pos`.
pub open spec fn u16s_at(data: Seq<u8>, pos: int) -> Parsed<Seq<u16>> {
    if table_fits(data, pos, 2) {
        Ok((be_u16_run(data, pos + 2, be_u16(data, pos) as int), table_end(data, pos, 2)))
    } else {
        Err(DecodeError::TruncatedInput)
    }
}

/// `result` is the value `v`.
pub open spec fn gives<T>(result: Result<T, DecodeError>, v: T) -> bool {
    result == Ok::<T, DecodeError>(v)
}

/// `result` is the failure `e`.
pub open spec fn refuses<T>(result: Result<T, DecodeError>, e: DecodeError) -> bool {
    result == Err::<T, DecodeError>(e)
}

/// A read cursor over an owned byte buffer. All multi-byte values are
/// big-endian. A read that would pass the end of the buffer fails and leaves
/// the cursor where it was.
pub struct ClassReader {
    data: Vec<u8>,
    point: usize,
}

impl ClassReader {
    #[verifier::type_invariant]
    spec fn in_bounds(self) -> bool {
        self.point <= self.data.len()
    }

    /// The whole buffer.
    pub closed spec fn bytes(self) -> Seq<u8> {
        self.data@
    }

    /// Offset of the next byte to be read.
    pub closed spec fn position(self) -> int {
        self.point as int
    }

    /// Number of bytes not yet read.
    pub open spec fn remaining_len(self) -> int {
        self.bytes().len() - self.position()
    }

    /// This cursor moved `n` bytes forward over the same buffer.
    pub open spec fn advanced(self, from: Self, n: int) -> bool {
        &&& self.bytes() == from.bytes()
        &&& self.position() == from.position() + n
        &&& 0 <= self.position() <= self.bytes().len()
    }

    /// This cursor still reads the buffer of `from`, from some position.
    pub open spec fn same_buffer(self, from: Self) -> bool {
        &&& self.bytes() == from.bytes()
        &&& 0 <= self.position() <= self.bytes().len()
    }

    /// `from` held `n` more bytes, and this cursor is `from` moved past them.
    pub open spec fn took(self, from: Self, n: int) -> bool {
        fits(from.bytes(), from.position(), n) && self.advanced(from, n)
    }

    /// `from` held fewer than `n` more bytes.
    pub open spec fn fell_short(self, from: Self, n: int) -> bool {
        !fits(from.bytes(), from.position(), n) && self.same_buffer(from)
    }

    pub fn new(data: Vec<u8>) -> (reader: ClassReader)
        ensures
            reader.bytes() == data@,
            reader.position() == 0,
    {
        ClassReader { data, point: 0 }
    }

    /// Offset of the next byte to be read.
    pub fn offset(&self) -> (at: usize)
        ensures
            at == self.position(),
            at <= self.bytes().len(),
    {
        proof {
            use_type_invariant(self);
        }
        self.point
    }

    /// Number of bytes not yet read.
    pub fn remaining(&self) -> (n: usize)
        ensures
            n == self.remaining_len(),
    {
        proof {
            use_type_invariant(self);
        }
        self.data.len() - self.point
    }

    pub fn read_u8(&mut self) -> (r: Result<u8, DecodeError>)
        ensures
            match r {
                Ok(v) => fits(old(self).bytes(), old(self).position(), 1)
                    && v == old(self).bytes()[old(self).position()]
                    && final(self).advanced(*old(self), 1),
                Err(e) => e == DecodeError::TruncatedInput
                    && !fits(old(self).bytes(), old(self).position(), 1)
                    && final(self).advanced(*old(self), 0),
            },
    {
        proof {
            use_type_invariant(&*self);
        }
        if self.point >= self.data.len() {
            return Err(DecodeError::TruncatedInput);
        }
        let d: u8 = self.data[self.point];
        self.point += 1;
        Ok(d)
    }

    pub fn read_u16(&mut self) -> (r: Result<u16, DecodeError>)
        ensures
            match r {
                Ok(v) => fits(old(self).bytes(), old(self).position(), 2)
                    && v == be_u16(old(self).bytes(), old(self).position())
                    && final(self).advanced(*old(self), 2),
                Err(e) => e == DecodeError::TruncatedInput
                    && !fits(old(self).bytes(), old(self).position(), 2)
                    && final(self).advanced(*old(self), 0),
            },
    {
        proof {
            use_type_invariant(&*self);
        }
        if self.data.len() - self.point < 2 {
            return Err(DecodeError::TruncatedInput);
        }
        let b0: u16 = self.data[self.point] as u16;
        let b1: u16 = self.data[self.point + 1] as u16;
        self.point += 2;
        proof {
            lemma_join_u16(b0, b1);
        }
        Ok((b0 << 8) | b1)
    }

    pub fn read_u32(&mut self) -> (r: Result<u32, DecodeError>)
        ensures
            match r {
                Ok(v) => fits(old(self).bytes(), old(self).position(), 4)
                    && v == be_u32(old(self).bytes(), old(self).position())
                    && final(self).advanced(*old(self), 4),
                Err(e) => e == DecodeError::TruncatedInput
                    && !fits(old(self).bytes(), old(self).position(), 4)
                    && final(self).advanced(*old(self), 0),
            },
    {
        proof {
            use_type_invariant(&*self);
        }
        if self.data.len() - self.point < 4 {
            return Err(DecodeError::TruncatedInput);
        }
        let h: u32 = self.read_u16()? as u32;
        let l: u32 = self.read_u16()? as u32;
        proof {
            lemma_join_u32(h, l);
        }
        Ok((h << 16) | l)
    }

    pub fn read_u64(&mut self) -> (r: Result<u64, DecodeError>)
        ensures
            match r {
                Ok(v) => fits(old(self).bytes(), old(self).position(), 8)
                    && v == be_u64(old(self).bytes(), old(self).position())
                    && final(self).advanced(*old(self), 8),
                Err(e) => e == DecodeError::TruncatedInput
                    && !fits(old(self).bytes(), old(self).position(), 8)
                    && final(self).advanced(*old(self), 0),
            },
    {
        proof {
            use_type_invariant(&*self);
        }
        if self.data.len() - self.point < 8 {
            return Err(DecodeError::TruncatedInput);
        }
        let h: u64 = self.read_u32()? as u64;
        let l: u64 = self.read_u32()? as u64;
        proof {
            lemma_join_u64(h, l);
        }
        Ok((h << 32) | l)
    }

    /// Reads `size` raw bytes.
    pub fn read_data(&mut self, size: usize) -> (r: Result<Vec<u8>, DecodeError>)
        ensures
            match r {
                Ok(v) => fits(old(self).bytes(), old(self).position(), size as int)
                    && v@ == old(self).bytes().subrange(
                    old(self).position(),
                    old(self).position() + size,
                ) && final(self).advanced(*old(self), size as int),
                Err(e) => e == DecodeError::TruncatedInput
                    && !fits(old(self).bytes(), old(self).position(), size as int)
                    && final(self).advanced(*old(self), 0),
            },
    {
        proof {
            use_type_invariant(&*self);
        }
        if self.data.len() - self.point < size {
            return Err(DecodeError::TruncatedInput);
        }
        let start: usize = self.point;
        let mut out: Vec<u8> = Vec::new();
        let mut i: usize = 0;
        while i < size
            invariant
                i <= size,
                start + size <= self.data.len(),
                out@ == self.data@.subrange(start as int, start + i),
            decreases size - i,
        {
            out.push(self.data[start + i]);
            i += 1;
        }
        self.point = start + size;
        Ok(out)
    }

    /// Reads `size` raw bytes and hands them back last byte first.
    pub fn read_reversed_data(&mut self, size: usize) -> (r: Result<Vec<u8>, DecodeError>)
        ensures
            match r {
                Ok(v) => fits(old(self).bytes(), old(self).position(), size as int)
                    && v@ == old(self).bytes().subrange(
                    old(self).position(),
                    old(self).position() + size,
                ).reverse() && final(self).advanced(*old(self), size as int),
                Err(e) => e == DecodeError::TruncatedInput
                    && !fits(old(self).bytes(), old(self).position(), size as int)
                    && final(self).advanced(*old(self), 0),
            },
    {
        proof {
            use_type_invariant(&*self);
        }
        if self.data.len() - self.point < size {
            return Err(DecodeError::TruncatedInput);
        }
        let start: usize = self.point;
        let mut rev: Vec<u8> = Vec::new();
        let mut i: usize = 0;
        while i < size
            invariant
                i <= size,
                start + size <= self.data.len(),
                rev@.len() == i,
                forall|k: int| 0 <= k < i ==> rev@[k] == self.data@[start + size - 1 - k],
            decreases size - i,
        {
            rev.push(self.data[start + size - 1 - i]);
            i += 1;
        }
        self.point = start + size;
        assert(rev@ =~= self.data@.subrange(start as int, start + size).reverse());
        Ok(rev)
    }

    /// Reads a 16-bit count and then that many 16-bit values.
    pub fn read_u16s(&mut self) -> (r: Result<Vec<u16>, DecodeError>)
        ensures
            final(self).same_buffer(*old(self)),
            match r {
                Ok(v) => yields(
                    u16s_at(old(self).bytes(), old(self).position()),
                    v@,
                    final(self).position(),
                ),
                Err(e) => fails(u16s_at(old(self).bytes(), old(self).position()), e),
            },
    {
        let n: u16 = self.read_u16()?;
        let ghost start = self.position();
        let mut s: Vec<u16> = Vec::new();
        let mut i: u16 = 0;
        while i < n
            invariant
                i <= n,
                n == be_u16(old(self).bytes(), old(self).position()),
                self.advanced(*old(self), 2 + 2 * i),
                start == old(self).position() + 2,
                s@ == be_u16_run(old(self).bytes(), start, i as int),
            decreases n - i,
        {
            let v: u16 = self.read_u16()?;
            s.push(v);
            i += 1;
            assert(s@ =~= be_u16_run(old(self).bytes(), start, i as int));
        }
        Ok(s)
    }
}

/// A field or a method of a class.
#[derive(Debug, PartialEq, Eq)]
pub struct MemberInfo {
    pub access_flags: u16,
    pub name_index: u16,
    pub descriptor_index: u16,
    pub attributes: Vec<Attribute>,
}

/// What a member holds.
pub struct MemberModel {
    pub access_flags: u16,
    pub name_index: u16,
    pub descriptor_index: u16,
    pub attributes: Seq<AttributeModel>,
}

impl View for MemberInfo {
    type V = MemberModel;

    open spec fn view(&self) -> MemberModel {
        MemberModel {
            access_flags: self.access_flags,
            name_index: self.name_index,
            descriptor_index: self.descriptor_index,
            attributes: attributes_model(self.attributes@),
        }
    }
}

/// What a list of members holds.
pub open spec fn members_model(list: Seq<MemberInfo>) -> Seq<MemberModel> {
    Seq::new(list.len(), |i: int| list[i]@)
}

/// The member whose access flags start at `pos`.
pub open spec fn parse_member(data: Seq<u8>, pos: int, pool: ConstantPoolModel) -> Parsed<
    MemberModel,
> {
    if !fits(data, pos, 6) {
        Err(DecodeError::TruncatedInput)
    } else {
        match parse_attribute_list(data, pos + 6, pool) {
            Err(e) => Err(e),
            Ok((attributes, end)) => Ok(
                (
                    MemberModel {
                        access_flags: be_u16(data, pos),
                        name_index: be_u16(data, pos + 2),
                        descriptor_index: be_u16(data, pos + 4),
                        attributes,
                    },
                    end,
                ),
            ),
        }
    }
}

/// The `n` members that start at `pos`.
pub open spec fn parse_members(data: Seq<u8>, pos: int, n: int, pool: ConstantPoolModel) -> Parsed<
    Seq<MemberModel>,
>
    decreases n,
{
    if n <= 0 {
        Ok((Seq::empty(), pos))
    } else {
        match parse_member(data, pos, pool) {
            Err(e) => Err(e),
            Ok((first, next)) => match parse_members(data, next, n - 1, pool) {
                Err(e) => Err(e),
                Ok((rest, end)) => Ok((seq![first] + rest, end)),
            },
        }
    }
}

/// The counted list of members at `pos`.
pub open spec fn parse_member_list(data: Seq<u8>, pos: int, pool: ConstantPoolModel) -> Parsed<
    Seq<MemberModel>,
> {
    if !fits(data, pos, 2) {
        Err(DecodeError::TruncatedInput)
    } else {
        parse_members(data, pos + 2, be_u16(data, pos) as int, pool)
    }
}

spec fn followed_by(done: Seq<MemberModel>, rest: Parsed<Seq<MemberModel>>) -> Parsed<Seq<MemberModel>> {
    match rest {
        Ok((list, end)) => Ok((done + list, end)),
        Err(e) => Err(e),
    }
}

impl MemberInfo {
    /// Reads one member: three 16-bit fields and a list of attributes.
    pub fn new(reader: &mut ClassReader, cp: &ConstantPool) -> (r: Result<MemberInfo, DecodeError>)
        ensures
            final(reader).same_buffer(*old(reader)),
            match r {
                Ok(member) => yields(
                    parse_member(old(reader).bytes(), old(reader).position(), cp@),
                    member@,
                    final(reader).position(),
                ),
                Err(e) => fails(parse_member(old(reader).bytes(), old(reader).position(), cp@), e),
            },
    {
        let access_flags: u16 = reader.read_u16()?;
        let name_index: u16 = reader.read_u16()?;
        let descriptor_index: u16 = reader.read_u16()?;
        let attributes: Vec<Attribute> = read_attribute_info_vec(reader, cp)?;
        Ok(MemberInfo { access_flags, name_index, descriptor_index, attributes })
    }

    /// Reads a 16-bit count and then that many members, in order.
    pub fn read_members(reader: &mut ClassReader, cp: &ConstantPool) -> (r: Result<
        Vec<MemberInfo>,
        DecodeError,
    >)
        ensures
            final(reader).same_buffer(*old(reader)),
            match r {
                Ok(list) => yields(
                    parse_member_list(old(reader).bytes(), old(reader).position(), cp@),
                    members_model(list@),
                    final(reader).position(),
                ),
                Err(e) => fails(
                    parse_member_list(old(reader).bytes(), old(reader).position(), cp@),
                    e,
                ),
            },
    {
        let n: u16 = reader.read_u16()?;
        let ghost data = reader.bytes();
        let ghost start = reader.position();
        let ghost mut done: Seq<MemberModel> = Seq::empty();
        let mut list: Vec<MemberInfo> = Vec::new();
        let mut i: u16 = 0;
        assert(members_model(list@) =~= done);
        assert(done + parse_members(data, start, n as int, cp@)->Ok_0.0 =~= parse_members(
            data,
            start,
            n as int,
            cp@,
        )->Ok_0.0);
        while i < n
            invariant
                i <= n,
                data == old(reader).bytes(),
                start == old(reader).position() + 2,
                fits(data, old(reader).position(), 2),
                n == be_u16(data, old(reader).position()),
                reader.same_buffer(*old(reader)),
                members_model(list@) == done,
                parse_members(data, start, n as int, cp@) == followed_by(
                    done,
                    parse_members(data, reader.position(), n - i, cp@),
                ),
            decreases n - i,
        {
            let ghost before = list@;
            let member: MemberInfo = MemberInfo::new(reader, cp)?;
            let ghost model = member@;
            list.push(member);
            i += 1;
            proof {
                let rest = parse_members(data, reader.position(), n - i, cp@);
                let prior = done;
                done = prior.push(model);
                assert(members_model(list@) =~= members_model(before).push(model));
                if rest is Ok {
                    assert(done + rest->Ok_0.0 =~= prior + (seq![model] + rest->Ok_0.0));
                }
            }
        }
        assert(done + Seq::<MemberModel>::empty() =~= done);
        Ok(list)
    }
}

/// The number that starts every class file.
pub const MAGIC: u32 = 0xCAFE_BABE;

/// One decoded class.
#[derive(Debug, PartialEq, Eq)]
pub struct ClassFile {
    pub minor_version: u16,
    pub major_version: u16,
    pub constant_pool: ConstantPool,
    pub access_flags: u16,
    pub this_class: u16,
    pub super_class: u16,
    pub interfaces: Vec<u16>,
    pub fields: Vec<MemberInfo>,
    pub methods: Vec<MemberInfo>,
    pub attributes: Vec<Attribute>,
}

/// What a class file holds.
pub struct ClassFileModel {
    pub minor_version: u16,
    pub major_version: u16,
    pub constant_pool: ConstantPoolModel,
    pub access_flags: u16,
    pub this_class: u16,
    pub super_class: u16,
    pub interfaces: Seq<u16>,
    pub fields: Seq<MemberModel>,
    pub methods: Seq<MemberModel>,
    pub attributes: Seq<AttributeModel>,
}

impl View for ClassFile {
    type V = ClassFileModel;

    open spec fn view(&self) -> ClassFileModel {
        ClassFileModel {
            minor_version: self.minor_version,
            major_version: self.major_version,
            constant_pool: self.constant_pool@,
            access_flags: self.access_flags,
            this_class: self.this_class,
            super_class: self.super_class,
            interfaces: self.interfaces@,
            fields: members_model(self.fields@),
            methods: members_model(self.methods@),
            attributes: attributes_model(self.attributes@),
        }
    }
}

/// What follows the constant pool `pool`, which ends at `pos`: flags, class
/// indices, interfaces, fields, methods and attributes.
pub open spec fn parse_class_body(
    data: Seq<u8>,
    pos: int,
    minor_version: u16,
    major_version: u16,
    pool: ConstantPoolModel,
) -> Parsed<ClassFileModel> {
    if !fits(data, pos, 6) {
        Err(DecodeError::TruncatedInput)
    } else {
        match u16s_at(data, pos + 6) {
            Err(e) => Err(e),
            Ok((interfaces, fields_at)) => match parse_member_list(data, fields_at, pool) {
                Err(e) => Err(e),
                Ok((fields, methods_at)) => match parse_member_list(data, methods_at, pool) {
                    Err(e) => Err(e),
                    Ok((methods, attributes_at)) => match parse_attribute_list(
                        data,
                        attributes_at,
                        pool,
                    ) {
                        Err(e) => Err(e),
                        Ok((attributes, end)) => Ok(
                            (
                                ClassFileModel {
                                    minor_version,
                                    major_version,
                                    constant_pool: pool,
                                    access_flags: be_u16(data, pos),
                                    this_class: be_u16(data, pos + 2),
                                    super_class: be_u16(data, pos + 4),
                                    interfaces,
                                    fields,
                                    methods,
                                    attributes,
                                },
                                end,
                            ),
                        ),
                    },
                },
            },
        }
    }
}

/// The class file that starts at `pos`.
pub open spec fn parse_class(data: Seq<u8>, pos: int) -> Parsed<ClassFileModel> {
    if !fits(data, pos, 4) {
        Err(DecodeError::TruncatedInput)
    } else if be_u32(data, pos) != MAGIC {
        Err(DecodeError::MalformedHeader)
    } else if !fits(data, pos + 4, 4) {
        Err(DecodeError::TruncatedInput)
    } else {
        match parse_pool(data, pos + 8) {
            Err(e) => Err(e),
            Ok((pool, body_at)) => parse_class_body(
                data,
                body_at,
                be_u16(data, pos + 4),
                be_u16(data, pos + 6),
                pool,
            ),
        }
    }
}

impl ClassFile {
    /// Decodes a class file: magic number, version, constant pool, flags,
    /// class indices, interfaces, fields, methods, attributes. The first
    /// step that fails ends the decode.
    pub fn new(reader: &mut ClassReader) -> (r: Result<ClassFile, DecodeError>)
        ensures
            final(reader).same_buffer(*old(reader)),
            match r {
                Ok(class) => yields(
                    parse_class(old(reader).bytes(), old(reader).position()),
                    class@,
                    final(reader).position(),
                ),
                Err(e) => fails(parse_class(old(reader).bytes(), old(reader).position()), e),
            },
    {
        let magic_number: u32 = reader.read_u32()?;
        if magic_number != MAGIC {
            return Err(DecodeError::MalformedHeader);
        }
        let minor_version: u16 = reader.read_u16()?;
        let major_version: u16 = reader.read_u16()?;
        let constant_pool: ConstantPool = ConstantPool::new(reader)?;
        let access_flags: u16 = reader.read_u16()?;
        let this_class: u16 = reader.read_u16()?;
        let super_class: u16 = reader.read_u16()?;
        let interfaces: Vec<u16> = reader.read_u16s()?;
        let fields: Vec<MemberInfo> = MemberInfo::read_members(reader, &constant_pool)?;
        let methods: Vec<MemberInfo> = MemberInfo::read_members(reader, &constant_pool)?;
        let attributes: Vec<Attribute> = read_attribute_info_vec(reader, &constant_pool)?;
        Ok(
            ClassFile {
                minor_version,
                major_version,
                constant_pool,
                access_flags,
                this_class,
                super_class,
                interfaces,
                fields,
                methods,
                attributes,
            },
        )
    }
}

/// Decodes the class file that `bytes` starts with.
pub fn decode(bytes: Vec<u8>) -> (r: Result<ClassFile, DecodeError>)
    ensures
        match r {
            Ok(class) => parse_class(bytes@, 0) is Ok && parse_class(bytes@, 0)->Ok_0.0 == class@,
            Err(e) => fails(parse_class(bytes@, 0), e),
        },
{
    let mut reader: ClassReader = ClassReader::new(bytes);
    ClassFile::new(&mut reader)
}

} // verus!
