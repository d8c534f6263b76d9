//! Reading and then writing gives back what was read.
//!
//! For each decoder there is one lemma: where the decoder accepts a buffer
//! from some position on, the value it yields, written out again, is the
//! stretch of the buffer from that position to where the decoder stopped.

use crate::bits::{
    be_u16, be_u32, be_u64, fits, lemma_bytes_of_be_run, lemma_bytes_of_be_u16,
    lemma_bytes_of_be_u32, lemma_bytes_of_be_u64, lemma_patterns, u16_bytes,
};
use crate::class::simple_loader::attribute_info::{
    blank_for_name, parse_attribute, parse_attribute_info, parse_attribute_list,
    parse_attributes, parse_code, AttributeInfoModel, AttributeModel, ExceptionTableEntry,
    InnerClassesEntry, LineNumberTableEntry, LocalVariableTableEntry,
};
use crate::class::simple_loader::class_reader::{
    parse_class, parse_class_body, parse_member, parse_member_list, parse_members, u16s_at,
};
use crate::class::simple_loader::class_writer::{
    attribute_bytes, attribute_list_bytes, attributes_bytes, class_body_bytes, class_bytes,
    code_bytes, constant_bytes, constant_fields, counted_bytes, each_bytes, info_bytes,
    attribute_list_writable, attribute_writable, attributes_writable, class_writable,
    code_writable, constant_writable, info_writable, member_bytes, member_list_writable,
    member_writable, member_writer, pool_bytes, pool_writable, slot_bytes, slot_writer,
    u16_list_bytes, MAX_U16_LEN,
};
use crate::class::simple_loader::constant_pool::{
    fixed_constant, is_known_tag, parse_constant, parse_entries, parse_pool, payload_width,
    ConstantModel, ConstantPoolModel,
};
use vstd::prelude::*;

verus! {

/// Two stretches of a buffer that meet make one stretch.
pub proof fn lemma_stretches_join(data: Seq<u8>, from: int, mid: int, to: int)
    requires
        0 <= from <= mid <= to <= data.len(),
    ensures
        data.subrange(from, mid) + data.subrange(mid, to) == data.subrange(from, to),
{
    assert(data.subrange(from, mid) + data.subrange(mid, to) =~= data.subrange(from, to));
}

/// Writing two lists one after the other is writing their concatenation.
pub proof fn lemma_each_bytes_concat<T>(a: Seq<T>, b: Seq<T>, bytes_of: spec_fn(T) -> Seq<u8>)
    ensures
        each_bytes(a + b, bytes_of) == each_bytes(a, bytes_of) + each_bytes(b, bytes_of),
    decreases b.len(),
{
    if b.len() == 0 {
        assert(a + b =~= a);
        assert(each_bytes(a, bytes_of) + each_bytes(b, bytes_of) =~= each_bytes(a, bytes_of));
    } else {
        lemma_each_bytes_concat(a, b.drop_last(), bytes_of);
        assert((a + b).drop_last() =~= a + b.drop_last());
        assert((a + b).last() == b.last());
        assert(each_bytes(a + b, bytes_of) =~= each_bytes(a, bytes_of) + each_bytes(b, bytes_of));
    }
}

/// Writing a list of one item is writing the item.
pub proof fn lemma_each_bytes_one<T>(item: T, bytes_of: spec_fn(T) -> Seq<u8>)
    ensures
        each_bytes(seq![item], bytes_of) == bytes_of(item),
{
    assert(seq![item].drop_last() =~= Seq::<T>::empty());
    assert(each_bytes(Seq::<T>::empty(), bytes_of) =~= Seq::<u8>::empty());
    assert(each_bytes(seq![item], bytes_of) =~= bytes_of(item));
}

/// Two 16-bit values side by side, written out again, give the four bytes
/// they were read from.
pub proof fn lemma_two_u16(data: Seq<u8>, pos: int)
    requires
        fits(data, pos, 4),
    ensures
        u16_bytes(be_u16(data, pos)) + u16_bytes(be_u16(data, pos + 2)) == data.subrange(
            pos,
            pos + 4,
        ),
{
    lemma_bytes_of_be_u16(data, pos);
    lemma_bytes_of_be_u16(data, pos + 2);
    lemma_stretches_join(data, pos, pos + 2, pos + 4);
}

proof fn lemma_fixed_constant(tag: u8, data: Seq<u8>, pos: int)
    requires
        is_known_tag(tag),
        tag != 1,
        fits(data, pos, payload_width(tag)),
    ensures
        fixed_constant(tag, data, pos).tag() == tag,
        constant_fields(fixed_constant(tag, data, pos)) == data.subrange(
            pos,
            pos + payload_width(tag),
        ),
{
    lemma_patterns(0, be_u32(data, pos), 0, 0);
    if tag == 3 || tag == 4 {
        lemma_bytes_of_be_u32(data, pos);
    } else if tag == 5 || tag == 6 {
        lemma_patterns(0, 0, 0, be_u64(data, pos));
        lemma_bytes_of_be_u64(data, pos);
    } else if tag == 7 || tag == 8 || tag == 16 {
        lemma_bytes_of_be_u16(data, pos);
    } else if tag == 15 {
        lemma_bytes_of_be_u16(data, pos + 1);
        assert(seq![data[pos]] =~= data.subrange(pos, pos + 1));
        lemma_stretches_join(data, pos, pos + 1, pos + 3);
    } else {
        lemma_two_u16(data, pos);
    }
}

/// A constant record, written out again, gives the bytes it was read from.
pub proof fn lemma_constant_round_trip(data: Seq<u8>, pos: int)
    requires
        parse_constant(data, pos) is Ok,
    ensures
        pos < parse_constant(data, pos)->Ok_0.1 <= data.len(),
        constant_bytes(parse_constant(data, pos)->Ok_0.0) == data.subrange(
            pos,
            parse_constant(data, pos)->Ok_0.1,
        ),
        constant_writable(parse_constant(data, pos)->Ok_0.0),
{
    let tag = data[pos];
    let (c, end) = parse_constant(data, pos)->Ok_0;
    if tag == 1 {
        let n = be_u16(data, pos + 1);
        lemma_bytes_of_be_u16(data, pos + 1);
        lemma_stretches_join(data, pos + 1, pos + 3, end);
        assert(constant_fields(c) == data.subrange(pos + 1, end));
    } else {
        lemma_fixed_constant(tag, data, pos + 1);
    }
    assert(seq![tag] =~= data.subrange(pos, pos + 1));
    lemma_stretches_join(data, pos, pos + 1, end);
}

/// The records of a pool, written out again, give the bytes they were read
/// from.
pub proof fn lemma_entries_round_trip(data: Seq<u8>, pos: int, index: int, count: int)
    requires
        0 <= pos <= data.len(),
        parse_entries(data, pos, index, count) is Ok,
    ensures
        pos <= parse_entries(data, pos, index, count)->Ok_0.1 <= data.len(),
        each_bytes(parse_entries(data, pos, index, count)->Ok_0.0, slot_writer())
            == data.subrange(pos, parse_entries(data, pos, index, count)->Ok_0.1),
        forall|i: int|
            0 <= i < parse_entries(data, pos, index, count)->Ok_0.0.len() && (
            #[trigger] parse_entries(data, pos, index, count)->Ok_0.0[i]) is Some
                ==> constant_writable(parse_entries(data, pos, index, count)->Ok_0.0[i]->0),
    decreases count + 1 - index,
{
    if index >= count {
        assert(data.subrange(pos, pos) =~= Seq::<u8>::empty());
    } else {
        let (c, next) = parse_constant(data, pos)->Ok_0;
        let (rest, end) = parse_entries(data, next, index + c.index_span(), count)->Ok_0;
        lemma_constant_round_trip(data, pos);
        lemma_entries_round_trip(data, next, index + c.index_span(), count);
        lemma_each_bytes_concat(c.slots(), rest, slot_writer());
        lemma_each_bytes_one(Some(c), slot_writer());
        if c.is_wide() {
            let none: Option<ConstantModel> = None;
            lemma_each_bytes_one(none, slot_writer());
            lemma_each_bytes_concat(seq![Some(c)], seq![none], slot_writer());
            assert(c.slots() =~= seq![Some(c)] + seq![none]);
            assert(constant_bytes(c) + slot_bytes(none) =~= constant_bytes(c));
        }
        assert(each_bytes(c.slots(), slot_writer()) == constant_bytes(c));
        lemma_stretches_join(data, pos, next, end);
        let all = c.slots() + rest;
        assert forall|i: int| 0 <= i < all.len() && (#[trigger] all[i]) is Some
        implies constant_writable(all[i]->0) by {
            if i >= c.slots().len() {
                assert(all[i] == rest[i - c.slots().len()]);
            }
        }
    }
}

/// A constant pool, written out again, gives the bytes it was read from.
pub proof fn lemma_pool_round_trip(data: Seq<u8>, pos: int)
    requires
        parse_pool(data, pos) is Ok,
    ensures
        pos < parse_pool(data, pos)->Ok_0.1 <= data.len(),
        pool_bytes(parse_pool(data, pos)->Ok_0.0) == data.subrange(
            pos,
            parse_pool(data, pos)->Ok_0.1,
        ),
        pool_writable(parse_pool(data, pos)->Ok_0.0),
{
    let count = be_u16(data, pos);
    let (slots, end) = parse_entries(data, pos + 2, 1, count as int)->Ok_0;
    let none: Option<ConstantModel> = None;
    lemma_entries_round_trip(data, pos + 2, 1, count as int);
    lemma_bytes_of_be_u16(data, pos);
    lemma_each_bytes_one(none, slot_writer());
    lemma_each_bytes_concat(seq![none], slots, slot_writer());
    assert(slot_bytes(none) + data.subrange(pos + 2, end) =~= data.subrange(pos + 2, end));
    lemma_stretches_join(data, pos, pos + 2, end);
    let entries = seq![none] + slots;
    assert forall|i: int| 0 <= i < entries.len() && (#[trigger] entries[i]) is Some
    implies constant_writable(entries[i]->0) by {
        assert(entries[i] == slots[i - 1]);
    }
}

/// Items of one width that were read side by side, written out again, give
/// the bytes they were read from.
pub proof fn lemma_fixed_run<T>(
    data: Seq<u8>,
    pos: int,
    width: int,
    items: Seq<T>,
    bytes_of: spec_fn(T) -> Seq<u8>,
)
    requires
        0 <= pos,
        0 < width,
        pos + width * items.len() <= data.len(),
        forall|i: int|
            0 <= i < items.len() ==> #[trigger] bytes_of(items[i]) == data.subrange(
                pos + width * i,
                pos + width * i + width,
            ),
    ensures
        each_bytes(items, bytes_of) == data.subrange(pos, pos + width * items.len()),
    decreases items.len(),
{
    let n = items.len() as int;
    if n == 0 {
        assert(width * 0 == 0);
        assert(each_bytes(items, bytes_of) =~= data.subrange(pos, pos + width * n));
    } else {
        assert(width * (n - 1) + width == width * n && 0 <= width * (n - 1)) by (nonlinear_arith)
            requires
                0 < width,
                0 < n,
        ;
        let front = items.drop_last();
        assert forall|i: int| 0 <= i < front.len() implies #[trigger] bytes_of(front[i])
            == data.subrange(pos + width * i, pos + width * i + width) by {
            assert(front[i] == items[i]);
        }
        lemma_fixed_run(data, pos, width, front, bytes_of);
        assert(bytes_of(items[n - 1]) == data.subrange(
            pos + width * (n - 1),
            pos + width * (n - 1) + width,
        ));
        lemma_stretches_join(data, pos, pos + width * (n - 1), pos + width * n);
    }
}

proof fn lemma_exception_entry(data: Seq<u8>, pos: int)
    requires
        fits(data, pos, 8),
    ensures
        ExceptionTableEntry::at(data, pos).bytes() == data.subrange(pos, pos + 8),
{
    lemma_bytes_of_be_u16(data, pos);
    lemma_bytes_of_be_u16(data, pos + 2);
    lemma_bytes_of_be_u16(data, pos + 4);
    lemma_bytes_of_be_u16(data, pos + 6);
    lemma_stretches_join(data, pos, pos + 2, pos + 4);
    lemma_stretches_join(data, pos, pos + 4, pos + 6);
    lemma_stretches_join(data, pos, pos + 6, pos + 8);
}

/// An exception table, written out again, gives the bytes it was read from.
pub proof fn lemma_exception_table_round_trip(data: Seq<u8>, pos: int)
    requires
        ExceptionTableEntry::table_at(data, pos) is Ok,
    ensures
        pos < ExceptionTableEntry::table_at(data, pos)->Ok_0.1 <= data.len(),
        counted_bytes(ExceptionTableEntry::table_at(data, pos)->Ok_0.0, ExceptionTableEntry::writer())
            == data.subrange(pos, ExceptionTableEntry::table_at(data, pos)->Ok_0.1),
        ExceptionTableEntry::table_at(data, pos)->Ok_0.0.len() <= MAX_U16_LEN,
{
    let n = be_u16(data, pos) as int;
    let (table, end) = ExceptionTableEntry::table_at(data, pos)->Ok_0;
    assert forall|i: int| 0 <= i < table.len() implies #[trigger] ExceptionTableEntry::writer()(table[i])
        == data.subrange(pos + 2 + 8 * i, pos + 2 + 8 * i + 8) by {
        lemma_exception_entry(data, pos + 2 + 8 * i);
    }
    lemma_fixed_run(data, pos + 2, 8, table, ExceptionTableEntry::writer());
    lemma_bytes_of_be_u16(data, pos);
    lemma_stretches_join(data, pos, pos + 2, end);
}

proof fn lemma_inner_classes_entry(data: Seq<u8>, pos: int)
    requires
        fits(data, pos, 8),
    ensures
        InnerClassesEntry::at(data, pos).bytes() == data.subrange(pos, pos + 8),
{
    lemma_bytes_of_be_u16(data, pos);
    lemma_bytes_of_be_u16(data, pos + 2);
    lemma_bytes_of_be_u16(data, pos + 4);
    lemma_bytes_of_be_u16(data, pos + 6);
    lemma_stretches_join(data, pos, pos + 2, pos + 4);
    lemma_stretches_join(data, pos, pos + 4, pos + 6);
    lemma_stretches_join(data, pos, pos + 6, pos + 8);
}

/// A table of inner classes, written out again, gives the bytes it was read from.
pub proof fn lemma_inner_classes_table_round_trip(data: Seq<u8>, pos: int)
    requires
        InnerClassesEntry::table_at(data, pos) is Ok,
    ensures
        pos < InnerClassesEntry::table_at(data, pos)->Ok_0.1 <= data.len(),
        counted_bytes(InnerClassesEntry::table_at(data, pos)->Ok_0.0, InnerClassesEntry::writer())
            == data.subrange(pos, InnerClassesEntry::table_at(data, pos)->Ok_0.1),
        InnerClassesEntry::table_at(data, pos)->Ok_0.0.len() <= MAX_U16_LEN,
{
    let n = be_u16(data, pos) as int;
    let (table, end) = InnerClassesEntry::table_at(data, pos)->Ok_0;
    assert forall|i: int| 0 <= i < table.len() implies #[trigger] InnerClassesEntry::writer()(table[i])
        == data.subrange(pos + 2 + 8 * i, pos + 2 + 8 * i + 8) by {
        lemma_inner_classes_entry(data, pos + 2 + 8 * i);
    }
    lemma_fixed_run(data, pos + 2, 8, table, InnerClassesEntry::writer());
    lemma_bytes_of_be_u16(data, pos);
    lemma_stretches_join(data, pos, pos + 2, end);
}

proof fn lemma_line_number_entry(data: Seq<u8>, pos: int)
    requires
        fits(data, pos, 4),
    ensures
        LineNumberTableEntry::at(data, pos).bytes() == data.subrange(pos, pos + 4),
{
    lemma_bytes_of_be_u16(data, pos);
    lemma_bytes_of_be_u16(data, pos + 2);
    lemma_stretches_join(data, pos, pos + 2, pos + 4);
}

/// A line-number table, written out again, gives the bytes it was read from.
pub proof fn lemma_line_number_table_round_trip(data: Seq<u8>, pos: int)
    requires
        LineNumberTableEntry::table_at(data, pos) is Ok,
    ensures
        pos < LineNumberTableEntry::table_at(data, pos)->Ok_0.1 <= data.len(),
        counted_bytes(LineNumberTableEntry::table_at(data, pos)->Ok_0.0, LineNumberTableEntry::writer())
            == data.subrange(pos, LineNumberTableEntry::table_at(data, pos)->Ok_0.1),
        LineNumberTableEntry::table_at(data, pos)->Ok_0.0.len() <= MAX_U16_LEN,
{
    let n = be_u16(data, pos) as int;
    let (table, end) = LineNumberTableEntry::table_at(data, pos)->Ok_0;
    assert forall|i: int| 0 <= i < table.len() implies #[trigger] LineNumberTableEntry::writer()(table[i])
        == data.subrange(pos + 2 + 4 * i, pos + 2 + 4 * i + 4) by {
        lemma_line_number_entry(data, pos + 2 + 4 * i);
    }
    lemma_fixed_run(data, pos + 2, 4, table, LineNumberTableEntry::writer());
    lemma_bytes_of_be_u16(data, pos);
    lemma_stretches_join(data, pos, pos + 2, end);
}

proof fn lemma_local_variable_entry(data: Seq<u8>, pos: int)
    requires
        fits(data, pos, 10),
    ensures
        LocalVariableTableEntry::at(data, pos).bytes() == data.subrange(pos, pos + 10),
{
    lemma_bytes_of_be_u16(data, pos);
    lemma_bytes_of_be_u16(data, pos + 2);
    lemma_bytes_of_be_u16(data, pos + 4);
    lemma_bytes_of_be_u16(data, pos + 6);
    lemma_bytes_of_be_u16(data, pos + 8);
    lemma_stretches_join(data, pos, pos + 2, pos + 4);
    lemma_stretches_join(data, pos, pos + 4, pos + 6);
    lemma_stretches_join(data, pos, pos + 6, pos + 8);
    lemma_stretches_join(data, pos, pos + 8, pos + 10);
}

/// A table of local variables, written out again, gives the bytes it was read from.
pub proof fn lemma_local_variable_table_round_trip(data: Seq<u8>, pos: int)
    requires
        LocalVariableTableEntry::table_at(data, pos) is Ok,
    ensures
        pos < LocalVariableTableEntry::table_at(data, pos)->Ok_0.1 <= data.len(),
        counted_bytes(LocalVariableTableEntry::table_at(data, pos)->Ok_0.0, LocalVariableTableEntry::writer())
            == data.subrange(pos, LocalVariableTableEntry::table_at(data, pos)->Ok_0.1),
        LocalVariableTableEntry::table_at(data, pos)->Ok_0.0.len() <= MAX_U16_LEN,
{
    let n = be_u16(data, pos) as int;
    let (table, end) = LocalVariableTableEntry::table_at(data, pos)->Ok_0;
    assert forall|i: int| 0 <= i < table.len() implies #[trigger] LocalVariableTableEntry::writer()(table[i])
        == data.subrange(pos + 2 + 10 * i, pos + 2 + 10 * i + 10) by {
        lemma_local_variable_entry(data, pos + 2 + 10 * i);
    }
    lemma_fixed_run(data, pos + 2, 10, table, LocalVariableTableEntry::writer());
    lemma_bytes_of_be_u16(data, pos);
    lemma_stretches_join(data, pos, pos + 2, end);
}

/// A counted run of 16-bit values, written out again, gives the bytes it was
/// read from.
pub proof fn lemma_u16s_round_trip(data: Seq<u8>, pos: int)
    requires
        u16s_at(data, pos) is Ok,
    ensures
        pos < u16s_at(data, pos)->Ok_0.1 <= data.len(),
        u16_list_bytes(u16s_at(data, pos)->Ok_0.0) == data.subrange(
            pos,
            u16s_at(data, pos)->Ok_0.1,
        ),
        u16s_at(data, pos)->Ok_0.0.len() <= MAX_U16_LEN,
{
    let n = be_u16(data, pos) as int;
    let end = u16s_at(data, pos)->Ok_0.1;
    lemma_bytes_of_be_run(data, pos + 2, n);
    lemma_bytes_of_be_u16(data, pos);
    lemma_stretches_join(data, pos, pos + 2, end);
}

/// Writing two lists of attributes one after the other is writing their
/// concatenation.
pub proof fn lemma_attributes_bytes_concat(a: Seq<AttributeModel>, b: Seq<AttributeModel>)
    ensures
        attributes_bytes(a + b) == attributes_bytes(a) + attributes_bytes(b),
    decreases b.len(),
{
    if b.len() == 0 {
        assert(a + b =~= a);
        assert(attributes_bytes(a) + attributes_bytes(b) =~= attributes_bytes(a));
    } else {
        lemma_attributes_bytes_concat(a, b.drop_last());
        assert((a + b).drop_last() =~= a + b.drop_last());
        assert((a + b).last() == b.last());
        assert(attributes_bytes(a + b) =~= attributes_bytes(a) + attributes_bytes(b));
    }
}

/// An attribute, written out again, gives the bytes it was read from.
pub proof fn lemma_attribute_round_trip(data: Seq<u8>, pos: int, pool: ConstantPoolModel)
    requires
        parse_attribute(data, pos, pool) is Ok,
    ensures
        pos < parse_attribute(data, pos, pool)->Ok_0.1 <= data.len(),
        attribute_bytes(parse_attribute(data, pos, pool)->Ok_0.0) == data.subrange(
            pos,
            parse_attribute(data, pos, pool)->Ok_0.1,
        ),
        attribute_writable(parse_attribute(data, pos, pool)->Ok_0.0),
    decreases data.len(), 0int, 0int,
{
    let (attribute, end) = parse_attribute(data, pos, pool)->Ok_0;
    let name = pool.utf8(be_u16(data, pos) as int)->0;
    let payload = data.subrange(pos + 6, end);
    lemma_info_round_trip(blank_for_name(name.text), payload, pool);
    assert(info_bytes(attribute.info) == payload);
    lemma_bytes_of_be_u16(data, pos);
    lemma_bytes_of_be_u32(data, pos + 2);
    lemma_stretches_join(data, pos, pos + 2, pos + 6);
    lemma_stretches_join(data, pos, pos + 6, end);
}

/// Attributes read one after the other, written out again, give the bytes
/// they were read from.
pub proof fn lemma_attributes_round_trip(data: Seq<u8>, pos: int, n: int, pool: ConstantPoolModel)
    requires
        0 <= pos <= data.len(),
        parse_attributes(data, pos, n, pool) is Ok,
    ensures
        pos <= parse_attributes(data, pos, n, pool)->Ok_0.1 <= data.len(),
        parse_attributes(data, pos, n, pool)->Ok_0.0.len() == (if n > 0 {
            n
        } else {
            0
        }),
        attributes_bytes(parse_attributes(data, pos, n, pool)->Ok_0.0) == data.subrange(
            pos,
            parse_attributes(data, pos, n, pool)->Ok_0.1,
        ),
        attributes_writable(parse_attributes(data, pos, n, pool)->Ok_0.0),
    decreases data.len(), 0int, n + 1,
{
    if n <= 0 {
        assert(data.subrange(pos, pos) =~= Seq::<u8>::empty());
    } else {
        let (first, next) = parse_attribute(data, pos, pool)->Ok_0;
        let (rest, end) = parse_attributes(data, next, n - 1, pool)->Ok_0;
        lemma_attribute_round_trip(data, pos, pool);
        lemma_attributes_round_trip(data, next, n - 1, pool);
        lemma_attributes_bytes_concat(seq![first], rest);
        assert(seq![first].drop_last() =~= Seq::<AttributeModel>::empty());
        assert(attributes_bytes(Seq::<AttributeModel>::empty()) =~= Seq::<u8>::empty());
        assert(attributes_bytes(seq![first]) =~= attribute_bytes(first));
        lemma_stretches_join(data, pos, next, end);
        let all = seq![first] + rest;
        assert forall|i: int| 0 <= i < all.len() implies attribute_writable(#[trigger] all[i]) by {
            if i > 0 {
                assert(all[i] == rest[i - 1]);
            }
        }
    }
}

/// A counted list of attributes, written out again, gives the bytes it was
/// read from.
pub proof fn lemma_attribute_list_round_trip(data: Seq<u8>, pos: int, pool: ConstantPoolModel)
    requires
        parse_attribute_list(data, pos, pool) is Ok,
    ensures
        pos < parse_attribute_list(data, pos, pool)->Ok_0.1 <= data.len(),
        attribute_list_bytes(parse_attribute_list(data, pos, pool)->Ok_0.0) == data.subrange(
            pos,
            parse_attribute_list(data, pos, pool)->Ok_0.1,
        ),
        attribute_list_writable(parse_attribute_list(data, pos, pool)->Ok_0.0),
    decreases data.len(), 1int, 0int,
{
    let end = parse_attribute_list(data, pos, pool)->Ok_0.1;
    lemma_attributes_round_trip(data, pos + 2, be_u16(data, pos) as int, pool);
    lemma_bytes_of_be_u16(data, pos);
    lemma_stretches_join(data, pos, pos + 2, end);
}

/// The fields of a `Code` attribute, written out again, give the bytes they
/// were read from.
pub proof fn lemma_code_round_trip(data: Seq<u8>, pool: ConstantPoolModel)
    requires
        parse_code(data, pool) is Ok,
    ensures
        0 < parse_code(data, pool)->Ok_0.1 <= data.len(),
        code_bytes(parse_code(data, pool)->Ok_0.0) == data.subrange(
            0,
            parse_code(data, pool)->Ok_0.1,
        ),
        code_writable(parse_code(data, pool)->Ok_0.0),
    decreases data.len(), 2int, 0int,
{
    let (code, end) = parse_code(data, pool)->Ok_0;
    let code_end = 8 + be_u32(data, 4);
    let table_end = ExceptionTableEntry::table_at(data, code_end)->Ok_0.1;
    lemma_two_u16(data, 0);
    lemma_bytes_of_be_u32(data, 4);
    lemma_exception_table_round_trip(data, code_end);
    lemma_attribute_list_round_trip(data, table_end, pool);
    lemma_stretches_join(data, 0, 4, 8);
    lemma_stretches_join(data, 0, 8, code_end);
    lemma_stretches_join(data, 0, code_end, table_end);
    lemma_stretches_join(data, 0, table_end, end);
}

/// The payload of an attribute, written out again, is the payload that was
/// read.
pub proof fn lemma_info_round_trip(kind: AttributeInfoModel, data: Seq<u8>, pool: ConstantPoolModel)
    requires
        parse_attribute_info(kind, data, pool) is Ok,
    ensures
        info_bytes(parse_attribute_info(kind, data, pool)->Ok_0) == data,
        info_writable(parse_attribute_info(kind, data, pool)->Ok_0),
    decreases data.len(), 3int, 0int,
{
    assert(data.subrange(0, data.len() as int) =~= data);
    match kind {
        AttributeInfoModel::Code(_) => {
            lemma_code_round_trip(data, pool);
        },
        AttributeInfoModel::ConstantValue(_) => {
            lemma_bytes_of_be_u16(data, 0);
        },
        AttributeInfoModel::Exceptions(_) => {
            lemma_u16s_round_trip(data, 0);
        },
        AttributeInfoModel::InnerClasses(_) => {
            lemma_inner_classes_table_round_trip(data, 0);
        },
        AttributeInfoModel::Signature(_) => {
            lemma_bytes_of_be_u16(data, 0);
        },
        AttributeInfoModel::StackMapTable(_) => {},
        AttributeInfoModel::LineNumberTable(_) => {
            lemma_line_number_table_round_trip(data, 0);
        },
        AttributeInfoModel::LocalVariableTable(_) => {
            lemma_local_variable_table_round_trip(data, 0);
        },
        AttributeInfoModel::SourceFile(_) => {
            lemma_bytes_of_be_u16(data, 0);
        },
        AttributeInfoModel::Unknown(_) => {},
    }
}

/// A member, written out again, gives the bytes it was read from.
pub proof fn lemma_member_round_trip(data: Seq<u8>, pos: int, pool: ConstantPoolModel)
    requires
        parse_member(data, pos, pool) is Ok,
    ensures
        pos < parse_member(data, pos, pool)->Ok_0.1 <= data.len(),
        member_bytes(parse_member(data, pos, pool)->Ok_0.0) == data.subrange(
            pos,
            parse_member(data, pos, pool)->Ok_0.1,
        ),
        member_writable(parse_member(data, pos, pool)->Ok_0.0),
{
    let end = parse_member(data, pos, pool)->Ok_0.1;
    lemma_two_u16(data, pos);
    lemma_bytes_of_be_u16(data, pos + 4);
    lemma_attribute_list_round_trip(data, pos + 6, pool);
    lemma_stretches_join(data, pos, pos + 4, pos + 6);
    lemma_stretches_join(data, pos, pos + 6, end);
}

/// Members read one after the other, written out again, give the bytes they
/// were read from.
pub proof fn lemma_members_round_trip(data: Seq<u8>, pos: int, n: int, pool: ConstantPoolModel)
    requires
        0 <= pos <= data.len(),
        parse_members(data, pos, n, pool) is Ok,
    ensures
        pos <= parse_members(data, pos, n, pool)->Ok_0.1 <= data.len(),
        parse_members(data, pos, n, pool)->Ok_0.0.len() == (if n > 0 {
            n
        } else {
            0
        }),
        each_bytes(parse_members(data, pos, n, pool)->Ok_0.0, member_writer()) == data.subrange(
            pos,
            parse_members(data, pos, n, pool)->Ok_0.1,
        ),
        forall|i: int|
            0 <= i < parse_members(data, pos, n, pool)->Ok_0.0.len() ==> member_writable(
                #[trigger] parse_members(data, pos, n, pool)->Ok_0.0[i],
            ),
    decreases n,
{
    if n <= 0 {
        assert(data.subrange(pos, pos) =~= Seq::<u8>::empty());
    } else {
        let (first, next) = parse_member(data, pos, pool)->Ok_0;
        let (rest, end) = parse_members(data, next, n - 1, pool)->Ok_0;
        lemma_member_round_trip(data, pos, pool);
        lemma_members_round_trip(data, next, n - 1, pool);
        lemma_each_bytes_concat(seq![first], rest, member_writer());
        lemma_each_bytes_one(first, member_writer());
        lemma_stretches_join(data, pos, next, end);
        let all = seq![first] + rest;
        assert forall|i: int| 0 <= i < all.len() implies member_writable(#[trigger] all[i]) by {
            if i > 0 {
                assert(all[i] == rest[i - 1]);
            }
        }
    }
}

/// A counted list of members, written out again, gives the bytes it was read
/// from.
pub proof fn lemma_member_list_round_trip(data: Seq<u8>, pos: int, pool: ConstantPoolModel)
    requires
        parse_member_list(data, pos, pool) is Ok,
    ensures
        pos < parse_member_list(data, pos, pool)->Ok_0.1 <= data.len(),
        counted_bytes(parse_member_list(data, pos, pool)->Ok_0.0, member_writer())
            == data.subrange(pos, parse_member_list(data, pos, pool)->Ok_0.1),
        member_list_writable(parse_member_list(data, pos, pool)->Ok_0.0),
{
    let end = parse_member_list(data, pos, pool)->Ok_0.1;
    lemma_members_round_trip(data, pos + 2, be_u16(data, pos) as int, pool);
    lemma_bytes_of_be_u16(data, pos);
    lemma_stretches_join(data, pos, pos + 2, end);
}

/// What follows the constant pool of a class file, written out again, gives
/// the bytes it was read from.
pub proof fn lemma_class_body_round_trip(
    data: Seq<u8>,
    pos: int,
    minor_version: u16,
    major_version: u16,
    pool: ConstantPoolModel,
)
    requires
        parse_class_body(data, pos, minor_version, major_version, pool) is Ok,
    ensures
        pos < parse_class_body(data, pos, minor_version, major_version, pool)->Ok_0.1
            <= data.len(),
        class_body_bytes(parse_class_body(data, pos, minor_version, major_version, pool)->Ok_0.0)
            == data.subrange(
            pos,
            parse_class_body(data, pos, minor_version, major_version, pool)->Ok_0.1,
        ),
        pool_writable(pool) ==> class_writable(
            parse_class_body(data, pos, minor_version, major_version, pool)->Ok_0.0,
        ),
{
    let (class, end) = parse_class_body(data, pos, minor_version, major_version, pool)->Ok_0;
    let (interfaces, fields_at) = u16s_at(data, pos + 6)->Ok_0;
    let (fields, methods_at) = parse_member_list(data, fields_at, pool)->Ok_0;
    let (methods, attributes_at) = parse_member_list(data, methods_at, pool)->Ok_0;
    lemma_two_u16(data, pos);
    lemma_bytes_of_be_u16(data, pos + 4);
    lemma_u16s_round_trip(data, pos + 6);
    lemma_member_list_round_trip(data, fields_at, pool);
    lemma_member_list_round_trip(data, methods_at, pool);
    lemma_attribute_list_round_trip(data, attributes_at, pool);
    lemma_stretches_join(data, pos, pos + 4, pos + 6);
    lemma_stretches_join(data, pos, pos + 6, fields_at);
    lemma_stretches_join(data, pos, fields_at, methods_at);
    lemma_stretches_join(data, pos, methods_at, attributes_at);
    lemma_stretches_join(data, pos, attributes_at, end);
}

/// A class file that decodes can be written, and written out again from
/// what was decoded it is byte for byte the stretch of the buffer that the
/// decoder read. Where the decoder read the buffer to its end, it is the
/// whole buffer.
pub proof fn lemma_class_round_trip(data: Seq<u8>, pos: int)
    requires
        parse_class(data, pos) is Ok,
    ensures
        0 <= pos < parse_class(data, pos)->Ok_0.1 <= data.len(),
        class_writable(parse_class(data, pos)->Ok_0.0),
        class_bytes(parse_class(data, pos)->Ok_0.0) == data.subrange(
            pos,
            parse_class(data, pos)->Ok_0.1,
        ),
        pos == 0 && parse_class(data, pos)->Ok_0.1 == data.len() ==> class_bytes(
            parse_class(data, pos)->Ok_0.0,
        ) == data,
{
    let (class, end) = parse_class(data, pos)->Ok_0;
    let (pool, body_at) = parse_pool(data, pos + 8)->Ok_0;
    lemma_pool_round_trip(data, pos + 8);
    lemma_class_body_round_trip(data, body_at, be_u16(data, pos + 4), be_u16(data, pos + 6), pool);
    lemma_bytes_of_be_u32(data, pos);
    lemma_bytes_of_be_u16(data, pos + 4);
    lemma_bytes_of_be_u16(data, pos + 6);
    lemma_stretches_join(data, pos, pos + 4, pos + 6);
    lemma_stretches_join(data, pos, pos + 6, pos + 8);
    lemma_stretches_join(data, pos, pos + 8, body_at);
    lemma_stretches_join(data, pos, body_at, end);
    assert(data.subrange(0, data.len() as int) =~= data);
}

} // verus!
