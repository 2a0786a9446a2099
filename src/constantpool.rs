use vstd::prelude::*;
use vstd::utf8::{valid_utf8, decode_utf8, encode_utf8, decode_utf8_encode_utf8};
use crate::error::DecodeError;
use crate::endianness::{BigEndianByteOrder, ByteOrder, spec_read_u8, spec_read_u16, spec_read_u32};
use crate::bytes::{read_bytes, spec_read_bytes, string_from_utf8};

verus! {

#[derive(Debug, Clone, Copy, PartialEq, Eq, Structural)]
pub struct ClassInfoConstantPoolEntry {
    pub tag: u8,
    pub name_index: u16,
}

#[derive(Debug, Clone, Copy, PartialEq, Eq, Structural)]
pub struct FieldrefConstantPoolEntry {
    pub tag: u8,
    pub class_index: u16,
    pub name_and_type_index: u16,
}

#[derive(Debug, Clone, Copy, PartialEq, Eq, Structural)]
pub struct MethodrefConstantPoolEntry {
    pub tag: u8,
    pub class_index: u16,
    pub name_and_type_index: u16,
}

#[derive(Debug, Clone, Copy, PartialEq, Eq, Structural)]
pub struct InterfaceMethodrefConstantPoolEntry {
    pub tag: u8,
    pub class_index: u16,
    pub name_and_type_index: u16,
}

#[derive(Debug, Clone, Copy, PartialEq, Eq, Structural)]
pub struct StringConstantPoolEntry {
    pub tag: u8,
    pub string_index: u16,
}

#[derive(Debug, Clone, Copy, PartialEq, Eq, Structural)]
pub struct IntegerConstantPoolEntry {
    pub tag: u8,
    pub bytes: u32,
}

/// A single-precision constant, kept as its raw bit pattern.
#[derive(Debug, Clone, Copy, PartialEq, Eq, Structural)]
pub struct FloatConstantPoolEntry {
    pub tag: u8,
    pub bytes: u32,
}

#[derive(Debug, Clone, Copy, PartialEq, Eq, Structural)]
pub struct LongConstantPoolEntry {
    pub tag: u8,
    pub low_bytes: u32,
    pub high_bytes: u32,
}

/// A double-precision constant, kept as the two halves of its bit pattern.
#[derive(Debug, Clone, Copy, PartialEq, Eq, Structural)]
pub struct DoubleConstantPoolEntry {
    pub tag: u8,
    pub low_bytes: u32,
    pub high_bytes: u32,
}

#[derive(Debug, Clone, Copy, PartialEq, Eq, Structural)]
pub struct NameAndTypeConstantPoolEntry {
    pub tag: u8,
    pub name_index: u16,
    pub descriptor_index: u16,
}

/// A text constant: its declared byte length and the decoded text.
#[derive(Debug, Clone, PartialEq, Eq)]
pub struct Utf8ConstantPoolEntry {
    pub tag: u8,
    pub length: u16,
    pub bytes: String,
}

#[derive(Debug, Clone, Copy, PartialEq, Eq, Structural)]
pub struct MethodHandleConstantPoolEntry {
    pub tag: u8,
    pub reference_kind: u8,
    pub reference_index: u16,
}

#[derive(Debug, Clone, Copy, PartialEq, Eq, Structural)]
pub struct MethodTypeConstantPoolEntry {
    pub tag: u8,
    pub descriptor_index: u16,
}

#[derive(Debug, Clone, Copy, PartialEq, Eq, Structural)]
pub struct InvokeDynamicConstantPoolEntry {
    pub tag: u8,
    pub bootstrap_method_attr_index: u16,
    pub name_and_type_index: u16,
}

/// One slot of the constant table. `Dummy` is the unusable slot that follows
/// every `Long` and `Double` entry.
#[derive(Debug, Clone, PartialEq, Eq)]
pub enum ConstantPoolEntry {
    ClassInfo(ClassInfoConstantPoolEntry),
    Fieldref(FieldrefConstantPoolEntry),
    Methodref(MethodrefConstantPoolEntry),
    InterfaceMethodref(InterfaceMethodrefConstantPoolEntry),
    String(StringConstantPoolEntry),
    Integer(IntegerConstantPoolEntry),
    Float(FloatConstantPoolEntry),
    Long(LongConstantPoolEntry),
    Double(DoubleConstantPoolEntry),
    NameAndType(NameAndTypeConstantPoolEntry),
    Utf8(Utf8ConstantPoolEntry),
    MethodHandle(MethodHandleConstantPoolEntry),
    MethodType(MethodTypeConstantPoolEntry),
    InvokeDynamic(InvokeDynamicConstantPoolEntry),
    Dummy,
}

/// The mathematical value of a text constant.
pub struct Utf8View {
    pub tag: u8,
    pub length: u16,
    pub text: Seq<char>,
}

impl View for Utf8ConstantPoolEntry {
    type V = Utf8View;

    open spec fn view(&self) -> Utf8View {
        Utf8View { tag: self.tag, length: self.length, text: self.bytes@ }
    }
}

/// The mathematical value of a constant-table slot.
pub enum EntryView {
    ClassInfo(ClassInfoConstantPoolEntry),
    Fieldref(FieldrefConstantPoolEntry),
    Methodref(MethodrefConstantPoolEntry),
    InterfaceMethodref(InterfaceMethodrefConstantPoolEntry),
    String(StringConstantPoolEntry),
    Integer(IntegerConstantPoolEntry),
    Float(FloatConstantPoolEntry),
    Long(LongConstantPoolEntry),
    Double(DoubleConstantPoolEntry),
    NameAndType(NameAndTypeConstantPoolEntry),
    Utf8(Utf8View),
    MethodHandle(MethodHandleConstantPoolEntry),
    MethodType(MethodTypeConstantPoolEntry),
    InvokeDynamic(InvokeDynamicConstantPoolEntry),
    Dummy,
}

impl View for ConstantPoolEntry {
    type V = EntryView;

    open spec fn view(&self) -> EntryView {
        match self {
            ConstantPoolEntry::ClassInfo(e) => EntryView::ClassInfo(*e),
            ConstantPoolEntry::Fieldref(e) => EntryView::Fieldref(*e),
            ConstantPoolEntry::Methodref(e) => EntryView::Methodref(*e),
            ConstantPoolEntry::InterfaceMethodref(e) => EntryView::InterfaceMethodref(*e),
            ConstantPoolEntry::String(e) => EntryView::String(*e),
            ConstantPoolEntry::Integer(e) => EntryView::Integer(*e),
            ConstantPoolEntry::Float(e) => EntryView::Float(*e),
            ConstantPoolEntry::Long(e) => EntryView::Long(*e),
            ConstantPoolEntry::Double(e) => EntryView::Double(*e),
            ConstantPoolEntry::NameAndType(e) => EntryView::NameAndType(*e),
            ConstantPoolEntry::Utf8(e) => EntryView::Utf8(e@),
            ConstantPoolEntry::MethodHandle(e) => EntryView::MethodHandle(*e),
            ConstantPoolEntry::MethodType(e) => EntryView::MethodType(*e),
            ConstantPoolEntry::InvokeDynamic(e) => EntryView::InvokeDynamic(*e),
            ConstantPoolEntry::Dummy => EntryView::Dummy,
        }
    }
}

pub const CONSTANT_UTF8: u8 = 1;
pub const CONSTANT_INTEGER: u8 = 3;
pub const CONSTANT_FLOAT: u8 = 4;
pub const CONSTANT_LONG: u8 = 5;
pub const CONSTANT_DOUBLE: u8 = 6;
pub const CONSTANT_CLASS_INFO: u8 = 7;
pub const CONSTANT_STRING: u8 = 8;
pub const CONSTANT_FIELD_REF: u8 = 9;
pub const CONSTANT_METHOD_REF: u8 = 10;
pub const CONSTANT_INTERFACE_METHOD_REF: u8 = 11;
pub const CONSTANT_NAME_AND_TYPE: u8 = 12;
pub const CONSTANT_METHOD_HANDLE: u8 = 15;
pub const CONSTANT_METHOD_TYPE: u8 = 16;
pub const CONSTANT_INVOKE_DYNAMIC: u8 = 18;

/// The view of a decoder's result: the decoded slot's value and the offset after it.
pub open spec fn entry_result_view(r: Result<(ConstantPoolEntry, usize), DecodeError>) -> Result<
    (EntryView, usize),
    DecodeError,
> {
    match r {
        Ok((e, next)) => Ok((e@, next)),
        Err(x) => Err(x),
    }
}

/// Two consecutive big-endian 16-bit fields at `offset`.
pub open spec fn spec_read_u16_pair(b: Seq<u8>, offset: usize) -> Result<(u16, u16), DecodeError> {
    match spec_read_u16(b, offset) {
        Err(e) => Err(e),
        Ok(x) => match spec_read_u16(b, (offset + 2) as usize) {
            Err(e) => Err(e),
            Ok(y) => Ok((x, y)),
        },
    }
}

/// Two consecutive big-endian 32-bit fields at `offset`.
pub open spec fn spec_read_u32_pair(b: Seq<u8>, offset: usize) -> Result<(u32, u32), DecodeError> {
    match spec_read_u32(b, offset) {
        Err(e) => Err(e),
        Ok(x) => match spec_read_u32(b, (offset + 4) as usize) {
            Err(e) => Err(e),
            Ok(y) => Ok((x, y)),
        },
    }
}

/// The body of a text constant at `offset`: a 16-bit length, then that many
/// bytes of well-formed UTF-8.
pub open spec fn spec_utf8_body(b: Seq<u8>, offset: usize) -> Result<(EntryView, usize), DecodeError> {
    match spec_read_u16(b, offset) {
        Err(e) => Err(e),
        Ok(length) => {
            let start = (offset + 2) as usize;
            match spec_read_bytes(b, start, length as usize) {
                Err(e) => Err(e),
                Ok(payload) => if valid_utf8(payload) {
                    Ok(
                        (
                            EntryView::Utf8(
                                Utf8View { tag: CONSTANT_UTF8, length, text: decode_utf8(payload) },
                            ),
                            (start + length) as usize,
                        ),
                    )
                } else {
                    Err(DecodeError::InvalidUtf8Payload { offset: start })
                },
            }
        },
    }
}

/// The body of the entry with tag `tag`, whose fields start at `offset`,
/// and the offset after it.
pub open spec fn spec_entry_body(tag: u8, b: Seq<u8>, offset: usize) -> Result<
    (EntryView, usize),
    DecodeError,
> {
    let next2 = (offset + 2) as usize;
    let next3 = (offset + 3) as usize;
    let next4 = (offset + 4) as usize;
    let next8 = (offset + 8) as usize;
    if tag == CONSTANT_UTF8 {
        spec_utf8_body(b, offset)
    } else if tag == CONSTANT_CLASS_INFO || tag == CONSTANT_STRING || tag == CONSTANT_METHOD_TYPE {
        match spec_read_u16(b, offset) {
            Err(e) => Err(e),
            Ok(x) => Ok(
                (
                    if tag == CONSTANT_CLASS_INFO {
                        EntryView::ClassInfo(ClassInfoConstantPoolEntry { tag, name_index: x })
                    } else if tag == CONSTANT_STRING {
                        EntryView::String(StringConstantPoolEntry { tag, string_index: x })
                    } else {
                        EntryView::MethodType(MethodTypeConstantPoolEntry { tag, descriptor_index: x })
                    },
                    next2,
                ),
            ),
        }
    } else if tag == CONSTANT_FIELD_REF || tag == CONSTANT_METHOD_REF || tag
        == CONSTANT_INTERFACE_METHOD_REF || tag == CONSTANT_NAME_AND_TYPE || tag
        == CONSTANT_INVOKE_DYNAMIC {
        match spec_read_u16_pair(b, offset) {
            Err(e) => Err(e),
            Ok((x, y)) => Ok(
                (
                    if tag == CONSTANT_FIELD_REF {
                        EntryView::Fieldref(
                            FieldrefConstantPoolEntry { tag, class_index: x, name_and_type_index: y },
                        )
                    } else if tag == CONSTANT_METHOD_REF {
                        EntryView::Methodref(
                            MethodrefConstantPoolEntry { tag, class_index: x, name_and_type_index: y },
                        )
                    } else if tag == CONSTANT_INTERFACE_METHOD_REF {
                        EntryView::InterfaceMethodref(
                            InterfaceMethodrefConstantPoolEntry {
                                tag,
                                class_index: x,
                                name_and_type_index: y,
                            },
                        )
                    } else if tag == CONSTANT_NAME_AND_TYPE {
                        EntryView::NameAndType(
                            NameAndTypeConstantPoolEntry { tag, name_index: x, descriptor_index: y },
                        )
                    } else {
                        EntryView::InvokeDynamic(
                            InvokeDynamicConstantPoolEntry {
                                tag,
                                bootstrap_method_attr_index: x,
                                name_and_type_index: y,
                            },
                        )
                    },
                    next4,
                ),
            ),
        }
    } else if tag == CONSTANT_INTEGER || tag == CONSTANT_FLOAT {
        match spec_read_u32(b, offset) {
            Err(e) => Err(e),
            Ok(x) => Ok(
                (
                    if tag == CONSTANT_INTEGER {
                        EntryView::Integer(IntegerConstantPoolEntry { tag, bytes: x })
                    } else {
                        EntryView::Float(FloatConstantPoolEntry { tag, bytes: x })
                    },
                    next4,
                ),
            ),
        }
    } else if tag == CONSTANT_LONG || tag == CONSTANT_DOUBLE {
        match spec_read_u32_pair(b, offset) {
            Err(e) => Err(e),
            Ok((high, low)) => Ok(
                (
                    if tag == CONSTANT_LONG {
                        EntryView::Long(LongConstantPoolEntry { tag, low_bytes: low, high_bytes: high })
                    } else {
                        EntryView::Double(
                            DoubleConstantPoolEntry { tag, low_bytes: low, high_bytes: high },
                        )
                    },
                    next8,
                ),
            ),
        }
    } else if tag == CONSTANT_METHOD_HANDLE {
        match spec_read_u8(b, offset) {
            Err(e) => Err(e),
            Ok(kind) => match spec_read_u16(b, (offset + 1) as usize) {
                Err(e) => Err(e),
                Ok(x) => Ok(
                    (
                        EntryView::MethodHandle(
                            MethodHandleConstantPoolEntry { tag, reference_kind: kind, reference_index: x },
                        ),
                        next3,
                    ),
                ),
            },
        }
    } else {
        Err(DecodeError::UnsupportedTag { tag, offset: (offset - 1) as usize })
    }
}

/// A whole entry at `offset`: a one-byte tag, then the body that the tag selects.
pub open spec fn spec_entry(b: Seq<u8>, offset: usize) -> Result<(EntryView, usize), DecodeError> {
    match spec_read_u8(b, offset) {
        Err(e) => Err(e),
        Ok(tag) => spec_entry_body(tag, b, (offset + 1) as usize),
    }
}

pub fn parse_class_info_constant_pool_entry(bytecode: &Vec<u8>, offset: usize) -> (r: Result<
    (ConstantPoolEntry, usize),
    DecodeError,
>)
    ensures
        entry_result_view(r) == spec_entry_body(CONSTANT_CLASS_INFO, bytecode@, offset),
{
    let name_index = BigEndianByteOrder::read_u16(bytecode, offset)?;
    Ok(
        (
            ConstantPoolEntry::ClassInfo(
                ClassInfoConstantPoolEntry { tag: CONSTANT_CLASS_INFO, name_index },
            ),
            offset + 2,
        ),
    )
}

pub fn parse_string_constant_pool_entry(bytecode: &Vec<u8>, offset: usize) -> (r: Result<
    (ConstantPoolEntry, usize),
    DecodeError,
>)
    ensures
        entry_result_view(r) == spec_entry_body(CONSTANT_STRING, bytecode@, offset),
{
    let string_index = BigEndianByteOrder::read_u16(bytecode, offset)?;
    Ok(
        (
            ConstantPoolEntry::String(StringConstantPoolEntry { tag: CONSTANT_STRING, string_index }),
            offset + 2,
        ),
    )
}

fn parse_method_type_constant_pool_entry(bytecode: &Vec<u8>, offset: usize) -> (r: Result<
    (ConstantPoolEntry, usize),
    DecodeError,
>)
    ensures
        entry_result_view(r) == spec_entry_body(CONSTANT_METHOD_TYPE, bytecode@, offset),
{
    let descriptor_index = BigEndianByteOrder::read_u16(bytecode, offset)?;
    Ok(
        (
            ConstantPoolEntry::MethodType(
                MethodTypeConstantPoolEntry { tag: CONSTANT_METHOD_TYPE, descriptor_index },
            ),
            offset + 2,
        ),
    )
}

/// Reads the two 16-bit fields that reference entries share.
fn read_u16_pair(bytecode: &Vec<u8>, offset: usize) -> (r: Result<(u16, u16), DecodeError>)
    ensures
        r == spec_read_u16_pair(bytecode@, offset),
        r is Ok ==> offset + 4 <= bytecode.len(),
{
    let x = BigEndianByteOrder::read_u16(bytecode, offset)?;
    let y = BigEndianByteOrder::read_u16(bytecode, offset + 2)?;
    Ok((x, y))
}

/// Reads the two 32-bit halves of a wide constant, high half first.
fn read_u32_pair(bytecode: &Vec<u8>, offset: usize) -> (r: Result<(u32, u32), DecodeError>)
    ensures
        r == spec_read_u32_pair(bytecode@, offset),
        r is Ok ==> offset + 8 <= bytecode.len(),
{
    let x = BigEndianByteOrder::read_u32(bytecode, offset)?;
    let y = BigEndianByteOrder::read_u32(bytecode, offset + 4)?;
    Ok((x, y))
}

pub fn parse_method_ref_constant_pool_entry(bytecode: &Vec<u8>, offset: usize) -> (r: Result<
    (ConstantPoolEntry, usize),
    DecodeError,
>)
    ensures
        entry_result_view(r) == spec_entry_body(CONSTANT_METHOD_REF, bytecode@, offset),
{
    let (class_index, name_and_type_index) = read_u16_pair(bytecode, offset)?;
    Ok(
        (
            ConstantPoolEntry::Methodref(
                MethodrefConstantPoolEntry { tag: CONSTANT_METHOD_REF, class_index, name_and_type_index },
            ),
            offset + 4,
        ),
    )
}

pub fn parse_field_ref_constant_pool_entry(bytecode: &Vec<u8>, offset: usize) -> (r: Result<
    (ConstantPoolEntry, usize),
    DecodeError,
>)
    ensures
        entry_result_view(r) == spec_entry_body(CONSTANT_FIELD_REF, bytecode@, offset),
{
    let (class_index, name_and_type_index) = read_u16_pair(bytecode, offset)?;
    Ok(
        (
            ConstantPoolEntry::Fieldref(
                FieldrefConstantPoolEntry { tag: CONSTANT_FIELD_REF, class_index, name_and_type_index },
            ),
            offset + 4,
        ),
    )
}

fn parse_interface_method_ref_constant_pool_entry(bytecode: &Vec<u8>, offset: usize) -> (r: Result<
    (ConstantPoolEntry, usize),
    DecodeError,
>)
    ensures
        entry_result_view(r) == spec_entry_body(CONSTANT_INTERFACE_METHOD_REF, bytecode@, offset),
{
    let (class_index, name_and_type_index) = read_u16_pair(bytecode, offset)?;
    Ok(
        (
            ConstantPoolEntry::InterfaceMethodref(
                InterfaceMethodrefConstantPoolEntry {
                    tag: CONSTANT_INTERFACE_METHOD_REF,
                    class_index,
                    name_and_type_index,
                },
            ),
            offset + 4,
        ),
    )
}

pub fn parse_name_and_type_constant_pool_entry(bytecode: &Vec<u8>, offset: usize) -> (r: Result<
    (ConstantPoolEntry, usize),
    DecodeError,
>)
    ensures
        entry_result_view(r) == spec_entry_body(CONSTANT_NAME_AND_TYPE, bytecode@, offset),
{
    let (name_index, descriptor_index) = read_u16_pair(bytecode, offset)?;
    Ok(
        (
            ConstantPoolEntry::NameAndType(
                NameAndTypeConstantPoolEntry { tag: CONSTANT_NAME_AND_TYPE, name_index, descriptor_index },
            ),
            offset + 4,
        ),
    )
}

fn parse_invoke_dynamic_constant_pool_entry(bytecode: &Vec<u8>, offset: usize) -> (r: Result<
    (ConstantPoolEntry, usize),
    DecodeError,
>)
    ensures
        entry_result_view(r) == spec_entry_body(CONSTANT_INVOKE_DYNAMIC, bytecode@, offset),
{
    let (bootstrap_method_attr_index, name_and_type_index) = read_u16_pair(bytecode, offset)?;
    Ok(
        (
            ConstantPoolEntry::InvokeDynamic(
                InvokeDynamicConstantPoolEntry {
                    tag: CONSTANT_INVOKE_DYNAMIC,
                    bootstrap_method_attr_index,
                    name_and_type_index,
                },
            ),
            offset + 4,
        ),
    )
}

fn parse_integer_constant_pool_entry(bytecode: &Vec<u8>, offset: usize) -> (r: Result<
    (ConstantPoolEntry, usize),
    DecodeError,
>)
    ensures
        entry_result_view(r) == spec_entry_body(CONSTANT_INTEGER, bytecode@, offset),
{
    let bytes = BigEndianByteOrder::read_u32(bytecode, offset)?;
    Ok(
        (
            ConstantPoolEntry::Integer(IntegerConstantPoolEntry { tag: CONSTANT_INTEGER, bytes }),
            offset + 4,
        ),
    )
}

fn parse_float_constant_pool_entry(bytecode: &Vec<u8>, offset: usize) -> (r: Result<
    (ConstantPoolEntry, usize),
    DecodeError,
>)
    ensures
        entry_result_view(r) == spec_entry_body(CONSTANT_FLOAT, bytecode@, offset),
{
    let bytes = BigEndianByteOrder::read_u32(bytecode, offset)?;
    Ok((ConstantPoolEntry::Float(FloatConstantPoolEntry { tag: CONSTANT_FLOAT, bytes }), offset + 4))
}

fn parse_long_constant_pool_entry(bytecode: &Vec<u8>, offset: usize) -> (r: Result<
    (ConstantPoolEntry, usize),
    DecodeError,
>)
    ensures
        entry_result_view(r) == spec_entry_body(CONSTANT_LONG, bytecode@, offset),
{
    let (high_bytes, low_bytes) = read_u32_pair(bytecode, offset)?;
    Ok(
        (
            ConstantPoolEntry::Long(LongConstantPoolEntry { tag: CONSTANT_LONG, low_bytes, high_bytes }),
            offset + 8,
        ),
    )
}

pub fn parse_double_constant_pool_entry(bytecode: &Vec<u8>, offset: usize) -> (r: Result<
    (ConstantPoolEntry, usize),
    DecodeError,
>)
    ensures
        entry_result_view(r) == spec_entry_body(CONSTANT_DOUBLE, bytecode@, offset),
{
    let (high_bytes, low_bytes) = read_u32_pair(bytecode, offset)?;
    Ok(
        (
            ConstantPoolEntry::Double(
                DoubleConstantPoolEntry { tag: CONSTANT_DOUBLE, low_bytes, high_bytes },
            ),
            offset + 8,
        ),
    )
}

fn parse_method_handle_constant_pool_entry(bytecode: &Vec<u8>, offset: usize) -> (r: Result<
    (ConstantPoolEntry, usize),
    DecodeError,
>)
    ensures
        entry_result_view(r) == spec_entry_body(CONSTANT_METHOD_HANDLE, bytecode@, offset),
{
    let reference_kind = BigEndianByteOrder::read_u8(bytecode, offset)?;
    let reference_index = BigEndianByteOrder::read_u16(bytecode, offset + 1)?;
    Ok(
        (
            ConstantPoolEntry::MethodHandle(
                MethodHandleConstantPoolEntry {
                    tag: CONSTANT_METHOD_HANDLE,
                    reference_kind,
                    reference_index,
                },
            ),
            offset + 3,
        ),
    )
}

pub fn parse_utf8_constant_pool_entry(bytecode: &Vec<u8>, offset: usize) -> (r: Result<
    (ConstantPoolEntry, usize),
    DecodeError,
>)
    ensures
        entry_result_view(r) == spec_entry_body(CONSTANT_UTF8, bytecode@, offset),
{
    let length = BigEndianByteOrder::read_u16(bytecode, offset)?;
    let start = offset + 2;
    let payload = read_bytes(bytecode, start, length as usize)?;
    match string_from_utf8(payload) {
        Some(bytes) => Ok(
            (
                ConstantPoolEntry::Utf8(Utf8ConstantPoolEntry { tag: CONSTANT_UTF8, length, bytes }),
                start + length as usize,
            ),
        ),
        None => Err(DecodeError::InvalidUtf8Payload { offset: start }),
    }
}

/// Decodes the entry at `offset`: reads its tag, then the fields that the tag defines.
pub fn parse_constant_pool_entry(bytecode: &Vec<u8>, offset: usize) -> (r: Result<
    (ConstantPoolEntry, usize),
    DecodeError,
>)
    ensures
        entry_result_view(r) == spec_entry(bytecode@, offset),
        r matches Ok((_, next)) ==> offset < next <= bytecode.len(),
{
    let tag = BigEndianByteOrder::read_u8(bytecode, offset)?;
    let body = offset + 1;
    match tag {
        CONSTANT_UTF8 => parse_utf8_constant_pool_entry(bytecode, body),
        CONSTANT_INTEGER => parse_integer_constant_pool_entry(bytecode, body),
        CONSTANT_FLOAT => parse_float_constant_pool_entry(bytecode, body),
        CONSTANT_LONG => parse_long_constant_pool_entry(bytecode, body),
        CONSTANT_DOUBLE => parse_double_constant_pool_entry(bytecode, body),
        CONSTANT_CLASS_INFO => parse_class_info_constant_pool_entry(bytecode, body),
        CONSTANT_STRING => parse_string_constant_pool_entry(bytecode, body),
        CONSTANT_FIELD_REF => parse_field_ref_constant_pool_entry(bytecode, body),
        CONSTANT_METHOD_REF => parse_method_ref_constant_pool_entry(bytecode, body),
        CONSTANT_INTERFACE_METHOD_REF => parse_interface_method_ref_constant_pool_entry(bytecode, body),
        CONSTANT_NAME_AND_TYPE => parse_name_and_type_constant_pool_entry(bytecode, body),
        CONSTANT_METHOD_HANDLE => parse_method_handle_constant_pool_entry(bytecode, body),
        CONSTANT_METHOD_TYPE => parse_method_type_constant_pool_entry(bytecode, body),
        CONSTANT_INVOKE_DYNAMIC => parse_invoke_dynamic_constant_pool_entry(bytecode, body),
        _ => Err(DecodeError::UnsupportedTag { tag, offset }),
    }
}

/// The constant table: slot `i` of the format is `entries[i - 1]`.
#[derive(Debug, Clone, PartialEq, Eq)]
pub struct ConstantPool {
    pub entries: Vec<ConstantPoolEntry>,
}

impl View for ConstantPool {
    type V = Seq<EntryView>;

    open spec fn view(&self) -> Seq<EntryView> {
        self.entries@.map_values(|e: ConstantPoolEntry| e@)
    }
}

/// The slot at the 1-based `index`, or a range error for 0 and for indices past the end.
pub open spec fn spec_lookup(pool: Seq<EntryView>, index: u16) -> Result<EntryView, DecodeError> {
    if 1 <= index && index <= pool.len() {
        Ok(pool[index - 1])
    } else {
        Err(DecodeError::ConstantIndexOutOfRange { index })
    }
}

/// The text constant at `index`.
pub open spec fn spec_find_utf8(pool: Seq<EntryView>, index: u16) -> Result<Utf8View, DecodeError> {
    match spec_lookup(pool, index) {
        Err(e) => Err(e),
        Ok(EntryView::Utf8(u)) => Ok(u),
        Ok(_) => Err(DecodeError::ConstantKindMismatch { index }),
    }
}

/// The string constant at `index`.
pub open spec fn spec_find_string(pool: Seq<EntryView>, index: u16) -> Result<
    StringConstantPoolEntry,
    DecodeError,
> {
    match spec_lookup(pool, index) {
        Err(e) => Err(e),
        Ok(EntryView::String(s)) => Ok(s),
        Ok(_) => Err(DecodeError::ConstantKindMismatch { index }),
    }
}

/// The double constant at `index`.
pub open spec fn spec_find_double(pool: Seq<EntryView>, index: u16) -> Result<
    DoubleConstantPoolEntry,
    DecodeError,
> {
    match spec_lookup(pool, index) {
        Err(e) => Err(e),
        Ok(EntryView::Double(d)) => Ok(d),
        Ok(_) => Err(DecodeError::ConstantKindMismatch { index }),
    }
}

/// The method reference at `index`.
pub open spec fn spec_find_method_ref(pool: Seq<EntryView>, index: u16) -> Result<
    MethodrefConstantPoolEntry,
    DecodeError,
> {
    match spec_lookup(pool, index) {
        Err(e) => Err(e),
        Ok(EntryView::Methodref(m)) => Ok(m),
        Ok(_) => Err(DecodeError::ConstantKindMismatch { index }),
    }
}

/// The name-and-type entry at `index`.
pub open spec fn spec_find_name_and_type(pool: Seq<EntryView>, index: u16) -> Result<
    NameAndTypeConstantPoolEntry,
    DecodeError,
> {
    match spec_lookup(pool, index) {
        Err(e) => Err(e),
        Ok(EntryView::NameAndType(n)) => Ok(n),
        Ok(_) => Err(DecodeError::ConstantKindMismatch { index }),
    }
}

impl ConstantPool {
    /// An empty table.
    pub fn new() -> (r: ConstantPool)
        ensures
            r@.len() == 0,
    {
        ConstantPool { entries: Vec::new() }
    }

    /// The zero-based position of the 1-based `index`, when it names a slot.
    fn position(&self, index: u16) -> (r: Result<usize, DecodeError>)
        ensures
            match r {
                Ok(p) => 1 <= index <= self@.len() && p == index - 1,
                Err(e) => !(1 <= index <= self@.len()) && e == DecodeError::ConstantIndexOutOfRange {
                    index,
                },
            },
    {
        if index == 0 || index as usize > self.entries.len() {
            Err(DecodeError::ConstantIndexOutOfRange { index })
        } else {
            Ok(index as usize - 1)
        }
    }

    pub fn find_utf8_constant_pool_entry(&self, index: u16) -> (r: Result<
        Utf8ConstantPoolEntry,
        DecodeError,
    >)
        ensures
            match r {
                Ok(u) => spec_find_utf8(self@, index) == Ok::<Utf8View, DecodeError>(u@),
                Err(e) => spec_find_utf8(self@, index) == Err::<Utf8View, DecodeError>(e),
            },
    {
        let p = self.position(index)?;
        match &self.entries[p] {
            ConstantPoolEntry::Utf8(e) => Ok(
                Utf8ConstantPoolEntry { tag: e.tag, length: e.length, bytes: e.bytes.clone() },
            ),
            _ => Err(DecodeError::ConstantKindMismatch { index }),
        }
    }

    pub fn find_string_constant_pool_entry(&self, index: u16) -> (r: Result<
        StringConstantPoolEntry,
        DecodeError,
    >)
        ensures
            r == spec_find_string(self@, index),
    {
        let p = self.position(index)?;
        match &self.entries[p] {
            ConstantPoolEntry::String(e) => Ok(*e),
            _ => Err(DecodeError::ConstantKindMismatch { index }),
        }
    }

    pub fn find_double_constant_pool_entry(&self, index: u16) -> (r: Result<
        DoubleConstantPoolEntry,
        DecodeError,
    >)
        ensures
            r == spec_find_double(self@, index),
    {
        let p = self.position(index)?;
        match &self.entries[p] {
            ConstantPoolEntry::Double(e) => Ok(*e),
            _ => Err(DecodeError::ConstantKindMismatch { index }),
        }
    }

    pub fn find_method_ref_constant_pool_entry(&self, index: u16) -> (r: Result<
        MethodrefConstantPoolEntry,
        DecodeError,
    >)
        ensures
            r == spec_find_method_ref(self@, index),
    {
        let p = self.position(index)?;
        match &self.entries[p] {
            ConstantPoolEntry::Methodref(e) => Ok(*e),
            _ => Err(DecodeError::ConstantKindMismatch { index }),
        }
    }

    pub fn find_name_and_type_constant_pool_entry(&self, index: u16) -> (r: Result<
        NameAndTypeConstantPoolEntry,
        DecodeError,
    >)
        ensures
            r == spec_find_name_and_type(self@, index),
    {
        let p = self.position(index)?;
        match &self.entries[p] {
            ConstantPoolEntry::NameAndType(e) => Ok(*e),
            _ => Err(DecodeError::ConstantKindMismatch { index }),
        }
    }
}

/// Index 0 and indices past the end name no slot; a slot that is not text
/// is refused by the text lookup.
pub proof fn lemma_lookup_failures(pool: Seq<EntryView>, index: u16)
    ensures
        index == 0 || index > pool.len() ==> spec_find_utf8(pool, index) == Err::<Utf8View, DecodeError>(
            DecodeError::ConstantIndexOutOfRange { index },
        ),
        1 <= index <= pool.len() && !(pool[index - 1] is Utf8) ==> spec_find_utf8(pool, index)
            == Err::<Utf8View, DecodeError>(DecodeError::ConstantKindMismatch { index }),
{
}

/// A decoded text entry keeps its bytes: re-encoding its text gives back
/// exactly the payload, whose length is the declared length field.
pub proof fn lemma_utf8_round_trip(b: Seq<u8>, offset: usize)
    requires
        b.len() <= usize::MAX,
    ensures
        spec_utf8_body(b, offset) matches Ok((EntryView::Utf8(u), next)) ==> encode_utf8(u.text)
            == b.subrange(offset + 2, offset + 2 + u.length) && encode_utf8(u.text).len()
            == u.length && next == offset + 2 + u.length,
{
    if let Ok(length) = spec_read_u16(b, offset) {
        let start = (offset + 2) as usize;
        if let Ok(payload) = spec_read_bytes(b, start, length as usize) {
            if valid_utf8(payload) {
                decode_utf8_encode_utf8(payload);
            }
        }
    }
}

} // verus!
