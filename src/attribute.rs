use vstd::prelude::*;
use crate::error::DecodeError;
use crate::endianness::{BigEndianByteOrder, ByteOrder, spec_read_u8, spec_read_u16, spec_read_u32};
use crate::bytes::{read_bytes, spec_read_bytes};

verus! {

/// The generic attribute envelope: a name index, a declared length and that
/// many opaque bytes.
#[derive(Debug, Clone, PartialEq, Eq)]
pub struct Attribute {
    pub name_index: u16,
    pub length: u32,
    pub info: Vec<u8>,
}

pub struct AttributeView {
    pub name_index: u16,
    pub length: u32,
    pub info: Seq<u8>,
}

impl View for Attribute {
    type V = AttributeView;

    open spec fn view(&self) -> AttributeView {
        AttributeView { name_index: self.name_index, length: self.length, info: self.info@ }
    }
}

pub open spec fn attributes_view(v: Seq<Attribute>) -> Seq<AttributeView> {
    v.map_values(|a: Attribute| a@)
}

/// The view of an attribute decoder's result.
pub open spec fn attribute_result_view(r: Result<(Attribute, usize), DecodeError>) -> Result<
    (AttributeView, usize),
    DecodeError,
> {
    match r {
        Ok((a, next)) => Ok((a@, next)),
        Err(e) => Err(e),
    }
}

/// The view of an attribute-list decoder's result.
pub open spec fn attribute_list_result_view(r: Result<(Vec<Attribute>, usize), DecodeError>) -> Result<
    (Seq<AttributeView>, usize),
    DecodeError,
> {
    match r {
        Ok((v, next)) => Ok((attributes_view(v@), next)),
        Err(e) => Err(e),
    }
}

/// One attribute at `offset`: a 16-bit name index, a 32-bit length, then the payload.
pub open spec fn spec_attribute(b: Seq<u8>, offset: usize) -> Result<(AttributeView, usize), DecodeError> {
    match spec_read_u16(b, offset) {
        Err(e) => Err(e),
        Ok(name_index) => match spec_read_u32(b, (offset + 2) as usize) {
            Err(e) => Err(e),
            Ok(length) => match spec_read_bytes(b, (offset + 6) as usize, length as usize) {
                Err(e) => Err(e),
                Ok(info) => Ok(
                    (AttributeView { name_index, length, info }, (offset + 6 + length) as usize),
                ),
            },
        },
    }
}

/// `remaining` more attributes from `offset` on, appended to `acc`.
pub open spec fn spec_attributes(b: Seq<u8>, offset: usize, remaining: nat, acc: Seq<AttributeView>) -> Result<
    (Seq<AttributeView>, usize),
    DecodeError,
>
    decreases remaining,
{
    if remaining == 0 {
        Ok((acc, offset))
    } else {
        match spec_attribute(b, offset) {
            Err(e) => Err(e),
            Ok((a, next)) => spec_attributes(b, next, (remaining - 1) as nat, acc.push(a)),
        }
    }
}

/// One row of a method's exception table.
#[derive(Debug, Clone, Copy, PartialEq, Eq, Structural, Default)]
pub struct ExceptionTableEntry {
    pub start_pc: u16,
    pub end_pc: u16,
    pub handler_pc: u16,
    pub catch_type: u16,
}

/// One exception-table row: four 16-bit fields.
pub open spec fn spec_exception_entry(b: Seq<u8>, offset: usize) -> Result<ExceptionTableEntry, DecodeError> {
    match spec_read_u16(b, offset) {
        Err(e) => Err(e),
        Ok(start_pc) => match spec_read_u16(b, (offset + 2) as usize) {
            Err(e) => Err(e),
            Ok(end_pc) => match spec_read_u16(b, (offset + 4) as usize) {
                Err(e) => Err(e),
                Ok(handler_pc) => match spec_read_u16(b, (offset + 6) as usize) {
                    Err(e) => Err(e),
                    Ok(catch_type) => Ok(
                        ExceptionTableEntry { start_pc, end_pc, handler_pc, catch_type },
                    ),
                },
            },
        },
    }
}

/// `remaining` more exception-table rows from `offset` on, appended to `acc`.
pub open spec fn spec_exception_table(
    b: Seq<u8>,
    offset: usize,
    remaining: nat,
    acc: Seq<ExceptionTableEntry>,
) -> Result<(Seq<ExceptionTableEntry>, usize), DecodeError>
    decreases remaining,
{
    if remaining == 0 {
        Ok((acc, offset))
    } else {
        match spec_exception_entry(b, offset) {
            Err(e) => Err(e),
            Ok(x) => spec_exception_table(b, (offset + 8) as usize, (remaining - 1) as nat, acc.push(x)),
        }
    }
}

pub fn parse_attribute(bytecode: &Vec<u8>, offset: usize) -> (r: Result<(Attribute, usize), DecodeError>)
    ensures
        attribute_result_view(r) == spec_attribute(bytecode@, offset),
        r matches Ok((_, next)) ==> offset < next <= bytecode.len(),
{
    let name_index = BigEndianByteOrder::read_u16(bytecode, offset)?;
    let length = BigEndianByteOrder::read_u32(bytecode, offset + 2)?;
    let info = read_bytes(bytecode, offset + 6, length as usize)?;
    Ok((Attribute { name_index, length, info }, offset + 6 + length as usize))
}

/// Decodes `count` consecutive attributes starting at `offset`.
pub fn parse_attribute_list(bytecode: &Vec<u8>, offset: usize, count: u16) -> (r: Result<
    (Vec<Attribute>, usize),
    DecodeError,
>)
    ensures
        attribute_list_result_view(r) == spec_attributes(bytecode@, offset, count as nat, seq![]),
        r matches Ok((_, next)) ==> offset <= next && (next == offset || next <= bytecode.len()),
{
    let mut attributes: Vec<Attribute> = Vec::new();
    let mut at: usize = offset;
    let mut i: u16 = 0;
    assert(attributes_view(attributes@) =~= seq![]);
    while i < count
        invariant
            i <= count,
            offset <= at,
            at == offset || at <= bytecode.len(),
            spec_attributes(bytecode@, offset, count as nat, seq![]) == spec_attributes(
                bytecode@,
                at,
                (count - i) as nat,
                attributes_view(attributes@),
            ),
        decreases count - i,
    {
        let (attribute, next) = parse_attribute(bytecode, at)?;
        proof {
            assert(attributes_view(attributes@).push(attribute@) =~= attributes_view(
                attributes@.push(attribute),
            ));
        }
        attributes.push(attribute);
        at = next;
        i = i + 1;
    }
    Ok((attributes, at))
}

/// Decodes `count` exception-table rows starting at `offset`.
fn parse_exception_table(bytecode: &Vec<u8>, offset: usize, count: u16) -> (r: Result<
    (Vec<ExceptionTableEntry>, usize),
    DecodeError,
>)
    requires
        offset <= bytecode.len(),
    ensures
        match r {
            Ok((v, next)) => spec_exception_table(bytecode@, offset, count as nat, seq![]) == Ok::<
                (Seq<ExceptionTableEntry>, usize),
                DecodeError,
            >((v@, next)) && offset <= next <= bytecode.len(),
            Err(e) => spec_exception_table(bytecode@, offset, count as nat, seq![]) == Err::<
                (Seq<ExceptionTableEntry>, usize),
                DecodeError,
            >(e),
        },
{
    let mut table: Vec<ExceptionTableEntry> = Vec::new();
    let mut at: usize = offset;
    let mut i: u16 = 0;
    while i < count
        invariant
            i <= count,
            offset <= at <= bytecode.len(),
            spec_exception_table(bytecode@, offset, count as nat, seq![]) == spec_exception_table(
                bytecode@,
                at,
                (count - i) as nat,
                table@,
            ),
        decreases count - i,
    {
        let start_pc = BigEndianByteOrder::read_u16(bytecode, at)?;
        let end_pc = BigEndianByteOrder::read_u16(bytecode, at + 2)?;
        let handler_pc = BigEndianByteOrder::read_u16(bytecode, at + 4)?;
        let catch_type = BigEndianByteOrder::read_u16(bytecode, at + 6)?;
        table.push(ExceptionTableEntry { start_pc, end_pc, handler_pc, catch_type });
        at = at + 8;
        i = i + 1;
    }
    Ok((table, at))
}

/// The decoded payload of a "Code" attribute.
#[derive(Debug, Clone, PartialEq, Eq)]
pub struct CodeAttribute {
    pub name_index: u16,
    pub length: u32,
    pub max_stack: u16,
    pub max_locals: u16,
    pub code_length: u32,
    pub code: Vec<u8>,
    pub exception_table_length: u16,
    pub exception_table: Vec<ExceptionTableEntry>,
    pub attributes_count: u16,
    pub attributes: Vec<Attribute>,
}

pub struct CodeAttributeView {
    pub name_index: u16,
    pub length: u32,
    pub max_stack: u16,
    pub max_locals: u16,
    pub code_length: u32,
    pub code: Seq<u8>,
    pub exception_table_length: u16,
    pub exception_table: Seq<ExceptionTableEntry>,
    pub attributes_count: u16,
    pub attributes: Seq<AttributeView>,
}

impl View for CodeAttribute {
    type V = CodeAttributeView;

    open spec fn view(&self) -> CodeAttributeView {
        CodeAttributeView {
            name_index: self.name_index,
            length: self.length,
            max_stack: self.max_stack,
            max_locals: self.max_locals,
            code_length: self.code_length,
            code: self.code@,
            exception_table_length: self.exception_table_length,
            exception_table: self.exception_table@,
            attributes_count: self.attributes_count,
            attributes: attributes_view(self.attributes@),
        }
    }
}

/// The code body held in the payload of the attribute `a`, read from offset 0
/// of the payload: 16-bit stack and locals sizes, a 32-bit code length and that
/// many code bytes, a 16-bit row count and the exception table, a 16-bit count
/// and the nested attributes.
pub open spec fn spec_code_attribute(a: AttributeView) -> Result<CodeAttributeView, DecodeError> {
    let b = a.info;
    match spec_read_u16(b, 0) {
        Err(e) => Err(e),
        Ok(max_stack) => match spec_read_u16(b, 2) {
            Err(e) => Err(e),
            Ok(max_locals) => match spec_read_u32(b, 4) {
                Err(e) => Err(e),
                Ok(code_length) => match spec_read_bytes(b, 8, code_length as usize) {
                    Err(e) => Err(e),
                    Ok(code) => {
                        let table_at = (8 + code_length) as usize;
                        match spec_read_u16(b, table_at) {
                            Err(e) => Err(e),
                            Ok(exception_table_length) => match spec_exception_table(
                                b,
                                (table_at + 2) as usize,
                                exception_table_length as nat,
                                seq![],
                            ) {
                                Err(e) => Err(e),
                                Ok((exception_table, count_at)) => match spec_read_u16(b, count_at) {
                                    Err(e) => Err(e),
                                    Ok(attributes_count) => match spec_attributes(
                                        b,
                                        (count_at + 2) as usize,
                                        attributes_count as nat,
                                        seq![],
                                    ) {
                                        Err(e) => Err(e),
                                        Ok((attributes, _)) => Ok(
                                            CodeAttributeView {
                                                name_index: a.name_index,
                                                length: a.length,
                                                max_stack,
                                                max_locals,
                                                code_length,
                                                code,
                                                exception_table_length,
                                                exception_table,
                                                attributes_count,
                                                attributes,
                                            },
                                        ),
                                    },
                                },
                            },
                        }
                    },
                },
            },
        },
    }
}

impl Attribute {
    /// Re-reads this attribute's payload as a code body.
    pub fn into_code_attribute(&self) -> (r: Result<CodeAttribute, DecodeError>)
        ensures
            match r {
                Ok(c) => spec_code_attribute(self@) == Ok::<CodeAttributeView, DecodeError>(c@),
                Err(e) => spec_code_attribute(self@) == Err::<CodeAttributeView, DecodeError>(e),
            },
    {
        let info = &self.info;
        let max_stack = BigEndianByteOrder::read_u16(info, 0)?;
        let max_locals = BigEndianByteOrder::read_u16(info, 2)?;
        let code_length = BigEndianByteOrder::read_u32(info, 4)?;
        let code = read_bytes(info, 8, code_length as usize)?;
        let table_at = 8 + code_length as usize;
        let exception_table_length = BigEndianByteOrder::read_u16(info, table_at)?;
        let (exception_table, count_at) = parse_exception_table(
            info,
            table_at + 2,
            exception_table_length,
        )?;
        let attributes_count = BigEndianByteOrder::read_u16(info, count_at)?;
        let (attributes, _) = parse_attribute_list(info, count_at + 2, attributes_count)?;
        Ok(
            CodeAttribute {
                name_index: self.name_index,
                length: self.length,
                max_stack,
                max_locals,
                code_length,
                code,
                exception_table_length,
                exception_table,
                attributes_count,
                attributes,
            },
        )
    }
}

/// One decoded instruction. The last field of each variant is the offset of
/// the instruction's opcode in its code body; the first, where there is one,
/// is its operand.
#[derive(Debug, Clone, Copy, PartialEq, Eq, Structural)]
pub enum CodeInstruction {
    Ldc(u8, usize),
    Ldc2W(u16, usize),
    Aload0(usize),
    GetStatic(u16, usize),
    InvokeVirtual(u16, usize),
    InvokeSpecial(u16, usize),
    InvokeStatic(u16, usize),
    Ifge(i16, usize),
    Goto(i16, usize),
    Dcmpg(usize),
    Return(usize),
}

pub const LDC: u8 = 0x12;
pub const LDC2_W: u8 = 0x14;
pub const ALOAD_0: u8 = 0x2a;
pub const DCMPG: u8 = 0x98;
pub const IFGE: u8 = 0x9c;
pub const GOTO: u8 = 0xa7;
pub const RETURN: u8 = 0xb1;
pub const GET_STATIC: u8 = 0xb2;
pub const INVOKE_VIRTUAL: u8 = 0xb6;
pub const INVOKE_SPECIAL: u8 = 0xb7;
pub const INVOKE_STATIC: u8 = 0xb8;

/// The two's-complement reading of a 16-bit value.
pub open spec fn signed16(x: u16) -> i16 {
    (if x < 0x8000 {
        x as int
    } else {
        x as int - 0x1_0000
    }) as i16
}

/// The origin offset that every instruction carries.
pub open spec fn origin(i: CodeInstruction) -> usize {
    match i {
        CodeInstruction::Ldc(_, o) => o,
        CodeInstruction::Ldc2W(_, o) => o,
        CodeInstruction::Aload0(o) => o,
        CodeInstruction::GetStatic(_, o) => o,
        CodeInstruction::InvokeVirtual(_, o) => o,
        CodeInstruction::InvokeSpecial(_, o) => o,
        CodeInstruction::InvokeStatic(_, o) => o,
        CodeInstruction::Ifge(_, o) => o,
        CodeInstruction::Goto(_, o) => o,
        CodeInstruction::Dcmpg(o) => o,
        CodeInstruction::Return(o) => o,
    }
}

/// The instruction whose opcode is at `offset`, and the offset after its operands.
pub open spec fn spec_instruction(code: Seq<u8>, offset: usize) -> Result<(CodeInstruction, usize), DecodeError> {
    let at = (offset + 1) as usize;
    match spec_read_u8(code, offset) {
        Err(e) => Err(e),
        Ok(op) => if op == LDC {
            match spec_read_u8(code, at) {
                Err(e) => Err(e),
                Ok(x) => Ok((CodeInstruction::Ldc(x, offset), (at + 1) as usize)),
            }
        } else if op == ALOAD_0 {
            Ok((CodeInstruction::Aload0(offset), at))
        } else if op == DCMPG {
            Ok((CodeInstruction::Dcmpg(offset), at))
        } else if op == RETURN {
            Ok((CodeInstruction::Return(offset), at))
        } else if op == LDC2_W || op == GET_STATIC || op == INVOKE_VIRTUAL || op == INVOKE_SPECIAL
            || op == INVOKE_STATIC || op == IFGE || op == GOTO {
            match spec_read_u16(code, at) {
                Err(e) => Err(e),
                Ok(x) => Ok(
                    (
                        if op == LDC2_W {
                            CodeInstruction::Ldc2W(x, offset)
                        } else if op == GET_STATIC {
                            CodeInstruction::GetStatic(x, offset)
                        } else if op == INVOKE_VIRTUAL {
                            CodeInstruction::InvokeVirtual(x, offset)
                        } else if op == INVOKE_SPECIAL {
                            CodeInstruction::InvokeSpecial(x, offset)
                        } else if op == INVOKE_STATIC {
                            CodeInstruction::InvokeStatic(x, offset)
                        } else if op == IFGE {
                            CodeInstruction::Ifge(signed16(x), offset)
                        } else {
                            CodeInstruction::Goto(signed16(x), offset)
                        },
                        (at + 2) as usize,
                    ),
                ),
            }
        } else {
            Err(DecodeError::UnsupportedOpcode { opcode: op, offset })
        },
    }
}

/// The instructions from `offset` up to `end`, appended to `acc`.
pub open spec fn spec_instructions(code: Seq<u8>, offset: usize, end: usize, acc: Seq<CodeInstruction>) -> Result<
    Seq<CodeInstruction>,
    DecodeError,
>
    decreases code.len() - offset,
{
    if offset >= end {
        Ok(acc)
    } else {
        match spec_instruction(code, offset) {
            Err(e) => Err(e),
            Ok((i, next)) => if offset < next <= code.len() {
                spec_instructions(code, next, end, acc.push(i))
            } else {
                Ok(acc)
            },
        }
    }
}

/// The two's-complement reading of `x`.
fn to_signed(x: u16) -> (r: i16)
    ensures
        r == signed16(x),
{
    if x < 0x8000 {
        x as i16
    } else {
        (x as i32 - 0x1_0000) as i16
    }
}

/// Decodes the instruction whose opcode is at `offset`.
fn decode_instruction(code: &Vec<u8>, offset: usize) -> (r: Result<(CodeInstruction, usize), DecodeError>)
    ensures
        r == spec_instruction(code@, offset),
        r matches Ok((_, next)) ==> offset < next <= code.len(),
{
    let op = BigEndianByteOrder::read_u8(code, offset)?;
    let at = offset + 1;
    match op {
        LDC => {
            let x = BigEndianByteOrder::read_u8(code, at)?;
            Ok((CodeInstruction::Ldc(x, offset), at + 1))
        },
        ALOAD_0 => Ok((CodeInstruction::Aload0(offset), at)),
        DCMPG => Ok((CodeInstruction::Dcmpg(offset), at)),
        RETURN => Ok((CodeInstruction::Return(offset), at)),
        LDC2_W | GET_STATIC | INVOKE_VIRTUAL | INVOKE_SPECIAL | INVOKE_STATIC | IFGE | GOTO => {
            let x = BigEndianByteOrder::read_u16(code, at)?;
            let i = match op {
                LDC2_W => CodeInstruction::Ldc2W(x, offset),
                GET_STATIC => CodeInstruction::GetStatic(x, offset),
                INVOKE_VIRTUAL => CodeInstruction::InvokeVirtual(x, offset),
                INVOKE_SPECIAL => CodeInstruction::InvokeSpecial(x, offset),
                INVOKE_STATIC => CodeInstruction::InvokeStatic(x, offset),
                IFGE => CodeInstruction::Ifge(to_signed(x), offset),
                _ => CodeInstruction::Goto(to_signed(x), offset),
            };
            Ok((i, at + 2))
        },
        _ => Err(DecodeError::UnsupportedOpcode { opcode: op, offset }),
    }
}

impl CodeAttribute {
    /// Decodes the code bytes front to back, up to the declared code length.
    pub fn into_code_instructions(&self) -> (r: Result<Vec<CodeInstruction>, DecodeError>)
        ensures
            match r {
                Ok(v) => spec_instructions(self.code@, 0, self.code_length as usize, seq![])
                    == Ok::<Seq<CodeInstruction>, DecodeError>(v@),
                Err(e) => spec_instructions(self.code@, 0, self.code_length as usize, seq![])
                    == Err::<Seq<CodeInstruction>, DecodeError>(e),
            },
    {
        let end = self.code_length as usize;
        let mut instructions: Vec<CodeInstruction> = Vec::new();
        let mut offset: usize = 0;
        while offset < end
            invariant
                end == self.code_length as usize,
                offset <= self.code.len(),
                spec_instructions(self.code@, 0, end, seq![]) == spec_instructions(
                    self.code@,
                    offset,
                    end,
                    instructions@,
                ),
            decreases self.code.len() - offset,
        {
            let (instruction, next) = decode_instruction(&self.code, offset)?;
            instructions.push(instruction);
            offset = next;
        }
        Ok(instructions)
    }
}

impl CodeInstruction {
    /// The offset of this instruction's opcode in its code body.
    pub fn origin_offset(&self) -> (r: usize)
        ensures
            r == origin(*self),
    {
        match *self {
            CodeInstruction::Ldc(_, o) => o,
            CodeInstruction::Ldc2W(_, o) => o,
            CodeInstruction::Aload0(o) => o,
            CodeInstruction::GetStatic(_, o) => o,
            CodeInstruction::InvokeVirtual(_, o) => o,
            CodeInstruction::InvokeSpecial(_, o) => o,
            CodeInstruction::InvokeStatic(_, o) => o,
            CodeInstruction::Ifge(_, o) => o,
            CodeInstruction::Goto(_, o) => o,
            CodeInstruction::Dcmpg(o) => o,
            CodeInstruction::Return(o) => o,
        }
    }
}

/// Every decoded instruction takes at least one byte before `end`, so a
/// decoded sequence is no longer than the code it came from.
pub proof fn lemma_instruction_count(code: Seq<u8>, offset: usize, end: usize, acc: Seq<CodeInstruction>)
    ensures
        spec_instructions(code, offset, end, acc) matches Ok(v) ==> v.len() <= acc.len() + (if offset
            < end {
            end - offset
        } else {
            0
        }),
    decreases code.len() - offset,
{
    if offset < end {
        if let Ok((i, next)) = spec_instruction(code, offset) {
            if offset < next <= code.len() {
                lemma_instruction_count(code, next, end, acc.push(i));
            }
        }
    }
}

/// The number of bytes an instruction takes: its opcode and its operands.
pub open spec fn width(i: CodeInstruction) -> nat {
    match i {
        CodeInstruction::Ldc(_, _) => 2,
        CodeInstruction::Aload0(_) | CodeInstruction::Dcmpg(_) | CodeInstruction::Return(_) => 1,
        _ => 3,
    }
}

/// Each instruction of `v` starts where the one before it ends.
pub open spec fn chained(v: Seq<CodeInstruction>) -> bool {
    forall|j: int|
        0 <= j < v.len() - 1 ==> origin(#[trigger] v[j + 1]) == origin(v[j]) + width(v[j])
}

/// Whether the opcode byte `op` is one that the decoder knows.
pub open spec fn is_known_opcode(op: u8) -> bool {
    op == LDC || op == LDC2_W || op == ALOAD_0 || op == DCMPG || op == IFGE || op == GOTO || op
        == RETURN || op == GET_STATIC || op == INVOKE_VIRTUAL || op == INVOKE_SPECIAL || op
        == INVOKE_STATIC
}

proof fn lemma_origin_chain_from(code: Seq<u8>, offset: usize, end: usize, acc: Seq<CodeInstruction>)
    requires
        code.len() == end,
        offset <= end,
        chained(acc),
        acc.len() == 0 ==> offset == 0,
        acc.len() > 0 ==> origin(acc[0]) == 0 && origin(acc.last()) + width(acc.last()) == offset,
    ensures
        spec_instructions(code, offset, end, acc) matches Ok(v) ==> chained(v) && v.len() >= acc.len()
            && (offset < end ==> v.len() > acc.len()) && (v.len() > 0 ==> origin(v[0]) == 0
            && origin(v.last()) + width(v.last()) == end),
    decreases code.len() - offset,
{
    if offset < end {
        if let Ok((i, next)) = spec_instruction(code, offset) {
            if offset < next <= code.len() {
                assert(origin(i) == offset && next == offset + width(i));
                let acc2 = acc.push(i);
                assert(chained(acc2)) by {
                    assert forall|j: int| 0 <= j < acc2.len() - 1 implies origin(
                        #[trigger] acc2[j + 1],
                    ) == origin(acc2[j]) + width(acc2[j]) by {
                        if j < acc.len() - 1 {
                            assert(acc2[j + 1] == acc[j + 1]);
                        }
                    }
                }
                lemma_origin_chain_from(code, next, end, acc2);
            }
        }
    }
}

/// Decoding walks the code front to back: it yields nothing exactly for
/// empty code, the first instruction starts at 0, each next one starts where
/// the previous one's operands end, and the last one ends at the code length.
pub proof fn lemma_instruction_origins(code: Seq<u8>, end: usize)
    requires
        code.len() == end,
    ensures
        spec_instructions(code, 0, end, seq![]) matches Ok(v) ==> (v.len() == 0 <==> end == 0)
            && chained(v) && (v.len() > 0 ==> origin(v[0]) == 0 && origin(v.last()) + width(
            v.last(),
        ) == end),
{
    lemma_origin_chain_from(code, 0, end, seq![]);
}

/// An opcode the decoder does not know ends decoding with an error that
/// names the byte and its offset, whatever was decoded before it: no
/// instruction at or after it is produced.
pub proof fn lemma_unsupported_opcode_stops(code: Seq<u8>, k: usize, end: usize, acc: Seq<CodeInstruction>)
    requires
        k < end,
        k < code.len(),
        !is_known_opcode(code[k as int]),
    ensures
        spec_instructions(code, k, end, acc) == Err::<Seq<CodeInstruction>, DecodeError>(
            DecodeError::UnsupportedOpcode { opcode: code[k as int], offset: k },
        ),
{
}

proof fn lemma_decode_through_prefix(
    code: Seq<u8>,
    offset: usize,
    k: usize,
    end: usize,
    acc: Seq<CodeInstruction>,
    p: Seq<CodeInstruction>,
)
    requires
        offset <= k <= end,
        acc.len() > 0 ==> origin(acc.last()) + width(acc.last()) == offset,
        code.len() <= usize::MAX,
        spec_instructions(code, offset, k, acc) == Ok::<Seq<CodeInstruction>, DecodeError>(p),
        p.len() > 0 ==> origin(p.last()) + width(p.last()) == k,
    ensures
        spec_instructions(code, offset, end, acc) == spec_instructions(code, k, end, p),
    decreases code.len() - offset,
{
    if offset < k {
        if let Ok((i, next)) = spec_instruction(code, offset) {
            if offset < next <= code.len() {
                assert(origin(i) == offset && next == offset + width(i));
                if next <= k {
                    lemma_decode_through_prefix(code, next, k, end, acc.push(i), p);
                } else {
                    assert(p == acc.push(i));
                }
            }
        }
    } else {
        assert(p == acc);
    }
}

/// When the code before offset `k` decodes to whole instructions and the byte
/// at `k` is an opcode the decoder does not know, decoding the whole code
/// fails with an error naming that byte and `k`.
pub proof fn lemma_decoding_stops_at_unknown_opcode(
    code: Seq<u8>,
    k: usize,
    end: usize,
    prefix: Seq<CodeInstruction>,
)
    requires
        k < end,
        k < code.len(),
        !is_known_opcode(code[k as int]),
        code.len() <= usize::MAX,
        spec_instructions(code, 0, k, seq![]) == Ok::<Seq<CodeInstruction>, DecodeError>(prefix),
        prefix.len() > 0 ==> origin(prefix.last()) + width(prefix.last()) == k,
    ensures
        spec_instructions(code, 0, end, seq![]) == Err::<Seq<CodeInstruction>, DecodeError>(
            DecodeError::UnsupportedOpcode { opcode: code[k as int], offset: k },
        ),
{
    lemma_decode_through_prefix(code, 0, k, end, seq![], prefix);
    lemma_unsupported_opcode_stops(code, k, end, prefix);
}

} // verus!
