use vstd::prelude::*;
use vstd::string::*;
use crate::error::{DecodeError, Feature};
use crate::constantpool::{
    ConstantPool, spec_find_double, spec_find_method_ref, spec_find_name_and_type, spec_find_string,
    spec_find_utf8,
};
use crate::attribute::{
    Attribute, AttributeView, CodeInstruction, attributes_view, lemma_instruction_count, origin,
    spec_code_attribute, spec_instructions,
};
use crate::method::{Method, MethodView, methods_view};
use crate::bytecode::{ParsedBytecode, ParsedView};
use crate::assembly::{Assembly, concat3, db_text, label_text, op1, op2, runtime_println_text, tabbed};
use crate::text::{decimal, push_decimal};

verus! {

broadcast use vstd::slice::group_slice_axioms;

/// The 64-bit pattern of a double constant: `high` is bits 32 to 63, `low` bits 0 to 31.
pub open spec fn double_bits(high: u32, low: u32) -> int {
    high as int * 0x1_0000_0000 + low as int
}

/// Joins the two halves of a double constant into its 64-bit pattern.
pub fn reconstruct_double(high_bytes: u32, low_bytes: u32) -> (r: u64)
    ensures
        r as int == double_bits(high_bytes, low_bytes),
        r >> 32u64 == high_bytes as u64,
        r & 0xffff_ffffu64 == low_bytes as u64,
{
    let h = high_bytes as u64;
    let l = low_bytes as u64;
    let r = h * 0x1_0000_0000 + l;
    assert(r >> 32u64 == h && r & 0xffff_ffffu64 == l) by (bit_vector)
        requires
            r == h * 0x1_0000_0000u64 + l,
            h < 0x1_0000_0000u64,
            l < 0x1_0000_0000u64,
    ;
    r
}

/// The constants materialised so far: one directive line each, and the
/// running offset at which the next one is addressed.
#[derive(Debug, Clone, PartialEq, Eq)]
pub struct DataSection {
    pub offset: u64,
    pub elements: Vec<String>,
}

impl View for DataSection {
    type V = Seq<Seq<char>>;

    open spec fn view(&self) -> Seq<Seq<char>> {
        self.elements@.map_values(|s: String| s@)
    }
}

/// The generator's state: the lines emitted, the data offset, and the data directives.
pub struct GenState {
    pub lines: Seq<Seq<char>>,
    pub offset: nat,
    pub data: Seq<Seq<char>>,
}

pub open spec fn state_of(listing: Assembly, ds: DataSection) -> GenState {
    GenState { lines: listing@, offset: ds.offset as nat, data: ds@ }
}

/// The label line that precedes the instruction at `origin`.
pub open spec fn origin_label(o: nat) -> Seq<char> {
    tabbed("L"@ + decimal(o) + ":"@)
}

/// The address operand of the data constant at `offset`.
pub open spec fn data_address(offset: nat) -> Seq<char> {
    "[rel data_section_elements + "@ + decimal(offset) + "]"@
}

/// The runtime routine that a call of the method at `index` goes to, chosen
/// by the method's name.
pub open spec fn spec_routine(pool: Seq<crate::constantpool::EntryView>, index: u16) -> Result<
    Seq<char>,
    DecodeError,
> {
    match spec_find_method_ref(pool, index) {
        Err(e) => Err(e),
        Ok(m) => match spec_find_name_and_type(pool, m.name_and_type_index) {
            Err(e) => Err(e),
            Ok(nt) => match spec_find_utf8(pool, nt.name_index) {
                Err(e) => Err(e),
                Ok(name) => if name.text == "println"@ {
                    Ok("runtime$println"@)
                } else if name.text == "random"@ {
                    Ok("runtime$drandom"@)
                } else {
                    Err(DecodeError::UnimplementedFeature { feature: Feature::RuntimeRoutine })
                },
            },
        },
    }
}

/// A string constant: its text goes to the data section, and the length of
/// its UTF-8 encoding and its address are pushed.
pub open spec fn spec_emit_ldc(pool: Seq<crate::constantpool::EntryView>, index: u8, o: usize, st: GenState) -> Result<
    GenState,
    DecodeError,
> {
    match spec_find_string(pool, index as u16) {
        Err(e) => Err(e),
        Ok(s) => match spec_find_utf8(pool, s.string_index) {
            Err(e) => Err(e),
            Ok(u) => Ok(
                GenState {
                    lines: st.lines + seq![
                        origin_label(o as nat),
                        op1("\tpush "@, "qword "@ + decimal(vstd::utf8::encode_utf8(u.text).len())),
                        op2("\tlea "@, "r10"@, data_address(st.offset)),
                        op1("\tpush "@, "r10"@),
                    ],
                    offset: st.offset + 8,
                    data: st.data.push(db_text(u.text)),
                },
            ),
        },
    }
}

/// A double constant: its bit pattern goes to the data section, and its value is pushed.
pub open spec fn spec_emit_ldc2w(pool: Seq<crate::constantpool::EntryView>, index: u16, o: usize, st: GenState) -> Result<
    GenState,
    DecodeError,
> {
    match spec_find_double(pool, index) {
        Err(e) => Err(e),
        Ok(d) => Ok(
            GenState {
                lines: st.lines + seq![
                    origin_label(o as nat),
                    op1("\tpush "@, "qword "@ + data_address(st.offset)),
                ],
                offset: st.offset + 8,
                data: st.data.push(
                    tabbed(
                        "double_"@ + decimal(st.offset / 8) + ": dq "@ + decimal(
                            double_bits(d.high_bytes, d.low_bytes) as nat,
                        ),
                    ),
                ),
            },
        ),
    }
}

/// A state with `extra` appended to its lines.
pub open spec fn with_lines(st: GenState, extra: Seq<Seq<char>>) -> GenState {
    GenState { lines: st.lines + extra, offset: st.offset, data: st.data }
}

/// A branch at `o` by `delta`, with `head` its mnemonic: it jumps to the
/// label of `o + delta`, which must not lie before the start of the code.
pub open spec fn spec_emit_branch(head: Seq<char>, delta: i16, o: usize, st: GenState) -> Result<
    GenState,
    DecodeError,
> {
    let target = o + delta;
    if target >= 0 {
        Ok(with_lines(st, seq![origin_label(o as nat), op1(head, "L"@ + decimal(target as nat))]))
    } else {
        Err(DecodeError::InvalidBranchTarget { origin: o })
    }
}

/// The translation of one instruction.
pub open spec fn spec_emit(
    pool: Seq<crate::constantpool::EntryView>,
    ins: CodeInstruction,
    st: GenState,
) -> Result<GenState, DecodeError> {
    match ins {
        CodeInstruction::Ldc(i, o) => spec_emit_ldc(pool, i, o, st),
        CodeInstruction::Ldc2W(i, o) => spec_emit_ldc2w(pool, i, o, st),
        CodeInstruction::GetStatic(_, o) => Ok(with_lines(st, seq![origin_label(o as nat)])),
        CodeInstruction::InvokeVirtual(i, o) | CodeInstruction::InvokeStatic(i, o) => match spec_routine(
            pool,
            i,
        ) {
            Err(e) => Err(e),
            Ok(name) => Ok(with_lines(st, seq![origin_label(o as nat), op1("\tcall "@, name)])),
        },
        CodeInstruction::Ifge(d, o) => spec_emit_branch("\tjge "@, d, o, st),
        CodeInstruction::Goto(d, o) => spec_emit_branch("\tjmp "@, d, o, st),
        CodeInstruction::Dcmpg(o) => Ok(
            with_lines(st, seq![origin_label(o as nat), op1("\tcall "@, "runtime$dcmpg"@)]),
        ),
        CodeInstruction::Return(o) => Ok(
            with_lines(
                st,
                seq![
                    origin_label(o as nat),
                    op2("\tmov "@, "rax"@, "0x2000001"@),
                    op2("\tmov "@, "rdi"@, "0"@),
                    "\tsyscall\n"@,
                ],
            ),
        ),
        CodeInstruction::Aload0(_) => Err(DecodeError::UnimplementedFeature { feature: Feature::Aload0 }),
        CodeInstruction::InvokeSpecial(_, _) => Err(
            DecodeError::UnimplementedFeature { feature: Feature::InvokeSpecial },
        ),
    }
}

/// The translation of `instrs` from position `i` on, starting in state `st`.
pub open spec fn spec_emit_all(
    pool: Seq<crate::constantpool::EntryView>,
    instrs: Seq<CodeInstruction>,
    i: nat,
    st: GenState,
) -> Result<GenState, DecodeError>
    decreases instrs.len() - i,
{
    if i >= instrs.len() {
        Ok(st)
    } else {
        match spec_emit(pool, instrs[i as int], st) {
            Err(e) => Err(e),
            Ok(next) => spec_emit_all(pool, instrs, i + 1, next),
        }
    }
}

/// The largest data offset at which a constant can still be added.
pub const MAX_DATA_OFFSET: u64 = 0xffff_ffff_ffff_fff7;

/// Appends the label line for the instruction at `o`.
fn emit_origin_label(listing: &mut Assembly, o: usize)
    ensures
        final(listing)@ == old(listing)@.push(origin_label(o as nat)),
{
    let mut s = String::from_str("L");
    push_decimal(&mut s, o as u128);
    s.append(":");
    listing.emit_line(s.as_str());
}

/// The address operand of the data constant at `offset`.
fn data_address_string(offset: u64) -> (r: String)
    ensures
        r@ == data_address(offset as nat),
{
    let mut s = String::from_str("[rel data_section_elements + ");
    push_decimal(&mut s, offset as u128);
    s.append("]");
    s
}

fn emit_ldc(
    listing: &mut Assembly,
    index: u8,
    pool: &ConstantPool,
    o: usize,
    ds: &mut DataSection,
) -> (r: Result<(), DecodeError>)
    requires
        old(ds).offset <= MAX_DATA_OFFSET,
    ensures
        match r {
            Ok(_) => spec_emit_ldc(pool@, index, o, state_of(*old(listing), *old(ds))) == Ok::<
                GenState,
                DecodeError,
            >(state_of(*final(listing), *final(ds))),
            Err(e) => spec_emit_ldc(pool@, index, o, state_of(*old(listing), *old(ds))) == Err::<
                GenState,
                DecodeError,
            >(e) && *final(listing) == *old(listing)
                && *final(ds) == *old(ds),
        },
{
    let s = pool.find_string_constant_pool_entry(index as u16)?;
    let u = pool.find_utf8_constant_pool_entry(s.string_index)?;
    let text = u.bytes.as_str();
    emit_origin_label(listing, o);
    let mut length = String::from_str("qword ");
    push_decimal(&mut length, text.as_bytes().len() as u128);
    listing.emit_push(length.as_str());
    let address = data_address_string(ds.offset);
    listing.emit_lea("r10", address.as_str());
    listing.emit_push("r10");
    let ghost before = ds@;
    ds.elements.push(concat3("\tdb \"", text, "\", 10\n"));
    ds.offset = ds.offset + 8;
    assert(ds@ =~= before.push(db_text(u.bytes@)));
    assert(listing@ =~= old(listing)@ + seq![
        origin_label(o as nat),
        op1("\tpush "@, "qword "@ + decimal(vstd::utf8::encode_utf8(u.bytes@).len())),
        op2("\tlea "@, "r10"@, data_address(old(ds).offset as nat)),
        op1("\tpush "@, "r10"@),
    ]);
    Ok(())
}

fn emit_ldc2w(
    listing: &mut Assembly,
    index: u16,
    o: usize,
    pool: &ConstantPool,
    ds: &mut DataSection,
) -> (r: Result<(), DecodeError>)
    requires
        old(ds).offset <= MAX_DATA_OFFSET,
    ensures
        match r {
            Ok(_) => spec_emit_ldc2w(pool@, index, o, state_of(*old(listing), *old(ds))) == Ok::<
                GenState,
                DecodeError,
            >(state_of(*final(listing), *final(ds))),
            Err(e) => spec_emit_ldc2w(pool@, index, o, state_of(*old(listing), *old(ds))) == Err::<
                GenState,
                DecodeError,
            >(e) && *final(listing) == *old(listing)
                && *final(ds) == *old(ds),
        },
{
    let d = pool.find_double_constant_pool_entry(index)?;
    let bits = reconstruct_double(d.high_bytes, d.low_bytes);
    emit_origin_label(listing, o);
    let mut operand = String::from_str("qword ");
    operand.append(data_address_string(ds.offset).as_str());
    listing.emit_push(operand.as_str());
    let mut element = String::from_str("double_");
    push_decimal(&mut element, (ds.offset / 8) as u128);
    element.append(": dq ");
    push_decimal(&mut element, bits as u128);
    let ghost before = ds@;
    ds.elements.push(concat3("\t", element.as_str(), "\n"));
    ds.offset = ds.offset + 8;
    assert(ds@ =~= before.push(
        tabbed(
            "double_"@ + decimal(old(ds).offset as nat / 8) + ": dq "@ + decimal(
                double_bits(d.high_bytes, d.low_bytes) as nat,
            ),
        ),
    ));
    assert(listing@ =~= old(listing)@ + seq![
        origin_label(o as nat),
        op1("\tpush "@, "qword "@ + data_address(old(ds).offset as nat)),
    ]);
    Ok(())
}

/// The runtime routine for a call of the method at `index`.
fn runtime_routine(pool: &ConstantPool, index: u16) -> (r: Result<&'static str, DecodeError>)
    ensures
        match r {
            Ok(name) => spec_routine(pool@, index) == Ok::<Seq<char>, DecodeError>(name@),
            Err(e) => spec_routine(pool@, index) == Err::<Seq<char>, DecodeError>(e),
        },
{
    let m = pool.find_method_ref_constant_pool_entry(index)?;
    let nt = pool.find_name_and_type_constant_pool_entry(m.name_and_type_index)?;
    let name = pool.find_utf8_constant_pool_entry(nt.name_index)?;
    if name.bytes == String::from_str("println") {
        Ok("runtime$println")
    } else if name.bytes == String::from_str("random") {
        Ok("runtime$drandom")
    } else {
        Err(DecodeError::UnimplementedFeature { feature: Feature::RuntimeRoutine })
    }
}

/// `invokevirtual` and `invokestatic`: a call of the routine that the method's name selects.
fn emit_invoke(listing: &mut Assembly, index: u16, o: usize, pool: &ConstantPool) -> (r: Result<
    (),
    DecodeError,
>)
    ensures
        match r {
            Ok(_) => spec_routine(pool@, index) matches Ok(name) && final(listing)@ == old(
                listing,
            )@ + seq![origin_label(o as nat), op1("\tcall "@, name)],
            Err(e) => spec_routine(pool@, index) == Err::<Seq<char>, DecodeError>(e)
                && *final(listing) == *old(listing),
        },
{
    let name = runtime_routine(pool, index)?;
    emit_origin_label(listing, o);
    listing.emit_call(name);
    assert(listing@ =~= old(listing)@ + seq![origin_label(o as nat), op1("\tcall "@, name@)]);
    Ok(())
}

/// The label of the branch target `o + delta`, when it is not negative.
fn branch_label(delta: i16, o: usize) -> (r: Result<String, DecodeError>)
    ensures
        match r {
            Ok(s) => o + delta >= 0 && s@ == "L"@ + decimal((o + delta) as nat),
            Err(e) => o + delta < 0 && e == DecodeError::InvalidBranchTarget { origin: o },
        },
{
    if delta < 0 && ((0 - (delta as i32)) as usize) > o {
        return Err(DecodeError::InvalidBranchTarget { origin: o });
    }
    let target: u128 = if delta < 0 {
        (o - ((0 - (delta as i32)) as usize)) as u128
    } else {
        o as u128 + delta as u128
    };
    let mut s = String::from_str("L");
    push_decimal(&mut s, target);
    Ok(s)
}

fn emit_ifge(listing: &mut Assembly, delta: i16, o: usize) -> (r: Result<(), DecodeError>)
    ensures
        match r {
            Ok(_) => o + delta >= 0 && final(listing)@ == old(listing)@ + seq![
                origin_label(o as nat),
                op1("\tjge "@, "L"@ + decimal((o + delta) as nat)),
            ],
            Err(e) => o + delta < 0 && e == DecodeError::InvalidBranchTarget { origin: o }
                && *final(listing) == *old(listing),
        },
{
    let label = branch_label(delta, o)?;
    emit_origin_label(listing, o);
    listing.emit_jge(label.as_str());
    assert(listing@ =~= old(listing)@ + seq![origin_label(o as nat), op1("\tjge "@, label@)]);
    Ok(())
}

fn emit_goto(listing: &mut Assembly, delta: i16, o: usize) -> (r: Result<(), DecodeError>)
    ensures
        match r {
            Ok(_) => o + delta >= 0 && final(listing)@ == old(listing)@ + seq![
                origin_label(o as nat),
                op1("\tjmp "@, "L"@ + decimal((o + delta) as nat)),
            ],
            Err(e) => o + delta < 0 && e == DecodeError::InvalidBranchTarget { origin: o }
                && *final(listing) == *old(listing),
        },
{
    let label = branch_label(delta, o)?;
    emit_origin_label(listing, o);
    listing.emit_jmp(label.as_str());
    assert(listing@ =~= old(listing)@ + seq![origin_label(o as nat), op1("\tjmp "@, label@)]);
    Ok(())
}

fn emit_dcmpg(listing: &mut Assembly, o: usize)
    ensures
        final(listing)@ == old(listing)@ + seq![
            origin_label(o as nat),
            op1("\tcall "@, "runtime$dcmpg"@),
        ],
{
    emit_origin_label(listing, o);
    listing.emit_call("runtime$dcmpg");
    assert(listing@ =~= old(listing)@ + seq![origin_label(o as nat), op1("\tcall "@, "runtime$dcmpg"@)]);
}

fn emit_ret(listing: &mut Assembly, o: usize)
    ensures
        final(listing)@ == old(listing)@ + seq![
            origin_label(o as nat),
            op2("\tmov "@, "rax"@, "0x2000001"@),
            op2("\tmov "@, "rdi"@, "0"@),
            "\tsyscall\n"@,
        ],
{
    emit_origin_label(listing, o);
    listing.emit_mov("rax", "0x2000001");
    listing.emit_mov("rdi", "0");
    listing.emit_syscall();
    assert(listing@ =~= old(listing)@ + seq![
        origin_label(o as nat),
        op2("\tmov "@, "rax"@, "0x2000001"@),
        op2("\tmov "@, "rdi"@, "0"@),
        "\tsyscall\n"@,
    ]);
}

/// `getstatic` emits no code yet: only the label of its origin.
fn emit_get_static(listing: &mut Assembly, o: usize)
    ensures
        final(listing)@ == old(listing)@ + seq![origin_label(o as nat)],
{
    emit_origin_label(listing, o);
    assert(listing@ =~= old(listing)@ + seq![origin_label(o as nat)]);
}

/// Translates one instruction.
fn emit_instruction(
    listing: &mut Assembly,
    ds: &mut DataSection,
    pool: &ConstantPool,
    ins: CodeInstruction,
) -> (r: Result<(), DecodeError>)
    requires
        old(ds).offset <= MAX_DATA_OFFSET,
    ensures
        match r {
            Ok(_) => spec_emit(pool@, ins, state_of(*old(listing), *old(ds))) == Ok::<
                GenState,
                DecodeError,
            >(state_of(*final(listing), *final(ds))),
            Err(e) => spec_emit(pool@, ins, state_of(*old(listing), *old(ds))) == Err::<
                GenState,
                DecodeError,
            >(e) && *final(listing) == *old(listing)
                && *final(ds) == *old(ds),
        },
{
    match ins {
        CodeInstruction::Ldc(index, o) => emit_ldc(listing, index, pool, o, ds),
        CodeInstruction::Ldc2W(index, o) => emit_ldc2w(listing, index, o, pool, ds),
        CodeInstruction::GetStatic(_, o) => {
            emit_get_static(listing, o);
            Ok(())
        },
        CodeInstruction::InvokeVirtual(index, o) => emit_invoke(listing, index, o, pool),
        CodeInstruction::InvokeStatic(index, o) => emit_invoke(listing, index, o, pool),
        CodeInstruction::Ifge(delta, o) => emit_ifge(listing, delta, o),
        CodeInstruction::Goto(delta, o) => emit_goto(listing, delta, o),
        CodeInstruction::Dcmpg(o) => {
            emit_dcmpg(listing, o);
            Ok(())
        },
        CodeInstruction::Return(o) => {
            emit_ret(listing, o);
            Ok(())
        },
        CodeInstruction::Aload0(_) => Err(
            DecodeError::UnimplementedFeature { feature: Feature::Aload0 },
        ),
        CodeInstruction::InvokeSpecial(_, _) => Err(
            DecodeError::UnimplementedFeature { feature: Feature::InvokeSpecial },
        ),
    }
}

/// The first method from position `i` on whose name is "main"; the names of
/// the methods before it must all be text constants.
pub open spec fn spec_find_main(pool: Seq<crate::constantpool::EntryView>, methods: Seq<MethodView>, i: nat) -> Result<
    Option<MethodView>,
    DecodeError,
>
    decreases methods.len() - i,
{
    if i >= methods.len() {
        Ok(None)
    } else {
        match spec_find_utf8(pool, methods[i as int].name_index) {
            Err(e) => Err(e),
            Ok(name) => if name.text == "main"@ {
                Ok(Some(methods[i as int]))
            } else {
                spec_find_main(pool, methods, i + 1)
            },
        }
    }
}

/// The first attribute from position `i` on whose name is "Code"; the names
/// of the attributes before it must all be text constants.
pub open spec fn spec_find_code(pool: Seq<crate::constantpool::EntryView>, attributes: Seq<AttributeView>, i: nat) -> Result<
    Option<AttributeView>,
    DecodeError,
>
    decreases attributes.len() - i,
{
    if i >= attributes.len() {
        Ok(None)
    } else {
        match spec_find_utf8(pool, attributes[i as int].name_index) {
            Err(e) => Err(e),
            Ok(name) => if name.text == "Code"@ {
                Ok(Some(attributes[i as int]))
            } else {
                spec_find_code(pool, attributes, i + 1)
            },
        }
    }
}

/// The lines that open the entry point.
pub open spec fn prologue() -> Seq<Seq<char>> {
    seq!["section .text\n"@, "global _main\n"@, label_text("_main"@)]
}

/// The whole listing once the instructions are translated: the code lines,
/// the runtime routine, and the data section.
pub open spec fn epilogue(st: GenState) -> Seq<Seq<char>> {
    st.lines + runtime_println_text() + seq![
        "section .data\n"@,
        "global data_section_elements\n"@,
        "data_section_elements:\n"@,
    ] + st.data
}

/// The translation of the entry method `m`: the prologue, then its first
/// Code attribute's instructions.
pub open spec fn spec_method_body(pool: Seq<crate::constantpool::EntryView>, m: MethodView) -> Result<
    GenState,
    DecodeError,
> {
    let start = GenState { lines: prologue(), offset: 0, data: seq![] };
    match spec_find_code(pool, m.attributes, 0) {
        Err(e) => Err(e),
        Ok(None) => Ok(start),
        Ok(Some(a)) => match spec_code_attribute(a) {
            Err(e) => Err(e),
            Ok(c) => match spec_instructions(c.code, 0, c.code_length as usize, seq![]) {
                Err(e) => Err(e),
                Ok(instrs) => spec_emit_all(pool, instrs, 0, start),
            },
        },
    }
}

/// The listing generated for a container: the entry method's translation
/// when there is one, and in any case the runtime routine and the data section.
pub open spec fn spec_codegen(p: ParsedView) -> Result<Seq<Seq<char>>, DecodeError> {
    match spec_find_main(p.constant_pool, p.methods, 0) {
        Err(e) => Err(e),
        Ok(None) => Ok(epilogue(GenState { lines: seq![], offset: 0, data: seq![] })),
        Ok(Some(m)) => match spec_method_body(p.constant_pool, m) {
            Err(e) => Err(e),
            Ok(st) => Ok(epilogue(st)),
        },
    }
}

/// The position of the entry method.
fn find_main(pool: &ConstantPool, methods: &Vec<Method>) -> (r: Result<Option<usize>, DecodeError>)
    ensures
        match r {
            Ok(Some(i)) => i < methods@.len() && spec_find_main(pool@, methods_view(methods@), 0)
                == Ok::<Option<MethodView>, DecodeError>(Some(methods@[i as int]@)),
            Ok(None) => spec_find_main(pool@, methods_view(methods@), 0) == Ok::<
                Option<MethodView>,
                DecodeError,
            >(None),
            Err(e) => spec_find_main(pool@, methods_view(methods@), 0) == Err::<
                Option<MethodView>,
                DecodeError,
            >(e),
        },
{
    let main = String::from_str("main");
    let mut i: usize = 0;
    while i < methods.len()
        invariant
            i <= methods@.len(),
            main@ == "main"@,
            spec_find_main(pool@, methods_view(methods@), 0) == spec_find_main(
                pool@,
                methods_view(methods@),
                i as nat,
            ),
        decreases methods.len() - i,
    {
        let name = pool.find_utf8_constant_pool_entry(methods[i].name_index)?;
        if name.bytes == main {
            return Ok(Some(i));
        }
        i = i + 1;
    }
    Ok(None)
}

/// The position of the first Code attribute.
fn find_code(pool: &ConstantPool, attributes: &Vec<Attribute>) -> (r: Result<Option<usize>, DecodeError>)
    ensures
        match r {
            Ok(Some(i)) => i < attributes@.len() && spec_find_code(pool@, attributes_view(attributes@), 0)
                == Ok::<Option<AttributeView>, DecodeError>(Some(attributes@[i as int]@)),
            Ok(None) => spec_find_code(pool@, attributes_view(attributes@), 0) == Ok::<
                Option<AttributeView>,
                DecodeError,
            >(None),
            Err(e) => spec_find_code(pool@, attributes_view(attributes@), 0) == Err::<
                Option<AttributeView>,
                DecodeError,
            >(e),
        },
{
    let code = String::from_str("Code");
    let mut i: usize = 0;
    while i < attributes.len()
        invariant
            i <= attributes@.len(),
            code@ == "Code"@,
            spec_find_code(pool@, attributes_view(attributes@), 0) == spec_find_code(
                pool@,
                attributes_view(attributes@),
                i as nat,
            ),
        decreases attributes.len() - i,
    {
        let name = pool.find_utf8_constant_pool_entry(attributes[i].name_index)?;
        if name.bytes == code {
            return Ok(Some(i));
        }
        i = i + 1;
    }
    Ok(None)
}

/// Translates the instructions of the Code attribute `a` after the prologue.
fn emit_method_body(
    listing: &mut Assembly,
    ds: &mut DataSection,
    pool: &ConstantPool,
    a: &Attribute,
) -> (r: Result<(), DecodeError>)
    requires
        old(ds).offset == 0,
        old(ds)@.len() == 0,
    ensures
        match r {
            Ok(_) => (match spec_code_attribute(a@) {
                Ok(c) => spec_instructions(c.code, 0, c.code_length as usize, seq![]) matches Ok(
                    instrs,
                ) && spec_emit_all(pool@, instrs, 0, state_of(*old(listing), *old(ds))) == Ok::<
                    GenState,
                    DecodeError,
                >(state_of(*final(listing), *final(ds))),
                Err(_) => false,
            }),
            Err(e) => (match spec_code_attribute(a@) {
                Ok(c) => match spec_instructions(c.code, 0, c.code_length as usize, seq![]) {
                    Ok(instrs) => spec_emit_all(pool@, instrs, 0, state_of(*old(listing), *old(ds)))
                        == Err::<GenState, DecodeError>(e),
                    Err(x) => x == e,
                },
                Err(x) => x == e,
            }),
        },
{
    let code = a.into_code_attribute()?;
    let instrs = code.into_code_instructions()?;
    proof {
        lemma_instruction_count(code.code@, 0, code.code_length as usize, seq![]);
    }
    let mut i: usize = 0;
    while i < instrs.len()
        invariant
            i <= instrs@.len(),
            instrs@.len() <= 0xffff_ffff,
            spec_code_attribute(a@) == Ok::<crate::attribute::CodeAttributeView, DecodeError>(code@),
            spec_instructions(code@.code, 0, code@.code_length as usize, seq![]) == Ok::<
                Seq<CodeInstruction>,
                DecodeError,
            >(instrs@),
            ds.offset == 8 * ds@.len(),
            ds@.len() <= i,
            spec_emit_all(pool@, instrs@, 0, state_of(*old(listing), *old(ds))) == spec_emit_all(
                pool@,
                instrs@,
                i as nat,
                state_of(*listing, *ds),
            ),
        decreases instrs.len() - i,
    {
        let ghost before = state_of(*listing, *ds);
        match emit_instruction(listing, ds, pool, instrs[i]) {
            Err(e) => {
                assert(spec_emit_all(pool@, instrs@, i as nat, before) == Err::<GenState, DecodeError>(e));
                return Err(e);
            },
            Ok(_) => {},
        }
        i = i + 1;
    }
    Ok(())
}

/// Translates the container's entry method into an assembly listing.
pub fn codegen(parsed_bytecode: &ParsedBytecode) -> (r: Result<Assembly, DecodeError>)
    ensures
        match r {
            Ok(listing) => spec_codegen(parsed_bytecode@) == Ok::<Seq<Seq<char>>, DecodeError>(
                listing@,
            ),
            Err(e) => spec_codegen(parsed_bytecode@) == Err::<Seq<Seq<char>>, DecodeError>(e),
        },
{
    let pool = &parsed_bytecode.constant_pool;
    let mut listing = Assembly::new();
    let mut ds = DataSection { offset: 0, elements: Vec::new() };
    assert(ds@ =~= Seq::<Seq<char>>::empty());
    let found = find_main(pool, &parsed_bytecode.methods)?;
    let ghost empty = GenState { lines: seq![], offset: 0, data: seq![] };
    let ghost start = GenState { lines: prologue(), offset: 0, data: seq![] };
    if let Some(m) = found {
        let method = &parsed_bytecode.methods[m];
        listing.emit_section_text();
        listing.emit_global_main();
        listing.emit_function_start("_main");
        assert(listing@ =~= prologue());
        assert(state_of(listing, ds) == start);
        let code = find_code(pool, &method.attributes)?;
        if let Some(a) = code {
            emit_method_body(&mut listing, &mut ds, pool, &method.attributes[a])?;
        }
        assert(spec_method_body(pool@, method@) == Ok::<GenState, DecodeError>(state_of(listing, ds)));
    } else {
        assert(state_of(listing, ds) == empty);
    }
    assert(spec_codegen(parsed_bytecode@) == Ok::<Seq<Seq<char>>, DecodeError>(
        epilogue(state_of(listing, ds)),
    ));
    let ghost body = listing@;
    listing.emit_runtime_println();
    listing.emit_section_data();
    listing.emit_global_data_section_elements();
    listing.emit_data_section_elements();
    let ghost head = listing@;
    assert(head =~= body + runtime_println_text() + seq![
        "section .data\n"@,
        "global data_section_elements\n"@,
        "data_section_elements:\n"@,
    ]);
    let mut i: usize = 0;
    assert(listing@ =~= head + ds@.subrange(0, 0));
    while i < ds.elements.len()
        invariant
            i <= ds@.len(),
            listing@ == head + ds@.subrange(0, i as int),
        decreases ds.elements.len() - i,
    {
        listing.push(ds.elements[i].clone());
        assert(listing@ =~= head + ds@.subrange(0, i + 1));
        i = i + 1;
    }
    assert(ds@.subrange(0, ds@.len() as int) =~= ds@);
    Ok(listing)
}

/// Generation is a pure function of the parsed container: two listings
/// generated from the same container are identical.
pub proof fn lemma_codegen_deterministic(p: ParsedView, first: Seq<Seq<char>>, second: Seq<Seq<char>>)
    requires
        spec_codegen(p) == Ok::<Seq<Seq<char>>, DecodeError>(first),
        spec_codegen(p) == Ok::<Seq<Seq<char>>, DecodeError>(second),
    ensures
        first == second,
{
}

/// A body of `getstatic`, `ldc` of a string constant, `invokevirtual` of a
/// method named println and `return` translates, after the lines already
/// there, to: the label of `getstatic`; the pushes of the text's byte length
/// and its data address; the call of the console routine; the exit sequence.
/// The text becomes the one new data directive, at the running offset.
pub proof fn lemma_print_program(
    pool: Seq<crate::constantpool::EntryView>,
    st: GenState,
    field: u16,
    string: u8,
    method: u16,
    text: crate::constantpool::Utf8View,
)
    requires
        spec_find_string(pool, string as u16) matches Ok(sv) && spec_find_utf8(
            pool,
            sv.string_index,
        ) == Ok::<crate::constantpool::Utf8View, DecodeError>(text),
        spec_routine(pool, method) == Ok::<Seq<char>, DecodeError>("runtime$println"@),
    ensures
        spec_emit_all(
            pool,
            seq![
                CodeInstruction::GetStatic(field, 0),
                CodeInstruction::Ldc(string, 3),
                CodeInstruction::InvokeVirtual(method, 5),
                CodeInstruction::Return(8),
            ],
            0,
            st,
        ) == Ok::<GenState, DecodeError>(
            GenState {
                lines: st.lines + seq![
                    origin_label(0),
                    origin_label(3),
                    op1("\tpush "@, "qword "@ + decimal(vstd::utf8::encode_utf8(text.text).len())),
                    op2("\tlea "@, "r10"@, data_address(st.offset)),
                    op1("\tpush "@, "r10"@),
                    origin_label(5),
                    op1("\tcall "@, "runtime$println"@),
                    origin_label(8),
                    op2("\tmov "@, "rax"@, "0x2000001"@),
                    op2("\tmov "@, "rdi"@, "0"@),
                    "\tsyscall\n"@,
                ],
                offset: st.offset + 8,
                data: st.data.push(db_text(text.text)),
            },
        ),
{
    let instrs = seq![
        CodeInstruction::GetStatic(field, 0),
        CodeInstruction::Ldc(string, 3),
        CodeInstruction::InvokeVirtual(method, 5),
        CodeInstruction::Return(8),
    ];
    reveal_with_fuel(spec_emit_all, 5);
    let s1 = with_lines(st, seq![origin_label(0)]);
    let s2 = spec_emit_ldc(pool, string, 3, s1)->Ok_0;
    let s3 = with_lines(s2, seq![origin_label(5), op1("\tcall "@, "runtime$println"@)]);
    let s4 = with_lines(
        s3,
        seq![
            origin_label(8),
            op2("\tmov "@, "rax"@, "0x2000001"@),
            op2("\tmov "@, "rdi"@, "0"@),
            "\tsyscall\n"@,
        ],
    );
    assert(spec_emit(pool, instrs[0], st) == Ok::<GenState, DecodeError>(s1));
    assert(spec_emit(pool, instrs[1], s1) == Ok::<GenState, DecodeError>(s2));
    assert(spec_emit(pool, instrs[2], s2) == Ok::<GenState, DecodeError>(s3));
    assert(spec_emit(pool, instrs[3], s3) == Ok::<GenState, DecodeError>(s4));
    assert(s4.lines =~= st.lines + seq![
        origin_label(0),
        origin_label(3),
        op1("\tpush "@, "qword "@ + decimal(vstd::utf8::encode_utf8(text.text).len())),
        op2("\tlea "@, "r10"@, data_address(st.offset)),
        op1("\tpush "@, "r10"@),
        origin_label(5),
        op1("\tcall "@, "runtime$println"@),
        origin_label(8),
        op2("\tmov "@, "rax"@, "0x2000001"@),
        op2("\tmov "@, "rdi"@, "0"@),
        "\tsyscall\n"@,
    ]);
}

} // verus!
