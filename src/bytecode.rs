use vstd::prelude::*;
use crate::error::{DecodeError, Feature};
use crate::endianness::{BigEndianByteOrder, ByteOrder, spec_read_u16, spec_read_u32};
use crate::constantpool::{
    ConstantPool, ConstantPoolEntry, DoubleConstantPoolEntry, EntryView, Utf8View,
    parse_constant_pool_entry, spec_entry, spec_find_utf8,
};
use crate::attribute::{
    Attribute, AttributeView, attributes_view, parse_attribute_list, spec_attributes,
};
use crate::method::{Method, MethodView, methods_view, parse_method, spec_method};

verus! {

/// The first four bytes of every container.
pub const MAGIC: u32 = 0xCAFE_BABE;

/// A decoded container.
#[derive(Debug, Clone, PartialEq, Eq)]
pub struct ParsedBytecode {
    pub minor_version: u16,
    pub major_version: u16,
    pub constant_pool_count: u16,
    pub constant_pool: ConstantPool,
    pub access_flags: u16,
    pub this_class: u16,
    pub super_class: u16,
    pub interfaces_count: u16,
    pub interfaces: Vec<u16>,
    pub fields_count: u16,
    pub methods_count: u16,
    pub methods: Vec<Method>,
    pub attributes_count: u16,
    pub attributes: Vec<Attribute>,
}

pub struct ParsedView {
    pub minor_version: u16,
    pub major_version: u16,
    pub constant_pool_count: u16,
    pub constant_pool: Seq<EntryView>,
    pub access_flags: u16,
    pub this_class: u16,
    pub super_class: u16,
    pub interfaces_count: u16,
    pub interfaces: Seq<u16>,
    pub fields_count: u16,
    pub methods_count: u16,
    pub methods: Seq<MethodView>,
    pub attributes_count: u16,
    pub attributes: Seq<AttributeView>,
}

impl View for ParsedBytecode {
    type V = ParsedView;

    open spec fn view(&self) -> ParsedView {
        ParsedView {
            minor_version: self.minor_version,
            major_version: self.major_version,
            constant_pool_count: self.constant_pool_count,
            constant_pool: self.constant_pool@,
            access_flags: self.access_flags,
            this_class: self.this_class,
            super_class: self.super_class,
            interfaces_count: self.interfaces_count,
            interfaces: self.interfaces@,
            fields_count: self.fields_count,
            methods_count: self.methods_count,
            methods: methods_view(self.methods@),
            attributes_count: self.attributes_count,
            attributes: attributes_view(self.attributes@),
        }
    }
}

/// Whether a slot is one of the two kinds that take two slots.
pub open spec fn is_wide(e: EntryView) -> bool {
    e is Long || e is Double
}

/// The constant table from `offset` on, with `remaining` slots still to fill,
/// appended to `acc`. A wide entry fills its slot and the placeholder after it.
pub open spec fn spec_constant_pool(b: Seq<u8>, offset: usize, remaining: nat, acc: Seq<EntryView>) -> Result<
    (Seq<EntryView>, usize),
    DecodeError,
>
    decreases remaining,
{
    if remaining == 0 {
        Ok((acc, offset))
    } else {
        match spec_entry(b, offset) {
            Err(e) => Err(e),
            Ok((entry, next)) => if is_wide(entry) {
                if remaining >= 2 {
                    spec_constant_pool(
                        b,
                        next,
                        (remaining - 2) as nat,
                        acc.push(entry).push(EntryView::Dummy),
                    )
                } else {
                    Ok((acc.push(entry).push(EntryView::Dummy), next))
                }
            } else {
                spec_constant_pool(b, next, (remaining - 1) as nat, acc.push(entry))
            },
        }
    }
}

/// `remaining` more 16-bit interface indices from `offset` on, appended to `acc`.
pub open spec fn spec_interfaces(b: Seq<u8>, offset: usize, remaining: nat, acc: Seq<u16>) -> Result<
    (Seq<u16>, usize),
    DecodeError,
>
    decreases remaining,
{
    if remaining == 0 {
        Ok((acc, offset))
    } else {
        match spec_read_u16(b, offset) {
            Err(e) => Err(e),
            Ok(x) => spec_interfaces(b, (offset + 2) as usize, (remaining - 1) as nat, acc.push(x)),
        }
    }
}

/// `remaining` more methods from `offset` on, appended to `acc`.
pub open spec fn spec_methods(b: Seq<u8>, offset: usize, remaining: nat, acc: Seq<MethodView>) -> Result<
    (Seq<MethodView>, usize),
    DecodeError,
>
    decreases remaining,
{
    if remaining == 0 {
        Ok((acc, offset))
    } else {
        match spec_method(b, offset) {
            Err(e) => Err(e),
            Ok((m, next)) => spec_methods(b, next, (remaining - 1) as nat, acc.push(m)),
        }
    }
}

/// Decodes the constant table that starts at `offset`, given the declared
/// count, which is one more than the number of slots. A long or double entry
/// is followed by a `Dummy` slot.
pub fn parse_constant_pool(bytecode: &Vec<u8>, offset: usize, count: u16) -> (r: Result<
    (ConstantPool, usize),
    DecodeError,
>)
    ensures
        match r {
            Ok((pool, next)) => spec_constant_pool(bytecode@, offset, pool_slots(count), seq![]) == Ok::<(Seq<EntryView>, usize), DecodeError>((pool@, next)) && offset <= next
                && (next == offset || next <= bytecode.len()),
            Err(e) => spec_constant_pool(bytecode@, offset, pool_slots(count), seq![]) == Err::<(Seq<EntryView>, usize), DecodeError>(e),
        },
{
    let mut pool = ConstantPool::new();
    let mut at: usize = offset;
    let mut remaining: u16 = if count == 0 {
        0
    } else {
        count - 1
    };
    assert(pool@ =~= seq![]);
    while remaining > 0
        invariant
            offset <= at,
            at == offset || at <= bytecode.len(),
            spec_constant_pool(bytecode@, offset, pool_slots(count), seq![]) == spec_constant_pool(bytecode@, at, remaining as nat, pool@),
        decreases remaining,
    {
        let (entry, next) = parse_constant_pool_entry(bytecode, at)?;
        let wide = matches!(entry, ConstantPoolEntry::Long(_) | ConstantPoolEntry::Double(_));
        proof {
            assert(wide == is_wide(entry@));
        }
        let ghost before = pool@;
        pool.entries.push(entry);
        assert(pool@ =~= before.push(entry@));
        if wide {
            let ghost before = pool@;
            pool.entries.push(ConstantPoolEntry::Dummy);
            assert(pool@ =~= before.push(EntryView::Dummy));
            if remaining >= 2 {
                remaining = remaining - 2;
            } else {
                remaining = 0;
            }
        } else {
            remaining = remaining - 1;
        }
        at = next;
    }
    Ok((pool, at))
}

/// Decodes `count` interface indices starting at `offset`.
fn parse_interfaces(bytecode: &Vec<u8>, offset: usize, count: u16) -> (r: Result<
    (Vec<u16>, usize),
    DecodeError,
>)
    requires
        offset <= bytecode.len(),
    ensures
        match r {
            Ok((v, next)) => spec_interfaces(bytecode@, offset, count as nat, seq![]) == Ok::<
                (Seq<u16>, usize),
                DecodeError,
            >((v@, next)) && offset <= next <= bytecode.len(),
            Err(e) => spec_interfaces(bytecode@, offset, count as nat, seq![]) == Err::<
                (Seq<u16>, usize),
                DecodeError,
            >(e),
        },
{
    let mut interfaces: Vec<u16> = Vec::new();
    let mut at: usize = offset;
    let mut i: u16 = 0;
    while i < count
        invariant
            i <= count,
            offset <= at <= bytecode.len(),
            spec_interfaces(bytecode@, offset, count as nat, seq![]) == spec_interfaces(
                bytecode@,
                at,
                (count - i) as nat,
                interfaces@,
            ),
        decreases count - i,
    {
        let x = BigEndianByteOrder::read_u16(bytecode, at)?;
        interfaces.push(x);
        at = at + 2;
        i = i + 1;
    }
    Ok((interfaces, at))
}

/// Field declarations are not decoded: only a count of zero is accepted.
fn parse_fields(count: u16, offset: usize) -> (r: Result<usize, DecodeError>)
    ensures
        count == 0 ==> r == Ok::<usize, DecodeError>(offset),
        count != 0 ==> r == Err::<usize, DecodeError>(
            DecodeError::UnimplementedFeature { feature: Feature::FieldDeclarations },
        ),
{
    if count == 0 {
        Ok(offset)
    } else {
        Err(DecodeError::UnimplementedFeature { feature: Feature::FieldDeclarations })
    }
}

/// Decodes `count` methods starting at `offset`.
fn parse_methods(bytecode: &Vec<u8>, offset: usize, count: u16) -> (r: Result<
    (Vec<Method>, usize),
    DecodeError,
>)
    requires
        offset <= bytecode.len(),
    ensures
        match r {
            Ok((v, next)) => spec_methods(bytecode@, offset, count as nat, seq![]) == Ok::<
                (Seq<MethodView>, usize),
                DecodeError,
            >((methods_view(v@), next)) && offset <= next <= bytecode.len(),
            Err(e) => spec_methods(bytecode@, offset, count as nat, seq![]) == Err::<
                (Seq<MethodView>, usize),
                DecodeError,
            >(e),
        },
{
    let mut methods: Vec<Method> = Vec::new();
    let mut at: usize = offset;
    let mut i: u16 = 0;
    assert(methods_view(methods@) =~= seq![]);
    while i < count
        invariant
            i <= count,
            offset <= at <= bytecode.len(),
            spec_methods(bytecode@, offset, count as nat, seq![]) == spec_methods(
                bytecode@,
                at,
                (count - i) as nat,
                methods_view(methods@),
            ),
        decreases count - i,
    {
        let (method, next) = parse_method(bytecode, at)?;
        proof {
            assert(methods_view(methods@).push(method@) =~= methods_view(methods@.push(method)));
        }
        methods.push(method);
        at = next;
        i = i + 1;
    }
    Ok((methods, at))
}

/// The pool slots that a declared count asks for.
pub open spec fn pool_slots(count: u16) -> nat {
    if count == 0 {
        0
    } else {
        (count - 1) as nat
    }
}

/// What follows the constant table: flags, this and super class, interfaces,
/// an empty field list, methods and trailing attributes, read from `offset`
/// and completed with the header values and `pool`.
pub open spec fn spec_class_body(
    b: Seq<u8>,
    offset: usize,
    minor_version: u16,
    major_version: u16,
    constant_pool_count: u16,
    pool: Seq<EntryView>,
) -> Result<ParsedView, DecodeError> {
    match spec_read_u16(b, offset) {
        Err(e) => Err(e),
        Ok(access_flags) => match spec_read_u16(b, (offset + 2) as usize) {
            Err(e) => Err(e),
            Ok(this_class) => match spec_read_u16(b, (offset + 4) as usize) {
                Err(e) => Err(e),
                Ok(super_class) => match spec_read_u16(b, (offset + 6) as usize) {
                    Err(e) => Err(e),
                    Ok(interfaces_count) => match spec_interfaces(
                        b,
                        (offset + 8) as usize,
                        interfaces_count as nat,
                        seq![],
                    ) {
                        Err(e) => Err(e),
                        Ok((interfaces, fields_at)) => match spec_read_u16(b, fields_at) {
                            Err(e) => Err(e),
                            Ok(fields_count) => if fields_count != 0 {
                                Err(
                                    DecodeError::UnimplementedFeature {
                                        feature: Feature::FieldDeclarations,
                                    },
                                )
                            } else {
                                match spec_read_u16(b, (fields_at + 2) as usize) {
                                    Err(e) => Err(e),
                                    Ok(methods_count) => match spec_methods(
                                        b,
                                        (fields_at + 4) as usize,
                                        methods_count as nat,
                                        seq![],
                                    ) {
                                        Err(e) => Err(e),
                                        Ok((methods, attributes_at)) => match spec_read_u16(
                                            b,
                                            attributes_at,
                                        ) {
                                            Err(e) => Err(e),
                                            Ok(attributes_count) => match spec_attributes(
                                                b,
                                                (attributes_at + 2) as usize,
                                                attributes_count as nat,
                                                seq![],
                                            ) {
                                                Err(e) => Err(e),
                                                Ok((attributes, _)) => Ok(
                                                    ParsedView {
                                                        minor_version,
                                                        major_version,
                                                        constant_pool_count,
                                                        constant_pool: pool,
                                                        access_flags,
                                                        this_class,
                                                        super_class,
                                                        interfaces_count,
                                                        interfaces,
                                                        fields_count,
                                                        methods_count,
                                                        methods,
                                                        attributes_count,
                                                        attributes,
                                                    },
                                                ),
                                            },
                                        },
                                    },
                                }
                            },
                        },
                    },
                },
            },
        },
    }
}

/// A whole container: the magic number, the versions, the constant table and
/// the class body.
pub open spec fn spec_parse_bytecode(b: Seq<u8>) -> Result<ParsedView, DecodeError> {
    match spec_read_u32(b, 0) {
        Err(e) => Err(e),
        Ok(magic) => if magic != MAGIC {
            Err(DecodeError::InvalidMagicNumber { found: magic })
        } else {
            match spec_read_u16(b, 4) {
                Err(e) => Err(e),
                Ok(minor_version) => match spec_read_u16(b, 6) {
                    Err(e) => Err(e),
                    Ok(major_version) => match spec_read_u16(b, 8) {
                        Err(e) => Err(e),
                        Ok(count) => match spec_constant_pool(b, 10, pool_slots(count), seq![]) {
                            Err(e) => Err(e),
                            Ok((pool, next)) => spec_class_body(
                                b,
                                next,
                                minor_version,
                                major_version,
                                count,
                                pool,
                            ),
                        },
                    },
                },
            }
        },
    }
}

/// Decodes a whole container.
pub fn parse_bytecode(bytecode: &Vec<u8>) -> (r: Result<ParsedBytecode, DecodeError>)
    ensures
        match r {
            Ok(p) => spec_parse_bytecode(bytecode@) == Ok::<ParsedView, DecodeError>(p@),
            Err(e) => spec_parse_bytecode(bytecode@) == Err::<ParsedView, DecodeError>(e),
        },
{
    let magic = BigEndianByteOrder::read_u32(bytecode, 0)?;
    if magic != MAGIC {
        return Err(DecodeError::InvalidMagicNumber { found: magic });
    }
    let minor_version = BigEndianByteOrder::read_u16(bytecode, 4)?;
    let major_version = BigEndianByteOrder::read_u16(bytecode, 6)?;
    let constant_pool_count = BigEndianByteOrder::read_u16(bytecode, 8)?;
    let (constant_pool, offset) = parse_constant_pool(bytecode, 10, constant_pool_count)?;
    let access_flags = BigEndianByteOrder::read_u16(bytecode, offset)?;
    let this_class = BigEndianByteOrder::read_u16(bytecode, offset + 2)?;
    let super_class = BigEndianByteOrder::read_u16(bytecode, offset + 4)?;
    let interfaces_count = BigEndianByteOrder::read_u16(bytecode, offset + 6)?;
    let (interfaces, offset) = parse_interfaces(bytecode, offset + 8, interfaces_count)?;
    let fields_count = BigEndianByteOrder::read_u16(bytecode, offset)?;
    let offset = parse_fields(fields_count, offset + 2)?;
    let methods_count = BigEndianByteOrder::read_u16(bytecode, offset)?;
    let (methods, offset) = parse_methods(bytecode, offset + 2, methods_count)?;
    let attributes_count = BigEndianByteOrder::read_u16(bytecode, offset)?;
    let (attributes, _) = parse_attribute_list(bytecode, offset + 2, attributes_count)?;
    Ok(
        ParsedBytecode {
            minor_version,
            major_version,
            constant_pool_count,
            constant_pool,
            access_flags,
            this_class,
            super_class,
            interfaces_count,
            interfaces,
            fields_count,
            methods_count,
            methods,
            attributes_count,
            attributes,
        },
    )
}

/// A double entry fills its own slot and the next one: in a table built from a
/// double entry followed by a text entry, the slots are the double, a
/// placeholder and the text, and the text is found at index 3.
pub proof fn lemma_wide_entry_takes_two_slots(
    b: Seq<u8>,
    offset: usize,
    d: DoubleConstantPoolEntry,
    after_double: usize,
    u: Utf8View,
    after_text: usize,
)
    requires
        spec_entry(b, offset) == Ok::<(EntryView, usize), DecodeError>(
            (EntryView::Double(d), after_double),
        ),
        spec_entry(b, after_double) == Ok::<(EntryView, usize), DecodeError>(
            (EntryView::Utf8(u), after_text),
        ),
    ensures
        spec_constant_pool(b, offset, pool_slots(4), seq![]) == Ok::<
            (Seq<EntryView>, usize),
            DecodeError,
        >((seq![EntryView::Double(d), EntryView::Dummy, EntryView::Utf8(u)], after_text)),
        spec_find_utf8(seq![EntryView::Double(d), EntryView::Dummy, EntryView::Utf8(u)], 3)
            == Ok::<Utf8View, DecodeError>(u),
{
    assert(pool_slots(4) == 3);
    let once = seq![EntryView::Double(d), EntryView::Dummy];
    assert(seq![].push(EntryView::Double(d)).push(EntryView::Dummy) =~= once);
    assert(once.push(EntryView::Utf8(u)) =~= seq![
        EntryView::Double(d),
        EntryView::Dummy,
        EntryView::Utf8(u),
    ]);
    assert(spec_constant_pool(b, after_text, 0, once.push(EntryView::Utf8(u))) == Ok::<
        (Seq<EntryView>, usize),
        DecodeError,
    >((once.push(EntryView::Utf8(u)), after_text)));
    assert(spec_constant_pool(b, after_double, 1, once) == spec_constant_pool(
        b,
        after_text,
        0,
        once.push(EntryView::Utf8(u)),
    ));
}

} // verus!
