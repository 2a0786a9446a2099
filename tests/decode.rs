use classgen::attribute::{parse_attribute, Attribute, CodeInstruction, ExceptionTableEntry};
use classgen::bytecode::{parse_bytecode, parse_constant_pool};
use classgen::constantpool::{
    parse_constant_pool_entry, parse_utf8_constant_pool_entry, ConstantPool, ConstantPoolEntry,
    DoubleConstantPoolEntry, StringConstantPoolEntry, Utf8ConstantPoolEntry,
};
use classgen::endianness::{BigEndianByteOrder, ByteOrder};
use classgen::error::{DecodeError, Feature};
use classgen::method::parse_method;

fn utf8_entry(text: &str) -> Vec<u8> {
    let mut v = vec![1u8];
    v.extend_from_slice(&(text.len() as u16).to_be_bytes());
    v.extend_from_slice(text.as_bytes());
    v
}

fn double_entry(high: u32, low: u32) -> Vec<u8> {
    let mut v = vec![6u8];
    v.extend_from_slice(&high.to_be_bytes());
    v.extend_from_slice(&low.to_be_bytes());
    v
}

/// A container with the given pool (declared count given too) and no
/// interfaces, fields, methods or attributes.
fn bare_container(pool: &[Vec<u8>], count: u16) -> Vec<u8> {
    let mut v = vec![0xCA, 0xFE, 0xBA, 0xBE, 0, 3, 0, 45];
    v.extend_from_slice(&count.to_be_bytes());
    for e in pool {
        v.extend_from_slice(e);
    }
    v.extend_from_slice(&[0, 0x21, 0, 0, 0, 0, 0, 0, 0, 0, 0, 0, 0, 0]);
    v
}

fn code_attribute(code: &[u8]) -> Attribute {
    let mut info = vec![0, 2, 0, 1];
    info.extend_from_slice(&(code.len() as u32).to_be_bytes());
    info.extend_from_slice(code);
    info.extend_from_slice(&[0, 0, 0, 0]);
    Attribute { name_index: 1, length: info.len() as u32, info }
}

#[test]
fn read_u16_is_big_endian() {
    let b = vec![0x12, 0x34, 0xff];
    assert_eq!(BigEndianByteOrder::read_u16(&b, 0), Ok(0x1234));
    assert_eq!(BigEndianByteOrder::read_u16(&b, 1), Ok(0x34ff));
    let all: Vec<u8> = vec![0xab, 0xcd];
    assert_eq!(BigEndianByteOrder::read_u16(&all, 0), Ok(0xab * 256 + 0xcd));
}

#[test]
fn read_u16_past_end_fails() {
    let b = vec![0x12, 0x34, 0xff];
    assert_eq!(
        BigEndianByteOrder::read_u16(&b, 2),
        Err(DecodeError::OffsetOutOfBounds { offset: 2 })
    );
    assert_eq!(
        BigEndianByteOrder::read_u16(&b, 7),
        Err(DecodeError::OffsetOutOfBounds { offset: 7 })
    );
    assert_eq!(
        BigEndianByteOrder::read_u16(&vec![], 0),
        Err(DecodeError::OffsetOutOfBounds { offset: 0 })
    );
}

#[test]
fn read_u8_and_u32() {
    let b = vec![0xCA, 0xFE, 0xBA, 0xBE, 0x01];
    assert_eq!(BigEndianByteOrder::read_u8(&b, 4), Ok(1));
    assert_eq!(
        BigEndianByteOrder::read_u8(&b, 5),
        Err(DecodeError::OffsetOutOfBounds { offset: 5 })
    );
    assert_eq!(BigEndianByteOrder::read_u32(&b, 0), Ok(0xCAFEBABE));
    assert_eq!(BigEndianByteOrder::read_u32(&b, 1), Ok(0xFEBABE01));
    assert_eq!(
        BigEndianByteOrder::read_u32(&b, 2),
        Err(DecodeError::OffsetOutOfBounds { offset: 2 })
    );
}

#[test]
fn double_takes_two_slots() {
    let bytes = bare_container(&[double_entry(0x40091EB8, 0x51EB851F), utf8_entry("hi")], 4);
    let parsed = parse_bytecode(&bytes).unwrap();
    let pool = &parsed.constant_pool;
    assert_eq!(pool.entries.len(), 3);
    assert_eq!(pool.entries[1], ConstantPoolEntry::Dummy);
    let text = pool.find_utf8_constant_pool_entry(3).unwrap();
    assert_eq!(text.bytes, "hi");
    assert_eq!(
        pool.find_double_constant_pool_entry(1),
        Ok(DoubleConstantPoolEntry { tag: 6, low_bytes: 0x51EB851F, high_bytes: 0x40091EB8 })
    );
    assert_eq!(
        pool.find_utf8_constant_pool_entry(2),
        Err(DecodeError::ConstantKindMismatch { index: 2 })
    );
}

#[test]
fn lookup_out_of_range_and_wrong_kind() {
    let bytes = bare_container(&[utf8_entry("a"), vec![8, 0, 1]], 3);
    let parsed = parse_bytecode(&bytes).unwrap();
    let pool = &parsed.constant_pool;
    assert_eq!(
        pool.find_utf8_constant_pool_entry(0),
        Err(DecodeError::ConstantIndexOutOfRange { index: 0 })
    );
    assert_eq!(
        pool.find_utf8_constant_pool_entry(3),
        Err(DecodeError::ConstantIndexOutOfRange { index: 3 })
    );
    assert_eq!(
        pool.find_utf8_constant_pool_entry(2),
        Err(DecodeError::ConstantKindMismatch { index: 2 })
    );
    assert_eq!(
        pool.find_string_constant_pool_entry(2),
        Ok(StringConstantPoolEntry { tag: 8, string_index: 1 })
    );
    assert_eq!(
        pool.find_string_constant_pool_entry(1),
        Err(DecodeError::ConstantKindMismatch { index: 1 })
    );
    assert_eq!(ConstantPool::new().find_utf8_constant_pool_entry(1),
        Err(DecodeError::ConstantIndexOutOfRange { index: 1 }));
}

#[test]
fn utf8_entry_keeps_length_and_text() {
    let entry = utf8_entry("héllo");
    let (e, next) = parse_utf8_constant_pool_entry(&entry, 1).unwrap();
    assert_eq!(next, entry.len());
    match e {
        ConstantPoolEntry::Utf8(Utf8ConstantPoolEntry { tag, length, bytes }) => {
            assert_eq!(tag, 1);
            assert_eq!(length, 6);
            assert_eq!(bytes.len(), length as usize);
            assert_eq!(bytes, "héllo");
        }
        other => panic!("unexpected entry {:?}", other),
    }
}

#[test]
fn utf8_entry_invalid_or_short() {
    let bad = vec![1, 0, 2, 0xff, 0xfe];
    assert_eq!(
        parse_constant_pool_entry(&bad, 0),
        Err(DecodeError::InvalidUtf8Payload { offset: 3 })
    );
    let short = vec![1, 0, 5, b'a'];
    assert_eq!(
        parse_constant_pool_entry(&short, 0),
        Err(DecodeError::OffsetOutOfBounds { offset: 3 })
    );
}

#[test]
fn unsupported_tag() {
    let b = vec![0, 0, 2, 0, 0];
    assert_eq!(
        parse_constant_pool_entry(&b, 2),
        Err(DecodeError::UnsupportedTag { tag: 2, offset: 2 })
    );
}

#[test]
fn every_entry_kind_decodes() {
    let b = vec![
        7, 0, 1, // class
        9, 0, 1, 0, 2, // field ref
        10, 0, 3, 0, 4, // method ref
        11, 0, 5, 0, 6, // interface method ref
        3, 0, 0, 0, 42, // integer
        4, 0x3f, 0x80, 0, 0, // float
        5, 0, 0, 0, 1, 0, 0, 0, 2, // long
        12, 0, 7, 0, 8, // name and type
        15, 6, 0, 9, // method handle
        16, 0, 10, // method type
        18, 0, 11, 0, 12, // invoke dynamic
    ];
    let mut offset = 0;
    let mut kinds = Vec::new();
    while offset < b.len() {
        let (e, next) = parse_constant_pool_entry(&b, offset).unwrap();
        kinds.push(e);
        offset = next;
    }
    assert_eq!(offset, b.len());
    assert_eq!(kinds.len(), 11);
    assert!(matches!(kinds[4], ConstantPoolEntry::Integer(ref i) if i.bytes == 42));
    assert!(matches!(kinds[6], ConstantPoolEntry::Long(ref l) if l.high_bytes == 1 && l.low_bytes == 2));
    assert!(matches!(kinds[8], ConstantPoolEntry::MethodHandle(ref h) if h.reference_kind == 6 && h.reference_index == 9));
}

#[test]
fn invalid_magic_number() {
    let mut bytes = bare_container(&[], 1);
    bytes[3] = 0xBF;
    assert_eq!(
        parse_bytecode(&bytes),
        Err(DecodeError::InvalidMagicNumber { found: 0xCAFEBABF })
    );
    assert_eq!(parse_bytecode(&vec![0xCA]), Err(DecodeError::OffsetOutOfBounds { offset: 0 }));
}

#[test]
fn fields_are_not_decoded() {
    let mut bytes = bare_container(&[], 1);
    // interfaces count at 16..18, fields count at 18..20
    bytes[19] = 1;
    assert_eq!(
        parse_bytecode(&bytes),
        Err(DecodeError::UnimplementedFeature { feature: Feature::FieldDeclarations })
    );
}

#[test]
fn container_header_fields() {
    let bytes = bare_container(&[utf8_entry("x")], 2);
    let parsed = parse_bytecode(&bytes).unwrap();
    assert_eq!(parsed.minor_version, 3);
    assert_eq!(parsed.major_version, 45);
    assert_eq!(parsed.constant_pool_count, 2);
    assert_eq!(parsed.access_flags, 0x21);
    assert!(parsed.methods.is_empty());
    let mut truncated = bytes.clone();
    truncated.pop();
    assert_eq!(
        parse_bytecode(&truncated),
        Err(DecodeError::OffsetOutOfBounds { offset: truncated.len() - 1 })
    );
}

#[test]
fn attribute_envelope() {
    let b = vec![0, 7, 0, 0, 0, 3, 1, 2, 3, 9];
    let (a, next) = parse_attribute(&b, 0).unwrap();
    assert_eq!(a, Attribute { name_index: 7, length: 3, info: vec![1, 2, 3] });
    assert_eq!(next, 9);
    let short = vec![0, 7, 0, 0, 0, 9, 1];
    assert_eq!(parse_attribute(&short, 0), Err(DecodeError::OffsetOutOfBounds { offset: 6 }));
}

#[test]
fn method_with_attributes() {
    let b = vec![0, 9, 0, 1, 0, 2, 0, 1, 0, 3, 0, 0, 0, 1, 0xB1];
    let (m, next) = parse_method(&b, 0).unwrap();
    assert_eq!(next, b.len());
    assert_eq!(m.access_flags, 9);
    assert_eq!(m.name_index, 1);
    assert_eq!(m.descriptor_index, 2);
    assert_eq!(m.attributes_count, 1);
    assert_eq!(m.attributes[0].info, vec![0xB1]);
}

#[test]
fn code_body_decodes() {
    let mut info = vec![0, 2, 0, 1, 0, 0, 0, 1, 0xB1, 0, 1, 0, 1, 0, 2, 0, 3, 0, 4, 0, 1];
    info.extend_from_slice(&[0, 5, 0, 0, 0, 1, 0x77]);
    let a = Attribute { name_index: 3, length: info.len() as u32, info };
    let c = a.into_code_attribute().unwrap();
    assert_eq!(c.name_index, 3);
    assert_eq!(c.max_stack, 2);
    assert_eq!(c.max_locals, 1);
    assert_eq!(c.code_length, 1);
    assert_eq!(c.code, vec![0xB1]);
    assert_eq!(
        c.exception_table,
        vec![ExceptionTableEntry { start_pc: 1, end_pc: 2, handler_pc: 3, catch_type: 4 }]
    );
    assert_eq!(c.attributes_count, 1);
    assert_eq!(c.attributes[0], Attribute { name_index: 5, length: 1, info: vec![0x77] });
}

#[test]
fn code_body_too_short() {
    let a = Attribute { name_index: 3, length: 10, info: vec![0, 2, 0, 1, 0, 0, 0, 9, 0xB1, 0xB1] };
    assert_eq!(a.into_code_attribute(), Err(DecodeError::OffsetOutOfBounds { offset: 8 }));
}

#[test]
fn instruction_decoding_consumes_everything() {
    let code = [0x2A, 0xB2, 0x00, 0x02, 0x12, 0x05, 0xB6, 0x00, 0x03, 0xB1];
    let c = code_attribute(&code).into_code_attribute().unwrap();
    let first = c.into_code_instructions().unwrap();
    let second = c.into_code_instructions().unwrap();
    assert_eq!(first, second);
    assert_eq!(
        first,
        vec![
            CodeInstruction::Aload0(0),
            CodeInstruction::GetStatic(2, 1),
            CodeInstruction::Ldc(5, 4),
            CodeInstruction::InvokeVirtual(3, 6),
            CodeInstruction::Return(9),
        ]
    );
    let origins: Vec<usize> = first.iter().map(|i| i.origin_offset()).collect();
    assert_eq!(origins, vec![0, 1, 4, 6, 9]);
}

#[test]
fn unsupported_opcode_reports_offset() {
    let code = [0xB1, 0xB1, 0xB1, 0xFF, 0xB1];
    let c = code_attribute(&code).into_code_attribute().unwrap();
    assert_eq!(
        c.into_code_instructions(),
        Err(DecodeError::UnsupportedOpcode { opcode: 255, offset: 3 })
    );
}

#[test]
fn branch_offsets_are_signed() {
    let code = [0xB1, 0x9C, 0xFF, 0xFF, 0xA7, 0x00, 0x04, 0x14, 0x00, 0x01, 0x98, 0xB8, 0x00, 0x02, 0xB7, 0x00, 0x03];
    let c = code_attribute(&code).into_code_attribute().unwrap();
    assert_eq!(
        c.into_code_instructions().unwrap(),
        vec![
            CodeInstruction::Return(0),
            CodeInstruction::Ifge(-1, 1),
            CodeInstruction::Goto(4, 4),
            CodeInstruction::Ldc2W(1, 7),
            CodeInstruction::Dcmpg(10),
            CodeInstruction::InvokeStatic(2, 11),
            CodeInstruction::InvokeSpecial(3, 14),
        ]
    );
}

#[test]
fn truncated_instruction_fails() {
    let code = [0xB1, 0xB2, 0x00];
    let c = code_attribute(&code).into_code_attribute().unwrap();
    assert_eq!(c.into_code_instructions(), Err(DecodeError::OffsetOutOfBounds { offset: 2 }));
}

#[test]
fn constant_pool_places_placeholder_after_double() {
    let mut b = vec![0xEE, 0xEE];
    b.extend(double_entry(0x40091EB8, 0x51EB851F));
    b.extend(utf8_entry("hi"));
    let (pool, next) = parse_constant_pool(&b, 2, 4).unwrap();
    assert_eq!(next, b.len());
    assert_eq!(
        pool.entries,
        vec![
            ConstantPoolEntry::Double(DoubleConstantPoolEntry {
                tag: 6,
                low_bytes: 0x51EB851F,
                high_bytes: 0x40091EB8
            }),
            ConstantPoolEntry::Dummy,
            ConstantPoolEntry::Utf8(Utf8ConstantPoolEntry { tag: 1, length: 2, bytes: "hi".to_string() }),
        ]
    );
    assert_eq!(parse_constant_pool(&b, 40, 1).map(|(p, n)| (p.entries.len(), n)), Ok((0, 40)));
    assert_eq!(
        parse_constant_pool(&b, 40, 2).map(|(p, _)| p.entries.len()),
        Err(DecodeError::OffsetOutOfBounds { offset: 40 })
    );
}

#[test]
fn attribute_list_past_end() {
    let b = vec![0u8; 3];
    assert_eq!(
        classgen::attribute::parse_attribute_list(&b, 9, 0).map(|(v, n)| (v.len(), n)),
        Ok((0, 9))
    );
    assert_eq!(
        classgen::attribute::parse_attribute_list(&b, 9, 1).map(|(v, _)| v.len()),
        Err(DecodeError::OffsetOutOfBounds { offset: 9 })
    );
}
