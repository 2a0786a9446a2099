use classgen::assembly::Assembly;
use classgen::bytecode::{parse_bytecode, ParsedBytecode};
use classgen::error::{DecodeError, Feature};
use classgen::text::decimal_string;
use classgen::x86_64::{codegen, reconstruct_double};

fn utf8(text: &str) -> Vec<u8> {
    let mut v = vec![1u8];
    v.extend_from_slice(&(text.len() as u16).to_be_bytes());
    v.extend_from_slice(text.as_bytes());
    v
}

fn pair(tag: u8, a: u16, b: u16) -> Vec<u8> {
    let mut v = vec![tag];
    v.extend_from_slice(&a.to_be_bytes());
    v.extend_from_slice(&b.to_be_bytes());
    v
}

fn single(tag: u8, a: u16) -> Vec<u8> {
    let mut v = vec![tag];
    v.extend_from_slice(&a.to_be_bytes());
    v
}

fn double(high: u32, low: u32) -> Vec<u8> {
    let mut v = vec![6u8];
    v.extend_from_slice(&high.to_be_bytes());
    v.extend_from_slice(&low.to_be_bytes());
    v
}

/// The constant table shared by the scenarios below:
///  1 "main", 2 "([Ljava/lang/String;)V", 3 "Code", 4 "hi", 5 string #4,
///  6 "println", 7 "(Ljava/lang/String;)V", 8 name-and-type #6 #7,
///  9 class #10, 10 "java/io/PrintStream", 11 method ref #9 #8,
///  12 field ref #9 #8, 13-14 a double, 15 "random", 16 name-and-type #15 #7,
///  17 method ref #9 #16, 18 "other", 19 name-and-type #18 #7, 20 method ref #9 #19.
fn pool() -> (Vec<Vec<u8>>, u16) {
    (
        vec![
            utf8("main"),
            utf8("([Ljava/lang/String;)V"),
            utf8("Code"),
            utf8("hi"),
            single(8, 4),
            utf8("println"),
            utf8("(Ljava/lang/String;)V"),
            pair(12, 6, 7),
            single(7, 10),
            utf8("java/io/PrintStream"),
            pair(10, 9, 8),
            pair(9, 9, 8),
            double(0x40091EB8, 0x51EB851F),
            utf8("random"),
            pair(12, 15, 7),
            pair(10, 9, 16),
            utf8("other"),
            pair(12, 18, 7),
            pair(10, 9, 19),
        ],
        21,
    )
}

/// A container whose only method is named by `name_index` and has `code` as its body.
fn container(name_index: u16, code: &[u8]) -> Vec<u8> {
    let (entries, count) = pool();
    let mut v = vec![0xCA, 0xFE, 0xBA, 0xBE, 0, 0, 0, 52];
    v.extend_from_slice(&count.to_be_bytes());
    for e in &entries {
        v.extend_from_slice(e);
    }
    v.extend_from_slice(&[0, 0x21, 0, 9, 0, 9, 0, 0, 0, 0, 0, 1]);
    v.extend_from_slice(&[0, 9]);
    v.extend_from_slice(&name_index.to_be_bytes());
    v.extend_from_slice(&[0, 2, 0, 1, 0, 3]);
    let mut info = vec![0, 2, 0, 1];
    info.extend_from_slice(&(code.len() as u32).to_be_bytes());
    info.extend_from_slice(code);
    info.extend_from_slice(&[0, 0, 0, 0]);
    v.extend_from_slice(&(info.len() as u32).to_be_bytes());
    v.extend_from_slice(&info);
    v.extend_from_slice(&[0, 0]);
    v
}

fn generate(code: &[u8]) -> Result<Vec<String>, DecodeError> {
    let parsed = parse_bytecode(&container(1, code)).unwrap();
    codegen(&parsed).map(|a| a.code)
}

fn runtime_and_data_header() -> Vec<String> {
    [
        "\nruntime$println:\n",
        "\nmov rsi, qword [rsp + 8]\n",
        "\tmov rdx, qword [rsp + 16]\n",
        "\tmov rax, 0x2000004\n",
        "\tmov rdi, 1\n",
        "\tsyscall\n",
        "\tret\n",
        "\n",
        "section .data\n",
        "global data_section_elements\n",
        "data_section_elements:\n",
    ]
    .iter()
    .map(|s| s.to_string())
    .collect()
}

#[test]
fn hello_program_end_to_end() {
    let lines = generate(&[0xB2, 0, 12, 0x12, 5, 0xB6, 0, 11, 0xB1]).unwrap();
    let mut expected: Vec<String> = [
        "section .text\n",
        "global _main\n",
        "_main:\n",
        "\tL0:\n",
        "\tL3:\n",
        "\tpush qword 2\n",
        "\tlea r10, [rel data_section_elements + 0]\n",
        "\tpush r10\n",
        "\tL5:\n",
        "\tcall runtime$println\n",
        "\tL8:\n",
        "\tmov rax, 0x2000001\n",
        "\tmov rdi, 0\n",
        "\tsyscall\n",
    ]
    .iter()
    .map(|s| s.to_string())
    .collect();
    expected.extend(runtime_and_data_header());
    expected.push("\tdb \"hi\", 10\n".to_string());
    assert_eq!(lines, expected);

    let call = lines.iter().position(|l| l == "\tcall runtime$println\n").unwrap();
    let exit = lines.iter().position(|l| l == "\tmov rax, 0x2000001\n").unwrap();
    let data = lines.iter().position(|l| l == "\tdb \"hi\", 10\n").unwrap();
    assert!(call < exit && exit < data);
}

#[test]
fn generation_is_deterministic() {
    let parsed = parse_bytecode(&container(1, &[0xB2, 0, 12, 0x12, 5, 0xB6, 0, 11, 0xB1])).unwrap();
    let first = codegen(&parsed).unwrap();
    let second = codegen(&parsed).unwrap();
    assert_eq!(first.text(), second.text());
    assert_eq!(first, second);
}

#[test]
fn branch_target_is_origin_plus_offset() {
    let mut code = vec![0xB1u8; 20];
    code.extend_from_slice(&[0x9C, 0x00, 0x0A]);
    code.extend_from_slice(&[0xB1; 8]);
    let lines = generate(&code).unwrap();
    assert!(lines.contains(&"\tL20:\n".to_string()));
    assert!(lines.contains(&"\tjge L30\n".to_string()));
    assert!(lines.contains(&"\tL30:\n".to_string()));
    assert!(!lines.iter().any(|l| l.contains("L2010")));
}

#[test]
fn backward_goto() {
    let lines = generate(&[0xB1, 0xB1, 0xA7, 0xFF, 0xFE, 0xB1]).unwrap();
    assert!(lines.contains(&"\tjmp L0\n".to_string()));
}

#[test]
fn branch_needs_no_instruction_at_its_target() {
    let mut code = vec![0xB1u8; 20];
    code.extend_from_slice(&[0x9C, 0x00, 0x0A]);
    let lines = generate(&code).unwrap();
    let at = lines.iter().position(|l| l == "\tL20:\n").unwrap();
    assert_eq!(lines[at + 1], "\tjge L30\n");
    assert!(!lines.contains(&"\tL30:\n".to_string()));
    let lines = generate(&[0xB1, 0xA7, 0x00, 0x07]).unwrap();
    assert!(lines.contains(&"\tjmp L8\n".to_string()));
}

#[test]
fn branch_before_code_start_fails() {
    assert_eq!(
        generate(&[0xA7, 0xFF, 0xFE, 0xB1]),
        Err(DecodeError::InvalidBranchTarget { origin: 0 })
    );
    assert_eq!(
        generate(&[0xB1, 0x9C, 0xFF, 0xFE, 0xB1]),
        Err(DecodeError::InvalidBranchTarget { origin: 1 })
    );
    let lines = generate(&[0xB1, 0x9C, 0xFF, 0xFF, 0xB1]).unwrap();
    assert!(lines.contains(&"\tjge L0\n".to_string()));
}

#[test]
fn pushed_length_is_the_byte_length_of_the_text() {
    let mut parsed =
        parse_bytecode(&container(1, &[0x12, 5, 0xB1])).unwrap();
    if let classgen::constantpool::ConstantPoolEntry::Utf8(u) = &mut parsed.constant_pool.entries[3] {
        u.length = 7;
        u.bytes = "héllo".to_string();
    } else {
        panic!("slot 4 holds text");
    }
    let lines = codegen(&parsed).unwrap().code;
    assert!(lines.contains(&"\tpush qword 6\n".to_string()));
    assert_eq!(lines.last().unwrap(), "\tdb \"héllo\", 10\n");
}

#[test]
fn double_constant_and_comparison() {
    let lines = generate(&[0x14, 0, 13, 0x98, 0xB8, 0, 17, 0xB1]).unwrap();
    assert!(lines.contains(&"\tpush qword [rel data_section_elements + 0]\n".to_string()));
    assert!(lines.contains(&"\tcall runtime$dcmpg\n".to_string()));
    assert!(lines.contains(&"\tcall runtime$drandom\n".to_string()));
    assert_eq!(lines.last().unwrap(), "\tdouble_0: dq 4614253070214989087\n");
}

#[test]
fn data_offsets_advance_by_a_word() {
    let lines = generate(&[0x12, 5, 0x14, 0, 13, 0x12, 5, 0xB1]).unwrap();
    assert!(lines.contains(&"\tlea r10, [rel data_section_elements + 0]\n".to_string()));
    assert!(lines.contains(&"\tpush qword [rel data_section_elements + 8]\n".to_string()));
    assert!(lines.contains(&"\tlea r10, [rel data_section_elements + 16]\n".to_string()));
    let n = lines.len();
    assert_eq!(lines[n - 3], "\tdb \"hi\", 10\n");
    assert_eq!(lines[n - 2], "\tdouble_1: dq 4614253070214989087\n");
    assert_eq!(lines[n - 1], "\tdb \"hi\", 10\n");
}

#[test]
fn reconstructed_bits() {
    let bits = reconstruct_double(0x40091EB8, 0x51EB851F);
    assert_eq!(bits, 0x40091EB851EB851F);
    assert_eq!(f64::from_bits(bits), 3.14);
    assert_eq!(reconstruct_double(0, 1), 1);
    assert_eq!(reconstruct_double(1, 0), 1 << 32);
}

#[test]
fn unimplemented_instructions_are_errors() {
    assert_eq!(
        generate(&[0x2A, 0xB1]),
        Err(DecodeError::UnimplementedFeature { feature: Feature::Aload0 })
    );
    assert_eq!(
        generate(&[0xB7, 0, 11, 0xB1]),
        Err(DecodeError::UnimplementedFeature { feature: Feature::InvokeSpecial })
    );
    assert_eq!(
        generate(&[0xB6, 0, 20, 0xB1]),
        Err(DecodeError::UnimplementedFeature { feature: Feature::RuntimeRoutine })
    );
}

#[test]
fn bad_constant_references_are_errors() {
    assert_eq!(
        generate(&[0x12, 4, 0xB1]),
        Err(DecodeError::ConstantKindMismatch { index: 4 })
    );
    assert_eq!(
        generate(&[0x14, 0, 40, 0xB1]),
        Err(DecodeError::ConstantIndexOutOfRange { index: 40 })
    );
    assert_eq!(
        generate(&[0xFF]),
        Err(DecodeError::UnsupportedOpcode { opcode: 255, offset: 0 })
    );
}

#[test]
fn no_entry_method_gives_empty_program() {
    let parsed = parse_bytecode(&container(6, &[0x2A])).unwrap();
    let lines = codegen(&parsed).unwrap().code;
    assert_eq!(lines, runtime_and_data_header());
    let empty = ParsedBytecode {
        minor_version: 0,
        major_version: 0,
        constant_pool_count: 0,
        constant_pool: classgen::constantpool::ConstantPool::new(),
        access_flags: 0,
        this_class: 0,
        super_class: 0,
        interfaces_count: 0,
        interfaces: vec![],
        fields_count: 0,
        methods_count: 0,
        methods: vec![],
        attributes_count: 0,
        attributes: vec![],
    };
    assert_eq!(codegen(&empty).unwrap().code, runtime_and_data_header());
}

#[test]
fn method_name_must_be_text() {
    let parsed = parse_bytecode(&container(5, &[0xB1])).unwrap();
    assert_eq!(codegen(&parsed), Err(DecodeError::ConstantKindMismatch { index: 5 }));
}

#[test]
fn decimal_text() {
    assert_eq!(decimal_string(0), "0");
    assert_eq!(decimal_string(30), "30");
    assert_eq!(decimal_string(18446744073709551615), "18446744073709551615");
}

#[test]
fn assembly_lines() {
    let mut a = Assembly::new();
    a.emit_mov("rax", "1");
    a.emit_push("r10");
    a.emit_call("f");
    a.emit_lea("r10", "[x]");
    a.emit_jge("L3");
    a.emit_jmp("L4");
    a.emit_label("here");
    a.emit_function_start("_main");
    a.emit_db("ok");
    a.emit_line("nop");
    a.emit_syscall();
    a.emit_section_text();
    a.emit_global_main();
    a.emit_section_data();
    a.emit_global_data_section_elements();
    a.emit_data_section_elements();
    assert_eq!(
        a.code,
        vec![
            "\tmov rax, 1\n",
            "\tpush r10\n",
            "\tcall f\n",
            "\tlea r10, [x]\n",
            "\tjge L3\n",
            "\tjmp L4\n",
            "here:\n",
            "_main:\n",
            "\tdb \"ok\", 10\n",
            "\tnop\n",
            "\tsyscall\n",
            "section .text\n",
            "global _main\n",
            "section .data\n",
            "global data_section_elements\n",
            "data_section_elements:\n",
        ]
    );
    assert_eq!(a.text(), a.code.concat());
}
