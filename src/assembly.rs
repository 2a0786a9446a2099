use vstd::prelude::*;
use vstd::string::*;

verus! {

/// The text of a listing line: `s` behind a tab, ended by a newline.
pub open spec fn tabbed(s: Seq<char>) -> Seq<char> {
    "\t"@ + s + "\n"@
}

/// An instruction line with one operand; `head` is the tab and the mnemonic
/// with its trailing space.
pub open spec fn op1(head: Seq<char>, a: Seq<char>) -> Seq<char> {
    head + a + "\n"@
}

/// An instruction line with two operands.
pub open spec fn op2(head: Seq<char>, a: Seq<char>, b: Seq<char>) -> Seq<char> {
    head + a + ", "@ + b + "\n"@
}

/// A label line at the start of a line.
pub open spec fn label_text(name: Seq<char>) -> Seq<char> {
    name + ":\n"@
}

/// A byte-string directive for `value`, ended by a newline byte.
pub open spec fn db_text(value: Seq<char>) -> Seq<char> {
    "\tdb \""@ + value + "\", 10\n"@
}

/// The fixed body of the console-output routine that translated code calls.
pub open spec fn runtime_println_text() -> Seq<Seq<char>> {
    seq![
        "\nruntime$println:\n"@,
        "\nmov rsi, qword [rsp + 8]\n"@,
        "\tmov rdx, qword [rsp + 16]\n"@,
        "\tmov rax, 0x2000004\n"@,
        "\tmov rdi, 1\n"@,
        "\tsyscall\n"@,
        "\tret\n"@,
        "\n"@,
    ]
}

/// An assembly listing under construction: one string per line, each with its newline.
#[derive(Debug, Clone, PartialEq, Eq)]
pub struct Assembly {
    pub code: Vec<String>,
}

impl View for Assembly {
    type V = Seq<Seq<char>>;

    open spec fn view(&self) -> Seq<Seq<char>> {
        self.code@.map_values(|s: String| s@)
    }
}

impl Assembly {
    pub fn new() -> (r: Self)
        ensures
            r@ == Seq::<Seq<char>>::empty(),
    {
        let r = Assembly { code: Vec::new() };
        assert(r@ =~= Seq::<Seq<char>>::empty());
        r
    }

    /// Appends one finished line.
    pub(crate) fn push(&mut self, line: String)
        ensures
            final(self)@ == old(self)@.push(line@),
    {
        self.code.push(line);
        assert(self@ =~= old(self)@.push(line@));
    }

    pub fn emit_section_text(&mut self)
        ensures
            final(self)@ == old(self)@.push("section .text\n"@),
    {
        self.push(String::from_str("section .text\n"));
    }

    pub fn emit_global_main(&mut self)
        ensures
            final(self)@ == old(self)@.push("global _main\n"@),
    {
        self.push(String::from_str("global _main\n"));
    }

    pub fn emit_function_start(&mut self, name: &str)
        ensures
            final(self)@ == old(self)@.push(label_text(name@)),
    {
        self.push(concat2(name, ":\n"));
    }

    pub fn emit_mov(&mut self, dest: &str, src: &str)
        ensures
            final(self)@ == old(self)@.push(op2("\tmov "@, dest@, src@)),
    {
        self.push(concat5("\tmov ", dest, ", ", src, "\n"));
    }

    pub fn emit_push(&mut self, src: &str)
        ensures
            final(self)@ == old(self)@.push(op1("\tpush "@, src@)),
    {
        self.push(concat3("\tpush ", src, "\n"));
    }

    pub fn emit_call(&mut self, name: &str)
        ensures
            final(self)@ == old(self)@.push(op1("\tcall "@, name@)),
    {
        self.push(concat3("\tcall ", name, "\n"));
    }

    pub fn emit_syscall(&mut self)
        ensures
            final(self)@ == old(self)@.push("\tsyscall\n"@),
    {
        self.push(String::from_str("\tsyscall\n"));
    }

    pub fn emit_section_data(&mut self)
        ensures
            final(self)@ == old(self)@.push("section .data\n"@),
    {
        self.push(String::from_str("section .data\n"));
    }

    pub fn emit_global_data_section_elements(&mut self)
        ensures
            final(self)@ == old(self)@.push("global data_section_elements\n"@),
    {
        self.push(String::from_str("global data_section_elements\n"));
    }

    pub fn emit_data_section_elements(&mut self)
        ensures
            final(self)@ == old(self)@.push("data_section_elements:\n"@),
    {
        self.push(String::from_str("data_section_elements:\n"));
    }

    pub fn emit_db(&mut self, value: &str)
        ensures
            final(self)@ == old(self)@.push(db_text(value@)),
    {
        self.push(concat3("\tdb \"", value, "\", 10\n"));
    }

    pub fn emit_lea(&mut self, dest: &str, src: &str)
        ensures
            final(self)@ == old(self)@.push(op2("\tlea "@, dest@, src@)),
    {
        self.push(concat5("\tlea ", dest, ", ", src, "\n"));
    }

    /// Appends the console-output routine.
    pub fn emit_runtime_println(&mut self)
        ensures
            final(self)@ == old(self)@ + runtime_println_text(),
    {
        self.push(String::from_str("\nruntime$println:\n"));
        self.push(String::from_str("\nmov rsi, qword [rsp + 8]\n"));
        self.push(String::from_str("\tmov rdx, qword [rsp + 16]\n"));
        self.push(String::from_str("\tmov rax, 0x2000004\n"));
        self.push(String::from_str("\tmov rdi, 1\n"));
        self.push(String::from_str("\tsyscall\n"));
        self.push(String::from_str("\tret\n"));
        self.push(String::from_str("\n"));
        assert(self@ =~= old(self)@ + runtime_println_text());
    }

    pub fn emit_jge(&mut self, label: &str)
        ensures
            final(self)@ == old(self)@.push(op1("\tjge "@, label@)),
    {
        self.push(concat3("\tjge ", label, "\n"));
    }

    pub fn emit_jmp(&mut self, label: &str)
        ensures
            final(self)@ == old(self)@.push(op1("\tjmp "@, label@)),
    {
        self.push(concat3("\tjmp ", label, "\n"));
    }

    pub fn emit_line(&mut self, line: &str)
        ensures
            final(self)@ == old(self)@.push(tabbed(line@)),
    {
        self.push(concat3("\t", line, "\n"));
    }

    pub fn emit_label(&mut self, label: &str)
        ensures
            final(self)@ == old(self)@.push(label_text(label@)),
    {
        self.push(concat2(label, ":\n"));
    }

    /// The whole listing as one text.
    pub fn text(&self) -> (r: String)
        ensures
            r@ == self@.fold_left(Seq::<char>::empty(), |acc: Seq<char>, l: Seq<char>| acc + l),
    {
        let mut r = String::new();
        let mut i: usize = 0;
        while i < self.code.len()
            invariant
                i <= self@.len(),
                r@ == self@.subrange(0, i as int).fold_left(
                    Seq::<char>::empty(),
                    |acc: Seq<char>, l: Seq<char>| acc + l,
                ),
            decreases self.code.len() - i,
        {
            r.append(self.code[i].as_str());
            assert(self@.subrange(0, i + 1).drop_last() =~= self@.subrange(0, i as int));
            i = i + 1;
        }
        assert(self@.subrange(0, self@.len() as int) =~= self@);
        r
    }
}

pub(crate) fn concat2(a: &str, b: &str) -> (r: String)
    ensures
        r@ == a@ + b@,
{
    let mut r = String::from_str(a);
    r.append(b);
    r
}

pub(crate) fn concat3(a: &str, b: &str, c: &str) -> (r: String)
    ensures
        r@ == a@ + b@ + c@,
{
    let mut r = String::from_str(a);
    r.append(b);
    r.append(c);
    r
}

pub(crate) fn concat5(a: &str, b: &str, c: &str, d: &str, e: &str) -> (r: String)
    ensures
        r@ == a@ + b@ + c@ + d@ + e@,
{
    let mut r = String::from_str(a);
    r.append(b);
    r.append(c);
    r.append(d);
    r.append(e);
    r
}

} // verus!
