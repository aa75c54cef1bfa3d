//! The closed set of instructions and the line that each one renders to.

use crate::backend::label::Label;
use crate::backend::location::Location;
use vstd::prelude::*;

verus! {

/// One emittable operation. Two-operand forms hold the source first and the
/// destination second.
///
/// Nothing here judges whether the operands suit the operation: two memory
/// operands, or an immediate as a destination, pass through to the text as
/// they are.
#[derive(Copy, Clone, Debug, PartialEq, Eq)]
pub enum Instruction {
    Label(Label),
    Push(Location),
    Pop(Location),
    Not(Location),
    Neg(Location),
    Add(Location, Location),
    Sub(Location, Location),
    Mul(Location, Location),
    Xor(Location, Location),
    Cmp(Location, Location),
    Jmp(Label),
    Je(Label),
    Jge(Label),
    Jne(Label),
    Mov(Location, Location),
    Lea(Location, Location),
    Call(&'static str),
    Ret,
}

/// An instruction line: a line break, a tab, the mnemonic, a blank and the
/// operands.
pub open spec fn line(mnemonic: Seq<char>, operands: Seq<char>) -> Seq<char> {
    "\n\t"@ + mnemonic + " "@ + operands
}

/// The operands of a two-operand instruction: source, comma, destination.
pub open spec fn two(source: Location, target: Location) -> Seq<char> {
    source.text() + ","@ + target.text()
}

impl Instruction {
    /// The text of the instruction by itself: exactly one line, opened by
    /// its line break. A label line is the bare name and a colon, without a
    /// tab; every other line is indented by a tab.
    pub open spec fn text(self) -> Seq<char> {
        match self {
            Instruction::Label(label) => "\n"@ + label.text() + ":"@,
            Instruction::Push(loc) => line("pushq"@, loc.text()),
            Instruction::Pop(loc) => line("popq"@, loc.text()),
            Instruction::Not(loc) => line("notq"@, loc.text()),
            Instruction::Neg(loc) => line("negq"@, loc.text()),
            Instruction::Add(source, target) => line("addq"@, two(source, target)),
            Instruction::Sub(source, target) => line("subq"@, two(source, target)),
            Instruction::Mul(source, target) => line("imulq"@, two(source, target)),
            Instruction::Xor(source, target) => line("xorq"@, two(source, target)),
            Instruction::Cmp(source, target) => line("cmpq"@, two(source, target)),
            Instruction::Jmp(label) => line("jmp"@, label.text()),
            Instruction::Je(label) => line("je"@, label.text()),
            Instruction::Jge(label) => line("jge"@, label.text()),
            Instruction::Jne(label) => line("jne"@, label.text()),
            Instruction::Mov(source, target) => line("movq"@, two(source, target)),
            Instruction::Lea(source, target) => line("leaq"@, two(source, target)),
            Instruction::Call(name) => line("call"@, name@),
            Instruction::Ret => "\n\tret"@,
        }
    }

    /// The instruction's line as it stands in a text. A label that follows
    /// another line has an empty line before it; a label at the head of the
    /// text, and every other instruction anywhere, is the line by itself.
    pub open spec fn text_in(self, at_head: bool) -> Seq<char> {
        if self is Label && !at_head {
            "\n"@ + self.text()
        } else {
            self.text()
        }
    }

    /// Whether the instruction is a label line.
    pub fn is_label(&self) -> (yes: bool)
        ensures
            yes == (*self is Label),
    {
        match *self {
            Instruction::Label(_) => true,
            _ => false,
        }
    }

    /// Appends the instruction's line to `out`.
    pub fn append_to(&self, out: &mut String)
        ensures
            final(out)@ == old(out)@ + self.text(),
    {
        match *self {
            Instruction::Label(label) => {
                out.append("\n");
                label.append_to(out);
                out.append(":");
                assert(final(out)@ =~= old(out)@ + self.text());
            },
            Instruction::Push(loc) => append_one(out, "pushq", loc),
            Instruction::Pop(loc) => append_one(out, "popq", loc),
            Instruction::Not(loc) => append_one(out, "notq", loc),
            Instruction::Neg(loc) => append_one(out, "negq", loc),
            Instruction::Add(source, target) => append_two(out, "addq", source, target),
            Instruction::Sub(source, target) => append_two(out, "subq", source, target),
            Instruction::Mul(source, target) => append_two(out, "imulq", source, target),
            Instruction::Xor(source, target) => append_two(out, "xorq", source, target),
            Instruction::Cmp(source, target) => append_two(out, "cmpq", source, target),
            Instruction::Jmp(label) => append_jump(out, "jmp", label),
            Instruction::Je(label) => append_jump(out, "je", label),
            Instruction::Jge(label) => append_jump(out, "jge", label),
            Instruction::Jne(label) => append_jump(out, "jne", label),
            Instruction::Mov(source, target) => append_two(out, "movq", source, target),
            Instruction::Lea(source, target) => append_two(out, "leaq", source, target),
            Instruction::Call(name) => {
                append_mnemonic(out, "call");
                out.append(name);
                assert(final(out)@ =~= old(out)@ + self.text());
            },
            Instruction::Ret => {
                out.append("\n\tret");
            },
        }
    }

    /// The instruction's line.
    pub fn to_string(&self) -> (s: String)
        ensures
            s@ == self.text(),
    {
        let mut s = String::new();
        self.append_to(&mut s);
        assert(s@ =~= self.text());
        s
    }
}

/// The text of a run of instructions inside a text: their lines in order.
/// `opens` says whether the run stands at the head of the text. A label
/// line that follows another line is set off from it by an empty line, so
/// that blocks and functions stand apart; a label at the head of the text
/// has no line to be set off from.
pub open spec fn render_part(instructions: Seq<Instruction>, opens: bool) -> Seq<char>
    decreases instructions.len(),
{
    if instructions.len() == 0 {
        Seq::empty()
    } else {
        render_part(instructions.drop_last(), opens) + instructions.last().text_in(
            opens && instructions.len() == 1,
        )
    }
}

/// The text of an instruction sequence: the lines of its instructions in
/// the order of the sequence, with an empty line before every label but
/// one that comes first.
pub open spec fn render(instructions: Seq<Instruction>) -> Seq<char> {
    render_part(instructions, true)
}

/// The text of two runs laid end to end is the text of the first followed
/// by the text of the second, which opens the text only where the first is
/// empty.
pub proof fn lemma_render_concat(first: Seq<Instruction>, second: Seq<Instruction>, opens: bool)
    ensures
        render_part(first + second, opens) == render_part(first, opens) + render_part(
            second,
            opens && first.len() == 0,
        ),
    decreases second.len(),
{
    let later = opens && first.len() == 0;
    if second.len() == 0 {
        assert(first + second =~= first);
        assert(render_part(first, opens) + render_part(second, later) =~= render_part(
            first,
            opens,
        ));
    } else {
        lemma_render_concat(first, second.drop_last(), opens);
        assert((first + second).drop_last() =~= first + second.drop_last());
        assert((first + second).last() == second.last());
        assert(render_part(first + second, opens) =~= render_part(first, opens) + render_part(
            second,
            later,
        ));
    }
}

/// The text of a run of one instruction is that instruction's line.
pub proof fn lemma_render_one(instruction: Instruction, opens: bool)
    ensures
        render_part(seq![instruction], opens) == instruction.text_in(opens),
{
    let single = seq![instruction];
    assert(single.drop_last() =~= Seq::<Instruction>::empty());
    assert(render_part(single.drop_last(), opens) =~= Seq::<char>::empty());
    assert(single.last() == instruction);
    assert(render_part(single, opens) =~= instruction.text_in(opens));
}

/// In a rendered text, a label that follows another line has an empty line
/// before it: the line break that ends the line before, the line break of
/// the empty line, then the name.
pub proof fn lemma_label_set_off(before: Seq<Instruction>, label: Label, after: Seq<Instruction>)
    requires
        before.len() > 0,
    ensures
        render(before + seq![Instruction::Label(label)] + after) == render(before) + "\n"@ + "\n"@
            + label.text() + ":"@ + render_part(after, false),
{
    let line = Instruction::Label(label);
    lemma_render_concat(before + seq![line], after, true);
    lemma_render_concat(before, seq![line], true);
    lemma_render_one(line, false);
    assert(render(before) + ("\n"@ + ("\n"@ + label.text() + ":"@)) =~= render(before) + "\n"@
        + "\n"@ + label.text() + ":"@);
}

/// Renders a sequence of instructions to text, with an empty line before
/// every label that follows another line.
pub fn render_all(instructions: &Vec<Instruction>) -> (out: String)
    ensures
        out@ == render(instructions@),
{
    let mut out = String::new();
    let mut i: usize = 0;
    while i < instructions.len()
        invariant
            i <= instructions.len(),
            out@ == render(instructions@.take(i as int)),
        decreases instructions.len() - i,
    {
        let ghost before = out@;
        if i > 0 && instructions[i].is_label() {
            out.append("\n");
        }
        instructions[i].append_to(&mut out);
        proof {
            let upto = instructions@.take(i + 1);
            assert(upto.drop_last() =~= instructions@.take(i as int));
            assert(upto.last() == instructions@[i as int]);
            assert(out@ =~= before + instructions@[i as int].text_in(i == 0));
        }
        i = i + 1;
    }
    assert(instructions@.take(i as int) =~= instructions@);
    out
}

/// Opens an instruction line: line break, tab, mnemonic, blank.
fn append_mnemonic(out: &mut String, mnemonic: &str)
    ensures
        final(out)@ == old(out)@ + line(mnemonic@, Seq::empty()),
{
    out.append("\n\t");
    out.append(mnemonic);
    out.append(" ");
    assert(final(out)@ =~= old(out)@ + line(mnemonic@, Seq::empty()));
}

/// Appends the line of a one-operand instruction.
fn append_one(out: &mut String, mnemonic: &str, loc: Location)
    ensures
        final(out)@ == old(out)@ + line(mnemonic@, loc.text()),
{
    append_mnemonic(out, mnemonic);
    loc.append_to(out);
    assert(final(out)@ =~= old(out)@ + line(mnemonic@, loc.text()));
}

/// Appends the line of a two-operand instruction.
fn append_two(out: &mut String, mnemonic: &str, source: Location, target: Location)
    ensures
        final(out)@ == old(out)@ + line(mnemonic@, two(source, target)),
{
    append_mnemonic(out, mnemonic);
    source.append_to(out);
    out.append(",");
    target.append_to(out);
    assert(final(out)@ =~= old(out)@ + line(mnemonic@, two(source, target)));
}

/// Appends the line of a jump.
fn append_jump(out: &mut String, mnemonic: &str, label: Label)
    ensures
        final(out)@ == old(out)@ + line(mnemonic@, label.text()),
{
    append_mnemonic(out, mnemonic);
    label.append_to(out);
    assert(final(out)@ =~= old(out)@ + line(mnemonic@, label.text()));
}

} // verus!
