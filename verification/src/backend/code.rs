//! The builder for one function: it collects the body, binds variables to
//! stack slots, and on finalization wraps the body in the frame set-up that
//! only the finished body can size.

use crate::backend::instruction::{
    lemma_render_concat, lemma_render_one, render, render_all, render_part, Instruction,
};
use crate::backend::label::Label;
use crate::backend::location::{constant, rbp, rbx, rsp, Location, Register};
use vstd::prelude::*;

verus! {

/// The stack slot of the binding at position `k`, counting from zero: eight
/// bytes further below the base pointer with each binding.
pub open spec fn slot(k: nat) -> Location {
    Location::Memory(Register::Rbp, (-8 * (k + 1)) as i64)
}

/// The most bytes that a frame can hold: the byte count is kept in a
/// `usize` and written into the text as a signed 64-bit immediate.
pub open spec fn max_frame() -> int {
    if usize::MAX < i64::MAX {
        usize::MAX as int
    } else {
        i64::MAX as int
    }
}

/// What a builder holds, as plain mathematics.
pub struct CodeModel {
    /// The label at which the function is entered.
    pub entry: Label,
    /// The bindings in the order in which they were made.
    pub bindings: Seq<(Seq<char>, Location)>,
    /// The bytes reserved for the bindings so far.
    pub allocated: nat,
    /// The instructions appended so far, in the order of the calls.
    pub body: Seq<Instruction>,
}

impl CodeModel {
    /// A builder that has bound and appended nothing.
    pub open spec fn fresh(entry: Label) -> CodeModel {
        CodeModel { entry, bindings: Seq::empty(), allocated: 0, body: Seq::empty() }
    }

    /// The builder after one more instruction.
    pub open spec fn emit(self, instruction: Instruction) -> CodeModel {
        CodeModel { body: self.body.push(instruction), ..self }
    }

    /// The builder after one more binding: 8 bytes more are reserved, and
    /// the binding lies that many bytes below the base pointer.
    pub open spec fn bind(self, name: Seq<char>) -> CodeModel {
        CodeModel {
            bindings: self.bindings.push(
                (name, Location::Memory(Register::Rbp, (-(self.allocated + 8)) as i64)),
            ),
            allocated: self.allocated + 8,
            ..self
        }
    }

    /// Each binding has reserved exactly 8 bytes and sits in the slot of
    /// its position, and the frame is small enough to be written as an
    /// immediate.
    pub open spec fn wf(self) -> bool {
        &&& self.allocated == 8 * self.bindings.len()
        &&& self.allocated <= max_frame()
        &&& forall|k: int|
            0 <= k < self.bindings.len() ==> (#[trigger] self.bindings[k]).1 == slot(k as nat)
    }

    /// The location bound to `name`: that of the latest binding of the
    /// name, which hides the earlier ones; `None` where it was never bound.
    pub open spec fn lookup(self, name: Seq<char>) -> Option<Location> {
        lookup(self.bindings, name)
    }

    /// The instructions that set the frame up: the entry label, the saved
    /// base pointer, the new base pointer and, where anything was reserved,
    /// the one instruction that takes the frame from the stack.
    pub open spec fn prologue(self) -> Seq<Instruction> {
        let setup = seq![
            Instruction::Label(self.entry),
            Instruction::Push(Location::Register(Register::Rbp)),
            Instruction::Mov(Location::Register(Register::Rsp), Location::Register(Register::Rbp)),
        ];
        if self.allocated > 0 {
            setup.push(
                Instruction::Sub(
                    Location::Constant(self.allocated as i64),
                    Location::Register(Register::Rsp),
                ),
            )
        } else {
            setup
        }
    }

    /// The instructions that give the frame back and return.
    pub open spec fn epilogue() -> Seq<Instruction> {
        seq![
            Instruction::Mov(Location::Register(Register::Rbp), Location::Register(Register::Rsp)),
            Instruction::Pop(Location::Register(Register::Rbx)),
            Instruction::Ret,
        ]
    }

    /// The whole function: set-up, body, tear-down.
    pub open spec fn finalized(self) -> Seq<Instruction> {
        self.prologue() + self.body + Self::epilogue()
    }
}

/// The location of the latest binding of `name` among `bindings`.
pub open spec fn lookup(bindings: Seq<(Seq<char>, Location)>, name: Seq<char>) -> Option<Location>
    decreases bindings.len(),
{
    if bindings.len() == 0 {
        None
    } else if bindings.last().0 == name {
        Some(bindings.last().1)
    } else {
        lookup(bindings.drop_last(), name)
    }
}

/// The bindings of an environment with each name as plain text.
pub open spec fn bindings_of(env: Seq<(String, Location)>) -> Seq<(Seq<char>, Location)> {
    env.map_values(|binding: (String, Location)| (binding.0@, binding.1))
}

/// The text of one finished function. Nothing can be appended to it.
pub struct GeneratedCode(String);

impl View for GeneratedCode {
    type V = Seq<char>;

    closed spec fn view(&self) -> Seq<char> {
        self.0@
    }
}

impl GeneratedCode {
    /// The text.
    pub fn to_string(&self) -> (s: String)
        ensures
            s@ == self@,
    {
        self.0.clone()
    }

    /// The text, borrowed.
    pub fn as_str(&self) -> (s: &str)
        ensures
            s@ == self@,
    {
        self.0.as_str()
    }
}

/// The builder for one function.
pub struct Code {
    label: Label,
    env: Vec<(String, Location)>,
    allocated: usize,
    lines: Vec<Instruction>,
}

impl View for Code {
    type V = CodeModel;

    closed spec fn view(&self) -> CodeModel {
        CodeModel {
            entry: self.label,
            bindings: bindings_of(self.env@),
            allocated: self.allocated as nat,
            body: self.lines@,
        }
    }
}

impl Code {
    /// A builder for the function entered at `label`.
    pub fn new(label: Label) -> (code: Code)
        ensures
            code@ == CodeModel::fresh(label),
            code@.wf(),
    {
        let code = Code { label: label, env: Vec::new(), allocated: 0, lines: Vec::new() };
        assert(code@.bindings =~= Seq::empty());
        code
    }

    /// Appends one instruction.
    fn emit(self, instruction: Instruction) -> (code: Code)
        ensures
            code@ == self@.emit(instruction),
    {
        let mut code = self;
        code.lines.push(instruction);
        code
    }

    /// Binds `v` to the next stack slot and returns the slot: the first
    /// binding lies 8 bytes below the base pointer, each later one 8 bytes
    /// below the one before.
    ///
    /// The frame must have room for 8 bytes more, which
    /// [`Code::can_allocate`] tells.
    pub fn allocate(&mut self, v: String) -> (loc: Location)
        requires
            old(self)@.allocated + 8 <= max_frame(),
        ensures
            final(self)@ == old(self)@.bind(v@),
            loc matches Location::Memory(base, offset) && base == Register::Rbp && offset == -(
            old(self)@.allocated + 8),
            old(self)@.wf() ==> final(self)@.wf() && loc == slot(old(self)@.bindings.len()),
    {
        self.allocated = self.allocated + 8;
        let loc = Location::Memory(Register::Rbp, -(self.allocated as i64));
        self.env.push((v, loc));
        proof {
            assert(final(self)@.bindings =~= old(self)@.bind(v@).bindings);
        }
        loc
    }

    /// Appends a label line.
    pub fn label(self, label: Label) -> (code: Code)
        ensures
            code@ == self@.emit(Instruction::Label(label)),
    {
        self.emit(Instruction::Label(label))
    }

    /// Appends a push of `loc`.
    pub fn push(self, loc: Location) -> (code: Code)
        ensures
            code@ == self@.emit(Instruction::Push(loc)),
    {
        self.emit(Instruction::Push(loc))
    }

    /// Appends a pop into `loc`.
    pub fn pop(self, loc: Location) -> (code: Code)
        ensures
            code@ == self@.emit(Instruction::Pop(loc)),
    {
        self.emit(Instruction::Pop(loc))
    }

    /// Appends a move from `source` to `target`.
    pub fn mov(self, source: Location, target: Location) -> (code: Code)
        ensures
            code@ == self@.emit(Instruction::Mov(source, target)),
    {
        self.emit(Instruction::Mov(source, target))
    }

    /// Appends a load of the address of `source` into `target`.
    pub fn lea(self, source: Location, target: Location) -> (code: Code)
        ensures
            code@ == self@.emit(Instruction::Lea(source, target)),
    {
        self.emit(Instruction::Lea(source, target))
    }

    /// Appends a bitwise complement of `loc`.
    pub fn not(self, loc: Location) -> (code: Code)
        ensures
            code@ == self@.emit(Instruction::Not(loc)),
    {
        self.emit(Instruction::Not(loc))
    }

    /// Appends a negation of `loc`.
    pub fn neg(self, loc: Location) -> (code: Code)
        ensures
            code@ == self@.emit(Instruction::Neg(loc)),
    {
        self.emit(Instruction::Neg(loc))
    }

    /// Appends an addition of `source` to `target`.
    pub fn add(self, source: Location, target: Location) -> (code: Code)
        ensures
            code@ == self@.emit(Instruction::Add(source, target)),
    {
        self.emit(Instruction::Add(source, target))
    }

    /// Appends a subtraction of `source` from `target`.
    pub fn sub(self, source: Location, target: Location) -> (code: Code)
        ensures
            code@ == self@.emit(Instruction::Sub(source, target)),
    {
        self.emit(Instruction::Sub(source, target))
    }

    /// Appends a signed multiplication of `target` by `source`.
    pub fn mul(self, source: Location, target: Location) -> (code: Code)
        ensures
            code@ == self@.emit(Instruction::Mul(source, target)),
    {
        self.emit(Instruction::Mul(source, target))
    }

    /// Appends an exclusive or of `source` into `target`.
    pub fn xor(self, source: Location, target: Location) -> (code: Code)
        ensures
            code@ == self@.emit(Instruction::Xor(source, target)),
    {
        self.emit(Instruction::Xor(source, target))
    }

    /// Appends a comparison of `target` with `source`.
    pub fn cmp(self, source: Location, target: Location) -> (code: Code)
        ensures
            code@ == self@.emit(Instruction::Cmp(source, target)),
    {
        self.emit(Instruction::Cmp(source, target))
    }

    /// Appends a jump to `label`.
    pub fn jmp(self, label: Label) -> (code: Code)
        ensures
            code@ == self@.emit(Instruction::Jmp(label)),
    {
        self.emit(Instruction::Jmp(label))
    }

    /// Appends a jump to `label` taken on equal.
    pub fn je(self, label: Label) -> (code: Code)
        ensures
            code@ == self@.emit(Instruction::Je(label)),
    {
        self.emit(Instruction::Je(label))
    }

    /// Appends a jump to `label` taken on greater or equal.
    pub fn jge(self, label: Label) -> (code: Code)
        ensures
            code@ == self@.emit(Instruction::Jge(label)),
    {
        self.emit(Instruction::Jge(label))
    }

    /// Appends a jump to `label` taken on not equal.
    pub fn jne(self, label: Label) -> (code: Code)
        ensures
            code@ == self@.emit(Instruction::Jne(label)),
    {
        self.emit(Instruction::Jne(label))
    }

    /// Appends a call of the symbol `name`.
    pub fn call(self, name: &'static str) -> (code: Code)
        ensures
            code@ == self@.emit(Instruction::Call(name)),
    {
        self.emit(Instruction::Call(name))
    }

    /// Finalizes the function and renders it.
    ///
    /// The frame can be sized only now, when every binding has been made,
    /// so the set-up is put in front of the body here: the entry label, the
    /// saved and the new base pointer, and the reservation where anything
    /// was bound. The body keeps its order; the tear-down and the return
    /// follow it. In the text an empty line stands before every label of
    /// the body; the entry label opens the text. The builder is used up:
    /// nothing can be appended to the text that comes out.
    pub fn ret(self) -> (generated: GeneratedCode)
        ensures
            generated@ == render(self@.finalized()),
    {
        let mut code = self.mov(rbp(), rsp()).pop(rbx());
        if code.allocated > 0 {
            code.lines.insert(0, Instruction::Sub(constant(code.allocated as i64), rsp()));
        }
        code.lines.insert(0, Instruction::Mov(rsp(), rbp()));
        code.lines.insert(0, Instruction::Push(rbp()));
        code.lines.insert(0, Instruction::Label(code.label));
        code.lines.push(Instruction::Ret);
        assert(code.lines@ =~= self@.finalized());
        GeneratedCode(render_all(&code.lines))
    }

    /// Whether one more binding fits in the frame.
    pub fn can_allocate(&self) -> (fits: bool)
        ensures
            fits == (self@.allocated + 8 <= max_frame()),
    {
        self.allocated <= usize::MAX - 8 && self.allocated as u64 <= (i64::MAX as u64) - 8
    }

    /// The bindings, oldest first.
    pub fn get_env(&self) -> (env: &Vec<(String, Location)>)
        ensures
            bindings_of(env@) == self@.bindings,
    {
        &self.env
    }

    /// The location bound to `v`, if it is bound: the latest binding of the
    /// name hides the earlier ones.
    pub fn find(&self, v: &String) -> (found: Option<Location>)
        ensures
            found == self@.lookup(v@),
    {
        let mut i: usize = self.env.len();
        assert(self@.bindings.take(i as int) =~= self@.bindings);
        while i > 0
            invariant
                i <= self.env.len(),
                self@.lookup(v@) == lookup(self@.bindings.take(i as int), v@),
            decreases i,
        {
            i = i - 1;
            proof {
                let upto = self@.bindings.take(i + 1);
                assert(upto.drop_last() =~= self@.bindings.take(i as int));
                assert(upto.last() == self@.bindings[i as int]);
            }
            if self.env[i].0 == *v {
                return Some(self.env[i].1);
            }
        }
        None
    }

    /// The location bound to `v`.
    ///
    /// The name must be bound: name resolution has seen to that before code
    /// is generated, and a caller that cannot tell asks [`Code::find`].
    pub fn get(&self, v: String) -> (loc: Location)
        requires
            self@.lookup(v@) is Some,
        ensures
            self@.lookup(v@) == Some(loc),
    {
        match self.find(&v) {
            Some(loc) => loc,
            None => vstd::pervasive::unreached(),
        }
    }

    /// The text of the body as it stands, without set-up or tear-down: a
    /// text of its own, whose first line has nothing before it.
    pub fn to_string(&self) -> (s: String)
        ensures
            s@ == render(self@.body),
    {
        render_all(&self.lines)
    }
}

/// Shadowing: a name looked up right after it was bound gives the new
/// location, whatever was bound to it before.
pub proof fn lemma_lookup_latest(
    bindings: Seq<(Seq<char>, Location)>,
    name: Seq<char>,
    loc: Location,
)
    ensures
        lookup(bindings.push((name, loc)), name) == Some(loc),
{
    assert(bindings.push((name, loc)).last() == (name, loc));
}

/// A binding leaves every other name as it was.
pub proof fn lemma_lookup_other(
    bindings: Seq<(Seq<char>, Location)>,
    name: Seq<char>,
    loc: Location,
    other: Seq<char>,
)
    requires
        other != name,
    ensures
        lookup(bindings.push((name, loc)), other) == lookup(bindings, other),
{
    let pushed = bindings.push((name, loc));
    assert(pushed.last() == (name, loc));
    assert(pushed.drop_last() =~= bindings);
}

/// A lookup finds nothing exactly where the name was never bound, and what
/// it finds is the binding of the name that no later binding of it follows.
pub proof fn lemma_lookup_newest_first(bindings: Seq<(Seq<char>, Location)>, name: Seq<char>)
    ensures
        lookup(bindings, name) is None <==> forall|k: int|
            0 <= k < bindings.len() ==> (#[trigger] bindings[k]).0 != name,
        lookup(bindings, name) matches Some(loc) ==> exists|k: int|
            0 <= k < bindings.len() && #[trigger] bindings[k] == (name, loc) && forall|later: int|
                k < later < bindings.len() ==> (#[trigger] bindings[later]).0 != name,
    decreases bindings.len(),
{
    if bindings.len() > 0 {
        let earlier = bindings.drop_last();
        let last = bindings.len() - 1;
        lemma_lookup_newest_first(earlier, name);
        assert(forall|k: int| 0 <= k < earlier.len() ==> earlier[k] == bindings[k]);
        if bindings.last().0 == name {
            assert(bindings[last].0 == name);
            assert(bindings[last] == (name, bindings.last().1));
        } else {
            if lookup(earlier, name) is None {
                assert forall|k: int| 0 <= k < bindings.len() implies (#[trigger] bindings[k]).0
                    != name by {
                    if k < last {
                        assert(earlier[k].0 != name);
                    }
                }
            } else {
                let loc = lookup(earlier, name)->0;
                let k = choose|k: int|
                    0 <= k < earlier.len() && #[trigger] earlier[k] == (name, loc) && forall|
                        later: int,
                    |
                        k < later < earlier.len() ==> (#[trigger] earlier[later]).0 != name;
                assert(bindings[k] == (name, loc));
                assert forall|later: int| k < later < bindings.len() implies (
                #[trigger] bindings[later]).0 != name by {
                    if later < last {
                        assert(earlier[later].0 != name);
                    }
                }
            }
        }
    }
}

impl CodeModel {
    /// A builder starts out well formed.
    pub proof fn lemma_fresh_wf(entry: Label)
        ensures
            Self::fresh(entry).wf(),
    {
    }

    /// Appending an instruction touches neither the bindings nor the frame.
    pub proof fn lemma_emit_wf(self, instruction: Instruction)
        requires
            self.wf(),
        ensures
            self.emit(instruction).wf(),
    {
    }

    /// A binding keeps the builder well formed as long as the frame has
    /// room for it, and takes the slot after the last one.
    pub proof fn lemma_bind_wf(self, name: Seq<char>)
        requires
            self.wf(),
            self.allocated + 8 <= max_frame(),
        ensures
            self.bind(name).wf(),
            self.bind(name).bindings.last() == (name, slot(self.bindings.len())),
            self.bind(name).lookup(name) == Some(slot(self.bindings.len())),
    {
        let bound = self.bind(name);
        assert(bound.bindings.last().1 == slot(self.bindings.len()));
        assert forall|k: int| 0 <= k < bound.bindings.len() implies (#[trigger] bound.bindings[k]).1
            == slot(k as nat) by {
            if k < self.bindings.len() {
                assert(bound.bindings[k] == self.bindings[k]);
            }
        }
    }

    /// Slot spacing: binding number `k`, counting from one, lies exactly
    /// `8 * k` bytes below the base pointer.
    pub proof fn lemma_slot_spacing(self, k: int)
        requires
            self.wf(),
            1 <= k <= self.bindings.len(),
        ensures
            self.bindings[k - 1].1 matches Location::Memory(base, offset) && base == Register::Rbp
                && offset == -8 * k,
    {
        assert(self.bindings[k - 1].1 == slot((k - 1) as nat));
    }

    /// The reservation goes by the frame. With nothing bound, finalization
    /// puts no reservation in: the body follows the three lines of set-up
    /// directly. With bindings it puts in exactly one, which takes 8 bytes
    /// for each of them from the stack pointer and stands right after the
    /// set-up and right before the body.
    pub proof fn lemma_reservation(self)
        requires
            self.wf(),
        ensures
            self.bindings.len() == 0 ==> self.finalized() == seq![
                Instruction::Label(self.entry),
                Instruction::Push(Location::Register(Register::Rbp)),
                Instruction::Mov(
                    Location::Register(Register::Rsp),
                    Location::Register(Register::Rbp),
                ),
            ] + self.body + Self::epilogue(),
            self.bindings.len() > 0 ==> self.finalized() == seq![
                Instruction::Label(self.entry),
                Instruction::Push(Location::Register(Register::Rbp)),
                Instruction::Mov(
                    Location::Register(Register::Rsp),
                    Location::Register(Register::Rbp),
                ),
                Instruction::Sub(
                    Location::Constant((8 * self.bindings.len()) as i64),
                    Location::Register(Register::Rsp),
                ),
            ] + self.body + Self::epilogue(),
            8 * self.bindings.len() <= i64::MAX,
    {
        if self.bindings.len() == 0 {
            assert(self.prologue() =~= seq![
                Instruction::Label(self.entry),
                Instruction::Push(Location::Register(Register::Rbp)),
                Instruction::Mov(
                    Location::Register(Register::Rsp),
                    Location::Register(Register::Rbp),
                ),
            ]);
        } else {
            assert(self.prologue() =~= seq![
                Instruction::Label(self.entry),
                Instruction::Push(Location::Register(Register::Rbp)),
                Instruction::Mov(
                    Location::Register(Register::Rsp),
                    Location::Register(Register::Rbp),
                ),
                Instruction::Sub(
                    Location::Constant((8 * self.bindings.len()) as i64),
                    Location::Register(Register::Rsp),
                ),
            ]);
        }
    }

    /// Bracketing: finalization puts the set-up before the body and the
    /// tear-down after it, and leaves every appended instruction where the
    /// calls put it, next to its neighbours. In the text the body follows
    /// the set-up, so a label in it has its empty line even where it comes
    /// first in the body.
    pub proof fn lemma_bracketing(self)
        ensures
            forall|k: int|
                0 <= k < self.prologue().len() ==> #[trigger] self.finalized()[k]
                    == self.prologue()[k],
            forall|k: int|
                0 <= k < self.body.len() ==> #[trigger] self.finalized()[self.prologue().len() + k]
                    == self.body[k],
            forall|k: int|
                0 <= k < 3 ==> #[trigger] self.finalized()[self.prologue().len() + self.body.len()
                    + k] == Self::epilogue()[k],
            render(self.finalized()) == render(self.prologue()) + render_part(self.body, false)
                + render_part(Self::epilogue(), false),
    {
        lemma_render_concat(self.prologue(), self.body, true);
        lemma_render_concat(self.prologue() + self.body, Self::epilogue(), true);
    }

    /// The text of the set-up and of the tear-down, line by line. The entry
    /// label opens the text, so no empty line stands before it.
    pub proof fn lemma_frame_text(self)
        ensures
            render(self.prologue()) == Instruction::Label(self.entry).text() + Instruction::Push(
                Location::Register(Register::Rbp),
            ).text() + Instruction::Mov(
                Location::Register(Register::Rsp),
                Location::Register(Register::Rbp),
            ).text() + (if self.allocated > 0 {
                Instruction::Sub(
                    Location::Constant(self.allocated as i64),
                    Location::Register(Register::Rsp),
                ).text()
            } else {
                Seq::empty()
            }),
            render_part(Self::epilogue(), false) == Instruction::Mov(
                Location::Register(Register::Rbp),
                Location::Register(Register::Rsp),
            ).text() + Instruction::Pop(Location::Register(Register::Rbx)).text()
                + Instruction::Ret.text(),
    {
        let label = Instruction::Label(self.entry);
        let save = Instruction::Push(Location::Register(Register::Rbp));
        let base = Instruction::Mov(
            Location::Register(Register::Rsp),
            Location::Register(Register::Rbp),
        );
        let reserve = Instruction::Sub(
            Location::Constant(self.allocated as i64),
            Location::Register(Register::Rsp),
        );
        let restore = Instruction::Mov(
            Location::Register(Register::Rbp),
            Location::Register(Register::Rsp),
        );
        let pop = Instruction::Pop(Location::Register(Register::Rbx));
        lemma_render_three(label, save, base, true);
        lemma_render_three(restore, pop, Instruction::Ret, false);
        if self.allocated > 0 {
            lemma_render_concat(seq![label, save, base], seq![reserve], true);
            lemma_render_one(reserve, false);
            assert(self.prologue() =~= seq![label, save, base] + seq![reserve]);
        } else {
            assert(render(seq![label, save, base]) + Seq::<char>::empty() =~= render(
                seq![label, save, base],
            ));
        }
    }
}

/// The text of a run of three instructions of which at most the first is a
/// label that opens the text: their three lines in order.
proof fn lemma_render_three(
    first: Instruction,
    second: Instruction,
    third: Instruction,
    opens: bool,
)
    requires
        first is Label ==> opens,
        !(second is Label),
        !(third is Label),
    ensures
        render_part(seq![first, second, third], opens) == first.text() + second.text()
            + third.text(),
{
    lemma_render_one(first, opens);
    lemma_render_one(second, false);
    lemma_render_one(third, false);
    lemma_render_concat(seq![first], seq![second], opens);
    lemma_render_concat(seq![first] + seq![second], seq![third], opens);
    assert(seq![first, second, third] =~= seq![first] + seq![second] + seq![third]);
}

} // verus!
