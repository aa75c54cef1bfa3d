//! Registers and addressing modes, and how the assembler writes them.

use crate::backend::label::Label;
use crate::text::{decimal_int, push_decimal_i64};
use vstd::prelude::*;

verus! {

/// The physical registers that the generator uses.
#[derive(Copy, Clone, Debug, PartialEq, Eq)]
pub enum Register {
    Rax,
    Rbx,
    Rcx,
    Rdx,
    Rsp,
    Rbp,
    Rsi,
    Rdi,
    R8,
    R9,
    Rip,
}

/// Where an operand lives: an immediate, a register, memory at an offset
/// from a register, or memory at a label from a register.
///
/// An immediate is never the base of a memory operand: [`deref`] and
/// [`relative`] take a register location and nothing else.
#[derive(Copy, Clone, Debug, PartialEq, Eq)]
pub enum Location {
    Constant(i64),
    Register(Register),
    Memory(Register, i64),
    Relative(Register, Label),
}

impl Register {
    /// The register's name without its sigil.
    pub open spec fn name(self) -> Seq<char> {
        match self {
            Register::Rax => "rax"@,
            Register::Rbx => "rbx"@,
            Register::Rcx => "rcx"@,
            Register::Rdx => "rdx"@,
            Register::Rsp => "rsp"@,
            Register::Rbp => "rbp"@,
            Register::Rsi => "rsi"@,
            Register::Rdi => "rdi"@,
            Register::R8 => "r8"@,
            Register::R9 => "r9"@,
            Register::Rip => "rip"@,
        }
    }

    /// The register as the assembler reads it: `%` and the name.
    pub open spec fn text(self) -> Seq<char> {
        "%"@ + self.name()
    }

    /// Appends the register's text to `out`.
    pub fn append_to(&self, out: &mut String)
        ensures
            final(out)@ == old(out)@ + self.text(),
    {
        out.append("%");
        match *self {
            Register::Rax => out.append("rax"),
            Register::Rbx => out.append("rbx"),
            Register::Rcx => out.append("rcx"),
            Register::Rdx => out.append("rdx"),
            Register::Rsp => out.append("rsp"),
            Register::Rbp => out.append("rbp"),
            Register::Rsi => out.append("rsi"),
            Register::Rdi => out.append("rdi"),
            Register::R8 => out.append("r8"),
            Register::R9 => out.append("r9"),
            Register::Rip => out.append("rip"),
        }
        assert(final(out)@ =~= old(out)@ + self.text());
    }

    /// The register's text.
    pub fn to_string(&self) -> (s: String)
        ensures
            s@ == self.text(),
    {
        let mut s = String::new();
        self.append_to(&mut s);
        assert(s@ =~= self.text());
        s
    }
}

impl Location {
    /// The operand as the assembler reads it: `$5` for an immediate, `%rax`
    /// for a register, `-8(%rbp)` for memory at an offset and `name(%rip)`
    /// for memory at a label.
    pub open spec fn text(self) -> Seq<char> {
        match self {
            Location::Constant(c) => "$"@ + decimal_int(c as int),
            Location::Register(r) => r.text(),
            Location::Memory(r, o) => decimal_int(o as int) + "("@ + r.text() + ")"@,
            Location::Relative(r, l) => l.text() + "("@ + r.text() + ")"@,
        }
    }

    /// Whether the location is a register, and so may serve as the base of
    /// a memory operand.
    pub fn is_register(&self) -> (yes: bool)
        ensures
            yes == (*self is Register),
    {
        match *self {
            Location::Register(_) => true,
            _ => false,
        }
    }

    /// Appends the operand's text to `out`.
    pub fn append_to(&self, out: &mut String)
        ensures
            final(out)@ == old(out)@ + self.text(),
    {
        match *self {
            Location::Constant(c) => {
                out.append("$");
                push_decimal_i64(out, c);
            },
            Location::Register(r) => {
                r.append_to(out);
            },
            Location::Memory(r, o) => {
                push_decimal_i64(out, o);
                out.append("(");
                r.append_to(out);
                out.append(")");
            },
            Location::Relative(r, l) => {
                l.append_to(out);
                out.append("(");
                r.append_to(out);
                out.append(")");
            },
        }
        assert(final(out)@ =~= old(out)@ + self.text());
    }

    /// The operand's text.
    pub fn to_string(&self) -> (s: String)
        ensures
            s@ == self.text(),
    {
        let mut s = String::new();
        self.append_to(&mut s);
        assert(s@ =~= self.text());
        s
    }
}

/// The register `rax` as an operand.
pub fn rax() -> (loc: Location)
    ensures
        loc == Location::Register(Register::Rax),
{
    Location::Register(Register::Rax)
}

/// The register `rbx` as an operand.
pub fn rbx() -> (loc: Location)
    ensures
        loc == Location::Register(Register::Rbx),
{
    Location::Register(Register::Rbx)
}

/// The register `rcx` as an operand.
pub fn rcx() -> (loc: Location)
    ensures
        loc == Location::Register(Register::Rcx),
{
    Location::Register(Register::Rcx)
}

/// The register `rdx` as an operand.
pub fn rdx() -> (loc: Location)
    ensures
        loc == Location::Register(Register::Rdx),
{
    Location::Register(Register::Rdx)
}

/// The stack pointer as an operand.
pub fn rsp() -> (loc: Location)
    ensures
        loc == Location::Register(Register::Rsp),
{
    Location::Register(Register::Rsp)
}

/// The base pointer as an operand.
pub fn rbp() -> (loc: Location)
    ensures
        loc == Location::Register(Register::Rbp),
{
    Location::Register(Register::Rbp)
}

/// The register `rsi` as an operand.
pub fn rsi() -> (loc: Location)
    ensures
        loc == Location::Register(Register::Rsi),
{
    Location::Register(Register::Rsi)
}

/// The register `rdi` as an operand.
pub fn rdi() -> (loc: Location)
    ensures
        loc == Location::Register(Register::Rdi),
{
    Location::Register(Register::Rdi)
}

/// The register `r8` as an operand.
pub fn r8() -> (loc: Location)
    ensures
        loc == Location::Register(Register::R8),
{
    Location::Register(Register::R8)
}

/// The register `r9` as an operand.
pub fn r9() -> (loc: Location)
    ensures
        loc == Location::Register(Register::R9),
{
    Location::Register(Register::R9)
}

/// The instruction pointer as an operand.
pub fn rip() -> (loc: Location)
    ensures
        loc == Location::Register(Register::Rip),
{
    Location::Register(Register::Rip)
}

/// The immediate `c` as an operand.
pub fn constant(c: i64) -> (loc: Location)
    ensures
        loc == Location::Constant(c),
{
    Location::Constant(c)
}

/// Memory at `offset` bytes from the register `loc`.
///
/// Only a register can be a base: a caller that holds any other location
/// has nothing to call this with.
pub fn deref(loc: Location, offset: i64) -> (mem: Location)
    requires
        loc is Register,
    ensures
        mem == Location::Memory(loc->Register_0, offset),
{
    match loc {
        Location::Register(reg) => Location::Memory(reg, offset),
        _ => vstd::pervasive::unreached(),
    }
}

/// Memory at `label` from the register `loc`.
///
/// Only a register can be a base: a caller that holds any other location
/// has nothing to call this with.
pub fn relative(loc: Location, label: Label) -> (mem: Location)
    requires
        loc is Register,
    ensures
        mem == Location::Relative(loc->Register_0, label),
{
    match loc {
        Location::Register(reg) => Location::Relative(reg, label),
        _ => vstd::pervasive::unreached(),
    }
}

} // verus!
