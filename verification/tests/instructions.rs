use codegen_x86::backend::instruction::{render_all, Instruction};
use codegen_x86::backend::label::Label;
use codegen_x86::backend::location::{constant, deref, rax, rbp, rbx, rsp};

#[test]
fn label_line_is_bare_and_not_indented() {
    assert_eq!(Instruction::Label(Label::from("main")).to_string(), "\nmain:");
    assert_eq!(Instruction::Label(Label::Generated(2)).to_string(), "\n.L2:");
}

#[test]
fn one_operand_lines() {
    assert_eq!(Instruction::Push(rbp()).to_string(), "\n\tpushq %rbp");
    assert_eq!(Instruction::Pop(rbx()).to_string(), "\n\tpopq %rbx");
    assert_eq!(Instruction::Not(rax()).to_string(), "\n\tnotq %rax");
    assert_eq!(Instruction::Neg(deref(rbp(), -8)).to_string(), "\n\tnegq -8(%rbp)");
}

#[test]
fn two_operand_lines_put_the_source_first() {
    let source = constant(3);
    let target = rax();
    assert_eq!(Instruction::Add(source, target).to_string(), "\n\taddq $3,%rax");
    assert_eq!(Instruction::Sub(source, target).to_string(), "\n\tsubq $3,%rax");
    assert_eq!(Instruction::Mul(source, target).to_string(), "\n\timulq $3,%rax");
    assert_eq!(Instruction::Xor(source, target).to_string(), "\n\txorq $3,%rax");
    assert_eq!(Instruction::Cmp(source, target).to_string(), "\n\tcmpq $3,%rax");
    assert_eq!(Instruction::Mov(source, target).to_string(), "\n\tmovq $3,%rax");
    assert_eq!(Instruction::Lea(deref(rbp(), -8), target).to_string(), "\n\tleaq -8(%rbp),%rax");
}

#[test]
fn jump_lines() {
    let target = Label::Generated(7);
    assert_eq!(Instruction::Jmp(target).to_string(), "\n\tjmp .L7");
    assert_eq!(Instruction::Je(target).to_string(), "\n\tje .L7");
    assert_eq!(Instruction::Jge(target).to_string(), "\n\tjge .L7");
    assert_eq!(Instruction::Jne(target).to_string(), "\n\tjne .L7");
}

#[test]
fn call_and_return_lines() {
    assert_eq!(Instruction::Call("print_int").to_string(), "\n\tcall print_int");
    assert_eq!(Instruction::Ret.to_string(), "\n\tret");
}

#[test]
fn operand_combinations_are_not_judged() {
    let first = deref(rbp(), -8);
    let second = deref(rbp(), -16);
    assert_eq!(Instruction::Mov(first, second).to_string(), "\n\tmovq -8(%rbp),-16(%rbp)");
    assert_eq!(Instruction::Mov(rax(), constant(1)).to_string(), "\n\tmovq %rax,$1");
}

#[test]
fn a_sequence_renders_line_after_line() {
    let lines = vec![
        Instruction::Label(Label::from("f")),
        Instruction::Mov(rsp(), rbp()),
        Instruction::Ret,
    ];
    assert_eq!(render_all(&lines), "\nf:\n\tmovq %rsp,%rbp\n\tret");
    assert_eq!(render_all(&Vec::new()), "");
}

#[test]
fn appending_an_instruction_keeps_what_was_there() {
    let mut out = String::from("\nf:");
    Instruction::Ret.append_to(&mut out);
    assert_eq!(out, "\nf:\n\tret");
}

#[test]
fn a_label_inside_a_sequence_is_set_off_by_an_empty_line() {
    let lines = vec![
        Instruction::Push(rax()),
        Instruction::Label(Label::from("block")),
        Instruction::Pop(rax()),
        Instruction::Label(Label::Generated(1)),
    ];
    assert_eq!(render_all(&lines), "\n\tpushq %rax\n\nblock:\n\tpopq %rax\n\n.L1:");
}

#[test]
fn a_label_by_itself_has_one_line_break() {
    assert_eq!(render_all(&vec![Instruction::Label(Label::from("f"))]), "\nf:");
    assert!(Instruction::Label(Label::from("f")).is_label());
    assert!(!Instruction::Ret.is_label());
}
