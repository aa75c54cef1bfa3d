use codegen_x86::backend::code::Code;
use codegen_x86::backend::label::{Label, LabelAllocator};
use codegen_x86::backend::location::{constant, deref, rax, rbp, rbx, rcx, rdi, rip, relative};

const TEARDOWN: &str = "\n\tmovq %rbp,%rsp\n\tpopq %rbx\n\tret";

#[test]
fn empty_body_renders_setup_and_teardown_only() {
    let code = Code::new(Label::from("main"));
    let text = code.ret().to_string();
    assert_eq!(
        text,
        "\nmain:\n\tpushq %rbp\n\tmovq %rsp,%rbp\n\tmovq %rbp,%rsp\n\tpopq %rbx\n\tret"
    );
}

#[test]
fn two_locals_and_an_addition() {
    let mut code = Code::new(Label::from("main"));
    let x = code.allocate(String::from("x"));
    let y = code.allocate(String::from("y"));
    let text = code.add(x, y).ret().to_string();
    assert_eq!(
        text,
        "\nmain:\n\tpushq %rbp\n\tmovq %rsp,%rbp\n\tsubq $16,%rsp\n\taddq -8(%rbp),-16(%rbp)\n\tmovq %rbp,%rsp\n\tpopq %rbx\n\tret"
    );
}

#[test]
fn no_reservation_without_bindings() {
    let text = Code::new(Label::from("f")).mov(constant(1), rax()).ret().to_string();
    assert!(!text.contains("subq"));
    assert_eq!(
        text,
        format!("\nf:\n\tpushq %rbp\n\tmovq %rsp,%rbp\n\tmovq $1,%rax{}", TEARDOWN)
    );
}

#[test]
fn one_reservation_of_eight_bytes_per_binding() {
    for count in 1..=12usize {
        let mut code = Code::new(Label::from("f"));
        for k in 0..count {
            code.allocate(format!("v{}", k));
        }
        let text = code.mov(constant(1), rax()).ret().to_string();
        let reserve = format!("\n\tsubq ${},%rsp", 8 * count);
        assert_eq!(text.matches("subq").count(), 1);
        assert_eq!(
            text,
            format!(
                "\nf:\n\tpushq %rbp\n\tmovq %rsp,%rbp{}\n\tmovq $1,%rax{}",
                reserve, TEARDOWN
            )
        );
    }
}

#[test]
fn reservation_counts_bindings_made_after_instructions() {
    let mut code = Code::new(Label::from("f"));
    let x = code.allocate(String::from("x"));
    let mut code = code.mov(constant(1), x);
    let y = code.allocate(String::from("y"));
    let text = code.mov(x, y).ret().to_string();
    assert_eq!(
        text,
        format!(
            "\nf:\n\tpushq %rbp\n\tmovq %rsp,%rbp\n\tsubq $16,%rsp\n\tmovq $1,-8(%rbp)\n\tmovq -8(%rbp),-16(%rbp){}",
            TEARDOWN
        )
    );
}

#[test]
fn body_keeps_the_order_of_the_calls() {
    let mut labels = LabelAllocator::new();
    let again = Label::new(&mut labels);
    let done = Label::new(&mut labels);
    let text = Code::new(Label::from("count"))
        .mov(constant(10), rcx())
        .label(again)
        .cmp(constant(0), rcx())
        .je(done)
        .sub(constant(1), rcx())
        .jmp(again)
        .label(done)
        .ret()
        .to_string();
    assert_eq!(
        text,
        format!(
            "\ncount:\n\tpushq %rbp\n\tmovq %rsp,%rbp\n\tmovq $10,%rcx\n\n.L0:\n\tcmpq $0,%rcx\n\tje .L1\n\tsubq $1,%rcx\n\tjmp .L0\n\n.L1:{}",
            TEARDOWN
        )
    );
}

#[test]
fn every_append_operation_adds_its_own_line() {
    let target = Label::Generated(9);
    let text = Code::new(Label::from("all"))
        .label(target)
        .push(rax())
        .pop(rbx())
        .mov(rax(), rbx())
        .lea(relative(rip(), Label::from("table")), rdi())
        .not(rax())
        .neg(rax())
        .add(rax(), rbx())
        .sub(rax(), rbx())
        .mul(rax(), rbx())
        .xor(rax(), rbx())
        .cmp(rax(), rbx())
        .jmp(target)
        .je(target)
        .jge(target)
        .jne(target)
        .call("print_int")
        .to_string();
    assert_eq!(
        text,
        "\n.L9:\n\tpushq %rax\n\tpopq %rbx\n\tmovq %rax,%rbx\n\tleaq table(%rip),%rdi\n\tnotq %rax\n\tnegq %rax\n\taddq %rax,%rbx\n\tsubq %rax,%rbx\n\timulq %rax,%rbx\n\txorq %rax,%rbx\n\tcmpq %rax,%rbx\n\tjmp .L9\n\tje .L9\n\tjge .L9\n\tjne .L9\n\tcall print_int"
    );
}

#[test]
fn unfinished_builder_shows_the_body_only() {
    let code = Code::new(Label::from("f"));
    assert_eq!(code.to_string(), "");
    let mut code = code.push(rax());
    code.allocate(String::from("x"));
    assert_eq!(code.to_string(), "\n\tpushq %rax");
}

#[test]
fn generated_entry_label() {
    let mut labels = LabelAllocator::new();
    let entry = Label::new(&mut labels);
    let text = Code::new(entry).ret().to_string();
    assert_eq!(text, format!("\n.L0:\n\tpushq %rbp\n\tmovq %rsp,%rbp{}", TEARDOWN));
}

#[test]
fn a_reservation_in_the_body_is_left_where_it_was_put() {
    let text = Code::new(Label::from("f"))
        .sub(constant(32), deref(rbp(), 0))
        .ret()
        .to_string();
    assert_eq!(
        text,
        format!("\nf:\n\tpushq %rbp\n\tmovq %rsp,%rbp\n\tsubq $32,0(%rbp){}", TEARDOWN)
    );
}

#[test]
fn generated_text_can_be_borrowed() {
    let generated = Code::new(Label::from("f")).ret();
    assert_eq!(generated.as_str(), generated.to_string());
    assert!(generated.as_str().starts_with("\nf:"));
    assert!(generated.as_str().ends_with("\n\tret"));
}

#[test]
fn a_label_after_another_line_has_an_empty_line_before_it() {
    let text = Code::new(Label::from("f"))
        .push(rax())
        .label(Label::from("again"))
        .jmp(Label::from("again"))
        .ret()
        .to_string();
    assert_eq!(
        text,
        format!(
            "\nf:\n\tpushq %rbp\n\tmovq %rsp,%rbp\n\tpushq %rax\n\nagain:\n\tjmp again{}",
            TEARDOWN
        )
    );
}

#[test]
fn a_label_that_opens_the_body_follows_the_setup() {
    let text = Code::new(Label::from("f")).label(Label::Generated(4)).ret().to_string();
    assert_eq!(
        text,
        format!("\nf:\n\tpushq %rbp\n\tmovq %rsp,%rbp\n\n.L4:{}", TEARDOWN)
    );
    let mut code = Code::new(Label::from("g"));
    code.allocate(String::from("x"));
    let text = code.label(Label::Generated(5)).ret().to_string();
    assert_eq!(
        text,
        format!(
            "\ng:\n\tpushq %rbp\n\tmovq %rsp,%rbp\n\tsubq $8,%rsp\n\n.L5:{}",
            TEARDOWN
        )
    );
}

#[test]
fn the_entry_label_keeps_its_single_line_break() {
    let text = Code::new(Label::from("main")).ret().to_string();
    assert!(text.starts_with("\nmain:\n\tpushq %rbp"));
    assert!(!text.starts_with("\n\n"));
}

#[test]
fn labels_in_a_row_each_have_their_empty_line() {
    let text = Code::new(Label::from("f"))
        .label(Label::Generated(0))
        .label(Label::Generated(1))
        .to_string();
    assert_eq!(text, "\n.L0:\n\n.L1:");
}

#[test]
fn unfinished_body_sets_off_labels_after_its_first_line() {
    let text = Code::new(Label::from("f"))
        .mov(constant(0), rax())
        .label(Label::from("next"))
        .neg(rax())
        .to_string();
    assert_eq!(text, "\n\tmovq $0,%rax\n\nnext:\n\tnegq %rax");
}
