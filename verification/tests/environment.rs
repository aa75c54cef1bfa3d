use codegen_x86::backend::code::Code;
use codegen_x86::backend::label::Label;
use codegen_x86::backend::location::{Location, Register};

fn name(text: &str) -> String {
    String::from(text)
}

#[test]
fn slots_lie_eight_bytes_apart() {
    let mut code = Code::new(Label::from("f"));
    for k in 1..=40i64 {
        let slot = code.allocate(format!("v{}", k));
        assert_eq!(slot, Location::Memory(Register::Rbp, -8 * k));
    }
}

#[test]
fn first_three_slots() {
    let mut code = Code::new(Label::from("f"));
    assert_eq!(code.allocate(name("a")).to_string(), "-8(%rbp)");
    assert_eq!(code.allocate(name("b")).to_string(), "-16(%rbp)");
    assert_eq!(code.allocate(name("c")).to_string(), "-24(%rbp)");
}

#[test]
fn later_binding_shadows_earlier_one() {
    let mut code = Code::new(Label::from("f"));
    let first = code.allocate(name("v1"));
    let second = code.allocate(name("v2"));
    let third = code.allocate(name("v1"));
    assert_eq!(code.get(name("v1")), third);
    assert_ne!(code.get(name("v1")), first);
    assert_eq!(code.get(name("v1")), Location::Memory(Register::Rbp, -24));
    assert_eq!(code.get(name("v2")), second);
}

#[test]
fn get_returns_what_allocate_returned() {
    let mut code = Code::new(Label::from("f"));
    let x = code.allocate(name("x"));
    let y = code.allocate(name("y"));
    assert_eq!(code.get(name("x")), x);
    assert_eq!(code.get(name("y")), y);
}

#[test]
fn find_tells_bound_from_unbound() {
    let mut code = Code::new(Label::from("f"));
    assert_eq!(code.find(&name("x")), None);
    let x = code.allocate(name("x"));
    assert_eq!(code.find(&name("x")), Some(x));
    assert_eq!(code.find(&name("y")), None);
    assert_eq!(code.find(&name("")), None);
}

#[test]
fn find_sees_the_latest_binding() {
    let mut code = Code::new(Label::from("f"));
    code.allocate(name("x"));
    code.allocate(name("x"));
    let latest = code.allocate(name("x"));
    assert_eq!(code.find(&name("x")), Some(latest));
    assert_eq!(latest, Location::Memory(Register::Rbp, -24));
}

#[test]
fn environment_lists_bindings_oldest_first() {
    let mut code = Code::new(Label::from("f"));
    assert!(code.get_env().is_empty());
    code.allocate(name("x"));
    code.allocate(name("y"));
    code.allocate(name("x"));
    let env = code.get_env();
    assert_eq!(env.len(), 3);
    assert_eq!(env[0], (name("x"), Location::Memory(Register::Rbp, -8)));
    assert_eq!(env[1], (name("y"), Location::Memory(Register::Rbp, -16)));
    assert_eq!(env[2], (name("x"), Location::Memory(Register::Rbp, -24)));
}

#[test]
fn appending_instructions_leaves_the_environment_alone() {
    let mut code = Code::new(Label::from("f"));
    let x = code.allocate(name("x"));
    let mut code = code.push(x).pop(x);
    assert_eq!(code.get_env().len(), 1);
    assert_eq!(code.get(name("x")), x);
    assert_eq!(code.allocate(name("y")), Location::Memory(Register::Rbp, -16));
}

#[test]
fn a_small_frame_has_room() {
    let mut code = Code::new(Label::from("f"));
    assert!(code.can_allocate());
    code.allocate(name("x"));
    assert!(code.can_allocate());
}
