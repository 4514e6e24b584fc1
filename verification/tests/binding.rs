use binding_pipeline::binding::{assign, declare_immutable, declare_mutable, shadow};

#[test]
fn immutable_declaration_holds_name_and_value() {
    let x = declare_immutable("x", "Hello");
    assert_eq!(x.name(), "x");
    assert_eq!(*x.value(), "Hello");
    assert!(!x.is_mutable());
    assert_eq!(x.into_value(), "Hello");
}

#[test]
fn mutable_declaration_holds_name_and_value() {
    let x = declare_mutable("counter", 0u64);
    assert_eq!(x.name(), "counter");
    assert_eq!(*x.value(), 0);
    assert!(x.is_mutable());
}

#[test]
fn assignment_replaces_the_value_only() {
    let mut x = declare_mutable("x", "Hello");
    assert!(x.is_mutable());
    assign(&mut x, "6");
    assert_eq!(*x.value(), "6");
    assert_eq!(x.name(), "x");
    assert!(x.is_mutable());
    assign(&mut x, "7");
    assert_eq!(*x.value(), "7");
}

#[test]
fn immutable_binding_is_never_offered_for_assignment() {
    let x = declare_immutable("x", 5);
    let mut attempts = 0;
    if x.is_mutable() {
        attempts += 1;
    }
    assert_eq!(attempts, 0);
    assert_eq!(*x.value(), 5);
    let y = shadow(&x, |v| *v + 1);
    assert!(!y.is_mutable());
}

#[test]
fn shadow_keeps_the_name_and_may_change_the_type() {
    let spaces = declare_immutable("spaces", "   ");
    let length = shadow(&spaces, |text| text.len());
    assert_eq!(length.name(), "spaces");
    assert_eq!(*length.value(), 3usize);
    assert!(!length.is_mutable());
}

#[test]
fn shadow_of_a_mutable_binding_is_immutable() {
    let counter = declare_mutable("counter", 3);
    let counter = shadow(&counter, |_| "Demo counter");
    assert_eq!(*counter.value(), "Demo counter");
    assert!(!counter.is_mutable());
}

#[test]
fn shadow_leaves_earlier_references_as_they_were() {
    let first = declare_immutable("x", String::from("kept"));
    let alias: &String = first.value();
    let second = shadow(&first, |text| text.len() * 2);
    assert_eq!(*second.value(), 8);
    assert_eq!(alias, "kept");
    assert_eq!(first.value(), "kept");
    assert_eq!(first.name(), "x");
}

#[test]
fn shadow_may_borrow_from_the_hidden_value() {
    let raw = declare_immutable("input", String::from("  padded  "));
    let trimmed = shadow(&raw, |text| text.trim());
    assert_eq!(*trimmed.value(), "padded");
    assert_eq!(raw.value(), "  padded  ");
}
