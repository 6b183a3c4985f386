use multi_isolate::decimal::render_decimal;
use multi_isolate::slot::{render_completion_message, render_identity_statement, INIT_SCRIPT_NAME};

#[test]
fn decimal_of_small_numbers() {
    assert_eq!(render_decimal(0), "0");
    assert_eq!(render_decimal(7), "7");
    assert_eq!(render_decimal(9), "9");
    assert_eq!(render_decimal(10), "10");
    assert_eq!(render_decimal(99), "99");
    assert_eq!(render_decimal(100), "100");
    assert_eq!(render_decimal(1234567890), "1234567890");
}

#[test]
fn decimal_agrees_with_std() {
    for n in (0..3000usize).chain([usize::MAX, usize::MAX - 1, usize::MAX / 10]) {
        assert_eq!(render_decimal(n), n.to_string());
    }
}

#[test]
fn identity_statement_text() {
    assert_eq!(render_identity_statement(1), "globalThis.runtimeNum = 1;");
    assert_eq!(render_identity_statement(4), "globalThis.runtimeNum = 4;");
    assert_eq!(render_identity_statement(0), "globalThis.runtimeNum = 0;");
    assert_eq!(render_identity_statement(120), "globalThis.runtimeNum = 120;");
    assert_eq!(INIT_SCRIPT_NAME, "test:init");
}

#[test]
fn identity_statements_are_distinct() {
    let statements: Vec<String> = (1..=50usize).map(render_identity_statement).collect();
    for (i, a) in statements.iter().enumerate() {
        for (j, b) in statements.iter().enumerate() {
            assert_eq!(a == b, i == j);
        }
    }
}

#[test]
fn completion_message_text() {
    assert_eq!(render_completion_message(1), "Runtime 1 terminated!");
    assert_eq!(render_completion_message(42), "Runtime 42 terminated!");
}
