use class_parser::{LocalVariables, OperandStack};

#[test]
fn operand_stack() {
    let mut stack = OperandStack::new();

    stack.push(10);
    stack.push(20);
    stack.push(30);
    stack.push(40);
    stack.swap();

    assert_eq!(stack.pop(), 30);
    assert_eq!(stack.pop(), 40);
    assert_eq!(stack.pop(), 20);
    assert_eq!(stack.pop(), 10);
}

#[test]
fn local_vars() {
    let mut vars = LocalVariables::new(10);

    vars.store(1, 546);
    vars.store(2, 100);
    vars.store2(3, 100, 466);

    assert_eq!(vars.load(1), 546);
    assert_eq!(vars.load(3), 100);
    assert_eq!(vars.load(4), 466);
}

#[test]
fn model_operand_stack() {
    let mut stack = OperandStack::new();

    stack.push(10);
    stack.push(20);
    stack.push(30);
    stack.push(40);
    stack.swap();

    assert_eq!(stack.pop(), 30);
    assert_eq!(stack.pop(), 40);
    assert_eq!(stack.pop(), 20);
    assert_eq!(stack.pop(), 10);
}

#[test]
fn model_local_vars() {
    let mut vars = LocalVariables::new(255);

    vars.store(1, 546);
    vars.store(2, 100);
    vars.store2(3, 100, 466);

    assert_eq!(vars.load(1), 546);
    assert_eq!(vars.load(3), 100);
    assert_eq!(vars.load(4), 466);
}

#[test]
fn swap_exchanges_only_the_two_on_top() {
    let mut stack = OperandStack::new();
    stack.push(1);
    stack.push(2);
    stack.push(3);
    stack.swap();
    stack.swap();
    stack.swap();
    assert_eq!(stack.pop(), 2);
    assert_eq!(stack.pop(), 3);
    assert_eq!(stack.pop(), 1);
}

#[test]
fn store_moves_the_slots_behind_it() {
    let mut vars = LocalVariables::new(3);
    assert_eq!(vars.load2(1), (0, 0));
    vars.store(0, 7);
    vars.store(0, 8);
    assert_eq!(vars.load2(0), (8, 7));
    assert_eq!(vars.load(2), 0);
    vars.store2(5, -1, i32::MIN);
    assert_eq!(vars.load2(5), (-1, i32::MIN));
    assert_eq!(vars.load(4), 0);
}
