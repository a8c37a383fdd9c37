use chip8::stack::Stack;

#[test]
fn test_new() {
    let stack = Stack::<&str>::new();
    assert_eq!(stack.stack.capacity(), 0);
}

#[test]
fn test_top() {
    let mut stack = Stack::<u16>::new();
    stack.stack.push(1);
    assert_eq!(*stack.top().unwrap(), 1);
}

#[test]
fn test_push() {
    let mut stack = Stack::<u16>::new();
    stack.push(4);
    assert_eq!(*stack.top().unwrap(), 4);
}

#[test]
fn test_is_empty() {
    let mut stack = Stack::<char>::new();
    assert!(stack.is_empty());
    stack.push('a');
    assert!(!stack.is_empty());
}

#[test]
fn test_pop() {
    let mut stack = Stack::<usize>::new();
    stack.push(3);
    assert!(!stack.is_empty());
    stack.pop();
    assert!(stack.is_empty());
}

#[test]
fn test_size() {
    let mut stack = Stack::<String>::new();
    assert_eq!(stack.size(), 0);
    stack.push(String::from("hello"));
    assert_eq!(stack.size(), 1);
}

#[test]
fn pop_on_empty_stack_stays_empty() {
    let mut stack = Stack::<u16>::new();
    stack.pop();
    assert!(stack.is_empty());
    assert!(stack.top().is_none());
}
