use my_stack::stack::{Stack, StackError};

#[test]
fn pushes_count_up_and_track_top() {
    let mut stack: Stack<u64> = Stack::new(5);
    let vals = [7u64, 7, 0, 42, 9];
    for (k, v) in vals.iter().enumerate() {
        assert_eq!(stack.push(*v), Ok(()));
        assert_eq!(stack.size(), k + 1);
        assert_eq!(stack.top(), Some(*v));
    }
}

#[test]
fn push_on_full_keeps_size_and_top() {
    let mut stack: Stack<i32> = Stack::new(2);
    stack.push(4).unwrap();
    stack.push(5).unwrap();
    assert_eq!(stack.push(6), Err(StackError::Overflow));
    assert_eq!(stack.size(), 2);
    assert_eq!(stack.top(), Some(5));
    assert_eq!(stack.live_elements(), vec![4, 5]);
}

#[test]
fn pop_on_empty_changes_nothing() {
    let mut stack: Stack<i32> = Stack::new(2);
    assert_eq!(stack.pop(), Err(StackError::Underflow));
    assert_eq!(stack.size(), 0);
    assert_eq!(stack.top(), None);
    assert!(stack.is_empty());
    assert_eq!(stack.capacity(), 2);
}

#[test]
fn pop_after_push_restores_state() {
    let mut stack: Stack<String> = Stack::new(3);
    stack.push("a".to_string()).unwrap();
    assert_eq!(stack.push("b".to_string()), Ok(()));
    assert_eq!(stack.pop(), Ok("b".to_string()));
    assert_eq!(stack.size(), 1);
    assert_eq!(stack.top(), Some("a".to_string()));
}

#[test]
fn emptiness_matches_size() {
    let mut stack: Stack<i32> = Stack::new(2);
    assert_eq!(stack.is_empty(), stack.size() == 0);
    stack.push(1).unwrap();
    assert_eq!(stack.is_empty(), stack.size() == 0);
    stack.pop().unwrap();
    assert_eq!(stack.is_empty(), stack.size() == 0);
    assert!(stack.is_empty());
}

#[test]
fn three_pushes_then_overflow() {
    let mut stack: Stack<i32> = Stack::new(3);
    assert_eq!(stack.push(1), Ok(()));
    assert_eq!(stack.top(), Some(1));
    assert_eq!(stack.push(2), Ok(()));
    assert_eq!(stack.top(), Some(2));
    assert_eq!(stack.push(3), Ok(()));
    assert_eq!(stack.top(), Some(3));
    assert_eq!(stack.push(4), Err(StackError::Overflow));
}

#[test]
fn three_pushes_then_pops_in_reverse() {
    let mut stack: Stack<i32> = Stack::new(3);
    for v in [1, 2, 3] {
        stack.push(v).unwrap();
    }
    assert_eq!(stack.pop(), Ok(3));
    assert_eq!(stack.top(), Some(2));
    assert_eq!(stack.pop(), Ok(2));
    assert_eq!(stack.top(), Some(1));
    assert_eq!(stack.pop(), Ok(1));
    assert_eq!(stack.top(), None);
    assert_eq!(stack.pop(), Err(StackError::Underflow));
}

#[test]
fn zero_capacity_is_full_and_empty() {
    let mut stack: Stack<i32> = Stack::new(0);
    assert!(stack.is_empty());
    assert_eq!(stack.push(1), Err(StackError::Overflow));
    assert_eq!(stack.pop(), Err(StackError::Underflow));
    assert_eq!(stack.size(), 0);
    assert_eq!(stack.live_elements(), Vec::<i32>::new());
}

#[test]
fn error_messages() {
    assert_eq!(StackError::Overflow.message(), "Stack overflow error");
    assert_eq!(StackError::Underflow.message(), "Stack underflow error");
}

#[test]
fn live_elements_bottom_first() {
    let mut stack: Stack<i32> = Stack::new(4);
    stack.push(10).unwrap();
    stack.push(20).unwrap();
    stack.push(30).unwrap();
    stack.pop().unwrap();
    stack.push(40).unwrap();
    assert_eq!(stack.live_elements(), vec![10, 20, 40]);
    assert_eq!(stack.capacity(), 4);
}
