use chip8::stack::Stack;

#[test]
fn stack_sixteen_round_trip_reversed() {
    // Push a1..a16, then popping 16 times yields a16..a1.
    let mut stack = Stack::new();
    let addrs: Vec<u16> = (1u16..=16).map(|k| 0x200 + 2 * k).collect();
    for &a in &addrs {
        assert_eq!(stack.subroutine(a), Ok(()));
    }
    for k in (0..16).rev() {
        assert_eq!(stack.return_subroutine(), Ok(addrs[k]));
    }
    assert_eq!(stack.return_subroutine(), Err("Stack underflow"));
}

#[test]
fn stack_seventeenth_push_overflows() {
    let mut stack = Stack::new();
    for k in 0u16..16 {
        assert_eq!(stack.subroutine(0x300 + k), Ok(()));
    }
    assert_eq!(stack.subroutine(0x400), Err("Stack overflow"));
    // The failed push left the contents alone.
    assert_eq!(stack.return_subroutine(), Ok(0x30F));
}

#[test]
fn stack_pop_empty_underflows() {
    let mut stack = Stack::new();
    assert_eq!(stack.return_subroutine(), Err("Stack underflow"));
    stack.subroutine(0x256).unwrap();
    assert_eq!(stack.return_subroutine(), Ok(0x256));
    assert_eq!(stack.return_subroutine(), Err("Stack underflow"));
}
