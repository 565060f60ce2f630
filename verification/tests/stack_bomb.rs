use resource_pool::stack_bomb::{recursive_call, Access, LargeObject, LargeObjectRef, OBJECT_SIZE};

#[test]
fn recursive_call_returns_its_object() {
    let mut data = [0u8; OBJECT_SIZE];
    data[17] = 42;
    let obj = LargeObject(data);
    let back = recursive_call(obj, 0);
    assert_eq!(back.0[..], data[..]);
    let back = recursive_call(back, 1025);
    assert_eq!(back.0[..], data[..]);
    let back = recursive_call(back, usize::MAX);
    assert_eq!(back.0[..], data[..]);
}

#[test]
fn recursive_call_hands_a_reference_down() {
    assert_eq!(OBJECT_SIZE, 4096);
    let mut data = [0u8; OBJECT_SIZE];
    {
        let obj = LargeObjectRef(&mut data);
        let mut back = recursive_call(obj, 0);
        back.access();
    }
    assert_eq!(data[0], 1);
    assert!(data[1..].iter().all(|byte| *byte == 0));
}

#[test]
fn access_marks_the_first_byte() {
    let mut obj = LargeObject([7u8; OBJECT_SIZE]);
    obj.access();
    assert_eq!(obj.0[0], 1);
    assert!(obj.0[1..].iter().all(|byte| *byte == 7));
}
