use resource_pool::smart_arrays::{CowStr, UniqueStr};

#[test]
fn unique_not_shared() {
    let s1 = UniqueStr::new("hello unique");
    let mut s2 = s1.clone();
    assert_ne!(s1.as_ptr(), s2.as_ptr());
    s2.as_mut_slice()[0] = b'b';
    assert_ne!(s1.as_ptr(), s2.as_ptr());
    assert_eq!(&*s1, "hello unique".as_bytes());
    assert_eq!(&*s2, "bello unique".as_bytes());
}

#[test]
fn cow_shared() {
    let s1 = CowStr::new("hello shared");
    let mut s2 = s1.clone();
    assert_eq!(s1.as_ptr(), s2.as_ptr());
    s2.as_mut_slice().unwrap()[0] = b'b';
    assert_ne!(s1.as_ptr(), s2.as_ptr());
    assert_eq!(&*s1, "hello shared".as_bytes());
    assert_eq!(&*s2, "bello shared".as_bytes());
}

#[test]
fn cow_writes_in_place_when_alone() {
    let mut s = CowStr::new("abc");
    let before = s.as_ptr();
    s.as_mut_slice().unwrap()[2] = b'x';
    assert_eq!(s.as_ptr(), before);
    assert_eq!(s.as_slice(), b"abx");

    // Once the copy is gone the string is alone again.
    let copy = s.clone();
    assert_eq!(copy.as_ptr(), before);
    drop(copy);
    s.as_mut_slice().unwrap()[0] = b'y';
    assert_eq!(s.as_ptr(), before);
    assert_eq!(s.as_slice(), b"ybx");
}

#[test]
fn cow_detaches_on_any_count_but_one() {
    let mut s = CowStr::new("abc");
    let before = s.as_ptr();
    assert!(!s.detach_if_shared(1));
    assert_eq!(s.as_ptr(), before);
    assert!(s.detach_if_shared(2));
    assert_ne!(s.as_ptr(), before);
    assert_eq!(s.as_slice(), b"abc");
    assert!(s.detach_if_shared(0));
    assert_eq!(s.as_slice(), b"abc");
}

#[test]
fn strings_hold_the_bytes_of_their_text() {
    let u = UniqueStr::new("héllo");
    assert_eq!(u.as_slice(), "héllo".as_bytes());
    assert_eq!(u.len(), 6);
    let c = CowStr::new("");
    assert_eq!(c.as_slice(), b"");
    assert!(c.is_empty());
    let mut e = UniqueStr::new("");
    assert!(e.as_mut_slice().is_empty());
}
