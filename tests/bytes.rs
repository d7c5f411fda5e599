use rsgrep::bytes::Str;

#[test]
fn get_inside_and_past_the_end() {
    let s = Str::new(b"abc");
    assert_eq!(s.get(0), Some(b'a'));
    assert_eq!(s.get(2), Some(b'c'));
    assert_eq!(s.get(3), None);
    assert_eq!(s.get(usize::MAX), None);
}

#[test]
fn split_at_middle() {
    let s = Str::new(b"this is a string");
    let (x, y) = s.split_at(5).unwrap();
    assert_eq!(x, b"this ");
    assert_eq!(y, b"is a string");
}

#[test]
fn split_at_zero_gives_empty_front() {
    let s = Str::new(b"abc");
    let (x, y) = s.split_at(0).unwrap();
    assert_eq!(x, b"");
    assert_eq!(y, b"abc");
}

#[test]
fn split_at_last_byte() {
    let s = Str::new(b"abc");
    let (x, y) = s.split_at(2).unwrap();
    assert_eq!(x, b"ab");
    assert_eq!(y, b"c");
}

#[test]
fn split_at_length_or_beyond_is_none() {
    let s = Str::new(b"abc");
    assert!(s.split_at(3).is_none());
    assert!(s.split_at(4).is_none());
    assert!(Str::new(b"").split_at(0).is_none());
}
