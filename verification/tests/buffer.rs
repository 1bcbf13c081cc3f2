use muxrpc::utils::Buffer;

#[test]
fn buffer_starts_empty() {
    let b = Buffer::new(vec![0; 8]);
    assert_eq!(b.len(), 0);
    assert_eq!(b.capacity(), 8);
}

#[test]
fn buffer_appends_in_order() {
    let mut b = Buffer::new(vec![0; 8]);
    b.append(b"ab");
    b.append(b"cd");
    assert_eq!(b.len(), 4);
    assert_eq!(b.capacity(), 8);
    assert_eq!(b.into_vec(), vec![97, 98, 99, 100, 0, 0, 0, 0]);
}

#[test]
fn buffer_fills_to_capacity() {
    let mut b = Buffer::new(vec![9; 4]);
    b.append(b"");
    b.append(b"wxyz");
    assert_eq!(b.len(), 4);
    assert_eq!(b.into_vec(), b"wxyz".to_vec());
}
