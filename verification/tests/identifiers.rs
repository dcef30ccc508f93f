use flexnotes::models::oid::ObjectId;

#[test]
fn bytes_round_trip() {
    let bytes = [0, 1, 2, 3, 4, 5, 6, 7, 8, 9, 250, 255];
    assert_eq!(ObjectId::from_bytes(bytes).bytes(), bytes);
}

#[test]
fn equality_is_bytewise() {
    let a = ObjectId::from_bytes([7; 12]);
    let mut other = [7; 12];
    assert_eq!(a, ObjectId::from_bytes(other));
    other[11] = 8;
    assert_ne!(a, ObjectId::from_bytes(other));
    other[11] = 7;
    other[0] = 6;
    assert_ne!(a, ObjectId::from_bytes(other));
}

#[test]
fn new_identifiers_differ() {
    let a = ObjectId::new();
    let b = ObjectId::new();
    assert_ne!(a, b);
    // Generated in one process: the five bytes in the middle are the same.
    assert_eq!(a.bytes()[4..9], b.bytes()[4..9]);
}
