use hcc::host::{guest_text, reversed_bytes, ArgTable, RunError};

#[test]
fn argument_bytes_are_served_reversed() {
    let t = ArgTable::new(&vec!["ab".to_string()]);
    assert_eq!(t.len(), 1);
    assert_eq!(t.byte(0, 0), b'b' as i64);
    assert_eq!(t.byte(0, 1), b'a' as i64);
    assert_eq!(t.byte(0, 2), 0);
    assert_eq!(t.byte(0, 1000), 0);
    assert_eq!(t.byte(0, -1), 0);
}

#[test]
fn each_argument_has_its_own_function() {
    let t = ArgTable::new(&vec!["x".to_string(), "".to_string(), "hello".to_string()]);
    assert_eq!(t.import_name(0), "arg0");
    assert_eq!(t.import_name(1), "arg1");
    assert_eq!(t.import_name(12), "arg12");
    assert_eq!(t.byte(0, 0), b'x' as i64);
    assert_eq!(t.byte(1, 0), 0);
    assert_eq!(t.byte(2, 0), b'o' as i64);
    assert_eq!(t.byte(2, 4), b'h' as i64);
}

#[test]
fn reversal_is_by_character() {
    assert_eq!(reversed_bytes("aé"), vec![0xC3, 0xA9, b'a']);
    assert_eq!(reversed_bytes("a€😀"), "😀€a".as_bytes().to_vec());
    assert_eq!(reversed_bytes(""), Vec::<u8>::new());
}

#[test]
fn guest_text_reads_in_bounds() {
    let memory = b"..hello..".to_vec();
    assert_eq!(guest_text(&memory, 2, 5).unwrap(), "hello");
    assert_eq!(guest_text(&memory, 9, 0).unwrap(), "");
}

#[test]
fn guest_text_refuses_out_of_bounds() {
    let memory = vec![b'a'; 4];
    assert!(matches!(guest_text(&memory, 2, 3), Err(RunError::OutOfBounds { ptr: 2, len: 3 })));
    assert!(matches!(guest_text(&memory, -1, 1), Err(RunError::OutOfBounds { .. })));
    assert!(matches!(guest_text(&memory, 0, -1), Err(RunError::OutOfBounds { .. })));
    assert!(matches!(guest_text(&memory, i64::MAX, i64::MAX), Err(RunError::OutOfBounds { .. })));
}

#[test]
fn guest_text_refuses_invalid_utf8() {
    let memory = vec![0xFF, 0xFE, b'a'];
    assert!(matches!(guest_text(&memory, 0, 2), Err(RunError::InvalidText)));
    assert_eq!(guest_text(&memory, 2, 1).unwrap(), "a");
}
