//! The sequential byte writer over a borrowed region.

use lminc_host::StringWriter;

#[test]
fn writer_writes_in_order() {
    let mut region: Vec<u8> = vec![0; 8];
    let mut w = StringWriter::new(2);
    assert!(w.write_byte(&mut region, 10));
    assert!(w.write_byte(&mut region, 11));
    assert!(w.write_byte(&mut region, 12));
    assert_eq!(w.length, 3);
    assert_eq!(region, vec![0, 0, 10, 11, 12, 0, 0, 0]);
}

#[test]
fn writer_refuses_bytes_past_the_region() {
    let mut region: Vec<u8> = vec![0; 4];
    let mut w = StringWriter::new(4);
    assert!(!w.write_byte(&mut region, 9));
    assert_eq!(w.length, 0);
    assert_eq!(region, vec![0, 0, 0, 0]);
}

#[test]
fn writer_truncates_at_the_region_end() {
    let mut region: Vec<u8> = vec![0; 5];
    let mut w = StringWriter::new(3);
    let data = [7u8, 8, 9, 10];
    let n = w.write_bytes(&mut region, &data);
    assert_eq!(n, 2);
    assert_eq!(w.length, 2);
    assert_eq!(region, vec![0, 0, 0, 7, 8]);
}

#[test]
fn writer_copies_whole_message_when_it_fits() {
    let mut region: Vec<u8> = vec![0; 6];
    let mut w = StringWriter::new(1);
    let data = [1u8, 2, 3];
    let n = w.write_bytes(&mut region, &data);
    assert_eq!(n, 3);
    assert_eq!(region, vec![0, 1, 2, 3, 0, 0]);
    let m = w.write_bytes(&mut region, &[4u8, 5]);
    assert_eq!(m, 2);
    assert_eq!(region, vec![0, 1, 2, 3, 4, 5]);
}
