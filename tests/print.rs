use bootchain::print::{printable_bytes, Printer};

#[test]
fn stops_at_the_terminating_nul() {
    assert_eq!(printable_bytes("[*] Loading...\r\n\0"), b"[*] Loading...\r\n".to_vec());
    assert_eq!(printable_bytes("ab\0cd\0"), b"ab".to_vec());
}

#[test]
fn message_without_nul_prints_whole() {
    assert_eq!(printable_bytes("abc"), b"abc".to_vec());
    assert_eq!(printable_bytes(""), Vec::<u8>::new());
    assert_eq!(printable_bytes("\0abc"), Vec::<u8>::new());
}

#[test]
fn printer_prints_the_same_bytes() {
    let p = Printer {};
    assert_eq!(p.print("hi\0there"), b"hi".to_vec());
}
