use mirrox::tcp_client::build_hello_message;

#[test]
fn hello_for_mirrox() {
    assert_eq!(build_hello_message("MirrOx", 1), vec![1, 6, b'M', b'i', b'r', b'r', b'O', b'x']);
}

#[test]
fn hello_with_empty_name() {
    assert_eq!(build_hello_message("", 9), vec![9, 0]);
}

#[test]
fn hello_length_keeps_low_byte() {
    let name = "a".repeat(300);
    let msg = build_hello_message(&name, 2);
    assert_eq!(msg.len(), 302);
    assert_eq!(msg[1], 44);
}

#[test]
fn hello_counts_bytes_not_chars() {
    let msg = build_hello_message("é", 1);
    assert_eq!(msg, vec![1, 2, 0xc3, 0xa9]);
}
