use ffi_marshal::buffer::{render, write_debug_into_buf, write_into_buf};

#[test]
fn size_query_returns_required_size_and_leaves_buffer_empty() {
    let mut buf: Vec<u8> = Vec::new();
    let n = render(b"hello", &mut buf);
    assert_eq!(n, 5);
    assert!(buf.is_empty());
}

#[test]
fn size_query_on_empty_rendering() {
    let mut buf: Vec<u8> = Vec::new();
    let n = render(b"", &mut buf);
    assert_eq!(n, 0);
    assert!(buf.is_empty());
}

#[test]
fn exact_capacity_writes_rendering_and_terminator() {
    let mut buf: Vec<u8> = vec![0xAA; 6];
    let n = render(b"hello", &mut buf);
    assert_eq!(n, 5);
    assert_eq!(&buf, b"hello\0");
}

#[test]
fn larger_capacity_keeps_trailing_bytes() {
    let mut buf: Vec<u8> = vec![0xAA; 10];
    let n = render(b"hello", &mut buf);
    assert_eq!(n, 5);
    assert_eq!(&buf[..6], b"hello\0");
    assert_eq!(&buf[6..], &[0xAA, 0xAA, 0xAA, 0xAA]);
}

#[test]
fn too_small_capacity_reports_size_and_empties_string() {
    let mut buf: Vec<u8> = vec![0xAA; 5];
    let n = render(b"hello", &mut buf);
    assert_eq!(n, 5);
    assert_eq!(buf[0], 0);
    assert_eq!(buf.len(), 5);
}

#[test]
fn capacity_one_with_nonempty_rendering_overflows() {
    let mut buf: Vec<u8> = vec![0xAA; 1];
    let n = render(b"x", &mut buf);
    assert_eq!(n, 1);
    assert_eq!(buf[0], 0);
}

#[test]
fn empty_rendering_still_writes_terminator() {
    let mut buf: Vec<u8> = vec![0xAA; 1];
    let n = render(b"", &mut buf);
    assert_eq!(n, 0);
    assert_eq!(buf[0], 0);
}

#[test]
fn render_twice_gives_identical_contents() {
    let mut first: Vec<u8> = vec![0xAA; 6];
    render(b"hello", &mut first);
    let mut second = first.clone();
    render(b"hello", &mut second);
    assert_eq!(first, second);
}

#[test]
fn hello_scenario_through_display() {
    let value = "hello";

    let mut probe: Vec<u8> = Vec::new();
    assert_eq!(write_into_buf(&value, &mut probe), 5);

    let mut sized: Vec<u8> = vec![b'?'; 6];
    assert_eq!(write_into_buf(&value, &mut sized), 5);
    assert_eq!(&sized, b"hello\0");

    let mut short: Vec<u8> = vec![b'?'; 5];
    assert_eq!(write_into_buf(&value, &mut short), 5);
    assert_eq!(short[0], 0);

    let mut roomy: Vec<u8> = vec![b'?'; 10];
    assert_eq!(write_into_buf(&value, &mut roomy), 5);
    assert_eq!(&roomy[..6], b"hello\0");
}

#[test]
fn display_of_integer() {
    let mut buf: Vec<u8> = vec![0; 16];
    let n = write_into_buf(&12345u32, &mut buf);
    assert_eq!(n, 5);
    assert_eq!(&buf[..6], b"12345\0");
}

#[test]
fn debug_rendering_uses_structural_form() {
    let mut buf: Vec<u8> = vec![0; 16];
    let n = write_debug_into_buf(&"hi", &mut buf);
    assert_eq!(n, 4);
    assert_eq!(&buf[..5], b"\"hi\"\0");
}

#[test]
fn debug_rendering_too_small_reports_size() {
    let mut buf: Vec<u8> = vec![0xAA; 2];
    let n = write_debug_into_buf(&"hi", &mut buf);
    assert_eq!(n, 4);
    assert_eq!(buf[0], 0);
}
