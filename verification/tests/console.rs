use rttrust::fmt::{Console, CONSOLE_BUF_SIZE};

#[test]
fn console_short_text_is_one_chunk() {
    let mut buf = [0u8; CONSOLE_BUF_SIZE];
    let next = Console::next_chunk(&mut buf, b"hello rust\n", 0);
    assert_eq!(next, 11);
    assert_eq!(&buf[..11], b"hello rust\n");
    assert_eq!(&buf[11..], &[0u8; 21]);
    // Nothing is left: the buffer stays as it is.
    assert_eq!(Console::next_chunk(&mut buf, b"hello rust\n", 11), 11);
    assert_eq!(&buf[..11], b"hello rust\n");
}

#[test]
fn console_long_text_goes_in_chunks_of_31() {
    let text: Vec<u8> = (0..70u8).map(|i| b'a' + i % 26).collect();
    let mut buf = [0u8; CONSOLE_BUF_SIZE];
    let first = Console::next_chunk(&mut buf, &text, 0);
    assert_eq!(first, 31);
    assert_eq!(&buf[..31], &text[..31]);
    assert_eq!(buf[31], 0);
    let second = Console::next_chunk(&mut buf, &text, first);
    assert_eq!(second, 62);
    assert_eq!(&buf[..31], &text[31..62]);
    assert_eq!(buf[31], 0);
    let third = Console::next_chunk(&mut buf, &text, second);
    assert_eq!(third, 70);
    assert_eq!(&buf[..8], &text[62..]);
    // Behind the chunk the buffer is left as it was.
    assert_eq!(&buf[8..31], &text[39..62]);
    assert_eq!(buf[31], 0);
}

#[test]
fn console_chunk_of_exactly_31() {
    let text = [b'x'; 31];
    let mut buf = [0u8; CONSOLE_BUF_SIZE];
    assert_eq!(Console::next_chunk(&mut buf, &text, 0), 31);
    assert_eq!(&buf[..31], &text[..]);
    assert_eq!(buf[31], 0);
}

#[test]
fn console_offset_behind_the_text() {
    let mut buf = [7u8; CONSOLE_BUF_SIZE];
    assert_eq!(Console::next_chunk(&mut buf, b"abc", 5), 5);
    assert_eq!(buf, [7u8; CONSOLE_BUF_SIZE]);
    assert_eq!(Console::next_chunk(&mut buf, b"", 0), 0);
    assert_eq!(buf, [7u8; CONSOLE_BUF_SIZE]);
}
