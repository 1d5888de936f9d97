use servo_by_light::line::lux_line;
use servo_by_light::serial::Transfer;

/// Sends a transfer through a port that takes at most `chunk` bytes at a time and refuses
/// after `room` bytes. Returns what the port took, and the number of writes.
fn send(mut transfer: Transfer, chunk: usize, room: usize) -> (Vec<u8>, usize) {
    let mut taken = Vec::new();
    let mut writes = 0;
    while let Some(bytes) = transfer.pending() {
        writes += 1;
        let n = bytes.len().min(chunk).min(room - taken.len());
        if n == 0 {
            transfer.after_write(Err(()));
        } else {
            taken.extend_from_slice(&bytes[..n]);
            transfer.after_write(Ok(n));
        }
    }
    (taken, writes)
}

#[test]
fn text_arrives_whole() {
    let text = "Closing curtain...\r\n";
    for chunk in 1..=text.len() {
        let (taken, writes) = send(Transfer::of_str(text), chunk, 1000);
        assert_eq!(taken, text.as_bytes());
        assert!(writes <= text.len());
    }
}

#[test]
fn line_arrives_whole() {
    let line = lux_line(42);
    assert_eq!(send(Transfer::of_line(&line), 3, 1000).0, b"Lux: 42\r\n");
}

#[test]
fn refusal_drops_the_rest() {
    let (taken, writes) = send(Transfer::of_str("Curtain closed.\r\n"), 4, 10);
    assert_eq!(taken, b"Curtain cl");
    assert_eq!(writes, 4);
}

#[test]
fn nothing_is_pending_after_a_refusal() {
    let mut transfer = Transfer::of_str("abc");
    assert_eq!(transfer.pending(), Some(&b"abc"[..]));
    transfer.after_write(Ok(1));
    assert_eq!(transfer.pending(), Some(&b"bc"[..]));
    transfer.after_write(Err(()));
    assert_eq!(transfer.pending(), None);
}

#[test]
fn empty_text_needs_no_write() {
    assert_eq!(Transfer::of_str("").pending(), None);
}

#[test]
fn write_that_takes_nothing_is_made_again() {
    let mut transfer = Transfer::of_str("ab");
    transfer.after_write(Ok(0));
    assert_eq!(transfer.pending(), Some(&b"ab"[..]));
}
