use win32yank::clip::{acquire_session, get_clipboard, set_clipboard, Clipboard, ClipboardError};

#[test]
fn test() {
    let mut clip = Clipboard::empty();
    let ok = [0u32; 11];

    let v = "Hello\nfrom\nwin32yank";
    set_clipboard(&mut clip, v.as_bytes(), &ok, false).unwrap();
    assert_eq!(get_clipboard(&clip, &ok, false).unwrap(), v.as_bytes());

    let v = "Hello\rfrom\rwin32yank";
    set_clipboard(&mut clip, v.as_bytes(), &ok, false).unwrap();
    assert_eq!(get_clipboard(&clip, &ok, false).unwrap(), v.as_bytes());

    let v = "Hello\r\nfrom\r\nwin32yank";
    set_clipboard(&mut clip, v.as_bytes(), &ok, false).unwrap();
    assert_eq!(get_clipboard(&clip, &ok, false).unwrap(), v.as_bytes());

    let v = "\r\nfrom\r\nwin32yank\r\n\n...\\r\n";
    set_clipboard(&mut clip, v.as_bytes(), &ok, false).unwrap();
    assert_eq!(get_clipboard(&clip, &ok, false).unwrap(), v.as_bytes());

    set_clipboard(&mut clip, "".as_bytes(), &ok, true).unwrap();
    assert_eq!(get_clipboard(&clip, &ok, false).unwrap(), "".as_bytes());

    set_clipboard(&mut clip, "\n".as_bytes(), &ok, true).unwrap();
    assert_eq!(get_clipboard(&clip, &ok, false).unwrap(), "\r\n".as_bytes());

    set_clipboard(&mut clip, "\r\n".as_bytes(), &ok, true).unwrap();
    assert_eq!(get_clipboard(&clip, &ok, false).unwrap(), "\r\n".as_bytes());

    let v = "\r\nfrom\r\nwin32yank\r\n\n...\\r\n";
    set_clipboard(&mut clip, v.as_bytes(), &ok, true).unwrap();
    assert_eq!(
        get_clipboard(&clip, &ok, false).unwrap(),
        "\r\nfrom\r\nwin32yank\r\n\r\n...\\r\r\n".as_bytes()
    );
}

#[test]
fn read_with_collapse() {
    let mut clip = Clipboard::empty();
    let ok = [0u32; 11];
    set_clipboard(&mut clip, b"one\r\ntwo\nthree\r", &ok, false).unwrap();
    assert_eq!(get_clipboard(&clip, &ok, true).unwrap(), b"one\ntwo\nthree\r");
}

#[test]
fn absent_text_format_reads_empty() {
    let clip = Clipboard::empty();
    let ok = [0u32; 11];
    assert_eq!(get_clipboard(&clip, &ok, false).unwrap(), b"");
    assert_eq!(get_clipboard(&clip, &ok, true).unwrap(), b"");
}

#[test]
fn contention_below_budget_still_succeeds() {
    let mut clip = Clipboard::empty();
    // ten failed attempts, then success on the eleventh and last one
    let attempts = [7u32, 7, 7, 7, 7, 7, 7, 7, 7, 7, 0];
    set_clipboard(&mut clip, b"text", &attempts, false).unwrap();
    assert_eq!(get_clipboard(&clip, &attempts, false).unwrap(), b"text");
}

#[test]
fn contention_exhausted_is_unavailable() {
    let mut clip = Clipboard::empty();
    let attempts = [7u32, 7, 7, 7, 7, 7, 7, 7, 7, 7, 9];
    let r = set_clipboard(&mut clip, b"text", &attempts, false);
    assert_eq!(r, Err(ClipboardError::Unavailable { code: 9 }));
    let g = get_clipboard(&clip, &attempts, false);
    assert_eq!(g, Err(ClipboardError::Unavailable { code: 9 }));
}

#[test]
fn failed_set_leaves_clipboard_unchanged() {
    let mut clip = Clipboard::empty();
    let ok = [0u32; 11];
    set_clipboard(&mut clip, b"before", &ok, false).unwrap();
    let all_fail = [1u32; 11];
    assert!(set_clipboard(&mut clip, b"after", &all_fail, false).is_err());
    assert_eq!(get_clipboard(&clip, &ok, false).unwrap(), b"before");
}

#[test]
fn transfer_fault_is_transfer_failed() {
    let ok = [0u32; 11];
    let mut clip = Clipboard { text: Some(b"abc".to_vec()), fault: Some(8) };
    assert_eq!(
        get_clipboard(&clip, &ok, false),
        Err(ClipboardError::TransferFailed { code: 8 })
    );
    assert_eq!(
        set_clipboard(&mut clip, b"text", &ok, false),
        Err(ClipboardError::TransferFailed { code: 8 })
    );
    assert_eq!(clip.text.as_deref(), Some(b"abc".as_slice()));
    // an absent text format is read without any payload transfer, so a
    // transfer fault does not surface there
    let faulted_empty = Clipboard { text: None, fault: Some(8) };
    assert_eq!(get_clipboard(&faulted_empty, &ok, false).unwrap(), b"");
}

#[test]
fn acquire_retries_until_success() {
    assert_eq!(acquire_session(&[3, 3, 0, 3], 3), Ok(2));
    assert_eq!(acquire_session(&[0, 1], 1), Ok(0));
    assert_eq!(acquire_session(&[4, 5, 6], 2), Err(6));
}
