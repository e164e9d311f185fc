use mytypeless::output::{
    after_keyboard, clipboard_outcome, clipboard_restore_text, clipboard_warning_for_platform,
    eq_ignore_ascii_case, fallback_outcome, first_attempt, should_auto_paste_after_clipboard,
    AfterKeyboard, ClipboardOutput, FirstAttempt, OutputMode, TextOutput,
};

#[test]
fn wayland_clipboard_output_is_copy_only() {
    assert!(!should_auto_paste_after_clipboard("wayland"));
    assert!(!should_auto_paste_after_clipboard("WAYLAND"));
}

#[test]
fn x11_clipboard_output_keeps_auto_paste() {
    assert!(should_auto_paste_after_clipboard("x11"));
    assert!(should_auto_paste_after_clipboard("unknown"));
}

#[test]
fn mixed_case_and_near_misses() {
    assert!(!should_auto_paste_after_clipboard("WayLand"));
    assert!(should_auto_paste_after_clipboard("wayland "));
    assert!(should_auto_paste_after_clipboard(""));
    assert!(eq_ignore_ascii_case("ÄbC", "Äbc"));
    assert!(!eq_ignore_ascii_case("ä", "Ä"));
}

#[test]
fn clipboard_output_constructors() {
    assert!(!ClipboardOutput::new().restore_clipboard());
    assert!(ClipboardOutput::with_restore(true).restore_clipboard());
    assert!(!ClipboardOutput::default().restore_clipboard());
    assert_eq!(ClipboardOutput::new().mode(), OutputMode::Clipboard);
}

#[test]
fn restore_text_is_backup_or_empty() {
    assert_eq!(clipboard_restore_text(Some("prev".to_string())), "prev");
    assert_eq!(clipboard_restore_text(None), "");
}

#[test]
fn wayland_warning() {
    let w = clipboard_warning_for_platform(true).unwrap();
    assert_eq!(w.code, "output_wayland_clipboard_copy_only");
    assert_eq!(w.details, None);
    assert_eq!(w.retry_count, 0);
    assert!(clipboard_warning_for_platform(false).is_none());
}

#[test]
fn fallback_flow() {
    assert_eq!(first_attempt(OutputMode::Clipboard, true), FirstAttempt::Clipboard { restore: true });
    assert_eq!(first_attempt(OutputMode::Keyboard, true), FirstAttempt::Keyboard);
    assert!(matches!(after_keyboard(Ok(())), AfterKeyboard::Done));
    match after_keyboard(Err("kb".to_string())) {
        AfterKeyboard::Fallback(e) => assert_eq!(e, "kb"),
        AfterKeyboard::Done => panic!("expected fallback"),
    }
    let ok = fallback_outcome("kb".to_string(), Ok(()), false).unwrap().unwrap();
    assert_eq!(ok.code, "output_fallback_clipboard");
    assert_eq!(ok.details.as_deref(), Some("kb"));
    let way = fallback_outcome("kb".to_string(), Ok(()), true).unwrap().unwrap();
    assert_eq!(way.code, "output_wayland_clipboard_copy_only");
    let both = fallback_outcome("kb".to_string(), Err("cb".to_string()), false).unwrap_err();
    assert_eq!(both, "Both keyboard (kb) and clipboard (cb) output failed");
    assert!(clipboard_outcome(Ok(()), false).unwrap().is_none());
    assert_eq!(clipboard_outcome(Err("x".to_string()), true).unwrap_err(), "x");
}

#[test]
fn ascii_case_comparison_matches_std() {
    let samples = ["wayland", "WAYLAND", "Wayland", "x11", "wayländ", "ß", "SS", "", "İ", "i"];
    for a in samples {
        for b in samples {
            assert_eq!(eq_ignore_ascii_case(a, b), a.eq_ignore_ascii_case(b), "{} {}", a, b);
        }
    }
}
