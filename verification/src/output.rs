//! Delivering the final text to the focused application: by simulated
//! typing or through the clipboard, and the fallback from the first to the
//! second. The keystrokes and clipboard calls themselves are made by the
//! application shell; this module decides what happens around them.
use vstd::prelude::*;

use crate::text::chars_of;

verus! {

/// How text is delivered to the target application.
#[derive(Debug, Clone, Copy, PartialEq, Eq)]
pub enum OutputMode {
    Keyboard,
    Clipboard,
}

/// A way of delivering text. The typing itself is performed by the
/// application shell, which extends this trait with it.
pub trait TextOutput {
    fn mode(&self) -> OutputMode;
}

/// Delivery through the clipboard followed by a simulated paste.
pub struct ClipboardOutput {
    /// When true, the clipboard is backed up before pasting and restored
    /// after, so the user's clipboard is not clobbered.
    restore_clipboard: bool,
}

impl ClipboardOutput {
    /// Whether the previous clipboard contents are restored after pasting.
    pub closed spec fn restores(&self) -> bool {
        self.restore_clipboard
    }

    /// A clipboard output that leaves the pasted text on the clipboard.
    pub fn new() -> (r: Self)
        ensures
            !r.restores(),
    {
        ClipboardOutput { restore_clipboard: false }
    }

    /// A clipboard output that restores the previous clipboard contents after
    /// pasting when `restore_clipboard` is true (used for terminal output,
    /// where the paste is transient).
    pub fn with_restore(restore_clipboard: bool) -> (r: Self)
        ensures
            r.restores() == restore_clipboard,
    {
        ClipboardOutput { restore_clipboard }
    }

    /// Whether the previous clipboard contents are restored after pasting.
    pub fn restore_clipboard(&self) -> (r: bool)
        ensures
            r == self.restores(),
    {
        self.restore_clipboard
    }
}

impl Default for ClipboardOutput {
    fn default() -> (r: Self)
        ensures
            !r.restores(),
    {
        Self::new()
    }
}

impl TextOutput for ClipboardOutput {
    fn mode(&self) -> (r: OutputMode)
        ensures
            r == OutputMode::Clipboard,
    {
        OutputMode::Clipboard
    }
}

/// Code point of the ASCII lowercase of `c`; other characters are unchanged.
pub open spec fn ascii_lower(c: char) -> u32 {
    if 'A' <= c && c <= 'Z' {
        ((c as u32) + 32) as u32
    } else {
        c as u32
    }
}

/// Equality up to ASCII case (`str::eq_ignore_ascii_case`).
pub open spec fn eq_ignore_ascii_case_spec(a: Seq<char>, b: Seq<char>) -> bool {
    &&& a.len() == b.len()
    &&& forall|i: int| 0 <= i < a.len() ==> ascii_lower(#[trigger] a[i]) == ascii_lower(b[i])
}

fn to_ascii_lower(c: char) -> (r: u32)
    ensures
        r == ascii_lower(c),
{
    if 'A' <= c && c <= 'Z' {
        (c as u32) + 32
    } else {
        c as u32
    }
}

/// Whether `a` and `b` are equal up to ASCII case.
pub fn eq_ignore_ascii_case(a: &str, b: &str) -> (r: bool)
    ensures
        r == eq_ignore_ascii_case_spec(a@, b@),
{
    let x = chars_of(a);
    let y = chars_of(b);
    if x.len() != y.len() {
        return false;
    }
    let mut i: usize = 0;
    while i < x.len()
        invariant
            x@ == a@,
            y@ == b@,
            x@.len() == y@.len(),
            i <= x@.len(),
            forall|k: int| 0 <= k < i ==> ascii_lower(#[trigger] x@[k]) == ascii_lower(y@[k]),
        decreases x@.len() - i,
    {
        if to_ascii_lower(x[i]) != to_ascii_lower(y[i]) {
            return false;
        }
        i = i + 1;
    }
    true
}

/// Whether the paste keystroke follows the clipboard write. Under Wayland a
/// simulated keystroke cannot reach other applications, so the text is only
/// copied.
pub fn should_auto_paste_after_clipboard(session_type: &str) -> (r: bool)
    ensures
        r == !eq_ignore_ascii_case_spec(session_type@, "wayland"@),
{
    !eq_ignore_ascii_case(session_type, "wayland")
}

/// What the clipboard holds after a paste that restores it: the backed-up
/// text, or the empty text when the clipboard was empty or unreadable, so
/// that the dictation does not linger.
pub fn clipboard_restore_text(backup: Option<String>) -> (r: String)
    ensures
        r@ == match backup {
            Some(prev) => prev@,
            None => Seq::<char>::empty(),
        },
{
    match backup {
        Some(prev) => prev,
        None => String::new(),
    }
}

/// An error or warning shown to the user, identified by a code.
#[derive(Debug, Clone)]
pub struct UserError {
    pub code: String,
    pub details: Option<String>,
    pub retry_count: u32,
}

/// Code of the warning that under Wayland the text was only copied.
pub const WAYLAND_COPY_ONLY_CODE: &'static str = "output_wayland_clipboard_copy_only";

/// Code of the warning that keyboard output failed and the clipboard was used.
pub const FALLBACK_CLIPBOARD_CODE: &'static str = "output_fallback_clipboard";

/// Opens the error of a failed fallback.
pub const BOTH_FAILED_PREFIX: &'static str = "Both keyboard (";

/// Separates the two errors of a failed fallback.
pub const BOTH_FAILED_MIDDLE: &'static str = ") and clipboard (";

/// Closes the error of a failed fallback.
pub const BOTH_FAILED_SUFFIX: &'static str = ") output failed";

/// Whether `w` is the warning with code `code`, the given details and no
/// retries.
pub open spec fn is_warning(w: UserError, code: Seq<char>, details: Option<Seq<char>>) -> bool {
    &&& w.code@ == code
    &&& match (w.details, details) {
        (None, None) => true,
        (Some(d), Some(e)) => d@ == e,
        _ => false,
    }
    &&& w.retry_count == 0
}

/// The warning that clipboard output gives on this platform: under Wayland
/// the text is only copied, not pasted.
pub fn clipboard_warning_for_platform(is_wayland: bool) -> (r: Option<UserError>)
    ensures
        is_wayland <==> r is Some,
        r matches Some(w) ==> is_warning(w, WAYLAND_COPY_ONLY_CODE@, None),
{
    if is_wayland {
        Some(UserError { code: String::from_str(WAYLAND_COPY_ONLY_CODE), details: None, retry_count: 0 })
    } else {
        None
    }
}

/// First delivery attempt for an output mode.
#[derive(Debug, Clone, Copy, PartialEq, Eq)]
pub enum FirstAttempt {
    /// Clipboard mode: paste through the clipboard, restoring it if asked.
    Clipboard { restore: bool },
    /// Keyboard mode: type, falling back to the clipboard on failure.
    Keyboard,
}

/// The first delivery attempt for `mode`.
pub fn first_attempt(mode: OutputMode, restore_clipboard: bool) -> (r: FirstAttempt)
    ensures
        mode == OutputMode::Clipboard ==> r == (FirstAttempt::Clipboard {
            restore: restore_clipboard,
        }),
        mode == OutputMode::Keyboard ==> r == FirstAttempt::Keyboard,
{
    match mode {
        OutputMode::Clipboard => FirstAttempt::Clipboard { restore: restore_clipboard },
        OutputMode::Keyboard => FirstAttempt::Keyboard,
    }
}

/// Outcome of clipboard mode: the platform warning on success, the error
/// otherwise.
pub fn clipboard_outcome(result: Result<(), String>, is_wayland: bool) -> (r: Result<
    Option<UserError>,
    String,
>)
    ensures
        result is Ok ==> (r matches Ok(w) && (w is Some <==> is_wayland) && (w matches Some(u)
            ==> is_warning(u, WAYLAND_COPY_ONLY_CODE@, None))),
        result matches Err(e) ==> (r matches Err(m) && m@ == e@),
{
    match result {
        Ok(()) => Ok(clipboard_warning_for_platform(is_wayland)),
        Err(e) => Err(e),
    }
}

/// What follows the keyboard attempt.
pub enum AfterKeyboard {
    /// Typing succeeded: no warning.
    Done,
    /// Typing failed with this error: try the clipboard.
    Fallback(String),
}

/// What follows the keyboard attempt: nothing on success, the clipboard on
/// failure.
pub fn after_keyboard(result: Result<(), String>) -> (r: AfterKeyboard)
    ensures
        result is Ok ==> r is Done,
        result matches Err(e) ==> (r matches AfterKeyboard::Fallback(k) && k@ == e@),
{
    match result {
        Ok(()) => AfterKeyboard::Done,
        Err(e) => AfterKeyboard::Fallback(e),
    }
}

/// Outcome after keyboard output failed with `keyboard_error` and the
/// clipboard was tried: on success the platform warning or, without one, the
/// fallback warning that carries the keyboard error; on failure an error that
/// names both.
pub fn fallback_outcome(keyboard_error: String, clipboard: Result<(), String>, is_wayland: bool) -> (r:
    Result<Option<UserError>, String>)
    ensures
        clipboard is Ok && is_wayland ==> (r matches Ok(Some(u)) && is_warning(
            u,
            WAYLAND_COPY_ONLY_CODE@,
            None,
        )),
        clipboard is Ok && !is_wayland ==> (r matches Ok(Some(u)) && is_warning(
            u,
            FALLBACK_CLIPBOARD_CODE@,
            Some(keyboard_error@),
        )),
        clipboard matches Err(c) ==> (r matches Err(m) && m@ == BOTH_FAILED_PREFIX@
            + keyboard_error@ + BOTH_FAILED_MIDDLE@ + c@ + BOTH_FAILED_SUFFIX@),
{
    match clipboard {
        Ok(()) => match clipboard_warning_for_platform(is_wayland) {
            Some(w) => Ok(Some(w)),
            None => Ok(
                Some(
                    UserError {
                        code: String::from_str(FALLBACK_CLIPBOARD_CODE),
                        details: Some(keyboard_error),
                        retry_count: 0,
                    },
                ),
            ),
        },
        Err(c) => {
            let mut m = String::from_str(BOTH_FAILED_PREFIX);
            m.append(keyboard_error.as_str());
            m.append(BOTH_FAILED_MIDDLE);
            m.append(c.as_str());
            m.append(BOTH_FAILED_SUFFIX);
            Err(m)
        },
    }
}

} // verus!
