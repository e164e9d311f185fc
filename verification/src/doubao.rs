//! The audio-native Doubao provider: the parts of its requests and replies
//! that do not touch the network. The reply of a voice edit is a JSON object
//! that selects one of three actions; the request carries the recording as
//! base64 WAV and the current text with a cursor marker.
use vstd::prelude::*;

use crate::audio::{
    insert_cursor_marker, law_cursor_marker_roundtrip, pcm_to_wav, wav_file, with_cursor_marker, CURSOR_MARKER, MIN_UPLOAD_BYTES,
    SAMPLE_RATE,
};
use crate::outside::{
    all_ascii, ascii_lowercase_char, base64_encode, base64_standard, json_reply_fields, lowercase,
    parse_json_reply, push_char, to_lowercase,
};
use crate::text::{
    opt_view, chars_eq, chars_of, lemma_utf8_len_bounds, push_chars, trim, trim_chars, utf8_len,
};

verus! {

pub const DOUBAO_AUDIO_PROVIDER: &'static str = "doubao-audio";

pub const DOUBAO_AUDIO_MODEL: &'static str = "doubao-seed-2-0-lite-260428";

pub const ARK_BASE_URL: &'static str = "https://ark.cn-beijing.volces.com/api/v3";

/// Instruction sent with the recording when transcribing and polishing.
pub const TRANSCRIBE_INSTRUCTION: &'static str = "Transcribe the speech in this audio, then POLISH it per the rules: add punctuation, remove filler words and repetitions, fix false starts, and format lists/paragraphs. Do NOT return a raw verbatim transcript — return clean, typed-quality text. Output only the final polished text, nothing else.";

/// Opens the user message of a voice edit, before the cursor marker.
pub const EDIT_USER_TEXT_PREFIX: &'static str = "The user's CURRENT TEXT (with a ";

/// Follows the cursor marker in the user message of a voice edit.
pub const EDIT_USER_TEXT_MIDDLE: &'static str = " cursor marker) is between the tags below. The AUDIO is either an edit command or new dictation to insert at the marker. Decide the action and reply with ONLY the JSON object.\n<current_text>\n";

/// Closes the user message of a voice edit.
pub const EDIT_USER_TEXT_SUFFIX: &'static str = "\n</current_text>";

/// Path of the chat completions endpoint below the base URL.
pub const CHAT_COMPLETIONS_PATH: &'static str = "/chat/completions";

/// Prefix of the Authorization header value.
pub const BEARER_PREFIX: &'static str = "Bearer ";

/// Message of a rejected key, before the HTTP status.
pub const AUTH_REJECTED_PREFIX: &'static str = "Doubao audio API key rejected (HTTP ";

/// Closes the message of a rejected key.
pub const AUTH_REJECTED_SUFFIX: &'static str = ")";

/// Message of an exceeded quota.
pub const QUOTA_EXCEEDED: &'static str = "Doubao audio API quota exceeded";

/// Message of a reply that names no known action, before the reply.
pub const UNRECOGNIZED_ACTION_PREFIX: &'static str = "Unrecognized edit action: ";

/// Message of a provider used after it has been disconnected.
pub const USED_AFTER_DISCONNECT: &'static str = "DoubaoAudio: provider used after disconnect";

/// At most this many bytes of an error body are kept.
pub const ERROR_BODY_MAX_BYTES: usize = 300;

/// The "action" and "text" fields of a JSON reply, each present only when it
/// holds a string.
pub struct JsonReplyFields {
    pub action: Option<String>,
    pub text: Option<String>,
}

/// Errors of the transcription and editing pipeline.
#[derive(Debug, Clone)]
pub enum AppError {
    Output(String),
    Network(String),
    Auth(String),
    Quota(String),
    Api { status: u16, body: String },
    Config(String),
}

/// Structured action returned by the audio model when editing a preview by
/// voice.
#[derive(Debug, Clone, PartialEq)]
pub enum EditAction {
    /// Replace the preview text with this new full text.
    Edit(String),
    /// Output the current preview text to the target app.
    Send,
    /// Discard the preview and re-record from scratch.
    Rerecord,
}

/// The mathematical value of an [`EditAction`].
pub enum EditActionModel {
    Edit(Seq<char>),
    Send,
    Rerecord,
}

impl View for EditAction {
    type V = EditActionModel;

    open spec fn view(&self) -> EditActionModel {
        match self {
            EditAction::Edit(t) => EditActionModel::Edit(t@),
            EditAction::Send => EditActionModel::Send,
            EditAction::Rerecord => EditActionModel::Rerecord,
        }
    }
}

/// The view of an optional edit action.
pub open spec fn opt_action_view(o: Option<EditAction>) -> Option<EditActionModel> {
    match o {
        Some(a) => Some(a@),
        None => None,
    }
}

// ─── Locating the JSON object in a reply ───

/// Index of the first `c` in `s`, or `s.len()` when there is none.
pub open spec fn first_index(s: Seq<char>, c: char) -> int
    decreases s.len(),
{
    if s.len() == 0 {
        0
    } else if s[0] == c {
        0
    } else {
        1 + first_index(s.drop_first(), c)
    }
}

/// Index of the last `c` in `s`, or `-1` when there is none.
pub open spec fn last_index(s: Seq<char>, c: char) -> int
    decreases s.len(),
{
    if s.len() == 0 {
        -1
    } else if s.last() == c {
        s.len() - 1
    } else {
        last_index(s.drop_last(), c)
    }
}

/// The text from the first `{` through the last `}`, if both exist in that
/// order.
pub open spec fn json_object_span(s: Seq<char>) -> Option<Seq<char>> {
    let a = first_index(s, '{');
    let b = last_index(s, '}');
    if a >= s.len() || b < 0 || b < a {
        None
    } else {
        Some(s.subrange(a, b + 1))
    }
}

proof fn lemma_first_index(s: Seq<char>, c: char, i: int)
    requires
        0 <= i <= s.len(),
        forall|k: int| 0 <= k < i ==> #[trigger] s[k] != c,
        i == s.len() || s[i] == c,
    ensures
        first_index(s, c) == i,
    decreases i,
{
    if i > 0 {
        let t = s.drop_first();
        assert forall|k: int| 0 <= k < i - 1 implies #[trigger] t[k] != c by {
            assert(t[k] == s[k + 1]);
        }
        if i - 1 < t.len() {
            assert(t[i - 1] == s[i]);
        }
        lemma_first_index(t, c, i - 1);
    }
}

proof fn lemma_last_index(s: Seq<char>, c: char, j: int)
    requires
        -1 <= j < s.len(),
        forall|k: int| j < k < s.len() ==> #[trigger] s[k] != c,
        j == -1 || s[j] == c,
    ensures
        last_index(s, c) == j,
    decreases s.len(),
{
    if s.len() > 0 && j < s.len() - 1 {
        let t = s.drop_last();
        assert forall|k: int| j < k < t.len() implies #[trigger] t[k] != c by {
            assert(t[k] == s[k]);
        }
        if j >= 0 {
            assert(t[j] == s[j]);
        }
        lemma_last_index(t, c, j);
    }
}

/// The text from the first `{` through the last `}` of `content`, if both
/// exist in that order.
pub fn extract_json_object(content: &str) -> (r: Option<String>)
    ensures
        opt_view(r) == json_object_span(content@),
{
    let v = chars_of(content);
    let n = v.len();
    let mut a: usize = 0;
    while a < n && v[a] != '{'
        invariant
            n == v@.len(),
            a <= n,
            forall|k: int| 0 <= k < a ==> #[trigger] v@[k] != '{',
        decreases n - a,
    {
        a = a + 1;
    }
    proof {
        lemma_first_index(v@, '{', a as int);
    }
    if a == n {
        return None;
    }
    let mut b: usize = n;
    while b > 0 && v[b - 1] != '}'
        invariant
            n == v@.len(),
            b <= n,
            forall|k: int| b <= k < n ==> #[trigger] v@[k] != '}',
        decreases b,
    {
        b = b - 1;
    }
    proof {
        lemma_last_index(v@, '}', b - 1);
    }
    if b == 0 || b - 1 < a {
        return None;
    }
    let mut s = String::new();
    push_chars(&mut s, &v, a, b);
    Some(s)
}

// ─── Interpreting the reply ───

/// The trimmed, lowercased action: ASCII text is lowercased letter by
/// letter; other text as `str::to_lowercase` does it.
pub open spec fn action_key(a: Seq<char>) -> Seq<char> {
    let t = trim_chars(a);
    if all_ascii(t) {
        t.map_values(|c: char| ascii_lowercase_char(c))
    } else {
        lowercase(t)
    }
}

/// The action that the fields of a reply select: the trimmed, lowercased
/// "action" must be "send", "rerecord" or "edit"; an edit carries the trimmed
/// "text", or the empty text when "text" is not a string.
pub open spec fn action_from_fields(action: Option<Seq<char>>, text: Option<Seq<char>>) -> Option<
    EditActionModel,
> {
    match action {
        None => None,
        Some(a) => {
            let key = action_key(a);
            if key == "send"@ {
                Some(EditActionModel::Send)
            } else if key == "rerecord"@ {
                Some(EditActionModel::Rerecord)
            } else if key == "edit"@ {
                Some(
                    EditActionModel::Edit(
                        match text {
                            Some(t) => trim_chars(t),
                            None => Seq::empty(),
                        },
                    ),
                )
            } else {
                None
            }
        },
    }
}

/// The action that the model's reply `content` selects: the JSON object
/// spanning the first `{` to the last `}` is parsed and its fields read.
pub open spec fn parse_edit_action_spec(content: Seq<char>) -> Option<EditActionModel> {
    match json_object_span(content) {
        None => None,
        Some(json) => match json_reply_fields(json) {
            None => None,
            Some(fields) => action_from_fields(fields.0, fields.1),
        },
    }
}

/// The action that the fields of a parsed reply select.
pub fn edit_action_from_fields(fields: &JsonReplyFields) -> (r: Option<EditAction>)
    ensures
        opt_action_view(r) == action_from_fields(opt_view(fields.action), opt_view(fields.text)),
{
    match &fields.action {
        None => None,
        Some(a) => {
            let trimmed = trim(a.as_str());
            let key = chars_of(to_lowercase(trimmed.as_str()).as_str());
            if chars_eq(&key, "send") {
                Some(EditAction::Send)
            } else if chars_eq(&key, "rerecord") {
                Some(EditAction::Rerecord)
            } else if chars_eq(&key, "edit") {
                let text = match &fields.text {
                    Some(t) => trim(t.as_str()),
                    None => String::new(),
                };
                Some(EditAction::Edit(text))
            } else {
                None
            }
        },
    }
}

/// Parses the model's reply into an [`EditAction`]. Tolerant of surrounding
/// prose and code fences: the JSON object is taken from the first `{` to the
/// last `}`.
pub fn parse_edit_action(content: &str) -> (r: Option<EditAction>)
    ensures
        opt_action_view(r) == parse_edit_action_spec(content@),
{
    let json = match extract_json_object(content) {
        Some(j) => j,
        None => return None,
    };
    match parse_json_reply(json.as_str()) {
        None => None,
        Some(fields) => edit_action_from_fields(&fields),
    }
}

/// The action of a reply, or the configuration error that names the reply.
pub fn edit_action_result(content: &str) -> (r: Result<EditAction, AppError>)
    ensures
        match r {
            Ok(a) => parse_edit_action_spec(content@) == Some(a@),
            Err(AppError::Config(m)) => parse_edit_action_spec(content@) is None && m@
                == UNRECOGNIZED_ACTION_PREFIX@ + content@,
            Err(_) => false,
        },
{
    match parse_edit_action(content) {
        Some(a) => Ok(a),
        None => {
            let mut m = String::from_str(UNRECOGNIZED_ACTION_PREFIX);
            m.append(content);
            Err(AppError::Config(m))
        },
    }
}

// ─── Requests ───

/// The recording as base64 of its WAV container at 16 kHz.
pub fn audio_payload(pcm: &[u8]) -> (r: String)
    requires
        (pcm@.len() as u32) + 36 <= u32::MAX,
    ensures
        r@ == base64_standard(wav_file(pcm@, SAMPLE_RATE)),
{
    let wav = pcm_to_wav(pcm, SAMPLE_RATE);
    base64_encode(wav.as_slice())
}

/// The user message of a voice edit, which carries the current text with the
/// cursor marker at `caret_offset`.
pub open spec fn edit_user_text_spec(current_text: Seq<char>, caret_offset: usize) -> Seq<char> {
    EDIT_USER_TEXT_PREFIX@ + CURSOR_MARKER@ + EDIT_USER_TEXT_MIDDLE@ + with_cursor_marker(
        current_text,
        caret_offset,
    ) + EDIT_USER_TEXT_SUFFIX@
}

/// The user message of a voice edit.
pub fn edit_user_text(current_text: &str, caret_offset: usize) -> (r: String)
    ensures
        r@ == edit_user_text_spec(current_text@, caret_offset),
{
    let marked = insert_cursor_marker(current_text, caret_offset);
    let mut s = String::from_str(EDIT_USER_TEXT_PREFIX);
    s.append(CURSOR_MARKER);
    s.append(EDIT_USER_TEXT_MIDDLE);
    s.append(marked.as_str());
    s.append(EDIT_USER_TEXT_SUFFIX);
    s
}

/// What a voice-edit request sends besides the model and system prompt.
pub struct EditRequest {
    /// The spoken command as base64 WAV.
    pub audio_base64: String,
    /// The current text with the cursor marker, wrapped in its instructions.
    pub user_text: String,
}

/// The audio and text parts of a voice-edit request.
pub fn edit_request(current_text: &str, audio_pcm: &[u8], caret_offset: usize) -> (r: EditRequest)
    requires
        (audio_pcm@.len() as u32) + 36 <= u32::MAX,
    ensures
        r.audio_base64@ == base64_standard(wav_file(audio_pcm@, SAMPLE_RATE)),
        r.user_text@ == edit_user_text_spec(current_text@, caret_offset),
{
    EditRequest {
        audio_base64: audio_payload(audio_pcm),
        user_text: edit_user_text(current_text, caret_offset),
    }
}

/// `s` without its trailing `c` characters (`trim_end_matches`).
pub open spec fn trim_end_char(s: Seq<char>, c: char) -> Seq<char>
    decreases s.len(),
{
    if s.len() > 0 && s.last() == c {
        trim_end_char(s.drop_last(), c)
    } else {
        s
    }
}

/// The chat completions endpoint below `base_url`.
pub open spec fn chat_completions_url_spec(base_url: Seq<char>) -> Seq<char> {
    trim_end_char(base_url, '/') + CHAT_COMPLETIONS_PATH@
}

/// The chat completions endpoint below `base_url`, whose trailing slashes
/// are dropped.
pub fn chat_completions_url(base_url: &str) -> (r: String)
    ensures
        r@ == chat_completions_url_spec(base_url@),
{
    let v = chars_of(base_url);
    let mut n = v.len();
    assert(v@.take(n as int) == v@);
    while n > 0 && v[n - 1] == '/'
        invariant
            n <= v@.len(),
            trim_end_char(v@.take(n as int), '/') == trim_end_char(v@, '/'),
        decreases n,
    {
        assert(v@.take(n as int).drop_last() == v@.take(n - 1));
        n = n - 1;
    }
    let mut s = String::new();
    push_chars(&mut s, &v, 0, n);
    assert(v@.subrange(0, n as int) == v@.take(n as int));
    assert(v@.take(v@.len() as int) == v@);
    s.append(CHAT_COMPLETIONS_PATH);
    s
}

/// The value of the Authorization header for `api_key`.
pub fn bearer_header(api_key: &str) -> (r: String)
    ensures
        r@ == BEARER_PREFIX@ + api_key@,
{
    let mut s = String::from_str(BEARER_PREFIX);
    s.append(api_key);
    s
}

// ─── Replies ───

/// The decimal digit for `d < 10`.
pub open spec fn digit_char(d: nat) -> char {
    ((d + 48) as u32) as char
}

/// Decimal representation of `n`, without leading zeros.
pub open spec fn decimal(n: nat) -> Seq<char>
    decreases n,
{
    if n < 10 {
        seq![digit_char(n)]
    } else {
        decimal(n / 10).push(digit_char(n % 10))
    }
}

fn push_decimal(s: &mut String, n: u16)
    ensures
        final(s)@ == old(s)@ + decimal(n as nat),
    decreases n,
{
    if n >= 10 {
        push_decimal(s, n / 10);
    }
    let d = (n % 10) as u8;
    let c = (d + 48u8) as char;
    assert(c == digit_char((n % 10) as nat));
    push_char(s, c);
}

/// How a reply's HTTP status is handled.
#[derive(Debug, Clone, Copy, PartialEq, Eq)]
pub enum StatusClass {
    /// 2xx: the reply body is read.
    Success,
    /// 401 or 403: the key was rejected.
    AuthRejected,
    /// 429: the quota is exhausted.
    QuotaExceeded,
    /// Any other status: the body is kept in the error.
    Failed,
}

/// How a status is handled.
pub open spec fn status_class_spec(status: u16) -> StatusClass {
    if status == 401 || status == 403 {
        StatusClass::AuthRejected
    } else if status == 429 {
        StatusClass::QuotaExceeded
    } else if 200 <= status <= 299 {
        StatusClass::Success
    } else {
        StatusClass::Failed
    }
}

/// Classifies a reply's HTTP status.
pub fn status_class(status: u16) -> (r: StatusClass)
    ensures
        r == status_class_spec(status),
{
    if status == 401 || status == 403 {
        StatusClass::AuthRejected
    } else if status == 429 {
        StatusClass::QuotaExceeded
    } else if 200 <= status && status <= 299 {
        StatusClass::Success
    } else {
        StatusClass::Failed
    }
}

/// The error for a rejected key or an exhausted quota; `None` for any other
/// status.
pub fn status_error(status: u16) -> (r: Option<AppError>)
    ensures
        match r {
            None => status_class_spec(status) != StatusClass::AuthRejected && status_class_spec(
                status,
            ) != StatusClass::QuotaExceeded,
            Some(AppError::Auth(m)) => status_class_spec(status) == StatusClass::AuthRejected
                && m@ == AUTH_REJECTED_PREFIX@ + decimal(status as nat) + AUTH_REJECTED_SUFFIX@,
            Some(AppError::Quota(m)) => status_class_spec(status) == StatusClass::QuotaExceeded
                && m@ == QUOTA_EXCEEDED@,
            Some(_) => false,
        },
{
    match status_class(status) {
        StatusClass::AuthRejected => {
            let mut m = String::from_str(AUTH_REJECTED_PREFIX);
            push_decimal(&mut m, status);
            m.append(AUTH_REJECTED_SUFFIX);
            Some(AppError::Auth(m))
        },
        StatusClass::QuotaExceeded => Some(AppError::Quota(String::from_str(QUOTA_EXCEEDED))),
        _ => None,
    }
}

/// `a + b` has the UTF-8 encoding of `a` followed by that of `b`.
pub proof fn lemma_utf8_len_concat(a: Seq<char>, b: Seq<char>)
    ensures
        utf8_len(a + b) == utf8_len(a) + utf8_len(b),
    decreases a.len(),
{
    if a.len() > 0 {
        lemma_utf8_len_concat(a.drop_first(), b);
        assert((a + b).drop_first() == a.drop_first() + b);
    } else {
        assert(a + b == b);
    }
}

/// Number of bytes of the UTF-8 encoding of `c`.
pub open spec fn char_utf8_len(c: char) -> nat {
    vstd::utf8::encode_scalar(c as u32).len()
}

fn utf8_width(c: char) -> (r: usize)
    ensures
        r == char_utf8_len(c),
{
    let u = c as u32;
    proof {
        vstd::utf8::char_is_scalar(c);
    }
    if u <= 0x7f {
        1
    } else if u <= 0x7ff {
        2
    } else if u <= 0xffff {
        3
    } else {
        4
    }
}

/// Whether a prefix of `body` takes exactly `k` bytes.
pub open spec fn is_char_boundary_at(body: Seq<char>, k: nat) -> bool {
    exists|i: int| 0 <= i <= body.len() && utf8_len(#[trigger] body.take(i)) == k
}

/// Number of bytes of an error body that is kept.
pub open spec fn kept_body_bytes(body: Seq<char>) -> nat {
    if utf8_len(body) <= ERROR_BODY_MAX_BYTES {
        utf8_len(body)
    } else {
        ERROR_BODY_MAX_BYTES as nat
    }
}

/// The error of a failed reply, which keeps the first 300 bytes of its body.
/// The body is cut by bytes, so the cut must fall on a character boundary.
pub fn api_error(status: u16, body: &str) -> (r: AppError)
    requires
        is_char_boundary_at(body@, kept_body_bytes(body@)),
    ensures
        r matches AppError::Api { status: s, body: b } && s == status && utf8_len(b@)
            == kept_body_bytes(body@) && body@.take(b@.len() as int) == b@,
{
    let v = chars_of(body);
    let ghost k = kept_body_bytes(body@);
    let ghost w = choose|i: int| 0 <= i <= body@.len() && utf8_len(#[trigger] body@.take(i)) == k;
    let mut i: usize = 0;
    let mut bytes: usize = 0;
    proof {
        assert(v@.take(0) == Seq::<char>::empty());
        vstd::utf8::encode_utf8(Seq::<char>::empty());
    }
    while i < v.len() && bytes < ERROR_BODY_MAX_BYTES
        invariant
            v@ == body@,
            0 <= w <= v@.len(),
            utf8_len(v@.take(w)) == k,
            k == kept_body_bytes(v@),
            i <= w,
            bytes == utf8_len(v@.take(i as int)),
            bytes <= k,
        decreases v@.len() - i,
    {
        let c = v[i];
        let cw = utf8_width(c);
        proof {
            if bytes == k {
                assert(v@ == v@.take(i as int) + v@.skip(i as int));
                lemma_utf8_len_concat(v@.take(i as int), v@.skip(i as int));
                lemma_utf8_len_bounds(v@.skip(i as int));
                assert(false);
            }
            assert(i < w);
            assert(v@.take(i + 1) == v@.take(i as int) + seq![c]);
            lemma_utf8_len_concat(v@.take(i as int), seq![c]);
            assert(seq![c].drop_first() == Seq::<char>::empty());
            assert(vstd::utf8::encode_utf8(seq![c]) == vstd::utf8::encode_scalar(c as u32)
                + vstd::utf8::encode_utf8(Seq::<char>::empty()));
            assert(vstd::utf8::encode_utf8(Seq::<char>::empty()) == Seq::<u8>::empty());
            assert(utf8_len(seq![c]) == char_utf8_len(c));
            assert(v@.take(w) == v@.take(i + 1) + v@.subrange(i + 1, w));
            lemma_utf8_len_concat(v@.take(i + 1), v@.subrange(i + 1, w));
        }
        bytes = bytes + cw;
        i = i + 1;
    }
    proof {
        if i == v.len() {
            assert(v@.take(i as int) == v@);
        }
    }
    let mut kept = String::new();
    push_chars(&mut kept, &v, 0, i);
    assert(v@.subrange(0, i as int) == v@.take(i as int));
    AppError::Api { status, body: kept }
}

// ─── Usage accounting ───

/// Token counts of one billable call, split by how they are priced.
#[derive(Debug, Clone, Copy, PartialEq, Eq)]
pub struct UsageTokens {
    pub audio: i64,
    pub text_in: i64,
    pub output: i64,
}

/// The non-audio part of the prompt tokens, never below zero.
pub open spec fn text_input_spec(prompt_tokens: int, audio_tokens: int) -> int {
    if prompt_tokens - audio_tokens > 0 {
        prompt_tokens - audio_tokens
    } else {
        0
    }
}

/// Prompt tokens billed as text input: the prompt tokens that are not audio,
/// never below zero.
pub fn text_input_tokens(prompt_tokens: i64, audio_tokens: i64) -> (r: i64)
    requires
        i64::MIN <= prompt_tokens - audio_tokens <= i64::MAX,
    ensures
        r == text_input_spec(prompt_tokens as int, audio_tokens as int),
{
    let d = prompt_tokens - audio_tokens;
    if d > 0 {
        d
    } else {
        0
    }
}

/// A count read from the reply's usage block, or zero when it is missing.
pub open spec fn count_or_zero(c: Option<i64>) -> int {
    match c {
        Some(n) => n as int,
        None => 0,
    }
}

/// The billable split of a reply's usage block: `prompt_tokens`,
/// `completion_tokens` and `prompt_tokens_details.audio_tokens`, each zero
/// when missing; the prompt tokens that are not audio are billed as text.
pub fn usage_tokens(prompt: Option<i64>, completion: Option<i64>, audio: Option<i64>) -> (r:
    UsageTokens)
    requires
        i64::MIN <= count_or_zero(prompt) - count_or_zero(audio) <= i64::MAX,
    ensures
        r.audio == count_or_zero(audio),
        r.output == count_or_zero(completion),
        r.text_in == text_input_spec(count_or_zero(prompt), count_or_zero(audio)),
{
    let p = match prompt {
        Some(n) => n,
        None => 0,
    };
    let o = match completion {
        Some(n) => n,
        None => 0,
    };
    let a = match audio {
        Some(n) => n,
        None => 0,
    };
    UsageTokens { audio: a, text_in: text_input_tokens(p, a), output: o }
}

// ─── Finishing a dictation ───

/// What `disconnect` does with the buffered recording.
#[derive(Debug, Clone, Copy, PartialEq, Eq)]
pub enum UploadDecision {
    /// The provider's configuration was already taken: a configuration error.
    UsedAfterDisconnect,
    /// Too little audio to hold speech: the empty transcript, no request.
    NoSpeech,
    /// Upload the recording (silence-trimmed or not).
    Upload { trim_silence: bool },
}

/// One `disconnect` of the provider: whether it still holds its
/// configuration afterwards, and what it does with `buffered` bytes of
/// audio. The configuration is taken before the buffer is looked at, so a
/// provider never holds it after a `disconnect` (a second call is a
/// configuration error, also after a too-short recording).
pub fn upload_decision(has_config: bool, buffered: usize, trim_silence: bool) -> (r: (
    bool,
    UploadDecision,
))
    ensures
        !r.0,
        !has_config ==> r.1 == UploadDecision::UsedAfterDisconnect,
        has_config && buffered < MIN_UPLOAD_BYTES ==> r.1 == UploadDecision::NoSpeech,
        has_config && buffered >= MIN_UPLOAD_BYTES ==> r.1 == (UploadDecision::Upload {
            trim_silence,
        }),
{
    if !has_config {
        (false, UploadDecision::UsedAfterDisconnect)
    } else if buffered < MIN_UPLOAD_BYTES {
        (false, UploadDecision::NoSpeech)
    } else {
        (false, UploadDecision::Upload { trim_silence })
    }
}

/// The configuration error of a provider used after `disconnect`.
pub fn used_after_disconnect_error() -> (r: AppError)
    ensures
        r matches AppError::Config(m) && m@ == USED_AFTER_DISCONNECT@,
{
    AppError::Config(String::from_str(USED_AFTER_DISCONNECT))
}

/// The final transcript of a reply: its content, trimmed.
pub fn transcript_from_content(content: &str) -> (r: String)
    ensures
        r@ == trim_chars(content@),
{
    trim(content)
}

} // verus!

verus! {

// ─── Laws ───

/// Prose before the JSON object (without a `{`) and after it (without a
/// `}`), such as an explanation or a code fence, does not change how the
/// reply is read.
pub proof fn law_parse_ignores_surrounding_text(before: Seq<char>, json: Seq<char>, after: Seq<char>)
    requires
        json.len() >= 2,
        json[0] == '{',
        json.last() == '}',
        forall|i: int| 0 <= i < before.len() ==> #[trigger] before[i] != '{',
        forall|i: int| 0 <= i < after.len() ==> #[trigger] after[i] != '}',
    ensures
        json_object_span(before + json + after) == Some(json),
        json_object_span(json) == Some(json),
        parse_edit_action_spec(before + json + after) == parse_edit_action_spec(json),
{
    let s = before + json + after;
    let a = before.len() as int;
    let b = a + json.len() - 1;
    assert forall|k: int| 0 <= k < a implies #[trigger] s[k] != '{' by {
        assert(s[k] == before[k]);
    }
    assert(s[a] == json[0]);
    lemma_first_index(s, '{', a);
    assert forall|k: int| b < k < s.len() implies #[trigger] s[k] != '}' by {
        assert(s[k] == after[k - a - json.len()]);
    }
    assert(s[b] == json[json.len() - 1]);
    lemma_last_index(s, '}', b);
    assert(s.subrange(a, b + 1) == json);
    lemma_first_index(json, '{', 0);
    assert forall|k: int| json.len() - 1 < k < json.len() implies #[trigger] json[k] != '}' by {}
    lemma_last_index(json, '}', json.len() - 1);
    assert(json.subrange(0, json.len() as int) == json);
}

/// A reply without a `{` names no action.
pub proof fn law_reply_without_object_is_rejected(content: Seq<char>)
    requires
        forall|i: int| 0 <= i < content.len() ==> #[trigger] content[i] != '{',
    ensures
        parse_edit_action_spec(content) is None,
{
    lemma_first_index(content, '{', content.len() as int);
}

/// Only the three known actions are ever returned, and only "edit" carries
/// text.
pub proof fn law_actions_come_from_the_action_field(action: Option<Seq<char>>, text: Option<Seq<char>>)
    ensures
        action is None ==> action_from_fields(action, text) is None,
        action_from_fields(action, text) matches Some(EditActionModel::Send) ==> action_key(action->0) == "send"@,
        action_from_fields(action, text) matches Some(EditActionModel::Rerecord) ==> action_key(action->0) == "rerecord"@,
        action_from_fields(action, text) matches Some(EditActionModel::Edit(t)) ==> action_key(action->0) == "edit"@ && t == match text {
            Some(x) => trim_chars(x),
            None => Seq::<char>::empty(),
        },
{
}

} // verus!

verus! {

/// The user message of a voice edit is its fixed opening, then the current
/// text with exactly one cursor marker, then the closing tag. The marker
/// stands at the caret offset when the caret lies within the text (index 0
/// included) and at the end otherwise; taking it out gives the current text
/// back.
pub proof fn law_edit_text_marks_the_caret(current_text: Seq<char>, caret_offset: usize)
    ensures
        ({
            let u = edit_user_text_spec(current_text, caret_offset);
            let head = EDIT_USER_TEXT_PREFIX@ + CURSOR_MARKER@ + EDIT_USER_TEXT_MIDDLE@;
            let n = current_text.len() + 1;
            let marked = u.subrange(head.len() as int, (head.len() + n) as int);
            let p = if caret_offset <= current_text.len() {
                caret_offset as int
            } else {
                current_text.len() as int
            };
            &&& u.len() == head.len() + n + EDIT_USER_TEXT_SUFFIX@.len()
            &&& u.take(head.len() as int) == head
            &&& u.skip((head.len() + n) as int) == EDIT_USER_TEXT_SUFFIX@
            &&& marked.len() == n
            &&& marked[p] == CURSOR_MARKER@[0]
            &&& marked.remove(p) == current_text
            &&& caret_offset <= current_text.len() ==> marked.take(caret_offset as int)
                == current_text.take(caret_offset as int)
        }),
{
    law_cursor_marker_roundtrip(current_text, caret_offset);
    let head = EDIT_USER_TEXT_PREFIX@ + CURSOR_MARKER@ + EDIT_USER_TEXT_MIDDLE@;
    let m = with_cursor_marker(current_text, caret_offset);
    let u = edit_user_text_spec(current_text, caret_offset);
    assert(u == head + m + EDIT_USER_TEXT_SUFFIX@);
    assert(u.take(head.len() as int) =~= head);
    assert(u.subrange(head.len() as int, (head.len() + m.len()) as int) =~= m);
    assert(u.skip((head.len() + m.len()) as int) =~= EDIT_USER_TEXT_SUFFIX@);
    if caret_offset <= current_text.len() {
        assert(m.take(caret_offset as int) =~= current_text.take(caret_offset as int));
    }
}

/// A reply whose action reads "send" or "rerecord" (after trimming and
/// lowercasing) selects that action whatever its "text" field holds; only an
/// edit depends on the text, and an unknown action selects nothing.
pub proof fn law_known_actions_ignore_text(
    a: Seq<char>,
    text: Option<Seq<char>>,
    other_text: Option<Seq<char>>,
)
    ensures
        action_key(a) == "send"@ ==> action_from_fields(Some(a), text) == Some(
            EditActionModel::Send,
        ),
        action_key(a) == "rerecord"@ ==> action_from_fields(Some(a), text) == Some(
            EditActionModel::Rerecord,
        ),
        action_key(a) != "edit"@ ==> action_from_fields(Some(a), text) == action_from_fields(
            Some(a),
            other_text,
        ),
        action_key(a) == "edit"@ ==> action_from_fields(Some(a), text) is Some,
        action_key(a) != "send"@ && action_key(a) != "rerecord"@ && action_key(a) != "edit"@
            ==> action_from_fields(Some(a), text) is None,
        trim_chars(a) == "send"@ ==> action_from_fields(Some(a), text) == Some(
            EditActionModel::Send,
        ),
        trim_chars(a) == "rerecord"@ ==> action_from_fields(Some(a), text) == Some(
            EditActionModel::Rerecord,
        ),
{
    reveal_strlit("send");
    reveal_strlit("rerecord");
    assert("rerecord"@ != "send"@) by {
        assert("rerecord"@.len() != "send"@.len());
    }
    let t = trim_chars(a);
    if t == "send"@ || t == "rerecord"@ {
        assert(all_ascii(t));
        assert(t.map_values(|c: char| ascii_lowercase_char(c)) =~= t);
    }
}

} // verus!
