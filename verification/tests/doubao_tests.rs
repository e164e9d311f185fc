use mytypeless::audio::{
    frame_count, insert_cursor_marker, pcm_to_wav, trim_long_silence, MIN_UPLOAD_BYTES,
    TRIM_FRAME_BYTES,
};
use mytypeless::doubao::{
    api_error, audio_payload, bearer_header, chat_completions_url, edit_action_result,
    edit_request, extract_json_object, parse_edit_action, status_class, status_error,
    text_input_tokens, transcript_from_content, upload_decision, usage_tokens,
    used_after_disconnect_error, AppError, EditAction, StatusClass, UploadDecision, UsageTokens,
};

/// Normalized RMS of one i16 LE frame, as the recorder computes it.
fn frame_rms_norm(frame: &[u8]) -> f32 {
    let mut sum_sq = 0.0f64;
    let mut n = 0u64;
    for pair in frame.chunks_exact(2) {
        let s = i16::from_le_bytes([pair[0], pair[1]]) as f64;
        sum_sq += s * s;
        n += 1;
    }
    if n == 0 {
        return 0.0;
    }
    ((sum_sq / n as f64).sqrt() / 32768.0) as f32
}

fn silent_frames(pcm: &[u8]) -> Vec<bool> {
    pcm.chunks(TRIM_FRAME_BYTES)
        .map(|f| frame_rms_norm(f) < 0.006)
        .collect()
}

fn trim(pcm: &[u8]) -> Vec<u8> {
    let silent = silent_frames(pcm);
    assert_eq!(silent.len(), frame_count(pcm.len()));
    trim_long_silence(pcm, &silent)
}

#[test]
fn pcm_to_wav_has_correct_header() {
    let pcm = vec![0u8; 320]; // 10ms of silence at 16kHz mono i16
    let wav = pcm_to_wav(&pcm, 16000);
    assert_eq!(&wav[0..4], b"RIFF");
    assert_eq!(&wav[8..12], b"WAVE");
    assert_eq!(&wav[12..16], b"fmt ");
    assert_eq!(&wav[36..40], b"data");
    assert_eq!(wav.len(), 44 + pcm.len());
    // data chunk size
    let data_size = u32::from_le_bytes(wav[40..44].try_into().unwrap());
    assert_eq!(data_size, pcm.len() as u32);
}

#[test]
fn wav_header_fields() {
    let pcm = vec![7u8; 10];
    let wav = pcm_to_wav(&pcm, 16000);
    assert_eq!(u32::from_le_bytes(wav[4..8].try_into().unwrap()), 46);
    assert_eq!(u32::from_le_bytes(wav[16..20].try_into().unwrap()), 16);
    assert_eq!(u16::from_le_bytes(wav[20..22].try_into().unwrap()), 1);
    assert_eq!(u16::from_le_bytes(wav[22..24].try_into().unwrap()), 1);
    assert_eq!(u32::from_le_bytes(wav[24..28].try_into().unwrap()), 16000);
    assert_eq!(u32::from_le_bytes(wav[28..32].try_into().unwrap()), 32000);
    assert_eq!(u16::from_le_bytes(wav[32..34].try_into().unwrap()), 2);
    assert_eq!(u16::from_le_bytes(wav[34..36].try_into().unwrap()), 16);
    assert_eq!(&wav[44..], &pcm[..]);
}

#[test]
fn trim_long_silence_collapses_gaps_but_keeps_speech() {
    let secs = 16000usize; // samples per second
                           // 1s loud + 3s silence + 1s loud, i16 LE mono @16kHz.
    let loud: Vec<u8> = (0..secs).flat_map(|_| 8000i16.to_le_bytes()).collect();
    let sil: Vec<u8> = vec![0u8; secs * 2 * 3];
    let mut pcm = Vec::new();
    pcm.extend_from_slice(&loud);
    pcm.extend_from_slice(&sil);
    pcm.extend_from_slice(&loud);

    let trimmed = trim(&pcm);
    // Both speech segments are preserved in full…
    assert!(trimmed.len() >= loud.len() * 2);
    // …and the 3s gap is collapsed to well under 1s.
    assert!(trimmed.len() < loud.len() * 2 + secs * 2);
    assert!(trimmed.len() < pcm.len());
}

#[test]
fn trim_long_silence_keeps_short_pauses() {
    let secs = 16000usize;
    let loud: Vec<u8> = (0..secs).flat_map(|_| 8000i16.to_le_bytes()).collect();
    // 300ms gap — below the ~600ms threshold, so it must be left intact.
    let sil: Vec<u8> = vec![0u8; (secs * 2) * 3 / 10];
    let mut pcm = Vec::new();
    pcm.extend_from_slice(&loud);
    pcm.extend_from_slice(&sil);
    pcm.extend_from_slice(&loud);
    assert_eq!(trim(&pcm).len(), pcm.len());
}

#[test]
fn long_gap_keeps_exactly_ten_frames() {
    // 2 loud frames, 40 silent frames, 1 loud frame, plus a short tail.
    let mut pcm = vec![1u8; 2 * 640];
    pcm.extend(vec![0u8; 40 * 640]);
    pcm.extend(vec![2u8; 640]);
    pcm.extend(vec![3u8; 100]);
    let mut silent = vec![false; 2];
    silent.extend(vec![true; 40]);
    silent.push(false);
    silent.push(false);
    let out = trim_long_silence(&pcm, &silent);
    assert_eq!(out.len(), 2 * 640 + 10 * 640 + 640 + 100);
    assert_eq!(&out[..1280], &pcm[..1280]);
    assert_eq!(&out[out.len() - 740..], &pcm[pcm.len() - 740..]);
}

#[test]
fn exactly_thirty_silent_frames_are_kept() {
    let pcm = vec![0u8; 30 * 640];
    let silent = vec![true; 30];
    assert_eq!(trim_long_silence(&pcm, &silent), pcm);
    let pcm = vec![0u8; 31 * 640];
    let silent = vec![true; 31];
    assert_eq!(trim_long_silence(&pcm, &silent).len(), 10 * 640);
    assert!(trim_long_silence(&[], &[]).is_empty());
}

#[test]
fn parse_edit_action_handles_each_action() {
    assert_eq!(
        parse_edit_action(r#"{"action":"send"}"#),
        Some(EditAction::Send)
    );
    assert_eq!(
        parse_edit_action(r#"{"action":"rerecord"}"#),
        Some(EditAction::Rerecord)
    );
    assert_eq!(
        parse_edit_action(r#"{"action":"edit","text":"hello world"}"#),
        Some(EditAction::Edit("hello world".to_string()))
    );
}

#[test]
fn parse_edit_action_tolerates_surrounding_text() {
    let raw = "Sure! ```json\n{\"action\":\"edit\",\"text\":\"改好了\"}\n``` done";
    assert_eq!(
        parse_edit_action(raw),
        Some(EditAction::Edit("改好了".to_string()))
    );
}

#[test]
fn parse_edit_action_rejects_garbage() {
    assert_eq!(parse_edit_action("no json here"), None);
    assert_eq!(parse_edit_action(r#"{"action":"bogus"}"#), None);
}

#[test]
fn parse_edit_action_normalizes_action_and_text() {
    assert_eq!(parse_edit_action(r#"{"action":"  SEND "}"#), Some(EditAction::Send));
    assert_eq!(parse_edit_action(r#"{"action":"Edit"}"#), Some(EditAction::Edit(String::new())));
    assert_eq!(
        parse_edit_action(r#"{"action":"edit","text":"  hi‸  "}"#),
        Some(EditAction::Edit("hi‸".to_string()))
    );
    assert_eq!(parse_edit_action(r#"{"action":"edit","text":5}"#), Some(EditAction::Edit(String::new())));
    assert_eq!(parse_edit_action(r#"{"action":1}"#), None);
    assert_eq!(parse_edit_action(r#"} {"action":"send""#), None);
    assert_eq!(parse_edit_action(r#"{"action":"send"} trailing }"#), None);
}

#[test]
fn extract_json_object_spans_first_to_last_brace() {
    assert_eq!(extract_json_object("a{b}c}d").as_deref(), Some("{b}c}"));
    assert_eq!(extract_json_object("}{").as_deref(), None);
    assert_eq!(extract_json_object("{").as_deref(), None);
    assert_eq!(extract_json_object("x{}").as_deref(), Some("{}"));
}

#[test]
fn edit_action_result_names_unrecognized_reply() {
    match edit_action_result("nope") {
        Err(AppError::Config(m)) => assert_eq!(m, "Unrecognized edit action: nope"),
        other => panic!("unexpected {:?}", other),
    }
    assert_eq!(edit_action_result(r#"{"action":"send"}"#).unwrap(), EditAction::Send);
}

#[test]
fn short_audio_returns_empty_without_api_call() {
    // A buffer under 512 bytes is treated as no speech.
    assert!(MIN_UPLOAD_BYTES / 2 < 16000 / 10); // less than 100ms of audio
    assert_eq!(upload_decision(true, 511, true), (false, UploadDecision::NoSpeech));
    assert_eq!(
        upload_decision(true, 512, false),
        (false, UploadDecision::Upload { trim_silence: false })
    );
    assert_eq!(upload_decision(false, 4096, true), (false, UploadDecision::UsedAfterDisconnect));
    // A second disconnect after a too-short recording is a configuration error.
    let (has_config, _) = upload_decision(true, 0, true);
    assert_eq!(upload_decision(has_config, 0, true).1, UploadDecision::UsedAfterDisconnect);
    match used_after_disconnect_error() {
        AppError::Config(m) => assert_eq!(m, "DoubaoAudio: provider used after disconnect"),
        other => panic!("unexpected {:?}", other),
    }
}

#[test]
fn cursor_marker_insertion() {
    assert_eq!(insert_cursor_marker("héllo", 2), "hé‸llo");
    assert_eq!(insert_cursor_marker("abc", 0), "‸abc");
    assert_eq!(insert_cursor_marker("abc", 3), "abc‸");
    assert_eq!(insert_cursor_marker("abc", usize::MAX), "abc‸");
    assert_eq!(insert_cursor_marker("", 5), "‸");
}

#[test]
fn audio_payload_is_base64_of_wav() {
    let pcm = vec![0u8; 4];
    let b64 = audio_payload(&pcm);
    // 48 bytes of WAV encode to 64 base64 characters.
    assert_eq!(b64.len(), 64);
    assert!(b64.starts_with("UklGRi"));
    assert_ne!(b64.as_bytes(), &pcm[..]);
    let req = edit_request("ab", &pcm, 1);
    assert_eq!(req.audio_base64, b64);
    assert!(req.user_text.starts_with("The user's CURRENT TEXT (with a ‸ cursor marker)"));
    assert!(req.user_text.ends_with("<current_text>\na‸b\n</current_text>"));
}

#[test]
fn request_url_and_header() {
    assert_eq!(chat_completions_url("https://x/api/v3//"), "https://x/api/v3/chat/completions");
    assert_eq!(chat_completions_url("https://x"), "https://x/chat/completions");
    assert_eq!(bearer_header("k"), "Bearer k");
}

#[test]
fn status_handling() {
    assert_eq!(status_class(200), StatusClass::Success);
    assert_eq!(status_class(401), StatusClass::AuthRejected);
    assert_eq!(status_class(403), StatusClass::AuthRejected);
    assert_eq!(status_class(429), StatusClass::QuotaExceeded);
    assert_eq!(status_class(500), StatusClass::Failed);
    match status_error(403) {
        Some(AppError::Auth(m)) => assert_eq!(m, "Doubao audio API key rejected (HTTP 403)"),
        other => panic!("unexpected {:?}", other),
    }
    match status_error(429) {
        Some(AppError::Quota(m)) => assert_eq!(m, "Doubao audio API quota exceeded"),
        other => panic!("unexpected {:?}", other),
    }
    assert!(status_error(500).is_none());
    assert!(status_error(204).is_none());
}

#[test]
fn api_error_keeps_first_300_bytes() {
    let body = "e".repeat(400);
    match api_error(502, &body) {
        AppError::Api { status, body } => {
            assert_eq!(status, 502);
            assert_eq!(body, "e".repeat(300));
        }
        other => panic!("unexpected {:?}", other),
    }
    match api_error(500, "short") {
        AppError::Api { body, .. } => assert_eq!(body, "short"),
        other => panic!("unexpected {:?}", other),
    }
}

#[test]
fn usage_and_transcript() {
    assert_eq!(text_input_tokens(100, 30), 70);
    assert_eq!(text_input_tokens(10, 30), 0);
    assert_eq!(transcript_from_content("  hello\n"), "hello");
}

#[test]
fn usage_block_split() {
    assert_eq!(
        usage_tokens(Some(1000), Some(50), Some(800)),
        UsageTokens { audio: 800, text_in: 200, output: 50 }
    );
    assert_eq!(usage_tokens(None, None, None), UsageTokens { audio: 0, text_in: 0, output: 0 });
    assert_eq!(usage_tokens(Some(5), None, Some(9)), UsageTokens { audio: 9, text_in: 0, output: 0 });
}

#[test]
fn audio_payload_exact_base64() {
    assert_eq!(
        audio_payload(&[]),
        "UklGRiQAAABXQVZFZm10IBAAAAABAAEAgD4AAAB9AAACABAAZGF0YQAAAAA="
    );
}

#[test]
fn audio_payload_pads_partial_groups() {
    assert_eq!(
        audio_payload(&[1]),
        "UklGRiUAAABXQVZFZm10IBAAAAABAAEAgD4AAAB9AAACABAAZGF0YQEAAAAB"
    );
    assert_eq!(
        audio_payload(&[0xff, 0xfe]),
        "UklGRiYAAABXQVZFZm10IBAAAAABAAEAgD4AAAB9AAACABAAZGF0YQIAAAD//g=="
    );
}

#[test]
fn trimming_twice_changes_nothing() {
    let secs = 16000usize;
    let loud: Vec<u8> = (0..secs).flat_map(|_| 8000i16.to_le_bytes()).collect();
    let mut pcm = Vec::new();
    pcm.extend_from_slice(&loud);
    pcm.extend(vec![0u8; secs * 2 * 3]);
    pcm.extend_from_slice(&loud[..1000]);
    pcm.extend(vec![0u8; secs * 2]);
    let once = trim(&pcm);
    assert!(once.len() < pcm.len());
    assert_eq!(trim(&once), once);
}
