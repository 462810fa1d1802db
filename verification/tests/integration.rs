use base64::Engine;

use music_generator::codec::Base64Error;
use music_generator::design::{
    BGM_SYSTEM_PROMPT, LOOP_ALWAYS_DIRECTIVE, LOOP_SYSTEM_PROMPT, REMIX_SYSTEM_PROMPT,
    SFX_SYSTEM_PROMPT,
};
use music_generator::lyria::{
    extract_audio, is_success_status, ApiError, Candidate, CandidateContent, GenerateResponse,
    LyriaClient, LyriaError, ResponseInlineData, ResponsePart,
};

// ---------------------------------------------------------------------------
// Helpers
// ---------------------------------------------------------------------------

/// Minimal valid WAV file — 1 sample of silence.
fn tiny_wav() -> Vec<u8> {
    let mut buf = Vec::new();
    // RIFF header
    buf.extend_from_slice(b"RIFF");
    buf.extend_from_slice(&44u32.to_le_bytes()); // file size - 8
    buf.extend_from_slice(b"WAVE");
    // fmt chunk
    buf.extend_from_slice(b"fmt ");
    buf.extend_from_slice(&16u32.to_le_bytes()); // chunk size
    buf.extend_from_slice(&1u16.to_le_bytes()); // PCM
    buf.extend_from_slice(&1u16.to_le_bytes()); // mono
    buf.extend_from_slice(&44100u32.to_le_bytes()); // sample rate
    buf.extend_from_slice(&88200u32.to_le_bytes()); // byte rate
    buf.extend_from_slice(&2u16.to_le_bytes()); // block align
    buf.extend_from_slice(&16u16.to_le_bytes()); // bits per sample
    // data chunk
    buf.extend_from_slice(b"data");
    buf.extend_from_slice(&2u32.to_le_bytes()); // data size
    buf.extend_from_slice(&0i16.to_le_bytes()); // one silent sample
    buf
}

fn text_part(text: &str) -> ResponsePart {
    ResponsePart::Text { text: text.to_string() }
}

fn audio_part(mime_type: &str, data: &str) -> ResponsePart {
    ResponsePart::InlineData {
        inline_data: ResponseInlineData {
            mime_type: mime_type.to_string(),
            data: data.to_string(),
        },
    }
}

fn response_with_parts(parts: Vec<ResponsePart>) -> GenerateResponse {
    GenerateResponse {
        candidates: Some(vec![Candidate { content: CandidateContent { parts } }]),
        error: None,
    }
}

/// The answer of a server that generated `audio_bytes` and described them.
fn lyria_success_response(audio_bytes: &[u8], description: &str) -> GenerateResponse {
    let b64 = base64::engine::general_purpose::STANDARD.encode(audio_bytes);
    response_with_parts(vec![text_part(description), audio_part("audio/wav", &b64)])
}

// ---------------------------------------------------------------------------
// Verify LOOP_ALWAYS_DIRECTIVE is present in all prompts
// ---------------------------------------------------------------------------

#[test]
fn loop_always_directive_exists() {
    assert!(LOOP_ALWAYS_DIRECTIVE.contains("MUST be designed to play on a loop"));
    assert!(LOOP_ALWAYS_DIRECTIVE.contains("no audible"));
}

// ---------------------------------------------------------------------------
// Design prompt tests — verify design principles are injected
// ---------------------------------------------------------------------------

#[test]
fn bgm_prompt_includes_design_principles() {
    assert!(BGM_SYSTEM_PROMPT.contains("square wave"));
    assert!(BGM_SYSTEM_PROMPT.contains("triangle wave"));
    assert!(BGM_SYSTEM_PROMPT.contains("noise channel"));
    assert!(BGM_SYSTEM_PROMPT.contains("3-4 melodic voices"));
    assert!(BGM_SYSTEM_PROMPT.contains("loop seamlessly"));
}

#[test]
fn sfx_prompt_includes_design_principles() {
    assert!(SFX_SYSTEM_PROMPT.contains("pitch sweep"));
    assert!(SFX_SYSTEM_PROMPT.contains("noise burst"));
    assert!(SFX_SYSTEM_PROMPT.contains("0.1-2 seconds"));
    assert!(SFX_SYSTEM_PROMPT.contains("Coin collect"));
}

#[test]
fn loop_prompt_includes_design_principles() {
    assert!(LOOP_SYSTEM_PROMPT.contains("loop perfectly"));
    assert!(LOOP_SYSTEM_PROMPT.contains("16 and 64 bars"));
    assert!(LOOP_SYSTEM_PROMPT.contains("dynamic range"));
    assert!(LOOP_SYSTEM_PROMPT.contains("A and B"));
}

#[test]
fn remix_prompt_includes_design_principles() {
    assert!(REMIX_SYSTEM_PROMPT.contains("key and tempo"));
    assert!(REMIX_SYSTEM_PROMPT.contains("chiptune aesthetic"));
    assert!(REMIX_SYSTEM_PROMPT.contains("channel limit"));
}

// ---------------------------------------------------------------------------
// The Lyria API: endpoint, requests and answers
// ---------------------------------------------------------------------------

#[test]
fn client_posts_to_model_endpoint_with_key() {
    let client = LyriaClient::with_base_url("my-secret-key".into(), "http://127.0.0.1:4321".into());
    assert_eq!(
        client.endpoint_url(),
        "http://127.0.0.1:4321/lyria-realtime-exp:generateContent"
    );
    assert_eq!(client.api_key, "my-secret-key");
    assert_eq!(music_generator::lyria::API_KEY_HEADER, "x-goog-api-key");
}

#[test]
fn default_client_uses_public_endpoint() {
    let client = LyriaClient::new("test-key".into());
    assert_eq!(
        client.endpoint_url(),
        "https://generativelanguage.googleapis.com/v1beta/models/lyria-realtime-exp:generateContent"
    );
}

#[test]
fn generate_request_carries_prompt_and_asks_for_audio() {
    let request = music_generator::lyria::generate_request("test prompt");
    assert_eq!(request.contents.len(), 1);
    assert_eq!(request.contents[0].parts.len(), 1);
    assert!(matches!(
        &request.contents[0].parts[0],
        music_generator::lyria::Part::Text { text } if text == "test prompt"
    ));
    assert_eq!(request.generation_config.response_modalities, vec!["AUDIO".to_string()]);
}

#[test]
fn edit_request_carries_encoded_audio() {
    let audio = tiny_wav();
    let request = music_generator::lyria::edit_request(&audio, "audio/wav", "make it faster");
    let parts = &request.contents[0].parts;
    assert_eq!(parts.len(), 2);
    assert!(matches!(&parts[0], music_generator::lyria::Part::Text { text } if text == "make it faster"));
    match &parts[1] {
        music_generator::lyria::Part::InlineData { inline_data } => {
            assert_eq!(inline_data.mime_type, "audio/wav");
            assert_eq!(
                inline_data.data,
                base64::engine::general_purpose::STANDARD.encode(&audio)
            );
            assert_eq!(inline_data.data, "UklGRiwAAABXQVZFZm10IBAAAAABAAEARKwAAIhYAQACABAAZGF0YQIAAAAAAA==");
            assert_eq!(
                base64::engine::general_purpose::STANDARD.decode(&inline_data.data).unwrap(),
                audio
            );
        }
        _ => panic!("second part should carry the audio"),
    }
    assert_eq!(request.generation_config.response_modalities, vec!["AUDIO".to_string()]);
}

#[test]
fn empty_audio_travels_as_empty_text() {
    let request = music_generator::lyria::edit_request(&[], "audio/wav", "p");
    assert!(matches!(
        &request.contents[0].parts[1],
        music_generator::lyria::Part::InlineData { inline_data } if inline_data.data.is_empty()
    ));
}

#[test]
fn overworld_theme_answer_yields_audio_and_description() {
    let request = music_generator::lyria::generate_request(
        "Compose an 8-bit chiptune overworld theme at ~120 BPM. \
         Bright, adventurous melody using square and triangle waves. \
         Classic NES-style with a memorable hook that loops seamlessly.",
    );
    assert_eq!(request.contents.len(), 1);
    let result = extract_audio(lyria_success_response(&tiny_wav(), "Generated audio"));
    assert!(result.is_ok(), "extract_audio failed: {:?}", result.err());
    let audio = result.unwrap();
    assert!(!audio.audio_data.is_empty(), "audio_data should not be empty");
    assert_eq!(audio.audio_data, tiny_wav());
    assert_eq!(audio.mime_type, "audio/wav");
    assert_eq!(audio.description.as_deref(), Some("Generated audio"));
}

#[test]
fn first_audio_part_wins_and_last_text_describes() {
    let first = base64::engine::general_purpose::STANDARD.encode(b"first");
    let second = base64::engine::general_purpose::STANDARD.encode(b"second");
    let response = response_with_parts(vec![
        text_part("early"),
        audio_part("audio/mpeg", &first),
        text_part(""),
        audio_part("audio/ogg", &second),
        text_part("late"),
        text_part(""),
    ]);
    let audio = extract_audio(response).unwrap();
    assert_eq!(audio.audio_data, b"first".to_vec());
    assert_eq!(audio.mime_type, "audio/mpeg");
    assert_eq!(audio.description.as_deref(), Some("late"));
}

#[test]
fn answer_without_text_has_no_description() {
    let data = base64::engine::general_purpose::STANDARD.encode(b"abc");
    let audio = extract_audio(response_with_parts(vec![audio_part("audio/wav", &data)])).unwrap();
    assert_eq!(audio.description, None);
}

#[test]
fn api_error_in_body_is_reported() {
    let response = GenerateResponse {
        candidates: None,
        error: Some(ApiError { message: "quota exceeded".into() }),
    };
    let err = extract_audio(response).unwrap_err();
    assert_eq!(err.message(), "API error: quota exceeded");
}

#[test]
fn missing_candidates_are_reported() {
    let response = GenerateResponse { candidates: None, error: None };
    assert_eq!(extract_audio(response).unwrap_err().message(), "No candidates in response");
    let response = GenerateResponse { candidates: Some(vec![]), error: None };
    assert_eq!(extract_audio(response).unwrap_err().message(), "Empty candidates array");
}

#[test]
fn answer_without_audio_is_reported() {
    let err = extract_audio(response_with_parts(vec![text_part("only words")])).unwrap_err();
    assert!(matches!(err, LyriaError::NoAudioData));
    assert_eq!(err.message(), "No audio data in API response");
}

#[test]
fn invalid_base64_audio_is_reported() {
    let err = extract_audio(response_with_parts(vec![audio_part("audio/wav", "ab*d")])).unwrap_err();
    assert!(matches!(err, LyriaError::Decode(Base64Error::InvalidByte(2, 42))));
    assert_eq!(err.message(), "Invalid symbol 42, offset 2.");
}

#[test]
fn base64_error_messages() {
    assert_eq!(Base64Error::InvalidByte(3, 42).message(), "Invalid symbol 42, offset 3.");
    assert_eq!(Base64Error::InvalidLength(5).message(), "Invalid input length: 5");
    assert_eq!(
        Base64Error::InvalidLastSymbol(107, 255).message(),
        "Invalid last symbol 255, offset 107."
    );
    assert_eq!(Base64Error::InvalidPadding.message(), "Invalid padding");
    assert_eq!(Base64Error::InvalidLength(1234567890).message(), "Invalid input length: 1234567890");
    assert_eq!(Base64Error::InvalidLength(0).message(), "Invalid input length: 0");
}

#[test]
fn failed_request_status_is_reported() {
    assert!(!is_success_status(403));
    assert!(is_success_status(200));
    assert!(is_success_status(299));
    assert!(!is_success_status(300));
    assert!(!is_success_status(199));
    let err = LyriaError::RequestFailed { status: "403 Forbidden".into(), body: "forbidden".into() };
    let message = err.message();
    assert!(message.contains("403"), "error should mention status code: {message}");
    assert_eq!(message, "API request failed (403 Forbidden): forbidden");
}
