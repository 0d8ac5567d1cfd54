use rust_bot::gateway::{
    extract_text, interpret_reply, Candidate, ConfigError, Content, GatewayError, GatewayReply,
    GenerateContentResponse, GoogleAiClient, Part,
};
use rust_bot::handlers::{
    ai_answer_text, ai_command, ai_with_transcript, compose_message_prompt, compose_voice_prompt,
    convert_command, google_command, private_voice_handler, route, search_query, search_url,
    thinking_placeholder, transcribing_placeholder, transcription_reply, voice_mime_type,
    AiAction, Command, RepliedMessage, Route, VoiceAction,
};

const PREAMBLE: &str =
    "Tell it like it is; NEVER sugar-coat responses. Get right to the point. Be practical above all.";

fn client() -> GoogleAiClient {
    match GoogleAiClient::from_settings(Some("KEY".to_string()), None, None) {
        Ok(c) => c,
        Err(_) => panic!("a key was given"),
    }
}

fn text_reply(t: &str) -> Option<RepliedMessage> {
    Some(RepliedMessage { text: Some(t.to_string()), has_voice: false })
}

fn voice_reply() -> Option<RepliedMessage> {
    Some(RepliedMessage { text: None, has_voice: true })
}

fn text_response(t: &str) -> GenerateContentResponse {
    GenerateContentResponse {
        candidates: vec![Candidate {
            content: Some(Content { parts: vec![Part::Text { text: t.to_string() }] }),
        }],
    }
}

fn generated(a: AiAction) -> String {
    match a {
        AiAction::Generate(p) => p,
        _ => panic!("expected generation"),
    }
}

fn replied(a: AiAction) -> String {
    match a {
        AiAction::Reply(t) => t,
        _ => panic!("expected a reply"),
    }
}

#[test]
fn plain_prompt_builds_single_text_part() {
    let prompt = generated(ai_command("  why is the sky blue  ", &None));
    assert_eq!(prompt, "why is the sky blue");
    let call = client().generate_text_call(&prompt);
    assert_eq!(call.body.contents.len(), 1);
    let parts = &call.body.contents[0].parts;
    assert_eq!(parts.len(), 1);
    match &parts[0] {
        Part::Text { text } => assert_eq!(text, &format!("{}\n\n{}", PREAMBLE, "why is the sky blue")),
        _ => panic!("expected a text part"),
    }
    assert_eq!(
        call.url,
        "https://generativelanguage.googleapis.com/v1beta/models/gemini-2.5-flash:generateContent?key=KEY"
    );
}

#[test]
fn reply_to_text_with_argument() {
    let p = generated(ai_command("summarise", &text_reply("long text")));
    assert_eq!(p, "summarise\n\nКонтекст (сообщение):\nlong text");
}

#[test]
fn reply_to_text_without_argument() {
    let p = generated(ai_command("   ", &text_reply("long text")));
    assert_eq!(p, "Ответь по содержанию сообщения:\nlong text");
    assert_eq!(compose_message_prompt("", "x"), "Ответь по содержанию сообщения:\nx");
}

#[test]
fn empty_prompt_gives_usage() {
    let t = replied(ai_command("  ", &None));
    assert_eq!(t, "Использование: /ai {prompt} (можно ответом на сообщение)");
    let t = replied(ai_command("", &Some(RepliedMessage { text: None, has_voice: false })));
    assert_eq!(t, "Использование: /ai {prompt} (можно ответом на сообщение)");
}

#[test]
fn reply_to_voice_transcribes_first() {
    match ai_command(" tell me ", &voice_reply()) {
        AiAction::TranscribeContext { argument } => assert_eq!(argument, "tell me"),
        _ => panic!("expected transcription first"),
    }
}

#[test]
fn failed_voice_context_stops_without_generation() {
    let t = replied(ai_with_transcript("tell me", &Err(GatewayError::Transport)));
    assert_eq!(t, "Не удалось расшифровать голосовое сообщение для контекста.");
    assert_ne!(t, ai_answer_text(&Err(GatewayError::Transport)));
}

#[test]
fn voice_context_prompts() {
    let p = generated(ai_with_transcript("tell me", &Ok("hello".to_string())));
    assert_eq!(p, "tell me\n\nКонтекст (расшифровка голосового сообщения):\nhello");
    let p = generated(ai_with_transcript("", &Ok("hello".to_string())));
    assert_eq!(p, "Ответь по содержанию голосового сообщения:\nhello");
    assert_eq!(
        compose_voice_prompt("", ""),
        "Ответь по содержанию голосового сообщения:\n"
    );
}

#[test]
fn answer_text_for_outcomes() {
    assert_eq!(ai_answer_text(&Ok("42".to_string())), "42");
    assert_eq!(ai_answer_text(&Err(GatewayError::Malformed)), "Error generating response.");
    assert_eq!(thinking_placeholder(), "Thinking...");
}

#[test]
fn empty_audio_request_is_well_formed() {
    let call = client().transcribe_voice_call(Vec::new(), "audio/ogg");
    let parts = &call.body.contents[0].parts;
    assert_eq!(call.body.contents.len(), 1);
    assert_eq!(parts.len(), 2);
    match &parts[0] {
        Part::InlineData { inline_data } => {
            assert_eq!(inline_data.mime_type, "audio/ogg");
            assert_eq!(inline_data.data, "");
        }
        _ => panic!("audio comes first"),
    }
    match &parts[1] {
        Part::Text { text } => assert!(text.starts_with("You are a transcription model.")),
        _ => panic!("instruction comes second"),
    }
    let none = GenerateContentResponse { candidates: Vec::new() };
    assert_eq!(extract_text(&none), "");
    match interpret_reply(GatewayReply::Parsed { response: none }) {
        Ok(t) => assert_eq!(t, ""),
        Err(_) => panic!("no candidates is no failure"),
    }
}

#[test]
fn audio_is_base64_encoded() {
    let call = client().transcribe_voice_call(vec![1, 2, 3, 255], "audio/ogg");
    match &call.body.contents[0].parts[0] {
        Part::InlineData { inline_data } => assert_eq!(inline_data.data, "AQID/w=="),
        _ => panic!("audio comes first"),
    }
}

#[test]
fn search_plain_argument() {
    assert_eq!(google_command("cats", &None), "https://google.com/search?q=cats");
}

#[test]
fn search_with_replied_text() {
    assert_eq!(
        google_command("cats", &text_reply("and dogs")),
        "https://google.com/search?q=cats%20and%20dogs"
    );
    assert_eq!(search_query("", &text_reply("dogs")), "dogs");
    assert_eq!(search_url("a%26b"), "https://google.com/search?q=a%26b");
}

#[test]
fn search_without_anything_gives_usage() {
    assert_eq!(
        google_command("  ", &None),
        "Использование: /g {текст} (можно ответом на сообщение)"
    );
}

#[test]
fn convert_requires_reply() {
    match convert_command(&None) {
        VoiceAction::Reply(t) => assert_eq!(t, "Команда должна быть ответом на голосовое сообщение."),
        _ => panic!("expected an explanation"),
    }
}

#[test]
fn convert_requires_voice() {
    match convert_command(&text_reply("hi")) {
        VoiceAction::Reply(t) => {
            assert_eq!(t, "Сообщение, на которое вы ответили, не является голосовым.")
        }
        _ => panic!("expected an explanation"),
    }
    assert!(matches!(convert_command(&voice_reply()), VoiceAction::Transcribe));
}

#[test]
fn private_voice_is_transcribed() {
    assert!(matches!(private_voice_handler(true), VoiceAction::Transcribe));
    assert!(matches!(private_voice_handler(false), VoiceAction::Ignore));
    assert_eq!(voice_mime_type(), "audio/ogg");
    assert_eq!(transcribing_placeholder(), "Transcribing...");
}

#[test]
fn blank_transcript_marker() {
    assert_eq!(transcription_reply(&Ok(" \n ".to_string())), "Расшифровка: <empty>");
    assert_eq!(transcription_reply(&Ok(String::new())), "Расшифровка: <empty>");
    assert_eq!(transcription_reply(&Ok("привет".to_string())), "Расшифровка:\nпривет");
    assert_eq!(
        transcription_reply(&Err(GatewayError::Api("x".to_string()))),
        "Error transcribing voice."
    );
}

#[test]
fn settings_fall_back() {
    assert!(matches!(
        GoogleAiClient::from_settings(None, Some("t".to_string()), None),
        Err(ConfigError::MissingApiKey)
    ));
    let c = GoogleAiClient::from_settings(Some("k".to_string()), None, Some("m".to_string())).unwrap();
    assert_eq!(c.model_text(), "m");
    assert_eq!(c.model_voice(), "m");
    let c = GoogleAiClient::from_settings(Some("k".to_string()), Some("t".to_string()), None).unwrap();
    assert_eq!(c.api_key(), "k");
    assert_eq!(c.model_text(), "t");
    assert_eq!(c.model_voice(), "gemini-2.5-flash");
    assert_eq!(c.endpoint_url("x"), "https://generativelanguage.googleapis.com/v1beta/models/x:generateContent?key=k");
}

#[test]
fn response_text_is_first_part_trimmed() {
    assert_eq!(extract_text(&text_response("  answer \n")), "answer");
    let inline_first = GenerateContentResponse {
        candidates: vec![Candidate {
            content: Some(Content {
                parts: vec![Part::InlineData {
                    inline_data: rust_bot::gateway::InlineData {
                        mime_type: "a/b".to_string(),
                        data: "AA==".to_string(),
                    },
                }],
            }),
        }],
    };
    assert_eq!(extract_text(&inline_first), "");
    let no_content = GenerateContentResponse { candidates: vec![Candidate { content: None }] };
    assert_eq!(extract_text(&no_content), "");
}

#[test]
fn reply_failures_stay_apart() {
    assert!(matches!(interpret_reply(GatewayReply::SendFailed), Err(GatewayError::Transport)));
    assert!(matches!(interpret_reply(GatewayReply::Unparsable), Err(GatewayError::Malformed)));
    match interpret_reply(GatewayReply::Rejected { body: "quota".to_string() }) {
        Err(e) => assert_eq!(e.message(), "Google AI API error: quota"),
        Ok(_) => panic!("a rejection is a failure"),
    }
    assert_eq!(GatewayError::Transport.message(), "Failed to send request to Google AI");
    assert_eq!(GatewayError::Malformed.message(), "Failed to parse response");
}

#[test]
fn routing() {
    assert!(matches!(route(Some(Command::Ai("x".to_string())), false, false), Route::Ai(p) if p == "x"));
    assert!(matches!(route(Some(Command::G("y".to_string())), true, true), Route::Search(q) if q == "y"));
    assert!(matches!(route(Some(Command::Convert), false, true), Route::Convert));
    assert!(matches!(route(None, true, true), Route::PrivateVoice));
    assert!(matches!(route(None, true, false), Route::Ignore));
    assert!(matches!(route(None, false, true), Route::Ignore));
}
