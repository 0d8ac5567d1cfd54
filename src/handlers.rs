use vstd::prelude::*;
use crate::gateway::{full_prompt, text_body, GatewayError, PartView};
use crate::text::{blank, is_blank, trim, trim_of};

verus! {

/// What `urlencoding::encode` returns for a string: every byte of its UTF-8
/// form percent-encoded, except ASCII letters, digits and `-`, `.`, `_`, `~`.
pub uninterp spec fn url_encoded(s: Seq<char>) -> Seq<char>;

/// Relies on `urlencoding::encode`, which percent-encodes a string for a URL
/// query; an empty string stays empty.
#[verifier::external_body]
pub(crate) fn url_encode(s: &str) -> (r: String)
    ensures
        r@ == url_encoded(s@),
        s@.len() == 0 ==> r@.len() == 0,
{
    urlencoding::encode(s).into_owned()
}

/// The message a command answers, as far as the handlers look at it.
pub struct RepliedMessage {
    /// Its text, if it is a text message.
    pub text: Option<String>,
    /// Whether it carries a voice attachment.
    pub has_voice: bool,
}

/// The text of a replied-to message, or nothing.
pub open spec fn reply_text(m: RepliedMessage) -> Seq<char> {
    match m.text {
        Some(t) => t@,
        None => Seq::empty(),
    }
}

/// The prompt for an argument and the text of a replied-to message.
pub open spec fn with_message_context(argument: Seq<char>, context: Seq<char>) -> Seq<char> {
    if argument.len() == 0 {
        "Ответь по содержанию сообщения:\n"@ + context
    } else {
        argument + "\n\nКонтекст (сообщение):\n"@ + context
    }
}

/// The prompt for an argument and the transcript of a replied-to voice message.
pub open spec fn with_voice_context(argument: Seq<char>, transcript: Seq<char>) -> Seq<char> {
    if argument.len() == 0 {
        "Ответь по содержанию голосового сообщения:\n"@ + transcript
    } else {
        argument + "\n\nКонтекст (расшифровка голосового сообщения):\n"@ + transcript
    }
}

pub open spec fn ai_usage() -> Seq<char> {
    "Использование: /ai {prompt} (можно ответом на сообщение)"@
}

pub open spec fn voice_context_failed() -> Seq<char> {
    "Не удалось расшифровать голосовое сообщение для контекста."@
}

pub open spec fn ai_error() -> Seq<char> {
    "Error generating response."@
}

/// What the `/ai` handler does next.
pub enum AiAction {
    /// Send this text and stop.
    Reply(String),
    /// Transcribe the replied-to voice message, then continue with
    /// [`ai_with_transcript`] and this argument.
    TranscribeContext { argument: String },
    /// Send a placeholder, ask the text model about this prompt, then put
    /// [`ai_answer_text`] of the outcome in place of the placeholder.
    Generate(String),
}

pub ghost enum AiActionView {
    Reply(Seq<char>),
    TranscribeContext { argument: Seq<char> },
    Generate(Seq<char>),
}

impl View for AiAction {
    type V = AiActionView;

    open spec fn view(&self) -> AiActionView {
        match self {
            AiAction::Reply(t) => AiActionView::Reply(t@),
            AiAction::TranscribeContext { argument } => AiActionView::TranscribeContext {
                argument: argument@,
            },
            AiAction::Generate(p) => AiActionView::Generate(p@),
        }
    }
}

/// Generate from a prompt, unless it is empty: then show how to use the command.
pub open spec fn generate_or_usage(prompt: Seq<char>) -> AiActionView {
    if prompt.len() == 0 {
        AiActionView::Reply(ai_usage())
    } else {
        AiActionView::Generate(prompt)
    }
}

/// The first step of `/ai` for an already trimmed argument. A replied-to voice
/// message must be transcribed first; a replied-to text becomes context.
pub open spec fn ai_step(argument: Seq<char>, replied: Option<RepliedMessage>) -> AiActionView {
    match replied {
        Some(m) => if m.has_voice {
            AiActionView::TranscribeContext { argument }
        } else if reply_text(m).len() > 0 {
            generate_or_usage(with_message_context(argument, reply_text(m)))
        } else {
            generate_or_usage(argument)
        },
        None => generate_or_usage(argument),
    }
}

/// The step of `/ai` once the transcription of the replied-to voice message
/// is known (`None`: it failed).
pub open spec fn ai_after_transcript(argument: Seq<char>, transcript: Option<Seq<char>>) -> AiActionView {
    match transcript {
        Some(t) => generate_or_usage(with_voice_context(argument, t)),
        None => AiActionView::Reply(voice_context_failed()),
    }
}

/// The transcript of an outcome, or `None` for a failure.
pub open spec fn outcome_text(outcome: Result<String, GatewayError>) -> Option<Seq<char>> {
    match outcome {
        Ok(t) => Some(t@),
        Err(_) => None,
    }
}

fn string_of(s: &str) -> (r: String)
    ensures
        r@ == s@,
{
    String::from_str(s)
}

fn concat2(a: &str, b: &str) -> (r: String)
    ensures
        r@ == a@ + b@,
{
    let mut r = String::from_str(a);
    r.append(b);
    r
}

fn concat3(a: &str, b: &str, c: &str) -> (r: String)
    ensures
        r@ == a@ + b@ + c@,
{
    let mut r = String::from_str(a);
    r.append(b);
    r.append(c);
    r
}

/// Composes the prompt from a trimmed argument and the text of a
/// replied-to message.
pub fn compose_message_prompt(argument: &str, context: &str) -> (r: String)
    ensures
        r@ == with_message_context(argument@, context@),
{
    if argument.is_empty() {
        concat2("Ответь по содержанию сообщения:\n", context)
    } else {
        concat3(argument, "\n\nКонтекст (сообщение):\n", context)
    }
}

/// Composes the prompt from a trimmed argument and the transcript of a
/// replied-to voice message.
pub fn compose_voice_prompt(argument: &str, transcript: &str) -> (r: String)
    ensures
        r@ == with_voice_context(argument@, transcript@),
{
    if argument.is_empty() {
        concat2("Ответь по содержанию голосового сообщения:\n", transcript)
    } else {
        concat3(argument, "\n\nКонтекст (расшифровка голосового сообщения):\n", transcript)
    }
}

fn generate_or_usage_exec(prompt: String) -> (r: AiAction)
    ensures
        r@ == generate_or_usage(prompt@),
{
    if prompt.as_str().is_empty() {
        AiAction::Reply(string_of("Использование: /ai {prompt} (можно ответом на сообщение)"))
    } else {
        AiAction::Generate(prompt)
    }
}

/// The first step of `/ai` for an argument that is already trimmed.
pub fn ai_step_trimmed(argument: String, replied: &Option<RepliedMessage>) -> (r: AiAction)
    ensures
        r@ == ai_step(argument@, *replied),
{
    match replied {
        Some(m) => {
            if m.has_voice {
                AiAction::TranscribeContext { argument }
            } else {
                match &m.text {
                    Some(t) => {
                        if t.as_str().is_empty() {
                            generate_or_usage_exec(argument)
                        } else {
                            generate_or_usage_exec(compose_message_prompt(argument.as_str(), t.as_str()))
                        }
                    },
                    None => generate_or_usage_exec(argument),
                }
            }
        },
        None => generate_or_usage_exec(argument),
    }
}

/// The first step of `/ai <prompt>`: the argument is trimmed, then combined
/// with what the command answers.
pub fn ai_command(prompt: &str, replied: &Option<RepliedMessage>) -> (r: AiAction)
    ensures
        r@ == ai_step(trim_of(prompt@), *replied),
{
    ai_step_trimmed(trim(prompt), replied)
}

/// The step of `/ai` once the replied-to voice message was transcribed, or
/// failed to be. A failure ends the command with its own message; no text is
/// generated then.
pub fn ai_with_transcript(argument: &str, transcript: &Result<String, GatewayError>) -> (r: AiAction)
    ensures
        r@ == ai_after_transcript(argument@, outcome_text(*transcript)),
{
    match transcript {
        Ok(t) => generate_or_usage_exec(compose_voice_prompt(argument, t.as_str())),
        Err(_) => AiAction::Reply(string_of("Не удалось расшифровать голосовое сообщение для контекста.")),
    }
}

/// The text put in place of the placeholder once generation is done.
pub fn ai_answer_text(outcome: &Result<String, GatewayError>) -> (r: String)
    ensures
        r@ == match outcome {
            Ok(t) => t@,
            Err(_) => ai_error(),
        },
{
    match outcome {
        Ok(t) => t.clone(),
        Err(_) => string_of("Error generating response."),
    }
}

/// The text sent in place of the placeholder while a prompt is answered.
pub fn thinking_placeholder() -> (r: String)
    ensures
        r@ == "Thinking..."@,
{
    string_of("Thinking...")
}

/// The query of `/g` for a trimmed argument: the replied-to text joins it
/// after a space, or stands alone when the argument is empty.
pub open spec fn search_query_of(argument: Seq<char>, replied: Option<RepliedMessage>) -> Seq<char> {
    match replied {
        Some(m) => match m.text {
            Some(t) => if argument.len() == 0 {
                t@
            } else {
                argument + " "@ + t@
            },
            None => argument,
        },
        None => argument,
    }
}

pub open spec fn search_usage() -> Seq<char> {
    "Использование: /g {текст} (можно ответом на сообщение)"@
}

/// The search address for an already encoded query.
pub open spec fn search_address(encoded: Seq<char>) -> Seq<char> {
    "https://google.com/search?q="@ + encoded
}

/// What `/g` answers for a trimmed argument.
pub open spec fn search_answer(argument: Seq<char>, replied: Option<RepliedMessage>) -> Seq<char> {
    let q = search_query_of(argument, replied);
    if q.len() == 0 {
        search_usage()
    } else {
        search_address(url_encoded(q))
    }
}

/// The query of `/g` for an argument that is already trimmed.
pub fn search_query(argument: &str, replied: &Option<RepliedMessage>) -> (r: String)
    ensures
        r@ == search_query_of(argument@, *replied),
{
    match replied {
        Some(m) => match &m.text {
            Some(t) => {
                if argument.is_empty() {
                    t.clone()
                } else {
                    concat3(argument, " ", t.as_str())
                }
            },
            None => string_of(argument),
        },
        None => string_of(argument),
    }
}

/// The search address for a query that is already percent-encoded.
pub fn search_url(encoded: &str) -> (r: String)
    ensures
        r@ == search_address(encoded@),
{
    concat2("https://google.com/search?q=", encoded)
}

/// The answer of `/g <query>`: a search address for the query, completed by
/// the replied-to text, or how to use the command when both are empty. No
/// search is made; the chat client shows the link.
pub fn google_command(query: &str, replied: &Option<RepliedMessage>) -> (r: String)
    ensures
        r@ == search_answer(trim_of(query@), *replied),
{
    let argument = trim(query);
    let q = search_query(argument.as_str(), replied);
    if q.as_str().is_empty() {
        string_of("Использование: /g {текст} (можно ответом на сообщение)")
    } else {
        let encoded = url_encode(q.as_str());
        search_url(encoded.as_str())
    }
}

pub open spec fn not_a_reply() -> Seq<char> {
    "Команда должна быть ответом на голосовое сообщение."@
}

pub open spec fn not_a_voice() -> Seq<char> {
    "Сообщение, на которое вы ответили, не является голосовым."@
}

/// What a voice handler does next.
pub enum VoiceAction {
    /// Send this text and stop.
    Reply(String),
    /// Run the transcription flow on the voice message.
    Transcribe,
    /// Do nothing.
    Ignore,
}

/// What `/convert` does: it must answer a voice message.
pub fn convert_command(replied: &Option<RepliedMessage>) -> (r: VoiceAction)
    ensures
        match replied {
            None => r matches VoiceAction::Reply(t) && t@ == not_a_reply(),
            Some(m) => if m.has_voice {
                r matches VoiceAction::Transcribe
            } else {
                r matches VoiceAction::Reply(t) && t@ == not_a_voice()
            },
        },
{
    match replied {
        None => VoiceAction::Reply(string_of("Команда должна быть ответом на голосовое сообщение.")),
        Some(m) => {
            if m.has_voice {
                VoiceAction::Transcribe
            } else {
                VoiceAction::Reply(string_of("Сообщение, на которое вы ответили, не является голосовым."))
            }
        },
    }
}

/// What a voice message sent straight to the bot in a private chat leads to.
pub fn private_voice_handler(has_voice: bool) -> (r: VoiceAction)
    ensures
        has_voice ==> r matches VoiceAction::Transcribe,
        !has_voice ==> r matches VoiceAction::Ignore,
{
    if has_voice {
        VoiceAction::Transcribe
    } else {
        VoiceAction::Ignore
    }
}

/// The media type assumed for every voice attachment.
pub fn voice_mime_type() -> (r: String)
    ensures
        r@ == "audio/ogg"@,
{
    string_of("audio/ogg")
}

/// The text sent as a placeholder while a voice message is transcribed.
pub fn transcribing_placeholder() -> (r: String)
    ensures
        r@ == "Transcribing..."@,
{
    string_of("Transcribing...")
}

pub open spec fn empty_transcript() -> Seq<char> {
    "Расшифровка: <empty>"@
}

pub open spec fn transcript_heading() -> Seq<char> {
    "Расшифровка:\n"@
}

pub open spec fn transcription_error() -> Seq<char> {
    "Error transcribing voice."@
}

/// What the user sees once a transcription is done (`None`: it failed). A
/// blank transcript is shown as a marker, apart from a failure.
pub open spec fn transcription_message(transcript: Option<Seq<char>>) -> Seq<char> {
    match transcript {
        Some(t) => if is_blank(t) {
            empty_transcript()
        } else {
            transcript_heading() + t
        },
        None => transcription_error(),
    }
}

/// The text put in place of the placeholder once a transcription is done.
pub fn transcription_reply(outcome: &Result<String, GatewayError>) -> (r: String)
    ensures
        r@ == transcription_message(outcome_text(*outcome)),
{
    match outcome {
        Ok(t) => {
            if blank(t.as_str()) {
                string_of("Расшифровка: <empty>")
            } else {
                concat2("Расшифровка:\n", t.as_str())
            }
        },
        Err(_) => string_of("Error transcribing voice."),
    }
}

/// A command the bot understands.
pub enum Command {
    /// `/ai <prompt>`
    Ai(String),
    /// `/g <query>`
    G(String),
    /// `/convert`
    Convert,
}

/// The handler an update goes to.
pub enum Route {
    Ai(String),
    Search(String),
    Convert,
    PrivateVoice,
    Ignore,
}

/// Routes an update: a recognised command goes to its handler; otherwise a
/// voice message in a private chat is transcribed; anything else is ignored.
pub fn route(command: Option<Command>, has_voice: bool, is_private: bool) -> (r: Route)
    ensures
        match command {
            Some(Command::Ai(p)) => r matches Route::Ai(q) && q@ == p@,
            Some(Command::G(p)) => r matches Route::Search(q) && q@ == p@,
            Some(Command::Convert) => r matches Route::Convert,
            None => if has_voice && is_private {
                r matches Route::PrivateVoice
            } else {
                r matches Route::Ignore
            },
        },
{
    match command {
        Some(Command::Ai(p)) => Route::Ai(p),
        Some(Command::G(p)) => Route::Search(p),
        Some(Command::Convert) => Route::Convert,
        None => {
            if has_voice && is_private {
                Route::PrivateVoice
            } else {
                Route::Ignore
            }
        },
    }
}

/// With nothing answered, a prompt that is not blank once trimmed goes to
/// the text model as it is, in a request of a single text part: the system
/// instruction, a blank line, the prompt.
pub proof fn lemma_plain_prompt_request(prompt: Seq<char>)
    requires
        trim_of(prompt).len() > 0,
    ensures
        ai_step(trim_of(prompt), None) == AiActionView::Generate(trim_of(prompt)),
        text_body(trim_of(prompt)).len() == 1,
        text_body(trim_of(prompt))[0].len() == 1,
        text_body(trim_of(prompt))[0][0] == (PartView::Text { text: full_prompt(trim_of(prompt)) }),
{
}

/// Answering a text message: the prompt is the argument followed by the text
/// as context, or, with an empty argument, a request to answer the text.
pub proof fn lemma_text_context_prompt(argument: Seq<char>, replied: RepliedMessage)
    requires
        !replied.has_voice,
        reply_text(replied).len() > 0,
    ensures
        argument.len() > 0 ==> ai_step(argument, Some(replied)) == AiActionView::Generate(
            argument + "\n\nКонтекст (сообщение):\n"@ + reply_text(replied),
        ),
        argument.len() == 0 ==> ai_step(argument, Some(replied)) == AiActionView::Generate(
            "Ответь по содержанию сообщения:\n"@ + reply_text(replied),
        ),
{
}

/// Answering a voice message whose transcription fails: no text is generated,
/// and the user is told that the transcription failed, which differs from
/// the message of a failed generation.
pub proof fn lemma_failed_voice_context(prompt: Seq<char>, replied: RepliedMessage)
    requires
        replied.has_voice,
    ensures
        ai_step(trim_of(prompt), Some(replied)) == (AiActionView::TranscribeContext {
            argument: trim_of(prompt),
        }),
        ai_after_transcript(trim_of(prompt), None) == AiActionView::Reply(voice_context_failed()),
        voice_context_failed() != ai_error(),
{
    reveal_strlit("Не удалось расшифровать голосовое сообщение для контекста.");
    reveal_strlit("Error generating response.");
    assert(voice_context_failed()[0] != ai_error()[0]);
}

/// A blank transcript is shown as the empty marker, and no transcript, blank
/// or not, is shown like a failure.
pub proof fn lemma_blank_transcript_marker(transcript: Seq<char>)
    ensures
        is_blank(transcript) ==> transcription_message(Some(transcript)) == empty_transcript(),
        transcription_message(Some(transcript)) != transcription_message(None),
{
    reveal_strlit("Расшифровка: <empty>");
    reveal_strlit("Расшифровка:\n");
    reveal_strlit("Error transcribing voice.");
    let shown = transcription_message(Some(transcript));
    assert(shown[0] != transcription_error()[0]);
}

} // verus!
