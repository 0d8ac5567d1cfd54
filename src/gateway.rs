use base64::Engine;
use vstd::prelude::*;
use crate::text::{trim, trim_of};

verus! {

/// The standard base64 alphabet, with padding, of a byte sequence.
pub uninterp spec fn base64_of(b: Seq<u8>) -> Seq<char>;

/// Relies on `base64::Engine::encode` with `BASE64_STANDARD`; an empty input
/// encodes to an empty string. It panics only when the output length would
/// overflow `usize`, which the length bound excludes.
#[verifier::external_body]
pub(crate) fn encode_base64(b: &Vec<u8>) -> (r: String)
    requires
        b@.len() <= isize::MAX,
    ensures
        r@ == base64_of(b@),
        b@.len() == 0 ==> r@.len() == 0,
{
    base64::prelude::BASE64_STANDARD.encode(b)
}

/// Binary data carried inside a request part, tagged with its media type.
pub struct InlineData {
    pub mime_type: String,
    pub data: String,
}

/// One unit of a request or response: inline binary data or text.
pub enum Part {
    InlineData { inline_data: InlineData },
    Text { text: String },
}

/// The mathematical view of a [`Part`].
pub ghost enum PartView {
    InlineData { mime_type: Seq<char>, data: Seq<char> },
    Text { text: Seq<char> },
}

impl View for Part {
    type V = PartView;

    open spec fn view(&self) -> PartView {
        match self {
            Part::InlineData { inline_data } => PartView::InlineData {
                mime_type: inline_data.mime_type@,
                data: inline_data.data@,
            },
            Part::Text { text } => PartView::Text { text: text@ },
        }
    }
}

/// An ordered list of parts: one turn of a conversation.
pub struct Content {
    pub parts: Vec<Part>,
}

impl View for Content {
    type V = Seq<PartView>;

    open spec fn view(&self) -> Seq<PartView> {
        self.parts@.map_values(|p: Part| p@)
    }
}

/// The body posted to the generative-content endpoint.
pub struct GenerateContentRequest {
    pub contents: Vec<Content>,
}

impl View for GenerateContentRequest {
    type V = Seq<Seq<PartView>>;

    open spec fn view(&self) -> Seq<Seq<PartView>> {
        self.contents@.map_values(|c: Content| c@)
    }
}

/// One proposed output of the service.
pub struct Candidate {
    pub content: Option<Content>,
}

/// The body the generative-content endpoint answers with.
pub struct GenerateContentResponse {
    pub candidates: Vec<Candidate>,
}

/// The text a response carries: the first part of the first candidate,
/// trimmed, when that part is text; otherwise empty.
pub open spec fn extracted_text(r: GenerateContentResponse) -> Seq<char> {
    if r.candidates@.len() > 0 {
        match r.candidates@[0].content {
            Some(c) => if c.parts@.len() > 0 {
                match c.parts@[0] {
                    Part::Text { text } => trim_of(text@),
                    _ => Seq::empty(),
                }
            } else {
                Seq::empty()
            },
            None => Seq::empty(),
        }
    } else {
        Seq::empty()
    }
}

/// Reads the text out of a response; a response without it gives an empty
/// string, never a failure.
pub fn extract_text(response: &GenerateContentResponse) -> (r: String)
    ensures
        r@ == extracted_text(*response),
{
    if response.candidates.len() > 0 {
        if let Some(content) = &response.candidates[0].content {
            if content.parts.len() > 0 {
                if let Part::Text { text } = &content.parts[0] {
                    return trim(text.as_str());
                }
            }
        }
    }
    String::new()
}

/// The model used when the settings name none.
pub open spec fn default_model() -> Seq<char> {
    "gemini-2.5-flash"@
}

/// The instruction put before every text-generation prompt.
pub open spec fn system_instruction() -> Seq<char> {
    "Tell it like it is; NEVER sugar-coat responses. Get right to the point. Be practical above all."@
}

/// The instruction that follows the audio in a transcription request.
pub open spec fn transcription_instruction() -> Seq<char> {
    "You are a transcription model. Transcribe the provided voice message into Russian with maximum accuracy, preserving meaning and natural flow. Do not include explanations, metadata, timestamps, or any additional text — only the transcription result"@
}

/// The text sent for a prompt: the system instruction, a blank line, the prompt.
pub open spec fn full_prompt(prompt: Seq<char>) -> Seq<char> {
    system_instruction() + "\n\n"@ + prompt
}

/// The address of the generative-content endpoint of a model, with the
/// credential as a query parameter.
pub open spec fn endpoint(model: Seq<char>, key: Seq<char>) -> Seq<char> {
    "https://generativelanguage.googleapis.com/v1beta/models/"@ + model + ":generateContent?key="@
        + key
}

/// The body of a text-generation request: one content holding one text part.
pub open spec fn text_body(prompt: Seq<char>) -> Seq<Seq<PartView>> {
    seq![seq![PartView::Text { text: full_prompt(prompt) }]]
}

/// The body of a transcription request: the audio first, then the instruction.
pub open spec fn voice_body(data: Seq<u8>, mime_type: Seq<char>) -> Seq<Seq<PartView>> {
    seq![
        seq![
            PartView::InlineData { mime_type, data: base64_of(data) },
            PartView::Text { text: transcription_instruction() },
        ],
    ]
}

/// Why a client could not be configured.
#[derive(PartialEq, Eq, Structural, Debug)]
pub enum ConfigError {
    MissingApiKey,
}

/// A request ready to be posted: where to, and the body.
pub struct GatewayCall {
    pub url: String,
    pub body: GenerateContentRequest,
}

/// Configuration of the generative-AI service: the credential and the models
/// used for text and for voice. Built once, then only read.
pub struct GoogleAiClient {
    api_key: String,
    model_text: String,
    model_voice: String,
}

impl GoogleAiClient {
    pub closed spec fn spec_api_key(&self) -> Seq<char> {
        self.api_key@
    }

    pub closed spec fn spec_model_text(&self) -> Seq<char> {
        self.model_text@
    }

    pub closed spec fn spec_model_voice(&self) -> Seq<char> {
        self.model_voice@
    }

    /// Builds the configuration from the settings that were found. The
    /// credential is required. The text model falls back to the general model
    /// setting, then to the default; the voice model comes from the general
    /// model setting, else the default.
    pub fn from_settings(
        api_key: Option<String>,
        text_model: Option<String>,
        model: Option<String>,
    ) -> (r: Result<GoogleAiClient, ConfigError>)
        ensures
            api_key is None <==> r == Err::<GoogleAiClient, ConfigError>(ConfigError::MissingApiKey),
            r is Ok ==> r->Ok_0.spec_api_key() == api_key->Some_0@,
            r is Ok ==> r->Ok_0.spec_model_text() == match text_model {
                Some(t) => t@,
                None => match model {
                    Some(m) => m@,
                    None => default_model(),
                },
            },
            r is Ok ==> r->Ok_0.spec_model_voice() == match model {
                Some(m) => m@,
                None => default_model(),
            },
    {
        let api_key = match api_key {
            Some(k) => k,
            None => return Err(ConfigError::MissingApiKey),
        };
        let model_voice = match &model {
            Some(m) => m.clone(),
            None => String::from_str("gemini-2.5-flash"),
        };
        let model_text = match text_model {
            Some(t) => t,
            None => model_voice.clone(),
        };
        Ok(GoogleAiClient { api_key, model_text, model_voice })
    }

    pub fn api_key(&self) -> (r: &str)
        ensures
            r@ == self.spec_api_key(),
    {
        self.api_key.as_str()
    }

    pub fn model_text(&self) -> (r: &str)
        ensures
            r@ == self.spec_model_text(),
    {
        self.model_text.as_str()
    }

    pub fn model_voice(&self) -> (r: &str)
        ensures
            r@ == self.spec_model_voice(),
    {
        self.model_voice.as_str()
    }

    /// The address to post to for a model.
    pub fn endpoint_url(&self, model: &str) -> (r: String)
        ensures
            r@ == endpoint(model@, self.spec_api_key()),
    {
        let mut url = String::from_str("https://generativelanguage.googleapis.com/v1beta/models/");
        url.append(model);
        url.append(":generateContent?key=");
        url.append(self.api_key.as_str());
        url
    }

    /// The call that asks the text model to answer a prompt: a single text
    /// part holding the system instruction, a blank line and the prompt.
    pub fn generate_text_call(&self, prompt: &str) -> (r: GatewayCall)
        ensures
            r.url@ == endpoint(self.spec_model_text(), self.spec_api_key()),
            r.body@ == text_body(prompt@),
    {
        let mut text = String::from_str("Tell it like it is; NEVER sugar-coat responses. Get right to the point. Be practical above all.");
        text.append("\n\n");
        text.append(prompt);
        let parts = vec![Part::Text { text }];
        let body = GenerateContentRequest { contents: vec![Content { parts }] };
        assert(body@ =~~= text_body(prompt@));
        GatewayCall { url: self.endpoint_url(self.model_text.as_str()), body }
    }

    /// The call that asks the voice model to transcribe audio: the audio,
    /// base64-encoded and tagged with its media type, then the instruction.
    pub fn transcribe_voice_call(&self, voice_data: Vec<u8>, mime_type: &str) -> (r: GatewayCall)
        requires
            voice_data@.len() <= isize::MAX,
        ensures
            r.url@ == endpoint(self.spec_model_voice(), self.spec_api_key()),
            r.body@ == voice_body(voice_data@, mime_type@),
    {
        let data = encode_base64(&voice_data);
        let parts = vec![
            Part::InlineData {
                inline_data: InlineData { mime_type: mime_type.to_string(), data },
            },
            Part::Text {
                text: String::from_str("You are a transcription model. Transcribe the provided voice message into Russian with maximum accuracy, preserving meaning and natural flow. Do not include explanations, metadata, timestamps, or any additional text — only the transcription result"),
            },
        ];
        let body = GenerateContentRequest { contents: vec![Content { parts }] };
        assert(body@ =~~= voice_body(voice_data@, mime_type@));
        GatewayCall { url: self.endpoint_url(self.model_voice.as_str()), body }
    }
}

/// What came of posting a call, as the transport saw it.
pub enum GatewayReply {
    /// The request did not reach the service or no answer came back.
    SendFailed,
    /// The service answered with a status other than success, and this body.
    Rejected { body: String },
    /// The service answered with success, but the body is not a response.
    Unparsable,
    /// The service answered with a response.
    Parsed { response: GenerateContentResponse },
}

/// Why a call to the service failed.
#[derive(PartialEq, Eq, Debug)]
pub enum GatewayError {
    /// Transport failure.
    Transport,
    /// The service rejected the request; the body it sent.
    Api(String),
    /// The answer did not have the shape of a response.
    Malformed,
}

impl GatewayError {
    /// A sentence describing the failure.
    pub fn message(&self) -> (r: String)
        ensures
            r@ == match self {
                GatewayError::Transport => "Failed to send request to Google AI"@,
                GatewayError::Api(body) => "Google AI API error: "@ + body@,
                GatewayError::Malformed => "Failed to parse response"@,
            },
    {
        match self {
            GatewayError::Transport => String::from_str("Failed to send request to Google AI"),
            GatewayError::Api(body) => {
                let mut m = String::from_str("Google AI API error: ");
                m.append(body.as_str());
                m
            },
            GatewayError::Malformed => String::from_str("Failed to parse response"),
        }
    }
}

/// Turns what came back from a call into the text result or the failure.
/// Each kind of failure is kept apart; none is retried.
pub fn interpret_reply(reply: GatewayReply) -> (r: Result<String, GatewayError>)
    ensures
        match reply {
            GatewayReply::SendFailed => r matches Err(GatewayError::Transport),
            GatewayReply::Rejected { body } => r matches Err(GatewayError::Api(b)) && b@ == body@,
            GatewayReply::Unparsable => r matches Err(GatewayError::Malformed),
            GatewayReply::Parsed { response } => r matches Ok(t) && t@ == extracted_text(response),
        },
{
    match reply {
        GatewayReply::SendFailed => Err(GatewayError::Transport),
        GatewayReply::Rejected { body } => Err(GatewayError::Api(body)),
        GatewayReply::Unparsable => Err(GatewayError::Malformed),
        GatewayReply::Parsed { response } => Ok(extract_text(&response)),
    }
}

/// A transcription request for no audio is still well formed: one content of
/// two parts, the (empty) audio before the instruction. A response without
/// candidates then yields an empty text rather than a failure.
pub proof fn lemma_empty_audio_request(mime_type: Seq<char>, response: GenerateContentResponse)
    requires
        response.candidates@.len() == 0,
    ensures
        voice_body(Seq::empty(), mime_type).len() == 1,
        voice_body(Seq::empty(), mime_type)[0].len() == 2,
        voice_body(Seq::empty(), mime_type)[0][0] == (PartView::InlineData {
            mime_type,
            data: base64_of(Seq::empty()),
        }),
        voice_body(Seq::empty(), mime_type)[0][1] == (PartView::Text {
            text: transcription_instruction(),
        }),
        extracted_text(response) == Seq::<char>::empty(),
{
}

} // verus!
