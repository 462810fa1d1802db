//! The Lyria text-to-audio API as this library sees it: where requests go,
//! what they carry, and how an answer becomes audio or an error.
//! Sending and receiving over HTTP is left to the caller.

use vstd::prelude::*;
use vstd::string::*;

use crate::codec::{base64_decoding, base64_encoding, decode_base64, encode_base64, Base64Error};
use crate::text::opt_chars;

verus! {

/// The Gemini `generativelanguage` endpoint that serves the model.
pub const API_BASE: &'static str = "https://generativelanguage.googleapis.com/v1beta/models";

/// The model that generates the audio.
pub const MODEL_ID: &'static str = "lyria-realtime-exp";

/// The header that carries the API key.
pub const API_KEY_HEADER: &'static str = "x-goog-api-key";

/// The method that is called on the model.
pub const GENERATE_CONTENT_SUFFIX: &'static str = ":generateContent";

/// The response modality that every request asks for.
pub const AUDIO_MODALITY: &'static str = "AUDIO";

/// Where and with which key the API is reached.
pub struct LyriaClient {
    pub api_key: String,
    pub base_url: String,
}

impl LyriaClient {
    /// A client of the public endpoint.
    pub fn new(api_key: String) -> (r: Self)
        ensures
            r.api_key@ == api_key@,
            r.base_url@ == API_BASE@,
    {
        LyriaClient { api_key, base_url: String::from_str(API_BASE) }
    }

    /// Create a client with a custom base URL (useful for testing with mock servers).
    pub fn with_base_url(api_key: String, base_url: String) -> (r: Self)
        ensures
            r.api_key@ == api_key@,
            r.base_url@ == base_url@,
    {
        LyriaClient { api_key, base_url }
    }

    /// The URL that requests are posted to.
    pub open spec fn endpoint_spec(&self) -> Seq<char> {
        self.base_url@ + "/"@ + MODEL_ID@ + GENERATE_CONTENT_SUFFIX@
    }

    /// The URL that requests are posted to: `{base_url}/{MODEL_ID}:generateContent`.
    pub fn endpoint_url(&self) -> (r: String)
        ensures
            r@ == self.endpoint_spec(),
    {
        let mut url = self.base_url.clone();
        url.append("/");
        url.append(MODEL_ID);
        url.append(GENERATE_CONTENT_SUFFIX);
        url
    }
}

// --- Request model ---

/// One part of the content of a request.
pub enum Part {
    Text { text: String },
    InlineData { inline_data: InlineData },
}

/// Audio carried inside a request, base64-encoded.
pub struct InlineData {
    pub mime_type: String,
    pub data: String,
}

/// The content of a request.
pub struct Content {
    pub parts: Vec<Part>,
}

/// How the model is asked to answer.
pub struct GenerationConfig {
    pub response_modalities: Vec<String>,
}

/// A `generateContent` request.
pub struct GenerateRequest {
    pub contents: Vec<Content>,
    pub generation_config: GenerationConfig,
}

/// The characters that a request part holds.
pub enum PartView {
    Text(Seq<char>),
    InlineData { mime_type: Seq<char>, data: Seq<char> },
}

impl View for Part {
    type V = PartView;

    open spec fn view(&self) -> PartView {
        match self {
            Part::Text { text } => PartView::Text(text@),
            Part::InlineData { inline_data } => PartView::InlineData {
                mime_type: inline_data.mime_type@,
                data: inline_data.data@,
            },
        }
    }
}

/// The characters that a request holds: the parts of each content, and the
/// response modalities.
pub struct GenerateRequestView {
    pub contents: Seq<Seq<PartView>>,
    pub response_modalities: Seq<Seq<char>>,
}

impl View for GenerateRequest {
    type V = GenerateRequestView;

    open spec fn view(&self) -> GenerateRequestView {
        GenerateRequestView {
            contents: self.contents@.map_values(
                |c: Content| c.parts@.map_values(|p: Part| p@),
            ),
            response_modalities: self.generation_config.response_modalities@.map_values(
                |m: String| m@,
            ),
        }
    }
}

fn audio_generation_config() -> (r: GenerationConfig)
    ensures
        r.response_modalities@.map_values(|m: String| m@) == seq![AUDIO_MODALITY@],
{
    let mut modalities: Vec<String> = Vec::new();
    modalities.push(String::from_str(AUDIO_MODALITY));
    assert(modalities@.map_values(|m: String| m@) =~= seq![AUDIO_MODALITY@]);
    GenerationConfig { response_modalities: modalities }
}

fn single_content_request(parts: Vec<Part>) -> (r: GenerateRequest)
    ensures
        r@.contents == seq![parts@.map_values(|p: Part| p@)],
        r@.response_modalities == seq![AUDIO_MODALITY@],
{
    let ghost parts_view = parts@.map_values(|p: Part| p@);
    let mut contents: Vec<Content> = Vec::new();
    contents.push(Content { parts });
    let r = GenerateRequest { contents, generation_config: audio_generation_config() };
    assert(r@.contents =~= seq![parts_view]);
    r
}

/// The request that asks for audio from a text prompt.
pub open spec fn generate_request_spec(prompt: Seq<char>) -> GenerateRequestView {
    GenerateRequestView {
        contents: seq![seq![PartView::Text(prompt)]],
        response_modalities: seq![AUDIO_MODALITY@],
    }
}

/// Builds the request that generates audio from a text prompt.
pub fn generate_request(prompt: &str) -> (r: GenerateRequest)
    ensures
        r@ == generate_request_spec(prompt@),
{
    let mut parts: Vec<Part> = Vec::new();
    parts.push(Part::Text { text: String::from_str(prompt) });
    assert(parts@.map_values(|p: Part| p@) =~= seq![PartView::Text(prompt@)]);
    single_content_request(parts)
}

/// The request that edits audio, given already in base64, with a text prompt.
pub open spec fn edit_request_spec(
    encoded_audio: Seq<char>,
    mime_type: Seq<char>,
    prompt: Seq<char>,
) -> GenerateRequestView {
    GenerateRequestView {
        contents: seq![
            seq![
                PartView::Text(prompt),
                PartView::InlineData { mime_type, data: encoded_audio },
            ],
        ],
        response_modalities: seq![AUDIO_MODALITY@],
    }
}

/// Builds the request that edits audio, given already in base64, with a text prompt.
pub fn edit_request_from_encoded(encoded_audio: String, mime_type: &str, prompt: &str) -> (r:
    GenerateRequest)
    ensures
        r@ == edit_request_spec(encoded_audio@, mime_type@, prompt@),
        r@.contents.len() == 1,
        r@.contents[0] == seq![
            PartView::Text(prompt@),
            PartView::InlineData { mime_type: mime_type@, data: encoded_audio@ },
        ],
{
    let ghost data = encoded_audio@;
    let mut parts: Vec<Part> = Vec::new();
    parts.push(Part::Text { text: String::from_str(prompt) });
    parts.push(
        Part::InlineData {
            inline_data: InlineData { mime_type: String::from_str(mime_type), data: encoded_audio },
        },
    );
    assert(parts@.map_values(|p: Part| p@) =~= seq![
        PartView::Text(prompt@),
        PartView::InlineData { mime_type: mime_type@, data },
    ]);
    single_content_request(parts)
}

/// A request that asks for audio from a prompt holds one content of one text
/// part, the prompt, and asks for audio only.
pub proof fn law_generate_request_carries_prompt(prompt: Seq<char>)
    ensures
        generate_request_spec(prompt).contents.len() == 1,
        generate_request_spec(prompt).contents[0].len() == 1,
        generate_request_spec(prompt).contents[0][0] == PartView::Text(prompt),
        generate_request_spec(prompt).response_modalities == seq!["AUDIO"@],
{
}

/// An edit request holds one content: the prompt as text, then the audio
/// with exactly the MIME type it was given; it asks for audio only.
pub proof fn law_edit_request_carries_inputs(
    encoded_audio: Seq<char>,
    mime_type: Seq<char>,
    prompt: Seq<char>,
)
    ensures
        edit_request_spec(encoded_audio, mime_type, prompt).contents.len() == 1,
        edit_request_spec(encoded_audio, mime_type, prompt).contents[0].len() == 2,
        edit_request_spec(encoded_audio, mime_type, prompt).contents[0][0] == PartView::Text(prompt),
        edit_request_spec(encoded_audio, mime_type, prompt).contents[0][1]
            == (PartView::InlineData { mime_type, data: encoded_audio }),
        edit_request_spec(encoded_audio, mime_type, prompt).response_modalities == seq!["AUDIO"@],
{
}

/// Builds the request that edits `audio_data` (of type `mime_type`) with a
/// text prompt; the audio travels base64-encoded, and what travels decodes
/// back to the audio.
pub fn edit_request(audio_data: &[u8], mime_type: &str, prompt: &str) -> (r: GenerateRequest)
    requires
        (audio_data@.len() + 2) / 3 * 4 <= usize::MAX,
    ensures
        r@ == edit_request_spec(base64_encoding(audio_data@), mime_type@, prompt@),
        r@.contents.len() == 1,
        r@.contents[0] == seq![
            PartView::Text(prompt@),
            PartView::InlineData { mime_type: mime_type@, data: base64_encoding(audio_data@) },
        ],
        base64_decoding(base64_encoding(audio_data@)) is Ok,
        base64_decoding(base64_encoding(audio_data@))->Ok_0 == audio_data@,
{
    let encoded = encode_base64(audio_data);
    edit_request_from_encoded(encoded, mime_type, prompt)
}

// --- Response model ---

/// One part of a candidate's content.
pub enum ResponsePart {
    Text { text: String },
    InlineData { inline_data: ResponseInlineData },
}

/// Audio returned by the API, base64-encoded.
pub struct ResponseInlineData {
    pub mime_type: String,
    pub data: String,
}

/// The content of a candidate.
pub struct CandidateContent {
    pub parts: Vec<ResponsePart>,
}

/// One answer of the model.
pub struct Candidate {
    pub content: CandidateContent,
}

/// An error reported in the body of an answer.
pub struct ApiError {
    pub message: String,
}

/// The body of an answer to `generateContent`.
pub struct GenerateResponse {
    pub candidates: Option<Vec<Candidate>>,
    pub error: Option<ApiError>,
}

/// The characters that a response part holds.
pub enum ResponsePartView {
    Text(Seq<char>),
    InlineData { mime_type: Seq<char>, data: Seq<char> },
}

impl View for ResponsePart {
    type V = ResponsePartView;

    open spec fn view(&self) -> ResponsePartView {
        match self {
            ResponsePart::Text { text } => ResponsePartView::Text(text@),
            ResponsePart::InlineData { inline_data } => ResponsePartView::InlineData {
                mime_type: inline_data.mime_type@,
                data: inline_data.data@,
            },
        }
    }
}

/// The characters of a list of response parts.
pub open spec fn parts_view(parts: Seq<ResponsePart>) -> Seq<ResponsePartView> {
    parts.map_values(|p: ResponsePart| p@)
}

/// Result of a music generation call.
#[derive(Debug)]
pub struct GeneratedAudio {
    pub audio_data: Vec<u8>,
    pub mime_type: String,
    pub description: Option<String>,
}

/// What went wrong while asking for audio.
#[derive(Debug)]
pub enum LyriaError {
    /// The server answered with a status outside 200-299; `status` is the
    /// status as it is printed (code and reason), `body` the answer's text.
    RequestFailed { status: String, body: String },
    /// The answer carried an error with this message.
    Api(String),
    /// The answer held no candidates.
    NoCandidates,
    /// The answer held an empty list of candidates.
    EmptyCandidates,
    /// The audio of the answer was not valid base64.
    Decode(Base64Error),
    /// The first candidate held no audio.
    NoAudioData,
}

/// The characters that a `LyriaError` holds.
pub enum LyriaErrorView {
    RequestFailed { status: Seq<char>, body: Seq<char> },
    Api(Seq<char>),
    NoCandidates,
    EmptyCandidates,
    Decode(Base64Error),
    NoAudioData,
}

impl View for LyriaError {
    type V = LyriaErrorView;

    open spec fn view(&self) -> LyriaErrorView {
        match self {
            LyriaError::RequestFailed { status, body } => LyriaErrorView::RequestFailed {
                status: status@,
                body: body@,
            },
            LyriaError::Api(m) => LyriaErrorView::Api(m@),
            LyriaError::NoCandidates => LyriaErrorView::NoCandidates,
            LyriaError::EmptyCandidates => LyriaErrorView::EmptyCandidates,
            LyriaError::Decode(e) => LyriaErrorView::Decode(*e),
            LyriaError::NoAudioData => LyriaErrorView::NoAudioData,
        }
    }
}

impl LyriaErrorView {
    /// The message that the error is reported with.
    pub open spec fn message_spec(self) -> Seq<char> {
        match self {
            LyriaErrorView::RequestFailed { status, body } => "API request failed ("@ + status
                + "): "@ + body,
            LyriaErrorView::Api(m) => "API error: "@ + m,
            LyriaErrorView::NoCandidates => "No candidates in response"@,
            LyriaErrorView::EmptyCandidates => "Empty candidates array"@,
            LyriaErrorView::Decode(e) => e.message_spec(),
            LyriaErrorView::NoAudioData => "No audio data in API response"@,
        }
    }
}

impl LyriaError {
    /// The message that the error is reported with.
    pub fn message(&self) -> (r: String)
        ensures
            r@ == self@.message_spec(),
    {
        match self {
            LyriaError::RequestFailed { status, body } => {
                let mut s = String::from_str("API request failed (");
                s.append(status.as_str());
                s.append("): ");
                s.append(body.as_str());
                s
            },
            LyriaError::Api(m) => {
                let mut s = String::from_str("API error: ");
                s.append(m.as_str());
                s
            },
            LyriaError::NoCandidates => String::from_str("No candidates in response"),
            LyriaError::EmptyCandidates => String::from_str("Empty candidates array"),
            LyriaError::Decode(e) => e.message(),
            LyriaError::NoAudioData => String::from_str("No audio data in API response"),
        }
    }
}

/// Whether an HTTP status is a success (200-299).
pub open spec fn is_success_status_spec(status: u16) -> bool {
    200 <= status && status <= 299
}

/// Whether an HTTP status is a success (200-299); any other status makes the
/// call fail with `LyriaError::RequestFailed`.
pub fn is_success_status(status: u16) -> (r: bool)
    ensures
        r == is_success_status_spec(status),
{
    200 <= status && status <= 299
}

// --- From the parts of an answer to audio ---

/// The MIME type and base64 text of the first inline-data part.
pub open spec fn first_inline(parts: Seq<ResponsePartView>) -> Option<(Seq<char>, Seq<char>)>
    decreases parts.len(),
{
    if parts.len() == 0 {
        None
    } else {
        match first_inline(parts.drop_last()) {
            Some(found) => Some(found),
            None => match parts.last() {
                ResponsePartView::InlineData { mime_type, data } => Some((mime_type, data)),
                ResponsePartView::Text(_) => None,
            },
        }
    }
}

/// The text of the last non-empty text part.
pub open spec fn last_description(parts: Seq<ResponsePartView>) -> Option<Seq<char>>
    decreases parts.len(),
{
    if parts.len() == 0 {
        None
    } else {
        match parts.last() {
            ResponsePartView::Text(t) => if t.len() > 0 {
                Some(t)
            } else {
                last_description(parts.drop_last())
            },
            ResponsePartView::InlineData { .. } => last_description(parts.drop_last()),
        }
    }
}

/// What the parts of a candidate offer: the first audio, and the last
/// non-empty text as a description.
pub struct PartsSelection {
    pub audio: Option<(String, String)>,
    pub description: Option<String>,
}

/// The characters of an optional (MIME type, base64 text) pair.
pub open spec fn opt_pair_chars(o: Option<(String, String)>) -> Option<(Seq<char>, Seq<char>)> {
    match o {
        Some(p) => Some((p.0@, p.1@)),
        None => None,
    }
}

/// Picks the first audio part and the last non-empty text part.
pub fn select_parts(parts: &Vec<ResponsePart>) -> (r: PartsSelection)
    ensures
        opt_pair_chars(r.audio) == first_inline(parts_view(parts@)),
        opt_chars(r.description) == last_description(parts_view(parts@)),
{
    let ghost pv = parts_view(parts@);
    let mut audio: Option<(String, String)> = None;
    let mut description: Option<String> = None;
    let n = parts.len();
    let mut i: usize = 0;
    while i < n
        invariant
            n == parts@.len(),
            pv == parts_view(parts@),
            i <= n,
            opt_pair_chars(audio) == first_inline(pv.take(i as int)),
            opt_chars(description) == last_description(pv.take(i as int)),
        decreases n - i,
    {
        assert(pv.take(i + 1).drop_last() =~= pv.take(i as int));
        assert(pv.take(i + 1).last() == parts@[i as int]@);
        match &parts[i] {
            ResponsePart::InlineData { inline_data } => {
                if audio.is_none() {
                    audio = Some((inline_data.mime_type.clone(), inline_data.data.clone()));
                }
            },
            ResponsePart::Text { text } => {
                if !text.as_str().is_empty() {
                    description = Some(text.clone());
                }
            },
        }
        i = i + 1;
    }
    assert(pv.take(n as int) =~= pv);
    PartsSelection { audio, description }
}

/// The characters of a `GeneratedAudio`.
pub struct GeneratedAudioView {
    pub audio_data: Seq<u8>,
    pub mime_type: Seq<char>,
    pub description: Option<Seq<char>>,
}

impl View for GeneratedAudio {
    type V = GeneratedAudioView;

    open spec fn view(&self) -> GeneratedAudioView {
        GeneratedAudioView {
            audio_data: self.audio_data@,
            mime_type: self.mime_type@,
            description: opt_chars(self.description),
        }
    }
}

/// The views of a result of asking for audio.
pub open spec fn audio_result_view(r: Result<GeneratedAudio, LyriaError>) -> Result<
    GeneratedAudioView,
    LyriaErrorView,
> {
    match r {
        Ok(a) => Ok(a@),
        Err(e) => Err(e@),
    }
}

/// Audio from a decoded payload: the decoded bytes with their MIME type and
/// description, or the decoding error.
pub open spec fn assemble_spec(
    mime_type: Seq<char>,
    decoded: Result<Seq<u8>, Base64Error>,
    description: Option<Seq<char>>,
) -> Result<GeneratedAudioView, LyriaErrorView> {
    match decoded {
        Ok(bytes) => Ok(GeneratedAudioView { audio_data: bytes, mime_type, description }),
        Err(e) => Err(LyriaErrorView::Decode(e)),
    }
}

/// Puts decoded audio together with its MIME type and description.
pub fn assemble_audio(
    mime_type: String,
    decoded: Result<Vec<u8>, Base64Error>,
    description: Option<String>,
) -> (r: Result<GeneratedAudio, LyriaError>)
    ensures
        audio_result_view(r) == assemble_spec(
            mime_type@,
            match decoded {
                Ok(v) => Ok::<Seq<u8>, Base64Error>(v@),
                Err(e) => Err(e),
            },
            opt_chars(description),
        ),
{
    match decoded {
        Ok(audio_data) => Ok(GeneratedAudio { audio_data, mime_type, description }),
        Err(e) => Err(LyriaError::Decode(e)),
    }
}

/// The characters of a response's candidates: the parts of each.
pub open spec fn candidates_view(c: Seq<Candidate>) -> Seq<Seq<ResponsePartView>> {
    c.map_values(|cand: Candidate| parts_view(cand.content.parts@))
}

/// What a `generateContent` answer with a success status amounts to.
pub open spec fn extract_spec(
    error: Option<Seq<char>>,
    candidates: Option<Seq<Seq<ResponsePartView>>>,
) -> Result<GeneratedAudioView, LyriaErrorView> {
    match error {
        Some(m) => Err(LyriaErrorView::Api(m)),
        None => match candidates {
            None => Err(LyriaErrorView::NoCandidates),
            Some(c) => if c.len() == 0 {
                Err(LyriaErrorView::EmptyCandidates)
            } else {
                match first_inline(c[0]) {
                    None => Err(LyriaErrorView::NoAudioData),
                    Some((mime_type, data)) => assemble_spec(
                        mime_type,
                        base64_decoding(data),
                        last_description(c[0]),
                    ),
                }
            },
        },
    }
}

/// The views of a response's error message and candidates.
pub open spec fn response_error_view(r: GenerateResponse) -> Option<Seq<char>> {
    match r.error {
        Some(e) => Some(e.message@),
        None => None,
    }
}

/// The views of a response's candidates.
pub open spec fn response_candidates_view(r: GenerateResponse) -> Option<Seq<Seq<ResponsePartView>>> {
    match r.candidates {
        Some(c) => Some(candidates_view(c@)),
        None => None,
    }
}

/// Turns the body of a successful answer into audio: an error in the body,
/// a missing or empty candidate list, a first candidate without audio, or
/// audio that is not valid base64 each make it fail. The first audio part of
/// the first candidate is taken; its last non-empty text part describes it.
pub fn extract_audio(response: GenerateResponse) -> (r: Result<GeneratedAudio, LyriaError>)
    ensures
        audio_result_view(r) == extract_spec(
            response_error_view(response),
            response_candidates_view(response),
        ),
{
    let ghost cv = response_candidates_view(response);
    match response.error {
        Some(err) => {
            return Err(LyriaError::Api(err.message));
        },
        None => {},
    }
    let candidates = match response.candidates {
        Some(c) => c,
        None => {
            return Err(LyriaError::NoCandidates);
        },
    };
    if candidates.len() == 0 {
        return Err(LyriaError::EmptyCandidates);
    }
    let parts = &candidates[0].content.parts;
    assert(cv->0[0] == parts_view(parts@));
    let selection = select_parts(parts);
    match selection.audio {
        None => Err(LyriaError::NoAudioData),
        Some((mime_type, data)) => {
            let decoded = decode_base64(data.as_str());
            assemble_audio(mime_type, decoded, selection.description)
        },
    }
}

// --- Laws of reading an answer ---

proof fn lemma_first_inline_at(parts: Seq<ResponsePartView>, i: int)
    requires
        0 <= i < parts.len(),
        parts[i] is InlineData,
        forall|j: int| 0 <= j < i ==> !(parts[j] is InlineData),
    ensures
        first_inline(parts) == Some((parts[i]->InlineData_mime_type, parts[i]->InlineData_data)),
    decreases parts.len(),
{
    if i < parts.len() - 1 {
        let shorter = parts.drop_last();
        assert(shorter[i] == parts[i]);
        assert forall|j: int| 0 <= j < i implies !(shorter[j] is InlineData) by {
            assert(shorter[j] == parts[j]);
        }
        lemma_first_inline_at(shorter, i);
    } else {
        lemma_no_inline(parts.drop_last());
    }
}

proof fn lemma_no_inline(parts: Seq<ResponsePartView>)
    requires
        forall|j: int| 0 <= j < parts.len() ==> !(#[trigger] parts[j] is InlineData),
    ensures
        first_inline(parts) is None,
    decreases parts.len(),
{
    if parts.len() > 0 {
        let shorter = parts.drop_last();
        assert forall|j: int| 0 <= j < shorter.len() implies !(#[trigger] shorter[j] is InlineData) by {
            assert(shorter[j] == parts[j]);
        }
        lemma_no_inline(shorter);
        assert(!(parts[parts.len() - 1] is InlineData));
    }
}

/// Whether a part is a text part with some text.
pub open spec fn is_nonempty_text(p: ResponsePartView) -> bool {
    p matches ResponsePartView::Text(t) && t.len() > 0
}

proof fn lemma_last_description_at(parts: Seq<ResponsePartView>, i: int)
    requires
        0 <= i < parts.len(),
        is_nonempty_text(parts[i]),
        forall|j: int| i < j < parts.len() ==> !is_nonempty_text(#[trigger] parts[j]),
    ensures
        last_description(parts) == Some(parts[i]->Text_0),
    decreases parts.len(),
{
    if i < parts.len() - 1 {
        let shorter = parts.drop_last();
        assert(shorter[i] == parts[i]);
        assert(!is_nonempty_text(parts[parts.len() - 1]));
        assert forall|j: int| i < j < shorter.len() implies !is_nonempty_text(#[trigger] shorter[j]) by {
            assert(shorter[j] == parts[j]);
        }
        lemma_last_description_at(shorter, i);
    }
}

proof fn lemma_no_description(parts: Seq<ResponsePartView>)
    requires
        forall|j: int| 0 <= j < parts.len() ==> !is_nonempty_text(#[trigger] parts[j]),
    ensures
        last_description(parts) is None,
    decreases parts.len(),
{
    if parts.len() > 0 {
        let shorter = parts.drop_last();
        assert forall|j: int| 0 <= j < shorter.len() implies !is_nonempty_text(#[trigger] shorter[j]) by {
            assert(shorter[j] == parts[j]);
        }
        lemma_no_description(shorter);
        assert(!is_nonempty_text(parts[parts.len() - 1]));
    }
}

/// The description of the audio is the text of the last part that has some
/// text; there is none when no part has text.
pub proof fn law_description_is_last_text(parts: Seq<ResponsePartView>, i: int)
    ensures
        (0 <= i < parts.len() && is_nonempty_text(parts[i]) && (forall|j: int|
            i < j < parts.len() ==> !is_nonempty_text(#[trigger] parts[j])))
            ==> last_description(parts) == Some(parts[i]->Text_0),
        (forall|j: int| 0 <= j < parts.len() ==> !is_nonempty_text(#[trigger] parts[j]))
            ==> last_description(parts) is None,
{
    if 0 <= i < parts.len() && is_nonempty_text(parts[i]) && (forall|j: int|
        i < j < parts.len() ==> !is_nonempty_text(#[trigger] parts[j])) {
        lemma_last_description_at(parts, i);
    }
    if forall|j: int| 0 <= j < parts.len() ==> !is_nonempty_text(#[trigger] parts[j]) {
        lemma_no_description(parts);
    }
}

/// What an answer with a success status yields: the error it carries; else
/// that candidates are missing or empty; else, from the first candidate, the
/// first audio part decoded, with its MIME type and the last text as its
/// description (or the decoding error); `NoAudioData` when it has no audio.
pub proof fn law_extract_reads_first_audio(
    error: Option<Seq<char>>,
    candidates: Option<Seq<Seq<ResponsePartView>>>,
    i: int,
)
    ensures
        error is Some ==> extract_spec(error, candidates) == Err::<
            GeneratedAudioView,
            LyriaErrorView,
        >(LyriaErrorView::Api(error->0)),
        (error is None && candidates is None) ==> extract_spec(error, candidates) == Err::<
            GeneratedAudioView,
            LyriaErrorView,
        >(LyriaErrorView::NoCandidates),
        (error is None && candidates is Some && candidates->0.len() == 0) ==> extract_spec(
            error,
            candidates,
        ) == Err::<GeneratedAudioView, LyriaErrorView>(LyriaErrorView::EmptyCandidates),
        (error is None && candidates is Some && candidates->0.len() > 0 && (forall|j: int|
            0 <= j < candidates->0[0].len() ==> !(#[trigger] candidates->0[0][j] is InlineData)))
            ==> extract_spec(error, candidates) == Err::<GeneratedAudioView, LyriaErrorView>(
            LyriaErrorView::NoAudioData,
        ),
        (error is None && candidates is Some && candidates->0.len() > 0 && 0 <= i
            < candidates->0[0].len() && candidates->0[0][i] is InlineData && (forall|j: int|
            0 <= j < i ==> !(#[trigger] candidates->0[0][j] is InlineData))) ==> extract_spec(
            error,
            candidates,
        ) == match base64_decoding(candidates->0[0][i]->InlineData_data) {
            Ok(bytes) => Ok(
                GeneratedAudioView {
                    audio_data: bytes,
                    mime_type: candidates->0[0][i]->InlineData_mime_type,
                    description: last_description(candidates->0[0]),
                },
            ),
            Err(e) => Err(LyriaErrorView::Decode(e)),
        },
{
    if let Some(c) = candidates {
        if c.len() > 0 {
            if forall|j: int| 0 <= j < c[0].len() ==> !(#[trigger] c[0][j] is InlineData) {
                lemma_no_inline(c[0]);
            }
            if 0 <= i < c[0].len() && c[0][i] is InlineData && (forall|j: int|
                0 <= j < i ==> !(#[trigger] c[0][j] is InlineData)) {
                lemma_first_inline_at(c[0], i);
            }
        }
    }
}

/// The URL that requests go to is the base URL followed by
/// `/lyria-realtime-exp:generateContent`.
pub proof fn law_endpoint_url(client: LyriaClient)
    ensures
        client.endpoint_spec() == client.base_url@ + "/lyria-realtime-exp:generateContent"@,
{
    reveal_strlit("/");
    reveal_strlit("lyria-realtime-exp");
    reveal_strlit(":generateContent");
    reveal_strlit("/lyria-realtime-exp:generateContent");
    assert("/"@ + MODEL_ID@ + GENERATE_CONTENT_SUFFIX@ =~= "/lyria-realtime-exp:generateContent"@);
    assert(client.endpoint_spec() =~= client.base_url@ + ("/"@ + MODEL_ID@ + GENERATE_CONTENT_SUFFIX@));
}

} // verus!
