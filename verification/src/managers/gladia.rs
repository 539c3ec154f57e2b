//! The adapter for Gladia: the audio is uploaded, a job is submitted for the
//! uploaded audio, and the address that the provider names for the result
//! is asked every two seconds until it holds the transcript.

use vstd::prelude::*;
use vstd::string::StringExecFns;
use crate::audio::{encode_wav, wire_audio, MAX_WAV_SAMPLES};
use crate::error::{Error, ErrorView, Provider};
use crate::managers::language::{is_shared_language, knows_language};
use crate::managers::remote::{
    is_success,
    judge,
    judged,
    member_views,
    no_pairs,
    pair_of,
    with_member,
    with_pair,
    JsonMember,
    JsonMemberView,
    Method,
    Payload,
    PayloadView,
    Request,
    RequestView,
    Pair,
    PairView,
    pair_views,
    WAV_FILE_NAME,
    WAV_MIME,
};
use crate::text::str_eq;

verus! {

/// Where the audio is posted.
pub const GLADIA_UPLOAD_URL: &'static str = "https://api.gladia.io/v2/upload";

/// Where a job is submitted.
pub const GLADIA_TRANSCRIPT_URL: &'static str = "https://api.gladia.io/v2/pre-recorded";

/// The seconds between two requests for the result of a job.
pub const GLADIA_POLL_SECONDS: u64 = 2;

/// The provider's code for a language of the application: the same code,
/// and `en` for a language that the provider does not know. `auto` stays,
/// and stands for a language that is to be detected.
pub open spec fn gladia_language(app_language: Seq<char>) -> Seq<char> {
    if app_language == "auto"@ {
        "auto"@
    } else if app_language == "en"@ || is_shared_language(app_language) {
        app_language
    } else {
        "en"@
    }
}

/// The provider's code for a language of the application.
pub fn convert_to_gladia_language(app_language: &str) -> (code: String)
    ensures
        code@ == gladia_language(app_language@),
{
    if str_eq(app_language, "auto") {
        String::from_str("auto")
    } else if str_eq(app_language, "en") || knows_language(app_language) {
        String::from_str(app_language)
    } else {
        String::from_str("en")
    }
}

/// What the body of the answer to an upload holds.
#[derive(Debug, PartialEq, Eq)]
pub struct GladiaUploadResponse {
    pub audio_url: String,
}

/// What the body of the answer to a submitted job holds.
#[derive(Debug, PartialEq, Eq)]
pub struct GladiaTranscriptionResponse {
    pub id: String,
    pub result_url: String,
}

/// What the body of the answer to a request for the result holds, where it
/// has the shape of a result: the member `full_transcript` of the member
/// `transcription` of the member `result`, if it is there.
#[derive(Debug, PartialEq, Eq)]
pub struct GladiaTranscriptionResult {
    pub full_transcript: Option<String>,
}

/// What is reported to the adapter.
#[allow(inconsistent_fields)]
#[derive(Debug, PartialEq, Eq)]
pub enum GladiaEvent {
    /// A transcription is asked for, in the given language of the
    /// application.
    Start { api_key: Option<String>, language: String, audio: Vec<i16> },
    /// The server answered the upload.
    Uploaded { status: u16, body: String, parsed: Result<GladiaUploadResponse, String> },
    /// The server answered the submitted job.
    Submitted { status: u16, body: String, parsed: Result<GladiaTranscriptionResponse, String> },
    /// The server answered a request for the result.
    Polled { status: u16, body: String, parsed: Result<GladiaTranscriptionResult, String> },
    /// The last request got no answer.
    Failed { message: String },
    /// The time to wait is over.
    Waited,
    /// The caller calls the transcription off.
    Cancelled,
}

/// What the adapter wants done next.
#[derive(Debug, PartialEq, Eq)]
pub enum GladiaAction {
    /// Make this request, which uploads the audio, and report the answer
    /// with `Uploaded`.
    Upload { request: Request },
    /// Make this request, which submits the job, and report the answer with
    /// `Submitted`.
    Submit { request: Request },
    /// Make this request, which asks for the result of the job, and report
    /// the answer with `Polled`.
    Poll { request: Request },
    /// Wait for so many seconds and report `Waited`.
    Wait { seconds: u64 },
    /// The transcription is over, with this text or this failure.
    Finish(Result<String, Error>),
}

/// How far a transcription has come.
#[derive(Debug, Clone, Copy, PartialEq, Eq, Structural)]
pub enum GladiaPhase {
    Idle,
    Uploading,
    Submitting,
    Polling,
    Waiting,
}

/// What the answer to a request for the result means.
pub enum GladiaVerdict {
    /// The job is completed, with this text.
    Completed(Seq<char>),
    /// The result is not there yet, or could not be had this time: it is
    /// asked for again.
    Pending,
}

/// What the answer to a request for the result means. The job is over once
/// an answer has the shape of a result and holds a transcript; any other
/// answer, and a request that failed in any way, is followed by another
/// request.
pub open spec fn gladia_verdict(
    status: u16,
    parsed: Result<GladiaTranscriptionResult, String>,
) -> GladiaVerdict {
    if !is_success(status) {
        GladiaVerdict::Pending
    } else {
        match parsed {
            Ok(GladiaTranscriptionResult { full_transcript: Some(text) }) => GladiaVerdict::Completed(
                text@,
            ),
            _ => GladiaVerdict::Pending,
        }
    }
}

/// The language that a job names: none where it is to be detected.
pub open spec fn gladia_language_code(app_language: Seq<char>) -> Option<Seq<char>> {
    if gladia_language(app_language) == "auto"@ {
        None
    } else {
        Some(gladia_language(app_language))
    }
}

/// The header that authorizes a request: the key as it is.
pub open spec fn gladia_key(api_key: Seq<char>) -> PairView {
    pair_of("x-gladia-key"@, api_key)
}

/// The request that uploads a WAV file: a multipart form with the file in
/// the field `audio`.
pub open spec fn gladia_upload(api_key: Seq<char>, wav: Seq<u8>) -> RequestView {
    RequestView {
        method: Method::Post,
        url: "https://api.gladia.io/v2/upload"@,
        query: Seq::empty(),
        headers: seq![gladia_key(api_key)],
        payload: PayloadView::Form {
            file_field: "audio"@,
            file_name: "audio.wav"@,
            mime: "audio/wav"@,
            bytes: wav,
            fields: Seq::empty(),
        },
    }
}

/// The members of a job: the uploaded audio, whether the language is to be
/// detected, and the language unless it is.
pub open spec fn gladia_job(audio_url: Seq<char>, app_language: Seq<char>) -> Seq<JsonMemberView> {
    let fixed = seq![
        JsonMemberView::Text { name: "audio_url"@, value: audio_url },
        JsonMemberView::Flag {
            name: "detect_language"@,
            value: gladia_language_code(app_language) is None,
        },
    ];
    match gladia_language_code(app_language) {
        Some(code) => fixed.push(JsonMemberView::Text { name: "language"@, value: code }),
        None => fixed,
    }
}

/// The request that submits a job for uploaded audio.
pub open spec fn gladia_submit(
    api_key: Seq<char>,
    audio_url: Seq<char>,
    app_language: Seq<char>,
) -> RequestView {
    RequestView {
        method: Method::Post,
        url: "https://api.gladia.io/v2/pre-recorded"@,
        query: Seq::empty(),
        headers: seq![gladia_key(api_key), pair_of("Content-Type"@, "application/json"@)],
        payload: PayloadView::Json { members: gladia_job(audio_url, app_language) },
    }
}

/// The request that asks for the result of a job.
pub open spec fn gladia_poll(api_key: Seq<char>, url: Seq<char>) -> RequestView {
    RequestView {
        method: Method::Get,
        url,
        query: Seq::empty(),
        headers: seq![gladia_key(api_key)],
        payload: PayloadView::Empty,
    }
}

fn key_header(api_key: &str) -> (headers: Vec<Pair>)
    ensures
        pair_views(headers@) == seq![gladia_key(api_key@)],
{
    let headers = with_pair(no_pairs(), "x-gladia-key", String::from_str(api_key));
    assert(pair_views(headers@) =~= seq![gladia_key(api_key@)]);
    headers
}

fn upload_request(api_key: &str, wav: Vec<u8>) -> (request: Request)
    ensures
        request@ == gladia_upload(api_key@, wav@),
{
    Request {
        method: Method::Post,
        url: String::from_str(GLADIA_UPLOAD_URL),
        query: no_pairs(),
        headers: key_header(api_key),
        payload: Payload::Form {
            file_field: String::from_str("audio"),
            file_name: String::from_str(WAV_FILE_NAME),
            mime: String::from_str(WAV_MIME),
            bytes: wav,
            fields: no_pairs(),
        },
    }
}

fn submit_request(api_key: &str, audio_url: String, app_language: &str) -> (request: Request)
    ensures
        request@ == gladia_submit(api_key@, audio_url@, app_language@),
{
    let code = convert_to_gladia_language(app_language);
    let detect_language = str_eq(code.as_str(), "auto");
    let mut members: Vec<JsonMember> = Vec::new();
    assert(member_views(members@) =~= Seq::<JsonMemberView>::empty());
    members = with_member(
        members,
        JsonMember::Text { name: String::from_str("audio_url"), value: audio_url },
    );
    members = with_member(
        members,
        JsonMember::Flag { name: String::from_str("detect_language"), value: detect_language },
    );
    if !detect_language {
        members = with_member(
            members,
            JsonMember::Text { name: String::from_str("language"), value: code },
        );
    }
    assert(member_views(members@) =~= gladia_job(audio_url@, app_language@));
    let headers = with_pair(
        key_header(api_key),
        "Content-Type",
        String::from_str("application/json"),
    );
    let request = Request {
        method: Method::Post,
        url: String::from_str(GLADIA_TRANSCRIPT_URL),
        query: no_pairs(),
        headers,
        payload: Payload::Json { members },
    };
    assert(request@.headers =~= gladia_submit(api_key@, audio_url@, app_language@).headers);
    request
}

fn poll_request(api_key: &str, url: &str) -> (request: Request)
    ensures
        request@ == gladia_poll(api_key@, url@),
{
    Request {
        method: Method::Get,
        url: String::from_str(url),
        query: no_pairs(),
        headers: key_header(api_key),
        payload: Payload::Empty,
    }
}

/// The adapter for Gladia.
pub struct GladiaApiManager {
    phase: GladiaPhase,
    api_key: String,
    language: String,
    polling_url: String,
}

impl GladiaApiManager {
    /// How far the transcription has come.
    pub closed spec fn phase(&self) -> GladiaPhase {
        self.phase
    }

    /// The credential of the transcription under way.
    pub closed spec fn api_key(&self) -> Seq<char> {
        self.api_key@
    }

    /// The language of the transcription under way.
    pub closed spec fn language(&self) -> Seq<char> {
        self.language@
    }

    /// Where the result of the job under way is had.
    pub closed spec fn polling_url(&self) -> Seq<char> {
        self.polling_url@
    }

    /// An adapter with nothing under way: it holds no credential, no
    /// language and no address of a job.
    pub fn new() -> (manager: Self)
        ensures
            manager.phase() == GladiaPhase::Idle,
            manager.api_key() == Seq::<char>::empty(),
            manager.language() == Seq::<char>::empty(),
            manager.polling_url() == Seq::<char>::empty(),
    {
        GladiaApiManager {
            phase: GladiaPhase::Idle,
            api_key: String::new(),
            language: String::new(),
            polling_url: String::new(),
        }
    }

    fn unexpected(&mut self) -> (action: GladiaAction)
        ensures
            final(self).phase() == GladiaPhase::Idle,
            action matches GladiaAction::Finish(Err(e)) && e@ == ErrorView::UnexpectedEvent,
    {
        self.phase = GladiaPhase::Idle;
        GladiaAction::Finish(Err(Error::UnexpectedEvent))
    }

    fn fail(&mut self, e: Error) -> (action: GladiaAction)
        ensures
            final(self).phase() == GladiaPhase::Idle,
            action matches GladiaAction::Finish(Err(sent)) && sent@ == e@,
    {
        self.phase = GladiaPhase::Idle;
        GladiaAction::Finish(Err(e))
    }

    fn wait(&mut self) -> (action: GladiaAction)
        ensures
            final(self).phase() == GladiaPhase::Waiting,
            final(self).api_key() == old(self).api_key(),
            final(self).polling_url() == old(self).polling_url(),
            action == (GladiaAction::Wait { seconds: 2 }),
    {
        self.phase = GladiaPhase::Waiting;
        GladiaAction::Wait { seconds: GLADIA_POLL_SECONDS }
    }

    /// Takes one step of a transcription.
    ///
    /// Without a credential the transcription fails at once, before
    /// anything is sent. A failure while uploading or submitting ends it.
    /// Once the job is submitted only the transcript ends it, or the
    /// caller by calling it off: a request for the result that fails, or
    /// that finds no transcript, is made again after the wait, without
    /// limit.
    pub fn transcribe(&mut self, event: GladiaEvent) -> (action: GladiaAction)
        ensures
            match event {
                GladiaEvent::Start { api_key, language, audio } => if old(self).phase()
                    != GladiaPhase::Idle {
                    &&& final(self).phase() == GladiaPhase::Idle
                    &&& action matches GladiaAction::Finish(Err(e))
                    &&& e@ == ErrorView::UnexpectedEvent
                } else {
                    match api_key {
                        None => {
                            &&& final(self).phase() == GladiaPhase::Idle
                            &&& action matches GladiaAction::Finish(Err(e))
                            &&& e@ == ErrorView::MissingCredential(Provider::Gladia)
                        },
                        Some(key) => if audio@.len() <= MAX_WAV_SAMPLES {
                            &&& final(self).phase() == GladiaPhase::Uploading
                            &&& final(self).api_key() == key@
                            &&& final(self).language() == language@
                            &&& action matches GladiaAction::Upload { request }
                            &&& request@ == gladia_upload(key@, wire_audio(audio@))
                        } else {
                            &&& final(self).phase() == GladiaPhase::Idle
                            &&& action matches GladiaAction::Finish(Err(e))
                            &&& e@ == ErrorView::Io("audio too long"@)
                        },
                    }
                },
                GladiaEvent::Uploaded { status, body, parsed } => if old(self).phase()
                    != GladiaPhase::Uploading {
                    &&& final(self).phase() == GladiaPhase::Idle
                    &&& action matches GladiaAction::Finish(Err(e))
                    &&& e@ == ErrorView::UnexpectedEvent
                } else {
                    match judged(status, body@, parsed) {
                        Ok(upload) => {
                            &&& final(self).phase() == GladiaPhase::Submitting
                            &&& final(self).api_key() == old(self).api_key()
                            &&& action matches GladiaAction::Submit { request }
                            &&& request@ == gladia_submit(
                                old(self).api_key(),
                                upload.audio_url@,
                                old(self).language(),
                            )
                        },
                        Err(failure) => {
                            &&& final(self).phase() == GladiaPhase::Idle
                            &&& action matches GladiaAction::Finish(Err(e))
                            &&& e@ == failure
                        },
                    }
                },
                GladiaEvent::Submitted { status, body, parsed } => if old(self).phase()
                    != GladiaPhase::Submitting {
                    &&& final(self).phase() == GladiaPhase::Idle
                    &&& action matches GladiaAction::Finish(Err(e))
                    &&& e@ == ErrorView::UnexpectedEvent
                } else {
                    match judged(status, body@, parsed) {
                        Ok(job) => {
                            &&& final(self).phase() == GladiaPhase::Polling
                            &&& final(self).api_key() == old(self).api_key()
                            &&& final(self).polling_url() == job.result_url@
                            &&& action matches GladiaAction::Poll { request }
                            &&& request@ == gladia_poll(
                                old(self).api_key(),
                                final(self).polling_url(),
                            )
                        },
                        Err(failure) => {
                            &&& final(self).phase() == GladiaPhase::Idle
                            &&& action matches GladiaAction::Finish(Err(e))
                            &&& e@ == failure
                        },
                    }
                },
                GladiaEvent::Polled { status, body, parsed } => if old(self).phase()
                    != GladiaPhase::Polling {
                    &&& final(self).phase() == GladiaPhase::Idle
                    &&& action matches GladiaAction::Finish(Err(e))
                    &&& e@ == ErrorView::UnexpectedEvent
                } else {
                    match gladia_verdict(status, parsed) {
                        GladiaVerdict::Completed(text) => {
                            &&& final(self).phase() == GladiaPhase::Idle
                            &&& action matches GladiaAction::Finish(Ok(sent))
                            &&& sent@ == text
                        },
                        GladiaVerdict::Pending => {
                            &&& final(self).phase() == GladiaPhase::Waiting
                            &&& final(self).api_key() == old(self).api_key()
                            &&& final(self).polling_url() == old(self).polling_url()
                            &&& action == (GladiaAction::Wait { seconds: 2 })
                        },
                    }
                },
                GladiaEvent::Failed { message } => match old(self).phase() {
                    GladiaPhase::Uploading | GladiaPhase::Submitting => {
                        &&& final(self).phase() == GladiaPhase::Idle
                        &&& action matches GladiaAction::Finish(Err(e))
                        &&& e@ == ErrorView::Network(message@)
                    },
                    GladiaPhase::Polling => {
                        &&& final(self).phase() == GladiaPhase::Waiting
                        &&& final(self).api_key() == old(self).api_key()
                        &&& final(self).polling_url() == old(self).polling_url()
                        &&& action == (GladiaAction::Wait { seconds: 2 })
                    },
                    _ => {
                        &&& final(self).phase() == GladiaPhase::Idle
                        &&& action matches GladiaAction::Finish(Err(e))
                        &&& e@ == ErrorView::UnexpectedEvent
                    },
                },
                GladiaEvent::Waited => if old(self).phase() == GladiaPhase::Waiting {
                    &&& final(self).phase() == GladiaPhase::Polling
                    &&& final(self).api_key() == old(self).api_key()
                    &&& final(self).polling_url() == old(self).polling_url()
                    &&& action matches GladiaAction::Poll { request }
                    &&& request@ == gladia_poll(old(self).api_key(), old(self).polling_url())
                } else {
                    &&& final(self).phase() == GladiaPhase::Idle
                    &&& action matches GladiaAction::Finish(Err(e))
                    &&& e@ == ErrorView::UnexpectedEvent
                },
                GladiaEvent::Cancelled => {
                    &&& final(self).phase() == GladiaPhase::Idle
                    &&& action matches GladiaAction::Finish(Err(e))
                    &&& e@ == ErrorView::Cancelled
                },
            },
    {
        match event {
            GladiaEvent::Start { api_key, language, audio } => {
                if self.phase != GladiaPhase::Idle {
                    return self.unexpected();
                }
                let key = match api_key {
                    None => {
                        return self.fail(Error::MissingCredential(Provider::Gladia));
                    },
                    Some(key) => key,
                };
                match encode_wav(&audio) {
                    Err(e) => self.fail(e),
                    Ok(wav) => {
                        let request = upload_request(key.as_str(), wav);
                        self.phase = GladiaPhase::Uploading;
                        self.api_key = key;
                        self.language = language;
                        GladiaAction::Upload { request }
                    },
                }
            },
            GladiaEvent::Uploaded { status, body, parsed } => {
                if self.phase != GladiaPhase::Uploading {
                    return self.unexpected();
                }
                match judge(status, body, parsed) {
                    Err(e) => self.fail(e),
                    Ok(upload) => {
                        let request = submit_request(
                            self.api_key.as_str(),
                            upload.audio_url,
                            self.language.as_str(),
                        );
                        self.phase = GladiaPhase::Submitting;
                        GladiaAction::Submit { request }
                    },
                }
            },
            GladiaEvent::Submitted { status, body, parsed } => {
                if self.phase != GladiaPhase::Submitting {
                    return self.unexpected();
                }
                match judge(status, body, parsed) {
                    Err(e) => self.fail(e),
                    Ok(job) => {
                        let url = job.result_url;
                        let request = poll_request(self.api_key.as_str(), url.as_str());
                        self.phase = GladiaPhase::Polling;
                        self.polling_url = url;
                        GladiaAction::Poll { request }
                    },
                }
            },
            GladiaEvent::Polled { status, body, parsed } => {
                if self.phase != GladiaPhase::Polling {
                    return self.unexpected();
                }
                if status < 200 || status > 299 {
                    return self.wait();
                }
                match parsed {
                    Ok(GladiaTranscriptionResult { full_transcript: Some(text) }) => {
                        self.phase = GladiaPhase::Idle;
                        GladiaAction::Finish(Ok(text))
                    },
                    _ => self.wait(),
                }
            },
            GladiaEvent::Failed { message } => {
                match self.phase {
                    GladiaPhase::Uploading | GladiaPhase::Submitting => self.fail(
                        Error::Network(message),
                    ),
                    GladiaPhase::Polling => self.wait(),
                    _ => self.unexpected(),
                }
            },
            GladiaEvent::Waited => {
                if self.phase != GladiaPhase::Waiting {
                    return self.unexpected();
                }
                self.phase = GladiaPhase::Polling;
                GladiaAction::Poll {
                    request: poll_request(self.api_key.as_str(), self.polling_url.as_str()),
                }
            },
            GladiaEvent::Cancelled => self.fail(Error::Cancelled),
        }
    }
}

} // verus!
