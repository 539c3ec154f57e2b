//! The adapter for AssemblyAI: the audio is uploaded, a job is submitted for
//! the uploaded audio, and the job is asked for its status every three
//! seconds until it is completed or has failed.

use vstd::prelude::*;
use vstd::string::StringExecFns;
use crate::audio::{encode_wav, wire_audio, MAX_WAV_SAMPLES};
use crate::error::{Error, ErrorView, Provider};
use crate::managers::language::{is_shared_language, knows_language};
use crate::managers::remote::{
    is_success,
    judge,
    judged,
    member_views,
    no_pairs,
    pair_of,
    with_member,
    with_pair,
    JsonMember,
    JsonMemberView,
    Method,
    Payload,
    PayloadView,
    Request,
    RequestView,
    Pair,
    PairView,
    pair_views,
};
use crate::text::str_eq;

verus! {

/// Where the audio is posted.
pub const ASSEMBLYAI_UPLOAD_URL: &'static str = "https://api.assemblyai.com/v2/upload";

/// Where a job is submitted, and below which each job has its status.
pub const ASSEMBLYAI_TRANSCRIPT_URL: &'static str = "https://api.assemblyai.com/v2/transcript";

/// The seconds between two requests for the status of a job.
pub const ASSEMBLYAI_POLL_SECONDS: u64 = 3;

/// The provider's code for a language of the application: the same code but
/// for English, which is `en_us`, and `en_us` too for a language that the
/// provider does not know. `auto` stays, and stands for no language at all.
pub open spec fn assemblyai_language(app_language: Seq<char>) -> Seq<char> {
    if app_language == "auto"@ {
        "auto"@
    } else if app_language == "en"@ {
        "en_us"@
    } else if is_shared_language(app_language) {
        app_language
    } else {
        "en_us"@
    }
}

/// The provider's code for a language of the application.
pub fn convert_to_assemblyai_language(app_language: &str) -> (code: String)
    ensures
        code@ == assemblyai_language(app_language@),
{
    if str_eq(app_language, "auto") {
        String::from_str("auto")
    } else if str_eq(app_language, "en") {
        String::from_str("en_us")
    } else if knows_language(app_language) {
        String::from_str(app_language)
    } else {
        String::from_str("en_us")
    }
}

/// What the body of the answer to an upload holds.
#[derive(Debug, PartialEq, Eq)]
pub struct AssemblyAIUploadResponse {
    pub upload_url: String,
}

/// What the body of the answer to a submitted job holds.
#[derive(Debug, PartialEq, Eq)]
pub struct AssemblyAITranscriptResponse {
    pub id: String,
}

/// What the body of the answer to a request for the status holds.
#[derive(Debug, PartialEq, Eq)]
pub struct AssemblyAITranscriptStatus {
    pub status: String,
    pub text: Option<String>,
    pub error: Option<String>,
}

/// What is reported to the adapter.
#[allow(inconsistent_fields)]
#[derive(Debug, PartialEq, Eq)]
pub enum AssemblyAIEvent {
    /// A transcription is asked for, in the given language of the
    /// application.
    Start { api_key: Option<String>, language: String, audio: Vec<i16> },
    /// The server answered the upload.
    Uploaded { status: u16, body: String, parsed: Result<AssemblyAIUploadResponse, String> },
    /// The server answered the submitted job.
    Submitted { status: u16, body: String, parsed: Result<AssemblyAITranscriptResponse, String> },
    /// The server answered a request for the status.
    Polled { status: u16, body: String, parsed: Result<AssemblyAITranscriptStatus, String> },
    /// The last request got no answer.
    Failed { message: String },
    /// The time to wait is over.
    Waited,
    /// The caller calls the transcription off.
    Cancelled,
}

/// What the adapter wants done next.
#[derive(Debug, PartialEq, Eq)]
pub enum AssemblyAIAction {
    /// Make this request, which uploads the audio, and report the answer
    /// with `Uploaded`.
    Upload { request: Request },
    /// Make this request, which submits the job, and report the answer with
    /// `Submitted`.
    Submit { request: Request },
    /// Make this request, which asks for the status of the job, and report
    /// the answer with `Polled`.
    Poll { request: Request },
    /// Wait for so many seconds and report `Waited`.
    Wait { seconds: u64 },
    /// The transcription is over, with this text or this failure.
    Finish(Result<String, Error>),
}

/// How far a transcription has come.
#[derive(Debug, Clone, Copy, PartialEq, Eq, Structural)]
pub enum AssemblyAIPhase {
    Idle,
    Uploading,
    Submitting,
    Polling,
    Waiting,
}

/// What the status of a job means.
pub enum AssemblyAIVerdict {
    /// The job is completed, with this text.
    Completed(Seq<char>),
    /// The provider gave up on the job, with this message.
    Refused(Seq<char>),
    /// The job is not over, or the status could not be had this time: the
    /// status is asked for again.
    Pending,
}

/// What the answer to a request for the status means. Only the two final
/// statuses end the job; a request that failed in any way is made again.
pub open spec fn assemblyai_verdict(
    status: u16,
    parsed: Result<AssemblyAITranscriptStatus, String>,
) -> AssemblyAIVerdict {
    if !is_success(status) {
        AssemblyAIVerdict::Pending
    } else {
        match parsed {
            Err(_) => AssemblyAIVerdict::Pending,
            Ok(job) => if job.status@ == "completed"@ {
                AssemblyAIVerdict::Completed(
                    match job.text {
                        Some(text) => text@,
                        None => Seq::empty(),
                    },
                )
            } else if job.status@ == "error"@ {
                AssemblyAIVerdict::Refused(
                    match job.error {
                        Some(message) => message@,
                        None => "Unknown error"@,
                    },
                )
            } else {
                AssemblyAIVerdict::Pending
            },
        }
    }
}

/// The language that a job names: none where it is to be detected.
pub open spec fn assemblyai_language_code(app_language: Seq<char>) -> Option<Seq<char>> {
    if assemblyai_language(app_language) == "auto"@ {
        None
    } else {
        Some(assemblyai_language(app_language))
    }
}

/// The header that authorizes a request: the key as it is.
pub open spec fn assemblyai_key(api_key: Seq<char>) -> PairView {
    pair_of("authorization"@, api_key)
}

/// The request that uploads a WAV file: the file is the body.
pub open spec fn assemblyai_upload(api_key: Seq<char>, wav: Seq<u8>) -> RequestView {
    RequestView {
        method: Method::Post,
        url: "https://api.assemblyai.com/v2/upload"@,
        query: Seq::empty(),
        headers: seq![assemblyai_key(api_key)],
        payload: PayloadView::Raw { bytes: wav },
    }
}

/// The members of a job: the uploaded audio, the model, and the language
/// unless it is to be detected.
pub open spec fn assemblyai_job(audio_url: Seq<char>, app_language: Seq<char>) -> Seq<JsonMemberView> {
    let fixed = seq![
        JsonMemberView::Text { name: "audio_url"@, value: audio_url },
        JsonMemberView::Text { name: "speech_model"@, value: "universal"@ },
    ];
    match assemblyai_language_code(app_language) {
        Some(code) => fixed.push(JsonMemberView::Text { name: "language_code"@, value: code }),
        None => fixed,
    }
}

/// The request that submits a job for uploaded audio.
pub open spec fn assemblyai_submit(
    api_key: Seq<char>,
    audio_url: Seq<char>,
    app_language: Seq<char>,
) -> RequestView {
    RequestView {
        method: Method::Post,
        url: "https://api.assemblyai.com/v2/transcript"@,
        query: Seq::empty(),
        headers: seq![
            assemblyai_key(api_key),
            pair_of("Content-Type"@, "application/json"@),
        ],
        payload: PayloadView::Json { members: assemblyai_job(audio_url, app_language) },
    }
}

/// The request that asks for the status of a job.
pub open spec fn assemblyai_poll(api_key: Seq<char>, url: Seq<char>) -> RequestView {
    RequestView {
        method: Method::Get,
        url,
        query: Seq::empty(),
        headers: seq![assemblyai_key(api_key)],
        payload: PayloadView::Empty,
    }
}

fn key_header(api_key: &str) -> (headers: Vec<Pair>)
    ensures
        pair_views(headers@) == seq![assemblyai_key(api_key@)],
{
    let headers = with_pair(no_pairs(), "authorization", String::from_str(api_key));
    assert(pair_views(headers@) =~= seq![assemblyai_key(api_key@)]);
    headers
}

fn upload_request(api_key: &str, wav: Vec<u8>) -> (request: Request)
    ensures
        request@ == assemblyai_upload(api_key@, wav@),
{
    Request {
        method: Method::Post,
        url: String::from_str(ASSEMBLYAI_UPLOAD_URL),
        query: no_pairs(),
        headers: key_header(api_key),
        payload: Payload::Raw { bytes: wav },
    }
}

fn submit_request(api_key: &str, audio_url: String, app_language: &str) -> (request: Request)
    ensures
        request@ == assemblyai_submit(api_key@, audio_url@, app_language@),
{
    let mut members: Vec<JsonMember> = Vec::new();
    assert(member_views(members@) =~= Seq::<JsonMemberView>::empty());
    members = with_member(
        members,
        JsonMember::Text { name: String::from_str("audio_url"), value: audio_url },
    );
    members = with_member(
        members,
        JsonMember::Text {
            name: String::from_str("speech_model"),
            value: String::from_str("universal"),
        },
    );
    let code = convert_to_assemblyai_language(app_language);
    if !str_eq(code.as_str(), "auto") {
        members = with_member(
            members,
            JsonMember::Text { name: String::from_str("language_code"), value: code },
        );
    }
    assert(member_views(members@) =~= assemblyai_job(audio_url@, app_language@));
    let headers = with_pair(
        key_header(api_key),
        "Content-Type",
        String::from_str("application/json"),
    );
    let request = Request {
        method: Method::Post,
        url: String::from_str(ASSEMBLYAI_TRANSCRIPT_URL),
        query: no_pairs(),
        headers,
        payload: Payload::Json { members },
    };
    assert(request@.headers =~= assemblyai_submit(api_key@, audio_url@, app_language@).headers);
    request
}

fn poll_request(api_key: &str, url: &str) -> (request: Request)
    ensures
        request@ == assemblyai_poll(api_key@, url@),
{
    Request {
        method: Method::Get,
        url: String::from_str(url),
        query: no_pairs(),
        headers: key_header(api_key),
        payload: Payload::Empty,
    }
}

/// The adapter for AssemblyAI.
pub struct AssemblyAIApiManager {
    phase: AssemblyAIPhase,
    api_key: String,
    language: String,
    polling_url: String,
}

impl AssemblyAIApiManager {
    /// How far the transcription has come.
    pub closed spec fn phase(&self) -> AssemblyAIPhase {
        self.phase
    }

    /// The credential of the transcription under way.
    pub closed spec fn api_key(&self) -> Seq<char> {
        self.api_key@
    }

    /// The language of the transcription under way.
    pub closed spec fn language(&self) -> Seq<char> {
        self.language@
    }

    /// Where the status of the job under way is had.
    pub closed spec fn polling_url(&self) -> Seq<char> {
        self.polling_url@
    }

    /// An adapter with nothing under way: it holds no credential, no
    /// language and no address of a job.
    pub fn new() -> (manager: Self)
        ensures
            manager.phase() == AssemblyAIPhase::Idle,
            manager.api_key() == Seq::<char>::empty(),
            manager.language() == Seq::<char>::empty(),
            manager.polling_url() == Seq::<char>::empty(),
    {
        AssemblyAIApiManager {
            phase: AssemblyAIPhase::Idle,
            api_key: String::new(),
            language: String::new(),
            polling_url: String::new(),
        }
    }

    fn unexpected(&mut self) -> (action: AssemblyAIAction)
        ensures
            final(self).phase() == AssemblyAIPhase::Idle,
            action matches AssemblyAIAction::Finish(Err(e)) && e@ == ErrorView::UnexpectedEvent,
    {
        self.phase = AssemblyAIPhase::Idle;
        AssemblyAIAction::Finish(Err(Error::UnexpectedEvent))
    }

    fn fail(&mut self, e: Error) -> (action: AssemblyAIAction)
        ensures
            final(self).phase() == AssemblyAIPhase::Idle,
            action matches AssemblyAIAction::Finish(Err(sent)) && sent@ == e@,
    {
        self.phase = AssemblyAIPhase::Idle;
        AssemblyAIAction::Finish(Err(e))
    }

    fn wait(&mut self) -> (action: AssemblyAIAction)
        ensures
            final(self).phase() == AssemblyAIPhase::Waiting,
            final(self).api_key() == old(self).api_key(),
            final(self).polling_url() == old(self).polling_url(),
            action == (AssemblyAIAction::Wait { seconds: 3 }),
    {
        self.phase = AssemblyAIPhase::Waiting;
        AssemblyAIAction::Wait { seconds: ASSEMBLYAI_POLL_SECONDS }
    }

    /// Takes one step of a transcription.
    ///
    /// Without a credential the transcription fails at once, before
    /// anything is sent. A failure while uploading or submitting ends it.
    /// Once the job is submitted only the job's own final status ends it,
    /// or the caller by calling it off: a request for the status that
    /// fails is made again after the wait, without limit.
    pub fn transcribe(&mut self, event: AssemblyAIEvent) -> (action: AssemblyAIAction)
        ensures
            match event {
                AssemblyAIEvent::Start { api_key, language, audio } => if old(self).phase()
                    != AssemblyAIPhase::Idle {
                    &&& final(self).phase() == AssemblyAIPhase::Idle
                    &&& action matches AssemblyAIAction::Finish(Err(e))
                    &&& e@ == ErrorView::UnexpectedEvent
                } else {
                    match api_key {
                        None => {
                            &&& final(self).phase() == AssemblyAIPhase::Idle
                            &&& action matches AssemblyAIAction::Finish(Err(e))
                            &&& e@ == ErrorView::MissingCredential(Provider::AssemblyAi)
                        },
                        Some(key) => if audio@.len() <= MAX_WAV_SAMPLES {
                            &&& final(self).phase() == AssemblyAIPhase::Uploading
                            &&& final(self).api_key() == key@
                            &&& final(self).language() == language@
                            &&& action matches AssemblyAIAction::Upload { request }
                            &&& request@ == assemblyai_upload(key@, wire_audio(audio@))
                        } else {
                            &&& final(self).phase() == AssemblyAIPhase::Idle
                            &&& action matches AssemblyAIAction::Finish(Err(e))
                            &&& e@ == ErrorView::Io("audio too long"@)
                        },
                    }
                },
                AssemblyAIEvent::Uploaded { status, body, parsed } => if old(self).phase()
                    != AssemblyAIPhase::Uploading {
                    &&& final(self).phase() == AssemblyAIPhase::Idle
                    &&& action matches AssemblyAIAction::Finish(Err(e))
                    &&& e@ == ErrorView::UnexpectedEvent
                } else {
                    match judged(status, body@, parsed) {
                        Ok(upload) => {
                            &&& final(self).phase() == AssemblyAIPhase::Submitting
                            &&& final(self).api_key() == old(self).api_key()
                            &&& action matches AssemblyAIAction::Submit { request }
                            &&& request@ == assemblyai_submit(
                                old(self).api_key(),
                                upload.upload_url@,
                                old(self).language(),
                            )
                        },
                        Err(failure) => {
                            &&& final(self).phase() == AssemblyAIPhase::Idle
                            &&& action matches AssemblyAIAction::Finish(Err(e))
                            &&& e@ == failure
                        },
                    }
                },
                AssemblyAIEvent::Submitted { status, body, parsed } => if old(self).phase()
                    != AssemblyAIPhase::Submitting {
                    &&& final(self).phase() == AssemblyAIPhase::Idle
                    &&& action matches AssemblyAIAction::Finish(Err(e))
                    &&& e@ == ErrorView::UnexpectedEvent
                } else {
                    match judged(status, body@, parsed) {
                        Ok(job) => {
                            &&& final(self).phase() == AssemblyAIPhase::Polling
                            &&& final(self).api_key() == old(self).api_key()
                            &&& final(self).polling_url()
                                == "https://api.assemblyai.com/v2/transcript"@ + "/"@ + job.id@
                            &&& action matches AssemblyAIAction::Poll { request }
                            &&& request@ == assemblyai_poll(
                                old(self).api_key(),
                                final(self).polling_url(),
                            )
                        },
                        Err(failure) => {
                            &&& final(self).phase() == AssemblyAIPhase::Idle
                            &&& action matches AssemblyAIAction::Finish(Err(e))
                            &&& e@ == failure
                        },
                    }
                },
                AssemblyAIEvent::Polled { status, body, parsed } => if old(self).phase()
                    != AssemblyAIPhase::Polling {
                    &&& final(self).phase() == AssemblyAIPhase::Idle
                    &&& action matches AssemblyAIAction::Finish(Err(e))
                    &&& e@ == ErrorView::UnexpectedEvent
                } else {
                    match assemblyai_verdict(status, parsed) {
                        AssemblyAIVerdict::Completed(text) => {
                            &&& final(self).phase() == AssemblyAIPhase::Idle
                            &&& action matches AssemblyAIAction::Finish(Ok(sent))
                            &&& sent@ == text
                        },
                        AssemblyAIVerdict::Refused(message) => {
                            &&& final(self).phase() == AssemblyAIPhase::Idle
                            &&& action matches AssemblyAIAction::Finish(Err(e))
                            &&& e@ == ErrorView::Provider(message)
                        },
                        AssemblyAIVerdict::Pending => {
                            &&& final(self).phase() == AssemblyAIPhase::Waiting
                            &&& final(self).api_key() == old(self).api_key()
                            &&& final(self).polling_url() == old(self).polling_url()
                            &&& action == (AssemblyAIAction::Wait { seconds: 3 })
                        },
                    }
                },
                AssemblyAIEvent::Failed { message } => match old(self).phase() {
                    AssemblyAIPhase::Uploading | AssemblyAIPhase::Submitting => {
                        &&& final(self).phase() == AssemblyAIPhase::Idle
                        &&& action matches AssemblyAIAction::Finish(Err(e))
                        &&& e@ == ErrorView::Network(message@)
                    },
                    AssemblyAIPhase::Polling => {
                        &&& final(self).phase() == AssemblyAIPhase::Waiting
                        &&& final(self).api_key() == old(self).api_key()
                        &&& final(self).polling_url() == old(self).polling_url()
                        &&& action == (AssemblyAIAction::Wait { seconds: 3 })
                    },
                    _ => {
                        &&& final(self).phase() == AssemblyAIPhase::Idle
                        &&& action matches AssemblyAIAction::Finish(Err(e))
                        &&& e@ == ErrorView::UnexpectedEvent
                    },
                },
                AssemblyAIEvent::Waited => if old(self).phase() == AssemblyAIPhase::Waiting {
                    &&& final(self).phase() == AssemblyAIPhase::Polling
                    &&& final(self).api_key() == old(self).api_key()
                    &&& final(self).polling_url() == old(self).polling_url()
                    &&& action matches AssemblyAIAction::Poll { request }
                    &&& request@ == assemblyai_poll(old(self).api_key(), old(self).polling_url())
                } else {
                    &&& final(self).phase() == AssemblyAIPhase::Idle
                    &&& action matches AssemblyAIAction::Finish(Err(e))
                    &&& e@ == ErrorView::UnexpectedEvent
                },
                AssemblyAIEvent::Cancelled => {
                    &&& final(self).phase() == AssemblyAIPhase::Idle
                    &&& action matches AssemblyAIAction::Finish(Err(e))
                    &&& e@ == ErrorView::Cancelled
                },
            },
    {
        match event {
            AssemblyAIEvent::Start { api_key, language, audio } => {
                if self.phase != AssemblyAIPhase::Idle {
                    return self.unexpected();
                }
                let key = match api_key {
                    None => {
                        return self.fail(Error::MissingCredential(Provider::AssemblyAi));
                    },
                    Some(key) => key,
                };
                match encode_wav(&audio) {
                    Err(e) => self.fail(e),
                    Ok(wav) => {
                        let request = upload_request(key.as_str(), wav);
                        self.phase = AssemblyAIPhase::Uploading;
                        self.api_key = key;
                        self.language = language;
                        AssemblyAIAction::Upload { request }
                    },
                }
            },
            AssemblyAIEvent::Uploaded { status, body, parsed } => {
                if self.phase != AssemblyAIPhase::Uploading {
                    return self.unexpected();
                }
                match judge(status, body, parsed) {
                    Err(e) => self.fail(e),
                    Ok(upload) => {
                        let request = submit_request(
                            self.api_key.as_str(),
                            upload.upload_url,
                            self.language.as_str(),
                        );
                        self.phase = AssemblyAIPhase::Submitting;
                        AssemblyAIAction::Submit { request }
                    },
                }
            },
            AssemblyAIEvent::Submitted { status, body, parsed } => {
                if self.phase != AssemblyAIPhase::Submitting {
                    return self.unexpected();
                }
                match judge(status, body, parsed) {
                    Err(e) => self.fail(e),
                    Ok(job) => {
                        let url = String::from_str(ASSEMBLYAI_TRANSCRIPT_URL).concat("/").concat(
                            job.id.as_str(),
                        );
                        let request = poll_request(self.api_key.as_str(), url.as_str());
                        self.phase = AssemblyAIPhase::Polling;
                        self.polling_url = url;
                        AssemblyAIAction::Poll { request }
                    },
                }
            },
            AssemblyAIEvent::Polled { status, body, parsed } => {
                if self.phase != AssemblyAIPhase::Polling {
                    return self.unexpected();
                }
                if status < 200 || status > 299 {
                    return self.wait();
                }
                match parsed {
                    Err(_) => self.wait(),
                    Ok(job) => {
                        if str_eq(job.status.as_str(), "completed") {
                            self.phase = AssemblyAIPhase::Idle;
                            AssemblyAIAction::Finish(
                                Ok(
                                    match job.text {
                                        Some(text) => text,
                                        None => String::new(),
                                    },
                                ),
                            )
                        } else if str_eq(job.status.as_str(), "error") {
                            let message = match job.error {
                                Some(message) => message,
                                None => String::from_str("Unknown error"),
                            };
                            self.fail(Error::Provider(message))
                        } else {
                            self.wait()
                        }
                    },
                }
            },
            AssemblyAIEvent::Failed { message } => {
                match self.phase {
                    AssemblyAIPhase::Uploading | AssemblyAIPhase::Submitting => self.fail(
                        Error::Network(message),
                    ),
                    AssemblyAIPhase::Polling => self.wait(),
                    _ => self.unexpected(),
                }
            },
            AssemblyAIEvent::Waited => {
                if self.phase != AssemblyAIPhase::Waiting {
                    return self.unexpected();
                }
                self.phase = AssemblyAIPhase::Polling;
                AssemblyAIAction::Poll {
                    request: poll_request(self.api_key.as_str(), self.polling_url.as_str()),
                }
            },
            AssemblyAIEvent::Cancelled => self.fail(Error::Cancelled),
        }
    }
}

} // verus!
