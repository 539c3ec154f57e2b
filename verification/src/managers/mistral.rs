//! The adapter for Mistral: one upload, and the text comes back with the
//! answer.

use vstd::prelude::*;
use crate::audio::{encode_wav, wire_audio, MAX_WAV_SAMPLES};
use crate::error::{Error, ErrorView, Provider};
use crate::managers::remote::{
    judge,
    judged,
    no_pairs,
    pair_of,
    with_pair,
    Method,
    Payload,
    PayloadView,
    Request,
    RequestView,
    WAV_FILE_NAME,
    WAV_MIME,
};
use vstd::string::StringExecFns;

verus! {

/// Where the audio is posted.
pub const MISTRAL_URL: &'static str = "https://api.mistral.ai/v1/audio/transcriptions";

/// The model that is asked for, in the form's field `model`.
pub const MISTRAL_MODEL: &'static str = "voxtral-mini-latest";

/// What the body of an answer holds.
#[derive(Debug, PartialEq, Eq)]
pub struct MistralTranscriptionResponse {
    pub text: String,
}

/// What is reported to the adapter.
#[derive(Debug, PartialEq, Eq)]
pub enum MistralEvent {
    /// A transcription is asked for.
    Start { api_key: Option<String>, audio: Vec<i16> },
    /// The server answered. `parsed` is what the body held, or why it could
    /// not be read.
    Answered { status: u16, body: String, parsed: Result<MistralTranscriptionResponse, String> },
    /// The request got no answer.
    Failed { message: String },
}

/// What the adapter wants done next.
#[derive(Debug, PartialEq, Eq)]
pub enum MistralAction {
    /// Make this request, which uploads the audio, and report the answer.
    Upload { request: Request },
    /// The transcription is over, with this text or this failure.
    Finish(Result<String, Error>),
}

/// The adapter for Mistral.
pub struct MistralApiManager {
    awaiting: bool,
}

/// The request that uploads a WAV file: a multipart form with the file in
/// the field `file` and the model in the field `model`, authorized by the
/// key as a bearer token.
pub open spec fn mistral_upload(api_key: Seq<char>, wav: Seq<u8>) -> RequestView {
    RequestView {
        method: Method::Post,
        url: "https://api.mistral.ai/v1/audio/transcriptions"@,
        query: Seq::empty(),
        headers: seq![pair_of("Authorization"@, "Bearer "@ + api_key)],
        payload: PayloadView::Form {
            file_field: "file"@,
            file_name: "audio.wav"@,
            mime: "audio/wav"@,
            bytes: wav,
            fields: seq![pair_of("model"@, "voxtral-mini-latest"@)],
        },
    }
}

fn upload_request(api_key: &str, wav: Vec<u8>) -> (request: Request)
    ensures
        request@ == mistral_upload(api_key@, wav@),
{
    let headers = with_pair(
        no_pairs(),
        "Authorization",
        String::from_str("Bearer ").concat(api_key),
    );
    let fields = with_pair(no_pairs(), "model", String::from_str(MISTRAL_MODEL));
    let request = Request {
        method: Method::Post,
        url: String::from_str(MISTRAL_URL),
        query: no_pairs(),
        headers,
        payload: Payload::Form {
            file_field: String::from_str("file"),
            file_name: String::from_str(WAV_FILE_NAME),
            mime: String::from_str(WAV_MIME),
            bytes: wav,
            fields,
        },
    };
    assert(request@.headers =~= mistral_upload(api_key@, wav@).headers);
    assert(request@.payload->Form_fields =~= seq![pair_of("model"@, "voxtral-mini-latest"@)]);
    request
}

/// What an answer comes to.
pub open spec fn mistral_answer(
    status: u16,
    body: Seq<char>,
    parsed: Result<MistralTranscriptionResponse, String>,
) -> Result<Seq<char>, ErrorView> {
    match judged(status, body, parsed) {
        Ok(response) => Ok(response.text@),
        Err(e) => Err(e),
    }
}

impl MistralApiManager {
    /// Whether an upload is under way.
    pub closed spec fn awaiting(&self) -> bool {
        self.awaiting
    }

    /// An adapter with nothing under way.
    pub fn new() -> (manager: Self)
        ensures
            !manager.awaiting(),
    {
        MistralApiManager { awaiting: false }
    }

    /// Takes one step of a transcription.
    ///
    /// Without a credential the transcription fails at once, before
    /// anything is sent. With one, the audio is encoded and uploaded, and
    /// the answer to the upload ends the transcription. Anything that is
    /// reported out of turn ends it with a failure.
    pub fn transcribe(&mut self, event: MistralEvent) -> (action: MistralAction)
        ensures
            match event {
                MistralEvent::Start { api_key, audio } => if old(self).awaiting() {
                    &&& !final(self).awaiting()
                    &&& action matches MistralAction::Finish(Err(e))
                    &&& e@ == ErrorView::UnexpectedEvent
                } else {
                    match api_key {
                        None => {
                            &&& !final(self).awaiting()
                            &&& action matches MistralAction::Finish(Err(e))
                            &&& e@ == ErrorView::MissingCredential(Provider::Mistral)
                        },
                        Some(key) => if audio@.len() <= MAX_WAV_SAMPLES {
                            &&& final(self).awaiting()
                            &&& action matches MistralAction::Upload { request }
                            &&& request@ == mistral_upload(key@, wire_audio(audio@))
                        } else {
                            &&& !final(self).awaiting()
                            &&& action matches MistralAction::Finish(Err(e))
                            &&& e@ == ErrorView::Io("audio too long"@)
                        },
                    }
                },
                MistralEvent::Answered { status, body, parsed } => {
                    &&& !final(self).awaiting()
                    &&& action matches MistralAction::Finish(outcome)
                    &&& crate::error::text_result(outcome) == (if old(self).awaiting() {
                        mistral_answer(status, body@, parsed)
                    } else {
                        Err(ErrorView::UnexpectedEvent)
                    })
                },
                MistralEvent::Failed { message } => {
                    &&& !final(self).awaiting()
                    &&& action matches MistralAction::Finish(Err(e))
                    &&& e@ == (if old(self).awaiting() {
                        ErrorView::Network(message@)
                    } else {
                        ErrorView::UnexpectedEvent
                    })
                },
            },
    {
        let awaiting = self.awaiting;
        self.awaiting = false;
        match event {
            MistralEvent::Start { api_key, audio } => {
                if awaiting {
                    return MistralAction::Finish(Err(Error::UnexpectedEvent));
                }
                let key = match api_key {
                    None => {
                        return MistralAction::Finish(
                            Err(Error::MissingCredential(Provider::Mistral)),
                        );
                    },
                    Some(key) => key,
                };
                match encode_wav(&audio) {
                    Err(e) => MistralAction::Finish(Err(e)),
                    Ok(wav) => {
                        self.awaiting = true;
                        MistralAction::Upload { request: upload_request(key.as_str(), wav) }
                    },
                }
            },
            MistralEvent::Answered { status, body, parsed } => {
                if !awaiting {
                    return MistralAction::Finish(Err(Error::UnexpectedEvent));
                }
                match judge(status, body, parsed) {
                    Ok(response) => MistralAction::Finish(Ok(response.text)),
                    Err(e) => MistralAction::Finish(Err(e)),
                }
            },
            MistralEvent::Failed { message } => {
                if !awaiting {
                    return MistralAction::Finish(Err(Error::UnexpectedEvent));
                }
                MistralAction::Finish(Err(Error::Network(message)))
            },
        }
    }
}

} // verus!
