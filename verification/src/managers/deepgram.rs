//! The adapter for Deepgram: one upload of the raw audio, and the text comes
//! back with the answer, inside the first alternative of the first channel.

use vstd::prelude::*;
use crate::audio::{encode_wav, wire_audio, MAX_WAV_SAMPLES};
use crate::error::{Error, ErrorView, Provider};
use crate::managers::remote::{
    judge,
    judged,
    no_pairs,
    pair_of,
    with_pair,
    Method,
    Payload,
    PayloadView,
    Request,
    RequestView,
    WAV_MIME,
};
use vstd::string::StringExecFns;

verus! {

/// Where the audio is posted.
pub const DEEPGRAM_URL: &'static str = "https://api.deepgram.com/v1/listen";

/// The query parameter `model`.
pub const DEEPGRAM_MODEL: &'static str = "nova-3";

/// The query parameter `smart_format`.
pub const DEEPGRAM_SMART_FORMAT: &'static str = "true";

/// The query parameter `language`: the provider tells the languages apart
/// by itself.
pub const DEEPGRAM_LANGUAGE: &'static str = "multi";

/// One reading of what was said.
#[derive(Debug, PartialEq, Eq)]
pub struct DeepgramAlternative {
    pub transcript: String,
}

/// The readings of one channel of the audio, the best one first.
#[derive(Debug, PartialEq, Eq)]
pub struct DeepgramChannel {
    pub alternatives: Vec<DeepgramAlternative>,
}

/// The channels of the audio.
#[derive(Debug, PartialEq, Eq)]
pub struct DeepgramResults {
    pub channels: Vec<DeepgramChannel>,
}

/// What the body of an answer holds.
#[derive(Debug, PartialEq, Eq)]
pub struct DeepgramTranscriptionResponse {
    pub results: DeepgramResults,
}

/// What is reported to the adapter.
#[derive(Debug, PartialEq, Eq)]
pub enum DeepgramEvent {
    /// A transcription is asked for.
    Start { api_key: Option<String>, audio: Vec<i16> },
    /// The server answered. `parsed` is what the body held, or why it could
    /// not be read.
    Answered { status: u16, body: String, parsed: Result<DeepgramTranscriptionResponse, String> },
    /// The request got no answer.
    Failed { message: String },
}

/// What the adapter wants done next.
#[derive(Debug, PartialEq, Eq)]
pub enum DeepgramAction {
    /// Make this request, which uploads the audio, and report the answer.
    Upload { request: Request },
    /// The transcription is over, with this text or this failure.
    Finish(Result<String, Error>),
}

/// The request that uploads a WAV file: the file is the body, the model and
/// its options are in the query, and the key stands behind the word `Token`.
pub open spec fn deepgram_upload(api_key: Seq<char>, wav: Seq<u8>) -> RequestView {
    RequestView {
        method: Method::Post,
        url: "https://api.deepgram.com/v1/listen"@,
        query: seq![
            pair_of("model"@, "nova-3"@),
            pair_of("smart_format"@, "true"@),
            pair_of("language"@, "multi"@),
        ],
        headers: seq![
            pair_of("Authorization"@, "Token "@ + api_key),
            pair_of("Content-Type"@, "audio/wav"@),
        ],
        payload: PayloadView::Raw { bytes: wav },
    }
}

fn upload_request(api_key: &str, wav: Vec<u8>) -> (request: Request)
    ensures
        request@ == deepgram_upload(api_key@, wav@),
{
    let query = with_pair(
        with_pair(
            with_pair(no_pairs(), "model", String::from_str(DEEPGRAM_MODEL)),
            "smart_format",
            String::from_str(DEEPGRAM_SMART_FORMAT),
        ),
        "language",
        String::from_str(DEEPGRAM_LANGUAGE),
    );
    let headers = with_pair(
        with_pair(no_pairs(), "Authorization", String::from_str("Token ").concat(api_key)),
        "Content-Type",
        String::from_str(WAV_MIME),
    );
    let request = Request {
        method: Method::Post,
        url: String::from_str(DEEPGRAM_URL),
        query,
        headers,
        payload: Payload::Raw { bytes: wav },
    };
    assert(request@.query =~= deepgram_upload(api_key@, wav@).query);
    assert(request@.headers =~= deepgram_upload(api_key@, wav@).headers);
    request
}

/// The text of an answer: the first alternative of the first channel, and
/// the empty text where there is no such thing.
pub open spec fn first_transcript(response: DeepgramTranscriptionResponse) -> Seq<char> {
    if response.results.channels@.len() > 0 && response.results.channels@[0].alternatives@.len()
        > 0 {
        response.results.channels@[0].alternatives@[0].transcript@
    } else {
        Seq::empty()
    }
}

/// What an answer comes to.
pub open spec fn deepgram_answer(
    status: u16,
    body: Seq<char>,
    parsed: Result<DeepgramTranscriptionResponse, String>,
) -> Result<Seq<char>, ErrorView> {
    match judged(status, body, parsed) {
        Ok(response) => Ok(first_transcript(response)),
        Err(e) => Err(e),
    }
}

/// The text of an answer: see `first_transcript`.
pub fn transcript_of(response: &DeepgramTranscriptionResponse) -> (text: String)
    ensures
        text@ == first_transcript(*response),
{
    if response.results.channels.len() > 0 && response.results.channels[0].alternatives.len() > 0 {
        response.results.channels[0].alternatives[0].transcript.clone()
    } else {
        String::new()
    }
}

/// The adapter for Deepgram.
pub struct DeepgramApiManager {
    awaiting: bool,
}

impl DeepgramApiManager {
    /// Whether an upload is under way.
    pub closed spec fn awaiting(&self) -> bool {
        self.awaiting
    }

    /// An adapter with nothing under way.
    pub fn new() -> (manager: Self)
        ensures
            !manager.awaiting(),
    {
        DeepgramApiManager { awaiting: false }
    }

    /// Takes one step of a transcription.
    ///
    /// Without a credential the transcription fails at once, before
    /// anything is sent. With one, the audio is encoded and uploaded, and
    /// the answer to the upload ends the transcription. Anything that is
    /// reported out of turn ends it with a failure.
    pub fn transcribe(&mut self, event: DeepgramEvent) -> (action: DeepgramAction)
        ensures
            match event {
                DeepgramEvent::Start { api_key, audio } => if old(self).awaiting() {
                    &&& !final(self).awaiting()
                    &&& action matches DeepgramAction::Finish(Err(e))
                    &&& e@ == ErrorView::UnexpectedEvent
                } else {
                    match api_key {
                        None => {
                            &&& !final(self).awaiting()
                            &&& action matches DeepgramAction::Finish(Err(e))
                            &&& e@ == ErrorView::MissingCredential(Provider::Deepgram)
                        },
                        Some(key) => if audio@.len() <= MAX_WAV_SAMPLES {
                            &&& final(self).awaiting()
                            &&& action matches DeepgramAction::Upload { request }
                            &&& request@ == deepgram_upload(key@, wire_audio(audio@))
                        } else {
                            &&& !final(self).awaiting()
                            &&& action matches DeepgramAction::Finish(Err(e))
                            &&& e@ == ErrorView::Io("audio too long"@)
                        },
                    }
                },
                DeepgramEvent::Answered { status, body, parsed } => {
                    &&& !final(self).awaiting()
                    &&& action matches DeepgramAction::Finish(outcome)
                    &&& crate::error::text_result(outcome) == (if old(self).awaiting() {
                        deepgram_answer(status, body@, parsed)
                    } else {
                        Err(ErrorView::UnexpectedEvent)
                    })
                },
                DeepgramEvent::Failed { message } => {
                    &&& !final(self).awaiting()
                    &&& action matches DeepgramAction::Finish(Err(e))
                    &&& e@ == (if old(self).awaiting() {
                        ErrorView::Network(message@)
                    } else {
                        ErrorView::UnexpectedEvent
                    })
                },
            },
    {
        let awaiting = self.awaiting;
        self.awaiting = false;
        match event {
            DeepgramEvent::Start { api_key, audio } => {
                if awaiting {
                    return DeepgramAction::Finish(Err(Error::UnexpectedEvent));
                }
                let key = match api_key {
                    None => {
                        return DeepgramAction::Finish(
                            Err(Error::MissingCredential(Provider::Deepgram)),
                        );
                    },
                    Some(key) => key,
                };
                match encode_wav(&audio) {
                    Err(e) => DeepgramAction::Finish(Err(e)),
                    Ok(wav) => {
                        self.awaiting = true;
                        DeepgramAction::Upload { request: upload_request(key.as_str(), wav) }
                    },
                }
            },
            DeepgramEvent::Answered { status, body, parsed } => {
                if !awaiting {
                    return DeepgramAction::Finish(Err(Error::UnexpectedEvent));
                }
                match judge(status, body, parsed) {
                    Ok(response) => DeepgramAction::Finish(Ok(transcript_of(&response))),
                    Err(e) => DeepgramAction::Finish(Err(e)),
                }
            },
            DeepgramEvent::Failed { message } => {
                if !awaiting {
                    return DeepgramAction::Finish(Err(Error::UnexpectedEvent));
                }
                DeepgramAction::Finish(Err(Error::Network(message)))
            },
        }
    }
}

} // verus!
