//! The transcription orchestrator: which model is in use, how a model comes
//! into use, and where a recording goes to be transcribed.
//!
//! Setting up the local engine and running it are the caller's part. The
//! orchestrator tells when to do so, and is told how it went.

use vstd::prelude::*;
use vstd::string::StringExecFns;
use crate::custom_words::{apply_custom_words, corrected_text, Threshold};
use crate::error::{Error, ErrorView, Provider};
use crate::model::{entry_of, is_api_model_id, ModelManager};
use crate::settings::AppSettings;
use crate::text::{append_chars, chars_of, opt_text, str_eq, string_of, texts};

verus! {

/// What is told to whoever watches the state of the model.
#[derive(Debug, PartialEq, Eq)]
pub struct ModelStateEvent {
    pub event_type: String,
    pub model_id: Option<String>,
    pub model_name: Option<String>,
    pub error: Option<String>,
}

/// What a `ModelStateEvent` holds, as mathematical values.
pub struct ModelStateEventView {
    pub event_type: Seq<char>,
    pub model_id: Option<Seq<char>>,
    pub model_name: Option<Seq<char>>,
    pub error: Option<Seq<char>>,
}

impl View for ModelStateEvent {
    type V = ModelStateEventView;

    open spec fn view(&self) -> ModelStateEventView {
        ModelStateEventView {
            event_type: self.event_type@,
            model_id: opt_text(self.model_id),
            model_name: opt_text(self.model_name),
            error: opt_text(self.error),
        }
    }
}

/// The views of a run of events.
pub open spec fn event_views(events: Seq<ModelStateEvent>) -> Seq<ModelStateEventView> {
    Seq::new(events.len(), |i: int| events[i]@)
}

/// The event that tells that loading the model `id` has begun.
pub open spec fn loading_started(id: Seq<char>) -> ModelStateEventView {
    ModelStateEventView {
        event_type: "loading_started"@,
        model_id: Some(id),
        model_name: None,
        error: None,
    }
}

/// The event that tells that the model `id` is in use.
pub open spec fn loading_completed(id: Seq<char>, name: Seq<char>) -> ModelStateEventView {
    ModelStateEventView {
        event_type: "loading_completed"@,
        model_id: Some(id),
        model_name: Some(name),
        error: None,
    }
}

/// The event that tells that the model `id` did not come into use.
pub open spec fn loading_failed(id: Seq<char>, name: Seq<char>, error: Seq<char>) -> ModelStateEventView {
    ModelStateEventView {
        event_type: "loading_failed"@,
        model_id: Some(id),
        model_name: Some(name),
        error: Some(error),
    }
}

/// What transcribes with a model.
#[derive(Debug, Clone, Copy, PartialEq, Eq, Structural)]
pub enum Backend {
    /// The local engine, set up from the model's artifact.
    Local,
    /// A remote provider.
    Remote(Provider),
}

/// The provider that serves a model; `None` for a model of the local
/// engine.
pub open spec fn provider_of(id: Seq<char>) -> Option<Provider> {
    if id == "voxtral-mini"@ {
        Some(Provider::Mistral)
    } else if id == "nova-3"@ {
        Some(Provider::Deepgram)
    } else if id == "universal"@ {
        Some(Provider::AssemblyAi)
    } else if id == "whisper-zero"@ {
        Some(Provider::Gladia)
    } else {
        None
    }
}

/// The provider that serves `model_id`; `None` for a model of the local
/// engine.
pub fn provider_for(model_id: &str) -> (provider: Option<Provider>)
    ensures
        provider == provider_of(model_id@),
{
    if str_eq(model_id, "voxtral-mini") {
        Some(Provider::Mistral)
    } else if str_eq(model_id, "nova-3") {
        Some(Provider::Deepgram)
    } else if str_eq(model_id, "universal") {
        Some(Provider::AssemblyAi)
    } else if str_eq(model_id, "whisper-zero") {
        Some(Provider::Gladia)
    } else {
        None
    }
}

/// The models that a provider serves are the remote-routed ones, and no
/// others.
pub proof fn lemma_providers_serve_remote_models(id: Seq<char>)
    ensures
        provider_of(id) is Some <==> is_api_model_id(id),
{
}

/// The state of the orchestrator.
pub enum OrchestratorState {
    /// No model was ever asked for.
    Unloaded,
    /// The local engine is being set up for this model.
    Loading { id: Seq<char> },
    /// This model is in use.
    Ready { id: Seq<char>, backend: Backend },
    /// This model did not come into use, and none was in use before.
    Failed { id: Seq<char>, reason: Seq<char> },
}

/// The model that transcribes while the orchestrator is in `state`, with
/// `kept` being the model that was in use when the loading under way began.
pub open spec fn model_in_use(state: OrchestratorState, kept: Option<(Seq<char>, Backend)>) -> Option<
    (Seq<char>, Backend),
> {
    match state {
        OrchestratorState::Ready { id, backend } => Some((id, backend)),
        OrchestratorState::Loading { .. } => kept,
        _ => None,
    }
}

/// The state after a model did not come into use: a model that was in use
/// stays in use.
pub open spec fn after_failure(
    in_use: Option<(Seq<char>, Backend)>,
    id: Seq<char>,
    reason: Seq<char>,
) -> OrchestratorState {
    match in_use {
        Some((kept, backend)) => OrchestratorState::Ready { id: kept, backend },
        None => OrchestratorState::Failed { id, reason },
    }
}

/// A model that fails to come into use never takes the place of one that
/// is in use.
pub proof fn lemma_failure_keeps_model_in_use(
    in_use: (Seq<char>, Backend),
    id: Seq<char>,
    reason: Seq<char>,
)
    ensures
        model_in_use(after_failure(Some(in_use), id, reason), Some(in_use)) == Some(in_use),
{
}

/// What comes after a step of loading.
#[derive(Debug, PartialEq, Eq)]
pub enum LoadNext {
    /// Loading is over.
    Done(Result<(), Error>),
    /// The local engine is to be set up from the artifact at `path`, which
    /// is relative to the models directory, and the outcome is to be
    /// reported with `finish_load`.
    InitializeEngine { path: String },
}

/// A step of loading: what is to be told, in order, and what comes next.
#[derive(Debug, PartialEq, Eq)]
pub struct LoadStep {
    pub events: Vec<ModelStateEvent>,
    pub next: LoadNext,
}

/// How the local engine is to decode.
#[derive(Debug, PartialEq, Eq)]
pub struct DecodeParams {
    /// The language that is spoken; `auto` has the engine detect it.
    pub language: String,
    /// Whether the text is to be translated to English.
    pub translate: bool,
    pub suppress_blank: bool,
    pub suppress_non_speech_tokens: bool,
    /// Below which chance of speech a segment counts as silent, in
    /// hundredths.
    pub no_speech_threshold: u8,
}

/// Where a recording goes.
#[derive(Debug, PartialEq, Eq)]
pub enum TranscribeAction {
    /// There is nothing to do: this is the outcome.
    Finish(Result<String, Error>),
    /// The recording goes to the adapter of this provider, whose text or
    /// failure is the outcome.
    Delegate(Provider),
    /// The local engine is to run on the recording, one recording at a
    /// time; its segments are to be handed to `finish_transcription`.
    Infer(DecodeParams),
}

/// The texts put together, in order.
pub open spec fn concatenated(parts: Seq<Seq<char>>) -> Seq<char>
    decreases parts.len(),
{
    if parts.len() == 0 {
        Seq::empty()
    } else {
        concatenated(parts.drop_last()) + parts.last()
    }
}

/// The text of a transcription by the local engine: its segments put
/// together with nothing between them, corrected against the vocabulary.
/// Without a vocabulary that is the segments put together, as they are.
pub open spec fn transcript(
    segments: Seq<Seq<char>>,
    words: Seq<Seq<char>>,
    threshold: Threshold,
) -> Seq<char> {
    corrected_text(concatenated(segments), words, threshold)
}

/// The text of a transcription by the local engine, from the segments that
/// the engine gave.
pub fn finish_transcription(
    segments: &Vec<String>,
    custom_words: &[String],
    threshold: Threshold,
) -> (text: String)
    ensures
        text@ == transcript(texts(segments@), texts(custom_words@), threshold),
{
    let mut whole: Vec<char> = Vec::new();
    let mut i: usize = 0;
    while i < segments.len()
        invariant
            i <= segments@.len(),
            whole@ == concatenated(texts(segments@).take(i as int)),
        decreases segments@.len() - i,
    {
        let part = chars_of(segments[i].as_str());
        append_chars(&mut whole, &part);
        proof {
            let parts = texts(segments@);
            assert(parts.take(i + 1).drop_last() == parts.take(i as int));
            assert(parts.take(i + 1).last() == part@);
        }
        i += 1;
    }
    assert(texts(segments@).take(segments@.len() as int) == texts(segments@));
    let raw = string_of(&whole);
    apply_custom_words(raw.as_str(), custom_words, threshold)
}

fn event(event_type: &str, id: &str, name: Option<&str>, error: Option<&str>) -> (e: ModelStateEvent)
    ensures
        e@ == (ModelStateEventView {
            event_type: event_type@,
            model_id: Some(id@),
            model_name: match name {
                Some(n) => Some(n@),
                None => None,
            },
            error: match error {
                Some(r) => Some(r@),
                None => None,
            },
        }),
{
    ModelStateEvent {
        event_type: String::from_str(event_type),
        model_id: Some(String::from_str(id)),
        model_name: match name {
            Some(n) => Some(String::from_str(n)),
            None => None,
        },
        error: match error {
            Some(r) => Some(String::from_str(r)),
            None => None,
        },
    }
}

/// The orchestrator. There is one of it.
pub struct TranscriptionManager {
    /// The model in use, if any.
    ready: Option<(String, Backend)>,
    /// The model that is being loaded, with its name, if any.
    loading: Option<(String, String)>,
    /// The model that failed to load when none was in use, with the reason.
    failed: Option<(String, String)>,
}

impl TranscriptionManager {
    /// The state of the orchestrator.
    pub closed spec fn state(&self) -> OrchestratorState {
        match self.loading {
            Some((id, _)) => OrchestratorState::Loading { id: id@ },
            None => match self.ready {
                Some((id, backend)) => OrchestratorState::Ready { id: id@, backend },
                None => match self.failed {
                    Some((id, reason)) => OrchestratorState::Failed { id: id@, reason: reason@ },
                    None => OrchestratorState::Unloaded,
                },
            },
        }
    }

    /// The model that was in use when the loading under way began, and that
    /// stays in use until the loading is over. Without a loading under way,
    /// the model in use.
    pub closed spec fn kept(&self) -> Option<(Seq<char>, Backend)> {
        match self.ready {
            Some((id, backend)) => Some((id@, backend)),
            None => None,
        }
    }

    /// The name of the model that is being loaded.
    pub closed spec fn loading_name(&self) -> Seq<char> {
        match self.loading {
            Some((_, name)) => name@,
            None => Seq::empty(),
        }
    }

    /// The model that transcribes.
    pub open spec fn in_use(&self) -> Option<(Seq<char>, Backend)> {
        model_in_use(self.state(), self.kept())
    }

    /// An orchestrator that was never asked for a model.
    pub fn new() -> (manager: Self)
        ensures
            manager.state() == OrchestratorState::Unloaded,
            manager.in_use() is None,
            manager.coherent(),
    {
        TranscriptionManager { ready: None, loading: None, failed: None }
    }

    /// The id of the model that transcribes, if there is one.
    pub fn get_current_model(&self) -> (id: Option<String>)
        ensures
            match id {
                Some(id) => self.in_use() matches Some((used, _)) && id@ == used,
                None => self.in_use() is None,
            },
    {
        match &self.ready {
            Some((id, _)) => Some(id.clone()),
            None => None,
        }
    }

    /// How the parts of the state hang together, at all times: the model of
    /// the state `Ready` is the model in use, in the states `Unloaded` and
    /// `Failed` no model is in use, and only a model that is being loaded
    /// has a name on record.
    pub open spec fn coherent(&self) -> bool {
        &&& self.state() matches OrchestratorState::Ready { id, backend } ==> self.kept() == Some(
            (id, backend),
        )
        &&& self.state() is Unloaded || self.state() is Failed ==> self.kept() is None
        &&& self.state() !is Loading ==> self.loading_name() == Seq::<char>::empty()
    }

    fn reject(&mut self, model_id: &str, reason: &str)
        requires
            old(self).loading is None,
        ensures
            final(self).state() == after_failure(old(self).kept(), model_id@, reason@),
            final(self).kept() == old(self).kept(),
            final(self).in_use() == old(self).in_use(),
            final(self).coherent(),
    {
        if self.ready.is_none() {
            self.failed = Some((String::from_str(model_id), String::from_str(reason)));
        }
    }

    /// Begins to bring `model_id` into use.
    ///
    /// The empty id stands for no selection, and nothing happens. A
    /// remote-routed model is in use at once, whatever went before: nothing
    /// is set up for it, and an engine that is being set up at that moment
    /// is no longer waited for. A model of the local engine has to be
    /// listed, downloaded and not being downloaded; then the engine is to
    /// be set up from its artifact, and until that is over the model that
    /// was in use stays in use. While an engine is being set up no other
    /// model of the local engine can be asked for.
    pub fn load_model(&mut self, catalog: &ModelManager, model_id: &str) -> (step: LoadStep)
        requires
            catalog.wf(),
        ensures
            final(self).coherent(),
            model_id@.len() == 0 ==> {
                &&& final(self).state() == old(self).state()
                &&& final(self).kept() == old(self).kept()
                &&& final(self).loading_name() == old(self).loading_name()
                &&& step.events@.len() == 0
                &&& step.next matches LoadNext::Done(Err(e))
                &&& e@ == ErrorView::NoModelSelected
            },
            model_id@.len() > 0 ==> match provider_of(model_id@) {
                Some(provider) => {
                    &&& final(self).state() == (OrchestratorState::Ready {
                        id: model_id@,
                        backend: Backend::Remote(provider),
                    })
                    &&& final(self).in_use() == Some((model_id@, Backend::Remote(provider)))
                    &&& step.next matches LoadNext::Done(Ok(_))
                    &&& event_views(step.events@) == seq![
                        loading_completed(
                            model_id@,
                            match entry_of(catalog@, model_id@) {
                                Some(m) => m.name,
                                None => Seq::empty(),
                            },
                        ),
                    ]
                },
                None => if old(self).state() is Loading {
                    &&& final(self).state() == old(self).state()
                    &&& final(self).kept() == old(self).kept()
                    &&& final(self).loading_name() == old(self).loading_name()
                    &&& step.events@.len() == 0
                    &&& step.next matches LoadNext::Done(Err(e))
                    &&& e@ == ErrorView::UnexpectedEvent
                } else {
                    match entry_of(catalog@, model_id@) {
                        None => {
                            &&& final(self).state() == after_failure(
                                old(self).kept(),
                                model_id@,
                                "Model not found"@,
                            )
                            &&& final(self).in_use() == old(self).in_use()
                            &&& step.next matches LoadNext::Done(Err(e))
                            &&& e@ == ErrorView::ModelNotFound(model_id@)
                            &&& event_views(step.events@) == seq![loading_started(model_id@)]
                        },
                        Some(m) => if !m.is_downloaded {
                            &&& final(self).state() == after_failure(
                                old(self).kept(),
                                model_id@,
                                "Model not downloaded"@,
                            )
                            &&& final(self).in_use() == old(self).in_use()
                            &&& step.next matches LoadNext::Done(Err(e))
                            &&& e@ == ErrorView::NotDownloaded(model_id@)
                            &&& event_views(step.events@) == seq![
                                loading_started(model_id@),
                                loading_failed(model_id@, m.name, "Model not downloaded"@),
                            ]
                        } else if m.is_downloading {
                            &&& final(self).state() == after_failure(
                                old(self).kept(),
                                model_id@,
                                "Model is currently downloading"@,
                            )
                            &&& final(self).in_use() == old(self).in_use()
                            &&& step.next matches LoadNext::Done(Err(e))
                            &&& e@ == ErrorView::Downloading(model_id@)
                            &&& event_views(step.events@) == seq![
                                loading_started(model_id@),
                                loading_failed(
                                    model_id@,
                                    m.name,
                                    "Model is currently downloading"@,
                                ),
                            ]
                        } else {
                            &&& final(self).state() == (OrchestratorState::Loading {
                                id: model_id@,
                            })
                            &&& final(self).in_use() == old(self).in_use()
                            &&& final(self).loading_name() == m.name
                            &&& step.next matches LoadNext::InitializeEngine { path }
                            &&& path@ == m.filename
                            &&& event_views(step.events@) == seq![loading_started(model_id@)]
                        },
                    }
                },
            },
    {
        let mut events: Vec<ModelStateEvent> = Vec::new();
        if model_id.is_empty() {
            return LoadStep { events, next: LoadNext::Done(Err(Error::NoModelSelected)) };
        }
        let info = catalog.get_model_info(model_id);
        match provider_for(model_id) {
            Some(provider) => {
                let name = match &info {
                    Some(m) => m.name.clone(),
                    None => String::new(),
                };
                self.loading = None;
                self.ready = Some((String::from_str(model_id), Backend::Remote(provider)));
                events.push(event("loading_completed", model_id, Some(name.as_str()), None));
                assert(event_views(events@) =~= seq![loading_completed(model_id@, name@)]);
                LoadStep { events, next: LoadNext::Done(Ok(())) }
            },
            None => {
                if self.loading.is_some() {
                    return LoadStep { events, next: LoadNext::Done(Err(Error::UnexpectedEvent)) };
                }
                events.push(event("loading_started", model_id, None, None));
                let m = match info {
                    None => {
                        self.reject(model_id, "Model not found");
                        assert(event_views(events@) =~= seq![loading_started(model_id@)]);
                        return LoadStep {
                            events,
                            next: LoadNext::Done(
                                Err(Error::ModelNotFound(String::from_str(model_id))),
                            ),
                        };
                    },
                    Some(m) => m,
                };
                if !m.is_downloaded {
                    self.reject(model_id, "Model not downloaded");
                    events.push(
                        event(
                            "loading_failed",
                            model_id,
                            Some(m.name.as_str()),
                            Some("Model not downloaded"),
                        ),
                    );
                    assert(event_views(events@) =~= seq![
                        loading_started(model_id@),
                        loading_failed(model_id@, m.name@, "Model not downloaded"@),
                    ]);
                    return LoadStep {
                        events,
                        next: LoadNext::Done(Err(Error::NotDownloaded(String::from_str(model_id)))),
                    };
                }
                if m.is_downloading {
                    self.reject(model_id, "Model is currently downloading");
                    events.push(
                        event(
                            "loading_failed",
                            model_id,
                            Some(m.name.as_str()),
                            Some("Model is currently downloading"),
                        ),
                    );
                    assert(event_views(events@) =~= seq![
                        loading_started(model_id@),
                        loading_failed(model_id@, m.name@, "Model is currently downloading"@),
                    ]);
                    return LoadStep {
                        events,
                        next: LoadNext::Done(Err(Error::Downloading(String::from_str(model_id)))),
                    };
                }
                self.loading = Some((String::from_str(model_id), m.name));
                assert(event_views(events@) =~= seq![loading_started(model_id@)]);
                LoadStep { events, next: LoadNext::InitializeEngine { path: m.filename } }
            },
        }
    }

    /// Takes the outcome of setting up the local engine: `Ok` where the
    /// engine stands, and the engine's own words where it does not.
    ///
    /// Where it stands, the model that was being loaded is in use. Where it
    /// does not, the model that was in use before stays in use; the
    /// orchestrator is in the state `Failed` only where none was. Where no
    /// engine is waited for, because none was asked for or because a
    /// remote-routed model has come into use meanwhile, the outcome is out
    /// of turn: nothing changes, and the engine that was set up is not to
    /// be used.
    pub fn finish_load(&mut self, outcome: Result<(), String>) -> (step: LoadStep)
        ensures
            final(self).coherent(),
            match old(self).state() {
                OrchestratorState::Loading { id } => match outcome {
                    Ok(_) => {
                        &&& final(self).state() == (OrchestratorState::Ready {
                            id,
                            backend: Backend::Local,
                        })
                        &&& final(self).in_use() == Some((id, Backend::Local))
                        &&& step.next matches LoadNext::Done(Ok(_))
                        &&& event_views(step.events@) == seq![
                            loading_completed(id, old(self).loading_name()),
                        ]
                    },
                    Err(message) => {
                        &&& final(self).state() == after_failure(old(self).kept(), id, message@)
                        &&& final(self).in_use() == old(self).in_use()
                        &&& step.next matches LoadNext::Done(Err(e))
                        &&& e@ == ErrorView::Engine(message@)
                        &&& event_views(step.events@) == seq![
                            loading_failed(id, old(self).loading_name(), message@),
                        ]
                    },
                },
                _ => {
                    &&& final(self).state() == old(self).state()
                    &&& final(self).kept() == old(self).kept()
                    &&& final(self).in_use() == old(self).in_use()
                    &&& step.events@.len() == 0
                    &&& step.next matches LoadNext::Done(Err(e))
                    &&& e@ == ErrorView::UnexpectedEvent
                },
            },
    {
        let mut events: Vec<ModelStateEvent> = Vec::new();
        let (id, name) = match self.loading.take() {
            None => {
                return LoadStep { events, next: LoadNext::Done(Err(Error::UnexpectedEvent)) };
            },
            Some(pending) => pending,
        };
        match outcome {
            Ok(()) => {
                events.push(event("loading_completed", id.as_str(), Some(name.as_str()), None));
                assert(event_views(events@) =~= seq![loading_completed(id@, name@)]);
                self.ready = Some((id, Backend::Local));
                LoadStep { events, next: LoadNext::Done(Ok(())) }
            },
            Err(message) => {
                events.push(
                    event(
                        "loading_failed",
                        id.as_str(),
                        Some(name.as_str()),
                        Some(message.as_str()),
                    ),
                );
                assert(event_views(events@) =~= seq![loading_failed(id@, name@, message@)]);
                self.reject(id.as_str(), message.as_str());
                LoadStep { events, next: LoadNext::Done(Err(Error::Engine(message))) }
            },
        }
    }

    /// Decides where a recording of `samples` samples goes.
    ///
    /// An empty recording gives the empty text at once: it goes nowhere.
    /// Otherwise it goes to the provider of the model in use, or to the
    /// local engine if the model in use is local; with no model in use
    /// there is nowhere for it to go.
    pub fn transcribe(&self, samples: usize, settings: &AppSettings) -> (action: TranscribeAction)
        ensures
            samples == 0 ==> (action matches TranscribeAction::Finish(Ok(text)) && text@.len()
                == 0),
            samples > 0 ==> match self.in_use() {
                Some((_, Backend::Remote(provider))) => action == TranscribeAction::Delegate(
                    provider,
                ),
                Some((_, Backend::Local)) => {
                    &&& action matches TranscribeAction::Infer(params)
                    &&& params.language@ == settings.selected_language@
                    &&& params.translate == settings.translate_to_english
                    &&& params.suppress_blank
                    &&& params.suppress_non_speech_tokens
                    &&& params.no_speech_threshold == 20
                },
                None => (action matches TranscribeAction::Finish(Err(e)) && e@
                    == ErrorView::NoModelLoaded),
            },
    {
        if samples == 0 {
            return TranscribeAction::Finish(Ok(String::new()));
        }
        match &self.ready {
            Some((_, Backend::Remote(provider))) => TranscribeAction::Delegate(*provider),
            Some((_, Backend::Local)) => TranscribeAction::Infer(
                DecodeParams {
                    language: settings.selected_language.clone(),
                    translate: settings.translate_to_english,
                    suppress_blank: true,
                    suppress_non_speech_tokens: true,
                    no_speech_threshold: 20,
                },
            ),
            None => TranscribeAction::Finish(Err(Error::NoModelLoaded)),
        }
    }
}

} // verus!
