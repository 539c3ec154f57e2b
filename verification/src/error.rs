//! What can go wrong, sorted into the seven kinds that callers tell apart.

use vstd::prelude::*;

verus! {

/// The kind of a failure. None of them is retried by this crate.
#[derive(Debug, Clone, Copy, PartialEq, Eq, Structural)]
pub enum ErrorKind {
    /// A credential is missing, or what was asked for is not set up.
    Configuration,
    /// No model has the given id.
    NotFound,
    /// The model or the engine is not in the state that the call needs.
    State,
    /// The network failed, or the server did not answer with success.
    Transport,
    /// An answer did not have the expected shape.
    Schema,
    /// Something on disk is missing or could not be changed.
    Filesystem,
    /// The provider reported that the job failed.
    Provider,
}

/// A remote transcription service.
#[derive(Debug, Clone, Copy, PartialEq, Eq, Structural)]
pub enum Provider {
    Mistral,
    Deepgram,
    AssemblyAi,
    Gladia,
}

/// A failure, with what is known of it.
#[derive(Debug, PartialEq, Eq)]
pub enum Error {
    /// No credential is configured for the provider.
    MissingCredential(Provider),
    /// The model is remote-routed and has no artifact on disk.
    NoLocalPath(String),
    /// The model has no source to download from.
    NoDownloadUrl(String),
    /// No model is selected.
    NoModelSelected,
    /// The catalog lists no model of this id.
    ModelNotFound(String),
    /// The model's artifact has not been downloaded.
    NotDownloaded(String),
    /// The model's artifact is being downloaded.
    Downloading(String),
    /// No local engine is loaded.
    NoModelLoaded,
    /// The local engine could not be set up from the artifact, or could not
    /// run on the audio; with the engine's own words.
    Engine(String),
    /// Something was reported that the operation was not waiting for.
    UnexpectedEvent,
    /// The server answered with a status outside 200 to 299.
    Http { status: u16, body: String },
    /// The request did not get an answer.
    Network(String),
    /// The operation was called off by the caller.
    Cancelled,
    /// The answer could not be read as what was expected.
    Schema { failure: String, body: String },
    /// Neither an artifact nor a partial download was there to delete.
    NothingToDelete(String),
    /// An operation on disk failed.
    Io(String),
    /// The provider gave up on the job, with this message.
    Provider(String),
}

/// What an `Error` holds, as mathematical values.
pub enum ErrorView {
    MissingCredential(Provider),
    NoLocalPath(Seq<char>),
    NoDownloadUrl(Seq<char>),
    NoModelSelected,
    ModelNotFound(Seq<char>),
    NotDownloaded(Seq<char>),
    Downloading(Seq<char>),
    NoModelLoaded,
    Engine(Seq<char>),
    UnexpectedEvent,
    Http { status: u16, body: Seq<char> },
    Network(Seq<char>),
    Cancelled,
    Schema { failure: Seq<char>, body: Seq<char> },
    NothingToDelete(Seq<char>),
    Io(Seq<char>),
    Provider(Seq<char>),
}

impl View for Error {
    type V = ErrorView;

    open spec fn view(&self) -> ErrorView {
        match self {
            Error::MissingCredential(p) => ErrorView::MissingCredential(*p),
            Error::NoLocalPath(id) => ErrorView::NoLocalPath(id@),
            Error::NoDownloadUrl(id) => ErrorView::NoDownloadUrl(id@),
            Error::NoModelSelected => ErrorView::NoModelSelected,
            Error::ModelNotFound(id) => ErrorView::ModelNotFound(id@),
            Error::NotDownloaded(id) => ErrorView::NotDownloaded(id@),
            Error::Downloading(id) => ErrorView::Downloading(id@),
            Error::NoModelLoaded => ErrorView::NoModelLoaded,
            Error::Engine(message) => ErrorView::Engine(message@),
            Error::UnexpectedEvent => ErrorView::UnexpectedEvent,
            Error::Http { status, body } => ErrorView::Http { status: *status, body: body@ },
            Error::Network(message) => ErrorView::Network(message@),
            Error::Cancelled => ErrorView::Cancelled,
            Error::Schema { failure, body } => ErrorView::Schema { failure: failure@, body: body@ },
            Error::NothingToDelete(id) => ErrorView::NothingToDelete(id@),
            Error::Io(message) => ErrorView::Io(message@),
            Error::Provider(message) => ErrorView::Provider(message@),
        }
    }
}

/// The kind that a failure belongs to.
pub open spec fn kind_of(e: ErrorView) -> ErrorKind {
    match e {
        ErrorView::MissingCredential(_) => ErrorKind::Configuration,
        ErrorView::NoLocalPath(_) => ErrorKind::Configuration,
        ErrorView::NoDownloadUrl(_) => ErrorKind::Configuration,
        ErrorView::NoModelSelected => ErrorKind::Configuration,
        ErrorView::ModelNotFound(_) => ErrorKind::NotFound,
        ErrorView::NotDownloaded(_) => ErrorKind::State,
        ErrorView::Downloading(_) => ErrorKind::State,
        ErrorView::NoModelLoaded => ErrorKind::State,
        ErrorView::Engine(_) => ErrorKind::State,
        ErrorView::UnexpectedEvent => ErrorKind::State,
        ErrorView::Http { .. } => ErrorKind::Transport,
        ErrorView::Network(_) => ErrorKind::Transport,
        ErrorView::Cancelled => ErrorKind::Transport,
        ErrorView::Schema { .. } => ErrorKind::Schema,
        ErrorView::NothingToDelete(_) => ErrorKind::Filesystem,
        ErrorView::Io(_) => ErrorKind::Filesystem,
        ErrorView::Provider(_) => ErrorKind::Provider,
    }
}

impl Error {
    /// The kind of this failure.
    pub fn kind(&self) -> (kind: ErrorKind)
        ensures
            kind == kind_of(self@),
    {
        match self {
            Error::MissingCredential(_) => ErrorKind::Configuration,
            Error::NoLocalPath(_) => ErrorKind::Configuration,
            Error::NoDownloadUrl(_) => ErrorKind::Configuration,
            Error::NoModelSelected => ErrorKind::Configuration,
            Error::ModelNotFound(_) => ErrorKind::NotFound,
            Error::NotDownloaded(_) => ErrorKind::State,
            Error::Downloading(_) => ErrorKind::State,
            Error::NoModelLoaded => ErrorKind::State,
            Error::Engine(_) => ErrorKind::State,
            Error::UnexpectedEvent => ErrorKind::State,
            Error::Http { .. } => ErrorKind::Transport,
            Error::Network(_) => ErrorKind::Transport,
            Error::Cancelled => ErrorKind::Transport,
            Error::Schema { .. } => ErrorKind::Schema,
            Error::NothingToDelete(_) => ErrorKind::Filesystem,
            Error::Io(_) => ErrorKind::Filesystem,
            Error::Provider(_) => ErrorKind::Provider,
        }
    }
}

impl Clone for Error {
    fn clone(&self) -> (copy: Self)
        ensures
            copy@ == self@,
    {
        match self {
            Error::MissingCredential(p) => Error::MissingCredential(*p),
            Error::NoLocalPath(id) => Error::NoLocalPath(id.clone()),
            Error::NoDownloadUrl(id) => Error::NoDownloadUrl(id.clone()),
            Error::NoModelSelected => Error::NoModelSelected,
            Error::ModelNotFound(id) => Error::ModelNotFound(id.clone()),
            Error::NotDownloaded(id) => Error::NotDownloaded(id.clone()),
            Error::Downloading(id) => Error::Downloading(id.clone()),
            Error::NoModelLoaded => Error::NoModelLoaded,
            Error::Engine(message) => Error::Engine(message.clone()),
            Error::UnexpectedEvent => Error::UnexpectedEvent,
            Error::Http { status, body } => Error::Http { status: *status, body: body.clone() },
            Error::Network(message) => Error::Network(message.clone()),
            Error::Cancelled => Error::Cancelled,
            Error::Schema { failure, body } => Error::Schema {
                failure: failure.clone(),
                body: body.clone(),
            },
            Error::NothingToDelete(id) => Error::NothingToDelete(id.clone()),
            Error::Io(message) => Error::Io(message.clone()),
            Error::Provider(message) => Error::Provider(message.clone()),
        }
    }
}

/// What a result that carries a text holds, as mathematical values.
pub open spec fn text_result(r: Result<String, Error>) -> Result<Seq<char>, ErrorView> {
    match r {
        Ok(text) => Ok(text@),
        Err(e) => Err(e@),
    }
}

} // verus!
