//! What is told to the user interface, and under which name.

use vstd::prelude::*;
use crate::download::DownloadProgress;
use crate::transcription::ModelStateEvent;

verus! {

/// Something to tell the user interface. Telling is all there is to it:
/// whether anyone listens is of no concern here.
#[derive(Debug, PartialEq, Eq)]
pub enum Notification {
    /// A download has come this far.
    DownloadProgress(DownloadProgress),
    /// The artifact of this model has taken its place.
    DownloadComplete { model_id: String },
    /// The archive of this model is being unpacked.
    ExtractionStarted { model_id: String },
    /// The archive of this model was unpacked.
    ExtractionCompleted { model_id: String },
    /// The archive of this model could not be unpacked.
    ExtractionFailed { model_id: String, error: String },
    /// A model is coming into use, has come into use, or has failed to.
    ModelStateChanged(ModelStateEvent),
}

/// The name under which a notification is sent.
pub open spec fn name_of(notification: Notification) -> Seq<char> {
    match notification {
        Notification::DownloadProgress(_) => "model-download-progress"@,
        Notification::DownloadComplete { .. } => "model-download-complete"@,
        Notification::ExtractionStarted { .. } => "model-extraction-started"@,
        Notification::ExtractionCompleted { .. } => "model-extraction-completed"@,
        Notification::ExtractionFailed { .. } => "model-extraction-failed"@,
        Notification::ModelStateChanged(_) => "model-state-changed"@,
    }
}

impl Notification {
    /// The name under which the notification is sent.
    pub fn name(&self) -> (name: &'static str)
        ensures
            name@ == name_of(*self),
    {
        match self {
            Notification::DownloadProgress(_) => "model-download-progress",
            Notification::DownloadComplete { .. } => "model-download-complete",
            Notification::ExtractionStarted { .. } => "model-extraction-started",
            Notification::ExtractionCompleted { .. } => "model-extraction-completed",
            Notification::ExtractionFailed { .. } => "model-extraction-failed",
            Notification::ModelStateChanged(_) => "model-state-changed",
        }
    }
}

} // verus!
