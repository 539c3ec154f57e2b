//! The catalog of transcription models: which models exist, where their
//! artifacts live below the models directory, and how far each download has
//! come.

use vstd::prelude::*;
use vstd::string::StringExecFns;
use crate::error::{Error, ErrorView};
use crate::text::{str_eq, texts};

verus! {

/// The ids of the models that a remote provider serves.
pub const API_MODEL_IDS: [&'static str; 4] = ["voxtral-mini", "nova-3", "universal", "whisper-zero"];

/// Whether `id` names one of the remote-routed models.
pub open spec fn is_api_model_id(id: Seq<char>) -> bool {
    id == "voxtral-mini"@ || id == "nova-3"@ || id == "universal"@ || id == "whisper-zero"@
}

/// Whether `model_id` is served by a remote provider rather than by the
/// local engine.
pub fn is_api_model(model_id: &str) -> (remote: bool)
    ensures
        remote == is_api_model_id(model_id@),
{
    str_eq(model_id, "voxtral-mini") || str_eq(model_id, "nova-3") || str_eq(model_id, "universal")
        || str_eq(model_id, "whisper-zero")
}

/// The local engine family that runs a model.
#[derive(Debug, Clone, Copy, PartialEq, Eq, Structural)]
pub enum EngineType {
    Whisper,
    Parakeet,
}

/// One model of the catalog. The scores are hundredths: 85 stands for 0.85.
#[derive(Debug, PartialEq, Eq)]
pub struct ModelInfo {
    pub id: String,
    pub name: String,
    pub description: String,
    pub filename: String,
    pub url: Option<String>,
    pub size_mb: u64,
    pub is_downloaded: bool,
    pub is_downloading: bool,
    pub partial_size: u64,
    pub is_directory: bool,
    pub engine_type: EngineType,
    pub accuracy_score: u8,
    pub speed_score: u8,
}

/// What a `ModelInfo` holds, as mathematical values.
pub struct ModelInfoView {
    pub id: Seq<char>,
    pub name: Seq<char>,
    pub description: Seq<char>,
    pub filename: Seq<char>,
    pub url: Option<Seq<char>>,
    pub size_mb: u64,
    pub is_downloaded: bool,
    pub is_downloading: bool,
    pub partial_size: u64,
    pub is_directory: bool,
    pub engine_type: EngineType,
    pub accuracy_score: u8,
    pub speed_score: u8,
}

impl View for ModelInfo {
    type V = ModelInfoView;

    open spec fn view(&self) -> ModelInfoView {
        ModelInfoView {
            id: self.id@,
            name: self.name@,
            description: self.description@,
            filename: self.filename@,
            url: match self.url {
                Some(u) => Some(u@),
                None => None,
            },
            size_mb: self.size_mb,
            is_downloaded: self.is_downloaded,
            is_downloading: self.is_downloading,
            partial_size: self.partial_size,
            is_directory: self.is_directory,
            engine_type: self.engine_type,
            accuracy_score: self.accuracy_score,
            speed_score: self.speed_score,
        }
    }
}

impl Clone for ModelInfo {
    fn clone(&self) -> (copy: Self)
        ensures
            copy@ == self@,
    {
        ModelInfo {
            id: self.id.clone(),
            name: self.name.clone(),
            description: self.description.clone(),
            filename: self.filename.clone(),
            url: match &self.url {
                Some(u) => Some(u.clone()),
                None => None,
            },
            size_mb: self.size_mb,
            is_downloaded: self.is_downloaded,
            is_downloading: self.is_downloading,
            partial_size: self.partial_size,
            is_directory: self.is_directory,
            engine_type: self.engine_type,
            accuracy_score: self.accuracy_score,
            speed_score: self.speed_score,
        }
    }
}

/// A model that the local engine runs from a downloaded artifact, as it is
/// before anything is known of the disk.
pub open spec fn local_model(
    id: Seq<char>,
    name: Seq<char>,
    description: Seq<char>,
    filename: Seq<char>,
    url: Seq<char>,
    size_mb: u64,
    is_directory: bool,
    engine_type: EngineType,
    accuracy_score: u8,
    speed_score: u8,
) -> ModelInfoView {
    ModelInfoView {
        id,
        name,
        description,
        filename,
        url: Some(url),
        size_mb,
        is_downloaded: false,
        is_downloading: false,
        partial_size: 0,
        is_directory,
        engine_type,
        accuracy_score,
        speed_score,
    }
}

/// A model that a remote provider serves: it has no artifact, and counts as
/// downloaded from the start.
pub open spec fn remote_model(
    id: Seq<char>,
    name: Seq<char>,
    description: Seq<char>,
    accuracy_score: u8,
    speed_score: u8,
) -> ModelInfoView {
    ModelInfoView {
        id,
        name,
        description,
        filename: Seq::empty(),
        url: None,
        size_mb: 0,
        is_downloaded: true,
        is_downloading: false,
        partial_size: 0,
        is_directory: false,
        engine_type: EngineType::Whisper,
        accuracy_score,
        speed_score,
    }
}

/// The catalog as it is built at startup, in its fixed order.
pub open spec fn initial_catalog() -> Seq<ModelInfoView> {
    seq![
        local_model(
            "small"@,
            "Whisper Small"@,
            "Fast and fairly accurate."@,
            "ggml-small.bin"@,
            "https://blob.handy.computer/ggml-small.bin"@,
            487,
            false,
            EngineType::Whisper,
            60,
            85,
        ),
        local_model(
            "medium"@,
            "Whisper Medium"@,
            "Good accuracy, medium speed"@,
            "whisper-medium-q4_1.bin"@,
            "https://blob.handy.computer/whisper-medium-q4_1.bin"@,
            492,
            false,
            EngineType::Whisper,
            75,
            60,
        ),
        local_model(
            "turbo"@,
            "Whisper Turbo"@,
            "Balanced accuracy and speed."@,
            "ggml-large-v3-turbo.bin"@,
            "https://blob.handy.computer/ggml-large-v3-turbo.bin"@,
            1600,
            false,
            EngineType::Whisper,
            80,
            40,
        ),
        local_model(
            "large"@,
            "Whisper Large"@,
            "Good accuracy, but slow."@,
            "ggml-large-v3-q5_0.bin"@,
            "https://blob.handy.computer/ggml-large-v3-q5_0.bin"@,
            1100,
            false,
            EngineType::Whisper,
            85,
            30,
        ),
        local_model(
            "parakeet-tdt-0.6b-v2"@,
            "Parakeet V2"@,
            "English only. The best model for English speakers."@,
            "parakeet-tdt-0.6b-v2-int8"@,
            "https://blob.handy.computer/parakeet-v2-int8.tar.gz"@,
            473,
            true,
            EngineType::Parakeet,
            85,
            85,
        ),
        local_model(
            "parakeet-tdt-0.6b-v3"@,
            "Parakeet V3"@,
            "Fast and accurate"@,
            "parakeet-tdt-0.6b-v3-int8"@,
            "https://blob.handy.computer/parakeet-v3-int8.tar.gz"@,
            478,
            true,
            EngineType::Parakeet,
            80,
            85,
        ),
        remote_model(
            "voxtral-mini"@,
            "Voxtral Mini Transcribe (API)"@,
            "Fast cloud transcription via Mistral API."@,
            80,
            95,
        ),
        remote_model(
            "nova-3"@,
            "Nova-3 (Deepgram API)"@,
            "High-accuracy cloud transcription via Deepgram API."@,
            90,
            75,
        ),
        remote_model(
            "universal"@,
            "Universal (AssemblyAI API)"@,
            "Versatile speech recognition via AssemblyAI API."@,
            88,
            70,
        ),
        remote_model(
            "whisper-zero"@,
            "Whisper-Zero (Gladia API)"@,
            "Advanced Whisper model with fewer hallucinations via Gladia API."@,
            85,
            72,
        ),
    ]
}

/// Whether two entries describe the same model: everything but the three
/// status fields agrees.
pub open spec fn same_descriptor(a: ModelInfoView, b: ModelInfoView) -> bool {
    &&& a.id == b.id
    &&& a.name == b.name
    &&& a.description == b.description
    &&& a.filename == b.filename
    &&& a.url == b.url
    &&& a.size_mb == b.size_mb
    &&& a.is_directory == b.is_directory
    &&& a.engine_type == b.engine_type
    &&& a.accuracy_score == b.accuracy_score
    &&& a.speed_score == b.speed_score
}

/// The status that a remote-routed model has at all times.
pub open spec fn has_remote_status(m: ModelInfoView) -> bool {
    m.is_downloaded && !m.is_downloading && m.partial_size == 0
}

/// What holds of the catalog at all times: it lists the models of
/// `initial_catalog`, in that order, and an entry without a source URL keeps
/// the status of a remote-routed model.
pub open spec fn catalog_wf(catalog: Seq<ModelInfoView>) -> bool {
    &&& catalog.len() == initial_catalog().len()
    &&& forall|i: int|
        0 <= i < catalog.len() ==> same_descriptor(#[trigger] catalog[i], initial_catalog()[i])
    &&& forall|i: int|
        0 <= i < catalog.len() && (#[trigger] catalog[i]).url is None ==> has_remote_status(
            catalog[i],
        )
}

/// Whether `i` is the first place of `catalog` that holds the model `id`.
pub open spec fn is_position_of(catalog: Seq<ModelInfoView>, id: Seq<char>, i: int) -> bool {
    &&& 0 <= i < catalog.len()
    &&& catalog[i].id == id
    &&& forall|j: int| 0 <= j < i ==> (#[trigger] catalog[j]).id != id
}

/// Whether `catalog` lists a model `id`.
pub open spec fn lists(catalog: Seq<ModelInfoView>, id: Seq<char>) -> bool {
    exists|i: int| is_position_of(catalog, id, i)
}

/// The place of the model `id` in `catalog`; meaningful where `lists` holds.
pub open spec fn position_of(catalog: Seq<ModelInfoView>, id: Seq<char>) -> int {
    choose|i: int| is_position_of(catalog, id, i)
}

/// The entry of the model `id`, if `catalog` lists it.
pub open spec fn entry_of(catalog: Seq<ModelInfoView>, id: Seq<char>) -> Option<ModelInfoView> {
    if lists(catalog, id) {
        Some(catalog[position_of(catalog, id)])
    } else {
        None
    }
}

/// A model is listed at one place only: whoever finds it first has found
/// `position_of`.
pub proof fn lemma_position_unique(catalog: Seq<ModelInfoView>, id: Seq<char>, i: int)
    requires
        is_position_of(catalog, id, i),
    ensures
        lists(catalog, id),
        position_of(catalog, id) == i,
{
    let j = position_of(catalog, id);
    assert(is_position_of(catalog, id, j));
    if j < i {
        assert(catalog[j].id != id);
    }
    if i < j {
        assert(catalog[i].id != id);
    }
}

fn local(
    id: &str,
    name: &str,
    description: &str,
    filename: &str,
    url: &str,
    size_mb: u64,
    is_directory: bool,
    engine_type: EngineType,
    accuracy_score: u8,
    speed_score: u8,
) -> (m: ModelInfo)
    ensures
        m@ == local_model(
            id@,
            name@,
            description@,
            filename@,
            url@,
            size_mb,
            is_directory,
            engine_type,
            accuracy_score,
            speed_score,
        ),
{
    ModelInfo {
        id: String::from_str(id),
        name: String::from_str(name),
        description: String::from_str(description),
        filename: String::from_str(filename),
        url: Some(String::from_str(url)),
        size_mb,
        is_downloaded: false,
        is_downloading: false,
        partial_size: 0,
        is_directory,
        engine_type,
        accuracy_score,
        speed_score,
    }
}

fn remote(id: &str, name: &str, description: &str, accuracy_score: u8, speed_score: u8) -> (m:
    ModelInfo)
    ensures
        m@ == remote_model(id@, name@, description@, accuracy_score, speed_score),
{
    ModelInfo {
        id: String::from_str(id),
        name: String::from_str(name),
        description: String::from_str(description),
        filename: String::new(),
        url: None,
        size_mb: 0,
        is_downloaded: true,
        is_downloading: false,
        partial_size: 0,
        is_directory: false,
        engine_type: EngineType::Whisper,
        accuracy_score,
        speed_score,
    }
}

/// The views of a run of entries.
pub open spec fn views(models: Seq<ModelInfo>) -> Seq<ModelInfoView> {
    Seq::new(models.len(), |i: int| models[i]@)
}

/// The registry of models and of their download status.
pub struct ModelManager {
    /// The entries, in the order of the catalog. No two of them have the
    /// same id, so an id finds one entry at most.
    models: Vec<ModelInfo>,
}

impl View for ModelManager {
    type V = Seq<ModelInfoView>;

    closed spec fn view(&self) -> Seq<ModelInfoView> {
        views(self.models@)
    }
}

impl ModelManager {
    /// Whether this registry is in order; every constructor sees to it and
    /// every method keeps it.
    pub open spec fn wf(&self) -> bool {
        catalog_wf(self@)
    }

    /// The catalog as it is before the disk has been looked at.
    pub fn new() -> (manager: Self)
        ensures
            manager.wf(),
            manager@ == initial_catalog(),
    {
        let mut models: Vec<ModelInfo> = Vec::new();
        models.push(
            local(
                "small",
                "Whisper Small",
                "Fast and fairly accurate.",
                "ggml-small.bin",
                "https://blob.handy.computer/ggml-small.bin",
                487,
                false,
                EngineType::Whisper,
                60,
                85,
            ),
        );
        models.push(
            local(
                "medium",
                "Whisper Medium",
                "Good accuracy, medium speed",
                "whisper-medium-q4_1.bin",
                "https://blob.handy.computer/whisper-medium-q4_1.bin",
                492,
                false,
                EngineType::Whisper,
                75,
                60,
            ),
        );
        models.push(
            local(
                "turbo",
                "Whisper Turbo",
                "Balanced accuracy and speed.",
                "ggml-large-v3-turbo.bin",
                "https://blob.handy.computer/ggml-large-v3-turbo.bin",
                1600,
                false,
                EngineType::Whisper,
                80,
                40,
            ),
        );
        models.push(
            local(
                "large",
                "Whisper Large",
                "Good accuracy, but slow.",
                "ggml-large-v3-q5_0.bin",
                "https://blob.handy.computer/ggml-large-v3-q5_0.bin",
                1100,
                false,
                EngineType::Whisper,
                85,
                30,
            ),
        );
        models.push(
            local(
                "parakeet-tdt-0.6b-v2",
                "Parakeet V2",
                "English only. The best model for English speakers.",
                "parakeet-tdt-0.6b-v2-int8",
                "https://blob.handy.computer/parakeet-v2-int8.tar.gz",
                473,
                true,
                EngineType::Parakeet,
                85,
                85,
            ),
        );
        models.push(
            local(
                "parakeet-tdt-0.6b-v3",
                "Parakeet V3",
                "Fast and accurate",
                "parakeet-tdt-0.6b-v3-int8",
                "https://blob.handy.computer/parakeet-v3-int8.tar.gz",
                478,
                true,
                EngineType::Parakeet,
                80,
                85,
            ),
        );
        models.push(
            remote(
                "voxtral-mini",
                "Voxtral Mini Transcribe (API)",
                "Fast cloud transcription via Mistral API.",
                80,
                95,
            ),
        );
        models.push(
            remote(
                "nova-3",
                "Nova-3 (Deepgram API)",
                "High-accuracy cloud transcription via Deepgram API.",
                90,
                75,
            ),
        );
        models.push(
            remote(
                "universal",
                "Universal (AssemblyAI API)",
                "Versatile speech recognition via AssemblyAI API.",
                88,
                70,
            ),
        );
        models.push(
            remote(
                "whisper-zero",
                "Whisper-Zero (Gladia API)",
                "Advanced Whisper model with fewer hallucinations via Gladia API.",
                85,
                72,
            ),
        );
        let manager = ModelManager { models };
        assert(manager@ =~= initial_catalog());
        manager
    }

    /// A snapshot of every entry, in catalog order.
    pub fn get_available_models(&self) -> (snapshot: Vec<ModelInfo>)
        ensures
            views(snapshot@) == self@,
    {
        let mut snapshot: Vec<ModelInfo> = Vec::new();
        let mut i: usize = 0;
        while i < self.models.len()
            invariant
                i <= self.models.len(),
                snapshot@.len() == i,
                forall|j: int| 0 <= j < i ==> (#[trigger] snapshot@[j])@ == self.models@[j]@,
            decreases self.models.len() - i,
        {
            snapshot.push(self.models[i].clone());
            i += 1;
        }
        assert(views(snapshot@) =~= self@);
        snapshot
    }

    /// The place at which the catalog lists `model_id`.
    pub(crate) fn position(&self, model_id: &str) -> (found: Option<usize>)
        ensures
            match found {
                Some(i) => is_position_of(self@, model_id@, i as int) && lists(self@, model_id@)
                    && position_of(self@, model_id@) == i,
                None => !lists(self@, model_id@),
            },
    {
        let mut i: usize = 0;
        while i < self.models.len()
            invariant
                i <= self.models.len(),
                forall|j: int| 0 <= j < i ==> (#[trigger] self@[j]).id != model_id@,
            decreases self.models.len() - i,
        {
            if str_eq(self.models[i].id.as_str(), model_id) {
                proof {
                    lemma_position_unique(self@, model_id@, i as int);
                }
                return Some(i);
            }
            i += 1;
        }
        assert forall|k: int| !is_position_of(self@, model_id@, k) by {
            if 0 <= k < self@.len() {
                assert(self@[k].id != model_id@);
            }
        }
        None
    }

    /// The entry at place `i`.
    pub(crate) fn entry(&self, i: usize) -> (info: &ModelInfo)
        requires
            i < self@.len(),
        ensures
            info@ == self@[i as int],
    {
        &self.models[i]
    }

    /// Gives the entry at place `i` a new status.
    pub(crate) fn set_status(
        &mut self,
        i: usize,
        is_downloaded: bool,
        is_downloading: bool,
        partial_size: u64,
    )
        requires
            old(self).wf(),
            i < old(self)@.len(),
            old(self)@[i as int].url is None ==> is_downloaded && !is_downloading && partial_size
                == 0,
        ensures
            final(self).wf(),
            final(self)@ == old(self)@.update(
                i as int,
                ModelInfoView { is_downloaded, is_downloading, partial_size, ..old(self)@[i as int] },
            ),
    {
        self.models[i].is_downloaded = is_downloaded;
        self.models[i].is_downloading = is_downloading;
        self.models[i].partial_size = partial_size;
        proof {
            assert(self@ =~= old(self)@.update(
                i as int,
                ModelInfoView { is_downloaded, is_downloading, partial_size, ..old(self)@[i as int] },
            ));
            assert forall|k: int| 0 <= k < self@.len() implies same_descriptor(
                #[trigger] self@[k],
                initial_catalog()[k],
            ) by {
                assert(same_descriptor(old(self)@[k], initial_catalog()[k]));
            }
            assert forall|k: int|
                0 <= k < self@.len() && (#[trigger] self@[k]).url is None implies has_remote_status(
                self@[k],
            ) by {
                assert(has_remote_status(old(self)@[k]) || k == i);
            }
        }
    }

    /// The entry of `model_id`, or `None` where the catalog has no such model.
    pub fn get_model_info(&self, model_id: &str) -> (info: Option<ModelInfo>)
        ensures
            match info {
                Some(m) => entry_of(self@, model_id@) == Some(m@),
                None => entry_of(self@, model_id@) is None,
            },
    {
        match self.position(model_id) {
            Some(i) => Some(self.models[i].clone()),
            None => None,
        }
    }
}

/// What the disk shows of one model's artifact and of its partial download.
#[derive(Debug, Clone, Copy, PartialEq, Eq, Structural)]
pub struct ArtifactProbe {
    /// Something exists at the artifact's path.
    pub artifact_exists: bool,
    /// What exists there is a directory.
    pub artifact_is_dir: bool,
    /// A partial download exists beside it.
    pub partial_exists: bool,
    /// The size of the partial download in bytes, 0 where it is unknown.
    pub partial_size: u64,
}

/// The entry `m` with the status that the probe `p` gives it. A
/// remote-routed model keeps its status whatever the disk shows.
pub open spec fn probed(m: ModelInfoView, p: ArtifactProbe) -> ModelInfoView {
    if is_api_model_id(m.id) {
        ModelInfoView { is_downloaded: true, is_downloading: false, partial_size: 0, ..m }
    } else {
        ModelInfoView {
            is_downloaded: p.artifact_exists && (m.is_directory ==> p.artifact_is_dir),
            is_downloading: p.partial_exists,
            partial_size: if p.partial_exists {
                p.partial_size
            } else {
                0
            },
            ..m
        }
    }
}

/// In the catalog the models without a source URL are the remote-routed
/// ones, and no others.
pub proof fn lemma_remote_iff_no_url(catalog: Seq<ModelInfoView>, i: int)
    requires
        catalog_wf(catalog),
        0 <= i < catalog.len(),
    ensures
        catalog[i].url is None <==> is_api_model_id(catalog[i].id),
{
    reveal_strlit("small");
    reveal_strlit("medium");
    reveal_strlit("turbo");
    reveal_strlit("large");
    reveal_strlit("parakeet-tdt-0.6b-v2");
    reveal_strlit("parakeet-tdt-0.6b-v3");
    reveal_strlit("voxtral-mini");
    reveal_strlit("nova-3");
    reveal_strlit("universal");
    reveal_strlit("whisper-zero");
    assert(same_descriptor(catalog[i], initial_catalog()[i]));
    assert("small"@.len() == 5 && "turbo"@.len() == 5 && "large"@.len() == 5);
    assert("medium"@.len() == 6 && "medium"@[0] == 'm');
    assert("parakeet-tdt-0.6b-v2"@.len() == 20 && "parakeet-tdt-0.6b-v3"@.len() == 20);
    assert("voxtral-mini"@.len() == 12 && "whisper-zero"@.len() == 12);
    assert("nova-3"@.len() == 6 && "nova-3"@[0] == 'n');
    assert("universal"@.len() == 9);
}

/// No two models of the catalog have the same id.
pub proof fn lemma_ids_are_distinct(catalog: Seq<ModelInfoView>, i: int, j: int)
    requires
        catalog_wf(catalog),
        0 <= i < j < catalog.len(),
    ensures
        catalog[i].id != catalog[j].id,
{
    reveal_strlit("small");
    reveal_strlit("medium");
    reveal_strlit("turbo");
    reveal_strlit("large");
    reveal_strlit("parakeet-tdt-0.6b-v2");
    reveal_strlit("parakeet-tdt-0.6b-v3");
    reveal_strlit("voxtral-mini");
    reveal_strlit("nova-3");
    reveal_strlit("universal");
    reveal_strlit("whisper-zero");
    assert(same_descriptor(catalog[i], initial_catalog()[i]));
    assert(same_descriptor(catalog[j], initial_catalog()[j]));
    assert("small"@.len() == 5 && "small"@[0] == 's');
    assert("turbo"@.len() == 5 && "turbo"@[0] == 't');
    assert("large"@.len() == 5 && "large"@[0] == 'l');
    assert("medium"@.len() == 6 && "medium"@[0] == 'm');
    assert("nova-3"@.len() == 6 && "nova-3"@[0] == 'n');
    assert("parakeet-tdt-0.6b-v2"@.len() == 20 && "parakeet-tdt-0.6b-v2"@[19] == '2');
    assert("parakeet-tdt-0.6b-v3"@.len() == 20 && "parakeet-tdt-0.6b-v3"@[19] == '3');
    assert("voxtral-mini"@.len() == 12 && "voxtral-mini"@[0] == 'v');
    assert("whisper-zero"@.len() == 12 && "whisper-zero"@[0] == 'w');
    assert("universal"@.len() == 9);
}

impl ModelManager {
    /// Brings the status of the models in line with what the disk shows:
    /// `probes[i]` is what was found for the `i`-th model of the catalog. A
    /// model for which no probe is given keeps its status.
    pub fn update_download_status(&mut self, probes: &Vec<ArtifactProbe>)
        requires
            old(self).wf(),
        ensures
            final(self).wf(),
            final(self)@.len() == old(self)@.len(),
            forall|i: int|
                0 <= i < old(self)@.len() ==> (#[trigger] final(self)@[i]) == (if i < probes@.len() {
                    probed(old(self)@[i], probes@[i])
                } else {
                    old(self)@[i]
                }),
    {
        let mut i: usize = 0;
        while i < self.models.len() && i < probes.len()
            invariant
                self.models@.len() == old(self).models@.len(),
                i <= self.models@.len(),
                i <= probes@.len(),
                old(self).wf(),
                forall|j: int| 0 <= j < i ==> (#[trigger] self.models@[j])@ == probed(old(self).models@[j]@, probes@[j]),
                forall|j: int| i <= j < self.models@.len() ==> (#[trigger] self.models@[j])@ == old(self).models@[j]@,
            decreases self.models.len() - i,
        {
            let probe = probes[i];
            if is_api_model(self.models[i].id.as_str()) {
                self.models[i].is_downloaded = true;
                self.models[i].is_downloading = false;
                self.models[i].partial_size = 0;
            } else {
                let is_directory = self.models[i].is_directory;
                self.models[i].is_downloaded = probe.artifact_exists && (!is_directory || probe.artifact_is_dir);
                self.models[i].is_downloading = probe.partial_exists;
                self.models[i].partial_size = if probe.partial_exists {
                    probe.partial_size
                } else {
                    0
                };
            }
            i += 1;
        }
        proof {
            assert forall|k: int| 0 <= k < self@.len() implies same_descriptor(#[trigger] self@[k], initial_catalog()[k]) by {
                assert(same_descriptor(old(self)@[k], initial_catalog()[k]));
            }
            assert forall|k: int| 0 <= k < self@.len() && (#[trigger] self@[k]).url is None implies has_remote_status(self@[k]) by {
                lemma_remote_iff_no_url(old(self)@, k);
                assert(has_remote_status(old(self)@[k]));
            }
        }
    }
}

/// What asking for the artifact of `id` gives: its path below the models
/// directory where the model is local, downloaded and not being downloaded.
pub open spec fn resolved_path(catalog: Seq<ModelInfoView>, id: Seq<char>) -> Result<
    Seq<char>,
    ErrorView,
> {
    if is_api_model_id(id) {
        Err(ErrorView::NoLocalPath(id))
    } else {
        match entry_of(catalog, id) {
            None => Err(ErrorView::ModelNotFound(id)),
            Some(m) => if !m.is_downloaded {
                Err(ErrorView::NotDownloaded(id))
            } else if m.is_downloading {
                Err(ErrorView::Downloading(id))
            } else {
                Ok(m.filename)
            },
        }
    }
}

/// The catalog after the download of `id` was called off: the entry is no
/// longer marked as downloading, and nothing else changes. For a
/// remote-routed or unknown model nothing changes at all.
pub open spec fn cancelled(catalog: Seq<ModelInfoView>, id: Seq<char>) -> Seq<ModelInfoView> {
    if is_api_model_id(id) || !lists(catalog, id) {
        catalog
    } else {
        let i = position_of(catalog, id);
        catalog.update(i, ModelInfoView { is_downloading: false, ..catalog[i] })
    }
}

/// Whether `i` is the first entry of `catalog` that is downloaded.
pub open spec fn is_first_downloaded(catalog: Seq<ModelInfoView>, i: int) -> bool {
    &&& 0 <= i < catalog.len()
    &&& catalog[i].is_downloaded
    &&& forall|j: int| 0 <= j < i ==> !(#[trigger] catalog[j]).is_downloaded
}

/// What is to be removed from disk to delete a model.
#[derive(Debug, Clone, Copy, PartialEq, Eq, Structural)]
pub struct DeletePlan {
    /// Remove the artifact, which is a directory, with all that it holds.
    pub remove_directory: bool,
    /// Remove the artifact, which is a file.
    pub remove_file: bool,
    /// Remove the partial download.
    pub remove_partial: bool,
}

/// What deleting the entry `m` takes, given what the disk shows.
pub open spec fn delete_plan(m: ModelInfoView, p: ArtifactProbe) -> DeletePlan {
    DeletePlan {
        remove_directory: m.is_directory && p.artifact_exists && p.artifact_is_dir,
        remove_file: !m.is_directory && p.artifact_exists,
        remove_partial: p.partial_exists,
    }
}

/// Whether a plan removes nothing.
pub open spec fn is_idle(plan: DeletePlan) -> bool {
    !plan.remove_directory && !plan.remove_file && !plan.remove_partial
}

/// What deleting the model `id` comes to. A remote-routed model has nothing
/// on disk, so there is nothing to do; for a local one it is a failure to
/// find nothing to remove.
pub open spec fn deletion(catalog: Seq<ModelInfoView>, id: Seq<char>, p: ArtifactProbe) -> Result<
    DeletePlan,
    ErrorView,
> {
    if is_api_model_id(id) {
        Ok(DeletePlan { remove_directory: false, remove_file: false, remove_partial: false })
    } else {
        match entry_of(catalog, id) {
            None => Err(ErrorView::ModelNotFound(id)),
            Some(m) => if is_idle(delete_plan(m, p)) {
                Err(ErrorView::NothingToDelete(id))
            } else {
                Ok(delete_plan(m, p))
            },
        }
    }
}

impl ModelInfo {
    /// The name under which the download is kept until it is complete: the
    /// artifact's name followed by `.partial`.
    pub fn partial_name(&self) -> (name: String)
        ensures
            name@ == self.filename@ + ".partial"@,
    {
        self.filename.clone().concat(".partial")
    }

    /// The name of the directory into which an archive is unpacked before it
    /// takes the artifact's place: the artifact's name followed by
    /// `.extracting`.
    pub fn extracting_name(&self) -> (name: String)
        ensures
            name@ == self.filename@ + ".extracting"@,
    {
        self.filename.clone().concat(".extracting")
    }
}

impl ModelManager {
    /// The path of the artifact of `model_id`, relative to the models
    /// directory. It is given only for a local model that is downloaded and
    /// not being downloaded.
    pub fn get_model_path(&self, model_id: &str) -> (path: Result<String, Error>)
        ensures
            crate::error::text_result(path) == resolved_path(self@, model_id@),
    {
        if is_api_model(model_id) {
            return Err(Error::NoLocalPath(String::from_str(model_id)));
        }
        match self.position(model_id) {
            None => Err(Error::ModelNotFound(String::from_str(model_id))),
            Some(i) => {
                if !self.models[i].is_downloaded {
                    Err(Error::NotDownloaded(String::from_str(model_id)))
                } else if self.models[i].is_downloading {
                    Err(Error::Downloading(String::from_str(model_id)))
                } else {
                    Ok(self.models[i].filename.clone())
                }
            },
        }
    }

    /// Calls off the download of `model_id`: the entry is no longer marked as
    /// downloading. The transfer itself is the caller's to stop, and the
    /// partial download stays for a later resume.
    pub fn cancel_download(&mut self, model_id: &str) -> (outcome: Result<(), Error>)
        requires
            old(self).wf(),
        ensures
            final(self).wf(),
            final(self)@ == cancelled(old(self)@, model_id@),
            match outcome {
                Ok(_) => is_api_model_id(model_id@) || lists(old(self)@, model_id@),
                Err(e) => !is_api_model_id(model_id@) && !lists(old(self)@, model_id@) && e@
                    == ErrorView::ModelNotFound(model_id@),
            },
    {
        if is_api_model(model_id) {
            return Ok(());
        }
        match self.position(model_id) {
            None => Err(Error::ModelNotFound(String::from_str(model_id))),
            Some(i) => {
                let is_downloaded = self.models[i].is_downloaded;
                let partial_size = self.models[i].partial_size;
                self.set_status(i, is_downloaded, false, partial_size);
                assert(self@ =~= cancelled(old(self)@, model_id@));
                Ok(())
            },
        }
    }

    /// The model to select where none is selected yet: the first one of the
    /// catalog that is downloaded. `None` where `selected_model` already
    /// names one, or where nothing is downloaded.
    pub fn auto_select_model_if_needed(&self, selected_model: &str) -> (choice: Option<String>)
        ensures
            match choice {
                Some(id) => selected_model@.len() == 0 && exists|i: int|
                    is_first_downloaded(self@, i) && id@ == self@[i].id,
                None => selected_model@.len() > 0 || forall|i: int|
                    0 <= i < self@.len() ==> !(#[trigger] self@[i]).is_downloaded,
            },
    {
        if !selected_model.is_empty() {
            return None;
        }
        let mut i: usize = 0;
        while i < self.models.len()
            invariant
                i <= self.models.len(),
                selected_model@.len() == 0,
                forall|j: int| 0 <= j < i ==> !(#[trigger] self@[j]).is_downloaded,
            decreases self.models.len() - i,
        {
            if self.models[i].is_downloaded {
                let id = self.models[i].id.clone();
                assert(is_first_downloaded(self@, i as int) && id@ == self@[i as int].id);
                return Some(id);
            }
            i += 1;
        }
        None
    }

    /// What is to be removed from disk to delete `model_id`, given what the
    /// disk shows of it. Once that is done the caller probes the disk again
    /// and reports it with `update_download_status`.
    pub fn delete_model(&self, model_id: &str, probe: ArtifactProbe) -> (plan: Result<
        DeletePlan,
        Error,
    >)
        ensures
            match plan {
                Ok(p) => deletion(self@, model_id@, probe) == Ok::<DeletePlan, ErrorView>(p),
                Err(e) => deletion(self@, model_id@, probe) == Err::<DeletePlan, ErrorView>(e@),
            },
    {
        if is_api_model(model_id) {
            return Ok(
                DeletePlan { remove_directory: false, remove_file: false, remove_partial: false },
            );
        }
        match self.position(model_id) {
            None => Err(Error::ModelNotFound(String::from_str(model_id))),
            Some(i) => {
                let is_directory = self.models[i].is_directory;
                let plan = DeletePlan {
                    remove_directory: is_directory && probe.artifact_exists
                        && probe.artifact_is_dir,
                    remove_file: !is_directory && probe.artifact_exists,
                    remove_partial: probe.partial_exists,
                };
                if !plan.remove_directory && !plan.remove_file && !plan.remove_partial {
                    Err(Error::NothingToDelete(String::from_str(model_id)))
                } else {
                    Ok(plan)
                }
            },
        }
    }
}

/// The artifact of a model is handed out exactly when the model is local,
/// listed, downloaded and not being downloaded.
pub proof fn lemma_path_iff_ready(catalog: Seq<ModelInfoView>, id: Seq<char>)
    ensures
        resolved_path(catalog, id) is Ok <==> !is_api_model_id(id) && (entry_of(catalog, id) matches Some(
            m,
        ) && m.is_downloaded && !m.is_downloading),
{
}

/// A model without a source URL never has a path, whatever its status.
pub proof fn lemma_remote_has_no_path(catalog: Seq<ModelInfoView>, id: Seq<char>)
    requires
        catalog_wf(catalog),
        entry_of(catalog, id) matches Some(m) && m.url is None,
    ensures
        resolved_path(catalog, id) is Err,
{
    let i = position_of(catalog, id);
    assert(is_position_of(catalog, id, i));
    lemma_remote_iff_no_url(catalog, i);
}

/// With nothing selected there is always a model to select: the
/// remote-routed ones count as downloaded.
pub proof fn lemma_some_model_is_downloaded(catalog: Seq<ModelInfoView>)
    requires
        catalog_wf(catalog),
    ensures
        exists|i: int| is_first_downloaded(catalog, i),
{
    assert(same_descriptor(catalog[6], initial_catalog()[6]));
    assert(catalog[6].url is None);
    assert(has_remote_status(catalog[6]));
    lemma_first_downloaded_exists(catalog, 6);
}

proof fn lemma_first_downloaded_exists(catalog: Seq<ModelInfoView>, k: int)
    requires
        0 <= k < catalog.len(),
        catalog[k].is_downloaded,
    ensures
        exists|i: int| is_first_downloaded(catalog, i),
    decreases k,
{
    if exists|j: int| 0 <= j < k && (#[trigger] catalog[j]).is_downloaded {
        let j = choose|j: int| 0 <= j < k && (#[trigger] catalog[j]).is_downloaded;
        lemma_first_downloaded_exists(catalog, j);
    } else {
        assert(is_first_downloaded(catalog, k));
    }
}

/// The workspaces that an interrupted extraction may have left behind, for
/// the first `n` models: one for each directory-packaged model, by its name
/// below the models directory.
pub open spec fn workspaces(catalog: Seq<ModelInfoView>, n: nat) -> Seq<Seq<char>>
    decreases n,
{
    if n == 0 {
        Seq::empty()
    } else if catalog[n - 1].is_directory {
        workspaces(catalog, (n - 1) as nat).push(catalog[n - 1].filename + ".extracting"@)
    } else {
        workspaces(catalog, (n - 1) as nat)
    }
}

impl ModelManager {
    /// The workspaces to remove at startup, if they are there. A workspace
    /// never holds anything of worth: what was unpacked completely has left
    /// it for the final directory.
    pub fn leftover_workspaces(&self) -> (names: Vec<String>)
        ensures
            texts(names@) == workspaces(self@, self@.len()),
    {
        let mut names: Vec<String> = Vec::new();
        let mut i: usize = 0;
        while i < self.models.len()
            invariant
                i <= self.models.len(),
                texts(names@) == workspaces(self@, i as nat),
            decreases self.models.len() - i,
        {
            if self.models[i].is_directory {
                let name = self.models[i].extracting_name();
                let ghost before = texts(names@);
                names.push(name);
                assert(texts(names@) =~= before.push(name@));
            }
            i += 1;
        }
        names
    }
}

/// The model that ships with the application, by the name of its artifact.
pub const BUNDLED_MODEL: &'static str = "ggml-small.bin";

/// Whether the artifact that ships with the application is to be copied
/// into the models directory: it is where it ships and the user has none of
/// that name yet.
pub fn migrate_bundled_models(bundled_exists: bool, user_exists: bool) -> (copy: bool)
    ensures
        copy == (bundled_exists && !user_exists),
{
    bundled_exists && !user_exists
}

} // verus!
