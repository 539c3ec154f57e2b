//! The decisions of a resumable download: whether to fetch at all, from
//! which byte on, how far the transfer has come, and what to do with the
//! bytes once they are all there. The caller makes the request, writes the
//! chunks to the partial download and reports here.

use vstd::prelude::*;
use vstd::string::StringExecFns;
use crate::error::{Error, ErrorView};
use crate::model::{
    cancelled,
    entry_of,
    is_api_model,
    is_api_model_id,
    lists,
    position_of,
    ArtifactProbe,
    ModelInfoView,
    ModelManager,
};
use crate::text::{append_chars, chars_of, clone_opt, decimal, opt_text, push_decimal, string_of};

verus! {

/// How far a download has come.
#[derive(Debug, PartialEq, Eq)]
pub struct DownloadProgress {
    pub model_id: String,
    /// The bytes that are on disk.
    pub downloaded: u64,
    /// The size of the whole artifact in bytes, 0 where it is not known.
    pub total: u64,
    /// The whole percents that are done, rounded down, 0 where the total
    /// is not known. Whoever needs the fraction has it in the two counts.
    pub percentage: u64,
}

/// What is to be done first to download a model.
#[derive(Debug, PartialEq, Eq)]
pub enum DownloadPlan {
    /// The model is remote-routed: there is nothing to download.
    Skip,
    /// The artifact is there already. A partial download beside it is stray
    /// and is to be removed where `remove_partial` says so.
    AlreadyComplete { remove_partial: bool },
    /// The artifact is to be fetched from `url`. Where `resume_from` is
    /// above 0 the request carries `range` in its header `Range`, which
    /// asks for the bytes from that offset on, and the chunks are appended
    /// to the partial download; otherwise the partial download is started
    /// anew.
    Fetch { url: String, resume_from: u64, range: Option<String> },
}

/// What a `DownloadPlan` holds, as mathematical values.
pub enum DownloadPlanView {
    Skip,
    AlreadyComplete { remove_partial: bool },
    Fetch { url: Seq<char>, resume_from: u64, range: Option<Seq<char>> },
}

impl View for DownloadPlan {
    type V = DownloadPlanView;

    open spec fn view(&self) -> DownloadPlanView {
        match self {
            DownloadPlan::Skip => DownloadPlanView::Skip,
            DownloadPlan::AlreadyComplete { remove_partial } => DownloadPlanView::AlreadyComplete {
                remove_partial: *remove_partial,
            },
            DownloadPlan::Fetch { url, resume_from, range } => DownloadPlanView::Fetch {
                url: url@,
                resume_from: *resume_from,
                range: opt_text(*range),
            },
        }
    }
}

/// The byte from which a download goes on: the size of the partial download,
/// 0 where there is none.
pub open spec fn resume_offset(p: ArtifactProbe) -> u64 {
    if p.partial_exists {
        p.partial_size
    } else {
        0
    }
}

/// The range of bytes that a download asks for: everything from
/// `resume_from` on, and no range at all for a download from the start.
pub open spec fn byte_range(resume_from: u64) -> Option<Seq<char>> {
    if resume_from == 0 {
        None
    } else {
        Some("bytes="@ + decimal(resume_from as nat) + "-"@)
    }
}

/// The range of bytes that a download asks for: see `byte_range`.
pub fn range_header(resume_from: u64) -> (range: Option<String>)
    ensures
        opt_text(range) == byte_range(resume_from),
{
    if resume_from == 0 {
        return None;
    }
    let mut chars = chars_of("bytes=");
    push_decimal(&mut chars, resume_from);
    let dash = chars_of("-");
    append_chars(&mut chars, &dash);
    Some(string_of(&chars))
}

/// The plan for downloading the model `id`, given what the disk shows of it.
pub open spec fn download_plan(catalog: Seq<ModelInfoView>, id: Seq<char>, p: ArtifactProbe) -> Result<
    DownloadPlanView,
    ErrorView,
> {
    if is_api_model_id(id) {
        Ok(DownloadPlanView::Skip)
    } else {
        match entry_of(catalog, id) {
            None => Err(ErrorView::ModelNotFound(id)),
            Some(m) => match m.url {
                None => Err(ErrorView::NoDownloadUrl(id)),
                Some(url) => if p.artifact_exists {
                    Ok(DownloadPlanView::AlreadyComplete { remove_partial: p.partial_exists })
                } else {
                    Ok(
                        DownloadPlanView::Fetch {
                            url,
                            resume_from: resume_offset(p),
                            range: byte_range(resume_offset(p)),
                        },
                    )
                },
            },
        }
    }
}

/// The entry `m` once its artifact was found in place and a stray partial
/// download was removed.
pub open spec fn found_complete(m: ModelInfoView, p: ArtifactProbe) -> ModelInfoView {
    ModelInfoView {
        is_downloaded: p.artifact_exists && (m.is_directory ==> p.artifact_is_dir),
        is_downloading: false,
        partial_size: 0,
        ..m
    }
}

/// The catalog after a download of `id` was planned: where the artifact is
/// to be fetched the entry is marked as downloading, where the artifact was
/// found in place the entry says so, and otherwise nothing changes.
pub open spec fn after_plan(catalog: Seq<ModelInfoView>, id: Seq<char>, p: ArtifactProbe) -> Seq<
    ModelInfoView,
> {
    match download_plan(catalog, id, p) {
        Ok(DownloadPlanView::Fetch { .. }) => {
            let i = position_of(catalog, id);
            catalog.update(i, ModelInfoView { is_downloading: true, ..catalog[i] })
        },
        Ok(DownloadPlanView::AlreadyComplete { .. }) => {
            let i = position_of(catalog, id);
            catalog.update(i, found_complete(catalog[i], p))
        },
        _ => catalog,
    }
}

/// Whether a status code tells of success: 200 to 299, which includes the
/// answer to a request for a range of bytes.
pub open spec fn is_success(status: u16) -> bool {
    200 <= status <= 299
}

/// The size of the whole artifact: what is on disk plus what the server
/// announces. Where it announces nothing, or more than can be counted, the
/// remainder counts as 0 and the total as unknown respectively.
pub open spec fn total_size(resume_from: u64, content_length: Option<u64>) -> u64 {
    let remaining = match content_length {
        Some(n) => n,
        None => 0,
    };
    if resume_from + remaining <= u64::MAX {
        (resume_from + remaining) as u64
    } else {
        0
    }
}

/// The whole percents that `downloaded` is of `total`, rounded down; 0
/// where the total is not known.
pub open spec fn percent(downloaded: u64, total: u64) -> u64 {
    if total == 0 {
        0
    } else if downloaded * 100 / (total as int) <= u64::MAX {
        (downloaded * 100 / (total as int)) as u64
    } else {
        u64::MAX
    }
}

/// The bytes on disk after a chunk of `len` bytes was written; the count
/// stops at the largest number that fits.
pub open spec fn received(downloaded: u64, len: usize) -> u64 {
    if downloaded + len <= u64::MAX {
        (downloaded + len) as u64
    } else {
        u64::MAX
    }
}

/// The bytes on disk after the chunks of the given lengths were written in
/// order.
pub open spec fn received_all(downloaded: u64, lens: Seq<usize>) -> u64
    decreases lens.len(),
{
    if lens.len() == 0 {
        downloaded
    } else {
        received(received_all(downloaded, lens.drop_last()), lens.last())
    }
}

/// The bytes of all chunks together.
pub open spec fn sum_of(lens: Seq<usize>) -> int
    decreases lens.len(),
{
    if lens.len() == 0 {
        0
    } else {
        sum_of(lens.drop_last()) + lens.last()
    }
}

/// What is to be done with a download once all bytes are there.
#[derive(Debug, Clone, Copy, PartialEq, Eq, Structural)]
pub enum Completion {
    /// The partial download is the artifact: it takes the artifact's name.
    Rename,
    /// The partial download is an archive: it is unpacked into the
    /// artifact's directory.
    Extract,
}

fn whole_percent(downloaded: u64, total: u64) -> (p: u64)
    ensures
        p == percent(downloaded, total),
{
    if total == 0 {
        0
    } else {
        let p: u128 = (downloaded as u128) * 100 / (total as u128);
        if p <= u64::MAX as u128 {
            p as u64
        } else {
            u64::MAX
        }
    }
}

/// A transfer in progress.
#[derive(Debug, PartialEq, Eq)]
pub struct Transfer {
    pub model_id: String,
    /// The bytes that are on disk.
    pub downloaded: u64,
    /// The size of the whole artifact in bytes, 0 where it is not known.
    pub total: u64,
}

impl Transfer {
    /// Where the transfer stands.
    pub fn progress(&self) -> (progress: DownloadProgress)
        ensures
            progress.model_id@ == self.model_id@,
            progress.downloaded == self.downloaded,
            progress.total == self.total,
            progress.percentage == percent(self.downloaded, self.total),
    {
        DownloadProgress {
            model_id: self.model_id.clone(),
            downloaded: self.downloaded,
            total: self.total,
            percentage: whole_percent(self.downloaded, self.total),
        }
    }

    /// Counts a chunk of `len` bytes that was appended to the partial
    /// download, and tells where the transfer stands now.
    pub fn record_chunk(&mut self, len: usize) -> (progress: DownloadProgress)
        ensures
            final(self).model_id@ == old(self).model_id@,
            final(self).total == old(self).total,
            final(self).downloaded == received(old(self).downloaded, len),
            progress.model_id@ == old(self).model_id@,
            progress.downloaded == final(self).downloaded,
            progress.total == final(self).total,
            progress.percentage == percent(final(self).downloaded, final(self).total),
    {
        let len64: u64 = len as u64;
        self.downloaded = if len64 <= u64::MAX - self.downloaded {
            self.downloaded + len64
        } else {
            u64::MAX
        };
        self.progress()
    }
}

impl ModelManager {
    /// Plans the download of `model_id`, given what the disk shows of it, and
    /// marks the model as downloading where its artifact is to be fetched.
    pub fn download_model(&mut self, model_id: &str, probe: ArtifactProbe) -> (plan: Result<
        DownloadPlan,
        Error,
    >)
        requires
            old(self).wf(),
        ensures
            final(self).wf(),
            final(self)@ == after_plan(old(self)@, model_id@, probe),
            match plan {
                Ok(p) => download_plan(old(self)@, model_id@, probe) == Ok::<
                    DownloadPlanView,
                    ErrorView,
                >(p@),
                Err(e) => download_plan(old(self)@, model_id@, probe) == Err::<
                    DownloadPlanView,
                    ErrorView,
                >(e@),
            },
    {
        if is_api_model(model_id) {
            return Ok(DownloadPlan::Skip);
        }
        let i = match self.position(model_id) {
            None => {
                return Err(Error::ModelNotFound(String::from_str(model_id)));
            },
            Some(i) => i,
        };
        let url = match clone_opt(&self.entry(i).url) {
            None => {
                return Err(Error::NoDownloadUrl(String::from_str(model_id)));
            },
            Some(url) => url,
        };
        if probe.artifact_exists {
            let is_downloaded = !self.entry(i).is_directory || probe.artifact_is_dir;
            self.set_status(i, is_downloaded, false, 0);
            assert(self@ =~= after_plan(old(self)@, model_id@, probe));
            Ok(DownloadPlan::AlreadyComplete { remove_partial: probe.partial_exists })
        } else {
            let resume_from = if probe.partial_exists {
                probe.partial_size
            } else {
                0
            };
            let is_downloaded = self.entry(i).is_downloaded;
            let partial_size = self.entry(i).partial_size;
            self.set_status(i, is_downloaded, true, partial_size);
            assert(self@ =~= after_plan(old(self)@, model_id@, probe));
            Ok(DownloadPlan::Fetch { url, resume_from, range: range_header(resume_from) })
        }
    }
}

/// The catalog after the artifact of `id` has taken its place: the entry is
/// downloaded, not downloading, and has no partial download. For a
/// remote-routed or unknown model nothing changes.
pub open spec fn completed(catalog: Seq<ModelInfoView>, id: Seq<char>) -> Seq<ModelInfoView> {
    if is_api_model_id(id) || !lists(catalog, id) {
        catalog
    } else {
        let i = position_of(catalog, id);
        catalog.update(
            i,
            ModelInfoView {
                is_downloaded: true,
                is_downloading: false,
                partial_size: 0,
                ..catalog[i]
            },
        )
    }
}

/// What is to be done with the finished download of the model `id`.
pub open spec fn completion_of(catalog: Seq<ModelInfoView>, id: Seq<char>) -> Result<
    Completion,
    ErrorView,
> {
    if is_api_model_id(id) {
        Err(ErrorView::NoLocalPath(id))
    } else {
        match entry_of(catalog, id) {
            None => Err(ErrorView::ModelNotFound(id)),
            Some(m) => if m.is_directory {
                Ok(Completion::Extract)
            } else {
                Ok(Completion::Rename)
            },
        }
    }
}

impl ModelManager {
    /// Takes the server's answer to the request of a `Fetch` plan. With a
    /// status of success the transfer begins at `resume_from`; with any
    /// other the model is no longer marked as downloading and the download
    /// has failed.
    pub fn begin_transfer(
        &mut self,
        model_id: &str,
        resume_from: u64,
        status: u16,
        content_length: Option<u64>,
    ) -> (transfer: Result<Transfer, Error>)
        requires
            old(self).wf(),
        ensures
            final(self).wf(),
            match transfer {
                Ok(t) => {
                    &&& is_success(status)
                    &&& final(self)@ == old(self)@
                    &&& t.model_id@ == model_id@
                    &&& t.downloaded == resume_from
                    &&& t.total == total_size(resume_from, content_length)
                },
                Err(e) => {
                    &&& !is_success(status)
                    &&& final(self)@ == cancelled(old(self)@, model_id@)
                    &&& e@ == ErrorView::Http { status, body: Seq::empty() }
                },
            },
    {
        if status < 200 || status > 299 {
            self.fail_download(model_id);
            return Err(Error::Http { status, body: String::new() });
        }
        let remaining: u64 = match content_length {
            Some(n) => n,
            None => 0,
        };
        let total: u64 = if remaining <= u64::MAX - resume_from {
            resume_from + remaining
        } else {
            0
        };
        Ok(Transfer { model_id: String::from_str(model_id), downloaded: resume_from, total })
    }

    /// Notes that the transfer of `model_id` broke off: the model is no
    /// longer marked as downloading. The partial download stays, so that a
    /// later download goes on from where this one stopped.
    pub fn fail_download(&mut self, model_id: &str)
        requires
            old(self).wf(),
        ensures
            final(self).wf(),
            final(self)@ == cancelled(old(self)@, model_id@),
    {
        let _ = self.cancel_download(model_id);
    }

    /// What is to be done with the finished download of `model_id`: an
    /// archive is unpacked, anything else takes the artifact's name.
    pub fn completion(&self, model_id: &str) -> (step: Result<Completion, Error>)
        ensures
            match step {
                Ok(c) => completion_of(self@, model_id@) == Ok::<Completion, ErrorView>(c),
                Err(e) => completion_of(self@, model_id@) == Err::<Completion, ErrorView>(e@),
            },
    {
        if is_api_model(model_id) {
            return Err(Error::NoLocalPath(String::from_str(model_id)));
        }
        match self.position(model_id) {
            None => Err(Error::ModelNotFound(String::from_str(model_id))),
            Some(i) => if self.entry(i).is_directory {
                Ok(Completion::Extract)
            } else {
                Ok(Completion::Rename)
            },
        }
    }

    /// Notes that the artifact of `model_id` has taken its place on disk.
    pub fn complete_download(&mut self, model_id: &str) -> (outcome: Result<(), Error>)
        requires
            old(self).wf(),
        ensures
            final(self).wf(),
            final(self)@ == completed(old(self)@, model_id@),
            match outcome {
                Ok(_) => is_api_model_id(model_id@) || lists(old(self)@, model_id@),
                Err(e) => !is_api_model_id(model_id@) && !lists(old(self)@, model_id@) && e@
                    == ErrorView::ModelNotFound(model_id@),
            },
    {
        if is_api_model(model_id) {
            return Ok(());
        }
        match self.position(model_id) {
            None => Err(Error::ModelNotFound(String::from_str(model_id))),
            Some(i) => {
                self.set_status(i, true, false, 0);
                assert(self@ =~= completed(old(self)@, model_id@));
                Ok(())
            },
        }
    }
}

/// A download that goes on from a partial download of N bytes asks for the
/// bytes from N on.
pub proof fn lemma_resume_from_partial(
    catalog: Seq<ModelInfoView>,
    id: Seq<char>,
    p: ArtifactProbe,
)
    requires
        p.partial_exists,
        download_plan(catalog, id, p) matches Ok(DownloadPlanView::Fetch { .. }),
    ensures
        download_plan(catalog, id, p) matches Ok(DownloadPlanView::Fetch { resume_from, range, .. })
            && resume_from == p.partial_size && (p.partial_size > 0 ==> range == Some(
            "bytes="@ + decimal(p.partial_size as nat) + "-"@,
        )),
{
}

/// Chunks never make the count go down.
pub proof fn lemma_sum_of_is_natural(lens: Seq<usize>)
    ensures
        sum_of(lens) >= 0,
    decreases lens.len(),
{
    if lens.len() > 0 {
        lemma_sum_of_is_natural(lens.drop_last());
    }
}

/// As long as the count fits, the bytes on disk are what was there plus all
/// chunks.
pub proof fn lemma_received_all(downloaded: u64, lens: Seq<usize>)
    requires
        downloaded + sum_of(lens) <= u64::MAX,
    ensures
        received_all(downloaded, lens) == downloaded + sum_of(lens),
    decreases lens.len(),
{
    if lens.len() > 0 {
        lemma_sum_of_is_natural(lens.drop_last());
        lemma_received_all(downloaded, lens.drop_last());
    }
}

/// Once the chunks add up to what the server announced, the bytes on disk
/// are the announced total.
pub proof fn lemma_transfer_reaches_total(resume_from: u64, content_length: u64, lens: Seq<usize>)
    requires
        resume_from + content_length <= u64::MAX,
        sum_of(lens) == content_length,
    ensures
        received_all(resume_from, lens) == total_size(resume_from, Some(content_length)),
{
    lemma_received_all(resume_from, lens);
}

} // verus!
