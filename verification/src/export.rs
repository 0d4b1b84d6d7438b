//! Export requests, the jobs they create and the history of those jobs.
use vstd::prelude::*;

use crate::config::OracleUrl;
use crate::oracle_client::RemoteExportJob;
use crate::text::{chars_of, is_blank, str_is_blank};

verus! {

/// The artifact formats that the Oracle can produce.
#[derive(Clone, Copy, Debug, PartialEq, Eq)]
pub enum ExportFormat {
    Json,
    Csv,
    Markdown,
    Jsonl,
}

pub open spec fn format_extension(format: ExportFormat) -> Seq<char> {
    match format {
        ExportFormat::Json => "json"@,
        ExportFormat::Csv => "csv"@,
        ExportFormat::Markdown => "md"@,
        ExportFormat::Jsonl => "jsonl"@,
    }
}

impl ExportFormat {
    /// The file extension of artifacts in this format.
    pub fn extension(self) -> (res: &'static str)
        ensures
            res@ == format_extension(self),
    {
        match self {
            ExportFormat::Json => "json",
            ExportFormat::Csv => "csv",
            ExportFormat::Markdown => "md",
            ExportFormat::Jsonl => "jsonl",
        }
    }
}

/// A request to export one collection.
#[derive(Debug, PartialEq, Eq)]
pub struct ExportRequest {
    pub collection: String,
    pub format: ExportFormat,
    pub include_graph: bool,
}

/// The longest collection name accepted, in characters.
pub const MAX_COLLECTION_CHARS: usize = 200;

impl ExportRequest {
    /// Accepts a request whose collection name is not blank and has at most
    /// 200 characters.
    pub fn validate(&self) -> (res: Result<(), &'static str>)
        ensures
            is_blank(self.collection@) ==> (res matches Err(e) && e@ == "collection is required"@),
            !is_blank(self.collection@) && self.collection@.len() > MAX_COLLECTION_CHARS ==> (
            res matches Err(e) && e@ == "collection must be 200 characters or fewer"@),
            !is_blank(self.collection@) && self.collection@.len() <= MAX_COLLECTION_CHARS
                ==> res is Ok,
    {
        if str_is_blank(self.collection.as_str()) {
            return Err("collection is required");
        }
        if chars_of(self.collection.as_str()).len() > MAX_COLLECTION_CHARS {
            return Err("collection must be 200 characters or fewer");
        }
        Ok(())
    }
}

/// An export job as the service reports it.
#[derive(Debug, PartialEq, Eq)]
pub struct ExportJob {
    pub id: String,
    pub collection: String,
    pub format: ExportFormat,
    pub include_graph: bool,
    pub status: String,
    pub progress: u8,
    pub filename: Option<String>,
    pub created_at: Option<String>,
    pub download_url: String,
}

/// A copy of an optional text.
pub fn clone_text(o: &Option<String>) -> (res: Option<String>)
    ensures
        res == *o,
{
    match o {
        Some(s) => Some(s.clone()),
        None => None,
    }
}

impl Clone for ExportJob {
    fn clone(&self) -> (res: Self)
        ensures
            res == *self,
    {
        ExportJob {
            id: self.id.clone(),
            collection: self.collection.clone(),
            format: self.format,
            include_graph: self.include_graph,
            status: self.status.clone(),
            progress: self.progress,
            filename: clone_text(&self.filename),
            created_at: clone_text(&self.created_at),
            download_url: self.download_url.clone(),
        }
    }
}

/// A job of the history together with what is needed to fetch its
/// artifact again: the Oracle's job id and the Oracle it ran on.
#[derive(Debug, PartialEq, Eq)]
pub struct StoredExportJob {
    pub view: ExportJob,
    pub remote_job_id: String,
    pub oracle_url: OracleUrl,
}

impl Clone for StoredExportJob {
    fn clone(&self) -> (res: Self)
        ensures
            res == *self,
    {
        StoredExportJob {
            view: self.view.clone(),
            remote_job_id: self.remote_job_id.clone(),
            oracle_url: self.oracle_url.clone(),
        }
    }
}

/// How many jobs the history keeps.
pub const MAX_HISTORY: usize = 100;

/// The local download path of a job.
pub open spec fn download_path(id: Seq<char>) -> Seq<char> {
    "/api/export/"@ + id + "/download"@
}

/// The job that `record` reports for `request` and the Oracle's `remote`
/// answer: the Oracle's id and file details, the request's collection and
/// format, status "completed" and progress 100 where the Oracle gave none,
/// progress capped at 100.
pub open spec fn is_recorded_view(job: ExportJob, request: ExportRequest, remote: RemoteExportJob) -> bool {
    &&& job.id == remote.job_id
    &&& job.collection == request.collection
    &&& job.format == request.format
    &&& job.include_graph == request.include_graph
    &&& job.status@ == match remote.status {
        Some(s) => s@,
        None => "completed"@,
    }
    &&& job.progress == match remote.progress {
        Some(p) => if p <= 100 {
            p
        } else {
            100
        },
        None => 100,
    }
    &&& job.filename == remote.filename
    &&& job.created_at == remote.created_at
    &&& job.download_url@ == download_path(remote.job_id@)
}

/// The id of a stored job.
pub open spec fn job_id(job: StoredExportJob) -> Seq<char> {
    job.view.id@
}

/// The jobs whose id differs from `id`, in their order.
pub open spec fn without_id(jobs: Seq<StoredExportJob>, id: Seq<char>) -> Seq<StoredExportJob>
    decreases jobs.len(),
{
    if jobs.len() == 0 {
        Seq::empty()
    } else {
        let rest = without_id(jobs.drop_last(), id);
        if job_id(jobs.last()) == id {
            rest
        } else {
            rest.push(jobs.last())
        }
    }
}

/// The first `MAX_HISTORY` jobs.
pub open spec fn capped(jobs: Seq<StoredExportJob>) -> Seq<StoredExportJob> {
    if jobs.len() > MAX_HISTORY {
        jobs.take(MAX_HISTORY as int)
    } else {
        jobs
    }
}

/// The history after `job` is recorded: the job first, then the earlier
/// jobs with another id, newest first, at most `MAX_HISTORY` in all.
pub open spec fn recorded(jobs: Seq<StoredExportJob>, job: StoredExportJob) -> Seq<
    StoredExportJob,
> {
    capped(seq![job] + without_id(jobs, job_id(job)))
}

/// No two jobs share an id.
pub open spec fn distinct_ids(jobs: Seq<StoredExportJob>) -> bool {
    forall|i: int, j: int|
        0 <= i < j < jobs.len() ==> job_id(#[trigger] jobs[i]) != job_id(#[trigger] jobs[j])
}

/// A well-formed history: distinct ids and at most `MAX_HISTORY` jobs.
pub open spec fn history_wf(jobs: Seq<StoredExportJob>) -> bool {
    distinct_ids(jobs) && jobs.len() <= MAX_HISTORY
}

/// The first job with the given id.
pub open spec fn find_job(jobs: Seq<StoredExportJob>, id: Seq<char>) -> Option<StoredExportJob>
    decreases jobs.len(),
{
    if jobs.len() == 0 {
        None
    } else if job_id(jobs[0]) == id {
        Some(jobs[0])
    } else {
        find_job(jobs.drop_first(), id)
    }
}

/// Every job kept by `without_id` comes from `jobs` and has another id.
pub proof fn lemma_without_id(jobs: Seq<StoredExportJob>, id: Seq<char>)
    ensures
        without_id(jobs, id).len() <= jobs.len(),
        forall|k: int|
            0 <= k < without_id(jobs, id).len() ==> job_id(#[trigger] without_id(jobs, id)[k])
                != id && exists|i: int| 0 <= i < jobs.len() && jobs[i] == without_id(jobs, id)[k],
        distinct_ids(jobs) ==> distinct_ids(without_id(jobs, id)),
    decreases jobs.len(),
{
    if jobs.len() > 0 {
        let init = jobs.drop_last();
        lemma_without_id(init, id);
        let rest = without_id(init, id);
        assert forall|k: int| 0 <= k < rest.len() implies exists|i: int|
            0 <= i < jobs.len() && jobs[i] == #[trigger] rest[k] by {
            let i = choose|i: int| 0 <= i < init.len() && init[i] == rest[k];
            assert(jobs[i] == init[i]);
        }
        if job_id(jobs.last()) != id {
            let w = rest.push(jobs.last());
            assert forall|k: int| 0 <= k < w.len() implies exists|i: int|
                0 <= i < jobs.len() && jobs[i] == #[trigger] w[k] by {
                if k == rest.len() {
                    assert(jobs[jobs.len() - 1] == w[k]);
                } else {
                    assert(w[k] == rest[k]);
                }
            }
            if distinct_ids(jobs) {
                assert(distinct_ids(init));
                assert forall|a: int, b: int| 0 <= a < b < w.len() implies job_id(
                    #[trigger] w[a],
                ) != job_id(#[trigger] w[b]) by {
                    if b == rest.len() {
                        assert(w[a] == rest[a]);
                        let i = choose|i: int| 0 <= i < init.len() && init[i] == rest[a];
                        assert(jobs[i] == init[i]);
                        assert(jobs[jobs.len() - 1] == w[b]);
                    } else {
                        assert(w[a] == rest[a]);
                        assert(w[b] == rest[b]);
                    }
                }
            }
        }
    }
}

/// Recording a job keeps the history well formed.
pub proof fn lemma_recorded_wf(jobs: Seq<StoredExportJob>, job: StoredExportJob)
    requires
        history_wf(jobs),
    ensures
        history_wf(recorded(jobs, job)),
        recorded(jobs, job).len() >= 1,
        recorded(jobs, job)[0] == job,
{
    let rest = without_id(jobs, job_id(job));
    lemma_without_id(jobs, job_id(job));
    let all = seq![job] + rest;
    assert forall|a: int, b: int| 0 <= a < b < all.len() implies job_id(#[trigger] all[a])
        != job_id(#[trigger] all[b]) by {
        assert(all[b] == rest[b - 1]);
        if a > 0 {
            assert(all[a] == rest[a - 1]);
        }
    }
    let c = capped(all);
    assert forall|a: int, b: int| 0 <= a < b < c.len() implies job_id(#[trigger] c[a]) != job_id(
        #[trigger] c[b],
    ) by {
        assert(c[a] == all[a]);
        assert(c[b] == all[b]);
    }
}

/// Every job of `jobs` with another id is kept by `without_id`.
proof fn lemma_without_id_keeps(jobs: Seq<StoredExportJob>, id: Seq<char>, i: int)
    requires
        0 <= i < jobs.len(),
        job_id(jobs[i]) != id,
    ensures
        exists|k: int|
            0 <= k < without_id(jobs, id).len() && #[trigger] without_id(jobs, id)[k] == jobs[i],
    decreases jobs.len(),
{
    let init = jobs.drop_last();
    let rest = without_id(init, id);
    if i == jobs.len() - 1 {
        assert(without_id(jobs, id)[rest.len() as int] == jobs[i]);
    } else {
        lemma_without_id_keeps(init, id, i);
        let k = choose|k: int| 0 <= k < rest.len() && #[trigger] rest[k] == init[i];
        assert(without_id(jobs, id)[k] == jobs[i]);
    }
}

/// The job that `find_job` returns has the id and belongs to the jobs; it
/// returns `None` only when no job has the id.
proof fn lemma_find_job(jobs: Seq<StoredExportJob>, id: Seq<char>)
    ensures
        find_job(jobs, id) matches Some(j) ==> job_id(j) == id && exists|k: int|
            0 <= k < jobs.len() && jobs[k] == j,
        find_job(jobs, id) is None <==> forall|k: int|
            0 <= k < jobs.len() ==> job_id(#[trigger] jobs[k]) != id,
    decreases jobs.len(),
{
    if jobs.len() > 0 {
        let tail = jobs.drop_first();
        lemma_find_job(tail, id);
        if job_id(jobs[0]) != id {
            if find_job(tail, id) is Some {
                let k = choose|k: int| 0 <= k < tail.len() && tail[k] == find_job(tail, id)->0;
                assert(jobs[k + 1] == tail[k]);
            }
            assert forall|k: int| 0 <= k < jobs.len() && (forall|m: int|
                0 <= m < tail.len() ==> job_id(#[trigger] tail[m]) != id) implies job_id(
                #[trigger] jobs[k],
            ) != id by {
                if k > 0 {
                    assert(jobs[k] == tail[k - 1]);
                }
            }
        }
    }
}

/// In a history with distinct ids, a job is found by its id.
proof fn lemma_find_job_distinct(jobs: Seq<StoredExportJob>, k: int)
    requires
        distinct_ids(jobs),
        0 <= k < jobs.len(),
    ensures
        find_job(jobs, job_id(jobs[k])) == Some(jobs[k]),
    decreases jobs.len(),
{
    if k > 0 {
        let tail = jobs.drop_first();
        assert(job_id(jobs[0]) != job_id(jobs[k]));
        assert(tail[k - 1] == jobs[k]);
        lemma_find_job_distinct(tail, k - 1);
    }
}

/// Read after write: once a job is recorded, looking up its id gives it.
pub proof fn lemma_record_then_find(jobs: Seq<StoredExportJob>, job: StoredExportJob)
    requires
        history_wf(jobs),
    ensures
        find_job(recorded(jobs, job), job_id(job)) == Some(job),
{
    lemma_recorded_wf(jobs, job);
}

/// `without_id` drops something exactly when some job has the id.
proof fn lemma_without_id_len(jobs: Seq<StoredExportJob>, id: Seq<char>)
    ensures
        (forall|i: int| 0 <= i < jobs.len() ==> job_id(#[trigger] jobs[i]) != id) ==> without_id(
            jobs,
            id,
        ) == jobs,
        (exists|i: int| 0 <= i < jobs.len() && job_id(#[trigger] jobs[i]) == id) ==> without_id(
            jobs,
            id,
        ).len() < jobs.len(),
    decreases jobs.len(),
{
    if jobs.len() > 0 {
        let init = jobs.drop_last();
        lemma_without_id_len(init, id);
        lemma_without_id(init, id);
        if forall|i: int| 0 <= i < jobs.len() ==> job_id(#[trigger] jobs[i]) != id {
            assert forall|i: int| 0 <= i < init.len() implies job_id(#[trigger] init[i]) != id by {
                assert(init[i] == jobs[i]);
            }
            assert(without_id(jobs, id) =~= jobs);
        }
        if exists|i: int| 0 <= i < jobs.len() && job_id(#[trigger] jobs[i]) == id {
            let i = choose|i: int| 0 <= i < jobs.len() && job_id(#[trigger] jobs[i]) == id;
            if i < jobs.len() - 1 {
                assert(init[i] == jobs[i]);
            }
        }
    }
}

/// Recording a job leaves the lookup of every other id unchanged, except
/// for the oldest job, which leaves a full history when the recorded id is
/// new to it.
pub proof fn lemma_record_keeps_others(
    jobs: Seq<StoredExportJob>,
    job: StoredExportJob,
    other: Seq<char>,
)
    requires
        history_wf(jobs),
        other != job_id(job),
        jobs.len() < MAX_HISTORY || find_job(jobs, job_id(job)) is Some || other != job_id(
            jobs.last(),
        ),
    ensures
        find_job(recorded(jobs, job), other) == find_job(jobs, other),
{
    let id = job_id(job);
    let w = without_id(jobs, id);
    lemma_without_id(jobs, id);
    lemma_without_id_len(jobs, id);
    lemma_recorded_wf(jobs, job);
    lemma_find_job(jobs, id);
    lemma_find_job(jobs, other);
    let all = seq![job] + w;
    let c = recorded(jobs, job);
    if w.len() < MAX_HISTORY {
        assert(c == all);
        assert(all.drop_first() =~= w);
        assert(find_job(all, other) == find_job(w, other));
        lemma_find_job(w, other);
        if find_job(jobs, other) is Some {
            let j = find_job(jobs, other)->0;
            let i = choose|i: int| 0 <= i < jobs.len() && jobs[i] == j;
            lemma_without_id_keeps(jobs, id, i);
            let k = choose|k: int| 0 <= k < w.len() && #[trigger] w[k] == jobs[i];
            lemma_find_job_distinct(w, k);
            lemma_find_job_distinct(jobs, i);
        } else {
            assert forall|k: int| 0 <= k < w.len() implies job_id(#[trigger] w[k]) != other by {
                let i = choose|i: int| 0 <= i < jobs.len() && jobs[i] == w[k];
                assert(job_id(jobs[i]) != other);
            }
        }
    } else {
        // The history was full and held no job with the recorded id.
        assert(w == jobs);
        assert(jobs.len() == MAX_HISTORY);
        assert(c =~= all.take(MAX_HISTORY as int));
        lemma_find_job(c, other);
        if find_job(jobs, other) is Some {
            let j = find_job(jobs, other)->0;
            let i = choose|i: int| 0 <= i < jobs.len() && jobs[i] == j;
            lemma_find_job_distinct(jobs, i);
            assert(i != jobs.len() - 1);
            assert(c[i + 1] == jobs[i]);
            lemma_find_job_distinct(c, i + 1);
        } else {
            assert forall|k: int| 0 <= k < c.len() implies job_id(#[trigger] c[k]) != other by {
                if k > 0 {
                    assert(c[k] == jobs[k - 1]);
                }
            }
        }
    }
}

/// A well-formed history of export jobs, newest first.
#[derive(Debug, PartialEq, Eq)]
pub struct JobManager {
    jobs: Vec<StoredExportJob>,
}

impl View for JobManager {
    type V = Seq<StoredExportJob>;

    closed spec fn view(&self) -> Seq<StoredExportJob> {
        self.jobs@
    }
}

impl Default for JobManager {
    fn default() -> (res: Self)
        ensures
            res@ == Seq::<StoredExportJob>::empty(),
    {
        JobManager::new()
    }
}

impl JobManager {
    #[verifier::type_invariant]
    closed spec fn inv(self) -> bool {
        history_wf(self.jobs@)
    }

    /// An empty history.
    pub fn new() -> (res: Self)
        ensures
            res@ == Seq::<StoredExportJob>::empty(),
    {
        JobManager { jobs: Vec::new() }
    }

    /// Records a job that the Oracle started for `request` and returns the
    /// job as the service reports it. An earlier job with the same id
    /// leaves the history, the new job comes first, and only the newest
    /// `MAX_HISTORY` jobs are kept.
    pub fn record(&mut self, request: &ExportRequest, remote: RemoteExportJob, oracle_url: OracleUrl) -> (res: ExportJob)
        ensures
            is_recorded_view(res, *request, remote),
            res.format == request.format,
            res.include_graph == request.include_graph,
            res.collection@ == request.collection@,
            res.id@ == remote.job_id@,
            res.filename == remote.filename,
            res.created_at == remote.created_at,
            res.progress <= 100,
            match remote.progress {
                Some(p) => p <= 100 ==> res.progress == p,
                None => res.progress == 100,
            },
            match remote.status {
                Some(st) => res.status@ == st@,
                None => res.status@ == "completed"@,
            },
            res.download_url@ == "/api/export/"@ + remote.job_id@ + "/download"@,
            final(self)@.len() >= 1,
            final(self)@[0].view == res,
            final(self)@[0].remote_job_id == remote.job_id,
            final(self)@[0].oracle_url == oracle_url,
            final(self)@.len() <= MAX_HISTORY,
            final(self)@ == recorded(
                old(self)@,
                StoredExportJob { view: res, remote_job_id: remote.job_id, oracle_url },
            ),
            history_wf(final(self)@),
    {
        proof {
            use_type_invariant(&*self);
        }
        let ghost remote_view = remote;
        let RemoteExportJob { job_id: id, status, progress, filename, created_at } = remote;
        let mut download_url = String::from_str("/api/export/");
        download_url.append(id.as_str());
        download_url.append("/download");
        let status = match status {
            Some(s) => s,
            None => String::from_str("completed"),
        };
        let progress = match progress {
            Some(p) => if p <= 100 {
                p
            } else {
                100
            },
            None => 100,
        };
        let view = ExportJob {
            id: id.clone(),
            collection: request.collection.clone(),
            format: request.format,
            include_graph: request.include_graph,
            status,
            progress,
            filename,
            created_at,
            download_url,
        };
        let stored = StoredExportJob { view: view.clone(), remote_job_id: id, oracle_url };
        let ghost old_jobs = self.jobs@;
        let ghost new_job = stored;
        let mut kept: Vec<StoredExportJob> = Vec::new();
        kept.push(stored);
        let mut i: usize = 0;
        let n = self.jobs.len();
        while i < n
            invariant
                n == old_jobs.len(),
                self.jobs@ == old_jobs,
                i <= n,
                view == new_job.view,
                kept@ == seq![new_job] + without_id(old_jobs.take(i as int), job_id(new_job)),
            decreases n - i,
        {
            assert(old_jobs.take(i + 1).drop_last() =~= old_jobs.take(i as int));
            if self.jobs[i].view.id != view.id {
                kept.push(self.jobs[i].clone());
            }
            i += 1;
        }
        assert(old_jobs.take(n as int) =~= old_jobs);
        kept.truncate(MAX_HISTORY);
        proof {
            lemma_recorded_wf(old_jobs, new_job);
        }
        self.jobs = kept;
        view
    }

    /// The jobs, newest first.
    pub fn history(&self) -> (res: Vec<ExportJob>)
        ensures
            res@ == self@.map_values(|job: StoredExportJob| job.view),
            history_wf(self@),
    {
        proof {
            use_type_invariant(self);
        }
        let mut out: Vec<ExportJob> = Vec::new();
        let mut i: usize = 0;
        while i < self.jobs.len()
            invariant
                i <= self.jobs@.len(),
                out@ == self.jobs@.take(i as int).map_values(|job: StoredExportJob| job.view),
            decreases self.jobs@.len() - i,
        {
            out.push(self.jobs[i].view.clone());
            i += 1;
            assert(out@ =~= self.jobs@.take(i as int).map_values(|job: StoredExportJob| job.view));
        }
        assert(self.jobs@.take(i as int) =~= self.jobs@);
        out
    }

    /// The job with the given id.
    pub fn get(&self, id: &str) -> (res: Option<StoredExportJob>)
        ensures
            res == find_job(self@, id@),
            history_wf(self@),
    {
        proof {
            use_type_invariant(self);
        }
        let wanted = String::from_str(id);
        let mut i: usize = 0;
        assert(self.jobs@.skip(0) =~= self.jobs@);
        while i < self.jobs.len()
            invariant
                i <= self.jobs@.len(),
                wanted@ == id@,
                history_wf(self.jobs@),
                find_job(self.jobs@, id@) == find_job(self.jobs@.skip(i as int), id@),
            decreases self.jobs@.len() - i,
        {
            assert(self.jobs@.skip(i as int).drop_first() =~= self.jobs@.skip(i + 1));
            if self.jobs[i].view.id == wanted {
                return Some(self.jobs[i].clone());
            }
            i += 1;
        }
        assert(self.jobs@.skip(i as int) =~= Seq::<StoredExportJob>::empty());
        None
    }
}

/// A downloaded export artifact.
#[derive(Debug, PartialEq, Eq)]
pub struct ExportArtifact {
    pub bytes: Vec<u8>,
    pub content_type: String,
    pub filename: String,
}

} // verus!
