//! The agent that sees one downloadable item through: manifest, chunk
//! contexts, the chunks still to fetch, and what to tell its owner at the end.
//!
//! The agent decides; its caller acts. The caller fetches the manifest when
//! the agent asks for it, creates the files the agent lists, runs the pending
//! chunks through its worker pool, and hands back what the workers finished.
//!
//! What each call does to the agent is written as a function on
//! [`AgentModel`], the agent's state as plain values.

use crate::download_thread_control_flag::{DownloadThreadControl, DownloadThreadControlFlag};
use crate::error::{ApplicationDownloadError, RemoteAccessError, SetupError};
use crate::manifest::{
    build_contexts, context_lengths, file_sizes, first_error, manifest_contexts, models,
    plan_models, total_bytes, ContextModel, DropChunk, DropDownloadContext, DropManifest, FilePlan,
};
use crate::progress_object::{ProgressObject, ProgressUpdate};
use crate::remote::{manifest_path, spec_manifest_path};
use crate::stored_manifest::{
    contains_index, keep_valid, lemma_keep_valid, lemma_keep_valid_fixpoint, recorded_for,
    LedgerRecord, StoredManifest,
};
use crate::sums::{
    lemma_prefix_sum_monotone, lemma_prefix_sum_step, lemma_sum_bounds, prefix_sum,
};
use vstd::prelude::*;

verus! {

/// What an agent tells its owner.
#[derive(Debug, Clone)]
pub enum DownloadManagerSignal {
    /// Every chunk of the item with this id is on disk and verified.
    Completed(String),
    /// A chunk failed with this error.
    Error(ApplicationDownloadError),
}

/// Whether the manifest has to be fetched.
#[derive(Debug, Clone)]
pub enum ManifestStep {
    /// The manifest is in memory.
    Present,
    /// Fetch the manifest from this path and query, below the remote's base URL.
    Fetch { path: String },
}

/// What a worker is to do with the result of one chunk.
#[derive(Debug)]
pub enum WorkerReport {
    /// The chunk is written and verified: add its position to the chunks
    /// finished in this run.
    Completed(usize),
    /// The chunk was stopped: there is nothing to report.
    Stopped,
    /// The chunk failed: send this signal to the owner now.
    Forward(DownloadManagerSignal),
}

/// What the caller is to do for one run.
#[derive(Debug, Clone)]
pub struct DownloadPlan {
    /// Files to create and to size before any chunk is fetched. Empty where
    /// the files were created by an earlier call.
    pub files: Vec<FilePlan>,
    /// The chunks to fetch, by position among the agent's contexts.
    pub pending: Vec<usize>,
}

/// What the caller is to do after a run.
#[derive(Debug, Clone)]
pub struct RunOutcome {
    /// The completion signal for the owner, where no chunk is missing.
    pub signal: Option<DownloadManagerSignal>,
    /// Where the run ended with chunks missing: the resume ledger, to be
    /// written to disk.
    pub persist: Option<LedgerRecord>,
}

/// The agent's state as plain values.
pub struct AgentModel {
    pub id: Seq<char>,
    pub version: Seq<char>,
    pub flag: DownloadThreadControlFlag,
    pub contexts: Seq<ContextModel>,
    /// The chunks known to be finished, by position among `contexts`.
    pub completed: Seq<usize>,
    pub manifest: Option<Seq<(String, DropChunk)>>,
    /// The byte total of the progress tracker; zero until it is set.
    pub max: usize,
    /// The byte counters of the progress tracker, one per chunk once set.
    pub counters: Seq<usize>,
    pub start: u64,
    /// The indices recorded in the resume ledger.
    pub ledger: Seq<usize>,
    /// The item the resume ledger is kept for.
    pub ledger_game_id: Seq<char>,
    /// The version the resume ledger is kept for.
    pub ledger_game_version: Seq<char>,
    pub base_path: Seq<char>,
}

/// Why contexts cannot be built for an item, if they cannot: no manifest, a
/// file entry that is not usable, or more bytes in all than `usize` can count.
pub open spec fn setup_error(id: Seq<char>, manifest: Option<Seq<(String, DropChunk)>>) -> Option<
    SetupError,
> {
    match manifest {
        None => Some(SetupError::ManifestMissing),
        Some(files) => match first_error(files) {
            Some(e) => Some(e),
            None => if total_bytes(manifest_contexts(id, files)) > usize::MAX {
                Some(SetupError::SizeOverflow)
            } else {
                None
            },
        },
    }
}

/// The chunks among the first `n` that are not in `completed`, in order.
pub open spec fn pending_of(n: int, completed: Seq<usize>) -> Seq<usize>
    decreases n,
{
    if n <= 0 {
        Seq::empty()
    } else {
        let before = pending_of(n - 1, completed);
        if completed.contains((n - 1) as usize) {
            before
        } else {
            before.push((n - 1) as usize)
        }
    }
}

/// The counters once every finished chunk is counted in full: the counter of
/// a finished chunk is the chunk's length, and the others are as in `base`.
pub open spec fn credited(
    base: Seq<usize>,
    contexts: Seq<ContextModel>,
    completed: Seq<usize>,
) -> Seq<usize> {
    Seq::new(
        contexts.len(),
        |i: int|
            if completed.contains(i as usize) {
                contexts[i].length as usize
            } else {
                base[i]
            },
    )
}

/// The finished chunks after a run: those finished before, then each chunk
/// finished in the run, in the order given. A position that names no chunk,
/// or a chunk that is finished already, adds nothing.
pub open spec fn merged(completed: Seq<usize>, newly: Seq<usize>, chunk_count: int) -> Seq<usize>
    decreases newly.len(),
{
    if newly.len() == 0 {
        completed
    } else {
        let before = merged(completed, newly.drop_last(), chunk_count);
        if newly.last() < chunk_count && !before.contains(newly.last()) {
            before.push(newly.last())
        } else {
            before
        }
    }
}

impl AgentModel {
    /// The finished chunks are chunks, each listed once; the contexts are
    /// those of the manifest; the tracker's bounds, once set, are those of
    /// the contexts; and the resume ledger is kept for the agent's item.
    pub open spec fn wf(self) -> bool {
        &&& self.ledger_game_id == self.id
        &&& self.ledger_game_version == self.version
        &&& self.completed.no_duplicates()
        &&& forall|i: int|
            0 <= i < self.completed.len() ==> self.completed[i] < self.contexts.len()
        &&& self.contexts.len() > 0 ==> (self.manifest matches Some(files) && first_error(files)
            is None && self.contexts == manifest_contexts(self.id, files))
        &&& total_bytes(self.contexts) <= usize::MAX
        &&& self.max != 0 ==> (self.counters.len() == self.contexts.len() && self.max
            == total_bytes(self.contexts))
    }

    /// The agent with the contexts of its manifest, and with the finished
    /// chunks that the resume ledger lists for them.
    pub open spec fn with_contexts(self) -> AgentModel
        recommends
            self.manifest is Some,
    {
        let contexts = manifest_contexts(self.id, self.manifest->0);
        AgentModel {
            contexts,
            completed: keep_valid(self.ledger, contexts.len() as int),
            ..self
        }
    }

    /// Why setting up fails, if it does. It cannot fail once contexts exist.
    pub open spec fn setup_failure(self) -> Option<SetupError> {
        if self.contexts.len() > 0 {
            None
        } else {
            setup_error(self.id, self.manifest)
        }
    }

    /// The files to create when setting up: those of the manifest when the
    /// contexts are built, and none when the contexts exist already.
    pub open spec fn files_to_create(self) -> Seq<(Seq<char>, int)> {
        if self.contexts.len() > 0 || self.manifest is None {
            Seq::empty()
        } else {
            file_sizes(self.manifest->0)
        }
    }

    /// The agent once its contexts are ensured: unchanged where they exist or
    /// cannot be built, and with them built otherwise.
    pub open spec fn after_ensure(self) -> AgentModel {
        if self.contexts.len() > 0 || self.setup_failure() is Some {
            self
        } else {
            self.with_contexts()
        }
    }

    /// The agent once it is set up: its contexts ensured and its flag armed,
    /// or unchanged where setting up fails.
    pub open spec fn after_setup(self) -> AgentModel {
        if self.setup_failure() is Some {
            self
        } else {
            AgentModel { flag: DownloadThreadControlFlag::Go, ..self.after_ensure() }
        }
    }

    /// The agent once the tracker's bounds are set from the contexts at time
    /// `now`: unchanged where a byte total is already set.
    pub open spec fn after_bounds(self, now: u64) -> AgentModel {
        if self.max != 0 {
            self
        } else {
            AgentModel {
                max: total_bytes(self.contexts) as usize,
                counters: Seq::new(self.contexts.len(), |i: int| 0usize),
                start: now,
                ..self
            }
        }
    }

    /// The agent once every finished chunk is counted in full.
    pub open spec fn after_credit(self) -> AgentModel {
        AgentModel { counters: credited(self.counters, self.contexts, self.completed), ..self }
    }

    /// The agent once a run is prepared at time `now`: set up, bounds set,
    /// finished chunks counted. Unchanged where setting up fails.
    pub open spec fn after_download(self, now: u64) -> AgentModel {
        if self.setup_failure() is Some {
            self
        } else {
            self.after_setup().after_bounds(now).after_credit()
        }
    }

    /// The chunks still to fetch.
    pub open spec fn pending(self) -> Seq<usize> {
        pending_of(self.contexts.len() as int, self.completed)
    }

    /// The finished chunks once those in `newly` have joined them.
    pub open spec fn finished_with(self, newly: Seq<usize>) -> Seq<usize> {
        merged(self.completed, newly, self.contexts.len() as int)
    }

    /// Whether no chunk is missing once those in `newly` are finished.
    pub open spec fn complete_with(self, newly: Seq<usize>) -> bool {
        self.finished_with(newly).len() == self.contexts.len()
    }

    /// The agent after a run in which the chunks in `newly` were finished.
    /// Where chunks are still missing, the ledger lists the finished ones.
    pub open spec fn after_run(self, newly: Seq<usize>) -> AgentModel {
        AgentModel {
            completed: self.finished_with(newly),
            ledger: if self.complete_with(newly) {
                self.ledger
            } else {
                self.finished_with(newly)
            },
            ..self
        }
    }
}

/// The sum of the lengths of `contexts`, where it fits a `usize`.
pub fn total_length(contexts: &Vec<DropDownloadContext>) -> (total: Option<usize>)
    ensures
        match total {
            Some(t) => t == total_bytes(models(contexts@)),
            None => total_bytes(models(contexts@)) > usize::MAX,
        },
{
    let ghost lengths = context_lengths(models(contexts@));
    let mut total: usize = 0;
    let mut i: usize = 0;
    assert(lengths.subrange(0, 0).len() == 0);
    while i < contexts.len()
        invariant
            i <= contexts@.len(),
            lengths == context_lengths(models(contexts@)),
            total == prefix_sum(lengths, i as int),
        decreases contexts@.len() - i,
    {
        proof {
            lemma_prefix_sum_step(lengths, i as int);
        }
        match total.checked_add(contexts[i].length) {
            Some(next) => {
                total = next;
            },
            None => {
                proof {
                    lemma_prefix_sum_monotone(lengths, i + 1, lengths.len() as int);
                    assert(lengths.subrange(0, lengths.len() as int) =~= lengths);
                }
                return None;
            },
        }
        i = i + 1;
    }
    assert(lengths.subrange(0, i as int) =~= lengths);
    Some(total)
}

/// What a worker is to do with the result of the chunk at `index`: a failure
/// is forwarded to the owner, whatever the other chunks do; a stop is no
/// failure and is passed over; a success is recorded.
pub fn worker_report(index: usize, result: Result<bool, ApplicationDownloadError>) -> (report:
    WorkerReport)
    ensures
        result matches Ok(true) ==> report == WorkerReport::Completed(index),
        result matches Ok(false) ==> report == WorkerReport::Stopped,
        result matches Err(e) ==> report == WorkerReport::Forward(
            DownloadManagerSignal::Error(e),
        ),
{
    match result {
        Ok(true) => WorkerReport::Completed(index),
        Ok(false) => WorkerReport::Stopped,
        Err(e) => WorkerReport::Forward(DownloadManagerSignal::Error(e)),
    }
}

/// The pending chunks are exactly the chunks that are not finished, each
/// listed once, in ascending order.
pub proof fn lemma_pending_exact(n: int, completed: Seq<usize>)
    requires
        0 <= n <= usize::MAX,
    ensures
        forall|i: usize| #[trigger]
            pending_of(n, completed).contains(i) <==> (i < n && !completed.contains(i)),
        forall|a: int, b: int|
            0 <= a < b < pending_of(n, completed).len() ==> pending_of(n, completed)[a]
                < pending_of(n, completed)[b],
        pending_of(n, completed).no_duplicates(),
        forall|a: int|
            0 <= a < pending_of(n, completed).len() ==> (#[trigger] pending_of(n, completed)[a])
                < n,
    decreases n,
{
    let pending = pending_of(n, completed);
    if n > 0 {
        let before = pending_of(n - 1, completed);
        lemma_pending_exact(n - 1, completed);
        let last = (n - 1) as usize;
        assert forall|i: usize| #[trigger]
            pending.contains(i) <==> (i < n && !completed.contains(i)) by {
            if pending.contains(i) {
                let k = choose|k: int| 0 <= k < pending.len() && pending[k] == i;
                if k < before.len() {
                    assert(before.contains(i));
                }
            }
            if i < n && !completed.contains(i) {
                if i == last {
                    assert(pending[pending.len() - 1] == i);
                } else {
                    assert(before.contains(i));
                    let k = choose|k: int| 0 <= k < before.len() && before[k] == i;
                    assert(pending[k] == i);
                }
            }
        }
    }
}

/// How many of the first `n` chunks are finished.
pub open spec fn finished_below(completed: Seq<usize>, n: int) -> int
    decreases n,
{
    if n <= 0 {
        0
    } else {
        finished_below(completed, n - 1) + if completed.contains((n - 1) as usize) {
            1int
        } else {
            0int
        }
    }
}

/// Of the first `n` chunks, each is either pending or finished.
pub proof fn lemma_pending_len(n: int, completed: Seq<usize>)
    requires
        0 <= n,
    ensures
        pending_of(n, completed).len() + finished_below(completed, n) == n,
    decreases n,
{
    if n > 0 {
        lemma_pending_len(n - 1, completed);
    }
}

proof fn lemma_finished_below_push(completed: Seq<usize>, x: usize, n: int)
    requires
        !completed.contains(x),
        0 <= n <= usize::MAX + 1,
    ensures
        finished_below(completed.push(x), n) == finished_below(completed, n) + if x < n {
            1int
        } else {
            0int
        },
    decreases n,
{
    if n > 0 {
        lemma_finished_below_push(completed, x, n - 1);
        let y = (n - 1) as usize;
        let pushed = completed.push(x);
        if completed.contains(y) {
            let k = choose|k: int| 0 <= k < completed.len() && completed[k] == y;
            assert(pushed[k] == y);
        }
        if y == x {
            assert(pushed[pushed.len() - 1] == y);
        }
        if pushed.contains(y) && y != x {
            let k = choose|k: int| 0 <= k < pushed.len() && pushed[k] == y;
            assert(completed[k] == y);
        }
    }
}

/// A list of finished chunks without repeats, all among the first `n`, has
/// as many entries as there are finished chunks among the first `n`.
pub proof fn lemma_finished_below_all(completed: Seq<usize>, n: int)
    requires
        completed.no_duplicates(),
        forall|i: int| 0 <= i < completed.len() ==> completed[i] < n,
        0 <= n <= usize::MAX + 1,
    ensures
        finished_below(completed, n) == completed.len(),
    decreases completed.len(),
{
    if completed.len() == 0 {
        lemma_finished_below_none(completed, n);
    } else {
        let rest = completed.drop_last();
        let x = completed.last();
        lemma_finished_below_all(rest, n);
        if rest.contains(x) {
            let k = choose|k: int| 0 <= k < rest.len() && rest[k] == x;
            assert(completed[k] == completed[completed.len() - 1]);
        }
        lemma_finished_below_push(rest, x, n);
        assert(rest.push(x) =~= completed);
    }
}

proof fn lemma_finished_below_none(completed: Seq<usize>, n: int)
    requires
        completed.len() == 0,
    ensures
        finished_below(completed, n) == 0,
    decreases n,
{
    if n > 0 {
        lemma_finished_below_none(completed, n - 1);
    }
}

/// Resuming fetches exactly what is missing and then is complete: if the
/// chunks in `completed` were finished before an interruption, and the next
/// run finishes every pending chunk, then the finished chunks are the old ones
/// followed by the pending ones, and no chunk is missing.
pub proof fn lemma_resume_completes(completed: Seq<usize>, n: int)
    requires
        0 <= n <= usize::MAX,
        completed.no_duplicates(),
        forall|i: int| 0 <= i < completed.len() ==> completed[i] < n,
    ensures
        merged(completed, pending_of(n, completed), n) == completed + pending_of(n, completed),
        merged(completed, pending_of(n, completed), n).len() == n,
{
    let pending = pending_of(n, completed);
    lemma_pending_exact(n, completed);
    lemma_pending_len(n, completed);
    lemma_finished_below_all(completed, n);
    lemma_merge_prefix(completed, n, pending.len() as int);
    assert(pending.subrange(0, pending.len() as int) =~= pending);
}

proof fn lemma_merge_prefix(completed: Seq<usize>, n: int, k: int)
    requires
        0 <= n <= usize::MAX,
        0 <= k <= pending_of(n, completed).len(),
        pending_of(n, completed).no_duplicates(),
        forall|i: usize| #[trigger]
            pending_of(n, completed).contains(i) <==> (i < n && !completed.contains(i)),
    ensures
        merged(completed, pending_of(n, completed).subrange(0, k), n) == completed + pending_of(
            n,
            completed,
        ).subrange(0, k),
    decreases k,
{
    let pending = pending_of(n, completed);
    if k == 0 {
        assert(completed + pending.subrange(0, 0) =~= completed);
    } else {
        lemma_merge_prefix(completed, n, k - 1);
        let head = pending.subrange(0, k);
        assert(head.drop_last() =~= pending.subrange(0, k - 1));
        let before = completed + pending.subrange(0, k - 1);
        let x = pending[k - 1];
        assert(head.last() == x);
        assert(pending.contains(x));
        if before.contains(x) {
            let j = choose|j: int| 0 <= j < before.len() && before[j] == x;
            if j < completed.len() {
                assert(completed.contains(x));
            } else {
                assert(pending[j - completed.len()] == pending[k - 1]);
            }
        }
        assert(before.push(x) =~= completed + pending.subrange(0, k));
    }
}

/// The finished chunks stay finished, are chunks, and are listed once each.
pub proof fn lemma_merged_valid(completed: Seq<usize>, newly: Seq<usize>, n: int)
    requires
        completed.no_duplicates(),
        forall|i: int| 0 <= i < completed.len() ==> completed[i] < n,
    ensures
        merged(completed, newly, n).no_duplicates(),
        forall|i: int|
            0 <= i < merged(completed, newly, n).len() ==> merged(completed, newly, n)[i] < n,
        completed.len() <= merged(completed, newly, n).len(),
        merged(completed, newly, n).subrange(0, completed.len() as int) == completed,
    decreases newly.len(),
{
    if newly.len() == 0 {
        assert(completed.subrange(0, completed.len() as int) =~= completed);
    } else {
        lemma_merged_valid(completed, newly.drop_last(), n);
        let before = merged(completed, newly.drop_last(), n);
        let after = merged(completed, newly, n);
        assert(after.subrange(0, completed.len() as int) =~= before.subrange(
            0,
            completed.len() as int,
        ));
        if after.len() > before.len() {
            assert forall|i: int, j: int| 0 <= i < j < after.len() implies after[i]
                != after[j] by {
                if j == before.len() {
                    assert(before.contains(before[i]));
                }
            }
        }
    }
}

/// After a run the finished chunks are exactly those finished before and
/// those chunks that the run reported: a report for a position that names no
/// chunk adds nothing, and nothing that was finished is lost.
pub proof fn lemma_merged_members(completed: Seq<usize>, newly: Seq<usize>, n: int)
    ensures
        forall|x: usize| #[trigger]
            merged(completed, newly, n).contains(x) <==> (completed.contains(x) || (
            newly.contains(x) && x < n)),
    decreases newly.len(),
{
    let after = merged(completed, newly, n);
    if newly.len() > 0 {
        let rest = newly.drop_last();
        let before = merged(completed, rest, n);
        let last = newly.last();
        lemma_merged_members(completed, rest, n);
        assert forall|x: usize| #[trigger]
            after.contains(x) <==> (completed.contains(x) || (newly.contains(x) && x < n)) by {
            if after.contains(x) {
                let k = choose|k: int| 0 <= k < after.len() && after[k] == x;
                if k < before.len() {
                    assert(before[k] == x);
                    assert(before.contains(x));
                    if rest.contains(x) {
                        let j = choose|j: int| 0 <= j < rest.len() && rest[j] == x;
                        assert(newly[j] == x);
                    }
                } else {
                    assert(newly[newly.len() - 1] == x);
                }
            }
            if completed.contains(x) || (newly.contains(x) && x < n) {
                if before.contains(x) {
                    let k = choose|k: int| 0 <= k < before.len() && before[k] == x;
                    assert(after[k] == x);
                } else {
                    assert(!completed.contains(x));
                    let j = choose|j: int| 0 <= j < newly.len() && newly[j] == x;
                    if j < rest.len() {
                        assert(rest[j] == x);
                        assert(rest.contains(x));
                    }
                    assert(x == last);
                    assert(after[after.len() - 1] == x);
                }
            }
        }
    }
}

/// What was persisted is what is resumed: where a run ends with chunks
/// missing, an agent started afresh for the same item with the ledger that
/// run left behind takes up exactly the chunks that were finished, and is
/// left to fetch exactly the others.
pub proof fn lemma_persisted_chunks_are_resumed(
    agent: AgentModel,
    newly: Seq<usize>,
    restarted: AgentModel,
)
    requires
        agent.wf(),
        agent.contexts.len() > 0,
        !agent.complete_with(newly),
        restarted.id == agent.id,
        restarted.manifest == agent.manifest,
        restarted.contexts.len() == 0,
        restarted.ledger == agent.after_run(newly).ledger,
    ensures
        restarted.setup_failure() is None,
        restarted.after_setup().contexts == agent.contexts,
        restarted.after_setup().completed == agent.finished_with(newly),
        restarted.after_setup().pending() == pending_of(
            agent.contexts.len() as int,
            agent.finished_with(newly),
        ),
{
    let n = agent.contexts.len() as int;
    lemma_merged_valid(agent.completed, newly, n);
    lemma_keep_valid_fixpoint(agent.finished_with(newly), n);
}

/// Setting up twice is setting up once: where the first call built contexts,
/// a second call succeeds, changes nothing, and asks for no file to be
/// created again.
pub proof fn lemma_setup_is_idempotent(agent: AgentModel)
    requires
        agent.wf(),
        agent.setup_failure() is None,
        agent.after_setup().contexts.len() > 0,
    ensures
        agent.after_setup().setup_failure() is None,
        agent.after_setup().after_setup() == agent.after_setup(),
        agent.after_setup().files_to_create().len() == 0,
        agent.after_setup().contexts == agent.after_ensure().contexts,
{
}

/// The tracker's bounds are set once: where the first call set a byte total,
/// a later call changes nothing, whatever the time.
pub proof fn lemma_bounds_are_set_once(agent: AgentModel, first: u64, second: u64)
    requires
        agent.wf(),
        total_bytes(agent.contexts) > 0,
    ensures
        agent.after_bounds(first).max == total_bytes(agent.contexts),
        agent.after_bounds(first).after_bounds(second) == agent.after_bounds(first),
{
}

/// Preparing a run keeps the agent well formed.
pub proof fn lemma_after_download_wf(agent: AgentModel, now: u64)
    requires
        agent.wf(),
    ensures
        agent.after_ensure().wf(),
        agent.after_setup().wf(),
        agent.after_bounds(now).wf(),
        agent.after_download(now).wf(),
{
    lemma_sum_bounds(context_lengths(agent.contexts));
    if agent.contexts.len() == 0 && agent.setup_failure() is None {
        let built = agent.with_contexts();
        lemma_keep_valid(agent.ledger, built.contexts.len() as int);
        assert forall|i: int| 0 <= i < built.completed.len() implies built.completed[i]
            < built.contexts.len() by {
            assert(built.completed.contains(built.completed[i]));
        }
        lemma_sum_bounds(context_lengths(built.contexts));
        assert(context_lengths(agent.contexts) =~= Seq::<usize>::empty());
    }
    lemma_sum_bounds(context_lengths(agent.after_setup().contexts));
}

/// The agent for one downloadable item.
pub struct GameDownloadAgent {
    id: String,
    version: String,
    control_flag: DownloadThreadControl,
    contexts: Vec<DropDownloadContext>,
    completed_contexts: Vec<usize>,
    manifest: Option<DropManifest>,
    progress: ProgressObject,
    stored_manifest: StoredManifest,
}

impl View for GameDownloadAgent {
    type V = AgentModel;

    closed spec fn view(&self) -> AgentModel {
        AgentModel {
            id: self.id@,
            version: self.version@,
            flag: self.control_flag.flag(),
            contexts: models(self.contexts@),
            completed: self.completed_contexts@,
            manifest: match self.manifest {
                Some(manifest) => Some(manifest.files@),
                None => None,
            },
            max: self.progress.max(),
            counters: self.progress.counters(),
            start: self.progress.start(),
            ledger: self.stored_manifest.completed(),
            ledger_game_id: self.stored_manifest.game_id(),
            ledger_game_version: self.stored_manifest.game_version(),
            base_path: self.stored_manifest.base_path(),
        }
    }
}

impl GameDownloadAgent {
    /// The agent's state is well formed. Every agent is made so and stays so.
    pub open spec fn wf(&self) -> bool {
        self@.wf()
    }

    /// An agent for version `version` of item `id`, installed under
    /// `base_path`, with the resume ledger found there, if one was found.
    /// The agent does not run until it is set up.
    pub fn new(id: String, version: String, base_path: String, found: Option<LedgerRecord>) -> (agent:
        Self)
        ensures
            agent.wf(),
            agent@ == (AgentModel {
                id: id@,
                version: version@,
                flag: DownloadThreadControlFlag::Stop,
                contexts: Seq::empty(),
                completed: Seq::empty(),
                manifest: None,
                max: 0,
                counters: Seq::empty(),
                start: 0,
                ledger: recorded_for(id@, version@, found),
                ledger_game_id: id@,
                ledger_game_version: version@,
                base_path: base_path@,
            }),
    {
        let control_flag = DownloadThreadControl::new(DownloadThreadControlFlag::Stop);
        let stored_manifest = StoredManifest::generate(
            id.clone(),
            version.clone(),
            base_path,
            found,
        );
        let agent = GameDownloadAgent {
            id,
            version,
            control_flag,
            manifest: None,
            contexts: Vec::new(),
            completed_contexts: Vec::new(),
            progress: ProgressObject::new(0, 0),
            stored_manifest,
        };
        proof {
            assert(models(agent.contexts@) =~= Seq::empty());
            assert(agent.progress.counters() =~= Seq::empty());
            assert(context_lengths(Seq::<ContextModel>::empty()) =~= Seq::<usize>::empty());
        }
        agent
    }

    /// Whether the manifest is in memory, and where to fetch it from if not.
    pub fn ensure_manifest_exists(&self) -> (step: ManifestStep)
        ensures
            self@.manifest is Some ==> step is Present,
            self@.manifest is None ==> (step matches ManifestStep::Fetch { path } && path@
                == spec_manifest_path(self@.id, self@.version)),
    {
        if self.manifest.is_some() {
            return ManifestStep::Present;
        }
        ManifestStep::Fetch { path: manifest_path(&self.id, &self.version) }
    }

    /// The server's answer to the manifest request: any status but 200 is a
    /// communication error that carries the status and the body.
    pub fn manifest_status(status: u16, body: String) -> (result: Result<
        (),
        ApplicationDownloadError,
    >)
        ensures
            status == 200 ==> result is Ok,
            status != 200 ==> (result matches Err(
                ApplicationDownloadError::Communication(
                    RemoteAccessError::ManifestDownloadFailed(code, text),
                ),
            ) && code == status && text@ == body@),
    {
        if status != 200 {
            return Err(
                ApplicationDownloadError::Communication(
                    RemoteAccessError::ManifestDownloadFailed(status, body),
                ),
            );
        }
        Ok(())
    }

    /// Keeps `manifest_download` as the agent's manifest, unless it already
    /// has one: a manifest is fetched once and never replaced.
    pub fn download_manifest(&mut self, manifest_download: DropManifest)
        requires
            old(self).wf(),
        ensures
            final(self).wf(),
            old(self)@.manifest is Some ==> final(self)@ == old(self)@,
            old(self)@.manifest is None ==> final(self)@ == (AgentModel {
                manifest: Some(manifest_download.files@),
                ..old(self)@
            }),
    {
        if self.manifest.is_none() {
            self.manifest = Some(manifest_download);
        }
    }

    /// Builds the chunk contexts from the manifest and takes from the resume
    /// ledger the finished chunks that fit them. Returns the files to create.
    ///
    /// Fails, and changes nothing, where there is no manifest or the manifest
    /// cannot be used.
    pub fn generate_contexts(&mut self) -> (result: Result<Vec<FilePlan>, ApplicationDownloadError>)
        requires
            old(self).wf(),
        ensures
            final(self).wf(),
            match setup_error(old(self)@.id, old(self)@.manifest) {
                None => {
                    &&& result matches Ok(plans)
                    &&& plan_models(plans@) == file_sizes(old(self)@.manifest->0)
                    &&& final(self)@ == old(self)@.with_contexts()
                },
                Some(why) => {
                    &&& result == Err::<Vec<FilePlan>, ApplicationDownloadError>(
                        ApplicationDownloadError::Setup(why),
                    )
                    &&& final(self)@ == old(self)@
                },
            },
    {
        let built = match &self.manifest {
            None => {
                return Err(ApplicationDownloadError::Setup(SetupError::ManifestMissing));
            },
            Some(manifest) => build_contexts(manifest, &self.id),
        };
        let (contexts, plans) = match built {
            Ok(pair) => pair,
            Err(why) => {
                return Err(ApplicationDownloadError::Setup(why));
            },
        };
        if total_length(&contexts).is_none() {
            return Err(ApplicationDownloadError::Setup(SetupError::SizeOverflow));
        }
        let completed = self.stored_manifest.get_completed_contexts(contexts.len());
        self.completed_contexts = completed;
        self.contexts = contexts;
        Ok(plans)
    }

    /// Builds the chunk contexts unless they exist already. Where they exist
    /// nothing changes and no file is to be created again.
    pub fn ensure_contexts(&mut self) -> (result: Result<Vec<FilePlan>, ApplicationDownloadError>)
        requires
            old(self).wf(),
        ensures
            final(self).wf(),
            final(self)@ == old(self)@.after_ensure(),
            match old(self)@.setup_failure() {
                None => result matches Ok(plans) && plan_models(plans@)
                    == old(self)@.files_to_create(),
                Some(why) => result == Err::<Vec<FilePlan>, ApplicationDownloadError>(
                    ApplicationDownloadError::Setup(why),
                ),
            },
    {
        if !self.contexts.is_empty() {
            let plans: Vec<FilePlan> = Vec::new();
            assert(plan_models(plans@) =~= Seq::empty());
            return Ok(plans);
        }
        self.generate_contexts()
    }

    /// Makes sure the contexts exist and arms the control flag. Returns the
    /// files to create. Where it fails nothing changes, the flag included.
    pub fn setup_download(&mut self) -> (result: Result<Vec<FilePlan>, ApplicationDownloadError>)
        requires
            old(self).wf(),
        ensures
            final(self).wf(),
            final(self)@ == old(self)@.after_setup(),
            match old(self)@.setup_failure() {
                None => result matches Ok(plans) && plan_models(plans@)
                    == old(self)@.files_to_create(),
                Some(why) => result == Err::<Vec<FilePlan>, ApplicationDownloadError>(
                    ApplicationDownloadError::Setup(why),
                ),
            },
    {
        let plans = match self.ensure_contexts() {
            Ok(plans) => plans,
            Err(e) => {
                return Err(e);
            },
        };
        self.control_flag.set(DownloadThreadControlFlag::Go);
        Ok(plans)
    }

    /// Sets the tracker's bounds from the contexts: one zeroed counter per
    /// chunk, the byte total, and `now` as the start of the run. Where a byte
    /// total is already set nothing changes.
    pub fn set_progress_object_params(&mut self, now: u64)
        requires
            old(self).wf(),
        ensures
            final(self).wf(),
            final(self)@ == old(self)@.after_bounds(now),
    {
        if self.progress.get_max() != 0 {
            return ;
        }
        let length = self.contexts.len();
        let total = match total_length(&self.contexts) {
            Some(total) => total,
            None => {
                return ;
            },
        };
        self.progress.set_size(length);
        self.progress.set_max(total);
        self.progress.set_time_now(now);
    }

    /// The chunks still to fetch, in order: every chunk that is not finished.
    pub fn pending_chunks(&self) -> (pending: Vec<usize>)
        ensures
            pending@ == self@.pending(),
    {
        let mut pending: Vec<usize> = Vec::new();
        let mut index: usize = 0;
        while index < self.contexts.len()
            invariant
                index <= self.contexts@.len(),
                pending@ == pending_of(index as int, self.completed_contexts@),
            decreases self.contexts@.len() - index,
        {
            if !contains_index(&self.completed_contexts, index) {
                pending.push(index);
            }
            index = index + 1;
        }
        pending
    }

    /// Counts every finished chunk in full: the counter of each finished
    /// chunk becomes the chunk's length, so that the total says the same
    /// whether a chunk was fetched in this run or in an earlier one.
    fn credit_completed(&mut self)
        requires
            old(self).wf(),
            old(self)@.counters.len() == old(self)@.contexts.len(),
        ensures
            final(self).wf(),
            final(self)@ == old(self)@.after_credit(),
    {
        let ghost base = self.progress.counters();
        let mut index: usize = 0;
        while index < self.contexts.len()
            invariant
                index <= self.contexts@.len(),
                self.wf(),
                base.len() == self.contexts@.len(),
                self@ == (AgentModel { counters: self@.counters, ..old(self)@ }),
                self@.counters.len() == base.len(),
                base == old(self)@.counters,
                forall|i: int|
                    0 <= i < base.len() ==> self@.counters[i] == if i < index
                        && self@.completed.contains(i as usize) {
                        self@.contexts[i].length as usize
                    } else {
                        base[i]
                    },
            decreases self.contexts@.len() - index,
        {
            if contains_index(&self.completed_contexts, index) {
                self.progress.apply(index, ProgressUpdate::Replace(self.contexts[index].length));
            }
            index = index + 1;
        }
        proof {
            assert(self@.counters =~= credited(base, self@.contexts, self@.completed));
        }
    }

    /// Prepares a run: sets up, sets the tracker's bounds if they are not set,
    /// counts every finished chunk in full, and lists the files to create and
    /// the chunks to fetch.
    ///
    /// Where setting up fails nothing changes.
    pub fn download(&mut self, now: u64) -> (result: Result<DownloadPlan, ApplicationDownloadError>)
        requires
            old(self).wf(),
        ensures
            final(self).wf(),
            final(self)@ == old(self)@.after_download(now),
            match old(self)@.setup_failure() {
                None => {
                    &&& result matches Ok(plan)
                    &&& plan_models(plan.files@) == old(self)@.files_to_create()
                    &&& plan.pending@ == final(self)@.pending()
                },
                Some(why) => result == Err::<DownloadPlan, ApplicationDownloadError>(
                    ApplicationDownloadError::Setup(why),
                ),
            },
    {
        let files = match self.setup_download() {
            Ok(files) => files,
            Err(e) => {
                return Err(e);
            },
        };
        self.set_progress_object_params(now);
        self.credit_completed();
        let pending = self.pending_chunks();
        Ok(DownloadPlan { files, pending })
    }

    /// Takes in the chunks that were finished in a run.
    ///
    /// They join the finished chunks. If no chunk is missing after that, the
    /// completion is to be signalled. Otherwise the finished chunks are
    /// recorded in the resume ledger, which is handed back to be written to
    /// disk, and no completion is signalled.
    pub fn run(&mut self, newly_completed: &Vec<usize>) -> (outcome: RunOutcome)
        requires
            old(self).wf(),
        ensures
            final(self).wf(),
            final(self)@ == old(self)@.after_run(newly_completed@),
            old(self)@.complete_with(newly_completed@) ==> {
                &&& outcome.signal matches Some(DownloadManagerSignal::Completed(id))
                &&& id@ == old(self)@.id
                &&& outcome.persist is None
            },
            !old(self)@.complete_with(newly_completed@) ==> {
                &&& outcome.signal is None
                &&& outcome.persist matches Some(record)
                &&& record.game_id@ == old(self)@.id
                &&& record.game_version@ == old(self)@.version
                &&& record.completed_contexts@ == old(self)@.finished_with(newly_completed@)
            },
    {
        let ghost chunk_count = self.contexts@.len() as int;
        let chunk_total = self.contexts.len();
        let mut i: usize = 0;
        assert(newly_completed@.subrange(0, 0) =~= Seq::empty());
        while i < newly_completed.len()
            invariant
                i <= newly_completed@.len(),
                chunk_count == self.contexts@.len(),
                chunk_total == chunk_count,
                self.wf(),
                self@ == (AgentModel {
                    completed: merged(
                        old(self)@.completed,
                        newly_completed@.subrange(0, i as int),
                        chunk_count,
                    ),
                    ..old(self)@
                }),
            decreases newly_completed@.len() - i,
        {
            let index = newly_completed[i];
            proof {
                let next = newly_completed@.subrange(0, i + 1);
                assert(next.drop_last() =~= newly_completed@.subrange(0, i as int));
                assert(next.last() == index);
            }
            if index < chunk_total && !contains_index(&self.completed_contexts, index) {
                let ghost finished = self.completed_contexts@;
                self.completed_contexts.push(index);
                proof {
                    assert forall|a: int, b: int|
                        0 <= a < b < self.completed_contexts@.len() implies self.completed_contexts@[a]
                        != self.completed_contexts@[b] by {
                        if b == finished.len() {
                            assert(finished.contains(finished[a]));
                        }
                    }
                }
            }
            i = i + 1;
        }
        assert(newly_completed@.subrange(0, i as int) =~= newly_completed@);
        if self.completed_contexts.len() != self.contexts.len() {
            self.stored_manifest.set_completed_contexts(&self.completed_contexts);
            return RunOutcome { signal: None, persist: Some(self.stored_manifest.record()) };
        }
        RunOutcome {
            signal: Some(DownloadManagerSignal::Completed(self.id.clone())),
            persist: None,
        }
    }

    /// The id of the item.
    pub fn id(&self) -> (id: String)
        ensures
            id@ == self@.id,
    {
        self.id.clone()
    }

    /// The version being fetched.
    pub fn version(&self) -> (version: String)
        ensures
            version@ == self@.version,
    {
        self.version.clone()
    }

    /// The progress tracker.
    pub fn progress(&self) -> (progress: &ProgressObject)
        ensures
            progress.max() == self@.max,
            progress.counters() == self@.counters,
            progress.start() == self@.start,
    {
        &self.progress
    }

    /// The control flag as it stands.
    pub fn control_flag(&self) -> (control: DownloadThreadControl)
        ensures
            control.flag() == self@.flag,
    {
        self.control_flag
    }

    /// Installs a new control state: this is how a run is stopped from outside.
    pub fn set_control_flag(&mut self, flag: DownloadThreadControlFlag)
        requires
            old(self).wf(),
        ensures
            final(self).wf(),
            final(self)@ == (AgentModel { flag, ..old(self)@ }),
    {
        self.control_flag.set(flag);
    }

    /// The directory the item is installed in.
    pub fn install_dir(&self) -> (path: String)
        ensures
            path@ == self@.base_path,
    {
        self.stored_manifest.install_dir()
    }

    /// The chunk contexts, in manifest order.
    pub fn contexts(&self) -> (contexts: &Vec<DropDownloadContext>)
        ensures
            models(contexts@) == self@.contexts,
    {
        &self.contexts
    }

    /// The finished chunks, by position among the contexts.
    pub fn completed_contexts(&self) -> (completed: &Vec<usize>)
        ensures
            completed@ == self@.completed,
    {
        &self.completed_contexts
    }

    /// Applies a worker's progress update to the counter of chunk `index`.
    /// An update for a chunk that has no counter changes nothing.
    pub fn report_progress(&mut self, index: usize, update: ProgressUpdate)
        requires
            old(self).wf(),
        ensures
            final(self).wf(),
            final(self)@ == (AgentModel {
                counters: if index < old(self)@.counters.len() {
                    old(self)@.counters.update(
                        index as int,
                        update.apply(old(self)@.counters[index as int]),
                    )
                } else {
                    old(self)@.counters
                },
                ..old(self)@
            }),
    {
        if index < self.progress.get_size() {
            self.progress.apply(index, update);
        }
    }
}

} // verus!
