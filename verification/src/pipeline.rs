//! The batch pipeline: per-item phase machine, shared accounting, and
//! aggregation.
//!
//! One pipeline value drives one batch. The surrounding process plumbing
//! performs the outside work — checking the store, holding a real semaphore
//! permit, running the external generator — and reports each result back
//! through a transition. Every transition keeps the pipeline well formed:
//! the generation limiter never has more permits out than its capacity, at most `fan_out`
//! item tasks are active at once, and every item contributes exactly one
//! completion record and one progress event.
//!
//! An item moves `Pending -> CheckingStore -> (Done | AwaitingPermit ->
//! Generating -> Done)`; no transition leaves `Done`.

use vstd::prelude::*;
use vstd::string::StringExecFns;
use crate::counts::{
    PhaseClass, count_class, in_class, lemma_count_class_full, lemma_count_class_le_len,
    lemma_count_class_none, lemma_count_class_pos, lemma_count_class_update,
};
use crate::gate::Gate;
use crate::generator::GenerateRequest;
use crate::paths::{artifact_location, artifact_location_spec, join_path, joined_path};
use crate::progress::{CompletionEvent, ProgressEvent, ProgressTracker};

verus! {

/// Where one item stands in its life cycle.
#[derive(Clone, Copy, Debug, PartialEq, Eq, Structural)]
pub enum Phase {
    /// Not yet picked up by a task.
    Pending,
    /// A task is checking whether the artifact already exists.
    CheckingStore,
    /// The artifact is missing; the task is waiting for a gate permit.
    AwaitingPermit,
    /// The external generator is running for this item.
    Generating,
    /// The item has resolved, by skip or by generation.
    Done,
}

/// The pipeline's record of one item.
#[derive(Debug)]
pub struct ItemState {
    /// The item's identifier: the source filename.
    pub name: String,
    /// Where the item stands.
    pub phase: Phase,
    /// What the store check reported, once it was made.
    pub store_result: Option<bool>,
    /// Whether generation was ever invoked for this item.
    pub generated: bool,
}

/// The outcome of one item, as folded into the batch result.
#[derive(Debug)]
pub enum Outcome {
    /// The artifact stands at `location`, pre-existing or freshly generated.
    Success { location: String },
    /// Generation failed for the stated reason.
    Failure { reason: String },
}

impl Outcome {
    /// The artifact location of a successful outcome.
    pub open spec fn location_view(self) -> Seq<char>
        recommends
            self is Success,
    {
        self->Success_location@
    }

    /// The reason of a failed outcome.
    pub open spec fn reason_view(self) -> Seq<char>
        recommends
            self is Failure,
    {
        self->Failure_reason@
    }
}

/// One completion, in the order completions happened.
#[derive(Debug)]
pub struct CompletionRecord {
    /// Index of the item in the batch's submission order.
    pub index: usize,
    /// How the item resolved.
    pub outcome: Outcome,
}

/// Every record so far is a success.
pub open spec fn all_succeeded(log: Seq<CompletionRecord>) -> bool {
    forall|j: int| 0 <= j < log.len() ==> log[j].outcome is Success
}

/// The reason of the first failure in completion order.
pub open spec fn first_failure_reason(log: Seq<CompletionRecord>) -> Seq<char>
    decreases log.len(),
{
    if log.len() == 0 {
        Seq::empty()
    } else if log[0].outcome is Failure {
        log[0].outcome.reason_view()
    } else {
        first_failure_reason(log.drop_first())
    }
}

/// If everything before `k` succeeded and `k` failed, `k`'s reason is the
/// first failure's reason.
proof fn lemma_first_failure_at(log: Seq<CompletionRecord>, k: int)
    requires
        0 <= k < log.len(),
        log[k].outcome is Failure,
        forall|j: int| 0 <= j < k ==> log[j].outcome is Success,
    ensures
        first_failure_reason(log) == log[k].outcome.reason_view(),
    decreases k,
{
    if k > 0 {
        assert(forall|j: int| 0 <= j < k - 1 ==> log.drop_first()[j] == log[j + 1]);
        lemma_first_failure_at(log.drop_first(), k - 1);
    }
}

/// Folds a completion log into the batch result: the locations in
/// completion order when every item succeeded, otherwise the first
/// failure's reason.
pub fn aggregate(log: &Vec<CompletionRecord>) -> (r: Result<Vec<String>, String>)
    ensures
        r is Ok <==> all_succeeded(log@),
        r matches Ok(locs) ==> {
            &&& locs@.len() == log@.len()
            &&& forall|j: int| 0 <= j < log@.len() ==> locs@[j]@ == log@[j].outcome.location_view()
        },
        r matches Err(e) ==> e@ == first_failure_reason(log@),
{
    let mut locs: Vec<String> = Vec::new();
    let mut k: usize = 0;
    while k < log.len()
        invariant
            k <= log@.len(),
            locs@.len() == k,
            forall|j: int| 0 <= j < k ==> log@[j].outcome is Success,
            forall|j: int| 0 <= j < k ==> locs@[j]@ == log@[j].outcome.location_view(),
        decreases log@.len() - k,
    {
        match &log[k].outcome {
            Outcome::Success { location } => {
                locs.push(String::from_str(location.as_str()));
            },
            Outcome::Failure { reason } => {
                proof {
                    lemma_first_failure_at(log@, k as int);
                }
                return Err(String::from_str(reason.as_str()));
            },
        }
        k = k + 1;
    }
    Ok(locs)
}

/// The pipeline driving one batch.
pub struct BatchPipeline {
    /// The batch's items, in submission order.
    pub items: Vec<ItemState>,
    /// Completions, in the order they happened.
    pub log: Vec<CompletionRecord>,
    /// The limiter on simultaneous external generations.
    pub gate: Gate,
    /// The batch's progress state.
    pub progress: ProgressTracker,
    /// The bound on concurrently active item tasks.
    pub fan_out: usize,
    /// How many item tasks are currently active.
    pub active: usize,
    /// Whether the batch-completion event has been handed out.
    pub completion_emitted: bool,
    /// Directory the source files live in.
    pub source_dir: String,
    /// Directory the artifacts are written to.
    pub output_dir: String,
    /// Where each done item's completion record stands in the log:
    /// bookkeeping for the exactly-once accounting.
    pub rec_at: Ghost<Map<int, int>>,
}

/// Per-item consistency between phase, store check, and generation.
pub open spec fn item_wf(it: ItemState) -> bool {
    &&& it.generated ==> it.store_result == Some(false)
    &&& it.phase is Pending ==> it.store_result is None && !it.generated
    &&& it.phase is CheckingStore ==> it.store_result is None && !it.generated
    &&& it.phase is AwaitingPermit ==> it.store_result == Some(false) && !it.generated
    &&& it.phase is Generating ==> it.store_result == Some(false) && it.generated
}

/// Frame of a transition that touches item `i` alone: every other item, the
/// item's name, and the pipeline's fixed configuration are unchanged.
pub open spec fn steps_one_item(pre: BatchPipeline, post: BatchPipeline, i: int) -> bool {
    &&& post.items@.len() == pre.items@.len()
    &&& forall|k: int| 0 <= k < pre.items@.len() && k != i ==> post.items@[k] == pre.items@[k]
    &&& post.items@[i].name == pre.items@[i].name
    &&& post.fan_out == pre.fan_out
    &&& post.gate.capacity == pre.gate.capacity
    &&& post.progress.total == pre.progress.total
    &&& post.completion_emitted == pre.completion_emitted
    &&& post.source_dir == pre.source_dir
    &&& post.output_dir == pre.output_dir
}

impl BatchPipeline {
    /// The pipeline's invariant, kept by every transition.
    pub open spec fn wf(self) -> bool {
        &&& self.progress.total == self.items@.len()
        &&& self.progress.completed == self.log@.len()
        &&& self.log@.len() == count_class(self.items@, PhaseClass::Done)
        &&& self.gate.in_use == count_class(self.items@, PhaseClass::Generating)
        &&& self.gate.wf()
        &&& self.active == count_class(self.items@, PhaseClass::Active)
        &&& self.active <= self.fan_out
        &&& forall|j: int|
            0 <= j < self.log@.len() ==> (#[trigger] self.log@[j]).index < self.items@.len()
                && self.items@[self.log@[j].index as int].phase is Done
        &&& forall|i: int|
            #![trigger self.rec_at@[i]]
            0 <= i < self.items@.len() && self.items@[i].phase is Done
                ==> self.rec_at@.contains_key(i) && 0 <= self.rec_at@[i] < self.log@.len()
                    && self.log@[self.rec_at@[i]].index == i
        &&& forall|j1: int, j2: int|
            0 <= j1 < j2 < self.log@.len() ==> (#[trigger] self.log@[j1]).index != (
            #[trigger] self.log@[j2]).index
        &&& forall|i: int| 0 <= i < self.items@.len() ==> item_wf(#[trigger] self.items@[i])
    }

    /// Every item has reached its terminal phase.
    pub open spec fn all_done(self) -> bool {
        count_class(self.items@, PhaseClass::Done) == self.items@.len()
    }

    /// A fresh pipeline over `names`: all items pending, nothing completed,
    /// no permit out, no task active.
    pub fn new(
        names: Vec<String>,
        source_dir: String,
        output_dir: String,
        gate_capacity: usize,
        fan_out: usize,
    ) -> (p: BatchPipeline)
        ensures
            p.wf(),
            p.items@.len() == names@.len(),
            forall|i: int|
                0 <= i < names@.len() ==> {
                    &&& (#[trigger] p.items@[i]).name@ == names@[i]@
                    &&& p.items@[i].phase is Pending
                    &&& p.items@[i].store_result is None
                    &&& !p.items@[i].generated
                },
            p.progress.total == names@.len(),
            p.progress.completed == 0,
            p.log@.len() == 0,
            p.gate.capacity == gate_capacity,
            p.gate.in_use == 0,
            p.fan_out == fan_out,
            p.active == 0,
            !p.completion_emitted,
            p.source_dir == source_dir,
            p.output_dir == output_dir,
    {
        let total = names.len();
        let mut items: Vec<ItemState> = Vec::new();
        let mut i: usize = 0;
        while i < names.len()
            invariant
                i <= names@.len(),
                items@.len() == i,
                forall|k: int|
                    0 <= k < i ==> {
                        &&& (#[trigger] items@[k]).name@ == names@[k]@
                        &&& items@[k].phase is Pending
                        &&& items@[k].store_result is None
                        &&& !items@[k].generated
                    },
            decreases names@.len() - i,
        {
            items.push(
                ItemState {
                    name: names[i].clone(),
                    phase: Phase::Pending,
                    store_result: None,
                    generated: false,
                },
            );
            i = i + 1;
        }
        proof {
            lemma_count_class_none(items@, PhaseClass::Done);
            lemma_count_class_none(items@, PhaseClass::Generating);
            lemma_count_class_none(items@, PhaseClass::Active);
        }
        BatchPipeline {
            items,
            log: Vec::new(),
            gate: Gate::new(gate_capacity),
            progress: ProgressTracker::new(total),
            fan_out,
            active: 0,
            completion_emitted: false,
            source_dir,
            output_dir,
            rec_at: Ghost(Map::empty()),
        }
    }

    /// Picks up a pending item, under the fan-out bound: the item moves to
    /// the store check, and the returned location is what the store must be
    /// checked for.
    pub fn start_item(&mut self, i: usize) -> (loc: String)
        requires
            old(self).wf(),
            i < old(self).items@.len(),
            old(self).items@[i as int].phase is Pending,
            old(self).active < old(self).fan_out,
        ensures
            final(self).wf(),
            steps_one_item(*old(self), *final(self), i as int),
            final(self).items@[i as int].phase is CheckingStore,
            final(self).items@[i as int].store_result is None,
            !final(self).items@[i as int].generated,
            final(self).gate == old(self).gate,
            final(self).progress == old(self).progress,
            final(self).log == old(self).log,
            final(self).active == old(self).active + 1,
            loc@ == artifact_location_spec(
                old(self).output_dir@,
                old(self).items@[i as int].name@,
            ),
    {
        let loc = artifact_location(self.output_dir.as_str(), self.items[i].name.as_str());
        self.items[i].phase = Phase::CheckingStore;
        self.active = self.active + 1;
        proof {
            let pre = *old(self);
            let it = self.items@[i as int];
            assert(self.items@ =~= pre.items@.update(i as int, it));
            lemma_count_class_update(pre.items@, PhaseClass::Done, i as int, it);
            lemma_count_class_update(pre.items@, PhaseClass::Generating, i as int, it);
            lemma_count_class_update(pre.items@, PhaseClass::Active, i as int, it);
            assert forall|j: int| 0 <= j < self.log@.len() implies (#[trigger] self.log@[j]).index
                < self.items@.len() && self.items@[self.log@[j].index as int].phase is Done by {
                assert(pre.log@[j].index != i);
            }
        }
        loc
    }

    /// Applies the store check's answer. A positive answer resolves the item
    /// at once — generation is skipped, the completion is recorded, and a
    /// progress snapshot comes back for emission. A negative answer moves the
    /// item to waiting for a gate permit.
    pub fn on_store_checked(&mut self, i: usize, found: bool) -> (ev: Option<ProgressEvent>)
        requires
            old(self).wf(),
            i < old(self).items@.len(),
            old(self).items@[i as int].phase is CheckingStore,
        ensures
            final(self).wf(),
            steps_one_item(*old(self), *final(self), i as int),
            final(self).items@[i as int].store_result == Some(found),
            !final(self).items@[i as int].generated,
            final(self).gate == old(self).gate,
            found ==> {
                &&& final(self).items@[i as int].phase is Done
                &&& final(self).active == old(self).active - 1
                &&& final(self).progress.completed == old(self).progress.completed + 1
                &&& final(self).log@.len() == old(self).log@.len() + 1
                &&& forall|j: int|
                    0 <= j < old(self).log@.len() ==> final(self).log@[j] == old(self).log@[j]
                &&& final(self).log@.last().index == i
                &&& final(self).log@.last().outcome is Success
                &&& final(self).log@.last().outcome.location_view() == artifact_location_spec(
                    old(self).output_dir@,
                    old(self).items@[i as int].name@,
                )
                &&& ev matches Some(e) && e.total == old(self).progress.total && e.completed
                    == old(self).progress.completed + 1 && e.current_item@ == old(
                    self,
                ).items@[i as int].name@
            },
            !found ==> {
                &&& final(self).items@[i as int].phase is AwaitingPermit
                &&& final(self).active == old(self).active
                &&& final(self).progress == old(self).progress
                &&& final(self).log == old(self).log
                &&& ev is None
            },
    {
        if found {
            let name = self.items[i].name.clone();
            let loc = artifact_location(self.output_dir.as_str(), name.as_str());
            self.items[i].phase = Phase::Done;
            self.items[i].store_result = Some(true);
            proof {
                let pre = *old(self);
                let it = self.items@[i as int];
                assert(self.items@ =~= pre.items@.update(i as int, it));
                lemma_count_class_update(pre.items@, PhaseClass::Done, i as int, it);
                lemma_count_class_update(pre.items@, PhaseClass::Generating, i as int, it);
                lemma_count_class_update(pre.items@, PhaseClass::Active, i as int, it);
                lemma_count_class_pos(pre.items@, PhaseClass::Active, i as int);
                lemma_count_class_le_len(pre.items@, PhaseClass::Done);
                // The item was not yet done, so the batch was not complete.
                if pre.progress.completed == pre.progress.total {
                    lemma_count_class_full(pre.items@, PhaseClass::Done);
                    assert(in_class(pre.items@[i as int].phase, PhaseClass::Done));
                }
            }
            let ev = self.progress.record_completion(name.as_str());
            self.log.push(CompletionRecord { index: i, outcome: Outcome::Success { location: loc } });
            self.active = self.active - 1;
            self.rec_at = Ghost(self.rec_at@.insert(i as int, old(self).log@.len() as int));
            proof {
                self.lemma_log_extended(*old(self), i as int);
            }
            Some(ev)
        } else {
            self.items[i].phase = Phase::AwaitingPermit;
            self.items[i].store_result = Some(false);
            proof {
                let pre = *old(self);
                let it = self.items@[i as int];
                assert(self.items@ =~= pre.items@.update(i as int, it));
                lemma_count_class_update(pre.items@, PhaseClass::Done, i as int, it);
                lemma_count_class_update(pre.items@, PhaseClass::Generating, i as int, it);
                lemma_count_class_update(pre.items@, PhaseClass::Active, i as int, it);
                assert forall|j: int| 0 <= j < self.log@.len() implies (
                #[trigger] self.log@[j]).index < self.items@.len()
                    && self.items@[self.log@[j].index as int].phase is Done by {
                    assert(pre.log@[j].index != i);
                }
            }
            None
        }
    }

    /// Shared argument for the two completing transitions: with item `i`
    /// freshly done and its record pushed, the log invariants still hold.
    proof fn lemma_log_extended(self, pre: BatchPipeline, i: int)
        requires
            pre.wf(),
            0 <= i < pre.items@.len(),
            !(pre.items@[i].phase is Done),
            self.items@.len() == pre.items@.len(),
            forall|k: int| 0 <= k < pre.items@.len() && k != i ==> self.items@[k] == pre.items@[k],
            self.items@[i].phase is Done,
            self.log@.len() == pre.log@.len() + 1,
            forall|j: int| 0 <= j < pre.log@.len() ==> self.log@[j] == pre.log@[j],
            self.log@.last().index == i,
            self.rec_at@ == pre.rec_at@.insert(i, pre.log@.len() as int),
        ensures
            forall|j: int|
                0 <= j < self.log@.len() ==> (#[trigger] self.log@[j]).index < self.items@.len()
                    && self.items@[self.log@[j].index as int].phase is Done,
            forall|k: int|
                #![trigger self.rec_at@[k]]
                0 <= k < self.items@.len() && self.items@[k].phase is Done
                    ==> self.rec_at@.contains_key(k) && 0 <= self.rec_at@[k] < self.log@.len()
                        && self.log@[self.rec_at@[k]].index == k,
            forall|j1: int, j2: int|
                0 <= j1 < j2 < self.log@.len() ==> (#[trigger] self.log@[j1]).index != (
                #[trigger] self.log@[j2]).index,
    {
        assert forall|j: int| 0 <= j < self.log@.len() implies (#[trigger] self.log@[j]).index
            < self.items@.len() && self.items@[self.log@[j].index as int].phase is Done by {
            if j < pre.log@.len() {
                assert(pre.log@[j].index != i);
            }
        }
        assert forall|k: int|
            #![trigger self.rec_at@[k]]
            0 <= k < self.items@.len() && self.items@[k].phase is Done implies self
            .rec_at@.contains_key(k) && 0 <= self.rec_at@[k] < self.log@.len()
            && self.log@[self.rec_at@[k]].index == k by {
            if k == i {
                assert(self.rec_at@[k] == pre.log@.len());
            } else {
                assert(pre.items@[k].phase is Done);
                assert(self.rec_at@[k] == pre.rec_at@[k]);
                assert(self.log@[pre.rec_at@[k]] == pre.log@[pre.rec_at@[k]]);
            }
        }
        assert forall|j1: int, j2: int| 0 <= j1 < j2 < self.log@.len() implies (
        #[trigger] self.log@[j1]).index != (#[trigger] self.log@[j2]).index by {
            if j2 == self.log@.len() - 1 {
                assert(pre.log@[j1].index != i);
            }
        }
    }

    /// Takes the granted gate permit and starts generation: the returned
    /// request names the source file and the artifact target to hand to the
    /// external generator.
    pub fn on_permit_granted(&mut self, i: usize) -> (req: GenerateRequest)
        requires
            old(self).wf(),
            i < old(self).items@.len(),
            old(self).items@[i as int].phase is AwaitingPermit,
            old(self).gate.has_free_slot(),
        ensures
            final(self).wf(),
            steps_one_item(*old(self), *final(self), i as int),
            final(self).items@[i as int].phase is Generating,
            final(self).items@[i as int].store_result == Some(false),
            final(self).items@[i as int].generated,
            final(self).gate.in_use == old(self).gate.in_use + 1,
            final(self).progress == old(self).progress,
            final(self).log == old(self).log,
            final(self).active == old(self).active,
            req.source@ == joined_path(old(self).source_dir@, old(self).items@[i as int].name@),
            req.output@ == artifact_location_spec(
                old(self).output_dir@,
                old(self).items@[i as int].name@,
            ),
    {
        let source = join_path(self.source_dir.as_str(), self.items[i].name.as_str());
        let output = artifact_location(self.output_dir.as_str(), self.items[i].name.as_str());
        self.items[i].phase = Phase::Generating;
        self.items[i].generated = true;
        self.gate.acquire();
        proof {
            let pre = *old(self);
            let it = self.items@[i as int];
            assert(self.items@ =~= pre.items@.update(i as int, it));
            lemma_count_class_update(pre.items@, PhaseClass::Done, i as int, it);
            lemma_count_class_update(pre.items@, PhaseClass::Generating, i as int, it);
            lemma_count_class_update(pre.items@, PhaseClass::Active, i as int, it);
            assert forall|j: int| 0 <= j < self.log@.len() implies (#[trigger] self.log@[j]).index
                < self.items@.len() && self.items@[self.log@[j].index as int].phase is Done by {
                assert(pre.log@[j].index != i);
            }
        }
        GenerateRequest { source, output }
    }

    /// Applies the external generator's outcome. The held permit is given
    /// back unconditionally — success or failure — then the completion is
    /// recorded and a progress snapshot comes back for emission.
    pub fn on_generation_done(&mut self, i: usize, ok: bool, reason: String) -> (ev: ProgressEvent)
        requires
            old(self).wf(),
            i < old(self).items@.len(),
            old(self).items@[i as int].phase is Generating,
        ensures
            final(self).wf(),
            steps_one_item(*old(self), *final(self), i as int),
            final(self).items@[i as int].phase is Done,
            final(self).items@[i as int].store_result == Some(false),
            final(self).items@[i as int].generated,
            final(self).gate.in_use == old(self).gate.in_use - 1,
            final(self).active == old(self).active - 1,
            final(self).progress.completed == old(self).progress.completed + 1,
            final(self).log@.len() == old(self).log@.len() + 1,
            forall|j: int|
                0 <= j < old(self).log@.len() ==> final(self).log@[j] == old(self).log@[j],
            final(self).log@.last().index == i,
            ok ==> final(self).log@.last().outcome is Success
                && final(self).log@.last().outcome.location_view() == artifact_location_spec(
                old(self).output_dir@,
                old(self).items@[i as int].name@,
            ),
            !ok ==> final(self).log@.last().outcome is Failure
                && final(self).log@.last().outcome.reason_view() == reason@,
            ev.total == old(self).progress.total,
            ev.completed == old(self).progress.completed + 1,
            ev.current_item@ == old(self).items@[i as int].name@,
    {
        let name = self.items[i].name.clone();
        let outcome = if ok {
            let loc = artifact_location(self.output_dir.as_str(), name.as_str());
            Outcome::Success { location: loc }
        } else {
            Outcome::Failure { reason }
        };
        proof {
            lemma_count_class_pos(old(self).items@, PhaseClass::Generating, i as int);
            lemma_count_class_pos(old(self).items@, PhaseClass::Active, i as int);
        }
        self.gate.release();
        self.items[i].phase = Phase::Done;
        proof {
            let pre = *old(self);
            let it = self.items@[i as int];
            assert(self.items@ =~= pre.items@.update(i as int, it));
            lemma_count_class_update(pre.items@, PhaseClass::Done, i as int, it);
            lemma_count_class_update(pre.items@, PhaseClass::Generating, i as int, it);
            lemma_count_class_update(pre.items@, PhaseClass::Active, i as int, it);
            lemma_count_class_le_len(pre.items@, PhaseClass::Done);
            if pre.progress.completed == pre.progress.total {
                lemma_count_class_full(pre.items@, PhaseClass::Done);
                assert(in_class(pre.items@[i as int].phase, PhaseClass::Done));
            }
        }
        let ev = self.progress.record_completion(name.as_str());
        self.log.push(CompletionRecord { index: i, outcome });
        self.active = self.active - 1;
        self.rec_at = Ghost(self.rec_at@.insert(i as int, old(self).log@.len() as int));
        proof {
            self.lemma_log_extended(*old(self), i as int);
        }
        ev
    }

    /// Whether the batch has resolved: every item reached its terminal phase.
    pub fn is_finished(&self) -> (b: bool)
        requires
            self.wf(),
        ensures
            b == self.all_done(),
    {
        self.progress.completed == self.progress.total
    }

    /// Resolves the batch once every item is done: hands out the one
    /// batch-completion event and the aggregated result — the artifact
    /// locations in completion order if every item succeeded, otherwise the
    /// first failure.
    pub fn finish(&mut self) -> (r: (CompletionEvent, Result<Vec<String>, String>))
        requires
            old(self).wf(),
            old(self).all_done(),
            !old(self).completion_emitted,
        ensures
            final(self).wf(),
            final(self).completion_emitted,
            final(self).items == old(self).items,
            final(self).log == old(self).log,
            final(self).gate == old(self).gate,
            final(self).progress == old(self).progress,
            final(self).active == old(self).active,
            final(self).fan_out == old(self).fan_out,
            r.0.total == old(self).progress.total,
            r.1 is Ok <==> all_succeeded(old(self).log@),
            r.1 matches Ok(locs) ==> {
                &&& locs@.len() == old(self).log@.len()
                &&& forall|j: int|
                    0 <= j < old(self).log@.len() ==> locs@[j]@ == old(
                        self,
                    ).log@[j].outcome.location_view()
            },
            r.1 matches Err(e) ==> e@ == first_failure_reason(old(self).log@),
    {
        self.completion_emitted = true;
        let result = aggregate(&self.log);
        (CompletionEvent { total: self.progress.total }, result)
    }
}

/// An empty batch is complete from the start: `finish` may be called at
/// once, and by `aggregate`'s contract it yields the empty successful
/// result and the one completion event.
pub proof fn lemma_empty_batch_done(p: BatchPipeline)
    requires
        p.wf(),
        p.items@.len() == 0,
    ensures
        p.all_done(),
{
}

/// Progress is accounted exactly once per item: once every item of a
/// well-formed pipeline is done, the completed count equals the total, the
/// log holds one record per item, each item's index appears in the log —
/// and at most once. Since every completion handed out exactly one progress
/// snapshot, the observer saw exactly `total` progress events.
pub proof fn lemma_progress_exactly_once(p: BatchPipeline)
    requires
        p.wf(),
        p.all_done(),
    ensures
        p.progress.completed == p.progress.total,
        p.log@.len() == p.items@.len(),
        forall|i: int|
            #![trigger p.rec_at@[i]]
            0 <= i < p.items@.len() ==> p.rec_at@.contains_key(i) && 0 <= p.rec_at@[i]
                < p.log@.len() && p.log@[p.rec_at@[i]].index == i,
        forall|j1: int, j2: int|
            0 <= j1 < j2 < p.log@.len() ==> (#[trigger] p.log@[j1]).index != (
            #[trigger] p.log@[j2]).index,
{
    lemma_count_class_full(p.items@, PhaseClass::Done);
    assert forall|i: int| #![trigger p.rec_at@[i]] 0 <= i < p.items@.len() implies p.rec_at@
        .contains_key(i) && 0 <= p.rec_at@[i] < p.log@.len() && p.log@[p.rec_at@[i]].index
        == i by {
        assert(in_class(p.items@[i].phase, PhaseClass::Done));
    }
}

/// An item whose artifact already existed never has generation invoked:
/// a positive store check resolves the item without a generator call.
pub proof fn lemma_preexisting_item_never_generated(p: BatchPipeline, i: int)
    requires
        p.wf(),
        0 <= i < p.items@.len(),
        p.items@[i].store_result == Some(true),
    ensures
        !p.items@[i].generated,
{
}

/// Concurrently running external generations never exceed the generation
/// limiter's capacity.
pub proof fn lemma_generation_bounded_by_gate(p: BatchPipeline)
    requires
        p.wf(),
    ensures
        count_class(p.items@, PhaseClass::Generating) <= p.gate.capacity,
{
}

/// Concurrently active item tasks never exceed the fan-out width.
pub proof fn lemma_tasks_bounded_by_fan_out(p: BatchPipeline)
    requires
        p.wf(),
    ensures
        count_class(p.items@, PhaseClass::Active) <= p.fan_out,
{
}

/// A run over artifacts that all pre-exist — a re-run of a finished batch —
/// invokes generation for no item: if no store check came back negative,
/// nothing was ever generated.
pub proof fn lemma_rerun_generates_nothing(p: BatchPipeline)
    requires
        p.wf(),
        forall|i: int| 0 <= i < p.items@.len() ==> (#[trigger] p.items@[i]).store_result != Some(
            false,
        ),
    ensures
        forall|i: int| 0 <= i < p.items@.len() ==> !(#[trigger] p.items@[i]).generated,
{
}

} // verus!

