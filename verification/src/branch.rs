//! The branch of the shared pipeline that serves one peer: how it is set up and
//! how it is taken down.

use vstd::prelude::*;

use crate::lemmas::lemma_last_contains;

verus! {

/// One step of setting up a branch. The steps are performed in the order in which
/// they stand here.
#[derive(Debug, Clone, Copy, PartialEq, Eq, Structural)]
pub enum AttachStep {
    /// Request a source pad of the element that fans the stream out.
    RequestTeePad,
    /// Create the queue.
    MakeQueue,
    /// Create the WebRTC element.
    MakeWebrtcbin,
    /// Add both elements to the pipeline.
    AddElements,
    /// Find the source pad of the queue.
    FindQueueSource,
    /// Request a sink pad of the WebRTC element.
    RequestWebrtcSink,
    /// Link the queue to the WebRTC element.
    LinkQueue,
    /// Connect the handlers of the WebRTC element.
    Configure,
    /// Bring the queue to the state of the pipeline.
    SyncQueue,
    /// Bring the WebRTC element to the state of the pipeline.
    SyncWebrtcbin,
    /// Find the sink pad of the queue.
    FindQueueSink,
    /// Link the pad of the fan-out to the queue: from here on data flows.
    LinkTee,
    /// Ask the encoder for a key frame.
    ForceKeyUnit,
}

/// The place of a step in the order.
pub open spec fn rank(step: AttachStep) -> int {
    match step {
        AttachStep::RequestTeePad => 0,
        AttachStep::MakeQueue => 1,
        AttachStep::MakeWebrtcbin => 2,
        AttachStep::AddElements => 3,
        AttachStep::FindQueueSource => 4,
        AttachStep::RequestWebrtcSink => 5,
        AttachStep::LinkQueue => 6,
        AttachStep::Configure => 7,
        AttachStep::SyncQueue => 8,
        AttachStep::SyncWebrtcbin => 9,
        AttachStep::FindQueueSink => 10,
        AttachStep::LinkTee => 11,
        AttachStep::ForceKeyUnit => 12,
    }
}

/// The step that follows, or `None` after the last.
pub open spec fn next_step(step: AttachStep) -> Option<AttachStep> {
    match step {
        AttachStep::RequestTeePad => Some(AttachStep::MakeQueue),
        AttachStep::MakeQueue => Some(AttachStep::MakeWebrtcbin),
        AttachStep::MakeWebrtcbin => Some(AttachStep::AddElements),
        AttachStep::AddElements => Some(AttachStep::FindQueueSource),
        AttachStep::FindQueueSource => Some(AttachStep::RequestWebrtcSink),
        AttachStep::RequestWebrtcSink => Some(AttachStep::LinkQueue),
        AttachStep::LinkQueue => Some(AttachStep::Configure),
        AttachStep::Configure => Some(AttachStep::SyncQueue),
        AttachStep::SyncQueue => Some(AttachStep::SyncWebrtcbin),
        AttachStep::SyncWebrtcbin => Some(AttachStep::FindQueueSink),
        AttachStep::FindQueueSink => Some(AttachStep::LinkTee),
        AttachStep::LinkTee => Some(AttachStep::ForceKeyUnit),
        AttachStep::ForceKeyUnit => None,
    }
}

/// Whether the failure of a step ends the setup. Connecting the handlers cannot
/// fail, and a request for a key frame that is not served does no harm.
pub open spec fn is_essential(step: AttachStep) -> bool {
    step != AttachStep::Configure && step != AttachStep::ForceKeyUnit
}

/// The message for the failure of an essential step. Where the step has no message
/// of its own, that is the `cause`.
pub open spec fn failure_text(step: AttachStep, cause: Seq<char>) -> Seq<char> {
    match step {
        AttachStep::RequestTeePad => "Failed to request tee src pad"@,
        AttachStep::MakeQueue => "Failed to create queue"@,
        AttachStep::MakeWebrtcbin => "Failed to create webrtcbin"@,
        AttachStep::FindQueueSource => "queue has no src pad"@,
        AttachStep::RequestWebrtcSink => "webrtcbin denied sink pad request"@,
        AttachStep::FindQueueSink => "queue has no sink pad"@,
        _ => cause,
    }
}

/// What comes after a step, given how it went.
pub open spec fn step_result(step: AttachStep, outcome: Result<(), Seq<char>>) -> Result<
    Option<AttachStep>,
    Seq<char>,
> {
    match outcome {
        Err(cause) => if is_essential(step) {
            Err(failure_text(step, cause))
        } else {
            Ok(next_step(step))
        },
        Ok(_) => Ok(next_step(step)),
    }
}

fn following(step: AttachStep) -> (r: Option<AttachStep>)
    ensures
        r == next_step(step),
{
    match step {
        AttachStep::RequestTeePad => Some(AttachStep::MakeQueue),
        AttachStep::MakeQueue => Some(AttachStep::MakeWebrtcbin),
        AttachStep::MakeWebrtcbin => Some(AttachStep::AddElements),
        AttachStep::AddElements => Some(AttachStep::FindQueueSource),
        AttachStep::FindQueueSource => Some(AttachStep::RequestWebrtcSink),
        AttachStep::RequestWebrtcSink => Some(AttachStep::LinkQueue),
        AttachStep::LinkQueue => Some(AttachStep::Configure),
        AttachStep::Configure => Some(AttachStep::SyncQueue),
        AttachStep::SyncQueue => Some(AttachStep::SyncWebrtcbin),
        AttachStep::SyncWebrtcbin => Some(AttachStep::FindQueueSink),
        AttachStep::FindQueueSink => Some(AttachStep::LinkTee),
        AttachStep::LinkTee => Some(AttachStep::ForceKeyUnit),
        AttachStep::ForceKeyUnit => None,
    }
}

fn failure(step: AttachStep, cause: String) -> (r: String)
    ensures
        r@ == failure_text(step, cause@),
{
    match step {
        AttachStep::RequestTeePad => "Failed to request tee src pad".to_owned(),
        AttachStep::MakeQueue => "Failed to create queue".to_owned(),
        AttachStep::MakeWebrtcbin => "Failed to create webrtcbin".to_owned(),
        AttachStep::FindQueueSource => "queue has no src pad".to_owned(),
        AttachStep::RequestWebrtcSink => "webrtcbin denied sink pad request".to_owned(),
        AttachStep::FindQueueSink => "queue has no sink pad".to_owned(),
        _ => cause,
    }
}

impl AttachStep {
    /// What comes after this step, given how it went: the next step, `Ok(None)` when
    /// the branch is set up, or the message of the failure that ends the setup.
    pub fn after(self, outcome: Result<(), String>) -> (r: Result<Option<AttachStep>, String>)
        ensures
            match r {
                Ok(next) => (outcome is Ok || !is_essential(self)) && next == next_step(self),
                Err(message) => outcome matches Err(cause) && is_essential(self) && message@
                    == failure_text(self, cause@),
            },
            match r {
                Ok(next) => step_result(
                    self,
                    match outcome {
                        Ok(_) => Ok::<(), Seq<char>>(()),
                        Err(cause) => Err::<(), Seq<char>>(cause@),
                    },
                ) == Ok::<Option<AttachStep>, Seq<char>>(next),
                Err(message) => step_result(
                    self,
                    match outcome {
                        Ok(_) => Ok::<(), Seq<char>>(()),
                        Err(cause) => Err::<(), Seq<char>>(cause@),
                    },
                ) == Err::<Option<AttachStep>, Seq<char>>(message@),
            },
    {
        match outcome {
            Ok(()) => Ok(following(self)),
            Err(cause) => match self {
                AttachStep::Configure | AttachStep::ForceKeyUnit => Ok(following(self)),
                _ => Err(failure(self, cause)),
            },
        }
    }
}

/// How the elements of a branch are set.
#[derive(Debug)]
pub struct BranchSettings {
    /// The template of the pad that is requested of the fan-out.
    pub tee_pad_template: &'static str,
    /// The template of the pad that is requested of the WebRTC element.
    pub sink_pad_template: &'static str,
    /// Which end of a full queue leaks.
    pub queue_leaky: &'static str,
    /// The most buffers in the queue, 0 for no limit.
    pub queue_max_buffers: u32,
    /// The most bytes in the queue, 0 for no limit.
    pub queue_max_bytes: u32,
    /// The most nanoseconds of data in the queue.
    pub queue_max_time: u64,
    pub bundle_policy: &'static str,
    /// The STUN server of this peer.
    pub stun_server: String,
    /// The event by which a key frame is asked for.
    pub key_frame_event: &'static str,
    /// Whether a key frame is asked for together with all headers.
    pub key_frame_all_headers: bool,
}

/// Whether `s` are the settings of the branch of a peer that uses the STUN server
/// `stun`. A slow peer loses old data after 200 ms rather than holding up the shared
/// pipeline, and a new one gets a key frame with all headers, so that it can decode
/// at once.
pub open spec fn settings_for(s: BranchSettings, stun: Seq<char>) -> bool {
    &&& s.tee_pad_template@ == "src_%u"@
    &&& s.sink_pad_template@ == "sink_%u"@
    &&& s.queue_leaky@ == "downstream"@
    &&& s.queue_max_buffers == 0
    &&& s.queue_max_bytes == 0
    &&& s.queue_max_time == 200_000_000
    &&& s.bundle_policy@ == "max-bundle"@
    &&& s.stun_server@ == stun
    &&& s.key_frame_event@ == "GstForceKeyUnit"@
    &&& s.key_frame_all_headers
}

/// The settings of the branch of a peer that uses the STUN server `stun`, and the
/// step that its setup starts with.
pub fn plan_branch(stun: &str) -> (r: (BranchSettings, AttachStep))
    ensures
        settings_for(r.0, stun@),
        r.1 == AttachStep::RequestTeePad,
{
    (
        BranchSettings {
            tee_pad_template: "src_%u",
            sink_pad_template: "sink_%u",
            queue_leaky: "downstream",
            queue_max_buffers: 0,
            queue_max_bytes: 0,
            queue_max_time: 200_000_000,
            bundle_policy: "max-bundle",
            stun_server: stun.to_owned(),
            key_frame_event: "GstForceKeyUnit",
            key_frame_all_headers: true,
        },
        AttachStep::RequestTeePad,
    )
}

/// Whether `run` is a run of a setup: the steps that were performed, in order, each
/// with whether it succeeded.
pub open spec fn is_run(run: Seq<(AttachStep, bool)>) -> bool {
    &&& run.len() > 0 ==> rank(run[0].0) == 0
    &&& forall|i: int|
        #![trigger run[i]]
        0 <= i < run.len() - 1 ==> (run[i].1 || !is_essential(run[i].0)) && next_step(run[i].0)
            == Some(run[i + 1].0)
}

proof fn lemma_run_ranks(run: Seq<(AttachStep, bool)>, i: int)
    requires
        is_run(run),
        0 <= i < run.len(),
    ensures
        rank(run[i].0) == i,
    decreases i,
{
    if i > 0 {
        lemma_run_ranks(run, i - 1);
    }
}

/// In every run, whatever step is performed, each step before it in the order was
/// performed before it, and if it is essential it succeeded. So data flows into a
/// branch only after the elements are in the pipeline, the handlers are connected
/// and both elements have the state of the pipeline.
pub proof fn law_earlier_steps_have_succeeded(
    run: Seq<(AttachStep, bool)>,
    i: int,
    earlier: AttachStep,
)
    requires
        is_run(run),
        0 <= i < run.len(),
        rank(earlier) < rank(run[i].0),
    ensures
        0 <= rank(earlier) < i,
        run[rank(earlier)].0 == earlier,
        is_essential(earlier) ==> run[rank(earlier)].1,
{
    lemma_run_ranks(run, i);
    lemma_run_ranks(run, rank(earlier));
}

/// In every run each step is performed at most once, and in one that goes to its end
/// exactly once.
pub proof fn law_every_step_is_performed_once(run: Seq<(AttachStep, bool)>, step: AttachStep)
    requires
        is_run(run),
    ensures
        forall|i: int, j: int|
            0 <= i < run.len() && 0 <= j < run.len() && (#[trigger] run[i]).0 == step
                && (#[trigger] run[j]).0 == step ==> i == j,
        is_complete_run(run) ==> exists|i: int|
            0 <= i < run.len() && (#[trigger] run[i]).0 == step,
{
    assert forall|i: int, j: int|
        0 <= i < run.len() && 0 <= j < run.len() && (#[trigger] run[i]).0 == step && (
        #[trigger] run[j]).0 == step implies i == j by {
        lemma_run_ranks(run, i);
        lemma_run_ranks(run, j);
    }
    if is_complete_run(run) {
        lemma_run_ranks(run, run.len() - 1);
        lemma_run_ranks(run, rank(step));
        assert(run[rank(step)].0 == step);
    }
}

/// One step of taking a branch down. None of them can fail in a way that matters.
#[derive(Debug, Clone, Copy, PartialEq, Eq, Structural)]
pub enum ReleaseStep {
    /// Unlink the pad of the fan-out from the queue.
    UnlinkTee,
    StopQueue,
    StopWebrtcbin,
    RemoveQueue,
    RemoveWebrtcbin,
    /// Give the pad of the fan-out back.
    ReleaseTeePad,
}

/// The steps of taking a branch down. A queue without a sink pad is not unlinked.
pub open spec fn release_order(queue_has_sink: bool) -> Seq<ReleaseStep> {
    let rest = seq![
        ReleaseStep::StopQueue,
        ReleaseStep::StopWebrtcbin,
        ReleaseStep::RemoveQueue,
        ReleaseStep::RemoveWebrtcbin,
        ReleaseStep::ReleaseTeePad,
    ];
    if queue_has_sink {
        seq![ReleaseStep::UnlinkTee] + rest
    } else {
        rest
    }
}

/// The steps of taking a branch down, in order.
pub fn release_steps(queue_has_sink: bool) -> (r: Vec<ReleaseStep>)
    ensures
        r@ == release_order(queue_has_sink),
{
    let mut steps: Vec<ReleaseStep> = Vec::new();
    if queue_has_sink {
        steps.push(ReleaseStep::UnlinkTee);
    }
    steps.push(ReleaseStep::StopQueue);
    steps.push(ReleaseStep::StopWebrtcbin);
    steps.push(ReleaseStep::RemoveQueue);
    steps.push(ReleaseStep::RemoveWebrtcbin);
    steps.push(ReleaseStep::ReleaseTeePad);
    steps
}

/// What a branch has in its pipeline.
pub struct BranchParts {
    /// The branch holds a pad of the fan-out.
    pub tee_pad: bool,
    /// The queue is in the pipeline.
    pub queue_added: bool,
    /// The WebRTC element is in the pipeline.
    pub webrtcbin_added: bool,
    /// The queue is linked to the WebRTC element.
    pub queue_linked: bool,
    /// The queue is not stopped.
    pub queue_running: bool,
    /// The WebRTC element is not stopped.
    pub webrtcbin_running: bool,
    /// The pad of the fan-out is linked to the queue.
    pub tee_linked: bool,
}

/// A branch of which nothing is there.
pub open spec fn no_parts() -> BranchParts {
    BranchParts {
        tee_pad: false,
        queue_added: false,
        webrtcbin_added: false,
        queue_linked: false,
        queue_running: false,
        webrtcbin_running: false,
        tee_linked: false,
    }
}

/// A branch through which data flows.
pub open spec fn all_parts() -> BranchParts {
    BranchParts {
        tee_pad: true,
        queue_added: true,
        webrtcbin_added: true,
        queue_linked: true,
        queue_running: true,
        webrtcbin_running: true,
        tee_linked: true,
    }
}

/// What a step of the setup that succeeds makes of a branch.
pub open spec fn parts_set_up(p: BranchParts, step: AttachStep) -> BranchParts {
    match step {
        AttachStep::RequestTeePad => BranchParts { tee_pad: true, ..p },
        AttachStep::AddElements => BranchParts { queue_added: true, webrtcbin_added: true, ..p },
        AttachStep::LinkQueue => BranchParts { queue_linked: true, ..p },
        AttachStep::SyncQueue => BranchParts { queue_running: true, ..p },
        AttachStep::SyncWebrtcbin => BranchParts { webrtcbin_running: true, ..p },
        AttachStep::LinkTee => BranchParts { tee_linked: true, ..p },
        _ => p,
    }
}

/// What a step of taking a branch down makes of it. An element that leaves the
/// pipeline loses its links.
pub open spec fn parts_released(p: BranchParts, step: ReleaseStep) -> BranchParts {
    match step {
        ReleaseStep::UnlinkTee => BranchParts { tee_linked: false, ..p },
        ReleaseStep::StopQueue => BranchParts { queue_running: false, ..p },
        ReleaseStep::StopWebrtcbin => BranchParts { webrtcbin_running: false, ..p },
        ReleaseStep::RemoveQueue => BranchParts {
            queue_added: false,
            queue_linked: false,
            tee_linked: false,
            ..p
        },
        ReleaseStep::RemoveWebrtcbin => BranchParts {
            webrtcbin_added: false,
            queue_linked: false,
            ..p
        },
        ReleaseStep::ReleaseTeePad => BranchParts { tee_pad: false, ..p },
    }
}

/// Names a branch: the pipeline that it was attached to, and the peer.
pub struct BranchId {
    pub pipeline: int,
    pub peer: int,
}

/// Something that is done to a pipeline or to one of its branches.
pub enum BranchStep {
    /// A step of the setup of a branch, which succeeds or not.
    Attach { id: BranchId, step: AttachStep, done: bool },
    /// A step of taking a branch down.
    Release { id: BranchId, step: ReleaseStep },
    /// A pipeline is stopped, with all that is in it, as when another takes its place.
    StopPipeline { pipeline: int },
}

/// Whether a step is one of the branch `id`.
pub open spec fn is_own(step: BranchStep, id: BranchId) -> bool {
    match step {
        BranchStep::Attach { id: whose, .. } => whose == id,
        BranchStep::Release { id: whose, .. } => whose == id,
        BranchStep::StopPipeline { .. } => false,
    }
}

/// What a step makes of the branch `id`.
pub open spec fn parts_after_step(p: BranchParts, step: BranchStep, id: BranchId) -> BranchParts {
    match step {
        BranchStep::Attach { id: whose, step, done } => if whose == id && done {
            parts_set_up(p, step)
        } else {
            p
        },
        BranchStep::Release { id: whose, step } => if whose == id {
            parts_released(p, step)
        } else {
            p
        },
        BranchStep::StopPipeline { pipeline } => if pipeline == id.pipeline {
            BranchParts { queue_running: false, webrtcbin_running: false, ..p }
        } else {
            p
        },
    }
}

/// What there is of the branch `id` after `steps`, of which nothing was there before.
pub open spec fn parts_after(steps: Seq<BranchStep>, id: BranchId) -> BranchParts
    decreases steps.len(),
{
    if steps.len() == 0 {
        no_parts()
    } else {
        parts_after_step(parts_after(steps.drop_last(), id), steps.last(), id)
    }
}

/// The steps of the branch `id` among `steps`.
pub open spec fn own_steps(steps: Seq<BranchStep>, id: BranchId) -> Seq<BranchStep>
    decreases steps.len(),
{
    if steps.len() == 0 {
        Seq::empty()
    } else if is_own(steps.last(), id) {
        own_steps(steps.drop_last(), id).push(steps.last())
    } else {
        own_steps(steps.drop_last(), id)
    }
}

/// `steps` without those of the branch `id`.
pub open spec fn steps_of_others(steps: Seq<BranchStep>, id: BranchId) -> Seq<BranchStep>
    decreases steps.len(),
{
    if steps.len() == 0 {
        Seq::empty()
    } else if is_own(steps.last(), id) {
        steps_of_others(steps.drop_last(), id)
    } else {
        steps_of_others(steps.drop_last(), id).push(steps.last())
    }
}

/// Whether `run` is a run of a setup to its end.
pub open spec fn is_complete_run(run: Seq<(AttachStep, bool)>) -> bool {
    &&& is_run(run)
    &&& run.len() > 0
    &&& next_step(run.last().0) is None
}

/// The steps of the branch `id` in the run `run` of its setup.
pub open spec fn setup_steps(id: BranchId, run: Seq<(AttachStep, bool)>) -> Seq<BranchStep> {
    Seq::new(run.len(), |i: int| BranchStep::Attach { id, step: run[i].0, done: run[i].1 })
}

/// The steps of taking the branch `id` down, whose queue has a sink pad.
pub open spec fn takedown_steps(id: BranchId) -> Seq<BranchStep> {
    let order = release_order(true);
    Seq::new(order.len(), |i: int| BranchStep::Release { id, step: order[i] })
}

proof fn lemma_parts_of_own_steps(steps: Seq<BranchStep>, id: BranchId)
    ensures
        ({
            let p = parts_after(steps, id);
            let own = parts_after(own_steps(steps, id), id);
            &&& p == (BranchParts {
                queue_running: p.queue_running,
                webrtcbin_running: p.webrtcbin_running,
                ..own
            })
            &&& p.queue_running ==> own.queue_running
            &&& p.webrtcbin_running ==> own.webrtcbin_running
            &&& !steps.contains(BranchStep::StopPipeline { pipeline: id.pipeline }) ==> p == own
        }),
    decreases steps.len(),
{
    if steps.len() > 0 {
        let init = steps.drop_last();
        let last = steps.last();
        lemma_parts_of_own_steps(init, id);
        lemma_last_contains(steps, BranchStep::StopPipeline { pipeline: id.pipeline });
        if is_own(last, id) {
            assert(own_steps(init, id).push(last).drop_last() =~= own_steps(init, id));
        }
    }
}

proof fn lemma_parts_of_others(steps: Seq<BranchStep>, id: BranchId, other: BranchId)
    requires
        other != id,
    ensures
        parts_after(steps, other) == parts_after(steps_of_others(steps, id), other),
    decreases steps.len(),
{
    if steps.len() > 0 {
        let init = steps.drop_last();
        let last = steps.last();
        lemma_parts_of_others(init, id, other);
        if !is_own(last, id) {
            assert(steps_of_others(init, id).push(last).drop_last() =~= steps_of_others(init, id));
        }
    }
}

proof fn lemma_parts_of_setup(id: BranchId, run: Seq<(AttachStep, bool)>, n: int)
    requires
        is_complete_run(run),
        0 <= n <= run.len(),
    ensures
        parts_after(setup_steps(id, run).take(n), id) == (BranchParts {
            tee_pad: n > 0,
            queue_added: n > 3,
            webrtcbin_added: n > 3,
            queue_linked: n > 6,
            queue_running: n > 8,
            webrtcbin_running: n > 9,
            tee_linked: n > 11,
        }),
    decreases n,
{
    if n > 0 {
        let steps = setup_steps(id, run);
        lemma_parts_of_setup(id, run, n - 1);
        lemma_run_ranks(run, n - 1);
        lemma_run_ranks(run, run.len() - 1);
        assert(steps.take(n).drop_last() =~= steps.take(n - 1));
        assert(is_essential(run[n - 1].0) ==> run[n - 1].1);
    }
}

proof fn lemma_parts_of_takedown(before: Seq<BranchStep>, id: BranchId)
    ensures
        parts_after(before + takedown_steps(id), id) == no_parts(),
{
    let down = takedown_steps(id);
    let all = before + down;
    let n = before.len() as int;
    assert(all.take(n) =~= before);
    assert(all.take(n + 6) =~= all);
    assert forall|k: int| 0 <= k < 6 implies #[trigger] parts_after(all.take(n + k + 1), id)
        == parts_after_step(parts_after(all.take(n + k), id), down[k], id) by {
        assert(all.take(n + k + 1).drop_last() =~= all.take(n + k));
    }
    let p0 = parts_after(all.take(n), id);
    let p1 = parts_after(all.take(n + 0 + 1), id);
    let p2 = parts_after(all.take(n + 1 + 1), id);
    let p3 = parts_after(all.take(n + 2 + 1), id);
    let p4 = parts_after(all.take(n + 3 + 1), id);
    let p5 = parts_after(all.take(n + 4 + 1), id);
    let p6 = parts_after(all.take(n + 5 + 1), id);
    assert(p1 == parts_released(p0, ReleaseStep::UnlinkTee));
    assert(p2 == parts_released(p1, ReleaseStep::StopQueue));
    assert(p3 == parts_released(p2, ReleaseStep::StopWebrtcbin));
    assert(p4 == parts_released(p3, ReleaseStep::RemoveQueue));
    assert(p5 == parts_released(p4, ReleaseStep::RemoveWebrtcbin));
    assert(p6 == parts_released(p5, ReleaseStep::ReleaseTeePad));
}

/// Whatever is done to other branches and other pipelines meanwhile, a branch whose
/// setup ran to its end is whole, for as long as it is not taken down and its own
/// pipeline is not stopped.
pub proof fn law_other_branches_leave_a_branch_whole(
    steps: Seq<BranchStep>,
    id: BranchId,
    run: Seq<(AttachStep, bool)>,
)
    requires
        is_complete_run(run),
        own_steps(steps, id) == setup_steps(id, run),
        !steps.contains(BranchStep::StopPipeline { pipeline: id.pipeline }),
    ensures
        parts_after(steps, id) == all_parts(),
{
    lemma_parts_of_own_steps(steps, id);
    lemma_parts_of_setup(id, run, run.len() as int);
    lemma_run_ranks(run, run.len() - 1);
    assert(setup_steps(id, run).take(run.len() as int) =~= setup_steps(id, run));
}

/// Taking a branch down undoes its setup. Whatever else is done meanwhile, to other
/// branches or by stopping pipelines, of a branch that was set up and then taken down
/// nothing is left: its elements are stopped and out of the pipeline, and its pad is
/// given back. And every other branch, of this pipeline or another, is as if the
/// branch had never been.
pub proof fn law_taking_down_undoes_the_setup(
    steps: Seq<BranchStep>,
    id: BranchId,
    run: Seq<(AttachStep, bool)>,
)
    requires
        is_complete_run(run),
        own_steps(steps, id) == setup_steps(id, run) + takedown_steps(id),
    ensures
        parts_after(steps, id) == no_parts(),
        forall|other: BranchId|
            other != id ==> #[trigger] parts_after(steps, other) == parts_after(
                steps_of_others(steps, id),
                other,
            ),
{
    lemma_parts_of_own_steps(steps, id);
    lemma_parts_of_takedown(setup_steps(id, run), id);
    assert forall|other: BranchId| other != id implies #[trigger] parts_after(steps, other)
        == parts_after(steps_of_others(steps, id), other) by {
        lemma_parts_of_others(steps, id, other);
    }
}

/// A step that succeeds is followed by the next in the order, and so is one that is not
/// essential whether it succeeds or not; the last step by none.
pub proof fn law_steps_follow_in_order(step: AttachStep, next: AttachStep)
    ensures
        next_step(step) == Some(next) <==> rank(next) == rank(step) + 1,
        next_step(step) is None <==> step == AttachStep::ForceKeyUnit,
        rank(step) == rank(next) ==> step == next,
        rank(AttachStep::RequestTeePad) == 0,
        0 <= rank(step) <= 12,
{
}

/// The setup fails where any step fails but connecting the handlers and asking for a
/// key frame.
pub proof fn law_all_but_two_steps_are_essential(step: AttachStep)
    ensures
        is_essential(step) <==> !(step is Configure) && !(step is ForceKeyUnit),
{
}

/// A failure to add, link or start the elements is reported with its cause, unchanged;
/// every other failure has a message of its own, whatever the cause.
pub proof fn law_failures_are_reported(step: AttachStep, cause: Seq<char>, other: Seq<char>)
    ensures
        step is AddElements || step is LinkQueue || step is SyncQueue || step is SyncWebrtcbin
            || step is LinkTee ==> failure_text(step, cause) == cause,
        step is RequestTeePad || step is MakeQueue || step is MakeWebrtcbin
            || step is FindQueueSource || step is RequestWebrtcSink || step is FindQueueSink
            ==> failure_text(step, cause) == failure_text(step, other),
{
}

/// The branch of a peer has the STUN server that was asked for, whatever it is, a queue
/// that holds up to 200 ms and then leaks, and a key frame with all headers.
pub proof fn law_branch_has_its_stun_server(s: BranchSettings, stun: Seq<char>)
    requires
        settings_for(s, stun),
    ensures
        s.stun_server@ == stun,
        s.queue_max_time == 200_000_000 && s.queue_max_buffers == 0 && s.queue_max_bytes == 0,
        s.queue_leaky@ == "downstream"@,
        s.bundle_policy@ == "max-bundle"@,
        s.tee_pad_template@ == "src_%u"@ && s.sink_pad_template@ == "sink_%u"@,
        s.key_frame_event@ == "GstForceKeyUnit"@ && s.key_frame_all_headers,
{
}

/// A step that succeeds is never the end of the setup before the last, and one that
/// fails is, with the message of the failure, unless it only connects the handlers or
/// asks for a key frame.
pub proof fn law_failures_end_the_setup(step: AttachStep, cause: Seq<char>)
    ensures
        step_result(step, Ok(())) == Ok::<Option<AttachStep>, Seq<char>>(next_step(step)),
        step is Configure || step is ForceKeyUnit ==> step_result(step, Err(cause)) == step_result(
            step,
            Ok(()),
        ),
        !(step is Configure) && !(step is ForceKeyUnit) ==> step_result(step, Err(cause)) == Err::<
            Option<AttachStep>,
            Seq<char>,
        >(failure_text(step, cause)),
{
}

} // verus!
