//! The order of a render tick. The texture identity is the same on every tick
//! and so gives no ordering by itself: the stages are ordered by their place
//! in the tick, and the sync stage stands between resolution and drawing.

use vstd::prelude::*;
use crate::binding::{BindingModel, VideoTextureBinding};
use crate::queue::{CommandQueue, DrawPass, SubmissionModel};
use crate::sync::{sync_command, sync_frame, LiveTexture};

verus! {

/// The stages of a tick that touch the streamed texture.
#[derive(Clone, Copy, Debug, PartialEq, Eq, Structural)]
pub enum TickStage {
    /// The resource table resolves texture identities to live GPU textures.
    ResolveResources,
    /// The current frame is copied into the texture.
    SyncFrame,
    /// Draw passes sample the texture.
    DrawPasses,
}

impl TickStage {
    /// Place of the stage in a tick, counted from the first.
    pub open spec fn position(self) -> nat {
        match self {
            TickStage::ResolveResources => 0,
            TickStage::SyncFrame => 1,
            TickStage::DrawPasses => 2,
        }
    }

    /// Whether this stage runs strictly before `other` in every tick.
    pub fn precedes(self, other: TickStage) -> (before: bool)
        ensures
            before <==> self.position() < other.position(),
    {
        match (self, other) {
            (TickStage::ResolveResources, TickStage::SyncFrame) => true,
            (TickStage::ResolveResources, TickStage::DrawPasses) => true,
            (TickStage::SyncFrame, TickStage::DrawPasses) => true,
            _ => false,
        }
    }
}

/// The stages of a tick in the order in which they run.
pub open spec fn tick_order() -> Seq<TickStage> {
    seq![TickStage::ResolveResources, TickStage::SyncFrame, TickStage::DrawPasses]
}

/// What the sync stage submits on a tick: its command, if it issues one.
pub open spec fn sync_submissions(binding: BindingModel, resolved: Option<LiveTexture>) -> Seq<
    SubmissionModel,
> {
    match sync_command(binding, resolved) {
        Some(command) => seq![SubmissionModel::Copy(command)],
        None => Seq::<SubmissionModel>::empty(),
    }
}

/// What the draw stage submits on a tick: its passes, in their order.
pub open spec fn draw_submissions(draws: Seq<DrawPass>) -> Seq<SubmissionModel> {
    Seq::new(draws.len(), |i: int| SubmissionModel::Draw(draws[i]))
}

/// What one stage submits on a tick. Resolution submits nothing.
pub open spec fn stage_submissions(
    stage: TickStage,
    binding: BindingModel,
    resolved: Option<LiveTexture>,
    draws: Seq<DrawPass>,
) -> Seq<SubmissionModel> {
    match stage {
        TickStage::ResolveResources => Seq::<SubmissionModel>::empty(),
        TickStage::SyncFrame => sync_submissions(binding, resolved),
        TickStage::DrawPasses => draw_submissions(draws),
    }
}

/// What a whole tick submits: the submissions of its stages, stage after stage.
pub open spec fn tick_submissions(
    binding: BindingModel,
    resolved: Option<LiveTexture>,
    draws: Seq<DrawPass>,
) -> Seq<SubmissionModel> {
    stage_submissions(tick_order()[0], binding, resolved, draws) + stage_submissions(
        tick_order()[1],
        binding,
        resolved,
        draws,
    ) + stage_submissions(tick_order()[2], binding, resolved, draws)
}

/// The stages of a tick in the order in which they run.
pub fn stages_in_order() -> (stages: Vec<TickStage>)
    ensures
        stages@ == tick_order(),
        forall|i: int, j: int|
            0 <= i < j < stages@.len() ==> stages@[i].position() < stages@[j].position(),
{
    let mut stages: Vec<TickStage> = Vec::new();
    stages.push(TickStage::ResolveResources);
    stages.push(TickStage::SyncFrame);
    stages.push(TickStage::DrawPasses);
    assert(stages@ =~= tick_order());
    stages
}

/// Runs the sync stage of one tick: decides the copy and submits it. Returns
/// normally in every case; a tick without a target, or on which the target did
/// not resolve, leaves the queue as it was.
pub fn run_sync_stage<'a>(
    binding: &'a VideoTextureBinding,
    resolved: Option<LiveTexture>,
    queue: &mut CommandQueue<'a>,
)
    ensures
        final(queue)@ == old(queue)@ + sync_submissions(binding@, resolved),
        binding@.target is None ==> final(queue)@ == old(queue)@,
        resolved is None ==> final(queue)@ == old(queue)@,
        binding@.target is Some && resolved is Some ==> final(queue)@ == old(queue)@.push(
            SubmissionModel::Copy(sync_command(binding@, resolved)->0),
        ),
{
    match sync_frame(binding, resolved) {
        Some(command) => {
            queue.submit_copy(command);
            assert(queue@ =~= old(queue)@ + seq![SubmissionModel::Copy(command@)]);
        },
        None => {
            assert(queue@ =~= old(queue)@ + Seq::<SubmissionModel>::empty());
        },
    }
}

/// Runs the draw stage of one tick: submits every pass, in order.
pub fn run_draw_stage(draws: &Vec<DrawPass>, queue: &mut CommandQueue<'_>)
    ensures
        final(queue)@ == old(queue)@ + draw_submissions(draws@),
{
    let ghost before = queue@;
    let mut done: usize = 0;
    while done < draws.len()
        invariant
            done <= draws.len(),
            queue@ == before + draw_submissions(draws@.subrange(0, done as int)),
        decreases draws.len() - done,
    {
        queue.submit_draw(draws[done]);
        assert(before + draw_submissions(draws@.subrange(0, done as int)).push(
            SubmissionModel::Draw(draws@[done as int]),
        ) =~= before + draw_submissions(draws@.subrange(0, done as int + 1)));
        done += 1;
    }
    assert(draws@.subrange(0, done as int) =~= draws@);
}

/// Runs one tick from the point at which the resource table has answered:
/// the sync stage, then the draw stage.
pub fn run_tick<'a>(
    binding: &'a VideoTextureBinding,
    resolved: Option<LiveTexture>,
    draws: &Vec<DrawPass>,
    queue: &mut CommandQueue<'a>,
)
    ensures
        final(queue)@ == old(queue)@ + tick_submissions(binding@, resolved, draws@),
{
    run_sync_stage(binding, resolved, queue);
    run_draw_stage(draws, queue);
    assert(queue@ =~= old(queue)@ + tick_submissions(binding@, resolved, draws@));
}

/// The sync stage runs strictly after resolution and strictly before drawing.
pub proof fn lemma_sync_stage_between()
    ensures
        TickStage::ResolveResources.position() < TickStage::SyncFrame.position(),
        TickStage::SyncFrame.position() < TickStage::DrawPasses.position(),
{
}

/// Running the sync stage twice with nothing changed in between submits the
/// same command twice, or nothing twice.
pub proof fn lemma_resync_repeats_command(
    queue: Seq<SubmissionModel>,
    binding: BindingModel,
    resolved: Option<LiveTexture>,
)
    ensures
        ({
            let once = queue + sync_submissions(binding, resolved);
            let twice = once + sync_submissions(binding, resolved);
            match sync_command(binding, resolved) {
                Some(command) => {
                    &&& twice.len() == queue.len() + 2
                    &&& twice.subrange(0, queue.len() as int) == queue
                    &&& twice[queue.len() as int] == SubmissionModel::Copy(command)
                    &&& twice[queue.len() as int + 1] == SubmissionModel::Copy(command)
                },
                None => twice == queue,
            }
        }),
{
    let once = queue + sync_submissions(binding, resolved);
    let twice = once + sync_submissions(binding, resolved);
    match sync_command(binding, resolved) {
        Some(command) => {
            assert(twice.subrange(0, queue.len() as int) =~= queue);
        },
        None => {
            assert(twice =~= queue);
        },
    }
}

/// Within a tick every copy is submitted before every draw pass: a pass that
/// samples the texture finds the frame of its own tick already on the queue.
pub proof fn lemma_copy_precedes_draws(
    binding: BindingModel,
    resolved: Option<LiveTexture>,
    draws: Seq<DrawPass>,
    copy_at: int,
    draw_at: int,
)
    requires
        0 <= copy_at < tick_submissions(binding, resolved, draws).len(),
        0 <= draw_at < tick_submissions(binding, resolved, draws).len(),
        tick_submissions(binding, resolved, draws)[copy_at] is Copy,
        tick_submissions(binding, resolved, draws)[draw_at] is Draw,
    ensures
        copy_at < draw_at,
        copy_at == 0,
        tick_submissions(binding, resolved, draws)[copy_at] == SubmissionModel::Copy(
            sync_command(binding, resolved)->0,
        ),
{
}

/// A tick on which the stage issues a copy and `draws` passes are drawn
/// submits the copy first and then the passes, one entry each.
pub proof fn lemma_tick_shape(
    binding: BindingModel,
    resolved: Option<LiveTexture>,
    draws: Seq<DrawPass>,
)
    ensures
        tick_submissions(binding, resolved, draws).len() == draws.len() + (if binding.target
            is Some && resolved is Some {
            1nat
        } else {
            0nat
        }),
        binding.target is Some && resolved is Some ==> tick_submissions(
            binding,
            resolved,
            draws,
        )[0] == SubmissionModel::Copy(sync_command(binding, resolved)->0),
{
}

} // verus!
