//! Decisions of the synchronized player: which requests go to the processing thread, how the
//! thread merges the requests that queued up, in which direction it plays and how far it
//! steps, and how the playback position reads on screen.

use vstd::prelude::*;

use crate::text::{decimal, decimal_pad2, digit_char, push_char, push_decimal, push_decimal_pad2};

verus! {

/// A request to the processing thread.
#[derive(Clone, Copy, Debug, PartialEq, Eq, Structural)]
pub enum Request {
    /// Seek to a position, in nanoseconds.
    Seek { position_ns: u64 },
    /// Step one frame forwards.
    StepForwards,
    /// Step one frame backwards.
    StepBack,
    /// Play or pause.
    SetPlaying { play: bool },
    /// Change the playback rate; the rate travels as the bit pattern of a binary64 number.
    SetRate { rate_bits: u64 },
    /// Shut the thread down.
    Exit,
}

/// Whether a sequence of requests holds an `Exit`.
pub open spec fn has_exit(reqs: Seq<Request>) -> bool
    decreases reqs.len(),
{
    reqs.len() > 0 && (has_exit(reqs.drop_last()) || reqs.last() is Exit)
}

/// The position of the last seek before the first `Exit`.
pub open spec fn last_seek(reqs: Seq<Request>) -> Option<u64>
    decreases reqs.len(),
{
    if reqs.len() == 0 {
        None
    } else if has_exit(reqs.drop_last()) {
        last_seek(reqs.drop_last())
    } else {
        match reqs.last() {
            Request::Seek { position_ns } => Some(position_ns),
            _ => last_seek(reqs.drop_last()),
        }
    }
}

/// The number of seeks before the first `Exit`.
pub open spec fn seek_count(reqs: Seq<Request>) -> nat
    decreases reqs.len(),
{
    if reqs.len() == 0 {
        0
    } else if has_exit(reqs.drop_last()) {
        seek_count(reqs.drop_last())
    } else {
        seek_count(reqs.drop_last()) + if reqs.last() is Seek {
            1nat
        } else {
            0nat
        }
    }
}

/// Forward steps minus backward steps before the first `Exit`.
pub open spec fn net_steps(reqs: Seq<Request>) -> int
    decreases reqs.len(),
{
    if reqs.len() == 0 {
        0
    } else if has_exit(reqs.drop_last()) {
        net_steps(reqs.drop_last())
    } else {
        net_steps(reqs.drop_last()) + match reqs.last() {
            Request::StepForwards => 1int,
            Request::StepBack => -1int,
            _ => 0int,
        }
    }
}

/// The last play or pause request before the first `Exit`.
pub open spec fn last_play(reqs: Seq<Request>) -> Option<bool>
    decreases reqs.len(),
{
    if reqs.len() == 0 {
        None
    } else if has_exit(reqs.drop_last()) {
        last_play(reqs.drop_last())
    } else {
        match reqs.last() {
            Request::SetPlaying { play } => Some(play),
            _ => last_play(reqs.drop_last()),
        }
    }
}

/// The last rate request before the first `Exit`.
pub open spec fn last_rate(reqs: Seq<Request>) -> Option<u64>
    decreases reqs.len(),
{
    if reqs.len() == 0 {
        None
    } else if has_exit(reqs.drop_last()) {
        last_rate(reqs.drop_last())
    } else {
        match reqs.last() {
            Request::SetRate { rate_bits } => Some(rate_bits),
            _ => last_rate(reqs.drop_last()),
        }
    }
}

/// The requests that queued up, merged: the last seek wins, steps add up, the last play/pause
/// and rate requests win, and nothing after an `Exit` counts.
#[derive(Clone, Copy, Debug, PartialEq, Eq, Structural)]
pub struct RequestBatch {
    pub seek_to: Option<u64>,
    pub seeks_batched: u64,
    pub step: i64,
    pub set_playing: Option<bool>,
    pub set_rate: Option<u64>,
    pub exit: bool,
}

/// Whether a batch describes exactly the merge of `reqs`.
pub open spec fn batch_of(b: RequestBatch, reqs: Seq<Request>) -> bool {
    &&& b.seek_to == last_seek(reqs)
    &&& b.seeks_batched as nat == seek_count(reqs)
    &&& b.step as int == net_steps(reqs)
    &&& b.set_playing == last_play(reqs)
    &&& b.set_rate == last_rate(reqs)
    &&& b.exit == has_exit(reqs)
}

proof fn lemma_counts_bounded(reqs: Seq<Request>)
    ensures
        seek_count(reqs) <= reqs.len(),
        -reqs.len() <= net_steps(reqs) <= reqs.len(),
    decreases reqs.len(),
{
    if reqs.len() > 0 {
        lemma_counts_bounded(reqs.drop_last());
    }
}

/// Merges the requests that queued up, in the order they were sent.
pub fn collect_batch(reqs: &Vec<Request>) -> (r: RequestBatch)
    requires
        reqs@.len() <= i64::MAX,
    ensures
        batch_of(r, reqs@),
        r.step > i64::MIN,
{
    let mut b = RequestBatch {
        seek_to: None,
        seeks_batched: 0,
        step: 0,
        set_playing: None,
        set_rate: None,
        exit: false,
    };
    let mut i: usize = 0;
    assert(reqs@.take(0) =~= Seq::<Request>::empty());
    while i < reqs.len()
        invariant
            0 <= i <= reqs@.len(),
            reqs@.len() <= i64::MAX,
            batch_of(b, reqs@.take(i as int)),
            !b.exit,
        decreases reqs@.len() - i,
    {
        let ghost prefix = reqs@.take(i as int);
        let ghost next = reqs@.take(i + 1);
        proof {
            assert(next.drop_last() =~= prefix);
            assert(next.last() == reqs@[i as int]);
            lemma_counts_bounded(prefix);
        }
        match reqs[i] {
            Request::Seek { position_ns } => {
                b.seek_to = Some(position_ns);
                b.seeks_batched = b.seeks_batched + 1;
            },
            Request::StepForwards => {
                b.step = b.step + 1;
            },
            Request::StepBack => {
                b.step = b.step - 1;
            },
            Request::SetPlaying { play } => {
                b.set_playing = Some(play);
            },
            Request::SetRate { rate_bits } => {
                b.set_rate = Some(rate_bits);
            },
            Request::Exit => {
                b.exit = true;
                proof {
                    assert(batch_of(b, next));
                    assert forall|k: int| i + 1 <= k <= reqs@.len() implies batch_of(
                        b,
                        #[trigger] reqs@.take(k),
                    ) by {
                        lemma_exit_freezes(reqs@, i + 1, k);
                    }
                    assert(reqs@.take(reqs@.len() as int) =~= reqs@);
                    lemma_counts_bounded(reqs@);
                }
                return b;
            },
        }
        i = i + 1;
    }
    assert(reqs@.take(reqs@.len() as int) =~= reqs@);
    proof {
        lemma_counts_bounded(reqs@);
    }
    b
}

/// Nothing after an `Exit` counts: requests that follow it change nothing in the merge.
pub proof fn lemma_exit_freezes(reqs: Seq<Request>, j: int, k: int)
    requires
        0 < j <= k <= reqs.len(),
        has_exit(reqs.take(j)),
    ensures
        has_exit(reqs.take(k)),
        last_seek(reqs.take(k)) == last_seek(reqs.take(j)),
        seek_count(reqs.take(k)) == seek_count(reqs.take(j)),
        net_steps(reqs.take(k)) == net_steps(reqs.take(j)),
        last_play(reqs.take(k)) == last_play(reqs.take(j)),
        last_rate(reqs.take(k)) == last_rate(reqs.take(j)),
    decreases k - j,
{
    if k > j {
        lemma_exit_freezes(reqs, j, k - 1);
        assert(reqs.take(k).drop_last() =~= reqs.take(k - 1));
    }
}

/// Whether a batch asks for nothing: the requests cancelled out.
pub open spec fn batch_is_idle(b: RequestBatch) -> bool {
    b.seek_to is None && b.step == 0 && b.set_playing is None && b.set_rate is None
}

/// Whether the thread has nothing to do for this batch.
pub fn is_idle(b: &RequestBatch) -> (r: bool)
    ensures
        r == batch_is_idle(*b),
{
    b.seek_to.is_none() && b.step == 0 && b.set_playing.is_none() && b.set_rate.is_none()
}

/// How one more request changes the merge of requests without an `Exit`: an `Exit` stops the
/// merge and changes nothing else; a seek becomes the last seek and adds one to the count; a
/// step forwards or backwards adds one or takes one away; a play/pause or rate request becomes
/// the last one of its kind; every other part stays as it was.
pub proof fn law_one_more_request(reqs: Seq<Request>, x: Request)
    requires
        !has_exit(reqs),
    ensures
        has_exit(reqs.push(x)) <==> x is Exit,
        last_seek(reqs.push(x)) == match x {
            Request::Seek { position_ns } => Some(position_ns),
            _ => last_seek(reqs),
        },
        seek_count(reqs.push(x)) == seek_count(reqs) + if x is Seek {
            1int
        } else {
            0int
        },
        net_steps(reqs.push(x)) == net_steps(reqs) + if x is StepForwards {
            1int
        } else if x is StepBack {
            -1int
        } else {
            0int
        },
        last_play(reqs.push(x)) == match x {
            Request::SetPlaying { play } => Some(play),
            _ => last_play(reqs),
        },
        last_rate(reqs.push(x)) == match x {
            Request::SetRate { rate_bits } => Some(rate_bits),
            _ => last_rate(reqs),
        },
{
    assert(reqs.push(x).drop_last() =~= reqs);
}

/// Nothing merged from no requests, and a merge holds an `Exit` exactly when some request is
/// one.
pub proof fn law_empty_merge_and_exit(reqs: Seq<Request>)
    ensures
        last_seek(Seq::<Request>::empty()) is None,
        seek_count(Seq::<Request>::empty()) == 0,
        net_steps(Seq::<Request>::empty()) == 0,
        last_play(Seq::<Request>::empty()) is None,
        last_rate(Seq::<Request>::empty()) is None,
        has_exit(reqs) <==> exists|i: int| 0 <= i < reqs.len() && #[trigger] reqs[i] is Exit,
    decreases reqs.len(),
{
    if reqs.len() > 0 {
        let rest = reqs.drop_last();
        law_empty_merge_and_exit(rest);
        if has_exit(reqs) {
            if has_exit(rest) {
                let i = choose|i: int| 0 <= i < rest.len() && #[trigger] rest[i] is Exit;
                assert(reqs[i] == rest[i]);
            } else {
                assert(reqs[reqs.len() - 1] is Exit);
            }
        } else {
            assert forall|i: int| 0 <= i < reqs.len() implies !(#[trigger] reqs[i] is Exit) by {
                if i < reqs.len() - 1 {
                    assert(reqs[i] == rest[i]);
                    if reqs[i] is Exit {
                        assert(rest[i] is Exit);
                    }
                }
            }
        }
    }
}

/// A batch asks for nothing exactly when it has no seek, no net step, no play/pause and no rate
/// change; in particular a rate change alone is never idle.
pub proof fn law_idle_means_nothing_asked(b: RequestBatch)
    ensures
        batch_is_idle(b) <==> (b.seek_to is None && b.step == 0 && b.set_playing is None
            && b.set_rate is None),
        b.set_rate is Some ==> !batch_is_idle(b),
{
}

/// A step forwards and a step backwards sent together cancel out: the merged batch asks for
/// nothing.
pub proof fn law_opposite_steps_cancel(a: Request, b: Request)
    requires
        (a is StepForwards && b is StepBack) || (a is StepBack && b is StepForwards),
    ensures
        net_steps(seq![a, b]) == 0,
        last_seek(seq![a, b]) is None,
        last_play(seq![a, b]) is None,
        last_rate(seq![a, b]) is None,
        !has_exit(seq![a, b]),
{
    let s = seq![a, b];
    let s1 = seq![a];
    let s0 = Seq::<Request>::empty();
    assert(s.drop_last() =~= s1);
    assert(s1.drop_last() =~= s0);
    assert(!has_exit(s0));
    assert(!has_exit(s1));
    assert(net_steps(s1) == net_steps(s0) + if a is StepForwards { 1int } else { -1int });
    assert(last_seek(s1) == last_seek(s0));
    assert(last_play(s1) == last_play(s0));
    assert(last_rate(s1) == last_rate(s0));
}

/// The processing thread's stepping state: how many frames it still has to step (negative
/// for backwards) and whether it currently plays backwards.
#[derive(Clone, Copy, Debug, PartialEq, Eq, Structural)]
pub struct StepState {
    pub step: i64,
    pub backwards: bool,
}

/// Whether stepping backwards requires turning the playback direction around first.
pub open spec fn wants_backward_turn(s: StepState) -> bool {
    s.step < 0 && !s.backwards
}

/// Whether stepping forwards or playing requires turning the playback direction around first.
pub open spec fn wants_forward_turn(s: StepState, set_playing: Option<bool>) -> bool {
    (s.step > 0 || set_playing == Some(true)) && s.backwards
}

/// The state after turning to backwards: turning already steps one frame.
pub open spec fn after_backward_turn(s: StepState) -> StepState {
    StepState { step: (s.step + 1) as i64, backwards: true }
}

/// The state after turning to forwards: turning already steps one frame.
pub open spec fn after_forward_turn(s: StepState) -> StepState {
    StepState { step: (s.step - 1) as i64, backwards: false }
}

/// Whether the thread turns to playing backwards.
pub fn needs_backward_turn(s: &StepState) -> (r: bool)
    ensures
        r == wants_backward_turn(*s),
{
    s.step < 0 && !s.backwards
}

/// Records that the thread turned to playing backwards.
pub fn turned_backward(s: &mut StepState)
    requires
        wants_backward_turn(*old(s)),
    ensures
        *final(s) == after_backward_turn(*old(s)),
{
    s.step = s.step + 1;
    s.backwards = true;
}

/// Whether the thread turns to playing forwards.
pub fn needs_forward_turn(s: &StepState, set_playing: Option<bool>) -> (r: bool)
    ensures
        r == wants_forward_turn(*s, set_playing),
{
    (s.step > 0 || set_playing == Some(true)) && s.backwards
}

/// Records that the thread turned to playing forwards.
pub fn turned_forward(s: &mut StepState)
    requires
        old(s).step > i64::MIN,
    ensures
        *final(s) == after_forward_turn(*old(s)),
{
    s.step = s.step - 1;
    s.backwards = false;
}

/// A seek always plays forwards afterwards.
pub fn seeked(s: &mut StepState)
    ensures
        *final(s) == (StepState { step: old(s).step, backwards: false }),
{
    s.backwards = false;
}

/// The number of frames to step, in whichever direction.
pub fn frames_to_step(s: &StepState) -> (r: u64)
    ensures
        r as int == if s.step < 0 {
            -s.step
        } else {
            s.step as int
        },
{
    if s.step < 0 {
        if s.step == i64::MIN {
            9223372036854775808u64
        } else {
            (-s.step) as u64
        }
    } else {
        s.step as u64
    }
}

/// One frame back while playing forwards is done by the turn alone: the thread turns around
/// and has no frames left to step. The same holds for one frame forwards while playing
/// backwards.
pub proof fn law_single_step_is_the_turn()
    ensures
        wants_backward_turn(StepState { step: -1i64, backwards: false }),
        after_backward_turn(StepState { step: -1i64, backwards: false }) == (StepState {
            step: 0,
            backwards: true,
        }),
        wants_forward_turn(StepState { step: 1, backwards: true }, None),
        after_forward_turn(StepState { step: 1, backwards: true }) == (StepState {
            step: 0,
            backwards: false,
        }),
{
}

/// One piece of work the processing thread does for a batch of requests.
#[derive(Clone, Copy, Debug, PartialEq, Eq, Structural)]
pub enum ThreadAction {
    /// Seek to `position_ns`, playing forwards at the current speed, and take `seeks_batched`
    /// off the count of queued seeks.
    Seek { position_ns: u64, seeks_batched: u64 },
    /// Turn to playing backwards if the position is known; report whether it turned.
    TurnBackwards,
    /// Turn to playing forwards if the position is known; report whether it turned.
    TurnForwards,
    /// Step `frames` frames in the current direction.
    Step { frames: u64 },
    /// Change the playback speed, keeping the direction; the rate travels as the bit pattern of
    /// a binary64 number.
    SetRate { rate_bits: u64 },
    /// Play or pause.
    SetPlaying { play: bool },
    /// Stop the pipeline and end the thread.
    Shutdown,
    /// The batch is done: wait for the next requests.
    Done,
}

/// How far the processing thread got with a batch.
#[derive(Clone, Copy, Debug, PartialEq, Eq, Structural)]
pub enum BatchStage {
    /// Nothing done yet.
    Start,
    /// The seek, if any, is done.
    Seeked,
    /// Waiting to hear whether the turn to backwards happened.
    TurningBackwards,
    /// Waiting to hear whether the turn to forwards happened.
    TurningForwards,
    /// The frame step, if any, is done.
    Stepped,
    /// The rate change, if any, is done.
    RateSet,
    /// Everything is done.
    Finished,
}

/// The processing thread's work on one batch: the merged requests, the stepping state and the
/// stage reached.
#[derive(Clone, Copy, Debug, PartialEq, Eq, Structural)]
pub struct BatchRun {
    pub batch: RequestBatch,
    pub state: StepState,
    pub stage: BatchStage,
}

/// A reachable run: before and during the turns the step count is above `i64::MIN`, and a turn
/// is awaited only where one was wanted.
pub open spec fn run_wf(r: BatchRun) -> bool {
    &&& (r.stage is Start || r.stage is Seeked || r.stage is TurningBackwards
        || r.stage is TurningForwards) ==> r.state.step > i64::MIN
    &&& r.stage is TurningBackwards ==> wants_backward_turn(r.state)
}

/// The run of a batch, starting with the playback direction `backwards`.
pub open spec fn run_start(b: RequestBatch, backwards: bool) -> BatchRun {
    BatchRun { batch: b, state: StepState { step: b.step, backwards }, stage: BatchStage::Start }
}

/// The number of frames a step state still has to step.
pub open spec fn step_frames(s: StepState) -> int {
    if s.step < 0 {
        -s.step
    } else {
        s.step as int
    }
}

/// What remains after the play/pause decision.
pub open spec fn from_rate_set(r: BatchRun) -> (BatchRun, ThreadAction) {
    let done = BatchRun { stage: BatchStage::Finished, ..r };
    match r.batch.set_playing {
        Some(play) => (done, ThreadAction::SetPlaying { play }),
        None => (done, ThreadAction::Done),
    }
}

/// What remains from the rate change on.
pub open spec fn from_stepped(r: BatchRun) -> (BatchRun, ThreadAction) {
    match r.batch.set_rate {
        Some(rate_bits) => (
            BatchRun { stage: BatchStage::RateSet, ..r },
            ThreadAction::SetRate { rate_bits },
        ),
        None => from_rate_set(r),
    }
}

/// What remains from the frame step on.
pub open spec fn from_turned_forwards(r: BatchRun) -> (BatchRun, ThreadAction) {
    if r.state.step != 0 {
        (
            BatchRun { stage: BatchStage::Stepped, ..r },
            ThreadAction::Step { frames: step_frames(r.state) as u64 },
        )
    } else {
        from_stepped(r)
    }
}

/// What remains from the turn to forwards on.
pub open spec fn from_turned_backwards(r: BatchRun) -> (BatchRun, ThreadAction) {
    if wants_forward_turn(r.state, r.batch.set_playing) {
        (BatchRun { stage: BatchStage::TurningForwards, ..r }, ThreadAction::TurnForwards)
    } else {
        from_turned_forwards(r)
    }
}

/// What remains from the turn to backwards on.
pub open spec fn from_seeked(r: BatchRun) -> (BatchRun, ThreadAction) {
    if wants_backward_turn(r.state) {
        (BatchRun { stage: BatchStage::TurningBackwards, ..r }, ThreadAction::TurnBackwards)
    } else {
        from_turned_backwards(r)
    }
}

/// The next piece of work for a batch, and the run after it. `turned` reports whether the turn
/// asked for last happened; it counts only while a turn is awaited. The work comes in this
/// order: shut down on `Exit` (nothing else of the batch is done), nothing for a batch whose
/// requests cancelled out, then the seek (which plays forwards afterwards), the turn to
/// backwards, the turn to forwards, the frame step, the rate change and play/pause.
pub open spec fn run_step(r: BatchRun, turned: bool) -> (BatchRun, ThreadAction) {
    match r.stage {
        BatchStage::Start => if r.batch.exit {
            (BatchRun { stage: BatchStage::Finished, ..r }, ThreadAction::Shutdown)
        } else if batch_is_idle(r.batch) {
            (BatchRun { stage: BatchStage::Finished, ..r }, ThreadAction::Done)
        } else {
            match r.batch.seek_to {
                Some(position_ns) => (
                    BatchRun {
                        state: StepState { step: r.state.step, backwards: false },
                        stage: BatchStage::Seeked,
                        ..r
                    },
                    ThreadAction::Seek { position_ns, seeks_batched: r.batch.seeks_batched },
                ),
                None => from_seeked(r),
            }
        },
        BatchStage::Seeked => from_seeked(r),
        BatchStage::TurningBackwards => from_turned_backwards(
            if turned {
                BatchRun { state: after_backward_turn(r.state), ..r }
            } else {
                r
            },
        ),
        BatchStage::TurningForwards => from_turned_forwards(
            if turned {
                BatchRun { state: after_forward_turn(r.state), ..r }
            } else {
                r
            },
        ),
        BatchStage::Stepped => from_stepped(r),
        BatchStage::RateSet => from_rate_set(r),
        BatchStage::Finished => (r, ThreadAction::Done),
    }
}

/// Starts the work on a merged batch while playing in the direction `backwards`.
pub fn begin_batch(batch: RequestBatch, backwards: bool) -> (r: BatchRun)
    requires
        batch.step > i64::MIN,
    ensures
        r == run_start(batch, backwards),
        run_wf(r),
{
    BatchRun { batch, state: StepState { step: batch.step, backwards }, stage: BatchStage::Start }
}

fn rate_set_action(run: &mut BatchRun) -> (r: ThreadAction)
    ensures
        (*final(run), r) == from_rate_set(*old(run)),
{
    run.stage = BatchStage::Finished;
    match run.batch.set_playing {
        Some(play) => ThreadAction::SetPlaying { play },
        None => ThreadAction::Done,
    }
}

fn stepped_action(run: &mut BatchRun) -> (r: ThreadAction)
    ensures
        (*final(run), r) == from_stepped(*old(run)),
{
    match run.batch.set_rate {
        Some(rate_bits) => {
            run.stage = BatchStage::RateSet;
            ThreadAction::SetRate { rate_bits }
        },
        None => rate_set_action(run),
    }
}

fn turned_forwards_action(run: &mut BatchRun) -> (r: ThreadAction)
    ensures
        (*final(run), r) == from_turned_forwards(*old(run)),
{
    if run.state.step != 0 {
        run.stage = BatchStage::Stepped;
        ThreadAction::Step { frames: frames_to_step(&run.state) }
    } else {
        stepped_action(run)
    }
}

fn turned_backwards_action(run: &mut BatchRun) -> (r: ThreadAction)
    requires
        old(run).state.step > i64::MIN,
    ensures
        (*final(run), r) == from_turned_backwards(*old(run)),
        run_wf(*final(run)),
{
    if needs_forward_turn(&run.state, run.batch.set_playing) {
        run.stage = BatchStage::TurningForwards;
        ThreadAction::TurnForwards
    } else {
        turned_forwards_action(run)
    }
}

fn seeked_action(run: &mut BatchRun) -> (r: ThreadAction)
    requires
        old(run).state.step > i64::MIN,
    ensures
        (*final(run), r) == from_seeked(*old(run)),
        run_wf(*final(run)),
{
    if needs_backward_turn(&run.state) {
        run.stage = BatchStage::TurningBackwards;
        ThreadAction::TurnBackwards
    } else {
        turned_backwards_action(run)
    }
}

/// Decides the next piece of work for a batch; `turned` reports whether the turn asked for
/// last happened.
pub fn next_action(run: &mut BatchRun, turned: bool) -> (r: ThreadAction)
    requires
        run_wf(*old(run)),
    ensures
        (*final(run), r) == run_step(*old(run), turned),
        run_wf(*final(run)),
{
    match run.stage {
        BatchStage::Start => {
            if run.batch.exit {
                run.stage = BatchStage::Finished;
                ThreadAction::Shutdown
            } else if is_idle(&run.batch) {
                run.stage = BatchStage::Finished;
                ThreadAction::Done
            } else {
                match run.batch.seek_to {
                    Some(position_ns) => {
                        seeked(&mut run.state);
                        run.stage = BatchStage::Seeked;
                        ThreadAction::Seek { position_ns, seeks_batched: run.batch.seeks_batched }
                    },
                    None => seeked_action(run),
                }
            }
        },
        BatchStage::Seeked => seeked_action(run),
        BatchStage::TurningBackwards => {
            if turned {
                turned_backward(&mut run.state);
            }
            turned_backwards_action(run)
        },
        BatchStage::TurningForwards => {
            if turned {
                turned_forward(&mut run.state);
            }
            turned_forwards_action(run)
        },
        BatchStage::Stepped => stepped_action(run),
        BatchStage::RateSet => rate_set_action(run),
        BatchStage::Finished => ThreadAction::Done,
    }
}

/// The order of a stage in the work on a batch.
pub open spec fn stage_rank(st: BatchStage) -> int {
    match st {
        BatchStage::Start => 0,
        BatchStage::Seeked => 1,
        BatchStage::TurningBackwards => 2,
        BatchStage::TurningForwards => 3,
        BatchStage::Stepped => 4,
        BatchStage::RateSet => 5,
        BatchStage::Finished => 6,
    }
}

/// The stage that a piece of work brings the batch to.
pub open spec fn stage_after(a: ThreadAction) -> BatchStage {
    match a {
        ThreadAction::Seek { .. } => BatchStage::Seeked,
        ThreadAction::TurnBackwards => BatchStage::TurningBackwards,
        ThreadAction::TurnForwards => BatchStage::TurningForwards,
        ThreadAction::Step { .. } => BatchStage::Stepped,
        ThreadAction::SetRate { .. } => BatchStage::RateSet,
        _ => BatchStage::Finished,
    }
}

/// Each piece of work moves the batch strictly forwards through the stages seek, turn
/// backwards, turn forwards, step, rate, play/pause, so the work comes in that order and each
/// kind at most once; the batch itself never changes, and each piece of work carries what the
/// batch asked for: the last seek's target with the number of seeks, the frames still to step,
/// the last rate, the last play/pause request. `Done` or `Shutdown` first thing, on a run as
/// `begin_batch` starts it, means an idle batch or one with an `Exit`.
pub proof fn law_work_follows_the_batch(r: BatchRun, turned: bool)
    requires
        run_wf(r),
        !(r.stage is Finished),
        r.stage is Start ==> r.state.step == r.batch.step,
    ensures
        ({
            let (r2, a) = run_step(r, turned);
            &&& r2.batch == r.batch
            &&& r2.stage == stage_after(a)
            &&& stage_rank(r2.stage) > stage_rank(r.stage)
            &&& run_wf(r2)
            &&& (a matches ThreadAction::Seek { position_ns, seeks_batched } ==> r.batch.seek_to
                == Some(position_ns) && seeks_batched == r.batch.seeks_batched && !r.batch.exit
                && !r2.state.backwards)
            &&& (a matches ThreadAction::Step { frames } ==> r2.state.step != 0 && frames as int
                == (if r2.state.step < 0 {
                -r2.state.step
            } else {
                r2.state.step as int
            }))
            &&& (a matches ThreadAction::SetRate { rate_bits } ==> r.batch.set_rate == Some(
                rate_bits,
            ))
            &&& (a matches ThreadAction::SetPlaying { play } ==> r.batch.set_playing == Some(
                play,
            ))
            &&& (a is Shutdown <==> r.stage is Start && r.batch.exit)
            &&& (a is Done && r.stage is Start ==> batch_is_idle(r.batch))
        }),
{
    let (r2, a) = run_step(r, turned);
    assert(r2.batch == r.batch);
    assert(r2.stage == stage_after(a));
    assert(stage_rank(r2.stage) > stage_rank(r.stage));
    assert(run_wf(r2));
    assert(a matches ThreadAction::Seek { position_ns, seeks_batched } ==> r.batch.seek_to
        == Some(position_ns) && seeks_batched == r.batch.seeks_batched && !r.batch.exit
        && !r2.state.backwards);
    assert(a matches ThreadAction::Step { frames } ==> r2.state.step != 0 && frames as int == (
    if r2.state.step < 0 {
        -r2.state.step
    } else {
        r2.state.step as int
    }));
    assert(a is Shutdown <==> r.stage is Start && r.batch.exit);
    assert(a is Done && r.stage is Start ==> batch_is_idle(r.batch));
}

/// A rate change that was asked for is always applied: until it is, no piece of work ends the
/// batch, and a batch that asks only for a rate change does just that first.
pub proof fn law_rate_change_is_applied(r: BatchRun, turned: bool, rate_bits: u64)
    requires
        run_wf(r),
        !r.batch.exit,
        r.batch.set_rate == Some(rate_bits),
        stage_rank(r.stage) < stage_rank(BatchStage::RateSet),
    ensures
        !batch_is_idle(r.batch),
        ({
            let (r2, a) = run_step(r, turned);
            &&& !(a is Done) && !(a is Shutdown) && !(a is SetPlaying)
            &&& (a == ThreadAction::SetRate { rate_bits } <==> r2.stage is RateSet)
            &&& stage_rank(r2.stage) <= stage_rank(BatchStage::RateSet)
        }),
        r.stage is Start && r.batch.seek_to is None && r.batch.step == 0 && r.state.step == 0
            && !(r.batch.set_playing == Some(true) && r.state.backwards) ==> run_step(r, turned).1
            == (ThreadAction::SetRate { rate_bits }),
{
}

/// A batch that holds an `Exit` does nothing but shut down: none of its requests is applied.
pub proof fn law_exit_applies_nothing(b: RequestBatch, backwards: bool, turned: bool)
    requires
        b.exit,
    ensures
        run_step(run_start(b, backwards), turned).1 == ThreadAction::Shutdown,
        run_step(run_start(b, backwards), turned).0.stage == BatchStage::Finished,
        run_step(run_step(run_start(b, backwards), turned).0, turned).1 == ThreadAction::Done,
{
}

/// A batch with a seek seeks once, first, to the last seek's target and takes every batched
/// seek off the queue; afterwards it plays forwards, and unless it steps backwards it never
/// turns around.
pub proof fn law_seek_plays_forwards(
    b: RequestBatch,
    backwards: bool,
    turned1: bool,
    turned2: bool,
)
    requires
        !b.exit,
        b.seek_to is Some,
        b.step >= 0,
    ensures
        run_step(run_start(b, backwards), turned1).1 == (ThreadAction::Seek {
            position_ns: b.seek_to->0,
            seeks_batched: b.seeks_batched,
        }),
        !run_step(run_start(b, backwards), turned1).0.state.backwards,
        ({
            let (r2, a2) = run_step(run_step(run_start(b, backwards), turned1).0, turned2);
            &&& a2 != ThreadAction::TurnBackwards
            &&& a2 != ThreadAction::TurnForwards
            &&& !r2.state.backwards
        }),
{
}

/// The request that toggling play/pause sends: none when the player already is in the asked
/// state.
pub fn play_request(is_playing: bool, play: bool) -> (r: Option<Request>)
    ensures
        r == if is_playing == play {
            None::<Request>
        } else {
            Some(Request::SetPlaying { play })
        },
{
    if is_playing == play {
        None
    } else {
        Some(Request::SetPlaying { play })
    }
}

/// The request that a frame step sends: none while playing, since stepping only happens
/// while paused.
pub fn step_request(is_playing: bool, forwards: bool) -> (r: Option<Request>)
    ensures
        r == if is_playing {
            None::<Request>
        } else if forwards {
            Some(Request::StepForwards)
        } else {
            Some(Request::StepBack)
        },
{
    if is_playing {
        None
    } else if forwards {
        Some(Request::StepForwards)
    } else {
        Some(Request::StepBack)
    }
}

/// The new value of the cached playback position after a position query: `None` when nothing
/// changes, because the query gave nothing or gave the cached value.
pub fn changed_value(cached: Option<u64>, queried: Option<u64>) -> (r: Option<u64>)
    ensures
        r == if queried is None || queried == cached {
            None::<u64>
        } else {
            queried
        },
{
    match queried {
        None => None,
        Some(q) => if cached == Some(q) {
            None
        } else {
            Some(q)
        },
    }
}

/// The playback position label for a position in nanoseconds: `m:ss` below one hour,
/// `h:mm:ss` from one hour on.
pub open spec fn position_label(ns: nat) -> Seq<char> {
    let total_seconds = ns / 1_000_000_000;
    let hours = total_seconds / 3600;
    let minutes = (total_seconds / 60) % 60;
    let seconds = total_seconds % 60;
    if hours == 0 {
        decimal(minutes) + seq![':'] + decimal_pad2(seconds)
    } else {
        decimal(hours) + seq![':'] + decimal_pad2(minutes) + seq![':'] + decimal_pad2(seconds)
    }
}

/// The two digits of a number below one hundred.
proof fn lemma_pad2_digits(n: nat)
    requires
        n < 100,
    ensures
        decimal_pad2(n) == seq![digit_char(n / 10), digit_char(n % 10)],
{
    if n >= 10 {
        assert(decimal(n / 10) == seq![digit_char(n / 10)]);
        assert(decimal(n) == decimal(n / 10).push(digit_char(n % 10)));
        assert(decimal(n) =~= seq![digit_char(n / 10), digit_char(n % 10)]);
    } else {
        assert(digit_char(0) == '0');
    }
}

/// The position label spelled out: with `t` the whole seconds, below one hour it is the
/// minutes, a colon and the seconds as two digits; from one hour on it is the hours, a colon,
/// the minutes as two digits, a colon and the seconds as two digits.
pub proof fn law_position_label_digits(ns: nat)
    ensures
        ({
            let t = ns / 1_000_000_000;
            let h = t / 3600;
            let m = (t / 60) % 60;
            let sec = t % 60;
            &&& h == 0 ==> position_label(ns) == decimal(m) + seq![
                ':',
                digit_char(sec / 10),
                digit_char(sec % 10),
            ]
            &&& h > 0 ==> position_label(ns) == decimal(h) + seq![
                ':',
                digit_char(m / 10),
                digit_char(m % 10),
                ':',
                digit_char(sec / 10),
                digit_char(sec % 10),
            ]
            &&& h > 0 ==> position_label(ns).len() == decimal(h).len() + 6
        }),
{
    let t = ns / 1_000_000_000;
    let h = t / 3600;
    let m = (t / 60) % 60;
    let sec = t % 60;
    lemma_pad2_digits(m);
    lemma_pad2_digits(sec);
    if h == 0 {
        assert(position_label(ns) =~= decimal(m) + seq![
            ':',
            digit_char(sec / 10),
            digit_char(sec % 10),
        ]);
    } else {
        assert(position_label(ns) =~= decimal(h) + seq![
            ':',
            digit_char(m / 10),
            digit_char(m % 10),
            ':',
            digit_char(sec / 10),
            digit_char(sec % 10),
        ]);
    }
}

/// Formats a playback position given in nanoseconds.
pub fn format_position(position_ns: u64) -> (r: String)
    ensures
        r@ == position_label(position_ns as nat),
{
    let nanoseconds = position_ns;
    let mut seconds = nanoseconds / 1_000_000_000;
    let mut minutes = seconds / 60;
    let hours = minutes / 60;
    seconds = seconds % 60;
    minutes = minutes % 60;
    assert(hours == (position_ns / 1_000_000_000) / 3600) by (nonlinear_arith)
        requires
            hours == ((position_ns / 1_000_000_000) / 60) / 60,
    ;
    let mut label = String::new();
    if hours == 0 {
        push_decimal(&mut label, minutes);
        push_char(&mut label, ':');
        push_decimal_pad2(&mut label, seconds);
    } else {
        push_decimal(&mut label, hours);
        push_char(&mut label, ':');
        push_decimal_pad2(&mut label, minutes);
        push_char(&mut label, ':');
        push_decimal_pad2(&mut label, seconds);
    }
    label
}

/// The states of a playback pipeline.
#[derive(Clone, Copy, Debug, PartialEq, Eq, Structural)]
pub enum PipelineState {
    VoidPending,
    Null,
    Ready,
    Paused,
    Playing,
}

/// The messages of the player's pipeline bus that the player reacts to.
#[derive(Clone, Copy, Debug, PartialEq, Eq, Structural)]
pub enum PlayerBusEvent {
    /// The pipeline itself changed state.
    PipelineStateChanged { current: PipelineState, pending: PipelineState },
    /// The duration of the media changed.
    DurationChanged,
    /// Playback reached the end.
    EndOfStream,
    /// Some element reported an error.
    Error,
    /// Anything else.
    Other,
}

/// What the player does for a bus message.
#[derive(Clone, Copy, Debug, PartialEq, Eq, Structural)]
pub enum PlayerBusAction {
    /// Record whether the pipeline plays, and notify.
    SetIsPlaying { playing: bool },
    /// Query the duration again.
    UpdateDuration,
    /// Seek back to the start, so playback loops.
    SeekToStart,
    /// Remove the failing source from the pipeline and report it.
    DetachFailingSource,
    /// Nothing.
    Nothing,
}

/// The player's reaction to a bus message.
pub open spec fn player_bus_reaction(ev: PlayerBusEvent) -> PlayerBusAction {
    match ev {
        PlayerBusEvent::PipelineStateChanged { current, pending } => if pending
            == PipelineState::VoidPending && current == PipelineState::Playing {
            PlayerBusAction::SetIsPlaying { playing: true }
        } else if pending == PipelineState::VoidPending && current == PipelineState::Paused {
            PlayerBusAction::SetIsPlaying { playing: false }
        } else {
            PlayerBusAction::Nothing
        },
        PlayerBusEvent::DurationChanged => PlayerBusAction::UpdateDuration,
        PlayerBusEvent::EndOfStream => PlayerBusAction::SeekToStart,
        PlayerBusEvent::Error => PlayerBusAction::DetachFailingSource,
        PlayerBusEvent::Other => PlayerBusAction::Nothing,
    }
}

/// The player records playing only when its pipeline settles in `Playing`, and paused only
/// when it settles in `Paused`; a state change still pending does nothing. The end of the
/// stream loops back to the start, an error detaches the failing source, and a new duration is
/// queried again.
pub proof fn law_player_follows_the_settled_state(current: PipelineState, pending: PipelineState)
    ensures
        player_bus_reaction(PlayerBusEvent::PipelineStateChanged { current, pending })
            == (PlayerBusAction::SetIsPlaying { playing: true }) <==> current
            == PipelineState::Playing && pending == PipelineState::VoidPending,
        player_bus_reaction(PlayerBusEvent::PipelineStateChanged { current, pending })
            == (PlayerBusAction::SetIsPlaying { playing: false }) <==> current
            == PipelineState::Paused && pending == PipelineState::VoidPending,
        pending != PipelineState::VoidPending ==> player_bus_reaction(
            PlayerBusEvent::PipelineStateChanged { current, pending },
        ) == PlayerBusAction::Nothing,
        player_bus_reaction(PlayerBusEvent::EndOfStream) == PlayerBusAction::SeekToStart,
        player_bus_reaction(PlayerBusEvent::Error) == PlayerBusAction::DetachFailingSource,
        player_bus_reaction(PlayerBusEvent::DurationChanged) == PlayerBusAction::UpdateDuration,
        player_bus_reaction(PlayerBusEvent::Other) == PlayerBusAction::Nothing,
{
}

/// Chooses the player's reaction to a bus message.
pub fn on_player_bus_event(ev: PlayerBusEvent) -> (r: PlayerBusAction)
    ensures
        r == player_bus_reaction(ev),
{
    match ev {
        PlayerBusEvent::PipelineStateChanged { current, pending } => {
            match (current, pending) {
                (PipelineState::Playing, PipelineState::VoidPending) => {
                    PlayerBusAction::SetIsPlaying { playing: true }
                },
                (PipelineState::Paused, PipelineState::VoidPending) => {
                    PlayerBusAction::SetIsPlaying { playing: false }
                },
                _ => PlayerBusAction::Nothing,
            }
        },
        PlayerBusEvent::DurationChanged => PlayerBusAction::UpdateDuration,
        PlayerBusEvent::EndOfStream => PlayerBusAction::SeekToStart,
        PlayerBusEvent::Error => PlayerBusAction::DetachFailingSource,
        PlayerBusEvent::Other => PlayerBusAction::Nothing,
    }
}

} // verus!
