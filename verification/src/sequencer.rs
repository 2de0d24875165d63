//! The register-write pass as a step machine.
//!
//! A pass sends four frames in a fixed order: channel enable, frequency tuning
//! word, I/O load strobe, I/O update strobe. The machine hands out one frame at
//! a time and takes the outcome of its transfer back; the first transfer that
//! fails ends the pass, and nothing is sent after it.

use vstd::prelude::*;
use crate::error::{DriverError, TransferFault};
use crate::frame::{
    channel_enable_frame, channel_enable_frame_spec, frequency_frame, frequency_frame_spec,
    load_strobe_frame, load_strobe_frame_spec, update_strobe_frame, update_strobe_frame_spec,
    ChannelEnable, Frame, FrameView,
};

verus! {

/// The four transfers of a pass, in the order in which they are sent.
#[derive(Debug, Clone, Copy, PartialEq, Eq, Structural)]
pub enum Step {
    ChannelEnable,
    FrequencyWord,
    LoadStrobe,
    UpdateStrobe,
}

/// Where a pass stands.
#[derive(Debug, Clone, Copy, PartialEq, Eq, Structural)]
pub enum Progress {
    /// The frame of this step was handed out and its outcome is awaited.
    Sending(Step),
    /// All four frames were accepted.
    Complete,
    /// A transfer failed; the pass is over.
    Aborted(TransferFault),
}

/// What the transport reports of one bulk write.
#[derive(Debug, Clone, Copy, PartialEq, Eq, Structural)]
pub enum TransferOutcome {
    /// The transfer completed and took this many bytes.
    Written(usize),
    /// The timeout elapsed first.
    TimedOut,
    /// The transport reported an error.
    Failed,
}

/// What the transport loop does next.
#[derive(Debug, PartialEq, Eq)]
pub enum ProgramAction {
    /// Send this frame and report the outcome.
    Transfer(Frame),
    /// The pass is complete; there is nothing left to send.
    Finish,
    /// The pass has failed with this error; there is nothing left to send.
    Abort(DriverError),
}

/// A `ProgramAction` as a mathematical value.
pub enum ProgramActionView {
    Transfer(FrameView),
    Finish,
    Abort(DriverError),
}

impl View for ProgramAction {
    type V = ProgramActionView;

    open spec fn view(&self) -> ProgramActionView {
        match self {
            ProgramAction::Transfer(frame) => ProgramActionView::Transfer(frame@),
            ProgramAction::Finish => ProgramActionView::Finish,
            ProgramAction::Abort(error) => ProgramActionView::Abort(*error),
        }
    }
}

/// The state of a pass as a mathematical value.
pub struct SequencerView {
    /// Channel-select byte of this pass.
    pub mask: u8,
    /// Frequency tuning word of this pass.
    pub tuning_word: u32,
    pub progress: Progress,
}

impl Step {
    /// Position of the step in the pass, from 0.
    pub open spec fn index(self) -> int {
        match self {
            Step::ChannelEnable => 0,
            Step::FrequencyWord => 1,
            Step::LoadStrobe => 2,
            Step::UpdateStrobe => 3,
        }
    }

    /// The step that follows, if any.
    pub open spec fn successor(self) -> Option<Step> {
        match self {
            Step::ChannelEnable => Some(Step::FrequencyWord),
            Step::FrequencyWord => Some(Step::LoadStrobe),
            Step::LoadStrobe => Some(Step::UpdateStrobe),
            Step::UpdateStrobe => None,
        }
    }
}

/// The frame that `step` sends in a pass with these parameters.
pub open spec fn frame_of(step: Step, mask: u8, tuning_word: u32) -> FrameView {
    match step {
        Step::ChannelEnable => channel_enable_frame_spec(mask),
        Step::FrequencyWord => frequency_frame_spec(tuning_word),
        Step::LoadStrobe => load_strobe_frame_spec(),
        Step::UpdateStrobe => update_strobe_frame_spec(),
    }
}

/// The whole pass: every frame, in the order of sending.
pub open spec fn program_script(mask: u8, tuning_word: u32) -> Seq<FrameView> {
    seq![
        channel_enable_frame_spec(mask),
        frequency_frame_spec(tuning_word),
        load_strobe_frame_spec(),
        update_strobe_frame_spec(),
    ]
}

/// The fault, if any, that `outcome` is for a frame of `length` bytes. A
/// transfer counts as done only when it took the whole frame.
pub open spec fn fault_of(outcome: TransferOutcome, length: nat) -> Option<TransferFault> {
    match outcome {
        TransferOutcome::Written(count) => if count < length {
            Some(TransferFault::ShortWrite)
        } else {
            None
        },
        TransferOutcome::TimedOut => Some(TransferFault::Timeout),
        TransferOutcome::Failed => Some(TransferFault::Transport),
    }
}

/// State of a pass before any outcome: the channel-enable frame is out.
pub open spec fn initial_state(mask: u8, tuning_word: u32) -> SequencerView {
    SequencerView { mask, tuning_word, progress: Progress::Sending(Step::ChannelEnable) }
}

/// One move of the machine: the state after `outcome` and what to do next.
pub open spec fn step_spec(state: SequencerView, outcome: TransferOutcome) -> (
    SequencerView,
    ProgramActionView,
) {
    match state.progress {
        Progress::Sending(step) => {
            let sent = frame_of(step, state.mask, state.tuning_word);
            match fault_of(outcome, sent.payload.len()) {
                Some(fault) => (
                    SequencerView { progress: Progress::Aborted(fault), ..state },
                    ProgramActionView::Abort(DriverError::TransferError(fault)),
                ),
                None => match step.successor() {
                    Some(following) => (
                        SequencerView { progress: Progress::Sending(following), ..state },
                        ProgramActionView::Transfer(
                            frame_of(following, state.mask, state.tuning_word),
                        ),
                    ),
                    None => (
                        SequencerView { progress: Progress::Complete, ..state },
                        ProgramActionView::Finish,
                    ),
                },
            }
        },
        Progress::Complete => (state, ProgramActionView::Finish),
        Progress::Aborted(fault) => (
            state,
            ProgramActionView::Abort(DriverError::TransferError(fault)),
        ),
    }
}

/// The frames that an action puts on the wire: one, or none.
pub open spec fn issued_by(action: ProgramActionView) -> Seq<FrameView> {
    match action {
        ProgramActionView::Transfer(frame) => seq![frame],
        _ => Seq::empty(),
    }
}

/// The state reached from `state` once the transport has reported `outcomes`, in order.
pub open spec fn state_after(state: SequencerView, outcomes: Seq<TransferOutcome>) -> SequencerView
    decreases outcomes.len(),
{
    if outcomes.len() == 0 {
        state
    } else {
        state_after(step_spec(state, outcomes[0]).0, outcomes.drop_first())
    }
}

/// The frames issued from `state` in answer to `outcomes`, in order.
pub open spec fn issued_after(state: SequencerView, outcomes: Seq<TransferOutcome>) -> Seq<
    FrameView,
>
    decreases outcomes.len(),
{
    if outcomes.len() == 0 {
        Seq::empty()
    } else {
        let moved = step_spec(state, outcomes[0]);
        issued_by(moved.1) + issued_after(moved.0, outcomes.drop_first())
    }
}

/// Every frame handed to the transport in a pass whose transfers end as
/// `outcomes` say: the opening frame, then whatever each outcome released.
pub open spec fn transmitted(mask: u8, tuning_word: u32, outcomes: Seq<TransferOutcome>) -> Seq<
    FrameView,
> {
    seq![channel_enable_frame_spec(mask)] + issued_after(
        initial_state(mask, tuning_word),
        outcomes,
    )
}

/// A register-write pass in progress.
#[derive(Debug, Clone, Copy, PartialEq, Eq)]
pub struct Sequencer {
    select: ChannelEnable,
    tuning_word: u32,
    progress: Progress,
}

impl View for Sequencer {
    type V = SequencerView;

    closed spec fn view(&self) -> SequencerView {
        SequencerView {
            mask: self.select@,
            tuning_word: self.tuning_word,
            progress: self.progress,
        }
    }
}

/// Builds the frame of `step`.
pub fn step_frame(step: Step, select: ChannelEnable, tuning_word: u32) -> (frame: Frame)
    ensures
        frame@ == frame_of(step, select@, tuning_word),
{
    match step {
        Step::ChannelEnable => channel_enable_frame(select),
        Step::FrequencyWord => frequency_frame(tuning_word),
        Step::LoadStrobe => load_strobe_frame(),
        Step::UpdateStrobe => update_strobe_frame(),
    }
}

/// Number of bytes in the frame of `step`; it does not depend on the pass's parameters.
pub fn step_frame_len(step: Step) -> (length: usize)
    ensures
        forall|mask: u8, tuning_word: u32|
            length == (#[trigger] frame_of(step, mask, tuning_word)).payload.len(),
{
    match step {
        Step::ChannelEnable => 16,
        Step::FrequencyWord => 40,
        Step::LoadStrobe => 2,
        Step::UpdateStrobe => 2,
    }
}

/// Builds all four frames of a pass, in the order of sending.
pub fn program_frames(select: ChannelEnable, tuning_word: u32) -> (frames: Vec<Frame>)
    ensures
        frames@.len() == 4,
        forall|i: int| 0 <= i < 4 ==> (#[trigger] frames@[i])@ == program_script(select@, tuning_word)[i],
{
    let mut frames: Vec<Frame> = Vec::new();
    frames.push(channel_enable_frame(select));
    frames.push(frequency_frame(tuning_word));
    frames.push(load_strobe_frame());
    frames.push(update_strobe_frame());
    frames
}

impl Sequencer {
    /// Opens a pass and hands out its first frame, the channel enable.
    pub fn start(select: ChannelEnable, tuning_word: u32) -> (opened: (Sequencer, Frame))
        ensures
            opened.0@ == initial_state(select@, tuning_word),
            opened.1@ == channel_enable_frame_spec(select@),
    {
        (
            Sequencer { select, tuning_word, progress: Progress::Sending(Step::ChannelEnable) },
            channel_enable_frame(select),
        )
    }

    /// Takes the outcome of the transfer in flight and says what to do next.
    ///
    /// A transfer that took the whole frame releases the next frame, or ends
    /// the pass after the update strobe. Any other outcome aborts the pass.
    /// Once the pass is complete or aborted, further outcomes change nothing
    /// and release nothing.
    pub fn advance(self, outcome: TransferOutcome) -> (moved: (Sequencer, ProgramAction))
        ensures
            (moved.0@, moved.1@) == step_spec(self@, outcome),
    {
        match self.progress {
            Progress::Sending(step) => {
                let length: usize = step_frame_len(step);
                let fault: Option<TransferFault> = match outcome {
                    TransferOutcome::Written(count) => if count < length {
                        Some(TransferFault::ShortWrite)
                    } else {
                        None
                    },
                    TransferOutcome::TimedOut => Some(TransferFault::Timeout),
                    TransferOutcome::Failed => Some(TransferFault::Transport),
                };
                assert(fault == fault_of(
                    outcome,
                    frame_of(step, self.select@, self.tuning_word).payload.len(),
                ));
                match fault {
                    Some(fault) => (
                        Sequencer { progress: Progress::Aborted(fault), ..self },
                        ProgramAction::Abort(DriverError::TransferError(fault)),
                    ),
                    None => {
                        let following: Option<Step> = match step {
                            Step::ChannelEnable => Some(Step::FrequencyWord),
                            Step::FrequencyWord => Some(Step::LoadStrobe),
                            Step::LoadStrobe => Some(Step::UpdateStrobe),
                            Step::UpdateStrobe => None,
                        };
                        match following {
                            Some(following) => (
                                Sequencer { progress: Progress::Sending(following), ..self },
                                ProgramAction::Transfer(
                                    step_frame(following, self.select, self.tuning_word),
                                ),
                            ),
                            None => (
                                Sequencer { progress: Progress::Complete, ..self },
                                ProgramAction::Finish,
                            ),
                        }
                    },
                }
            },
            Progress::Complete => (self, ProgramAction::Finish),
            Progress::Aborted(fault) => (
                self,
                ProgramAction::Abort(DriverError::TransferError(fault)),
            ),
        }
    }

    /// Where the pass stands.
    pub fn progress(&self) -> (progress: Progress)
        ensures
            progress == self@.progress,
    {
        self.progress
    }

    /// The channel selection of this pass.
    pub fn select(&self) -> (select: ChannelEnable)
        ensures
            select@ == self@.mask,
    {
        self.select
    }

    /// The frequency tuning word of this pass.
    pub fn tuning_word(&self) -> (word: u32)
        ensures
            word == self@.tuning_word,
    {
        self.tuning_word
    }
}

/// Reporting `first` and then `rest` is reporting them one after the other.
pub proof fn lemma_run_splits(
    state: SequencerView,
    first: Seq<TransferOutcome>,
    rest: Seq<TransferOutcome>,
)
    ensures
        state_after(state, first + rest) == state_after(state_after(state, first), rest),
        issued_after(state, first + rest) == issued_after(state, first) + issued_after(
            state_after(state, first),
            rest,
        ),
    decreases first.len(),
{
    if first.len() == 0 {
        assert(first + rest =~= rest);
        assert(issued_after(state, first) + issued_after(state, rest) =~= issued_after(
            state,
            rest,
        ));
    } else {
        let moved = step_spec(state, first[0]);
        assert((first + rest).drop_first() =~= first.drop_first() + rest);
        assert((first + rest)[0] == first[0]);
        lemma_run_splits(moved.0, first.drop_first(), rest);
        assert(issued_after(state, first + rest) =~= issued_after(state, first) + issued_after(
            state_after(state, first),
            rest,
        ));
    }
}

/// A pass that is complete or aborted stays as it is and sends nothing more,
/// whatever is reported to it.
pub proof fn lemma_ended_pass_is_silent(state: SequencerView, outcomes: Seq<TransferOutcome>)
    requires
        !(state.progress is Sending),
    ensures
        state_after(state, outcomes) == state,
        issued_after(state, outcomes) == Seq::<FrameView>::empty(),
    decreases outcomes.len(),
{
    if outcomes.len() > 0 {
        lemma_ended_pass_is_silent(state, outcomes.drop_first());
        assert(issued_after(state, outcomes) =~= Seq::<FrameView>::empty());
    }
}

/// From a step in flight, what is issued next is the part of the script that
/// follows that step, in order and without gaps; the parameters never change.
proof fn lemma_issued_continues_script(
    state: SequencerView,
    step: Step,
    outcomes: Seq<TransferOutcome>,
)
    requires
        state.progress == Progress::Sending(step),
    ensures
        issued_after(state, outcomes).len() <= 3 - step.index(),
        forall|i: int|
            0 <= i < issued_after(state, outcomes).len() ==> #[trigger] issued_after(
                state,
                outcomes,
            )[i] == program_script(state.mask, state.tuning_word)[step.index() + 1 + i],
    decreases outcomes.len(),
{
    if outcomes.len() > 0 {
        let moved = step_spec(state, outcomes[0]);
        let rest = outcomes.drop_first();
        match moved.0.progress {
            Progress::Sending(following) => {
                lemma_issued_continues_script(moved.0, following, rest);
            },
            _ => {
                lemma_ended_pass_is_silent(moved.0, rest);
            },
        }
    }
}

/// Whatever the transport reports, the frames sent are the script from its
/// start, in order, up to some point: at least the channel enable, at most
/// all four, none twice, none out of turn and none that is not in the script.
pub proof fn lemma_transmitted_is_script_prefix(
    mask: u8,
    tuning_word: u32,
    outcomes: Seq<TransferOutcome>,
)
    ensures
        1 <= transmitted(mask, tuning_word, outcomes).len() <= 4,
        transmitted(mask, tuning_word, outcomes) == program_script(mask, tuning_word).take(
            transmitted(mask, tuning_word, outcomes).len() as int,
        ),
{
    let sent = transmitted(mask, tuning_word, outcomes);
    lemma_issued_continues_script(initial_state(mask, tuning_word), Step::ChannelEnable, outcomes);
    assert(sent =~= program_script(mask, tuning_word).take(sent.len() as int));
}

/// The update strobe is never sent before the load strobe, and neither strobe
/// is sent before the channel-enable and frequency frames of the same pass:
/// wherever a strobe stands among the frames sent, the frames it must follow
/// stand before it, in their order.
pub proof fn lemma_strobes_follow_register_writes(
    mask: u8,
    tuning_word: u32,
    outcomes: Seq<TransferOutcome>,
    i: int,
)
    requires
        0 <= i < transmitted(mask, tuning_word, outcomes).len(),
    ensures
        transmitted(mask, tuning_word, outcomes)[i] == load_strobe_frame_spec() ==> {
            &&& i == 2
            &&& transmitted(mask, tuning_word, outcomes)[0] == channel_enable_frame_spec(mask)
            &&& transmitted(mask, tuning_word, outcomes)[1] == frequency_frame_spec(tuning_word)
        },
        transmitted(mask, tuning_word, outcomes)[i] == update_strobe_frame_spec() ==> {
            &&& i == 3
            &&& transmitted(mask, tuning_word, outcomes)[0] == channel_enable_frame_spec(mask)
            &&& transmitted(mask, tuning_word, outcomes)[1] == frequency_frame_spec(tuning_word)
            &&& transmitted(mask, tuning_word, outcomes)[2] == load_strobe_frame_spec()
        },
{
    lemma_transmitted_is_script_prefix(mask, tuning_word, outcomes);
    let script = program_script(mask, tuning_word);
    assert(load_strobe_frame_spec().payload[1] != update_strobe_frame_spec().payload[1]);
    assert(script[0].endpoint != load_strobe_frame_spec().endpoint);
    assert(script[1].endpoint != load_strobe_frame_spec().endpoint);
}

/// A transfer that fails ends the pass there: the pass is aborted with that
/// fault, and the frames sent are those sent up to the failure, however many
/// outcomes are reported afterwards.
pub proof fn lemma_failure_ends_transmission(
    mask: u8,
    tuning_word: u32,
    outcomes: Seq<TransferOutcome>,
    k: int,
    step: Step,
    fault: TransferFault,
)
    requires
        0 <= k < outcomes.len(),
        state_after(initial_state(mask, tuning_word), outcomes.take(k)).progress
            == Progress::Sending(step),
        fault_of(outcomes[k], frame_of(step, mask, tuning_word).payload.len()) == Some(fault),
    ensures
        transmitted(mask, tuning_word, outcomes) == transmitted(
            mask,
            tuning_word,
            outcomes.take(k),
        ),
        transmitted(mask, tuning_word, outcomes).len() == step.index() + 1,
        state_after(initial_state(mask, tuning_word), outcomes).progress == Progress::Aborted(
            fault,
        ),
{
    let start = initial_state(mask, tuning_word);
    let before = outcomes.take(k);
    let after = outcomes.skip(k);
    let reached = state_after(start, before);
    assert(outcomes =~= before + after);
    lemma_run_splits(start, before, after);
    lemma_parameters_are_kept(start, before);
    let moved = step_spec(reached, after[0]);
    assert(moved.0.progress == Progress::Aborted(fault));
    lemma_ended_pass_is_silent(moved.0, after.drop_first());
    assert(issued_after(reached, after) =~= Seq::<FrameView>::empty());
    assert(issued_after(start, outcomes) =~= issued_after(start, before));
    lemma_position_counts_frames(start, Step::ChannelEnable, before);
}

/// The parameters of a pass never change.
pub proof fn lemma_parameters_are_kept(state: SequencerView, outcomes: Seq<TransferOutcome>)
    ensures
        state_after(state, outcomes).mask == state.mask,
        state_after(state, outcomes).tuning_word == state.tuning_word,
    decreases outcomes.len(),
{
    if outcomes.len() > 0 {
        lemma_parameters_are_kept(step_spec(state, outcomes[0]).0, outcomes.drop_first());
    }
}

/// While a frame is in flight, the number of frames issued so far is the
/// distance between the step in flight and the step the run began at.
proof fn lemma_position_counts_frames(
    state: SequencerView,
    step: Step,
    outcomes: Seq<TransferOutcome>,
)
    requires
        state.progress == Progress::Sending(step),
    ensures
        state_after(state, outcomes).progress matches Progress::Sending(reached)
            ==> issued_after(state, outcomes).len() == reached.index() - step.index(),
    decreases outcomes.len(),
{
    if outcomes.len() > 0 {
        let moved = step_spec(state, outcomes[0]);
        let rest = outcomes.drop_first();
        match moved.0.progress {
            Progress::Sending(following) => {
                lemma_position_counts_frames(moved.0, following, rest);
            },
            _ => {
                lemma_ended_pass_is_silent(moved.0, rest);
            },
        }
    }
}

/// When the first four transfers each take their whole frame, the frames sent
/// are exactly the script, and the pass is complete.
pub proof fn lemma_clean_pass_transmits_script(
    mask: u8,
    tuning_word: u32,
    outcomes: Seq<TransferOutcome>,
)
    requires
        outcomes.len() >= 4,
        forall|i: int|
            0 <= i < 4 ==> fault_of(
                #[trigger] outcomes[i],
                program_script(mask, tuning_word)[i].payload.len(),
            ) is None,
    ensures
        transmitted(mask, tuning_word, outcomes) == program_script(mask, tuning_word),
        state_after(initial_state(mask, tuning_word), outcomes).progress == Progress::Complete,
{
    let s0 = initial_state(mask, tuning_word);
    let o1 = outcomes.drop_first();
    let o2 = o1.drop_first();
    let o3 = o2.drop_first();
    let o4 = o3.drop_first();
    assert(o1[0] == outcomes[1] && o2[0] == outcomes[2] && o3[0] == outcomes[3]);
    assert(fault_of(outcomes[0], program_script(mask, tuning_word)[0].payload.len()) is None);
    assert(fault_of(outcomes[1], program_script(mask, tuning_word)[1].payload.len()) is None);
    assert(fault_of(outcomes[2], program_script(mask, tuning_word)[2].payload.len()) is None);
    assert(fault_of(outcomes[3], program_script(mask, tuning_word)[3].payload.len()) is None);
    let s1 = step_spec(s0, outcomes[0]).0;
    let s2 = step_spec(s1, o1[0]).0;
    let s3 = step_spec(s2, o2[0]).0;
    let s4 = step_spec(s3, o3[0]).0;
    assert(s4.progress == Progress::Complete);
    lemma_ended_pass_is_silent(s4, o4);
    assert(state_after(s3, o3) == state_after(s4, o4));
    assert(state_after(s2, o2) == state_after(s3, o3));
    assert(state_after(s1, o1) == state_after(s2, o2));
    assert(issued_after(s3, o3) =~= Seq::<FrameView>::empty());
    assert(issued_after(s2, o2) =~= seq![update_strobe_frame_spec()]);
    assert(issued_after(s1, o1) =~= seq![load_strobe_frame_spec(), update_strobe_frame_spec()]);
    assert(transmitted(mask, tuning_word, outcomes) =~= program_script(mask, tuning_word));
}

} // verus!
