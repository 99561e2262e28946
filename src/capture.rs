use vstd::prelude::*;
use vstd::slice::slice_to_vec;
use vstd::string::*;

use crate::chunkbuffer::{push_partial, push_ready, ChunkBuffer};
use crate::commands::DispatchResult;

verus! {

/// Where the capture path stands in a conversation.
#[derive(PartialEq, Eq, Structural, Clone, Copy, Debug)]
pub enum CaptureState {
    /// Listening for the wake word only.
    Waiting,
    /// Sending audio to the recognizer.
    Listening,
    /// A handler is at work; audio is dropped.
    CommandRunning,
}

/// A request to the speech output.
#[derive(Debug)]
pub enum SpeakMessage {
    Say(String),
}

/// What the recognizer made of the audio fed to it.
#[derive(Debug)]
pub enum Recognition {
    InProgress,
    Finalized(String),
    Failed,
}

/// What the capture callback must do with a batch of samples.
#[derive(Debug)]
pub enum CaptureAction {
    /// Nothing: the samples were buffered or dropped.
    Nothing,
    /// Feed this complete frame to the wake-word detector.
    FeedWakeWord(Vec<i16>),
    /// Feed these samples to the recognizer.
    FeedRecognizer(Vec<i16>),
}

/// An event that the capture path reacts to.
pub enum CaptureEvent {
    /// A batch of samples arrived.
    Samples,
    /// The wake-word detector answered, with whether it detected the phrase.
    WakeWord(bool),
    /// The recognizer answered, with whether its result is final.
    Recognized(bool),
    /// The utterance was dispatched, with this result.
    Dispatched(DispatchResult),
    /// The running command's turn ended, with whether a handler holds focus.
    TurnEnded(bool),
}

/// The state after `ev` in state `st`.
pub open spec fn next_state(st: CaptureState, ev: CaptureEvent) -> CaptureState {
    match ev {
        CaptureEvent::WakeWord(detected) => if st == CaptureState::Waiting && detected {
            CaptureState::Listening
        } else {
            st
        },
        CaptureEvent::Dispatched(r) => if st == CaptureState::Listening {
            if r == DispatchResult::Continue {
                CaptureState::CommandRunning
            } else {
                CaptureState::Waiting
            }
        } else {
            st
        },
        CaptureEvent::TurnEnded(held) => if st == CaptureState::CommandRunning {
            if held {
                CaptureState::Listening
            } else {
                CaptureState::Waiting
            }
        } else {
            st
        },
        _ => st,
    }
}

/// Whether `ev` in state `st` sends audio to the recognizer.
pub open spec fn feeds_recognizer(st: CaptureState, ev: CaptureEvent) -> bool {
    st == CaptureState::Listening && ev is Samples
}

/// Whether `ev` in state `st` makes the acknowledgement be spoken.
pub open spec fn acknowledges(st: CaptureState, ev: CaptureEvent) -> bool {
    st == CaptureState::Waiting && ev matches CaptureEvent::WakeWord(true)
}

/// Whether `ev` in state `st` hands an utterance to dispatch.
pub open spec fn yields_utterance(st: CaptureState, ev: CaptureEvent) -> bool {
    st == CaptureState::Listening && ev matches CaptureEvent::Recognized(true)
}

/// The state after the events `evs`, starting in `st`.
pub open spec fn state_after(st: CaptureState, evs: Seq<CaptureEvent>) -> CaptureState
    decreases evs.len(),
{
    if evs.len() == 0 {
        st
    } else {
        next_state(state_after(st, evs.drop_last()), evs.last())
    }
}

/// How many of the events `evs`, starting in `st`, satisfy `p`.
pub open spec fn count_steps(
    st: CaptureState,
    evs: Seq<CaptureEvent>,
    p: spec_fn(CaptureState, CaptureEvent) -> bool,
) -> nat
    decreases evs.len(),
{
    if evs.len() == 0 {
        0
    } else {
        count_steps(st, evs.drop_last(), p) + if p(state_after(st, evs.drop_last()), evs.last()) {
            1nat
        } else {
            0nat
        }
    }
}

/// The audio side of the assistant: gates captured samples between the
/// wake-word detector and the recognizer.
pub struct CaptureMachine {
    buffer: ChunkBuffer<i16>,
    frame_size: usize,
    state: CaptureState,
    ack_phrase: String,
}

impl CaptureMachine {
    pub closed spec fn state(&self) -> CaptureState {
        self.state
    }

    /// Samples buffered toward the next wake-word frame.
    pub closed spec fn pending(&self) -> Seq<i16> {
        self.buffer.partial()
    }

    pub closed spec fn frame_len(&self) -> nat {
        self.frame_size as nat
    }

    pub closed spec fn acknowledgement(&self) -> Seq<char> {
        self.ack_phrase@
    }

    pub closed spec fn wf(&self) -> bool {
        &&& self.buffer.wf()
        &&& self.buffer.ready() is None
        &&& self.buffer.frame_size() == self.frame_size
        &&& self.frame_size > 0
    }

    /// A machine waiting for the wake word, whose detector takes frames of
    /// `frame_size` samples, and which answers a detection with `ack_phrase`.
    pub fn new(frame_size: usize, ack_phrase: String) -> (r: CaptureMachine)
        requires
            frame_size > 0,
        ensures
            r.wf(),
            r.state() == CaptureState::Waiting,
            r.pending() == Seq::<i16>::empty(),
            r.frame_len() == frame_size,
            r.acknowledgement() == ack_phrase@,
    {
        CaptureMachine { buffer: ChunkBuffer::new(frame_size), frame_size, state: CaptureState::Waiting, ack_phrase }
    }

    /// Takes a batch of captured samples. While waiting they are buffered
    /// and each completed frame goes to the wake-word detector; while
    /// listening they go to the recognizer; while a command runs they are
    /// dropped.
    pub fn on_samples(&mut self, samples: &[i16]) -> (r: CaptureAction)
        requires
            old(self).wf(),
        ensures
            final(self).wf(),
            final(self).state() == next_state(old(self).state(), CaptureEvent::Samples),
            final(self).frame_len() == old(self).frame_len(),
            final(self).acknowledgement() == old(self).acknowledgement(),
            (r is FeedRecognizer) == feeds_recognizer(old(self).state(), CaptureEvent::Samples),
            r matches CaptureAction::FeedRecognizer(v) ==> v@ == samples@,
            old(self).state() == CaptureState::Waiting ==> {
                &&& final(self).pending() == push_partial(old(self).frame_len(), old(self).pending(), samples@)
                &&& match push_ready(old(self).frame_len(), None, old(self).pending(), samples@) {
                    Some(frame) => r matches CaptureAction::FeedWakeWord(v) && v@ == frame,
                    None => r is Nothing,
                }
            },
            old(self).state() == CaptureState::CommandRunning ==> r is Nothing,
            old(self).state() != CaptureState::Waiting ==> final(self).pending() == old(self).pending(),
    {
        match self.state {
            CaptureState::Waiting => {
                self.buffer.push_slice(samples);
                match self.buffer.pop() {
                    Some(frame) => CaptureAction::FeedWakeWord(frame),
                    None => CaptureAction::Nothing,
                }
            },
            CaptureState::Listening => CaptureAction::FeedRecognizer(slice_to_vec(samples)),
            CaptureState::CommandRunning => CaptureAction::Nothing,
        }
    }

    /// Takes the wake-word detector's answer for the last frame. A detection
    /// while waiting clears the buffered audio, starts listening and returns
    /// the acknowledgement to speak.
    pub fn on_wake_word(&mut self, detected: bool) -> (r: Option<SpeakMessage>)
        requires
            old(self).wf(),
        ensures
            final(self).wf(),
            final(self).state() == next_state(old(self).state(), CaptureEvent::WakeWord(detected)),
            final(self).frame_len() == old(self).frame_len(),
            final(self).acknowledgement() == old(self).acknowledgement(),
            (r is Some) == acknowledges(old(self).state(), CaptureEvent::WakeWord(detected)),
            r matches Some(SpeakMessage::Say(m)) ==> m@ == old(self).acknowledgement(),
            r is Some ==> final(self).pending() == Seq::<i16>::empty(),
            r is None ==> final(self).pending() == old(self).pending(),
    {
        if detected && self.state == CaptureState::Waiting {
            self.buffer = ChunkBuffer::new(self.frame_size);
            self.state = CaptureState::Listening;
            Some(SpeakMessage::Say(self.ack_phrase.clone()))
        } else {
            None
        }
    }

    /// Takes the recognizer's answer. A final transcript while listening is
    /// returned as the utterance to dispatch (and the recognizer is then to
    /// be reset); anything else, a failure included, changes nothing.
    pub fn on_recognition(&mut self, result: Recognition) -> (r: Option<String>)
        requires
            old(self).wf(),
        ensures
            *final(self) == *old(self),
            (r is Some) == yields_utterance(
                old(self).state(),
                CaptureEvent::Recognized(result is Finalized),
            ),
            r matches Some(t) ==> result matches Recognition::Finalized(f) && t@ == f@,
    {
        match result {
            Recognition::Finalized(text) => {
                if self.state == CaptureState::Listening {
                    Some(text)
                } else {
                    None
                }
            },
            _ => None,
        }
    }

    /// Takes the result of dispatching the last utterance: a handler that
    /// wants more input keeps the command running, otherwise the machine
    /// goes back to waiting for the wake word.
    pub fn on_dispatched(&mut self, result: DispatchResult)
        requires
            old(self).wf(),
        ensures
            final(self).wf(),
            final(self).state() == next_state(old(self).state(), CaptureEvent::Dispatched(result)),
            final(self).pending() == old(self).pending(),
            final(self).frame_len() == old(self).frame_len(),
            final(self).acknowledgement() == old(self).acknowledgement(),
    {
        if self.state == CaptureState::Listening {
            self.state = match result {
                DispatchResult::Continue => CaptureState::CommandRunning,
                DispatchResult::Done => CaptureState::Waiting,
            };
        }
    }

    /// Ends the running command's turn: back to listening if a handler holds
    /// focus, else to waiting for the wake word.
    pub fn on_turn_end(&mut self, focus_held: bool)
        requires
            old(self).wf(),
        ensures
            final(self).wf(),
            final(self).state() == next_state(old(self).state(), CaptureEvent::TurnEnded(focus_held)),
            final(self).pending() == old(self).pending(),
            final(self).frame_len() == old(self).frame_len(),
            final(self).acknowledgement() == old(self).acknowledgement(),
    {
        if self.state == CaptureState::CommandRunning {
            self.state = if focus_held {
                CaptureState::Listening
            } else {
                CaptureState::Waiting
            };
        }
    }

    /// The state the machine is in.
    pub fn current_state(&self) -> (r: CaptureState)
        ensures
            r == self.state(),
    {
        self.state
    }
}

proof fn lemma_steps_compose(
    st: CaptureState,
    a: Seq<CaptureEvent>,
    b: Seq<CaptureEvent>,
    p: spec_fn(CaptureState, CaptureEvent) -> bool,
)
    ensures
        state_after(st, a + b) == state_after(state_after(st, a), b),
        count_steps(st, a + b, p) == count_steps(st, a, p) + count_steps(state_after(st, a), b, p),
    decreases b.len(),
{
    if b.len() == 0 {
        assert(a + b =~= a);
    } else {
        lemma_steps_compose(st, a, b.drop_last(), p);
        assert((a + b).drop_last() =~= a + b.drop_last());
        assert((a + b).last() == b.last());
    }
}

/// Samples and detector answers that are not detections, from the waiting
/// state: every step starts in the waiting state, and nothing goes to the
/// recognizer.
proof fn lemma_quiet_steps(evs: Seq<CaptureEvent>, p: spec_fn(CaptureState, CaptureEvent) -> bool)
    requires
        forall|i: int| 0 <= i < evs.len() ==> (#[trigger] evs[i]) is Samples || evs[i] matches CaptureEvent::WakeWord(false),
        forall|e: CaptureEvent| !#[trigger] p(CaptureState::Waiting, e),
    ensures
        state_after(CaptureState::Waiting, evs) == CaptureState::Waiting,
        count_steps(CaptureState::Waiting, evs, p) == 0,
    decreases evs.len(),
{
    if evs.len() > 0 {
        lemma_quiet_steps(evs.drop_last(), p);
        assert(evs.last() == evs[evs.len() - 1]);
    }
}

/// Audio fed while waiting that never makes the detector fire leaves the
/// machine waiting after every event, and never reaches the recognizer.
pub proof fn lemma_no_detection_stays_waiting(evs: Seq<CaptureEvent>)
    requires
        forall|i: int| 0 <= i < evs.len() ==> (#[trigger] evs[i]) is Samples || evs[i] matches CaptureEvent::WakeWord(false),
    ensures
        forall|k: int| 0 <= k <= evs.len() ==> state_after(CaptureState::Waiting, #[trigger] evs.take(k)) == CaptureState::Waiting,
        count_steps(CaptureState::Waiting, evs, |s: CaptureState, e: CaptureEvent| feeds_recognizer(s, e)) == 0,
{
    lemma_quiet_steps(evs, |s: CaptureState, e: CaptureEvent| feeds_recognizer(s, e));
    assert forall|k: int| 0 <= k <= evs.len() implies state_after(CaptureState::Waiting, #[trigger] evs.take(k))
        == CaptureState::Waiting by {
        let pre = evs.take(k);
        assert forall|i: int| 0 <= i < pre.len() implies (#[trigger] pre[i]) is Samples || pre[i] matches CaptureEvent::WakeWord(false) by {
            assert(pre[i] == evs[i]);
        }
        lemma_quiet_steps(pre, |s: CaptureState, e: CaptureEvent| feeds_recognizer(s, e));
    }
}

/// Samples and unfinished recognizer answers, from the listening state:
/// the machine keeps listening, acknowledges nothing and yields no utterance.
proof fn lemma_listening_steps(evs: Seq<CaptureEvent>, p: spec_fn(CaptureState, CaptureEvent) -> bool)
    requires
        forall|i: int| 0 <= i < evs.len() ==> (#[trigger] evs[i]) is Samples || evs[i] matches CaptureEvent::Recognized(false),
        forall|e: CaptureEvent| (e is Samples || e matches CaptureEvent::Recognized(false)) ==> !#[trigger] p(CaptureState::Listening, e),
    ensures
        state_after(CaptureState::Listening, evs) == CaptureState::Listening,
        count_steps(CaptureState::Listening, evs, p) == 0,
    decreases evs.len(),
{
    if evs.len() > 0 {
        lemma_listening_steps(evs.drop_last(), p);
        assert(evs.last() == evs[evs.len() - 1]);
    }
}

/// The events of one conversation turn: a detection, then audio and
/// unfinished recognizer answers, then a final transcript and its dispatch
/// with result `r`.
pub open spec fn turn_events(middle: Seq<CaptureEvent>, r: DispatchResult) -> Seq<CaptureEvent> {
    seq![CaptureEvent::WakeWord(true)] + middle + seq![CaptureEvent::Recognized(true), CaptureEvent::Dispatched(r)]
}

/// From waiting, a detection starts listening and speaks the acknowledgement
/// exactly once; the final transcript is handed to dispatch exactly once;
/// and the dispatch result leaves the command running (`Continue`) or the
/// machine waiting (`Done`).
pub proof fn lemma_detection_then_utterance(middle: Seq<CaptureEvent>, r: DispatchResult)
    requires
        forall|i: int| 0 <= i < middle.len() ==> (#[trigger] middle[i]) is Samples || middle[i] matches CaptureEvent::Recognized(false),
    ensures
        state_after(CaptureState::Waiting, turn_events(middle, r).take(1)) == CaptureState::Listening,
        state_after(CaptureState::Waiting, turn_events(middle, r)) == if r == DispatchResult::Continue {
            CaptureState::CommandRunning
        } else {
            CaptureState::Waiting
        },
        count_steps(CaptureState::Waiting, turn_events(middle, r), |s: CaptureState, e: CaptureEvent| acknowledges(s, e)) == 1,
        count_steps(CaptureState::Waiting, turn_events(middle, r), |s: CaptureState, e: CaptureEvent| yields_utterance(s, e)) == 1,
{
    let ack = |s: CaptureState, e: CaptureEvent| acknowledges(s, e);
    let utt = |s: CaptureState, e: CaptureEvent| yields_utterance(s, e);
    let first = seq![CaptureEvent::WakeWord(true)];
    let last = seq![CaptureEvent::Recognized(true), CaptureEvent::Dispatched(r)];
    let evs = turn_events(middle, r);
    assert(evs.take(1) =~= first);
    assert(evs =~= (first + middle) + last);
    assert(first.drop_last() =~= Seq::<CaptureEvent>::empty());
    assert(first.last() == CaptureEvent::WakeWord(true));
    assert(state_after(CaptureState::Waiting, first.drop_last()) == CaptureState::Waiting);
    assert(count_steps(CaptureState::Waiting, first.drop_last(), ack) == 0);
    assert(count_steps(CaptureState::Waiting, first.drop_last(), utt) == 0);
    assert(state_after(CaptureState::Waiting, first) == CaptureState::Listening);
    assert(count_steps(CaptureState::Waiting, first, ack) == 1);
    assert(count_steps(CaptureState::Waiting, first, utt) == 0);
    lemma_listening_steps(middle, ack);
    lemma_listening_steps(middle, utt);
    lemma_steps_compose(CaptureState::Waiting, first, middle, ack);
    lemma_steps_compose(CaptureState::Waiting, first, middle, utt);
    let mid_state = state_after(CaptureState::Waiting, first + middle);
    assert(mid_state == CaptureState::Listening);
    lemma_steps_compose(CaptureState::Waiting, first + middle, last, ack);
    lemma_steps_compose(CaptureState::Waiting, first + middle, last, utt);
    assert(last.drop_last() =~= seq![CaptureEvent::Recognized(true)]);
    let one = last.drop_last();
    assert(one.drop_last() =~= Seq::<CaptureEvent>::empty());
    assert(one.last() == CaptureEvent::Recognized(true));
    assert(last.last() == CaptureEvent::Dispatched(r));
    assert(state_after(CaptureState::Listening, one.drop_last()) == CaptureState::Listening);
    assert(count_steps(CaptureState::Listening, one.drop_last(), ack) == 0);
    assert(count_steps(CaptureState::Listening, one.drop_last(), utt) == 0);
    assert(state_after(CaptureState::Listening, one) == CaptureState::Listening);
    assert(count_steps(CaptureState::Listening, one, ack) == 0);
    assert(count_steps(CaptureState::Listening, one, utt) == 1);
    assert(count_steps(CaptureState::Listening, last, ack) == 0);
    assert(count_steps(CaptureState::Listening, last, utt) == 1);
}

} // verus!
