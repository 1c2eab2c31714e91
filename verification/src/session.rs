//! The capture/pause/display loop's core: the pause state and deferred-record
//! buffer, and the decision, per event, of what the loop renders next. The
//! loop around it only performs the outside work — reading keys and frames,
//! writing rows — and hands every event here.
use vstd::prelude::*;
use crate::record::{DisplayRecord, RecordModel};

verus! {

/// One key press, as the loop cares about it: the pause toggle or anything
/// else. Other keys are deliberate no-ops, kept for forward compatibility.
#[derive(Clone, Copy, PartialEq, Eq, Structural)]
pub enum KeyEvent {
    Enter,
    Other,
}

/// One event reaching the loop: a key press, a decoded frame, or the closure
/// of the keyboard channel (an orderly session-end signal, not an error).
pub enum Event {
    Key(KeyEvent),
    Frame(DisplayRecord),
    Closed,
}

/// The mathematical value of an event.
pub enum EventModel {
    Key(KeyEvent),
    Frame(RecordModel),
    Closed,
}

impl View for Event {
    type V = EventModel;

    open spec fn view(&self) -> EventModel {
        match self {
            Event::Key(k) => EventModel::Key(*k),
            Event::Frame(r) => EventModel::Frame(r@),
            Event::Closed => EventModel::Closed,
        }
    }
}

/// One thing the loop shows the operator: a notice that the view paused or
/// resumed, or one record's table row.
pub enum Output {
    PausedNotice,
    ResumedNotice,
    Row(DisplayRecord),
}

/// The mathematical value of an output.
pub enum OutputModel {
    PausedNotice,
    ResumedNotice,
    Row(RecordModel),
}

impl View for Output {
    type V = OutputModel;

    open spec fn view(&self) -> OutputModel {
        match self {
            Output::PausedNotice => OutputModel::PausedNotice,
            Output::ResumedNotice => OutputModel::ResumedNotice,
            Output::Row(r) => OutputModel::Row(r@),
        }
    }
}

/// The loop's owned state: whether rendering is suspended, and the records
/// that arrived while it was.
pub struct PauseState {
    pub paused: bool,
    pub buffer: Vec<DisplayRecord>,
}

/// The mathematical value of the loop's state.
#[verifier::ext_equal]
pub struct StateModel {
    pub paused: bool,
    pub buffer: Seq<RecordModel>,
}

impl View for PauseState {
    type V = StateModel;

    open spec fn view(&self) -> StateModel {
        StateModel { paused: self.paused, buffer: records_model(self.buffer@) }
    }
}

/// The models of a sequence of records.
pub open spec fn records_model(s: Seq<DisplayRecord>) -> Seq<RecordModel> {
    s.map_values(|r: DisplayRecord| r@)
}

/// The models of a sequence of events.
pub open spec fn events_model(s: Seq<Event>) -> Seq<EventModel> {
    s.map_values(|e: Event| e@)
}

/// The models of a sequence of outputs.
pub open spec fn outputs_model(s: Seq<Output>) -> Seq<OutputModel> {
    s.map_values(|o: Output| o@)
}

/// The rows of a sequence of records, in the same order.
pub open spec fn rows_of(s: Seq<RecordModel>) -> Seq<OutputModel> {
    s.map_values(|r: RecordModel| OutputModel::Row(r))
}

/// The state a capture session starts in: live, with nothing deferred.
pub open spec fn initial_state() -> StateModel {
    StateModel { paused: false, buffer: Seq::empty() }
}

/// A well-formed loop state: records are deferred only while paused, so a
/// live state holds no buffer.
pub open spec fn state_inv(s: StateModel) -> bool {
    !s.paused ==> s.buffer.len() == 0
}

/// What one event does to the loop's state: the next state, the outputs shown
/// for it in order, and whether the loop goes on.
///
/// An Enter key toggles the pause flag; the move to paused shows a notice,
/// the move back shows a notice and then every deferred record, first in
/// first out, and empties the buffer. Any other key is ignored. A frame is
/// shown at once while live and deferred while paused. Closure of the
/// keyboard channel ends the loop with nothing shown.
pub open spec fn step_spec(s: StateModel, e: EventModel) -> (StateModel, Seq<OutputModel>, bool) {
    match e {
        EventModel::Key(k) => {
            if k == KeyEvent::Enter {
                if s.paused {
                    (
                        StateModel { paused: false, buffer: Seq::empty() },
                        seq![OutputModel::ResumedNotice] + rows_of(s.buffer),
                        true,
                    )
                } else {
                    (
                        StateModel { paused: true, buffer: s.buffer },
                        seq![OutputModel::PausedNotice],
                        true,
                    )
                }
            } else {
                (s, Seq::empty(), true)
            }
        },
        EventModel::Frame(r) => {
            if s.paused {
                (StateModel { paused: true, buffer: s.buffer.push(r) }, Seq::empty(), true)
            } else {
                (s, seq![OutputModel::Row(r)], true)
            }
        },
        EventModel::Closed => (s, Seq::empty(), false),
    }
}

/// The state and outputs after a whole sequence of events, stopping at the
/// first event that ends the loop.
pub open spec fn run_spec(s: StateModel, events: Seq<EventModel>) -> (StateModel, Seq<
    OutputModel,
>)
    decreases events.len(),
{
    if events.len() == 0 {
        (s, Seq::empty())
    } else {
        let (s1, out1, go) = step_spec(s, events[0]);
        if go {
            let (s2, out2) = run_spec(s1, events.skip(1));
            (s2, out1 + out2)
        } else {
            (s1, out1)
        }
    }
}

impl PauseState {
    /// The state a capture session starts in.
    pub fn new() -> (s: PauseState)
        ensures
            s@ == initial_state(),
            state_inv(s@),
    {
        let s = PauseState { paused: false, buffer: Vec::new() };
        proof {
            assert(s@ =~= initial_state());
        }
        s
    }

    /// Whether rendering is currently suspended. While it is, the loop must
    /// not poll the frame source; it idles instead.
    pub fn is_paused(&self) -> (p: bool)
        ensures
            p == self@.paused,
    {
        self.paused
    }

    /// Feeds one event to the loop's core: updates the state, appends what is
    /// to be shown to `out` in order, and says whether the loop goes on.
    pub fn step(&mut self, ev: Event, out: &mut Vec<Output>) -> (go: bool)
        ensures
            final(self)@ == step_spec(old(self)@, ev@).0,
            outputs_model(final(out)@) == outputs_model(old(out)@) + step_spec(
                old(self)@,
                ev@,
            ).1,
            go == step_spec(old(self)@, ev@).2,
            state_inv(old(self)@) ==> state_inv(final(self)@),
    {
        match ev {
            Event::Key(k) => {
                match k {
                    KeyEvent::Enter => {
                        if self.paused {
                            self.paused = false;
                            out.push(Output::ResumedNotice);
                            let ghost pushed = old(out)@.push(Output::ResumedNotice);
                            let ghost deferred = records_model(old(self).buffer@);
                            let mut buf: Vec<DisplayRecord> = Vec::new();
                            core::mem::swap(&mut buf, &mut self.buffer);
                            proof {
                                assert(outputs_model(pushed) =~= outputs_model(old(out)@)
                                    + seq![OutputModel::ResumedNotice]);
                                assert(records_model(buf@) =~= deferred.skip(0));
                                assert(rows_of(deferred.take(0)) =~= Seq::<OutputModel>::empty());
                                assert(outputs_model(out@) =~= outputs_model(pushed) + rows_of(
                                    deferred.take(0),
                                ));
                            }
                            while buf.len() > 0
                                invariant
                                    self.paused == false,
                                    self.buffer@.len() == 0,
                                    records_model(buf@) =~= deferred.skip(
                                        deferred.len() - buf@.len(),
                                    ),
                                    buf@.len() <= deferred.len(),
                                    outputs_model(out@) =~= outputs_model(pushed) + rows_of(
                                        deferred.take(deferred.len() - buf@.len()),
                                    ),
                                decreases buf@.len(),
                            {
                                let ghost done: int = deferred.len() - buf@.len();
                                let ghost buf0 = buf@;
                                let ghost out_pre = out@;
                                let r = buf.remove(0);
                                out.push(Output::Row(r));
                                proof {
                                    assert(out@ =~= out_pre.push(Output::Row(r)));
                                    assert forall|i: int|
                                        0 <= i < out@.len() implies outputs_model(out@)[i] == (
                                    if i < out_pre.len() {
                                        outputs_model(out_pre)[i]
                                    } else {
                                        OutputModel::Row(r@)
                                    }) by {
                                        assert(outputs_model(out@)[i] == out@[i]@);
                                        if i < out_pre.len() {
                                            assert(outputs_model(out_pre)[i] == out_pre[i]@);
                                        }
                                    }
                                    assert(outputs_model(out@) =~= outputs_model(out_pre).push(
                                        OutputModel::Row(r@),
                                    ));
                                    assert(records_model(buf0)[0] == buf0[0]@);
                                    assert(records_model(buf0)[0] == deferred.skip(done)[0]);
                                    assert(r@ == deferred[done]);
                                    assert(buf@ =~= buf0.skip(1));
                                    assert forall|i: int| 0 <= i < buf@.len() implies records_model(
                                        buf@,
                                    )[i] == deferred[done + 1 + i] by {
                                        assert(records_model(buf@)[i] == buf@[i]@);
                                        assert(buf@[i] == buf0[i + 1]);
                                        assert(records_model(buf0)[i + 1] == buf0[i + 1]@);
                                        assert(records_model(buf0)[i + 1] == deferred.skip(
                                            done,
                                        )[i + 1]);
                                    }
                                    assert(records_model(buf@) =~= deferred.skip(done + 1));
                                    assert(rows_of(deferred.take(done + 1)) =~= rows_of(
                                        deferred.take(done),
                                    ).push(OutputModel::Row(deferred[done])));
                                    assert(outputs_model(out@) =~= outputs_model(pushed)
                                        + rows_of(deferred.take(done + 1)));
                                }
                            }
                            proof {
                                assert(deferred.take(deferred.len() as int) =~= deferred);
                                assert(outputs_model(out@) =~= outputs_model(old(out)@) + (
                                seq![OutputModel::ResumedNotice] + rows_of(deferred)));
                                assert(records_model(self.buffer@) =~= Seq::<
                                    RecordModel,
                                >::empty());
                            }
                            true
                        } else {
                            self.paused = true;
                            out.push(Output::PausedNotice);
                            proof {
                                assert(outputs_model(out@) =~= outputs_model(old(out)@)
                                    + seq![OutputModel::PausedNotice]);
                            }
                            true
                        }
                    },
                    KeyEvent::Other => {
                        proof {
                            assert(outputs_model(out@) =~= outputs_model(old(out)@)
                                + Seq::<OutputModel>::empty());
                        }
                        true
                    },
                }
            },
            Event::Frame(r) => {
                if self.paused {
                    self.buffer.push(r);
                    proof {
                        assert(records_model(self.buffer@) =~= records_model(
                            old(self).buffer@,
                        ).push(r@));
                        assert(outputs_model(out@) =~= outputs_model(old(out)@)
                            + Seq::<OutputModel>::empty());
                    }
                } else {
                    out.push(Output::Row(r));
                    proof {
                        assert(outputs_model(out@) =~= outputs_model(old(out)@)
                            + seq![OutputModel::Row(r@)]);
                    }
                }
                true
            },
            Event::Closed => {
                proof {
                    assert(outputs_model(out@) =~= outputs_model(old(out)@)
                        + Seq::<OutputModel>::empty());
                }
                false
            },
        }
    }
}

/// Processes a whole sequence of events from a fresh state, in order,
/// stopping at the first event that ends the loop, and returns everything the
/// loop showed, in order.
pub fn run_session(events: Vec<Event>) -> (out: Vec<Output>)
    ensures
        outputs_model(out@) == run_spec(initial_state(), events_model(events@)).1,
{
    let ghost all = events_model(events@);
    let mut st = PauseState::new();
    let mut out: Vec<Output> = Vec::new();
    let mut evs = events;
    loop
        invariant_except_break
            run_spec(initial_state(), all).1 =~= outputs_model(out@) + run_spec(
                st@,
                events_model(evs@),
            ).1,
        ensures
            outputs_model(out@) =~= run_spec(initial_state(), all).1,
        decreases evs@.len(),
    {
        if evs.len() == 0 {
            proof {
                assert(events_model(evs@) =~= Seq::<EventModel>::empty());
            }
            break;
        }
        let ghost before = events_model(evs@);
        let ev = evs.remove(0);
        proof {
            assert(before[0] == ev@);
            assert(events_model(evs@) =~= before.skip(1));
        }
        let ghost st0 = st@;
        let ghost out0 = outputs_model(out@);
        let go = st.step(ev, &mut out);
        if !go {
            proof {
                assert(run_spec(st0, before).1 =~= step_spec(st0, ev@).1);
                assert(outputs_model(out@) =~= out0 + step_spec(st0, ev@).1);
            }
            break;
        }
        proof {
            assert(run_spec(st0, before).1 =~= step_spec(st0, ev@).1 + run_spec(
                st@,
                events_model(evs@),
            ).1);
            assert(outputs_model(out@) =~= out0 + step_spec(st0, ev@).1);
        }
    }
    out
}

} // verus!
