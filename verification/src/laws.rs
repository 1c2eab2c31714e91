//! The loop's guarantees, stated and proved over the step relation: resume
//! renders deferred records first in, first out; nothing is rendered while
//! paused; and a double toggle restores the state.
use vstd::prelude::*;
use crate::record::RecordModel;
use crate::session::{
    EventModel, KeyEvent, OutputModel, StateModel, rows_of, state_inv, step_spec, run_spec,
};

verus! {

/// The frame-arrival events of a sequence of records, in the same order.
pub open spec fn frame_events(frames: Seq<RecordModel>) -> Seq<EventModel> {
    frames.map_values(|r: RecordModel| EventModel::Frame(r))
}

/// Law: frames that arrive while the view is paused are deferred in arrival
/// order, and the next Enter shows exactly the resumed notice followed by
/// every deferred record, first in first out, with no reordering or loss,
/// leaving the buffer empty and the view live.
pub proof fn lemma_resume_renders_fifo(s: StateModel, frames: Seq<RecordModel>)
    requires
        s.paused,
    ensures
        ({
            let (s1, out) = run_spec(
                s,
                frame_events(frames) + seq![EventModel::Key(KeyEvent::Enter)],
            );
            &&& !s1.paused
            &&& s1.buffer =~= Seq::<RecordModel>::empty()
            &&& out =~= seq![OutputModel::ResumedNotice] + rows_of(s.buffer + frames)
        }),
    decreases frames.len(),
{
    let evs = frame_events(frames) + seq![EventModel::Key(KeyEvent::Enter)];
    if frames.len() == 0 {
        assert(evs =~= seq![EventModel::Key(KeyEvent::Enter)]);
        assert(evs[0] == EventModel::Key(KeyEvent::Enter));
        assert(evs.skip(1) =~= Seq::<EventModel>::empty());
        assert(s.buffer + frames =~= s.buffer);
        let (s1, out1, go1) = step_spec(s, evs[0]);
        assert(go1);
        assert(run_spec(s1, evs.skip(1)).1 =~= Seq::<OutputModel>::empty());
        assert(run_spec(s, evs).1 =~= out1);
        assert(out1 =~= seq![OutputModel::ResumedNotice] + rows_of(s.buffer + frames));
    } else {
        assert(frame_events(frames)[0] == EventModel::Frame(frames[0]));
        assert(evs[0] == EventModel::Frame(frames[0]));
        let s1 = StateModel { paused: true, buffer: s.buffer.push(frames[0]) };
        assert(step_spec(s, evs[0]).0 == s1);
        lemma_resume_renders_fifo(s1, frames.skip(1));
        assert(evs.skip(1) =~= frame_events(frames.skip(1)) + seq![
            EventModel::Key(KeyEvent::Enter),
        ]);
        assert(s1.buffer + frames.skip(1) =~= s.buffer + frames);
        assert(run_spec(s1, evs.skip(1)).1 =~= seq![OutputModel::ResumedNotice] + rows_of(
            s.buffer + frames,
        ));
        assert(run_spec(s, evs).1 =~= Seq::<OutputModel>::empty() + run_spec(s1, evs.skip(1)).1);
        assert(run_spec(s, evs).1 =~= seq![OutputModel::ResumedNotice] + rows_of(
            s.buffer + frames,
        ));
        assert(run_spec(s, evs).0 == run_spec(s1, evs.skip(1)).0);
    }
}

/// Law: while the view is paused, no event short of the resuming Enter shows
/// anything: over any run of frame arrivals, ignored keys and channel
/// closure, nothing at all is rendered and the view stays paused.
pub proof fn lemma_paused_renders_nothing(s: StateModel, events: Seq<EventModel>)
    requires
        s.paused,
        forall|i: int|
            0 <= i < events.len() ==> events[i] != EventModel::Key(KeyEvent::Enter),
    ensures
        run_spec(s, events).1 =~= Seq::<OutputModel>::empty(),
        run_spec(s, events).0.paused,
    decreases events.len(),
{
    if events.len() > 0 {
        let (s1, out1, go) = step_spec(s, events[0]);
        assert(events[0] != EventModel::Key(KeyEvent::Enter));
        assert(out1 =~= Seq::<OutputModel>::empty());
        assert(s1.paused);
        if go {
            assert(forall|i: int|
                0 <= i < events.skip(1).len() ==> events.skip(1)[i] != EventModel::Key(
                    KeyEvent::Enter,
                ));
            lemma_paused_renders_nothing(s1, events.skip(1));
        }
    }
}

/// Law: the loop's state stays well formed over any run of events — records
/// are deferred only while the view is paused, so resuming never misses one.
pub proof fn lemma_run_preserves_inv(s: StateModel, events: Seq<EventModel>)
    requires
        state_inv(s),
    ensures
        state_inv(run_spec(s, events).0),
    decreases events.len(),
{
    if events.len() > 0 {
        let (s1, out1, go) = step_spec(s, events[0]);
        assert(state_inv(s1));
        if go {
            lemma_run_preserves_inv(s1, events.skip(1));
        }
    }
}

/// Law: two consecutive Enter events leave the pause flag as it was. From a
/// live, well-formed state they show exactly one paused notice and then one
/// resumed notice, in that order, and return the state unchanged.
pub proof fn lemma_toggle_twice(s: StateModel)
    requires
        state_inv(s),
    ensures
        ({
            let (s1, out1, go1) = step_spec(s, EventModel::Key(KeyEvent::Enter));
            let (s2, out2, go2) = step_spec(s1, EventModel::Key(KeyEvent::Enter));
            &&& go1
            &&& go2
            &&& s2.paused == s.paused
            &&& !s.paused ==> {
                &&& out1 + out2 =~= seq![OutputModel::PausedNotice, OutputModel::ResumedNotice]
                &&& s2 =~= s
            }
        }),
{
    let (s1, out1, go1) = step_spec(s, EventModel::Key(KeyEvent::Enter));
    let (s2, out2, go2) = step_spec(s1, EventModel::Key(KeyEvent::Enter));
    if !s.paused {
        assert(s.buffer.len() == 0);
        assert(rows_of(s.buffer) =~= Seq::<OutputModel>::empty());
        assert(out1 + out2 =~= seq![OutputModel::PausedNotice, OutputModel::ResumedNotice]);
        assert(s2.buffer =~= s.buffer);
    }
}

} // verus!
