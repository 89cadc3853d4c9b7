//! What holds of a key's events, whatever the samples are.

use vstd::prelude::*;

use crate::keyboard::KeyEvent;
use crate::keycode::Keycode;
use crate::rt::key::KeyModel;
use crate::rt::key::State;
use crate::rt::key::FULL_TRAVEL;

verus! {

/// Whether every one of `samples` stands for the travel `x`, held inside the
/// range: the key is held still.
pub open spec fn steady_at(key: KeyModel, samples: Seq<u16>, x: int) -> bool {
    forall|i: int| 0 <= i < samples.len() ==> key.clamped_travel(#[trigger] samples[i]) == x
}

/// A sample never changes what a key is made of: its key, calibration,
/// sensitivity and channel stay.
pub proof fn lemma_run_keeps_configuration(key: KeyModel, samples: Seq<u16>)
    ensures
        key.run(samples).keycode == key.keycode,
        key.run(samples).bottom_level == key.bottom_level,
        key.run(samples).top_level == key.top_level,
        key.run(samples).trigger_stroke == key.trigger_stroke,
        key.run(samples).release_stroke == key.release_stroke,
        key.run(samples).dead_zone == key.dead_zone,
        key.run(samples).channel == key.channel,
        key.well_formed() ==> key.run(samples).well_formed(),
    decreases samples.len(),
{
    if samples.len() > 0 {
        lemma_run_keeps_configuration(key, samples.drop_last());
    }
}

/// One sample moves a key as its event says: a press takes an up key down, a
/// release takes a down key up, and without an event the key stays as it is.
/// The event names the key.
pub proof fn lemma_event_fits_state(key: KeyModel, raw: u16)
    ensures
        match key.event(raw) {
            Some(KeyEvent::Press(k)) => k == key.keycode && key.state == State::Release
                && key.after(raw).state == State::Trigger,
            Some(KeyEvent::Release(k)) => k == key.keycode && key.state == State::Trigger
                && key.after(raw).state == State::Release,
            None => key.after(raw).state == key.state,
        },
{
}

/// The events of one key alternate, whatever the samples are: each names the
/// key, the first is a press exactly if the key was up, no two in a row are
/// both presses or both releases, and the key ends down exactly if the last
/// was a press.
pub proof fn lemma_events_alternate(key: KeyModel, samples: Seq<u16>)
    ensures
        forall|i: int|
            0 <= i < key.events(samples).len() ==> (#[trigger] key.events(samples)[i]).keycode_spec()
                == key.keycode,
        forall|i: int, j: int|
            0 <= i && j == i + 1 && j < key.events(samples).len() ==> (#[trigger] key.events(
                samples,
            )[i] is Press) != (#[trigger] key.events(samples)[j] is Press),
        key.events(samples).len() > 0 ==> (key.events(samples)[0] is Press <==> key.state
            == State::Release),
        key.events(samples).len() > 0 ==> (key.events(samples).last() is Press <==> key.run(
            samples,
        ).state == State::Trigger),
        key.events(samples).len() == 0 ==> key.run(samples).state == key.state,
    decreases samples.len(),
{
    if samples.len() > 0 {
        let earlier = samples.drop_last();
        let raw = samples.last();
        lemma_events_alternate(key, earlier);
        lemma_run_keeps_configuration(key, earlier);
        let before = key.events(earlier);
        let now = key.run(earlier);
        let all = key.events(samples);
        let event = now.event(raw);
        lemma_event_fits_state(now, raw);
        assert(all == match event {
            Some(e) => before.push(e),
            None => before,
        });
        lemma_alternation_grows(key.keycode, key.state, before, now.state, event, now.after(raw).state);
    }
}

/// Whether `events` name `keycode`, start as a key in state `first` must, and
/// alternate up to a key in state `last`.
spec fn alternating(keycode: Keycode, first: State, events: Seq<KeyEvent>, last: State) -> bool {
    &&& forall|i: int| 0 <= i < events.len() ==> (#[trigger] events[i]).keycode_spec() == keycode
    &&& forall|i: int, j: int|
        0 <= i && j == i + 1 && j < events.len() ==> (#[trigger] events[i] is Press) != (
        #[trigger] events[j] is Press)
    &&& events.len() > 0 ==> (events[0] is Press <==> first == State::Release)
    &&& events.len() > 0 ==> (events.last() is Press <==> last == State::Trigger)
    &&& events.len() == 0 ==> last == first
}

/// One more step keeps a sequence of events alternating.
proof fn lemma_alternation_grows(
    keycode: Keycode,
    first: State,
    before: Seq<KeyEvent>,
    now: State,
    event: Option<KeyEvent>,
    next: State,
)
    requires
        alternating(keycode, first, before, now),
        match event {
            Some(KeyEvent::Press(k)) => k == keycode && now == State::Release && next
                == State::Trigger,
            Some(KeyEvent::Release(k)) => k == keycode && now == State::Trigger && next
                == State::Release,
            None => next == now,
        },
    ensures
        alternating(
            keycode,
            first,
            match event {
                Some(e) => before.push(e),
                None => before,
            },
            next,
        ),
{
    if let Some(e) = event {
        // The new event stands behind the old ones, which stay where they are.
        let all = before.push(e);
        assert forall|i: int| 0 <= i < all.len() implies (#[trigger] all[i]).keycode_spec()
            == keycode by {}
        assert forall|i: int, j: int| 0 <= i && j == i + 1 && j < all.len() implies (
        #[trigger] all[i] is Press) != (#[trigger] all[j] is Press) by {}
    }
}

/// A key that a sample has pressed and that is then held at the travel of
/// that sample is not pressed again, however long it is held, unless the
/// position chatters. At most it comes up once.
pub proof fn lemma_steady_hold_never_presses(key: KeyModel, raw: u16, samples: Seq<u16>)
    requires
        key.well_formed(),
        key.presses_at(raw),
        !key.chatters_at(raw),
        steady_at(key, samples, key.clamped_travel(raw)),
    ensures
        forall|i: int|
            0 <= i < key.after(raw).events(samples).len() ==> !(#[trigger] key.after(raw).events(
                samples,
            )[i] is Press),
        key.after(raw).events(samples).len() <= 1,
{
    lemma_steady_hold(key, raw, samples);
}

/// What a steady hold after a press comes to: either the key stays down and
/// nothing is emitted, or it comes up once and stays up.
proof fn lemma_steady_hold(key: KeyModel, raw: u16, samples: Seq<u16>)
    requires
        key.well_formed(),
        key.presses_at(raw),
        !key.chatters_at(raw),
        steady_at(key, samples, key.clamped_travel(raw)),
    ensures
        ({
            let held = key.after(raw);
            let x = key.clamped_travel(raw);
            let events = held.events(samples);
            let end = held.run(samples);
            if samples.len() == 0 {
                events.len() == 0 && end == held
            } else if held.releases_at(raw) {
                &&& events == seq![KeyEvent::Release(key.keycode)]
                &&& end == KeyModel {
                    state: State::Release,
                    last_max_stroke: 0,
                    last_min_stroke: if samples.len() == 1 {
                        FULL_TRAVEL
                    } else {
                        x as u32
                    },
                    ..key
                }
            } else {
                &&& events.len() == 0
                &&& end == KeyModel { last_max_stroke: x as u32, ..held }
            }
        }),
    decreases samples.len(),
{
    if samples.len() > 0 {
        // The last sample finds the key as the earlier ones left it: with the
        // first it comes up or its highest travel settles, and after that
        // nothing moves.
        let earlier = samples.drop_last();
        assert(steady_at(key, earlier, key.clamped_travel(raw))) by {
            assert forall|i: int| 0 <= i < earlier.len() implies key.clamped_travel(
                #[trigger] earlier[i],
            ) == key.clamped_travel(raw) by {}
        }
        lemma_steady_hold(key, raw, earlier);
    }
}

/// The exception of `lemma_steady_hold_never_presses` is needed: at a position
/// that chatters, the key that a sample has pressed comes up with the next
/// such sample and goes down again with the one after.
pub proof fn lemma_chatter_presses_again(key: KeyModel, raw: u16)
    requires
        key.well_formed(),
        key.presses_at(raw),
        key.chatters_at(raw),
    ensures
        key.after(raw).event(raw) == Some(KeyEvent::Release(key.keycode)),
        key.after(raw).after(raw).event(raw) == Some(KeyEvent::Press(key.keycode)),
{
}

/// A down key whose travel drops to the release threshold comes up with that
/// one sample: the sample draws one release, the trigger side is armed again
/// from travel 0, and no sample draws a second release before a press.
pub proof fn lemma_drop_releases_once(key: KeyModel, raw: u16, next: u16)
    requires
        key.state == State::Trigger,
        key.clamped_travel(raw) <= key.release_threshold(key.clamped_travel(raw)),
    ensures
        key.event(raw) == Some(KeyEvent::Release(key.keycode)),
        key.after(raw).state == State::Release,
        key.after(raw).last_max_stroke == 0,
        !(key.after(raw).event(next) matches Some(KeyEvent::Release(_))),
{
}

} // verus!
