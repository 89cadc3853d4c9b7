//! What holds of the report, whatever keys are pressed and released.

use vstd::prelude::*;

use crate::keyboard::distinct_keys;
use crate::keyboard::empty_slots;
use crate::keyboard::is_first_slot_of;
use crate::keyboard::lemma_first_slot_of;
use crate::keyboard::pressed;
use crate::keyboard::released;
use crate::keyboard::wire_image;
use crate::keyboard::REPORT_SLOTS;
use crate::keycode::Keycode;
use crate::keycode::NO_KEY;

verus! {

/// The slots after a press of each of `codes`, in order.
pub open spec fn pressed_all(slots: Seq<u8>, codes: Seq<u8>) -> Seq<u8>
    decreases codes.len(),
{
    if codes.len() == 0 {
        slots
    } else {
        pressed(pressed_all(slots, codes.drop_last()), codes.last())
    }
}

/// Releasing a key that is not held leaves the report as it is, byte for byte.
pub proof fn lemma_release_of_absent_key(modifier: u8, slots: Seq<u8>, code: u8)
    requires
        !slots.contains(code),
    ensures
        released(slots, code) == slots,
        wire_image(modifier, released(slots, code)) == wire_image(modifier, slots),
{
}

/// Pressing a key that is held already leaves the report as it is.
pub proof fn lemma_press_of_held_key(slots: Seq<u8>, code: u8)
    requires
        slots.contains(code),
    ensures
        pressed(slots, code) == slots,
{
}

/// While every slot is taken, a press changes nothing.
pub proof fn lemma_press_on_full_report(slots: Seq<u8>, code: u8)
    requires
        !slots.contains(NO_KEY),
    ensures
        pressed(slots, code) == slots,
{
}

/// Releasing a held key empties the slot it is in and no other.
pub proof fn lemma_release_frees_its_slot(slots: Seq<u8>, i: int)
    requires
        distinct_keys(slots),
        0 <= i < slots.len(),
        slots[i] != NO_KEY,
    ensures
        released(slots, slots[i]) == slots.update(i, NO_KEY),
{
    lemma_first_slot_of(slots, slots[i], i);
}

/// On a full report, the key pressed after a release takes the slot that the
/// release freed.
pub proof fn lemma_press_reuses_freed_slot(slots: Seq<u8>, i: int, code: u8)
    requires
        distinct_keys(slots),
        !slots.contains(NO_KEY),
        0 <= i < slots.len(),
        code != NO_KEY,
        forall|j: int| 0 <= j < slots.len() && j != i ==> slots[j] != code,
    ensures
        pressed(released(slots, slots[i]), code) == slots.update(i, code),
{
    lemma_release_frees_its_slot(slots, i);
    // The report was full, so the freed slot is the first empty one.
    let freed = slots.update(i, NO_KEY);
    assert forall|j: int| 0 <= j < i implies freed[j] != NO_KEY by {}
    lemma_first_slot_of(freed, NO_KEY, i);
}

/// From the empty report, presses of up to six different keys fill the slots
/// from the first on, in the order of the presses.
pub proof fn lemma_presses_fill_in_order(codes: Seq<u8>)
    requires
        codes.len() <= REPORT_SLOTS,
        forall|i: int| 0 <= i < codes.len() ==> codes[i] != NO_KEY,
        forall|i: int, j: int| 0 <= i < j < codes.len() ==> codes[i] != codes[j],
    ensures
        pressed_all(empty_slots(), codes) == codes + Seq::new(
            (REPORT_SLOTS - codes.len()) as nat,
            |i: int| NO_KEY,
        ),
    decreases codes.len(),
{
    let n = codes.len() as int;
    if n > 0 {
        let earlier = codes.drop_last();
        let code = codes.last();
        lemma_presses_fill_in_order(earlier);
        // The last key is not among the earlier ones, and the first empty
        // slot is the one behind them.
        let before = earlier + Seq::new((REPORT_SLOTS - (n - 1)) as nat, |i: int| NO_KEY);
        assert forall|j: int| 0 <= j < before.len() implies before[j] != code by {}
        assert forall|j: int| 0 <= j < n - 1 implies before[j] != NO_KEY by {}
        lemma_first_slot_of(before, NO_KEY, n - 1);
    }
}

/// From the empty report, pressing `a`, pressing `b`, releasing `a` and
/// releasing `b` gives the empty report again, whatever the two keys are.
pub proof fn lemma_press_release_round_trip(a: Keycode, b: Keycode)
    ensures
        released(
            released(pressed(pressed(empty_slots(), a.usage_spec()), b.usage_spec()), a.usage_spec()),
            b.usage_spec(),
        ) == empty_slots(),
{
    let ca = a.usage_spec();
    let cb = b.usage_spec();
    a.lemma_usage_in_range();
    b.lemma_usage_in_range();
    // `a` goes to slot 0.
    let e = empty_slots();
    lemma_first_slot_of(e, NO_KEY, 0);
    let s1 = e.update(0, ca);
    lemma_first_slot_of(s1, ca, 0);
    if ca != cb {
        // `b` goes to slot 1, then slot 0 and slot 1 are emptied in turn.
        assert forall|j: int| 0 <= j < s1.len() implies s1[j] != cb by {}
        lemma_first_slot_of(s1, NO_KEY, 1);
        let s2 = s1.update(1, cb);
        assert(is_first_slot_of(s2, ca, 0));
        lemma_first_slot_of(s2, ca, 0);
        let s3 = s2.update(0, NO_KEY);
        lemma_first_slot_of(s3, cb, 1);
    }
}

} // verus!
