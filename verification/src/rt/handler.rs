//! The poller: the keys of the keyboard in a fixed order, and the report that
//! their events go to.

use vstd::prelude::*;

use crate::adc::Pin;
use crate::keyboard::applied;
use crate::keyboard::wire_image;
use crate::keyboard::Keyboard;
use crate::keycode::Keycode;
use crate::rt::key::Key;
use crate::rt::key::KeyModel;

verus! {

/// The number of keys that a handler polls.
pub const KEY_COUNT: usize = 2;

/// What a handler is, as plain values: the view of a `Handler`.
pub struct HandlerModel {
    /// The keys, in the order in which they are polled.
    pub keys: Seq<KeyModel>,
    /// The six slots of the report.
    pub slots: Seq<u8>,
    /// The modifier byte of the report.
    pub modifier: u8,
}

impl HandlerModel {
    /// The handler after key `index` got the sample `raw`: that key has moved,
    /// and its event, if it drew one, is applied to the report. An index that
    /// names no key changes nothing.
    pub open spec fn after_key(self, index: int, raw: u16) -> HandlerModel {
        if 0 <= index < self.keys.len() {
            HandlerModel {
                keys: self.keys.update(index, self.keys[index].after(raw)),
                slots: match self.keys[index].event(raw) {
                    Some(e) => applied(self.slots, e),
                    None => self.slots,
                },
                modifier: self.modifier,
            }
        } else {
            self
        }
    }

    /// The report to transmit after key `index` got the sample `raw`: the
    /// report as its event leaves it, and none where there was no event.
    pub open spec fn report_of_key(self, index: int, raw: u16) -> Option<Seq<u8>> {
        if 0 <= index < self.keys.len() && self.keys[index].event(raw) is Some {
            Some(wire_image(self.modifier, self.after_key(index, raw).slots))
        } else {
            None
        }
    }

    /// The handler after the first `count` keys got their samples, key 0
    /// first.
    pub open spec fn after_keys(self, samples: Seq<u16>, count: nat) -> HandlerModel
        decreases count,
    {
        if count == 0 {
            self
        } else {
            self.after_keys(samples, (count - 1) as nat).after_key(count - 1, samples[count - 1])
        }
    }

    /// The report to transmit after key `index` got its sample in a cycle,
    /// and none where the key drew no event. Key `index` is reached after the
    /// keys before it.
    pub open spec fn report_in_cycle(self, samples: Seq<u16>, index: int) -> Option<Seq<u8>> {
        self.after_keys(samples, index as nat).report_of_key(index, samples[index])
    }
}

/// In a cycle every key gets its own sample and no other: key `index` ends
/// as its sample alone leaves it, and keys that were not reached are as they
/// were.
pub proof fn lemma_cycle_moves_each_key(
    handler: HandlerModel,
    samples: Seq<u16>,
    count: nat,
    index: int,
)
    requires
        count <= handler.keys.len(),
        0 <= index < handler.keys.len(),
    ensures
        handler.after_keys(samples, count).keys.len() == handler.keys.len(),
        handler.after_keys(samples, count).modifier == handler.modifier,
        handler.after_keys(samples, count).keys[index] == if index < count {
            handler.keys[index].after(samples[index])
        } else {
            handler.keys[index]
        },
    decreases count,
{
    if count > 0 {
        lemma_cycle_moves_each_key(handler, samples, (count - 1) as nat, index);
        lemma_cycle_moves_each_key(handler, samples, (count - 1) as nat, count - 1);
    }
}

/// Two keys, the letters Z and X, and the keyboard that their events go to.
pub struct Handler {
    keys: [Key; 2],
    kb: Keyboard,
}

impl View for Handler {
    type V = HandlerModel;

    closed spec fn view(&self) -> HandlerModel {
        HandlerModel {
            keys: Seq::new(KEY_COUNT as nat, |i: int| self.keys@[i]@),
            slots: self.kb@,
            modifier: self.kb.modifier_spec(),
        }
    }
}

impl Handler {
    /// A handler for `kb` with key 0 for the letter Z on input `P26` and key 1
    /// for the letter X on input `P27`, both up and with the default
    /// calibration and sensitivity.
    pub fn new(kb: Keyboard) -> (handler: Handler)
        ensures
            handler@.keys == seq![
                KeyModel::initial(Keycode::KeyZ, Some(Pin::P26)),
                KeyModel::initial(Keycode::KeyX, Some(Pin::P27)),
            ],
            handler@.slots == kb@,
            handler@.modifier == kb.modifier_spec(),
    {
        let handler = Handler {
            keys: [Key::new(Keycode::KeyZ, Pin::P26), Key::new(Keycode::KeyX, Pin::P27)],
            kb,
        };
        assert(handler@.keys =~= seq![
            KeyModel::initial(Keycode::KeyZ, Some(Pin::P26)),
            KeyModel::initial(Keycode::KeyX, Some(Pin::P27)),
        ]);
        handler
    }

    /// Key `index` as plain values, if there is such a key.
    pub fn key(&self, index: usize) -> (key: Option<KeyModel>)
        ensures
            self@.keys.len() == KEY_COUNT,
            index < KEY_COUNT ==> key == Some(self@.keys[index as int]) && self@.keys[index as int].well_formed(),
            index >= KEY_COUNT ==> key is None,
    {
        if index < KEY_COUNT {
            Some(self.keys[index].model())
        } else {
            None
        }
    }

    /// The converter input from which the sample for key `index` is to be
    /// taken, if there is such a key and it has one.
    pub fn channel(&self, index: usize) -> (channel: Option<Pin>)
        ensures
            index < KEY_COUNT ==> channel == self@.keys[index as int].channel,
            index >= KEY_COUNT ==> channel is None,
    {
        if index < KEY_COUNT {
            self.keys[index].channel()
        } else {
            None
        }
    }

    /// The keyboard that the events go to.
    pub fn keyboard(&self) -> (kb: &Keyboard)
        ensures
            kb@ == self@.slots,
            kb.modifier_spec() == self@.modifier,
    {
        &self.kb
    }

    /// Feeds the sample `raw` to key `index`, and gives the report to
    /// transmit if the key drew an event. An index that names no key changes
    /// nothing and gives no report.
    pub fn process_key(&mut self, index: usize, raw: u16) -> (report: Option<[u8; 8]>)
        ensures
            final(self)@ == old(self)@.after_key(index as int, raw),
            match old(self)@.report_of_key(index as int, raw) {
                Some(wire) => report matches Some(bytes) && bytes@ == wire,
                None => report is None,
            },
    {
        if index >= KEY_COUNT {
            return None;
        }
        let mut key = self.keys[index];
        let report = key.process(raw, &mut self.kb);
        self.keys[index] = key;
        assert(self@.keys =~= old(self)@.after_key(index as int, raw).keys);
        report
    }

    /// Runs one cycle: feeds each key its sample, key 0 first. Entry `i` of
    /// the result is the report to transmit for the event of key `i`, and
    /// `None` where that key drew no event; they are to be sent in this order.
    pub fn process(&mut self, samples: [u16; 2]) -> (reports: [Option<[u8; 8]>; 2])
        ensures
            final(self)@ == old(self)@.after_keys(samples@, KEY_COUNT as nat),
            forall|i: int|
                0 <= i < KEY_COUNT ==> match old(self)@.report_in_cycle(samples@, i) {
                    Some(wire) => #[trigger] reports@[i] matches Some(bytes) && bytes@ == wire,
                    None => reports@[i] is None,
                },
    {
        let mut reports: [Option<[u8; 8]>; 2] = [None, None];
        let mut index: usize = 0;
        while index < KEY_COUNT
            invariant
                index <= KEY_COUNT,
                self@ == old(self)@.after_keys(samples@, index as nat),
                forall|i: int|
                    0 <= i < index ==> match old(self)@.report_in_cycle(samples@, i) {
                        Some(wire) => #[trigger] reports@[i] matches Some(bytes) && bytes@ == wire,
                        None => reports@[i] is None,
                    },
            decreases KEY_COUNT - index,
        {
            let report = self.process_key(index, samples[index]);
            reports[index] = report;
            index += 1;
        }
        reports
    }
}

} // verus!
