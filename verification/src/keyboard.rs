//! The boot-keyboard report: which keys are held, and the bytes that say so.

use vstd::prelude::*;

use crate::keycode::Keycode;
use crate::keycode::NO_KEY;

verus! {

/// The number of keys that one report can name.
pub const REPORT_SLOTS: usize = 6;

/// What a key's state machine tells the keyboard.
#[derive(Clone, Copy, Debug, PartialEq, Eq, Structural)]
pub enum KeyEvent {
    /// The key went down.
    Press(Keycode),
    /// The key came up.
    Release(Keycode),
}

impl KeyEvent {
    /// The key that the event is about.
    pub open spec fn keycode_spec(self) -> Keycode {
        match self {
            KeyEvent::Press(k) => k,
            KeyEvent::Release(k) => k,
        }
    }

    /// The key that the event is about.
    pub fn keycode(self) -> (k: Keycode)
        ensures
            k == self.keycode_spec(),
    {
        match self {
            KeyEvent::Press(k) => k,
            KeyEvent::Release(k) => k,
        }
    }

    /// Whether the event is a press.
    pub fn is_press(self) -> (b: bool)
        ensures
            b == (self is Press),
    {
        match self {
            KeyEvent::Press(_) => true,
            KeyEvent::Release(_) => false,
        }
    }
}

/// Whether `i` is the first slot of `slots` that holds `code`.
pub open spec fn is_first_slot_of(slots: Seq<u8>, code: u8, i: int) -> bool {
    &&& 0 <= i < slots.len()
    &&& slots[i] == code
    &&& forall|j: int| 0 <= j < i ==> slots[j] != code
}

/// The first slot of `slots` that holds `code`. It means something only where
/// `slots` holds `code`.
pub open spec fn first_slot_of(slots: Seq<u8>, code: u8) -> int {
    choose|i: int| is_first_slot_of(slots, code, i)
}

/// No key is named in two slots. Empty slots may repeat.
pub open spec fn distinct_keys(slots: Seq<u8>) -> bool {
    forall|i: int, j: int|
        0 <= i < j < slots.len() && slots[i] != NO_KEY ==> slots[i] != slots[j]
}

/// The slots after a press of `code`: unchanged where `code` is held already
/// or no slot is empty, else with `code` in the first empty slot.
pub open spec fn pressed(slots: Seq<u8>, code: u8) -> Seq<u8> {
    if slots.contains(code) || !slots.contains(NO_KEY) {
        slots
    } else {
        slots.update(first_slot_of(slots, NO_KEY), code)
    }
}

/// The slots after a release of `code`: the first slot that holds it is
/// emptied, and where none holds it nothing changes.
pub open spec fn released(slots: Seq<u8>, code: u8) -> Seq<u8> {
    if slots.contains(code) {
        slots.update(first_slot_of(slots, code), NO_KEY)
    } else {
        slots
    }
}

/// The slots after `event`.
pub open spec fn applied(slots: Seq<u8>, event: KeyEvent) -> Seq<u8> {
    match event {
        KeyEvent::Press(k) => pressed(slots, k.usage_spec()),
        KeyEvent::Release(k) => released(slots, k.usage_spec()),
    }
}

/// A report with every slot empty.
pub open spec fn empty_slots() -> Seq<u8> {
    Seq::new(REPORT_SLOTS as nat, |i: int| NO_KEY)
}

/// The report on the wire: the modifier byte, a reserved zero byte, then the
/// slots in order.
pub open spec fn wire_image(modifier: u8, slots: Seq<u8>) -> Seq<u8> {
    seq![modifier, 0u8] + slots
}

/// The first slot that holds `code` is the only `i` that `is_first_slot_of`
/// accepts.
pub proof fn lemma_first_slot_of(slots: Seq<u8>, code: u8, i: int)
    requires
        is_first_slot_of(slots, code, i),
    ensures
        first_slot_of(slots, code) == i,
{
}

/// Where `slots` holds `code`, some slot is the first that does.
pub proof fn lemma_first_slot_exists(slots: Seq<u8>, code: u8)
    requires
        slots.contains(code),
    ensures
        is_first_slot_of(slots, code, first_slot_of(slots, code)),
{
    let w = choose|i: int| 0 <= i < slots.len() && slots[i] == code;
    lemma_first_slot_below(slots, code, w);
}

/// Below any slot that holds `code` (that slot included) lies the first one.
proof fn lemma_first_slot_below(slots: Seq<u8>, code: u8, w: int)
    requires
        0 <= w < slots.len(),
        slots[w] == code,
    ensures
        is_first_slot_of(slots, code, first_slot_of(slots, code)),
        first_slot_of(slots, code) <= w,
    decreases w,
{
    if exists|j: int| 0 <= j < w && slots[j] == code {
        let j = choose|j: int| 0 <= j < w && slots[j] == code;
        lemma_first_slot_below(slots, code, j);
    } else {
        lemma_first_slot_of(slots, code, w);
    }
}

/// A press keeps the keys of a report distinct.
pub proof fn lemma_pressed_keeps_distinct(slots: Seq<u8>, code: u8)
    requires
        distinct_keys(slots),
    ensures
        distinct_keys(pressed(slots, code)),
        pressed(slots, code).len() == slots.len(),
{
    if !slots.contains(code) && slots.contains(NO_KEY) {
        lemma_first_slot_exists(slots, NO_KEY);
    }
}

/// A release keeps the keys of a report distinct.
pub proof fn lemma_released_keeps_distinct(slots: Seq<u8>, code: u8)
    requires
        distinct_keys(slots),
    ensures
        distinct_keys(released(slots, code)),
        released(slots, code).len() == slots.len(),
{
    if slots.contains(code) {
        lemma_first_slot_exists(slots, code);
    }
}

/// The keys that are held, and the report that says so to the host.
pub struct Keyboard {
    modifier: u8,
    keycodes: [u8; 6],
}

impl View for Keyboard {
    type V = Seq<u8>;

    /// The six slots of the report, in order.
    closed spec fn view(&self) -> Seq<u8> {
        self.keycodes@
    }
}

impl Keyboard {
    #[verifier::type_invariant]
    spec fn no_key_twice(self) -> bool {
        distinct_keys(self.keycodes@)
    }

    /// The modifier byte of the report.
    pub closed spec fn modifier_spec(&self) -> u8 {
        self.modifier
    }

    /// The report as the host receives it.
    pub open spec fn wire(&self) -> Seq<u8> {
        wire_image(self.modifier_spec(), self@)
    }

    /// A keyboard with no key held.
    pub fn new() -> (kb: Keyboard)
        ensures
            kb@ == empty_slots(),
            kb.modifier_spec() == 0,
            distinct_keys(kb@),
    {
        Keyboard { modifier: 0, keycodes: [NO_KEY, NO_KEY, NO_KEY, NO_KEY, NO_KEY, NO_KEY] }
    }

    /// The six slots of the report: the usage byte of each held key, in the
    /// slot that the key took when it went down, and `NO_KEY` in each empty
    /// slot. No key is in two slots.
    pub fn keycodes(&self) -> (slots: [u8; 6])
        ensures
            slots@ == self@,
            self@.len() == REPORT_SLOTS,
            distinct_keys(self@),
    {
        proof {
            use_type_invariant(self);
        }
        self.keycodes
    }

    /// The modifier byte of the report.
    pub fn modifier(&self) -> (m: u8)
        ensures
            m == self.modifier_spec(),
    {
        self.modifier
    }

    /// The first slot that holds `code`, if one does.
    fn position(&self, code: u8) -> (at: Option<usize>)
        ensures
            match at {
                Some(i) => is_first_slot_of(self@, code, i as int),
                None => !self@.contains(code),
            },
    {
        let mut i: usize = 0;
        while i < REPORT_SLOTS
            invariant
                i <= REPORT_SLOTS,
                forall|j: int| 0 <= j < i ==> self.keycodes@[j] != code,
            decreases REPORT_SLOTS - i,
        {
            if self.keycodes[i] == code {
                return Some(i);
            }
            i += 1;
        }
        None
    }

    /// Notes that `keycode` went down, and gives the report to transmit.
    ///
    /// A key that is held already changes nothing. Another takes the first
    /// empty slot, and where all six are taken the press is dropped.
    pub fn press(&mut self, keycode: Keycode) -> (wire: [u8; 8])
        ensures
            final(self)@ == pressed(old(self)@, keycode.usage_spec()),
            final(self).modifier_spec() == old(self).modifier_spec(),
            final(self)@.len() == REPORT_SLOTS,
            distinct_keys(final(self)@),
            wire@ == final(self).wire(),
    {
        proof {
            use_type_invariant(&*self);
        }
        let code = keycode.usage();
        if self.position(code).is_none() {
            if let Some(i) = self.position(NO_KEY) {
                proof {
                    lemma_first_slot_of(self@, NO_KEY, i as int);
                    lemma_pressed_keeps_distinct(self@, code);
                }
                self.keycodes[i] = code;
            }
        }
        proof {
            use_type_invariant(&*self);
        }
        self.report_bytes()
    }

    /// Notes that `keycode` came up, and gives the report to transmit.
    ///
    /// The slot that holds the key is emptied and the others stay where they
    /// are. A key that is not held changes nothing.
    pub fn release(&mut self, keycode: Keycode) -> (wire: [u8; 8])
        ensures
            final(self)@ == released(old(self)@, keycode.usage_spec()),
            final(self).modifier_spec() == old(self).modifier_spec(),
            final(self)@.len() == REPORT_SLOTS,
            distinct_keys(final(self)@),
            wire@ == final(self).wire(),
    {
        proof {
            use_type_invariant(&*self);
        }
        let code = keycode.usage();
        if let Some(i) = self.position(code) {
            proof {
                lemma_first_slot_of(self@, code, i as int);
                lemma_released_keeps_distinct(self@, code);
            }
            self.keycodes[i] = NO_KEY;
        }
        proof {
            use_type_invariant(&*self);
        }
        self.report_bytes()
    }

    /// Lets every key go, and gives the report to transmit.
    pub fn release_all(&mut self) -> (wire: [u8; 8])
        ensures
            final(self)@ == empty_slots(),
            final(self).modifier_spec() == old(self).modifier_spec(),
            final(self)@.len() == REPORT_SLOTS,
            distinct_keys(final(self)@),
            wire@ == final(self).wire(),
    {
        let cleared: [u8; 6] = [0, 0, 0, 0, 0, 0];
        self.keycodes = cleared;
        proof {
            use_type_invariant(&*self);
        }
        self.report_bytes()
    }

    /// Applies one event of a key, and gives the report to transmit.
    pub fn apply(&mut self, event: KeyEvent) -> (wire: [u8; 8])
        ensures
            final(self)@ == applied(old(self)@, event),
            final(self).modifier_spec() == old(self).modifier_spec(),
            final(self)@.len() == REPORT_SLOTS,
            distinct_keys(final(self)@),
            wire@ == final(self).wire(),
    {
        match event {
            KeyEvent::Press(k) => self.press(k),
            KeyEvent::Release(k) => self.release(k),
        }
    }

    /// The current report as it goes over the wire.
    pub fn report_bytes(&self) -> (wire: [u8; 8])
        ensures
            wire@ == self.wire(),
    {
        let wire = [
            self.modifier,
            0,
            self.keycodes[0],
            self.keycodes[1],
            self.keycodes[2],
            self.keycodes[3],
            self.keycodes[4],
            self.keycodes[5],
        ];
        wire
    }
}

impl Default for Keyboard {
    /// A keyboard with no key held.
    fn default() -> (kb: Keyboard)
        ensures
            kb@ == empty_slots(),
            kb.modifier_spec() == 0,
    {
        Keyboard::new()
    }
}

/// How the keyboard names itself to the host, to be settled before the
/// keyboard is built.
pub struct KeyboardBuilder<'a> {
    vendor_id: u16,
    product_id: u16,
    manufacturer: Option<&'a str>,
    product: Option<&'a str>,
    serial_number: Option<&'a str>,
    max_power: u16,
    max_packet_size_0: u8,
}

/// The identity of the device, as plain values: the view of a
/// `KeyboardBuilder`.
pub struct DeviceIdentity {
    /// The vendor number.
    pub vendor_id: u16,
    /// The product number.
    pub product_id: u16,
    /// The maker's name, if the device gives one.
    pub manufacturer: Option<Seq<char>>,
    /// The product's name, if the device gives one.
    pub product: Option<Seq<char>>,
    /// The serial number, if the device gives one.
    pub serial_number: Option<Seq<char>>,
    /// The current that the device may draw, in milliamperes.
    pub max_power: u16,
    /// The largest packet of the control endpoint, in bytes.
    pub max_packet_size_0: u8,
}

/// The view of a name that may be missing.
pub open spec fn name_view(name: Option<&str>) -> Option<Seq<char>> {
    match name {
        Some(text) => Some(text@),
        None => None,
    }
}

impl<'a> View for KeyboardBuilder<'a> {
    type V = DeviceIdentity;

    closed spec fn view(&self) -> DeviceIdentity {
        DeviceIdentity {
            vendor_id: self.vendor_id,
            product_id: self.product_id,
            manufacturer: name_view(self.manufacturer),
            product: name_view(self.product),
            serial_number: name_view(self.serial_number),
            max_power: self.max_power,
            max_packet_size_0: self.max_packet_size_0,
        }
    }
}

impl<'a> Default for KeyboardBuilder<'a> {
    /// The identity that the keyboard has unless told otherwise: vendor
    /// `0x16c8`, product `0x27dd`, maker and serial number "mp", product name
    /// "mpv1", 100 mA and control packets of 64 bytes.
    fn default() -> (builder: KeyboardBuilder<'a>)
        ensures
            builder@ == (DeviceIdentity {
                vendor_id: 0x16c8,
                product_id: 0x27dd,
                manufacturer: Some("mp"@),
                product: Some("mpv1"@),
                serial_number: Some("mp"@),
                max_power: 100,
                max_packet_size_0: 64,
            }),
    {
        KeyboardBuilder {
            vendor_id: 0x16c8,
            product_id: 0x27dd,
            manufacturer: Some("mp"),
            product: Some("mpv1"),
            serial_number: Some("mp"),
            max_power: 100,
            max_packet_size_0: 64,
        }
    }
}

impl<'a> KeyboardBuilder<'a> {
    /// The keyboard, with no key held.
    pub fn build(&self) -> (kb: Keyboard)
        ensures
            kb@ == empty_slots(),
            kb.modifier_spec() == 0,
    {
        Keyboard::new()
    }

    /// Sets the maker's name.
    pub fn manufacturer(&mut self, manufacturer: &'a str)
        ensures
            final(self)@ == (DeviceIdentity { manufacturer: Some(manufacturer@), ..old(self)@ }),
    {
        self.manufacturer = Some(manufacturer);
    }

    /// Sets the product's name.
    pub fn product(&mut self, product: &'a str)
        ensures
            final(self)@ == (DeviceIdentity { product: Some(product@), ..old(self)@ }),
    {
        self.product = Some(product);
    }

    /// Sets the serial number.
    pub fn serial_number(&mut self, serial_number: &'a str)
        ensures
            final(self)@ == (DeviceIdentity { serial_number: Some(serial_number@), ..old(self)@ }),
    {
        self.serial_number = Some(serial_number);
    }

    /// The vendor number.
    pub fn vendor_id(&self) -> (id: u16)
        ensures
            id == self@.vendor_id,
    {
        self.vendor_id
    }

    /// The product number.
    pub fn product_id(&self) -> (id: u16)
        ensures
            id == self@.product_id,
    {
        self.product_id
    }

    /// The maker's name, if one is set.
    pub fn manufacturer_name(&self) -> (name: Option<&'a str>)
        ensures
            name_view(name) == self@.manufacturer,
    {
        self.manufacturer
    }

    /// The product's name, if one is set.
    pub fn product_name(&self) -> (name: Option<&'a str>)
        ensures
            name_view(name) == self@.product,
    {
        self.product
    }

    /// The serial number, if one is set.
    pub fn serial(&self) -> (name: Option<&'a str>)
        ensures
            name_view(name) == self@.serial_number,
    {
        self.serial_number
    }

    /// The current that the device may draw, in milliamperes.
    pub fn max_power(&self) -> (milliamperes: u16)
        ensures
            milliamperes == self@.max_power,
    {
        self.max_power
    }

    /// The largest packet of the control endpoint, in bytes.
    pub fn max_packet_size_0(&self) -> (bytes: u8)
        ensures
            bytes == self@.max_packet_size_0,
    {
        self.max_packet_size_0
    }
}

} // verus!
