//! One analog key: calibration, sensitivity and the hysteresis that turns
//! travel into press and release events.
//!
//! Travel and strokes are fixed-point fractions of the calibrated range, in
//! millionths: `FULL_TRAVEL` is the whole range, 200_000 is a fifth of it.

use vstd::prelude::*;

use crate::adc::Pin;
use crate::keyboard::KeyEvent;
use crate::keyboard::Keyboard;
use crate::keycode::Keycode;

verus! {

/// The whole calibrated range of a key, in millionths.
pub const FULL_TRAVEL: u32 = 1_000_000;

/// The raw level of the released end of a new key's range.
pub const DEFAULT_BOTTOM_LEVEL: u16 = 100;

/// The raw level of the pressed end of a new key's range.
pub const DEFAULT_TOP_LEVEL: u16 = 0;

/// The trigger and the release stroke of a new key: a fifth of the range.
pub const DEFAULT_STROKE: u32 = 200_000;

/// The dead zone of a new key: three hundredths of the range.
pub const DEFAULT_DEAD_ZONE: u32 = 30_000;

/// Whether a key counts as up or as down.
#[derive(Clone, Copy, Debug, PartialEq, Eq, Structural)]
pub enum State {
    /// The key is up: the last event, if there was one, was a release.
    Release,
    /// The key is down: the last event was a press.
    Trigger,
}

/// Why a calibration is refused.
#[derive(Clone, Copy, Debug, PartialEq, Eq, Structural)]
pub enum ConfigError {
    /// The two ends of the range are the same raw level, so no sample could
    /// be placed between them.
    ZeroRange,
}

/// What a key is, as plain values: the view of a `Key`.
#[derive(Clone, Copy, Debug)]
pub struct KeyModel {
    /// The key that events name.
    pub keycode: Keycode,
    /// The raw level at one end of the range.
    pub bottom_level: u16,
    /// The raw level at the other end of the range.
    pub top_level: u16,
    /// How far above the lowest travel since the last release a press takes.
    pub trigger_stroke: u32,
    /// How far below the highest travel since the last press a release takes.
    pub release_stroke: u32,
    /// The part of the range at each end in which no threshold lies.
    pub dead_zone: u32,
    /// The converter input that the key is sampled from.
    pub channel: Option<Pin>,
    /// Up or down.
    pub state: State,
    /// The highest travel seen since the key went down.
    pub last_max_stroke: u32,
    /// The lowest travel seen since the key came up.
    pub last_min_stroke: u32,
}

/// `x` held between `low` and `high`.
pub open spec fn clamp(x: int, low: int, high: int) -> int {
    if x < low {
        low
    } else if x > high {
        high
    } else {
        x
    }
}

impl KeyModel {
    /// A key as `Key::new` and `Key::default` make it, but for its key and
    /// channel.
    pub open spec fn initial(keycode: Keycode, channel: Option<Pin>) -> KeyModel {
        KeyModel {
            keycode,
            bottom_level: DEFAULT_BOTTOM_LEVEL,
            top_level: DEFAULT_TOP_LEVEL,
            trigger_stroke: DEFAULT_STROKE,
            release_stroke: DEFAULT_STROKE,
            dead_zone: DEFAULT_DEAD_ZONE,
            channel,
            state: State::Release,
            last_max_stroke: 0,
            last_min_stroke: FULL_TRAVEL,
        }
    }

    /// The larger of the two calibrated levels: the raw level of travel 0.
    pub open spec fn max_level(self) -> int {
        if self.top_level >= self.bottom_level {
            self.top_level as int
        } else {
            self.bottom_level as int
        }
    }

    /// The distance between the two calibrated levels.
    pub open spec fn sum_stroke(self) -> int {
        if self.top_level >= self.bottom_level {
            self.top_level - self.bottom_level
        } else {
            self.bottom_level - self.top_level
        }
    }

    /// What every `Key` is: calibrated over a range that is not empty, with
    /// both extremes inside the range, and each extreme at rest while the
    /// other side is armed.
    pub open spec fn well_formed(self) -> bool {
        &&& self.top_level != self.bottom_level
        &&& self.last_min_stroke <= FULL_TRAVEL
        &&& self.last_max_stroke <= FULL_TRAVEL
        &&& self.state == State::Release ==> self.last_max_stroke == 0
        &&& self.state == State::Trigger ==> self.last_min_stroke == FULL_TRAVEL
    }

    /// The travel that a raw sample stands for, in millionths of the range and
    /// rounded down: 0 at the larger calibrated level, `FULL_TRAVEL` at the
    /// smaller. A sample outside the calibrated range gives a travel outside
    /// 0 to `FULL_TRAVEL`.
    pub open spec fn travel(self, raw: u16) -> int {
        ((self.max_level() - raw) * FULL_TRAVEL) / self.sum_stroke()
    }

    /// The travel of a sample, held inside the calibrated range. The state
    /// machine decides on this.
    pub open spec fn clamped_travel(self, raw: u16) -> int {
        clamp(self.travel(raw), 0, FULL_TRAVEL as int)
    }

    /// The lowest travel since the key came up, the travel `x` of the
    /// current sample included.
    pub open spec fn lowest(self, x: int) -> int {
        if x < self.last_min_stroke {
            x
        } else {
            self.last_min_stroke as int
        }
    }

    /// The highest travel since the key went down, the travel `x` of the
    /// current sample included.
    pub open spec fn highest(self, x: int) -> int {
        if x > self.last_max_stroke {
            x
        } else {
            self.last_max_stroke as int
        }
    }

    /// The travel from which an up key goes down at travel `x`: a trigger
    /// stroke above the lowest travel, but never inside the dead zone at the
    /// pressed end.
    pub open spec fn press_threshold(self, x: int) -> int {
        vstd::math::min(self.lowest(x) + self.trigger_stroke, FULL_TRAVEL - self.dead_zone)
    }

    /// The travel down to which a down key comes up at travel `x`: a release
    /// stroke below the highest travel, but never inside the dead zone at the
    /// released end.
    pub open spec fn release_threshold(self, x: int) -> int {
        vstd::math::max(self.highest(x) - self.release_stroke, self.dead_zone as int)
    }

    /// Whether the sample makes an up key go down.
    pub open spec fn presses_at(self, raw: u16) -> bool {
        &&& self.state == State::Release
        &&& self.clamped_travel(raw) >= self.press_threshold(self.clamped_travel(raw))
    }

    /// Whether the sample makes a down key come up.
    pub open spec fn releases_at(self, raw: u16) -> bool {
        &&& self.state == State::Trigger
        &&& self.clamped_travel(raw) <= self.release_threshold(self.clamped_travel(raw))
    }

    /// The event that the sample draws from the key, if it draws one.
    pub open spec fn event(self, raw: u16) -> Option<KeyEvent> {
        if self.presses_at(raw) {
            Some(KeyEvent::Press(self.keycode))
        } else if self.releases_at(raw) {
            Some(KeyEvent::Release(self.keycode))
        } else {
            None
        }
    }

    /// The key after the sample. A press re-arms the release side by setting
    /// the lowest travel to `FULL_TRAVEL`; a release re-arms the trigger side
    /// by setting the highest travel to 0. Without an event the extreme of
    /// the current side follows the sample.
    pub open spec fn after(self, raw: u16) -> KeyModel {
        let x = self.clamped_travel(raw);
        if self.presses_at(raw) {
            KeyModel { state: State::Trigger, last_min_stroke: FULL_TRAVEL, ..self }
        } else if self.releases_at(raw) {
            KeyModel { state: State::Release, last_max_stroke: 0, ..self }
        } else if self.state == State::Release {
            KeyModel { last_min_stroke: self.lowest(x) as u32, ..self }
        } else {
            KeyModel { last_max_stroke: self.highest(x) as u32, ..self }
        }
    }

    /// Whether the position of the sample both lets a down key come up at
    /// once (no release stroke, or inside the dead zone at the released end)
    /// and lets an up key go down at once (no trigger stroke, or inside the
    /// dead zone at the pressed end). A key held there goes up and down with
    /// every pair of samples.
    pub open spec fn chatters_at(self, raw: u16) -> bool {
        let x = self.clamped_travel(raw);
        &&& self.release_stroke == 0 || x <= self.dead_zone
        &&& self.trigger_stroke == 0 || x >= FULL_TRAVEL - self.dead_zone
    }

    /// The key after each of `samples`, in order.
    pub open spec fn run(self, samples: Seq<u16>) -> KeyModel
        decreases samples.len(),
    {
        if samples.len() == 0 {
            self
        } else {
            self.run(samples.drop_last()).after(samples.last())
        }
    }

    /// The events that `samples` draw from the key, in order.
    pub open spec fn events(self, samples: Seq<u16>) -> Seq<KeyEvent>
        decreases samples.len(),
    {
        if samples.len() == 0 {
            Seq::empty()
        } else {
            let earlier = self.events(samples.drop_last());
            match self.run(samples.drop_last()).event(samples.last()) {
                Some(e) => earlier.push(e),
                None => earlier,
            }
        }
    }
}

/// The quotient of a negative numerator, rounded down, from the quotient of
/// its absolute value, rounded up.
proof fn lemma_floor_of_negative(a: int, d: int, q: int)
    requires
        0 <= a,
        0 < d,
        q == (a + d - 1) / d,
    ensures
        (-a) / d == -q,
{
    let r0 = (a + d - 1) % d;
    vstd::arithmetic::div_mod::lemma_fundamental_div_mod(a + d - 1, d);
    vstd::arithmetic::div_mod::lemma_mod_pos_bound(a + d - 1, d);
    let r = d - 1 - r0;
    assert(-a == (-q) * d + r) by (nonlinear_arith)
        requires
            a + d - 1 == d * q + r0,
            r == d - 1 - r0,
    ;
    vstd::arithmetic::div_mod::lemma_fundamental_div_mod_converse(-a, d, -q, r);
}

/// One analog key switch.
///
/// Every key is calibrated over a range that is not empty, so each sample has
/// a travel.
#[derive(Clone, Copy, Debug)]
pub struct Key {
    model: KeyModel,
}

impl View for Key {
    type V = KeyModel;

    closed spec fn view(&self) -> KeyModel {
        self.model
    }
}

impl Key {
    #[verifier::type_invariant]
    spec fn valid(self) -> bool {
        self.model.well_formed()
    }

    /// An up key for `keycode` that is sampled from `channel`, with the
    /// default calibration and sensitivity.
    pub fn new(keycode: Keycode, channel: Pin) -> (key: Key)
        ensures
            key@ == KeyModel::initial(keycode, Some(channel)),
            key@.well_formed(),
    {
        Key {
            model: KeyModel {
                keycode,
                bottom_level: DEFAULT_BOTTOM_LEVEL,
                top_level: DEFAULT_TOP_LEVEL,
                trigger_stroke: DEFAULT_STROKE,
                release_stroke: DEFAULT_STROKE,
                dead_zone: DEFAULT_DEAD_ZONE,
                channel: Some(channel),
                state: State::Release,
                last_max_stroke: 0,
                last_min_stroke: FULL_TRAVEL,
            },
        }
    }

    /// The key as plain values.
    pub fn model(&self) -> (m: KeyModel)
        ensures
            m == self@,
            m.well_formed(),
    {
        proof {
            use_type_invariant(self);
        }
        self.model
    }

    /// Whether the key is up or down.
    pub fn state(&self) -> (state: State)
        ensures
            state == self@.state,
    {
        self.model.state
    }

    /// The key that the events of this switch name.
    pub fn keycode(&self) -> (keycode: Keycode)
        ensures
            keycode == self@.keycode,
    {
        self.model.keycode
    }

    /// The converter input that the key is sampled from, if it has one.
    pub fn channel(&self) -> (channel: Option<Pin>)
        ensures
            channel == self@.channel,
    {
        self.model.channel
    }

    /// Sets the raw levels at the two ends of the range. Which of the two is
    /// the larger does not matter. Two equal levels are refused, and the key
    /// keeps its calibration.
    pub fn calibrate(&mut self, bottom_level: u16, top_level: u16) -> (result: Result<
        (),
        ConfigError,
    >)
        ensures
            bottom_level != top_level ==> result is Ok && final(self)@ == (KeyModel {
                bottom_level,
                top_level,
                ..old(self)@
            }),
            bottom_level == top_level ==> result == Err::<(), ConfigError>(ConfigError::ZeroRange)
                && final(self)@ == old(self)@,
            final(self)@.well_formed(),
    {
        proof {
            use_type_invariant(&*self);
        }
        if bottom_level == top_level {
            return Err(ConfigError::ZeroRange);
        }
        self.model = KeyModel { bottom_level, top_level, ..self.model };
        Ok(())
    }

    /// Sets the sensitivity: the trigger stroke, the release stroke and the
    /// dead zone, each in millionths of the range.
    pub fn set_strokes(&mut self, trigger_stroke: u32, release_stroke: u32, dead_zone: u32)
        ensures
            final(self)@ == (KeyModel {
                trigger_stroke,
                release_stroke,
                dead_zone,
                ..old(self)@
            }),
            final(self)@.well_formed(),
    {
        proof {
            use_type_invariant(&*self);
        }
        self.model = KeyModel { trigger_stroke, release_stroke, dead_zone, ..self.model };
    }

    /// The travel that a raw sample stands for, in millionths of the
    /// calibrated range and rounded down. It is not held inside the range: a
    /// sample beyond a calibrated level gives less than 0 or more than
    /// `FULL_TRAVEL`.
    pub fn travel_fraction(&self, raw: u16) -> (travel: i64)
        ensures
            travel == self@.travel(raw),
    {
        proof {
            use_type_invariant(self);
        }
        let top = self.model.top_level;
        let bottom = self.model.bottom_level;
        let max_level: u16 = if top >= bottom { top } else { bottom };
        let min_level: u16 = if top >= bottom { bottom } else { top };
        let range: u64 = (max_level - min_level) as u64;
        if raw <= max_level {
            let depth: u64 = (max_level - raw) as u64;
            let scaled: u64 = depth * 1_000_000;
            let quotient: u64 = scaled / range;
            assert(quotient <= scaled) by (nonlinear_arith)
                requires
                    quotient == scaled as int / range as int,
                    range >= 1,
                    scaled >= 0,
            ;
            quotient as i64
        } else {
            let height: u64 = (raw - max_level) as u64;
            let scaled: u64 = height * 1_000_000;
            let quotient: u64 = (scaled + (range - 1)) / range;
            assert(quotient <= scaled + range - 1) by (nonlinear_arith)
                requires
                    quotient == (scaled + range - 1) as int / range as int,
                    range >= 1,
                    scaled >= 0,
            ;
            proof {
                lemma_floor_of_negative(scaled as int, range as int, quotient as int);
            }
            -(quotient as i64)
        }
    }

    /// Feeds one sample to the key, and gives the event that it draws, if it
    /// draws one.
    ///
    /// The travel of the sample is held inside the calibrated range first. An
    /// up key goes down once the travel is a trigger stroke above the lowest
    /// travel since it came up; a down key comes up once the travel is a
    /// release stroke below the highest travel since it went down. Neither
    /// threshold lies inside the dead zone at its end of the range.
    pub fn decide(&mut self, raw: u16) -> (event: Option<KeyEvent>)
        ensures
            event == old(self)@.event(raw),
            final(self)@ == old(self)@.after(raw),
            final(self)@.well_formed(),
    {
        proof {
            use_type_invariant(&*self);
        }
        let unclamped = self.travel_fraction(raw);
        let travel: u32 = if unclamped < 0 {
            0
        } else if unclamped > 1_000_000 {
            FULL_TRAVEL
        } else {
            unclamped as u32
        };
        match self.model.state {
            State::Release => {
                let lowest: u32 = if travel < self.model.last_min_stroke {
                    travel
                } else {
                    self.model.last_min_stroke
                };
                let armed: i64 = lowest as i64 + self.model.trigger_stroke as i64;
                let limit: i64 = 1_000_000 - self.model.dead_zone as i64;
                let threshold: i64 = if armed <= limit { armed } else { limit };
                if travel as i64 >= threshold {
                    self.model = KeyModel {
                        state: State::Trigger,
                        last_min_stroke: FULL_TRAVEL,
                        ..self.model
                    };
                    Some(KeyEvent::Press(self.model.keycode))
                } else {
                    self.model.last_min_stroke = lowest;
                    None
                }
            },
            State::Trigger => {
                let highest: u32 = if travel > self.model.last_max_stroke {
                    travel
                } else {
                    self.model.last_max_stroke
                };
                let armed: i64 = highest as i64 - self.model.release_stroke as i64;
                let limit: i64 = self.model.dead_zone as i64;
                let threshold: i64 = if armed >= limit { armed } else { limit };
                if travel as i64 <= threshold {
                    self.model = KeyModel {
                        state: State::Release,
                        last_max_stroke: 0,
                        ..self.model
                    };
                    Some(KeyEvent::Release(self.model.keycode))
                } else {
                    self.model.last_max_stroke = highest;
                    None
                }
            },
        }
    }

    /// Feeds one sample to the key and applies the event that it draws to
    /// `kb`. Where there was an event, the result is the report to transmit;
    /// without one the keyboard is left alone and nothing is to be sent.
    pub fn process(&mut self, raw: u16, kb: &mut Keyboard) -> (report: Option<[u8; 8]>)
        ensures
            final(self)@ == old(self)@.after(raw),
            final(self)@.well_formed(),
            final(kb).modifier_spec() == old(kb).modifier_spec(),
            match old(self)@.event(raw) {
                Some(e) => {
                    &&& final(kb)@ == crate::keyboard::applied(old(kb)@, e)
                    &&& report matches Some(wire)
                    &&& wire@ == final(kb).wire()
                },
                None => final(kb)@ == old(kb)@ && report is None,
            },
    {
        match self.decide(raw) {
            Some(e) => Some(kb.apply(e)),
            None => None,
        }
    }
}

impl Default for Key {
    /// An up key for the letter A that no channel samples, with the default
    /// calibration and sensitivity.
    fn default() -> (key: Key)
        ensures
            key@ == KeyModel::initial(Keycode::KeyA, None),
            key@.well_formed(),
    {
        Key {
            model: KeyModel {
                keycode: Keycode::KeyA,
                bottom_level: DEFAULT_BOTTOM_LEVEL,
                top_level: DEFAULT_TOP_LEVEL,
                trigger_stroke: DEFAULT_STROKE,
                release_stroke: DEFAULT_STROKE,
                dead_zone: DEFAULT_DEAD_ZONE,
                channel: None,
                state: State::Release,
                last_max_stroke: 0,
                last_min_stroke: FULL_TRAVEL,
            },
        }
    }
}

} // verus!
