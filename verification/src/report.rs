use vstd::prelude::*;

verus! {

use crate::descriptor::{KeyboardReport, MouseReport};
use crate::keys::{
    chosen_layer, cycle_codes, fold_layer, keys_fired, keys_step, lemma_cycle_codes_wf,
    lemma_fold_layer_wf, Callback, Keys, Layer, ScanCode, NUM_LAYERS,
};
use crate::time::{elapsed_ms, spec_elapsed};

/// Minimum interval between two relative mouse reports, in milliseconds:
/// rate-limits motion flooding while motion keys are held.
pub const MOUSE_MIN_INTERVAL_MS: u64 = 20;

/// Writes `bit` (0 or 1) into bit `pos` of `num`.
pub fn set_bit(num: &mut u8, bit: u8, pos: u8)
    requires
        pos < 8,
    ensures
        *final(num) == (if bit == 1 {
            *old(num) | (1u8 << pos)
        } else {
            *old(num) & !(1u8 << pos)
        }),
{
    let mask = 1u8 << pos;
    if bit == 1 {
        *num = *num | mask;
    } else {
        *num = *num & !mask;
    }
}

/// The modifier byte accumulated over the first `n` codes: one bit per
/// modifier code, at the code's offset from the modifier base.
pub open spec fn fold_modifier(codes: Seq<ScanCode>, n: int) -> u8
    decreases n,
{
    if n <= 0 {
        0
    } else {
        let m = fold_modifier(codes, n - 1);
        match codes[n - 1] {
            ScanCode::Modifier(c) => m | (1u8 << (c % 8)),
            _ => m,
        }
    }
}

/// The mouse button byte accumulated over the first `n` codes.
pub open spec fn fold_buttons(codes: Seq<ScanCode>, n: int) -> u8
    decreases n,
{
    if n <= 0 {
        0
    } else {
        let m = fold_buttons(codes, n - 1);
        match codes[n - 1] {
            ScanCode::MouseButton(c) => m | (1u8 << (c % 8)),
            _ => m,
        }
    }
}

/// The letter bytes of the first `n` codes, in order, capped at the six
/// slots of a boot report: letters beyond the cap are dropped.
pub open spec fn fold_letters(codes: Seq<ScanCode>, n: int) -> Seq<u8>
    decreases n,
{
    if n <= 0 {
        seq![]
    } else {
        let s = fold_letters(codes, n - 1);
        match codes[n - 1] {
            ScanCode::Letter(c) => if s.len() < 6 {
                s.push(c)
            } else {
                s
            },
            _ => s,
        }
    }
}

/// The value of key slot `j` given the collected letters: a letter if one
/// reached this slot, the null code otherwise.
pub open spec fn letter_slot(letters: Seq<u8>, j: int) -> u8 {
    if 0 <= j < letters.len() {
        letters[j]
    } else {
        0
    }
}

/// A signed byte clamped to its range.
pub open spec fn sat_i8(x: int) -> i8 {
    if x > 127 {
        127i8
    } else if x < -128 {
        (-128)as i8
    } else {
        x as i8
    }
}

/// The horizontal mouse delta accumulated over the first `n` codes: ten
/// units per unit of each horizontal motion code, saturating at the byte
/// range.
pub open spec fn fold_mouse_x(codes: Seq<ScanCode>, n: int) -> i8
    decreases n,
{
    if n <= 0 {
        0
    } else {
        let v = fold_mouse_x(codes, n - 1);
        match codes[n - 1] {
            ScanCode::MouseX(d) => sat_i8(v + 10 * d),
            _ => v,
        }
    }
}

/// The vertical mouse delta accumulated over the first `n` codes.
pub open spec fn fold_mouse_y(codes: Seq<ScanCode>, n: int) -> i8
    decreases n,
{
    if n <= 0 {
        0
    } else {
        let v = fold_mouse_y(codes, n - 1);
        match codes[n - 1] {
            ScanCode::MouseY(d) => sat_i8(v + 10 * d),
            _ => v,
        }
    }
}

/// The scroll delta accumulated over the first `n` codes, one unit per
/// scroll code, saturating at the byte range.
pub open spec fn fold_wheel(codes: Seq<ScanCode>, n: int) -> i8
    decreases n,
{
    if n <= 0 {
        0
    } else {
        let v = fold_wheel(codes, n - 1);
        match codes[n - 1] {
            ScanCode::Scroll(d) => sat_i8(v + d),
            _ => v,
        }
    }
}

/// The modifier byte of the cycle's keyboard report.
pub open spec fn new_modifier(codes: Seq<ScanCode>) -> u8 {
    fold_modifier(codes, codes.len() as int)
}

/// The six key-slot bytes of the cycle's keyboard report.
pub open spec fn new_keycodes(codes: Seq<ScanCode>) -> Seq<u8> {
    Seq::new(6, |j: int| letter_slot(fold_letters(codes, codes.len() as int), j))
}

/// Whether the cycle's keyboard report differs from the one last sent.
pub open spec fn kb_changed(prev: KeyboardReport, codes: Seq<ScanCode>) -> bool {
    prev.modifier != new_modifier(codes) || prev.keycodes@ != new_keycodes(codes)
}

/// The cycle's mouse report.
pub open spec fn new_mouse(codes: Seq<ScanCode>) -> MouseReport {
    MouseReport {
        buttons: fold_buttons(codes, codes.len() as int),
        x: fold_mouse_x(codes, codes.len() as int),
        y: fold_mouse_y(codes, codes.len() as int),
        wheel: fold_wheel(codes, codes.len() as int),
        pan: 0,
    }
}

/// Whether the cycle's mouse report carries anything worth sending: a
/// button change or any nonzero motion.
pub open spec fn mouse_active(prev: MouseReport, codes: Seq<ScanCode>) -> bool {
    prev.buttons != new_mouse(codes).buttons || new_mouse(codes).x != 0 || new_mouse(codes).y != 0
        || new_mouse(codes).wheel != 0
}

/// The layer state after a cycle that adopted `ch`: the pair of the new
/// active layer and the new fallback layer. With no layer result the active
/// layer falls back; a toggle result moves the fallback too.
pub open spec fn spec_layer_transition(reset: usize, ch: Option<Layer>) -> (usize, usize) {
    match ch {
        Some(l) => (l.pos, if l.toggle {
            l.pos
        } else {
            reset
        }),
        None => (reset, reset),
    }
}

/// Whether the six key slots of two reports are equal.
fn eq_keycodes(a: &[u8; 6], b: &[u8; 6]) -> (r: bool)
    ensures
        r <==> a@ == b@,
{
    let r = a[0] == b[0] && a[1] == b[1] && a[2] == b[2] && a[3] == b[3] && a[4] == b[4] && a[5]
        == b[5];
    proof {
        if r {
            assert(a@ =~= b@);
        }
    }
    r
}

/// The report generator: keeps the last keyboard and mouse reports sent, the
/// active and fallback layers, and the last link-layer snapshot.
pub struct Report {
    pub key_report: KeyboardReport,
    pub mouse_report: MouseReport,
    pub last_report_time: u64,
    pub current_layer: usize,
    pub reset_layer: usize,
    pub key_states: u32,
}

impl Report {
    /// The active and fallback layers both exist.
    pub open spec fn wf(&self) -> bool {
        self.current_layer < NUM_LAYERS && self.reset_layer < NUM_LAYERS
    }

    /// A fresh generator on layer 0 with empty last reports; the mouse rate
    /// limit is counted from `now`.
    pub fn new(now: u64) -> (r: Report)
        ensures
            r.wf(),
            r.key_report.modifier == 0,
            r.key_report.reserved == 0,
            r.key_report.leds == 0,
            r.key_report.keycodes@ == Seq::new(6, |j: int| 0u8),
            r.mouse_report == (MouseReport { buttons: 0, x: 0, y: 0, wheel: 0, pan: 0 }),
            r.last_report_time == now,
            r.current_layer == 0,
            r.reset_layer == 0,
            r.key_states == 0,
    {
        Report {
            key_report: KeyboardReport::default(),
            mouse_report: MouseReport::default(),
            last_report_time: now,
            current_layer: 0,
            reset_layer: 0,
            key_states: 0,
        }
    }

    /// [`Report::new`] against the system clock.
    pub fn default() -> (r: Report)
        ensures
            r.wf(),
            r.key_report.modifier == 0,
            r.key_report.reserved == 0,
            r.key_report.leds == 0,
            r.key_report.keycodes@ == Seq::new(6, |j: int| 0u8),
            r.mouse_report == (MouseReport { buttons: 0, x: 0, y: 0, wheel: 0, pan: 0 }),
            r.current_layer == 0,
            r.reset_layer == 0,
            r.key_states == 0,
    {
        let now = crate::time::now_millis();
        Report::new(now)
    }
}


impl Report {
    /// Runs one full resolve-and-report cycle at time `now`: resolves the
    /// table under the active layer, folds the resolved codes into keyboard
    /// and mouse reports, applies the layer transition, and returns the
    /// keyboard report only if it differs from the one last sent, the mouse
    /// report only if it carries something and the rate limit has passed,
    /// and the callback identifier a pressed `Config` or `Function` key
    /// resolved to, which supersedes key output for the cycle.
    #[verifier::rlimit(100)]
    pub fn generate_report_at(&mut self, keys: &mut Keys, now: u64) -> (r: (
        Option<KeyboardReport>,
        Option<MouseReport>,
        Option<Callback>,
    ))
        requires
            old(self).wf(),
            old(keys).wf(),
        ensures
            final(self).wf(),
            final(keys).wf(),
            final(keys)@.keys == keys_step(old(keys)@.keys, old(self).current_layer, now),
            final(keys)@.state == old(keys)@.state,
            r.2 == keys_fired(old(keys)@.keys, old(self).current_layer),
            ({
                let codes = cycle_codes(old(keys)@.keys, old(self).current_layer, now);
                let ch = chosen_layer(codes);
                let send_kb = kb_changed(old(self).key_report, codes);
                let send_mouse = mouse_active(old(self).mouse_report, codes) && spec_elapsed(
                    old(self).last_report_time,
                    now,
                ) >= MOUSE_MIN_INTERVAL_MS;
                &&& (final(self).current_layer, final(self).reset_layer) == spec_layer_transition(
                    old(self).reset_layer,
                    ch,
                )
                &&& final(self).key_states == old(self).key_states
                &&& (if send_kb {
                    &&& final(self).key_report.modifier == new_modifier(codes)
                    &&& final(self).key_report.keycodes@ == new_keycodes(codes)
                    &&& final(self).key_report.reserved == 0
                    &&& final(self).key_report.leds == 0
                    &&& r.0 == Some(final(self).key_report)
                } else {
                    &&& final(self).key_report == old(self).key_report
                    &&& r.0 is None
                })
                &&& (if send_mouse {
                    &&& final(self).mouse_report == new_mouse(codes)
                    &&& final(self).last_report_time == now
                    &&& r.1 == Some(new_mouse(codes))
                } else {
                    &&& final(self).mouse_report == old(self).mouse_report
                    &&& final(self).last_report_time == old(self).last_report_time
                    &&& r.1 is None
                })
            }),
    {
        let ghost ks0 = keys@.keys;
        let ghost d0 = self.current_layer;
        let mut pressed_keys: Vec<ScanCode> = Vec::new();
        let cb = keys.get_keys_at(self.current_layer, &mut pressed_keys, now);
        let ghost pk = pressed_keys@;
        proof {
            assert(pk =~= cycle_codes(ks0, d0, now));
        }
        let mut new_key_report = KeyboardReport::default();
        let mut new_mouse_report = MouseReport::default();
        let mut new_layer: Option<Layer> = None;
        let mut index: usize = 0;
        let m = pressed_keys.len();
        let mut k: usize = 0;
        proof {
            assert(new_key_report.keycodes@ =~= Seq::new(
                6,
                |j: int| letter_slot(fold_letters(pk, 0), j),
            ));
        }
        while k < m
            invariant
                k <= m,
                m == pk.len(),
                pressed_keys@ == pk,
                index == fold_letters(pk, k as int).len(),
                index <= 6,
                new_key_report.modifier == fold_modifier(pk, k as int),
                new_key_report.reserved == 0,
                new_key_report.leds == 0,
                new_key_report.keycodes@ == Seq::new(
                    6,
                    |j: int| letter_slot(fold_letters(pk, k as int), j),
                ),
                new_mouse_report.buttons == fold_buttons(pk, k as int),
                new_mouse_report.x == fold_mouse_x(pk, k as int),
                new_mouse_report.y == fold_mouse_y(pk, k as int),
                new_mouse_report.wheel == fold_wheel(pk, k as int),
                new_mouse_report.pan == 0,
                new_layer == fold_layer(pk, k as int),
            decreases m - k,
        {
            let code = pressed_keys[k];
            match code {
                ScanCode::Modifier(c) => {
                    set_bit(&mut new_key_report.modifier, 1, c % 8);
                },
                ScanCode::Letter(c) => {
                    if index < 6 {
                        new_key_report.keycodes[index] = c;
                        index = index + 1;
                    }
                    proof {
                        assert(new_key_report.keycodes@ =~= Seq::new(
                            6,
                            |j: int| letter_slot(fold_letters(pk, k as int + 1), j),
                        ));
                    }
                },
                ScanCode::MouseButton(c) => {
                    set_bit(&mut new_mouse_report.buttons, 1, c % 8);
                },
                ScanCode::MouseX(d) => {
                    let t: i16 = new_mouse_report.x as i16 + (d as i16) * 10;
                    new_mouse_report.x = if t > 127 {
                        127
                    } else if t < -128 {
                        -128
                    } else {
                        t as i8
                    };
                },
                ScanCode::MouseY(d) => {
                    let t: i16 = new_mouse_report.y as i16 + (d as i16) * 10;
                    new_mouse_report.y = if t > 127 {
                        127
                    } else if t < -128 {
                        -128
                    } else {
                        t as i8
                    };
                },
                ScanCode::Scroll(d) => {
                    let t: i16 = new_mouse_report.wheel as i16 + d as i16;
                    new_mouse_report.wheel = if t > 127 {
                        127
                    } else if t < -128 {
                        -128
                    } else {
                        t as i8
                    };
                },
                ScanCode::Layer(l) => {
                    match new_layer {
                        Some(_) => {
                            if l.toggle {
                                new_layer = Some(l);
                            }
                        },
                        None => {
                            new_layer = Some(l);
                        },
                    }
                },
                ScanCode::Empty => {},
            }
            k = k + 1;
        }
        proof {
            lemma_cycle_codes_wf(ks0, d0, now);
            lemma_fold_layer_wf(pk, pk.len() as int);
        }
        match new_layer {
            Some(layer) => {
                if layer.toggle {
                    self.reset_layer = layer.pos;
                }
                self.current_layer = layer.pos;
            },
            None => {
                self.current_layer = self.reset_layer;
            },
        }
        let mut key_report: Option<KeyboardReport> = None;
        let mut mouse_report: Option<MouseReport> = None;
        if !eq_keycodes(&self.key_report.keycodes, &new_key_report.keycodes)
            || self.key_report.modifier != new_key_report.modifier {
            self.key_report = new_key_report;
            key_report = Some(new_key_report);
        }
        if (self.mouse_report.buttons != new_mouse_report.buttons || new_mouse_report.x != 0
            || new_mouse_report.y != 0 || new_mouse_report.wheel != 0) && elapsed_ms(
            self.last_report_time,
            now,
        ) >= MOUSE_MIN_INTERVAL_MS {
            self.last_report_time = now;
            self.mouse_report = new_mouse_report;
            mouse_report = Some(new_mouse_report);
        }
        (key_report, mouse_report, cb)
    }
}


impl Report {
    /// Runs one resolve cycle at time `now` for the peripheral role: applies
    /// the layer transition exactly as [`Report::generate_report_at`] does,
    /// but instead of HID reports compares the table's compact bitmask with
    /// the last snapshot sent, records it, and says whether it changed.
    pub fn generate_state_at(&mut self, keys: &mut Keys, now: u64) -> (changed: bool)
        requires
            old(self).wf(),
            old(keys).wf(),
        ensures
            final(self).wf(),
            final(keys).wf(),
            final(keys)@.keys == keys_step(old(keys)@.keys, old(self).current_layer, now),
            final(keys)@.state == old(keys)@.state,
            ({
                let codes = cycle_codes(old(keys)@.keys, old(self).current_layer, now);
                let ch = chosen_layer(codes);
                &&& (final(self).current_layer, final(self).reset_layer) == spec_layer_transition(
                    old(self).reset_layer,
                    ch,
                )
                &&& changed == (old(self).key_states != old(keys)@.state)
                &&& final(self).key_states == old(keys)@.state
                &&& final(self).key_report == old(self).key_report
                &&& final(self).mouse_report == old(self).mouse_report
                &&& final(self).last_report_time == old(self).last_report_time
            }),
    {
        let ghost ks0 = keys@.keys;
        let ghost d0 = self.current_layer;
        let mut pressed_keys: Vec<ScanCode> = Vec::new();
        let _cb = keys.get_keys_at(self.current_layer, &mut pressed_keys, now);
        let ghost pk = pressed_keys@;
        proof {
            assert(pk =~= cycle_codes(ks0, d0, now));
        }
        let mut new_layer: Option<Layer> = None;
        let m = pressed_keys.len();
        let mut k: usize = 0;
        while k < m
            invariant
                k <= m,
                m == pk.len(),
                pressed_keys@ == pk,
                new_layer == fold_layer(pk, k as int),
            decreases m - k,
        {
            let code = pressed_keys[k];
            match code {
                ScanCode::Layer(l) => {
                    match new_layer {
                        Some(_) => {
                            if l.toggle {
                                new_layer = Some(l);
                            }
                        },
                        None => {
                            new_layer = Some(l);
                        },
                    }
                },
                _ => {},
            }
            k = k + 1;
        }
        proof {
            lemma_cycle_codes_wf(ks0, d0, now);
            lemma_fold_layer_wf(pk, pk.len() as int);
        }
        match new_layer {
            Some(layer) => {
                if layer.toggle {
                    self.reset_layer = layer.pos;
                }
                self.current_layer = layer.pos;
            },
            None => {
                self.current_layer = self.reset_layer;
            },
        }
        if self.key_states != keys.get_states() {
            self.key_states = keys.get_states();
            true
        } else {
            false
        }
    }

    /// [`Report::generate_report_at`] against the system clock: one cycle at
    /// the moment of the call. The clock reading is not observable, so the
    /// contract holds for some reading; callers that need exact timing pass
    /// their own timestamp to [`Report::generate_report_at`].
    pub fn generate_report(&mut self, keys: &mut Keys) -> (r: (
        Option<KeyboardReport>,
        Option<MouseReport>,
        Option<Callback>,
    ))
        requires
            old(self).wf(),
            old(keys).wf(),
        ensures
            final(self).wf(),
            final(keys).wf(),
            final(keys)@.state == old(keys)@.state,
            r.2 == keys_fired(old(keys)@.keys, old(self).current_layer),
            final(self).key_states == old(self).key_states,
            exists|now: u64|
                {
                    let codes = cycle_codes(old(keys)@.keys, old(self).current_layer, now);
                    let ch = chosen_layer(codes);
                    &&& final(keys)@.keys == #[trigger] keys_step(
                        old(keys)@.keys,
                        old(self).current_layer,
                        now,
                    )
                    &&& (final(self).current_layer, final(self).reset_layer)
                        == spec_layer_transition(old(self).reset_layer, ch)
                    &&& (r.0 is Some <==> kb_changed(old(self).key_report, codes))
                    &&& (r.0 matches Some(kb) ==> kb == final(self).key_report
                        && kb.modifier == new_modifier(codes) && kb.keycodes@ == new_keycodes(
                        codes,
                    ))
                    &&& (r.1 matches Some(m) ==> m == new_mouse(codes) && m
                        == final(self).mouse_report && mouse_active(old(self).mouse_report, codes))
                    &&& (r.1 is None ==> final(self).mouse_report == old(self).mouse_report)
                },
    {
        let now = crate::time::now_millis();
        let r = self.generate_report_at(keys, now);
        proof {
            assert(keys@.keys == keys_step(old(keys)@.keys, old(self).current_layer, now));
        }
        r
    }

    /// [`Report::generate_state_at`] against the system clock.
    pub fn generate_state(&mut self, keys: &mut Keys) -> (changed: bool)
        requires
            old(self).wf(),
            old(keys).wf(),
        ensures
            final(self).wf(),
            final(keys).wf(),
            final(keys)@.state == old(keys)@.state,
            changed == (old(self).key_states != old(keys)@.state),
            final(self).key_states == old(keys)@.state,
            final(self).key_report == old(self).key_report,
            final(self).mouse_report == old(self).mouse_report,
            final(self).last_report_time == old(self).last_report_time,
            exists|now: u64|
                {
                    let codes = cycle_codes(old(keys)@.keys, old(self).current_layer, now);
                    &&& final(keys)@.keys == #[trigger] keys_step(
                        old(keys)@.keys,
                        old(self).current_layer,
                        now,
                    )
                    &&& (final(self).current_layer, final(self).reset_layer)
                        == spec_layer_transition(old(self).reset_layer, chosen_layer(codes))
                },
    {
        let now = crate::time::now_millis();
        let changed = self.generate_state_at(keys, now);
        proof {
            assert(keys@.keys == keys_step(old(keys)@.keys, old(self).current_layer, now));
        }
        changed
    }
}


/// Report diffing: a cycle that just sent a keyboard report leaves the
/// generator holding exactly the bytes it sent, so a following cycle that
/// resolves codes with the same modifier and key slots sends nothing, and a
/// following cycle whose modifier or any key-slot byte differs sends again.
pub proof fn lemma_report_diffing(sent: KeyboardReport, codes: Seq<ScanCode>, codes2: Seq<ScanCode>)
    requires
        sent.modifier == new_modifier(codes),
        sent.keycodes@ == new_keycodes(codes),
    ensures
        (new_modifier(codes2) == new_modifier(codes) && new_keycodes(codes2) == new_keycodes(codes))
            <==> !kb_changed(sent, codes2),
{
}

/// Mouse rate limiting: a cycle that sends a mouse report at `t1` stamps
/// `t1`; a cycle running before `t1 + MOUSE_MIN_INTERVAL_MS` fails the send
/// condition whatever it resolves, and a cycle at or past that moment with a
/// button change or nonzero motion meets it again.
pub proof fn lemma_mouse_rate_limit(
    t1: u64,
    t2: u64,
    t3: u64,
    prev: MouseReport,
    codes2: Seq<ScanCode>,
    codes3: Seq<ScanCode>,
)
    requires
        t1 <= t2 < t1 + MOUSE_MIN_INTERVAL_MS,
        t3 >= t1 + MOUSE_MIN_INTERVAL_MS,
    ensures
        !(mouse_active(prev, codes2) && spec_elapsed(t1, t2) >= MOUSE_MIN_INTERVAL_MS),
        mouse_active(prev, codes3) ==> (mouse_active(prev, codes3) && spec_elapsed(t1, t3)
            >= MOUSE_MIN_INTERVAL_MS),
{
}

} // verus!
