use vstd::prelude::*;

verus! {

use crate::time::{spec_elapsed, elapsed_ms};

/// Number of keymap layers each key carries.
pub const NUM_LAYERS: usize = 10;

/// Keys below this index belong to the locally scanned half and are mirrored
/// into the compact `state` bitmask that the link layer ships to the peer.
pub const CENTRAL_NUM_KEYS: usize = 18;

/// Largest auto-repeat base period accepted by `set_interval`, in
/// milliseconds; the bound keeps the microsecond conversion inside `u64`.
pub const MAX_INTERVAL_MS: u64 = u64::MAX / 1000;

/// The pressed state of one physical position, updated once per scan cycle.
#[derive(Copy, Clone, Debug)]
pub struct Position {
    pub state: bool,
}

impl Position {
    /// A released position.
    pub fn default() -> (p: Position)
        ensures
            !p.state,
    {
        Position { state: false }
    }

    /// Returns the pressed status of the position.
    pub fn is_pressed(&self) -> (r: bool)
        ensures
            r == self.state,
    {
        self.state
    }

    /// Records the reading taken for this position this cycle.
    pub fn update_buf(&mut self, buf: bool)
        ensures
            final(self).state == buf,
    {
        self.state = buf;
    }
}

/// A layer scan code. `pos` is the layer the code switches to; `toggle` says
/// whether the switch outlives the key's release (a sticky layer) or holds
/// only while the key is down (a momentary layer).
#[derive(Copy, Clone, PartialEq, Eq, Structural, Debug, Hash)]
pub struct Layer {
    pub pos: usize,
    pub toggle: bool,
}

/// An abstract resolved key action, decoupled from physical position.
#[derive(Copy, Clone, PartialEq, Eq, Structural, Debug, Hash)]
pub enum ScanCode {
    Letter(u8),
    Modifier(u8),
    MouseButton(u8),
    MouseX(i8),
    MouseY(i8),
    Layer(Layer),
    Scroll(i8),
    /// No action this cycle (an auto-repeat key between emissions).
    Empty,
}

/// A layer scan code is well formed when it switches to an existing layer.
pub open spec fn code_wf(c: ScanCode) -> bool {
    c matches ScanCode::Layer(l) ==> l.pos < NUM_LAYERS
}

/// Acceleration curve of an auto-repeat key, selected by name so that the
/// repeat interpreter stays a plain value.
///
/// A curve maps the milliseconds a key has been held to a repeat-rate factor
/// in thousandths: 1000 leaves the base period unchanged, 2000 halves it.
#[derive(Copy, Clone, PartialEq, Eq, Structural, Debug)]
pub enum AccelCurve {
    /// A constant factor of 1000: the base period is used unchanged.
    Steady,
    /// `10000 * x^2 / (x^2 + 50000) + 1000`, with `x` clamped at 25000 ms,
    /// past which the integer value of the quotient no longer changes: the
    /// factor grows from 1000 toward 10999 the longer the key is held.
    Progressive,
}

impl AccelCurve {
    /// Repeat-rate factor, in thousandths, after the key has been held for
    /// `x` milliseconds.
    pub open spec fn spec_rate(self, x: u64) -> int {
        match self {
            AccelCurve::Steady => 1000,
            AccelCurve::Progressive => {
                let c = if x > 25000 { 25000 as int } else { x as int };
                let c2 = c * c;
                10000 * c2 / (c2 + 50000) + 1000
            },
        }
    }

    /// Runtime evaluation of [`AccelCurve::spec_rate`].
    pub fn rate(&self, x: u64) -> (r: u64)
        ensures
            r == self.spec_rate(x),
            1000 <= r <= 11000,
    {
        match self {
            AccelCurve::Steady => 1000,
            AccelCurve::Progressive => {
                let c: u64 = if x > 25000 {
                    25000
                } else {
                    x
                };
                assert(c * c <= 625000000) by (nonlinear_arith)
                    requires
                        c <= 25000,
                ;
                let c2 = c * c;
                assert(10000 * c2 / (c2 + 50000) <= 10000) by (nonlinear_arith);
                10000 * c2 / (c2 + 50000) + 1000
            },
        }
    }
}

/// The repeat-rate factor never sinks below 1000, so a repeat period is never
/// longer than the base period and never divides by zero.
pub proof fn lemma_rate_at_least_base(curve: AccelCurve, x: u64)
    ensures
        1000 <= curve.spec_rate(x) <= 11000,
{
    match curve {
        AccelCurve::Steady => {},
        AccelCurve::Progressive => {
            let c = if x > 25000 { 25000 as int } else { x as int };
            let c2 = c * c;
            assert(c2 >= 0 && 0 <= 10000 * c2 / (c2 + 50000) <= 10000) by (nonlinear_arith)
                requires
                    0 <= c <= 25000 && c2 == c * c,
            ;
        },
    }
}

/// Emits its scan code in intervals; the interval shrinks as the key is held,
/// governed by the acceleration curve.
#[derive(Copy, Clone, Debug)]
pub struct IntervalPresses {
    /// The scan code emitted on each repeat.
    pub code: ScanCode,
    /// When the current hold began; `None` while the key is up.
    pub starting_time: Option<u64>,
    /// When the last emission happened.
    pub last_pressed_time: u64,
    /// The base period between emissions, in milliseconds.
    pub org_delay: u64,
    /// The period currently in force, in milliseconds.
    pub current_delay: u64,
    /// The acceleration curve that shortens the period over the hold.
    pub acc_eq: AccelCurve,
}

/// The repeat period that follows an emission `x` milliseconds into a hold:
/// the base period in microseconds divided by the rate factor, read as
/// milliseconds.
pub open spec fn spec_period(delay_ms: u64, rate: int) -> u64
    recommends
        1 <= rate,
        delay_ms <= MAX_INTERVAL_MS,
{
    (delay_ms * 1000 / rate) as u64
}

impl IntervalPresses {
    /// The base period small enough that its microsecond count stays in `u64`.
    pub open spec fn wf(self) -> bool {
        self.org_delay <= MAX_INTERVAL_MS
    }

    /// A fresh emitter for `val` with base period `delay` ms; the hold timer
    /// starts on the first pressed observation.
    pub fn new(val: ScanCode, delay: u64, acc_eq: AccelCurve) -> (p: IntervalPresses)
        requires
            delay <= MAX_INTERVAL_MS,
        ensures
            p == (IntervalPresses {
                code: val,
                starting_time: None,
                last_pressed_time: 0,
                org_delay: delay,
                current_delay: 0,
                acc_eq,
            }),
    {
        IntervalPresses {
            code: val,
            starting_time: None,
            last_pressed_time: 0,
            org_delay: delay,
            current_delay: 0,
            acc_eq,
        }
    }

    /// State and emission after one pressed observation at time `now`:
    /// the first observation of a hold emits at once and arms the base
    /// period; later observations emit only when the period in force has
    /// passed since the last emission, and then tighten the period along
    /// the acceleration curve.
    pub open spec fn spec_step(self, now: u64) -> (IntervalPresses, ScanCode)
        recommends
            self.wf(),
    {
        match self.starting_time {
            Some(t) => {
                if spec_elapsed(self.last_pressed_time, now) > self.current_delay {
                    let next = IntervalPresses {
                        last_pressed_time: now,
                        current_delay: spec_period(
                            self.org_delay,
                            self.acc_eq.spec_rate(spec_elapsed(t, now)),
                        ),
                        ..self
                    };
                    (next, self.code)
                } else {
                    (self, ScanCode::Empty)
                }
            },
            None => {
                let next = IntervalPresses {
                    starting_time: Some(now),
                    last_pressed_time: now,
                    current_delay: self.org_delay,
                    ..self
                };
                (next, self.code)
            },
        }
    }

    /// The state once the key is observed released: the hold timer is
    /// cleared so the next press restarts the curve from the base period.
    pub open spec fn spec_reset(self) -> IntervalPresses {
        IntervalPresses { starting_time: None, ..self }
    }

    /// Runtime evaluation of [`IntervalPresses::spec_step`].
    pub fn get_code(&mut self, now: u64) -> (c: ScanCode)
        requires
            old(self).wf(),
        ensures
            (*final(self), c) == old(self).spec_step(now),
            final(self).wf(),
    {
        match self.starting_time {
            Some(time) => {
                if elapsed_ms(self.last_pressed_time, now) > self.current_delay {
                    self.last_pressed_time = now;
                    let val = self.acc_eq.rate(elapsed_ms(time, now));
                    self.current_delay = self.org_delay * 1000 / val;
                    self.code
                } else {
                    ScanCode::Empty
                }
            },
            None => {
                self.starting_time = Some(now);
                self.last_pressed_time = now;
                self.current_delay = self.org_delay;
                self.code
            },
        }
    }
}


/// A callback identifier resolved for a pressed `Config` or `Function` key.
/// The caller that drives the scan loop maps the identifier to the action it
/// registered for it; a resolved callback supersedes all key output for the
/// cycle.
#[derive(Copy, Clone, PartialEq, Eq, Structural, Debug)]
pub enum Callback {
    /// A keymap-reconfiguration action.
    Config(u16),
    /// A free-form action.
    Function(u16),
}

/// What a key does when pressed, bound per (key index, layer) pair.
#[derive(Copy, Clone, Debug)]
pub enum ScanCodeBehavior {
    /// Assert one scan code.
    Single(ScanCode),
    /// Assert two scan codes at once.
    Double(ScanCode, ScanCode),
    /// Assert three scan codes at once.
    Triple(ScanCode, ScanCode, ScanCode),
    /// Assert `combined_code` while the key at `other_index` is also held,
    /// `normal_code` otherwise.
    CombinedKey { other_index: usize, normal_code: ScanCode, combined_code: ScanCode },
    /// Emit a scan code on an accelerating interval while held.
    IntervalPresses(IntervalPresses),
    /// Run the keymap-reconfiguration callback with this identifier.
    Config(u16),
    /// Run the free-form callback with this identifier.
    Function(u16),
}

/// A behavior is well formed for a table of `nkeys` keys when every layer
/// code it can emit names an existing layer, a combined key points at an
/// existing partner, and an interval emitter keeps its base period in range.
pub open spec fn behavior_wf(b: ScanCodeBehavior, nkeys: int) -> bool {
    match b {
        ScanCodeBehavior::Single(c) => code_wf(c),
        ScanCodeBehavior::Double(c0, c1) => code_wf(c0) && code_wf(c1),
        ScanCodeBehavior::Triple(c0, c1, c2) => code_wf(c0) && code_wf(c1) && code_wf(c2),
        ScanCodeBehavior::CombinedKey { other_index, normal_code, combined_code } => {
            other_index < nkeys && code_wf(normal_code) && code_wf(combined_code)
        },
        ScanCodeBehavior::IntervalPresses(p) => p.wf() && code_wf(p.code),
        ScanCodeBehavior::Config(_) => true,
        ScanCodeBehavior::Function(_) => true,
    }
}

/// The mathematical image of one [`Key`].
#[verifier::ext_equal]
pub struct KeyView {
    pub pressed: bool,
    pub behaviors: Seq<ScanCodeBehavior>,
    pub current_layer: Option<usize>,
}

/// One key record: its position, one behavior per layer, and the layer it was
/// pressed under, kept while it stays held so that resolution is pinned to
/// the layer active at press time.
#[derive(Debug)]
pub struct Key {
    pub pos: Position,
    pub codes: Vec<ScanCodeBehavior>,
    pub current_layer: Option<usize>,
}

impl View for Key {
    type V = KeyView;

    open spec fn view(&self) -> KeyView {
        KeyView {
            pressed: self.pos.state,
            behaviors: self.codes@,
            current_layer: self.current_layer,
        }
    }
}

/// A key is well formed when it has one behavior per layer, each well formed,
/// and any pinned layer exists.
pub open spec fn key_wf(kv: KeyView, nkeys: int) -> bool {
    &&& kv.behaviors.len() == NUM_LAYERS
    &&& forall|l: int|
        0 <= l < kv.behaviors.len() ==> behavior_wf(#[trigger] kv.behaviors[l], nkeys)
    &&& kv.current_layer matches Some(cl) ==> cl < NUM_LAYERS
}

/// The image of a fresh key: released, unpinned, bound to the null letter on
/// every layer.
pub open spec fn default_key_view() -> KeyView {
    KeyView {
        pressed: false,
        behaviors: Seq::new(NUM_LAYERS as nat, |l: int| ScanCodeBehavior::Single(ScanCode::Letter(0))),
        current_layer: None,
    }
}

impl Key {
    /// A released key bound to the null letter on every layer.
    pub fn default() -> (k: Key)
        ensures
            k@ == default_key_view(),
    {
        let mut codes: Vec<ScanCodeBehavior> = Vec::new();
        while codes.len() < NUM_LAYERS
            invariant
                codes@.len() <= NUM_LAYERS,
                forall|l: int|
                    0 <= l < codes@.len() ==> codes@[l] == ScanCodeBehavior::Single(
                        ScanCode::Letter(0),
                    ),
            decreases NUM_LAYERS - codes.len(),
        {
            codes.push(ScanCodeBehavior::Single(ScanCode::Letter(0)));
        }
        let k = Key { pos: Position { state: false }, codes, current_layer: None };
        proof {
            assert(k@.behaviors =~= default_key_view().behaviors);
            assert(k@ =~= default_key_view());
        }
        k
    }

    /// Returns the pressed status of the key.
    pub fn is_pressed(&self) -> (r: bool)
        ensures
            r == self@.pressed,
    {
        self.pos.is_pressed()
    }
}

/// The behavior that `set_code` stores for a key identifier: its scan code,
/// with the toggle flag written into a layer code.
pub open spec fn spec_single(code: crate::codes::KeyCodes, toggle: bool) -> ScanCodeBehavior {
    match crate::codes::spec_scan_code(code.byte()) {
        ScanCode::Layer(l) => ScanCodeBehavior::Single(ScanCode::Layer(Layer { pos: l.pos, toggle })),
        c => ScanCodeBehavior::Single(c),
    }
}

/// The key table: one record per physical position, plus a compact bitmask of
/// the locally scanned positions for link-layer snapshots.
#[derive(Debug)]
pub struct Keys {
    pub keys: Vec<Key>,
    pub state: u32,
}

/// The mathematical image of the whole table.
#[verifier::ext_equal]
pub struct KeysView {
    pub keys: Seq<KeyView>,
    pub state: u32,
}

impl View for Keys {
    type V = KeysView;

    open spec fn view(&self) -> KeysView {
        KeysView { keys: Seq::new(self.keys@.len(), |i: int| self.keys@[i]@), state: self.state }
    }
}

/// `ks` with the behavior of key `index` on `layer` replaced by `b`.
pub open spec fn with_behavior(
    ks: Seq<KeyView>,
    index: int,
    layer: int,
    b: ScanCodeBehavior,
) -> Seq<KeyView> {
    ks.update(index, KeyView { behaviors: ks[index].behaviors.update(layer, b), ..ks[index] })
}

/// The compact bitmask after position `index` reads `buf`: positions below
/// [`CENTRAL_NUM_KEYS`] own one bit each, the rest leave the mask alone.
pub open spec fn spec_update_state(s: u32, index: usize, buf: bool) -> u32 {
    if index < CENTRAL_NUM_KEYS {
        if buf {
            s | (1u32 << index)
        } else {
            s & !(1u32 << index)
        }
    } else {
        s
    }
}

/// The indices of the pressed keys among the first `n`, in index order.
pub open spec fn pressed_indices(ks: Seq<KeyView>, n: int) -> Seq<usize>
    decreases n,
{
    if n <= 0 {
        seq![]
    } else {
        pressed_indices(ks, n - 1) + if ks[n - 1].pressed {
            seq![(n - 1) as usize]
        } else {
            seq![]
        }
    }
}

impl Keys {
    /// Every key record is well formed for a table of this size.
    pub open spec fn wf(&self) -> bool {
        forall|i: int|
            0 <= i < self@.keys.len() ==> key_wf(
                #[trigger] self@.keys[i],
                self@.keys.len() as int,
            )
    }

    /// A table of `num_keys` released keys, each bound to the null letter on
    /// every layer, with an empty bitmask.
    pub fn new(num_keys: usize) -> (r: Keys)
        ensures
            r.wf(),
            r@.keys.len() == num_keys,
            r@.state == 0,
            forall|i: int| 0 <= i < num_keys ==> #[trigger] r@.keys[i] == default_key_view(),
    {
        let mut keys: Vec<Key> = Vec::new();
        while keys.len() < num_keys
            invariant
                keys@.len() <= num_keys,
                forall|i: int| 0 <= i < keys@.len() ==> (#[trigger] keys@[i])@ == default_key_view(),
            decreases num_keys - keys.len(),
        {
            keys.push(Key::default());
        }
        let r = Keys { keys, state: 0 };
        r
    }

    /// Returns the pressed status of the indexed key.
    pub fn get_pressed(&self, index: usize) -> (r: bool)
        requires
            index < self@.keys.len(),
        ensures
            r == self@.keys[index as int].pressed,
    {
        self.keys[index].pos.is_pressed()
    }

    /// The compact bitmask of the locally scanned positions.
    pub fn get_states(&self) -> (r: u32)
        ensures
            r == self@.state,
    {
        self.state
    }
}


impl Key {
    /// Binds the scan code of `code` as a single-key behavior on `layer`,
    /// writing `toggle` into a layer code.
    fn set_code(&mut self, code: crate::codes::KeyCodes, toggle: bool, layer: usize)
        requires
            layer < old(self)@.behaviors.len(),
        ensures
            final(self)@ == (KeyView {
                behaviors: old(self)@.behaviors.update(layer as int, spec_single(code, toggle)),
                ..old(self)@
            }),
    {
        let sc = code.get_scan_code();
        let b = match sc {
            ScanCode::Layer(l) => ScanCodeBehavior::Single(
                ScanCode::Layer(Layer { pos: l.pos, toggle }),
            ),
            rest => ScanCodeBehavior::Single(rest),
        };
        self.codes[layer] = b;
    }

    /// Records the reading taken for this key's position this cycle.
    fn update_buf(&mut self, buf: bool)
        ensures
            final(self)@ == (KeyView { pressed: buf, ..old(self)@ }),
    {
        self.pos.update_buf(buf);
    }
}

/// Replacing one well-formed behavior keeps every key of the table well
/// formed.
proof fn lemma_with_behavior_wf(ks: Seq<KeyView>, index: int, layer: int, b: ScanCodeBehavior)
    requires
        0 <= index < ks.len(),
        0 <= layer < NUM_LAYERS,
        forall|i: int| 0 <= i < ks.len() ==> key_wf(#[trigger] ks[i], ks.len() as int),
        behavior_wf(b, ks.len() as int),
    ensures
        forall|i: int|
            0 <= i < ks.len() ==> key_wf(
                #[trigger] with_behavior(ks, index, layer, b)[i],
                ks.len() as int,
            ),
{
    let ks2 = with_behavior(ks, index, layer, b);
    assert forall|i: int| 0 <= i < ks.len() implies key_wf(ks2[i], ks.len() as int) by {
        assert(key_wf(ks[i], ks.len() as int));
        if i == index {
            assert forall|l: int|
                0 <= l < ks2[i].behaviors.len() implies behavior_wf(
                #[trigger] ks2[i].behaviors[l],
                ks.len() as int,
            ) by {
                if l != layer {
                    assert(ks2[i].behaviors[l] == ks[i].behaviors[l]);
                }
            }
        }
    }
}

impl Keys {
    /// Binds a single-key behavior for `code` on the given layer of the
    /// indexed key; a layer code is stored as a momentary layer switch.
    pub fn set_code(&mut self, code: crate::codes::KeyCodes, index: usize, layer: usize)
        requires
            old(self).wf(),
            index < old(self)@.keys.len(),
            layer < NUM_LAYERS,
            code_wf(crate::codes::spec_scan_code(code.byte())),
        ensures
            final(self).wf(),
            final(self)@.keys == with_behavior(
                old(self)@.keys,
                index as int,
                layer as int,
                spec_single(code, false),
            ),
            final(self)@.state == old(self)@.state,
    {
        proof {
            assert(key_wf(self@.keys[index as int], self@.keys.len() as int));
        }
        self.keys[index].set_code(code, false, layer);
        proof {
            self.lemma_bound_behavior_frame(*old(self), index, layer, spec_single(code, false));
        }
    }

    /// Binds a toggle layer switch for `layer_code` on the given layer of the
    /// indexed key. Only a key identifier that resolves to a layer code may
    /// be bound this way; anything else is a keymap-configuration error.
    pub fn set_toggle_layer(&mut self, layer_code: crate::codes::KeyCodes, index: usize, layer: usize)
        requires
            old(self).wf(),
            index < old(self)@.keys.len(),
            layer < NUM_LAYERS,
            crate::codes::spec_scan_code(layer_code.byte()) is Layer,
            code_wf(crate::codes::spec_scan_code(layer_code.byte())),
        ensures
            final(self).wf(),
            final(self)@.keys == with_behavior(
                old(self)@.keys,
                index as int,
                layer as int,
                spec_single(layer_code, true),
            ),
            final(self)@.state == old(self)@.state,
    {
        proof {
            assert(key_wf(self@.keys[index as int], self@.keys.len() as int));
        }
        self.keys[index].set_code(layer_code, true, layer);
        proof {
            self.lemma_bound_behavior_frame(*old(self), index, layer, spec_single(layer_code, true));
        }
    }

    /// Binds a double-key behavior: the indexed key asserts both scan codes
    /// at once while pressed.
    pub fn set_double(
        &mut self,
        code0: crate::codes::KeyCodes,
        code1: crate::codes::KeyCodes,
        index: usize,
        layer: usize,
    )
        requires
            old(self).wf(),
            index < old(self)@.keys.len(),
            layer < NUM_LAYERS,
            code_wf(crate::codes::spec_scan_code(code0.byte())),
            code_wf(crate::codes::spec_scan_code(code1.byte())),
        ensures
            final(self).wf(),
            final(self)@.keys == with_behavior(
                old(self)@.keys,
                index as int,
                layer as int,
                ScanCodeBehavior::Double(
                    crate::codes::spec_scan_code(code0.byte()),
                    crate::codes::spec_scan_code(code1.byte()),
                ),
            ),
            final(self)@.state == old(self)@.state,
    {
        let b = ScanCodeBehavior::Double(code0.get_scan_code(), code1.get_scan_code());
        proof {
            assert(key_wf(self@.keys[index as int], self@.keys.len() as int));
        }
        self.keys[index].codes[layer] = b;
        proof {
            self.lemma_bound_behavior_frame(*old(self), index, layer, b);
        }
    }

    /// Binds a triple-key behavior: the indexed key asserts all three scan
    /// codes at once while pressed.
    pub fn set_triple(
        &mut self,
        code0: crate::codes::KeyCodes,
        code1: crate::codes::KeyCodes,
        code2: crate::codes::KeyCodes,
        index: usize,
        layer: usize,
    )
        requires
            old(self).wf(),
            index < old(self)@.keys.len(),
            layer < NUM_LAYERS,
            code_wf(crate::codes::spec_scan_code(code0.byte())),
            code_wf(crate::codes::spec_scan_code(code1.byte())),
            code_wf(crate::codes::spec_scan_code(code2.byte())),
        ensures
            final(self).wf(),
            final(self)@.keys == with_behavior(
                old(self)@.keys,
                index as int,
                layer as int,
                ScanCodeBehavior::Triple(
                    crate::codes::spec_scan_code(code0.byte()),
                    crate::codes::spec_scan_code(code1.byte()),
                    crate::codes::spec_scan_code(code2.byte()),
                ),
            ),
            final(self)@.state == old(self)@.state,
    {
        let b = ScanCodeBehavior::Triple(
            code0.get_scan_code(),
            code1.get_scan_code(),
            code2.get_scan_code(),
        );
        proof {
            assert(key_wf(self@.keys[index as int], self@.keys.len() as int));
        }
        self.keys[index].codes[layer] = b;
        proof {
            self.lemma_bound_behavior_frame(*old(self), index, layer, b);
        }
    }

    /// Binds a combined-key behavior: while the indexed key is pressed it
    /// asserts `comb_code` if the key at `other_index` is also held, and
    /// `norm_code` otherwise.
    pub fn set_combined(
        &mut self,
        norm_code: crate::codes::KeyCodes,
        comb_code: crate::codes::KeyCodes,
        other_index: usize,
        index: usize,
        layer: usize,
    )
        requires
            old(self).wf(),
            index < old(self)@.keys.len(),
            other_index < old(self)@.keys.len(),
            layer < NUM_LAYERS,
            code_wf(crate::codes::spec_scan_code(norm_code.byte())),
            code_wf(crate::codes::spec_scan_code(comb_code.byte())),
        ensures
            final(self).wf(),
            final(self)@.keys == with_behavior(
                old(self)@.keys,
                index as int,
                layer as int,
                ScanCodeBehavior::CombinedKey {
                    other_index,
                    normal_code: crate::codes::spec_scan_code(norm_code.byte()),
                    combined_code: crate::codes::spec_scan_code(comb_code.byte()),
                },
            ),
            final(self)@.state == old(self)@.state,
    {
        let b = ScanCodeBehavior::CombinedKey {
            other_index,
            normal_code: norm_code.get_scan_code(),
            combined_code: comb_code.get_scan_code(),
        };
        proof {
            assert(key_wf(self@.keys[index as int], self@.keys.len() as int));
        }
        self.keys[index].codes[layer] = b;
        proof {
            self.lemma_bound_behavior_frame(*old(self), index, layer, b);
        }
    }

    /// Binds an interval behavior: the indexed key emits the scan code of
    /// `code` every `dur` milliseconds while held, accelerating along `f`.
    pub fn set_interval(
        &mut self,
        code: crate::codes::KeyCodes,
        dur: u64,
        f: AccelCurve,
        index: usize,
        layer: usize,
    )
        requires
            old(self).wf(),
            index < old(self)@.keys.len(),
            layer < NUM_LAYERS,
            dur <= MAX_INTERVAL_MS,
            code_wf(crate::codes::spec_scan_code(code.byte())),
        ensures
            final(self).wf(),
            final(self)@.keys == with_behavior(
                old(self)@.keys,
                index as int,
                layer as int,
                ScanCodeBehavior::IntervalPresses(IntervalPresses {
                    code: crate::codes::spec_scan_code(code.byte()),
                    starting_time: None,
                    last_pressed_time: 0,
                    org_delay: dur,
                    current_delay: 0,
                    acc_eq: f,
                }),
            ),
            final(self)@.state == old(self)@.state,
    {
        let b = ScanCodeBehavior::IntervalPresses(
            IntervalPresses::new(code.get_scan_code(), dur, f),
        );
        proof {
            assert(key_wf(self@.keys[index as int], self@.keys.len() as int));
        }
        self.keys[index].codes[layer] = b;
        proof {
            self.lemma_bound_behavior_frame(*old(self), index, layer, b);
        }
    }

    /// Binds a keymap-reconfiguration callback identifier: while pressed, the
    /// indexed key suppresses all key output and reports the identifier.
    pub fn set_config(&mut self, f: u16, index: usize, layer: usize)
        requires
            old(self).wf(),
            index < old(self)@.keys.len(),
            layer < NUM_LAYERS,
        ensures
            final(self).wf(),
            final(self)@.keys == with_behavior(
                old(self)@.keys,
                index as int,
                layer as int,
                ScanCodeBehavior::Config(f),
            ),
            final(self)@.state == old(self)@.state,
    {
        let b = ScanCodeBehavior::Config(f);
        proof {
            assert(key_wf(self@.keys[index as int], self@.keys.len() as int));
        }
        self.keys[index].codes[layer] = b;
        proof {
            self.lemma_bound_behavior_frame(*old(self), index, layer, b);
        }
    }

    /// Binds a free-form callback identifier: while pressed, the indexed key
    /// suppresses all key output and reports the identifier.
    pub fn set_function(&mut self, f: u16, index: usize, layer: usize)
        requires
            old(self).wf(),
            index < old(self)@.keys.len(),
            layer < NUM_LAYERS,
        ensures
            final(self).wf(),
            final(self)@.keys == with_behavior(
                old(self)@.keys,
                index as int,
                layer as int,
                ScanCodeBehavior::Function(f),
            ),
            final(self)@.state == old(self)@.state,
    {
        let b = ScanCodeBehavior::Function(f);
        proof {
            assert(key_wf(self@.keys[index as int], self@.keys.len() as int));
        }
        self.keys[index].codes[layer] = b;
        proof {
            self.lemma_bound_behavior_frame(*old(self), index, layer, b);
        }
    }

    /// After one key's behavior slot was rewritten to `b`, the table's view
    /// is `with_behavior` of the old view and the table stays well formed.
    proof fn lemma_bound_behavior_frame(
        &self,
        pre: Keys,
        index: usize,
        layer: usize,
        b: ScanCodeBehavior,
    )
        requires
            pre.wf(),
            index < pre@.keys.len(),
            layer < NUM_LAYERS,
            behavior_wf(b, pre@.keys.len() as int),
            self.keys@.len() == pre.keys@.len(),
            self.state == pre.state,
            forall|j: int|
                0 <= j < self.keys@.len() && j != index ==> self.keys@[j] == pre.keys@[j],
            self.keys@[index as int]@ == (KeyView {
                behaviors: pre.keys@[index as int]@.behaviors.update(layer as int, b),
                ..pre.keys@[index as int]@
            }),
        ensures
            self.wf(),
            self@.keys == with_behavior(pre@.keys, index as int, layer as int, b),
            self@.state == pre@.state,
    {
        assert(self@.keys =~= with_behavior(pre@.keys, index as int, layer as int, b));
        lemma_with_behavior_wf(pre@.keys, index as int, layer as int, b);
    }

    /// Records the reading taken for the indexed key this cycle and mirrors
    /// it into the compact bitmask when the key is locally scanned.
    pub fn update_buf(&mut self, index: usize, buf: bool)
        requires
            old(self).wf(),
            index < old(self)@.keys.len(),
        ensures
            final(self).wf(),
            final(self)@.keys == old(self)@.keys.update(
                index as int,
                KeyView { pressed: buf, ..old(self)@.keys[index as int] },
            ),
            final(self)@.state == spec_update_state(old(self)@.state, index, buf),
    {
        self.keys[index].update_buf(buf);
        if index < CENTRAL_NUM_KEYS {
            if buf {
                self.state = self.state | (1u32 << index);
            } else {
                self.state = self.state & !(1u32 << index);
            }
        }
        proof {
            let ks2 = old(self)@.keys.update(
                index as int,
                KeyView { pressed: buf, ..old(self)@.keys[index as int] },
            );
            assert(self@.keys =~= ks2);
            assert forall|i: int| 0 <= i < ks2.len() implies key_wf(
                #[trigger] ks2[i],
                ks2.len() as int,
            ) by {
                assert(key_wf(old(self)@.keys[i], ks2.len() as int));
            }
        }
    }

    /// Like [`Keys::update_buf`], but accepts any index and ignores those
    /// beyond the locally scanned range.
    pub fn update_buf_central(&mut self, index: usize, buf: bool)
        requires
            old(self).wf(),
            CENTRAL_NUM_KEYS <= old(self)@.keys.len(),
        ensures
            final(self).wf(),
            index < CENTRAL_NUM_KEYS ==> final(self)@.keys == old(self)@.keys.update(
                index as int,
                KeyView { pressed: buf, ..old(self)@.keys[index as int] },
            ) && final(self)@.state == spec_update_state(old(self)@.state, index, buf),
            index >= CENTRAL_NUM_KEYS ==> final(self)@ == old(self)@,
    {
        if index < CENTRAL_NUM_KEYS {
            self.update_buf(index, buf);
        }
    }

    /// Appends the indices of all pressed keys, in index order, to `vec`.
    pub fn is_pressed(&self, vec: &mut Vec<usize>)
        ensures
            final(vec)@ == old(vec)@ + pressed_indices(self@.keys, self@.keys.len() as int),
    {
        let n = self.keys.len();
        let mut i: usize = 0;
        while i < n
            invariant
                i <= n,
                n == self@.keys.len(),
                vec@ == old(vec)@ + pressed_indices(self@.keys, i as int),
            decreases n - i,
        {
            if self.keys[i].pos.is_pressed() {
                vec.push(i);
            }
            proof {
                assert(vec@ =~= old(vec)@ + pressed_indices(self@.keys, i + 1));
            }
            i = i + 1;
        }
    }
}


/// The layer a key resolves against: the layer pinned when the key was
/// pressed, else the layer the caller passes for this cycle.
pub open spec fn layer_used(kv: KeyView, default_layer: usize) -> usize {
    match kv.current_layer {
        Some(l) => l,
        None => default_layer,
    }
}

/// The raw scan codes that key `i` contributes this cycle, in order: nothing
/// while released; its bound codes while pressed, with a combined key reading
/// its partner's pressed state and an interval emitter reading the clock.
pub open spec fn key_emits(ks: Seq<KeyView>, i: int, default_layer: usize, now: u64) -> Seq<
    ScanCode,
>
    recommends
        0 <= i < ks.len(),
{
    let kv = ks[i];
    let l = layer_used(kv, default_layer) as int;
    if !kv.pressed || !(0 <= l < kv.behaviors.len()) {
        seq![]
    } else {
        match kv.behaviors[l] {
            ScanCodeBehavior::Single(c) => seq![c],
            ScanCodeBehavior::Double(c0, c1) => seq![c0, c1],
            ScanCodeBehavior::Triple(c0, c1, c2) => seq![c0, c1, c2],
            ScanCodeBehavior::CombinedKey { other_index, normal_code, combined_code } => {
                if other_index < ks.len() && ks[other_index as int].pressed {
                    seq![combined_code]
                } else {
                    seq![normal_code]
                }
            },
            ScanCodeBehavior::IntervalPresses(p) => seq![p.spec_step(now).1],
            ScanCodeBehavior::Config(_) => seq![],
            ScanCodeBehavior::Function(_) => seq![],
        }
    }
}

/// One key's record after the pass: a pressed key pins the layer it resolved
/// under, a released key is unpinned, and an interval emitter's timers move
/// whether or not its output was kept — no key is skipped once a cycle runs.
pub open spec fn key_step(kv: KeyView, default_layer: usize, now: u64) -> KeyView {
    let lu = layer_used(kv, default_layer);
    let l = lu as int;
    let behaviors = if 0 <= l < kv.behaviors.len() {
        match kv.behaviors[l] {
            ScanCodeBehavior::IntervalPresses(p) => kv.behaviors.update(
                l,
                ScanCodeBehavior::IntervalPresses(
                    if kv.pressed {
                        p.spec_step(now).0
                    } else {
                        p.spec_reset()
                    },
                ),
            ),
            _ => kv.behaviors,
        }
    } else {
        kv.behaviors
    };
    KeyView {
        pressed: kv.pressed,
        behaviors,
        current_layer: if kv.pressed {
            Some(lu)
        } else {
            None
        },
    }
}

/// The callback a pressed `Config` or `Function` key resolves to.
pub open spec fn key_fires(kv: KeyView, default_layer: usize) -> Option<Callback> {
    let l = layer_used(kv, default_layer) as int;
    if kv.pressed && 0 <= l < kv.behaviors.len() {
        match kv.behaviors[l] {
            ScanCodeBehavior::Config(id) => Some(Callback::Config(id)),
            ScanCodeBehavior::Function(id) => Some(Callback::Function(id)),
            _ => None,
        }
    } else {
        None
    }
}

/// The whole table after one resolution pass.
pub open spec fn keys_step(ks: Seq<KeyView>, default_layer: usize, now: u64) -> Seq<KeyView> {
    Seq::new(ks.len(), |i: int| key_step(ks[i], default_layer, now))
}

/// The raw emission stream of the first `n` keys, concatenated in index
/// order.
pub open spec fn emits_prefix(ks: Seq<KeyView>, default_layer: usize, now: u64, n: int) -> Seq<
    ScanCode,
>
    decreases n,
{
    if n <= 0 {
        seq![]
    } else {
        emits_prefix(ks, default_layer, now, n - 1) + key_emits(ks, n - 1, default_layer, now)
    }
}

/// The raw emission stream of the whole table.
pub open spec fn keys_emits(ks: Seq<KeyView>, default_layer: usize, now: u64) -> Seq<ScanCode> {
    emits_prefix(ks, default_layer, now, ks.len() as int)
}

/// The first callback fired among the first `n` keys, in index order.
pub open spec fn fired_prefix(ks: Seq<KeyView>, default_layer: usize, n: int) -> Option<Callback>
    decreases n,
{
    if n <= 0 {
        None
    } else {
        match fired_prefix(ks, default_layer, n - 1) {
            Some(c) => Some(c),
            None => key_fires(ks[n - 1], default_layer),
        }
    }
}

/// The first callback fired in the whole table, if any.
pub open spec fn keys_fired(ks: Seq<KeyView>, default_layer: usize) -> Option<Callback> {
    fired_prefix(ks, default_layer, ks.len() as int)
}

/// Layer adoption over one more emitted code: the first layer code wins,
/// except that a later toggle layer code takes over.
pub open spec fn select_layer(cur: Option<Layer>, c: ScanCode) -> Option<Layer> {
    match c {
        ScanCode::Layer(l) => match cur {
            Some(_) => if l.toggle {
                Some(l)
            } else {
                cur
            },
            None => Some(l),
        },
        _ => cur,
    }
}

/// Layer adoption folded over the first `n` codes of an emission stream.
pub open spec fn fold_layer(codes: Seq<ScanCode>, n: int) -> Option<Layer>
    decreases n,
{
    if n <= 0 {
        None
    } else {
        select_layer(fold_layer(codes, n - 1), codes[n - 1])
    }
}

/// The single layer result adopted from an emission stream.
pub open spec fn chosen_layer(codes: Seq<ScanCode>) -> Option<Layer> {
    fold_layer(codes, codes.len() as int)
}

/// The first `n` codes of a stream with every layer code removed.
pub open spec fn drop_layers(codes: Seq<ScanCode>, n: int) -> Seq<ScanCode>
    decreases n,
{
    if n <= 0 {
        seq![]
    } else {
        drop_layers(codes, n - 1) + if codes[n - 1] is Layer {
            seq![]
        } else {
            seq![codes[n - 1]]
        }
    }
}

/// What the resolver appends when no callback fires: the non-layer codes of
/// the emission stream in order, then the adopted layer code, if any.
pub open spec fn resolved_codes(ks: Seq<KeyView>, default_layer: usize, now: u64) -> Seq<ScanCode> {
    let em = keys_emits(ks, default_layer, now);
    drop_layers(em, em.len() as int) + match chosen_layer(em) {
        Some(l) => seq![ScanCode::Layer(l)],
        None => seq![],
    }
}

/// Folds that walk a stream's first `n` codes see only those codes.
proof fn lemma_folds_prefix(a: Seq<ScanCode>, b: Seq<ScanCode>, n: int)
    requires
        0 <= n <= a.len(),
        n <= b.len(),
        forall|k: int| 0 <= k < n ==> a[k] == b[k],
    ensures
        fold_layer(a, n) == fold_layer(b, n),
        drop_layers(a, n) == drop_layers(b, n),
    decreases n,
{
    if n > 0 {
        lemma_folds_prefix(a, b, n - 1);
    }
}

/// Appending one code to a stream extends both folds by that code.
proof fn lemma_folds_push(em: Seq<ScanCode>, c: ScanCode)
    ensures
        fold_layer(em.push(c), em.len() as int + 1) == select_layer(fold_layer(em, em.len() as int), c),
        drop_layers(em.push(c), em.len() as int + 1) == drop_layers(em, em.len() as int) + if c is Layer {
            seq![]
        } else {
            seq![c]
        },
{
    let e2 = em.push(c);
    assert(e2[em.len() as int] == c);
    lemma_folds_prefix(em, e2, em.len() as int);
}

/// One resolution step keeps a key well formed: timers move but the emitted
/// code, the partner index and the base period are preserved, and the pinned
/// layer exists.
proof fn lemma_key_step_wf(kv: KeyView, default_layer: usize, now: u64, nkeys: int)
    requires
        key_wf(kv, nkeys),
        default_layer < NUM_LAYERS,
    ensures
        key_wf(key_step(kv, default_layer, now), nkeys),
{
    let kv2 = key_step(kv, default_layer, now);
    let l = layer_used(kv, default_layer) as int;
    assert forall|m: int| 0 <= m < kv2.behaviors.len() implies behavior_wf(
        #[trigger] kv2.behaviors[m],
        nkeys,
    ) by {
        assert(behavior_wf(kv.behaviors[m], nkeys));
        if m == l {
            assert(behavior_wf(kv.behaviors[l], nkeys));
        }
    }
}


/// Routes one emitted code: a layer code feeds layer adoption, any other
/// code (a null or idle code included) is appended to the output set.
fn accumulate(set: &mut Vec<ScanCode>, chosen: &mut Option<Layer>, code: ScanCode)
    ensures
        final(set)@ == old(set)@ + (if code is Layer {
            Seq::<ScanCode>::empty()
        } else {
            seq![code]
        }),
        *final(chosen) == select_layer(*old(chosen), code),
{
    match code {
        ScanCode::Layer(l) => {
            match *chosen {
                Some(_) => {
                    if l.toggle {
                        *chosen = Some(l);
                    }
                },
                None => {
                    *chosen = Some(l);
                },
            }
            proof {
                assert(set@ =~= old(set)@ + Seq::<ScanCode>::empty());
            }
        },
        _ => {
            set.push(code);
            proof {
                assert(set@ =~= old(set)@ + seq![code]);
            }
        },
    }
}

impl Keys {
    /// Resolves every key against `layer` at time `now`, appending the
    /// asserted scan codes to `set`.
    ///
    /// A held key keeps resolving under the layer it was pressed on; at most
    /// one layer code is appended, the adopted one; a pressed `Config` or
    /// `Function` key empties the set for the cycle and its identifier is
    /// returned for the caller to run after the pass. The pass always visits
    /// every key, so pins and repeat timers move even when output is
    /// discarded.
    #[verifier::rlimit(100)]
    #[verifier::spinoff_prover]
    pub fn get_keys_at(&mut self, layer: usize, set: &mut Vec<ScanCode>, now: u64) -> (r: Option<
        Callback,
    >)
        requires
            old(self).wf(),
            layer < NUM_LAYERS,
        ensures
            final(self).wf(),
            final(self)@.keys == keys_step(old(self)@.keys, layer, now),
            final(self)@.state == old(self)@.state,
            r == keys_fired(old(self)@.keys, layer),
            r is Some ==> final(set)@ == Seq::<ScanCode>::empty(),
            r is None ==> final(set)@ == old(set)@ + resolved_codes(old(self)@.keys, layer, now),
    {
        let ghost ks0 = self@.keys;
        let ghost set0 = set@;
        let ghost st0 = self@.state;
        let n = self.keys.len();
        let mut fired: Option<Callback> = None;
        let mut chosen: Option<Layer> = None;
        let ghost mut em = Seq::<ScanCode>::empty();
        let mut i: usize = 0;
        while i < n
            invariant
                i <= n,
                n == self.keys@.len(),
                ks0.len() == n,
                layer < NUM_LAYERS,
                forall|j: int| 0 <= j < ks0.len() ==> key_wf(#[trigger] ks0[j], ks0.len() as int),
                self@.state == st0,
                forall|j: int| 0 <= j < i ==> self@.keys[j] == key_step(ks0[j], layer, now),
                forall|j: int| i <= j < n ==> self@.keys[j] == ks0[j],
                em == emits_prefix(ks0, layer, now, i as int),
                fired == fired_prefix(ks0, layer, i as int),
                fired is None ==> set@ == set0 + drop_layers(em, em.len() as int),
                fired is None ==> chosen == fold_layer(em, em.len() as int),
            decreases n - i,
        {
            let ghost pre = self@.keys;
            proof {
                assert(self@.keys[i as int] == ks0[i as int]);
                assert(key_wf(ks0[i as int], n as int));
            }
            let pressed = self.keys[i].pos.is_pressed();
            let lu: usize = match self.keys[i].current_layer {
                Some(l) => l,
                None => layer,
            };
            proof {
                assert(lu == layer_used(ks0[i as int], layer));
            }
            let b = self.keys[i].codes[lu];
            proof {
                assert(b == ks0[i as int].behaviors[lu as int]);
                assert(behavior_wf(b, n as int));
            }
            let ghost emk = key_emits(ks0, i as int, layer, now);
            match b {
                ScanCodeBehavior::Single(code) => {
                    if pressed {
                        if fired.is_none() {
                            accumulate(set, &mut chosen, code);
                        }
                        proof {
                            lemma_folds_push(em, code);
                            em = em.push(code);
                            assert(em =~= emits_prefix(ks0, layer, now, i as int) + emk);
                        }
                    }
                },
                ScanCodeBehavior::Double(code0, code1) => {
                    if pressed {
                        if fired.is_none() {
                            accumulate(set, &mut chosen, code0);
                            accumulate(set, &mut chosen, code1);
                        }
                        proof {
                            lemma_folds_push(em, code0);
                            em = em.push(code0);
                            lemma_folds_push(em, code1);
                            em = em.push(code1);
                            assert(em =~= emits_prefix(ks0, layer, now, i as int) + emk);
                            if fired is None {
                                assert(set@ =~= set0 + drop_layers(em, em.len() as int));
                            }
                        }
                    }
                },
                ScanCodeBehavior::Triple(code0, code1, code2) => {
                    if pressed {
                        if fired.is_none() {
                            accumulate(set, &mut chosen, code0);
                            accumulate(set, &mut chosen, code1);
                            accumulate(set, &mut chosen, code2);
                        }
                        proof {
                            lemma_folds_push(em, code0);
                            em = em.push(code0);
                            lemma_folds_push(em, code1);
                            em = em.push(code1);
                            lemma_folds_push(em, code2);
                            em = em.push(code2);
                            assert(em =~= emits_prefix(ks0, layer, now, i as int) + emk);
                            if fired is None {
                                assert(set@ =~= set0 + drop_layers(em, em.len() as int));
                            }
                        }
                    }
                },
                ScanCodeBehavior::CombinedKey { other_index, normal_code, combined_code } => {
                    if pressed {
                        let other = self.keys[other_index].pos.is_pressed();
                        proof {
                            if (other_index as int) < i as int {
                                assert(self@.keys[other_index as int] == key_step(
                                    ks0[other_index as int],
                                    layer,
                                    now,
                                ));
                            }
                            assert(other == ks0[other_index as int].pressed);
                        }
                        let code = if other {
                            combined_code
                        } else {
                            normal_code
                        };
                        if fired.is_none() {
                            accumulate(set, &mut chosen, code);
                        }
                        proof {
                            lemma_folds_push(em, code);
                            em = em.push(code);
                            assert(em =~= emits_prefix(ks0, layer, now, i as int) + emk);
                        }
                    }
                },
                ScanCodeBehavior::IntervalPresses(p) => {
                    let mut p2 = p;
                    if pressed {
                        let c = p2.get_code(now);
                        self.keys[i].codes[lu] = ScanCodeBehavior::IntervalPresses(p2);
                        if fired.is_none() {
                            accumulate(set, &mut chosen, c);
                        }
                        proof {
                            lemma_folds_push(em, c);
                            em = em.push(c);
                            assert(em =~= emits_prefix(ks0, layer, now, i as int) + emk);
                        }
                    } else {
                        p2.starting_time = None;
                        self.keys[i].codes[lu] = ScanCodeBehavior::IntervalPresses(p2);
                    }
                },
                ScanCodeBehavior::Config(id) => {
                    if pressed && fired.is_none() {
                        fired = Some(Callback::Config(id));
                    }
                },
                ScanCodeBehavior::Function(id) => {
                    if pressed && fired.is_none() {
                        fired = Some(Callback::Function(id));
                    }
                },
            }
            if pressed {
                self.keys[i].current_layer = Some(lu);
            } else {
                self.keys[i].current_layer = None;
            }
            proof {
                assert(self@.keys[i as int] =~= key_step(ks0[i as int], layer, now));
                assert(em =~= emits_prefix(ks0, layer, now, i as int + 1));
                assert(fired == fired_prefix(ks0, layer, i as int + 1));
                assert forall|j: int| 0 <= j < i + 1 implies self@.keys[j] == key_step(
                    ks0[j],
                    layer,
                    now,
                ) by {
                    if j < i as int {
                        assert(pre[j] == key_step(ks0[j], layer, now));
                        assert(self@.keys[j] == pre[j]);
                    }
                }
            }
            i = i + 1;
        }
        let r = match fired {
            Some(cb) => {
                set.clear();
                Some(cb)
            },
            None => {
                match chosen {
                    Some(l) => {
                        set.push(ScanCode::Layer(l));
                    },
                    None => {},
                }
                None
            },
        };
        proof {
            assert(self@.keys =~= keys_step(ks0, layer, now));
            assert forall|j: int| 0 <= j < self@.keys.len() implies key_wf(
                #[trigger] self@.keys[j],
                self@.keys.len() as int,
            ) by {
                lemma_key_step_wf(ks0[j], layer, now, n as int);
            }
            if r is None {
                assert(set@ =~= set0 + resolved_codes(ks0, layer, now));
            }
        }
        r
    }
}


impl Keys {
    /// [`Keys::get_keys_at`] against the system clock: resolves every key at
    /// the moment of the call. The clock reading is not observable, so the
    /// contract holds for some reading; callers that need exact timing pass
    /// their own timestamp to [`Keys::get_keys_at`].
    pub fn get_keys(&mut self, layer: usize, set: &mut Vec<ScanCode>) -> (r: Option<Callback>)
        requires
            old(self).wf(),
            layer < NUM_LAYERS,
        ensures
            final(self).wf(),
            final(self)@.state == old(self)@.state,
            r == keys_fired(old(self)@.keys, layer),
            r is Some ==> final(set)@ == Seq::<ScanCode>::empty(),
            exists|now: u64|
                {
                    &&& final(self)@.keys == #[trigger] keys_step(old(self)@.keys, layer, now)
                    &&& (r is None ==> final(set)@ == old(set)@ + resolved_codes(
                        old(self)@.keys,
                        layer,
                        now,
                    ))
                },
    {
        let now = crate::time::now_millis();
        let r = self.get_keys_at(layer, set, now);
        proof {
            assert(self@.keys == keys_step(old(self)@.keys, layer, now));
        }
        r
    }
}


/// The codes of the cycle as the report generator sees them: empty when a
/// callback fired, the resolved codes otherwise.
pub open spec fn cycle_codes(ks: Seq<KeyView>, default_layer: usize, now: u64) -> Seq<ScanCode> {
    if keys_fired(ks, default_layer) is Some {
        seq![]
    } else {
        resolved_codes(ks, default_layer, now)
    }
}

/// Every code emitted by a well-formed table is well formed.
pub proof fn lemma_emits_prefix_wf(ks: Seq<KeyView>, d: usize, now: u64, n: int)
    requires
        forall|i: int| 0 <= i < ks.len() ==> key_wf(#[trigger] ks[i], ks.len() as int),
        0 <= n <= ks.len(),
    ensures
        forall|k: int|
            0 <= k < emits_prefix(ks, d, now, n).len() ==> code_wf(
                #[trigger] emits_prefix(ks, d, now, n)[k],
            ),
    decreases n,
{
    if n > 0 {
        lemma_emits_prefix_wf(ks, d, now, n - 1);
        let kv = ks[n - 1];
        let l = layer_used(kv, d) as int;
        let emk = key_emits(ks, n - 1, d, now);
        assert forall|k: int| 0 <= k < emk.len() implies code_wf(emk[k]) by {
            assert(key_wf(kv, ks.len() as int));
            if kv.pressed && 0 <= l < kv.behaviors.len() {
                assert(behavior_wf(kv.behaviors[l], ks.len() as int));
                match kv.behaviors[l] {
                    ScanCodeBehavior::IntervalPresses(p) => {
                        assert(p.spec_step(now).1 == p.code || p.spec_step(now).1
                            == ScanCode::Empty);
                    },
                    _ => {},
                }
            }
        }
        let pre = emits_prefix(ks, d, now, n - 1);
        assert forall|k: int| 0 <= k < emits_prefix(ks, d, now, n).len() implies code_wf(
            #[trigger] emits_prefix(ks, d, now, n)[k],
        ) by {
            if k < pre.len() {
                assert(emits_prefix(ks, d, now, n)[k] == pre[k]);
            } else {
                assert(emits_prefix(ks, d, now, n)[k] == emk[k - pre.len()]);
            }
        }
    }
}

/// Removing the layer codes keeps every remaining code well formed and
/// layer-free.
pub proof fn lemma_drop_layers_wf(codes: Seq<ScanCode>, n: int)
    requires
        0 <= n <= codes.len(),
        forall|k: int| 0 <= k < codes.len() ==> code_wf(#[trigger] codes[k]),
    ensures
        forall|k: int|
            0 <= k < drop_layers(codes, n).len() ==> code_wf(#[trigger] drop_layers(codes, n)[k])
                && !(drop_layers(codes, n)[k] is Layer),
    decreases n,
{
    if n > 0 {
        lemma_drop_layers_wf(codes, n - 1);
    }
}

/// A layer adopted from well-formed codes names an existing layer.
pub proof fn lemma_fold_layer_wf(codes: Seq<ScanCode>, n: int)
    requires
        0 <= n <= codes.len(),
        forall|k: int| 0 <= k < codes.len() ==> code_wf(#[trigger] codes[k]),
    ensures
        fold_layer(codes, n) matches Some(l) ==> l.pos < NUM_LAYERS,
    decreases n,
{
    if n > 0 {
        lemma_fold_layer_wf(codes, n - 1);
    }
}

/// Every code a cycle hands to the report generator is well formed.
pub proof fn lemma_cycle_codes_wf(ks: Seq<KeyView>, d: usize, now: u64)
    requires
        forall|i: int| 0 <= i < ks.len() ==> key_wf(#[trigger] ks[i], ks.len() as int),
    ensures
        forall|k: int|
            0 <= k < cycle_codes(ks, d, now).len() ==> code_wf(#[trigger] cycle_codes(ks, d, now)[k]),
{
    if !(keys_fired(ks, d) is Some) {
        let em = keys_emits(ks, d, now);
        lemma_emits_prefix_wf(ks, d, now, ks.len() as int);
        lemma_drop_layers_wf(em, em.len() as int);
        lemma_fold_layer_wf(em, em.len() as int);
    }
}


/// Rollover pinning: a key that is pressed while one layer is active keeps
/// resolving against that layer, whatever default layer later cycles pass,
/// until it is released. The first pass pins the key to the layer it
/// resolved under; later passes resolve it by the pin, not the default, and
/// keep the pin while the key stays pressed.
pub proof fn lemma_rollover_pinning(
    ks: Seq<KeyView>,
    i: int,
    d0: usize,
    d1: usize,
    t0: u64,
    t1: u64,
)
    requires
        0 <= i < ks.len(),
        ks[i].pressed,
        ks[i].current_layer is None,
    ensures
        keys_step(ks, d0, t0)[i].current_layer == Some(d0),
        layer_used(keys_step(ks, d0, t0)[i], d1) == d0,
        keys_step(ks, d0, t0)[i].pressed,
        keys_step(keys_step(ks, d0, t0), d1, t1)[i].current_layer == Some(d0),
{
}

/// Toggle beats momentary: if any of the codes resolved this cycle is a
/// toggle layer code, the layer adopted for the cycle is a toggle one —
/// a momentary layer key can never displace it, wherever the two stand in
/// scan order.
pub proof fn lemma_toggle_layer_priority(codes: Seq<ScanCode>, n: int)
    requires
        0 <= n <= codes.len(),
        exists|k: int|
            0 <= k < n && (#[trigger] codes[k] matches ScanCode::Layer(l) && l.toggle),
    ensures
        fold_layer(codes, n) matches Some(l) && l.toggle,
    decreases n,
{
    let k = choose|k: int|
        0 <= k < n && (#[trigger] codes[k] matches ScanCode::Layer(l) && l.toggle);
    if k < n - 1 {
        lemma_toggle_layer_priority(codes, n - 1);
    }
}

/// Once some key has fired a callback, scanning further keys never clears
/// it.
proof fn lemma_fired_prefix_monotone(ks: Seq<KeyView>, d: usize, n: int, m: int)
    requires
        0 <= n <= m <= ks.len(),
        fired_prefix(ks, d, n) is Some,
    ensures
        fired_prefix(ks, d, m) is Some,
    decreases m - n,
{
    if n < m {
        lemma_fired_prefix_monotone(ks, d, n, m - 1);
    }
}

/// Callback suppression: if any pressed key resolves to a `Config` or
/// `Function` behavior, the whole pass reports a callback — and by the
/// contract of `get_keys_at` the cycle's output set is then empty, whatever
/// other keys are pressed.
pub proof fn lemma_callback_suppression(ks: Seq<KeyView>, d: usize, i: int)
    requires
        0 <= i < ks.len(),
        key_fires(ks[i], d) is Some,
    ensures
        keys_fired(ks, d) is Some,
{
    assert(fired_prefix(ks, d, i + 1) is Some);
    lemma_fired_prefix_monotone(ks, d, i + 1, ks.len() as int);
}

/// Division keeps order across denominators: `p / q <= r / s` whenever
/// `p * s <= r * q`.
proof fn lemma_div_le(p: int, q: int, r: int, s: int)
    requires
        0 <= p,
        0 < q,
        0 <= r,
        0 < s,
        p * s <= r * q,
    ensures
        p / q <= r / s,
{
    vstd::arithmetic::div_mod::lemma_div_denominator(p * s, s, q);
    vstd::arithmetic::div_mod::lemma_div_denominator(r * q, q, s);
    assert((p * s) / s == p) by {
        vstd::arithmetic::div_mod::lemma_div_multiples_vanish(p, s);
        assert(p * s == s * p) by (nonlinear_arith);
    }
    assert((r * q) / q == r) by {
        vstd::arithmetic::div_mod::lemma_div_multiples_vanish(r, q);
        assert(r * q == q * r) by (nonlinear_arith);
    }
    vstd::arithmetic::div_mod::lemma_div_is_ordered(p * s, r * q, s * q);
    assert(s * q == q * s) by (nonlinear_arith);
}

/// The progressive curve never slows down: holding longer never lengthens
/// the repeat period's divisor.
pub proof fn lemma_rate_monotone(a: u64, b: u64)
    requires
        a <= b,
    ensures
        AccelCurve::Progressive.spec_rate(a) <= AccelCurve::Progressive.spec_rate(b),
{
    let ca = if a > 25000 { 25000 as int } else { a as int };
    let cb = if b > 25000 { 25000 as int } else { b as int };
    assert(ca * ca <= cb * cb) by (nonlinear_arith)
        requires
            0 <= ca <= cb,
    ;
    let va = ca * ca;
    let vb = cb * cb;
    assert(10000 * va * (vb + 50000) <= 10000 * vb * (va + 50000)) by (nonlinear_arith)
        requires
            0 <= va <= vb,
    ;
    assert((10000 * va) * (vb + 50000) == 10000 * va * (vb + 50000)) by (nonlinear_arith);
    assert((10000 * vb) * (va + 50000) == 10000 * vb * (va + 50000)) by (nonlinear_arith);
    lemma_div_le(10000 * va, va + 50000, 10000 * vb, vb + 50000);
}

/// Interval acceleration: with the progressive curve and a base period of at
/// least 25 ms, the repeat period in force after an emission two seconds into
/// a hold is strictly shorter than any period in force during the first
/// 200 ms of the hold, and no period ever exceeds the base period.
pub proof fn lemma_interval_acceleration(delay: u64, x1: u64, x2: u64)
    requires
        25 <= delay <= MAX_INTERVAL_MS,
        x1 <= 200,
        x2 >= 2000,
    ensures
        spec_period(delay, AccelCurve::Progressive.spec_rate(x2)) < spec_period(
            delay,
            AccelCurve::Progressive.spec_rate(x1),
        ),
        spec_period(delay, AccelCurve::Progressive.spec_rate(x1)) <= delay,
{
    let r1 = AccelCurve::Progressive.spec_rate(x1);
    let r2 = AccelCurve::Progressive.spec_rate(x2);
    let b = delay as int * 1000;
    lemma_rate_at_least_base(AccelCurve::Progressive, x1);
    lemma_rate_at_least_base(AccelCurve::Progressive, x2);
    lemma_rate_monotone(x1, 200);
    lemma_rate_monotone(2000, x2);
    assert(AccelCurve::Progressive.spec_rate(200) == 5444) by {
        vstd::arithmetic::div_mod::lemma_fundamental_div_mod_converse_div(
            400000000,
            90000,
            4444,
            40000,
        );
    }
    assert(AccelCurve::Progressive.spec_rate(2000) == 10876) by {
        vstd::arithmetic::div_mod::lemma_fundamental_div_mod_converse_div(
            40000000000,
            4050000,
            9876,
            2200000,
        );
    }
    // the late period is at most b / 10876
    vstd::arithmetic::div_mod::lemma_div_is_ordered_by_denominator(b, 10876, r2);
    // every early period is at least b / 5444
    vstd::arithmetic::div_mod::lemma_div_is_ordered_by_denominator(b, r1, 5444);
    let q = b / 10876;
    // b >= 25000 pins q >= 2
    vstd::arithmetic::div_mod::lemma_div_is_ordered(25000, b, 10876);
    assert(25000int / 10876 == 2) by {
        vstd::arithmetic::div_mod::lemma_fundamental_div_mod_converse_div(25000, 10876, 2, 3248);
    }
    // division recovers at least the multiple below b
    assert(10876 * q <= b) by {
        vstd::arithmetic::div_mod::lemma_fundamental_div_mod(b, 10876);
        vstd::arithmetic::div_mod::lemma_mod_bound(b, 10876);
    }
    assert(5444 * (q + 1) <= b) by (nonlinear_arith)
        requires
            q >= 2,
            10876 * q <= b,
    ;
    assert(b / 5444 >= q + 1) by {
        vstd::arithmetic::div_mod::lemma_div_is_ordered(5444 * (q + 1), b, 5444);
        vstd::arithmetic::div_mod::lemma_div_multiples_vanish(q + 1, 5444);
    }
    // and the early period never exceeds the base period
    assert(b / r1 <= b / 1000) by {
        vstd::arithmetic::div_mod::lemma_div_is_ordered_by_denominator(b, 1000, r1);
    }
    assert(b / 1000 == delay) by {
        vstd::arithmetic::div_mod::lemma_div_multiples_vanish(delay as int, 1000);
        assert(delay as int * 1000 == 1000 * delay as int) by (nonlinear_arith);
    }
}


/// The resolver adopts at most one layer result: in the codes that
/// `get_keys_at` appends, every element before the last is a non-layer code,
/// so the set never carries two layer codes.
pub proof fn lemma_at_most_one_layer_code(ks: Seq<KeyView>, d: usize, now: u64)
    requires
        forall|i: int| 0 <= i < ks.len() ==> key_wf(#[trigger] ks[i], ks.len() as int),
    ensures
        forall|k: int|
            0 <= k < resolved_codes(ks, d, now).len() - 1 ==> !((#[trigger] resolved_codes(
                ks,
                d,
                now,
            )[k]) is Layer),
{
    let em = keys_emits(ks, d, now);
    let dl = drop_layers(em, em.len() as int);
    lemma_emits_prefix_wf(ks, d, now, ks.len() as int);
    lemma_drop_layers_wf(em, em.len() as int);
    assert forall|k: int|
        0 <= k < resolved_codes(ks, d, now).len() - 1 implies !((#[trigger] resolved_codes(
        ks,
        d,
        now,
    )[k]) is Layer) by {
        if k < dl.len() {
            assert(resolved_codes(ks, d, now)[k] == dl[k]);
        }
    }
}

} // verus!
