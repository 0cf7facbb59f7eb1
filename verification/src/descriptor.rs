use vstd::prelude::*;

verus! {

/// 8-byte boot keyboard report: one modifier bitmask byte, a reserved byte,
/// an LED byte echoed by the host, and six key slots filled in resolution
/// order.
#[derive(Copy, Clone, PartialEq, Eq, Debug)]
pub struct KeyboardReport {
    pub modifier: u8,
    pub reserved: u8,
    pub leds: u8,
    pub keycodes: [u8; 6],
}

impl KeyboardReport {
    /// An empty report: no modifiers, no keys.
    pub fn default() -> (r: KeyboardReport)
        ensures
            r.modifier == 0,
            r.reserved == 0,
            r.leds == 0,
            r.keycodes@ == Seq::new(6, |j: int| 0u8),
    {
        let r = KeyboardReport { modifier: 0, reserved: 0, leds: 0, keycodes: [0u8; 6] };
        proof {
            assert(r.keycodes@ =~= Seq::new(6, |j: int| 0u8));
        }
        r
    }
}

/// 29-byte NKRO keyboard report: one modifier bitmask byte and a 28-byte
/// bitmap with one bit per keycode.
#[derive(Copy, Clone, PartialEq, Eq, Debug)]
pub struct KeyboardReportNKRO {
    pub modifier: u8,
    pub nkro_keycodes: [u8; 28],
}

impl KeyboardReportNKRO {
    /// An empty report: no modifiers, no keys.
    pub fn default() -> (r: KeyboardReportNKRO)
        ensures
            r.modifier == 0,
            r.nkro_keycodes@ == Seq::new(28, |j: int| 0u8),
    {
        let r = KeyboardReportNKRO { modifier: 0, nkro_keycodes: [0u8; 28] };
        proof {
            assert(r.nkro_keycodes@ =~= Seq::new(28, |j: int| 0u8));
        }
        r
    }
}

/// 5-byte relative mouse report: a button bitmask and relative deltas,
/// reset and re-accumulated every cycle.
#[derive(Copy, Clone, PartialEq, Eq, Structural, Debug)]
pub struct MouseReport {
    pub buttons: u8,
    pub x: i8,
    pub y: i8,
    /// Scroll down (negative) or up (positive) this many units.
    pub wheel: i8,
    /// Scroll left (negative) or right (positive) this many units.
    pub pan: i8,
}

impl MouseReport {
    /// A report with no buttons and no motion.
    pub fn default() -> (r: MouseReport)
        ensures
            r == (MouseReport { buttons: 0, x: 0, y: 0, wheel: 0, pan: 0 }),
    {
        MouseReport { buttons: 0, x: 0, y: 0, wheel: 0, pan: 0 }
    }
}

/// 64-byte vendor buffer report: an opaque input and output block.
#[derive(Copy, Clone, PartialEq, Eq, Debug)]
pub struct BufferReport {
    pub input: [u8; 32],
    pub output: [u8; 32],
}

impl BufferReport {
    /// An all-zero buffer pair.
    pub fn default() -> (r: BufferReport)
        ensures
            r.input@ == Seq::new(32, |j: int| 0u8),
            r.output@ == Seq::new(32, |j: int| 0u8),
    {
        let r = BufferReport { input: [0u8; 32], output: [0u8; 32] };
        proof {
            assert(r.input@ =~= Seq::new(32, |j: int| 0u8));
            assert(r.output@ =~= Seq::new(32, |j: int| 0u8));
        }
        r
    }
}

/// Combined boot keyboard and mouse report, one report id each, for
/// transports that multiplex both devices over a single endpoint.
#[derive(Copy, Clone, PartialEq, Eq, Debug)]
pub struct CombinedReport {
    pub modifier: u8,
    pub reserved: u8,
    pub leds: u8,
    pub keycodes: [u8; 6],
    pub buttons: u8,
    pub x: i8,
    pub y: i8,
    pub wheel: i8,
    /// Scroll left (negative) or right (positive) this many units.
    pub pan: i8,
}

impl CombinedReport {
    /// An empty combined report.
    pub fn default() -> (r: CombinedReport)
        ensures
            r.modifier == 0,
            r.reserved == 0,
            r.leds == 0,
            r.keycodes@ == Seq::new(6, |j: int| 0u8),
            r.buttons == 0,
            r.x == 0,
            r.y == 0,
            r.wheel == 0,
            r.pan == 0,
    {
        let r = CombinedReport {
            modifier: 0,
            reserved: 0,
            leds: 0,
            keycodes: [0u8; 6],
            buttons: 0,
            x: 0,
            y: 0,
            wheel: 0,
            pan: 0,
        };
        proof {
            assert(r.keycodes@ =~= Seq::new(6, |j: int| 0u8));
        }
        r
    }
}

} // verus!
