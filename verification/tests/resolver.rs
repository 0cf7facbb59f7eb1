use bruh78::codes::KeyCodes;
use bruh78::keys::{AccelCurve, Callback, Keys, Layer, ScanCode};

#[test]
fn single_letter_resolves() {
    let mut ks = Keys::new(2);
    ks.set_code(KeyCodes::KeyboardAa, 0, 0);
    ks.update_buf(0, true);
    let mut out: Vec<ScanCode> = Vec::new();
    let r = ks.get_keys_at(0, &mut out, 100);
    assert!(r.is_none());
    assert_eq!(out, vec![ScanCode::Letter(0x04)]);
}

#[test]
fn released_key_resolves_nothing() {
    let mut ks = Keys::new(2);
    ks.set_code(KeyCodes::KeyboardAa, 0, 0);
    let mut out: Vec<ScanCode> = Vec::new();
    let r = ks.get_keys_at(0, &mut out, 100);
    assert!(r.is_none());
    assert!(out.is_empty());
}

#[test]
fn rollover_pins_press_time_layer() {
    let mut ks = Keys::new(1);
    ks.set_code(KeyCodes::KeyboardAa, 0, 0);
    ks.set_code(KeyCodes::KeyboardBb, 0, 1);
    ks.update_buf(0, true);
    let mut out: Vec<ScanCode> = Vec::new();
    ks.get_keys_at(0, &mut out, 0);
    assert_eq!(out, vec![ScanCode::Letter(0x04)]);

    // the default layer moves to 1 while the key stays held: the key keeps
    // resolving against layer 0
    out.clear();
    ks.get_keys_at(1, &mut out, 1);
    assert_eq!(out, vec![ScanCode::Letter(0x04)]);

    // release, then press again under layer 1: now layer 1's binding
    ks.update_buf(0, false);
    out.clear();
    ks.get_keys_at(1, &mut out, 2);
    assert!(out.is_empty());
    ks.update_buf(0, true);
    out.clear();
    ks.get_keys_at(1, &mut out, 3);
    assert_eq!(out, vec![ScanCode::Letter(0x05)]);
}

#[test]
fn combined_key_tie_break() {
    let mut ks = Keys::new(8);
    ks.set_combined(KeyCodes::KeyboardXx, KeyCodes::KeyboardYy, 7, 5, 0);

    // pressing only index 5 yields the normal code
    ks.update_buf(5, true);
    let mut out: Vec<ScanCode> = Vec::new();
    ks.get_keys_at(0, &mut out, 0);
    assert_eq!(out[0], ScanCode::Letter(0x1B));

    // pressing 5 and 7 together yields the combined code on 5's resolution
    ks.update_buf(7, true);
    out.clear();
    ks.get_keys_at(0, &mut out, 1);
    assert_eq!(out[0], ScanCode::Letter(0x1C));

    // releasing 7 while 5 stays held reverts on the next cycle
    ks.update_buf(7, false);
    out.clear();
    ks.get_keys_at(0, &mut out, 2);
    assert_eq!(out[0], ScanCode::Letter(0x1B));
}

#[test]
fn function_press_suppresses_all_output() {
    let mut ks = Keys::new(12);
    ks.set_code(KeyCodes::KeyboardAa, 3, 0);
    ks.set_function(41, 10, 0);
    ks.update_buf(3, true);
    ks.update_buf(10, true);
    let mut out: Vec<ScanCode> = Vec::new();
    let r = ks.get_keys_at(0, &mut out, 0);
    assert_eq!(r, Some(Callback::Function(41)));
    assert!(out.is_empty());
}

#[test]
fn config_press_reports_identifier() {
    let mut ks = Keys::new(2);
    ks.set_config(7, 1, 0);
    ks.update_buf(1, true);
    let mut out: Vec<ScanCode> = Vec::new();
    let r = ks.get_keys_at(0, &mut out, 0);
    assert_eq!(r, Some(Callback::Config(7)));
    assert!(out.is_empty());
}

#[test]
fn double_and_triple_emit_all_codes() {
    let mut ks = Keys::new(2);
    ks.set_double(KeyCodes::KeyboardAa, KeyCodes::KeyboardLeftShift, 0, 0);
    ks.set_triple(
        KeyCodes::KeyboardBb,
        KeyCodes::KeyboardCc,
        KeyCodes::KeyboardDd,
        1,
        0,
    );
    ks.update_buf(0, true);
    ks.update_buf(1, true);
    let mut out: Vec<ScanCode> = Vec::new();
    ks.get_keys_at(0, &mut out, 0);
    assert_eq!(
        out,
        vec![
            ScanCode::Letter(0x04),
            ScanCode::Modifier(1),
            ScanCode::Letter(0x05),
            ScanCode::Letter(0x06),
            ScanCode::Letter(0x07),
        ]
    );
}

#[test]
fn at_most_one_layer_code_is_emitted() {
    let mut ks = Keys::new(3);
    ks.set_code(KeyCodes::Layer1, 0, 0);
    ks.set_code(KeyCodes::Layer2, 1, 0);
    ks.set_code(KeyCodes::KeyboardAa, 2, 0);
    ks.update_buf(0, true);
    ks.update_buf(1, true);
    ks.update_buf(2, true);
    let mut out: Vec<ScanCode> = Vec::new();
    ks.get_keys_at(0, &mut out, 0);
    // the non-layer codes in scan order, then the single adopted layer code:
    // the first momentary layer key wins
    assert_eq!(
        out,
        vec![
            ScanCode::Letter(0x04),
            ScanCode::Layer(Layer { pos: 1, toggle: false }),
        ]
    );
}

#[test]
fn toggle_layer_key_overrides_earlier_momentary() {
    let mut ks = Keys::new(3);
    ks.set_code(KeyCodes::Layer1, 0, 0);
    ks.set_toggle_layer(KeyCodes::Layer2, 1, 0);
    ks.update_buf(0, true);
    ks.update_buf(1, true);
    let mut out: Vec<ScanCode> = Vec::new();
    ks.get_keys_at(0, &mut out, 0);
    assert_eq!(out, vec![ScanCode::Layer(Layer { pos: 2, toggle: true })]);
}

#[test]
fn update_buf_maintains_compact_bitmask() {
    let mut ks = Keys::new(40);
    ks.update_buf(0, true);
    ks.update_buf(2, true);
    assert_eq!(ks.get_states(), 0b101);
    ks.update_buf(0, false);
    assert_eq!(ks.get_states(), 0b100);
    // positions beyond the locally scanned range leave the mask alone
    ks.update_buf(20, true);
    assert_eq!(ks.get_states(), 0b100);
    assert!(ks.get_pressed(20));
}

#[test]
fn update_buf_central_ignores_remote_indices() {
    let mut ks = Keys::new(40);
    ks.update_buf_central(3, true);
    assert!(ks.get_pressed(3));
    ks.update_buf_central(25, true);
    assert!(!ks.get_pressed(25));
}

#[test]
fn is_pressed_lists_indices_in_order() {
    let mut ks = Keys::new(5);
    ks.update_buf(1, true);
    ks.update_buf(4, true);
    let mut pressed: Vec<usize> = Vec::new();
    ks.is_pressed(&mut pressed);
    assert_eq!(pressed, vec![1, 4]);
}

#[test]
fn interval_key_emits_then_waits() {
    let mut ks = Keys::new(1);
    ks.set_interval(KeyCodes::MouseScrollUp, 500, AccelCurve::Progressive, 0, 0);
    ks.update_buf(0, true);
    let mut out: Vec<ScanCode> = Vec::new();

    // the first pressed observation emits at once
    ks.get_keys_at(0, &mut out, 0);
    assert_eq!(out, vec![ScanCode::Scroll(1)]);

    // within the base period nothing more is emitted
    out.clear();
    ks.get_keys_at(0, &mut out, 100);
    assert_eq!(out, vec![ScanCode::Empty]);

    // past the base period the code comes again
    out.clear();
    ks.get_keys_at(0, &mut out, 501);
    assert_eq!(out, vec![ScanCode::Scroll(1)]);
}

#[test]
fn interval_key_restarts_after_release() {
    let mut ks = Keys::new(1);
    ks.set_interval(KeyCodes::MouseScrollUp, 500, AccelCurve::Steady, 0, 0);
    ks.update_buf(0, true);
    let mut out: Vec<ScanCode> = Vec::new();
    ks.get_keys_at(0, &mut out, 0);
    assert_eq!(out, vec![ScanCode::Scroll(1)]);

    // release resets the hold timer
    ks.update_buf(0, false);
    out.clear();
    ks.get_keys_at(0, &mut out, 10);
    assert!(out.is_empty());

    // a new press emits at once again
    ks.update_buf(0, true);
    out.clear();
    ks.get_keys_at(0, &mut out, 20);
    assert_eq!(out, vec![ScanCode::Scroll(1)]);
}

#[test]
fn interval_acceleration_shrinks_the_gap() {
    let mut ks = Keys::new(1);
    ks.set_interval(KeyCodes::MousePositiveX, 100, AccelCurve::Progressive, 0, 0);
    ks.update_buf(0, true);
    let mut emissions: Vec<u64> = Vec::new();
    let mut t: u64 = 0;
    while t <= 2500 {
        let mut out: Vec<ScanCode> = Vec::new();
        ks.get_keys_at(0, &mut out, t);
        if out == vec![ScanCode::MouseX(1)] {
            emissions.push(t);
        }
        t += 1;
    }
    // the gap between emissions in the first 200 ms versus a gap after the
    // key has been held for two seconds
    let early_gap = emissions[1] - emissions[0];
    let mut late_gap = None;
    for w in emissions.windows(2) {
        if w[0] >= 2000 {
            late_gap = Some(w[1] - w[0]);
            break;
        }
    }
    let late_gap = late_gap.expect("the key emits past two seconds");
    assert!(late_gap < early_gap);
    assert!(early_gap > 100);
    assert!(late_gap <= 10);
}

#[test]
fn accel_curve_rates() {
    assert_eq!(AccelCurve::Steady.rate(0), 1000);
    assert_eq!(AccelCurve::Steady.rate(5000), 1000);
    assert_eq!(AccelCurve::Progressive.rate(0), 1000);
    assert_eq!(AccelCurve::Progressive.rate(200), 5444);
    assert_eq!(AccelCurve::Progressive.rate(2000), 10876);
    // the clamp changes nothing: the integer curve is flat out there
    assert_eq!(AccelCurve::Progressive.rate(25000), 10999);
    assert_eq!(AccelCurve::Progressive.rate(u64::MAX), 10999);
}

#[test]
fn empty_table_resolves_nothing() {
    let mut ks = Keys::new(0);
    let mut out: Vec<ScanCode> = Vec::new();
    let r = ks.get_keys_at(0, &mut out, 0);
    assert!(r.is_none());
    assert!(out.is_empty());
    assert_eq!(ks.get_states(), 0);
}

#[test]
fn bitmask_boundary_sits_at_the_local_key_count() {
    let mut ks = Keys::new(19);
    ks.update_buf(17, true);
    assert_eq!(ks.get_states(), 1 << 17);
    ks.update_buf(18, true);
    assert_eq!(ks.get_states(), 1 << 17);
    assert!(ks.get_pressed(18));
}
