use bruh78::codes::KeyCodes;
use bruh78::descriptor::MouseReport;
use bruh78::keys::Keys;
use bruh78::report::Report;

#[test]
fn keyboard_report_carries_letters_and_modifiers() {
    let mut ks = Keys::new(3);
    ks.set_code(KeyCodes::KeyboardAa, 0, 0);
    ks.set_code(KeyCodes::KeyboardLeftShift, 1, 0);
    ks.update_buf(0, true);
    ks.update_buf(1, true);
    let mut rep = Report::new(0);
    let (kb, mouse, cb) = rep.generate_report_at(&mut ks, 100);
    let kb = kb.expect("first report is sent");
    assert_eq!(kb.modifier, 1 << 1);
    assert_eq!(kb.keycodes, [0x04, 0, 0, 0, 0, 0]);
    assert!(mouse.is_none());
    assert!(cb.is_none());
}

#[test]
fn report_diffing_suppresses_identical_reports() {
    let mut ks = Keys::new(2);
    ks.set_code(KeyCodes::KeyboardAa, 0, 0);
    ks.update_buf(0, true);
    let mut rep = Report::new(0);

    let (kb1, _, _) = rep.generate_report_at(&mut ks, 30);
    assert!(kb1.is_some());

    // the same keycodes again: nothing to send
    let (kb2, _, _) = rep.generate_report_at(&mut ks, 60);
    assert!(kb2.is_none());

    // a changed keycode byte: sent again
    ks.update_buf(0, false);
    ks.update_buf(1, true);
    let (kb3, _, _) = rep.generate_report_at(&mut ks, 90);
    let kb3 = kb3.expect("changed keycodes are sent");
    assert_eq!(kb3.keycodes, [0, 0, 0, 0, 0, 0]);
}

#[test]
fn letters_beyond_six_slots_are_dropped() {
    let mut ks = Keys::new(8);
    let codes = [
        KeyCodes::KeyboardAa,
        KeyCodes::KeyboardBb,
        KeyCodes::KeyboardCc,
        KeyCodes::KeyboardDd,
        KeyCodes::KeyboardEe,
        KeyCodes::KeyboardFf,
        KeyCodes::KeyboardGg,
    ];
    for (i, c) in codes.iter().enumerate() {
        ks.set_code(*c, i, 0);
        ks.update_buf(i, true);
    }
    let mut rep = Report::new(0);
    let (kb, _, _) = rep.generate_report_at(&mut ks, 100);
    let kb = kb.expect("report is sent");
    assert_eq!(kb.keycodes, [0x04, 0x05, 0x06, 0x07, 0x08, 0x09]);
}

#[test]
fn mouse_rate_limit_holds_back_reports() {
    let mut ks = Keys::new(1);
    ks.set_code(KeyCodes::MousePositiveX, 0, 0);
    ks.update_buf(0, true);
    let mut rep = Report::new(0);

    // motion and the interval passed: sent
    let (_, m1, _) = rep.generate_report_at(&mut ks, 25);
    let m1 = m1.expect("first motion is sent");
    assert_eq!(m1.x, 10);
    assert_eq!(m1.y, 0);

    // less than 20 ms after the last send: held back
    let (_, m2, _) = rep.generate_report_at(&mut ks, 40);
    assert!(m2.is_none());

    // 20 ms or more after the last send, motion still nonzero: sent again
    let (_, m3, _) = rep.generate_report_at(&mut ks, 45);
    assert!(m3.expect("motion is sent again").x == 10);
}

#[test]
fn mouse_buttons_and_scroll_accumulate() {
    let mut ks = Keys::new(3);
    ks.set_code(KeyCodes::MouseLeftClick, 0, 0);
    ks.set_code(KeyCodes::MouseScrollDown, 1, 0);
    ks.set_code(KeyCodes::MouseScrollDown, 2, 0);
    ks.update_buf(0, true);
    ks.update_buf(1, true);
    ks.update_buf(2, true);
    let mut rep = Report::new(0);
    let (_, mouse, _) = rep.generate_report_at(&mut ks, 25);
    let mouse = mouse.expect("button and scroll are sent");
    assert_eq!(
        mouse,
        MouseReport { buttons: 1, x: 0, y: 0, wheel: -2, pan: 0 }
    );
}

#[test]
fn toggle_layer_outlives_momentary_and_release() {
    let mut ks = Keys::new(4);
    // pos 1: momentary layer key; pos 2: toggle layer key
    ks.set_code(KeyCodes::Layer1, 1, 0);
    ks.set_toggle_layer(KeyCodes::Layer2, 2, 0);
    ks.update_buf(1, true);
    ks.update_buf(2, true);
    let mut rep = Report::new(0);
    rep.generate_report_at(&mut ks, 30);
    // the toggle key wins the cycle and moves the fallback layer with it
    assert_eq!(rep.current_layer, 2);
    assert_eq!(rep.reset_layer, 2);

    // releasing both keys leaves the toggle layer active (sticky)
    ks.update_buf(1, false);
    ks.update_buf(2, false);
    rep.generate_report_at(&mut ks, 60);
    assert_eq!(rep.current_layer, 2);
    assert_eq!(rep.reset_layer, 2);
}

#[test]
fn momentary_layer_falls_back_on_release() {
    let mut ks = Keys::new(2);
    ks.set_code(KeyCodes::Layer1, 0, 0);
    ks.update_buf(0, true);
    let mut rep = Report::new(0);
    rep.generate_report_at(&mut ks, 30);
    assert_eq!(rep.current_layer, 1);
    assert_eq!(rep.reset_layer, 0);

    ks.update_buf(0, false);
    rep.generate_report_at(&mut ks, 60);
    assert_eq!(rep.current_layer, 0);
    assert_eq!(rep.reset_layer, 0);
}

#[test]
fn function_key_empties_the_cycles_report() {
    let mut ks = Keys::new(12);
    ks.set_code(KeyCodes::KeyboardAa, 3, 0);
    ks.set_function(9, 10, 0);
    ks.update_buf(3, true);
    ks.update_buf(10, true);
    let mut rep = Report::new(0);
    // the first cycle with empty codes diffs equal against the empty initial
    // report: nothing is sent, and the callback is handed out
    let (kb, mouse, cb) = rep.generate_report_at(&mut ks, 30);
    assert!(kb.is_none());
    assert!(mouse.is_none());
    assert_eq!(cb, Some(bruh78::keys::Callback::Function(9)));
}

#[test]
fn generate_state_tracks_bitmask_changes() {
    let mut ks = Keys::new(20);
    let mut rep = Report::new(0);
    assert!(!rep.generate_state_at(&mut ks, 10));
    ks.update_buf(1, true);
    assert!(rep.generate_state_at(&mut ks, 20));
    assert!(!rep.generate_state_at(&mut ks, 30));
    ks.update_buf(1, false);
    assert!(rep.generate_state_at(&mut ks, 40));
}

#[test]
fn set_bit_sets_and_clears() {
    let mut n: u8 = 0;
    bruh78::report::set_bit(&mut n, 1, 3);
    assert_eq!(n, 0b1000);
    bruh78::report::set_bit(&mut n, 1, 0);
    assert_eq!(n, 0b1001);
    bruh78::report::set_bit(&mut n, 0, 3);
    assert_eq!(n, 0b0001);
}

#[test]
fn convenience_cycle_reads_the_clock() {
    let mut ks = Keys::new(1);
    ks.set_code(KeyCodes::KeyboardAa, 0, 0);
    ks.update_buf(0, true);
    let mut rep = Report::default();
    let (kb, _, cb) = rep.generate_report(&mut ks);
    assert_eq!(kb.expect("first report is sent").keycodes[0], 0x04);
    assert!(cb.is_none());

    let mut out: Vec<bruh78::keys::ScanCode> = Vec::new();
    let r = ks.get_keys(0, &mut out);
    assert!(r.is_none());
    assert_eq!(out, vec![bruh78::keys::ScanCode::Letter(0x04)]);

    let mut rep2 = Report::default();
    // the pressed key sits in the locally scanned range, so the snapshot
    // differs from the fresh generator's empty one exactly once
    assert!(rep2.generate_state(&mut ks));
    assert!(!rep2.generate_state(&mut ks));
}
