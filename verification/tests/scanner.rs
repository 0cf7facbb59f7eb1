use bruh78::bond::{bi, get_indices, IndexState};
use bruh78::codes::KeyCodes;
use bruh78::descriptor::{BufferReport, CombinedReport, KeyboardReport, KeyboardReportNKRO};
use bruh78::keys::{Layer, ScanCode};
use bruh78::matrix::{Debouncer, Matrix, DEBOUNCE_TIME};

#[test]
fn debouncer_accepts_a_new_value_at_once() {
    let mut d = Debouncer::default();
    assert!(!d.is_pressed());
    d.update_buf(true, 100);
    assert!(d.is_pressed());
}

#[test]
fn debounce_glitch_release_is_not_reported() {
    let mut d = Debouncer::default();
    d.update_buf(true, 100);
    assert!(d.is_pressed());
    // a release within the window is invisible
    d.update_buf(false, 101);
    assert!(d.is_pressed());
    d.update_buf(false, 100 + DEBOUNCE_TIME);
    assert!(d.is_pressed());
    // past the window, one sample expires the lock, the next is accepted
    d.update_buf(false, 100 + DEBOUNCE_TIME + 1);
    assert!(d.is_pressed());
    d.update_buf(false, 100 + DEBOUNCE_TIME + 2);
    assert!(!d.is_pressed());
}

#[test]
fn matrix_commits_debounced_cells() {
    let mut m = Matrix::new(2, 3);
    let mut raw = vec![vec![false; 3], vec![false; 3]];
    raw[1][2] = true;
    m.scan_update(&raw, 0);
    assert!(m.is_pressed(1, 2));
    assert!(!m.is_pressed(0, 0));
    // a single-cycle glitch release is not observable
    raw[1][2] = false;
    m.scan_update(&raw, 2);
    assert!(m.is_pressed(1, 2));
}

#[test]
fn matrix_power_gate_waits_for_quiet_window() {
    let mut m = Matrix::new(1, 1);
    let active = vec![vec![true]];
    let quiet = vec![vec![false]];
    // an active cell keeps the scanner awake
    m.scan_update(&active, 0);
    assert!(!m.should_suspend(100));
    // the cycle the matrix goes quiet arms the latch
    m.scan_update(&quiet, 100);
    assert!(!m.should_suspend(100 + DEBOUNCE_TIME - 1));
    assert!(m.should_suspend(100 + DEBOUNCE_TIME));
    // staying quiet keeps the original timestamp
    m.scan_update(&quiet, 101);
    assert!(m.should_suspend(100 + DEBOUNCE_TIME));
}

#[test]
fn scan_codes_cover_every_range() {
    assert_eq!(KeyCodes::KeyboardAa.get_scan_code(), ScanCode::Letter(0x04));
    assert_eq!(
        KeyCodes::KeypadHexadecimal.get_scan_code(),
        ScanCode::Letter(0xDD)
    );
    assert_eq!(
        KeyCodes::KeyboardLeftControl.get_scan_code(),
        ScanCode::Modifier(0)
    );
    assert_eq!(
        KeyCodes::KeyboardRightGUI.get_scan_code(),
        ScanCode::Modifier(7)
    );
    assert_eq!(KeyCodes::Reserved.get_scan_code(), ScanCode::Modifier(8));
    assert_eq!(
        KeyCodes::Layer0.get_scan_code(),
        ScanCode::Layer(Layer { pos: 0, toggle: false })
    );
    assert_eq!(
        KeyCodes::Layer3.get_scan_code(),
        ScanCode::Layer(Layer { pos: 3, toggle: false })
    );
    assert_eq!(
        KeyCodes::MouseLeftClick.get_scan_code(),
        ScanCode::MouseButton(0)
    );
    assert_eq!(
        KeyCodes::MouseMiddleClick.get_scan_code(),
        ScanCode::MouseButton(2)
    );
    assert_eq!(KeyCodes::MousePositiveX.get_scan_code(), ScanCode::MouseX(1));
    assert_eq!(KeyCodes::MouseNegativeX.get_scan_code(), ScanCode::MouseX(-1));
    assert_eq!(KeyCodes::MousePositiveY.get_scan_code(), ScanCode::MouseY(1));
    assert_eq!(KeyCodes::MouseNegativeY.get_scan_code(), ScanCode::MouseY(-1));
    assert_eq!(KeyCodes::MouseScrollUp.get_scan_code(), ScanCode::Scroll(1));
    assert_eq!(KeyCodes::MouseScrollDown.get_scan_code(), ScanCode::Scroll(-1));
}

#[test]
fn report_defaults_are_empty() {
    let kb = KeyboardReport::default();
    assert_eq!(kb.modifier, 0);
    assert_eq!(kb.keycodes, [0u8; 6]);
    let nkro = KeyboardReportNKRO::default();
    assert_eq!(nkro.modifier, 0);
    assert_eq!(nkro.nkro_keycodes, [0u8; 28]);
    let buf = BufferReport::default();
    assert_eq!(buf.input, [0u8; 32]);
    assert_eq!(buf.output, [0u8; 32]);
    let comb = CombinedReport::default();
    assert_eq!(comb.keycodes, [0u8; 6]);
    assert_eq!(comb.buttons, 0);
}

#[test]
fn bond_slot_keys_follow_the_base() {
    assert_eq!(bi(0), 1);
    assert_eq!(bi(7), 8);
    assert_eq!(bi(255), 256);
}

#[test]
fn get_indices_collects_matching_bits() {
    let mut ones: Vec<u8> = Vec::new();
    get_indices(0b0110_0001, &mut ones, IndexState::One);
    assert_eq!(ones, vec![0, 5, 6]);
    let mut zeros: Vec<u8> = Vec::new();
    get_indices(0b0110_0001, &mut zeros, IndexState::Zero);
    assert_eq!(zeros, vec![1, 2, 3, 4, 7]);
}
