use nes_emu::joypad::{Joypad, JoypadButton};

#[test]
fn joypad_reports_its_buttons_in_order() {
    let mut joypad = Joypad::new();
    joypad.set_button_pressed_status(JoypadButton::BUTTON_A, true);
    joypad.set_button_pressed_status(JoypadButton::START, true);
    joypad.set_button_pressed_status(JoypadButton::RIGHT, true);
    joypad.write(1);
    joypad.write(0);
    let report: Vec<u8> = (0..8).map(|_| joypad.read()).collect();
    assert_eq!(report, vec![1, 0, 0, 1, 0, 0, 0, 1]);
    // all reported: every further read gives 1
    assert_eq!(joypad.read(), 1);
    assert_eq!(joypad.read(), 1);
    assert_eq!(joypad.button_index, 8);
}

#[test]
fn joypad_strobe_holds_the_report_at_button_a() {
    let mut joypad = Joypad::new();
    joypad.set_button_pressed_status(JoypadButton::BUTTON_B, true);
    joypad.write(0);
    joypad.read();
    assert_eq!(joypad.read(), 1);
    joypad.write(1);
    assert_eq!(joypad.button_index, 0);
    for _ in 0..10 {
        assert_eq!(joypad.read(), 0);
    }
    joypad.set_button_pressed_status(JoypadButton::BUTTON_A, true);
    assert_eq!(joypad.read(), 1);
    joypad.set_button_pressed_status(JoypadButton::BUTTON_A, false);
    assert_eq!(joypad.read(), 0);
    assert_eq!(joypad.button_status, JoypadButton::BUTTON_B);
    joypad.write(0xFE);
    assert!(!joypad.strobe);
}
