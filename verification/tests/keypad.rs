use chip8::Keypad;

#[test]
fn new_keypad_has_all_keys_up() {
    let k = Keypad::new();
    for key in 0..16 {
        assert!(!k.is_pressed(key));
    }
    assert_eq!(k.first_pressed(), None);
}

#[test]
fn set_key_changes_one_key() {
    let mut k = Keypad::new();
    k.set_key(0xA, true);
    for key in 0..16 {
        assert_eq!(k.is_pressed(key), key == 0xA);
    }
    k.set_key(0xA, false);
    assert!(!k.is_pressed(0xA));
}

#[test]
fn several_keys_may_be_down() {
    let mut k = Keypad::new();
    k.set_key(0, true);
    k.set_key(15, true);
    assert!(k.is_pressed(0));
    assert!(k.is_pressed(15));
    assert!(!k.is_pressed(7));
}

#[test]
fn reset_releases_all_keys() {
    let mut k = Keypad::new();
    k.set_key(3, true);
    k.set_key(9, true);
    k.reset();
    assert_eq!(k.keys, [false; 16]);
}

#[test]
fn first_pressed_is_the_lowest() {
    let mut k = Keypad::new();
    k.set_key(0xC, true);
    assert_eq!(k.first_pressed(), Some(0xC));
    k.set_key(0x4, true);
    assert_eq!(k.first_pressed(), Some(0x4));
    k.set_key(0xF, true);
    assert_eq!(k.first_pressed(), Some(0x4));
    k.set_key(0x4, false);
    k.set_key(0xC, false);
    assert_eq!(k.first_pressed(), Some(0xF));
}
