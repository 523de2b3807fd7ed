use movebox::systems::KeyPressRegistration;

const LEFT: u32 = 0x4000_0050;
const RIGHT: u32 = 0x4000_004F;
const SPACE: u32 = 0x20;

#[test]
fn new_registration_holds_nothing() {
    let reg = KeyPressRegistration::new();
    assert!(reg.current_presses().is_empty());
}

#[test]
fn without_mask_every_key_registers() {
    let mut reg = KeyPressRegistration::new();
    reg.register_key_press(SPACE);
    reg.register_key_press(LEFT);
    assert!(reg.current_presses().contains(&SPACE));
    assert!(reg.current_presses().contains(&LEFT));
    assert_eq!(reg.current_presses().len(), 2);
}

#[test]
fn mask_keeps_other_keys_out() {
    let mut reg = KeyPressRegistration::new().with_key_mask(vec![LEFT, RIGHT]);
    reg.register_key_press(SPACE);
    reg.register_key_press(RIGHT);
    assert!(!reg.current_presses().contains(&SPACE));
    assert!(reg.current_presses().contains(&RIGHT));
    assert_eq!(reg.current_presses().len(), 1);
}

#[test]
fn empty_mask_registers_nothing() {
    let mut reg = KeyPressRegistration::new().with_key_mask(Vec::new());
    reg.register_key_press(LEFT);
    assert!(reg.current_presses().is_empty());
}

#[test]
fn setting_a_mask_keeps_held_keys() {
    let mut reg = KeyPressRegistration::new();
    reg.register_key_press(SPACE);
    let reg = reg.with_key_mask(vec![LEFT]);
    assert!(reg.current_presses().contains(&SPACE));
}

#[test]
fn release_removes_the_key() {
    let mut reg = KeyPressRegistration::new();
    reg.register_key_press(LEFT);
    reg.register_key_press(RIGHT);
    reg.deregister_key(LEFT);
    assert!(!reg.current_presses().contains(&LEFT));
    assert!(reg.current_presses().contains(&RIGHT));
}

#[test]
fn release_undoes_press() {
    let mut reg = KeyPressRegistration::new();
    reg.register_key_press(RIGHT);
    reg.register_key_press(LEFT);
    reg.deregister_key(LEFT);
    assert_eq!(reg.current_presses().len(), 1);
    assert!(reg.current_presses().contains(&RIGHT));
}

#[test]
fn releasing_an_unheld_key_changes_nothing() {
    let mut reg = KeyPressRegistration::new();
    reg.register_key_press(RIGHT);
    reg.deregister_key(SPACE);
    assert_eq!(reg.current_presses().len(), 1);
}

#[test]
fn pressing_twice_registers_once() {
    let mut reg = KeyPressRegistration::new();
    reg.register_key_press(LEFT);
    reg.register_key_press(LEFT);
    assert_eq!(reg.current_presses().len(), 1);
    reg.deregister_key(LEFT);
    reg.deregister_key(LEFT);
    assert!(reg.current_presses().is_empty());
}

#[test]
fn held_are_masked_keys_last_pressed() {
    let mut reg = KeyPressRegistration::new().with_key_mask(vec![LEFT, RIGHT]);
    reg.register_key_press(LEFT);
    reg.register_key_press(SPACE);
    reg.register_key_press(RIGHT);
    reg.deregister_key(LEFT);
    reg.register_key_press(LEFT);
    reg.deregister_key(RIGHT);
    let held = reg.current_presses();
    assert_eq!(held.len(), 1);
    assert!(held.contains(&LEFT));
}
