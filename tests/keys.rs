use rusty_gb::keys::{new_key_reg, new_key_state, KeyReg, Keys};

#[test]
fn fresh_state_has_no_key_pressed() {
    let k = new_key_state();
    assert_eq!(k.column, 0);
    assert_eq!(k.action, 0x0F);
    assert_eq!(k.direction, 0x0F);
    assert_eq!(k.get_keys(), 0);
}

#[test]
fn set_column_keeps_only_selection_bits() {
    let mut k = new_key_state();
    k.set_column(0xFF);
    assert_eq!(k.column, 0x30);
    assert_eq!(k.get_keys(), 0);
    k.set_column(0xD0);
    assert_eq!(k.column, 0x10);
    assert_eq!(k.get_keys(), 0x0F);
}

#[test]
fn each_key_clears_its_own_bit() {
    let cases = [
        (Keys::A, true, 0x0E),
        (Keys::B, true, 0x0D),
        (Keys::SELECT, true, 0x0B),
        (Keys::START, true, 0x07),
        (Keys::RIGHT, false, 0x0E),
        (Keys::LEFT, false, 0x0D),
        (Keys::UP, false, 0x0B),
        (Keys::DOWN, false, 0x07),
    ];
    for (key, action, row) in cases {
        let mut k = new_key_state();
        k.key_down(key);
        if action {
            assert_eq!((k.action, k.direction), (row, 0x0F));
        } else {
            assert_eq!((k.action, k.direction), (0x0F, row));
        }
        k.key_up(key);
        assert_eq!((k.action, k.direction), (0x0F, 0x0F));
    }
}

#[test]
fn rows_are_selected_by_column() {
    let mut k = new_key_state();
    k.key_down(Keys::A);
    k.key_down(Keys::DOWN);
    k.set_column(0x10);
    assert_eq!(k.get_keys(), 0x0E);
    k.set_column(0x20);
    assert_eq!(k.get_keys(), 0x07);
}

#[test]
fn shared_register_through_its_lock() {
    let reg = new_key_reg();
    assert_eq!(reg.get_keys(), 0);
    reg.key_down(Keys::B);
    reg.set_column(0x10);
    assert_eq!(reg.get_keys(), 0x0D);
    reg.key_up(Keys::B);
    assert_eq!(reg.get_keys(), 0x0F);
    let snap = reg.snapshot();
    assert_eq!((snap.column, snap.action, snap.direction), (0x10, 0x0F, 0x0F));
}

fn shareable<T: Send + Sync>() {}

#[test]
fn shared_register_may_cross_threads() {
    shareable::<KeyReg>();
    let reg = new_key_reg();
    for k in [Keys::A, Keys::B, Keys::UP, Keys::DOWN] {
        reg.key_down(k);
    }
    let snap = reg.snapshot();
    assert_eq!(snap.action, 0x0C);
    assert_eq!(snap.direction, 0x03);
}
