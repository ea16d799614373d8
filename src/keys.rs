use vstd::prelude::*;
use vstd::rwlock::{RwLock, RwLockPredicate};

verus! {

/// The eight buttons of the handheld.
#[derive(Clone, Copy, Debug, PartialEq, Eq, Structural)]
pub enum Keys {
    A,
    B,
    START,
    SELECT,
    UP,
    DOWN,
    LEFT,
    RIGHT,
}

/// Joypad state: a column selection and two active-low rows of four keys.
///
/// `action` holds A (bit 0), B (bit 1), SELECT (bit 2) and START (bit 3);
/// `direction` holds RIGHT (bit 0), LEFT (bit 1), UP (bit 2) and DOWN (bit 3).
/// A pressed key reads 0.
#[derive(Clone, Copy, Debug, PartialEq, Eq, Structural)]
pub struct KeyState {
    pub column: u8,
    pub action: u8,
    pub direction: u8,
}

/// Whether the key sits in the action row (otherwise the direction row).
pub open spec fn is_action_key(k: Keys) -> bool {
    k == Keys::A || k == Keys::B || k == Keys::START || k == Keys::SELECT
}

/// The bit of its row that a key occupies.
pub open spec fn key_bit(k: Keys) -> u8 {
    match k {
        Keys::A => 0x1,
        Keys::B => 0x2,
        Keys::SELECT => 0x4,
        Keys::START => 0x8,
        Keys::RIGHT => 0x1,
        Keys::LEFT => 0x2,
        Keys::UP => 0x4,
        Keys::DOWN => 0x8,
    }
}

/// The row value after pressing: the key's bit cleared, the upper nibble clear.
pub open spec fn pressed(row: u8, k: Keys) -> u8 {
    row & (0x0F ^ key_bit(k))
}

/// The row value after releasing: the key's bit set.
pub open spec fn released(row: u8, k: Keys) -> u8 {
    row | key_bit(k)
}

/// What the joypad register shows for a column selection.
pub open spec fn selected_row(column: u8, action: u8, direction: u8) -> u8 {
    if column == 0x10 {
        action
    } else if column == 0x20 {
        direction
    } else {
        0
    }
}

impl KeyState {
    /// Only the two selection bits are held; rows use their low nibble only.
    pub open spec fn wf(&self) -> bool {
        &&& self.column & 0xCF == 0
        &&& self.action <= 0x0F
        &&& self.direction <= 0x0F
    }

    pub open spec fn keys_spec(&self) -> u8 {
        selected_row(self.column, self.action, self.direction)
    }

    /// Stores the selection bits (4 and 5) of `val`.
    pub fn set_column(&mut self, val: u8)
        ensures
            *final(self) == (KeyState { column: val & 0x30, ..*old(self) }),
            old(self).wf() ==> final(self).wf(),
    {
        self.column = val & 0x30;
        proof {
            lemma_column_mask(val);
        }
    }

    /// The row that the column selects: 0x10 the action row, 0x20 the direction row, else 0.
    pub fn get_keys(&self) -> (r: u8)
        ensures
            r == self.keys_spec(),
    {
        if self.column == 0x10 {
            self.action
        } else if self.column == 0x20 {
            self.direction
        } else {
            0
        }
    }

    /// Clears the key's bit in its row.
    pub fn key_down(&mut self, key: Keys)
        ensures
            is_action_key(key) ==> *final(self) == (KeyState {
                action: pressed(old(self).action, key),
                ..*old(self)
            }),
            !is_action_key(key) ==> *final(self) == (KeyState {
                direction: pressed(old(self).direction, key),
                ..*old(self)
            }),
            old(self).wf() ==> final(self).wf(),
    {
        proof {
            lemma_row_masks(self.action, self.direction);
        }
        match key {
            Keys::A => self.action = self.action & 0xE,
            Keys::B => self.action = self.action & 0xD,
            Keys::START => self.action = self.action & 0x7,
            Keys::SELECT => self.action = self.action & 0xB,
            Keys::UP => self.direction = self.direction & 0xB,
            Keys::DOWN => self.direction = self.direction & 0x7,
            Keys::LEFT => self.direction = self.direction & 0xD,
            Keys::RIGHT => self.direction = self.direction & 0xE,
        }
    }

    /// Sets the key's bit in its row back.
    pub fn key_up(&mut self, key: Keys)
        ensures
            is_action_key(key) ==> *final(self) == (KeyState {
                action: released(old(self).action, key),
                ..*old(self)
            }),
            !is_action_key(key) ==> *final(self) == (KeyState {
                direction: released(old(self).direction, key),
                ..*old(self)
            }),
            old(self).wf() ==> final(self).wf(),
    {
        proof {
            lemma_row_masks(self.action, self.direction);
        }
        match key {
            Keys::A => self.action = self.action | 0x1,
            Keys::B => self.action = self.action | 0x2,
            Keys::START => self.action = self.action | 0x8,
            Keys::SELECT => self.action = self.action | 0x4,
            Keys::UP => self.direction = self.direction | 0x4,
            Keys::DOWN => self.direction = self.direction | 0x8,
            Keys::LEFT => self.direction = self.direction | 0x2,
            Keys::RIGHT => self.direction = self.direction | 0x1,
        }
    }
}

/// No column selected and no key pressed.
pub fn new_key_state() -> (r: KeyState)
    ensures
        r == (KeyState { column: 0, action: 0x0F, direction: 0x0F }),
        r.wf(),
{
    proof {
        assert(0u8 & 0xCF == 0) by (bit_vector);
    }
    KeyState { column: 0, action: 0x0F, direction: 0x0F }
}

/// What the lock around a `KeyState` keeps true.
pub struct KeyStateInv;

impl RwLockPredicate<KeyState> for KeyStateInv {
    open spec fn inv(self, v: KeyState) -> bool {
        v.wf()
    }
}

/// The joypad state shared between the thread that reads input and the one
/// that emulates; every method takes the lock, so any thread may call it.
pub struct KeyReg {
    state: RwLock<KeyState, KeyStateInv>,
}

/// A shared joypad register with no column selected and no key pressed.
pub fn new_key_reg() -> KeyReg {
    KeyReg { state: RwLock::new(new_key_state(), Ghost(KeyStateInv)) }
}

impl KeyReg {
    /// Stores the selection bits (4 and 5) of `val`.
    pub fn set_column(&self, val: u8) {
        let (mut st, handle) = self.state.acquire_write();
        st.set_column(val);
        handle.release_write(st);
    }

    /// The row that the column selects, or 0; a row holds four bits.
    pub fn get_keys(&self) -> (r: u8)
        ensures
            r <= 0x0F,
    {
        let handle = self.state.acquire_read();
        let r = handle.borrow().get_keys();
        handle.release_read();
        r
    }

    /// Presses a key: clears its bit in its row.
    pub fn key_down(&self, key: Keys) {
        let (mut st, handle) = self.state.acquire_write();
        st.key_down(key);
        handle.release_write(st);
    }

    /// Releases a key: sets its bit in its row again.
    pub fn key_up(&self, key: Keys) {
        let (mut st, handle) = self.state.acquire_write();
        st.key_up(key);
        handle.release_write(st);
    }

    /// A consistent copy of the current state.
    pub fn snapshot(&self) -> (r: KeyState)
        ensures
            r.wf(),
    {
        let handle = self.state.acquire_read();
        let r = *handle.borrow();
        handle.release_read();
        r
    }
}

proof fn lemma_column_mask(val: u8)
    by (bit_vector)
    ensures
        (val & 0x30) & 0xCF == 0,
{
}

proof fn lemma_row_masks(a: u8, d: u8)
    by (bit_vector)
    ensures
        a & 0xE == a & (0x0F ^ 0x1u8),
        a & 0xD == a & (0x0F ^ 0x2u8),
        a & 0xB == a & (0x0F ^ 0x4u8),
        a & 0x7 == a & (0x0F ^ 0x8u8),
        d & 0xE == d & (0x0F ^ 0x1u8),
        d & 0xD == d & (0x0F ^ 0x2u8),
        d & 0xB == d & (0x0F ^ 0x4u8),
        d & 0x7 == d & (0x0F ^ 0x8u8),
        a & 0xE <= 0x0F && a & 0xD <= 0x0F && a & 0xB <= 0x0F && a & 0x7 <= 0x0F,
        d & 0xE <= 0x0F && d & 0xD <= 0x0F && d & 0xB <= 0x0F && d & 0x7 <= 0x0F,
        a <= 0x0F ==> (a | 1) <= 0x0F && (a | 2) <= 0x0F && (a | 4) <= 0x0F && (a | 8) <= 0x0F,
        d <= 0x0F ==> (d | 1) <= 0x0F && (d | 2) <= 0x0F && (d | 4) <= 0x0F && (d | 8) <= 0x0F,
{
}

} // verus!
