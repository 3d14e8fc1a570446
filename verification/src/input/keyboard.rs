use vstd::prelude::*;

verus! {

/// One of the 16 keys of the target machine's 4x4 keypad.
#[derive(Clone, Copy, Debug, PartialEq, Eq, Structural)]
pub enum Key {
    Key1,
    Key2,
    Key3,
    KeyC,
    Key4,
    Key5,
    Key6,
    KeyD,
    Key7,
    Key8,
    Key9,
    KeyE,
    KeyA,
    Key0,
    KeyB,
    KeyF,
}

/// The logical code of a key: the value 0x0 through 0xF that the machine's
/// programs see.
pub open spec fn key_code(key: Key) -> u8 {
    match key {
        Key::Key1 => 0x1,
        Key::Key2 => 0x2,
        Key::Key3 => 0x3,
        Key::KeyC => 0xc,
        Key::Key4 => 0x4,
        Key::Key5 => 0x5,
        Key::Key6 => 0x6,
        Key::KeyD => 0xd,
        Key::Key7 => 0x7,
        Key::Key8 => 0x8,
        Key::Key9 => 0x9,
        Key::KeyE => 0xe,
        Key::KeyA => 0xa,
        Key::Key0 => 0x0,
        Key::KeyB => 0xb,
        Key::KeyF => 0xf,
    }
}

impl Key {
    /// The logical code of this key, a value below 16.
    pub fn get_code(&self) -> (r: u8)
        ensures
            r == key_code(*self),
            r < 16,
    {
        match self {
            Key::Key1 => 0x1,
            Key::Key2 => 0x2,
            Key::Key3 => 0x3,
            Key::KeyC => 0xc,
            Key::Key4 => 0x4,
            Key::Key5 => 0x5,
            Key::Key6 => 0x6,
            Key::KeyD => 0xd,
            Key::Key7 => 0x7,
            Key::Key8 => 0x8,
            Key::Key9 => 0x9,
            Key::KeyE => 0xe,
            Key::KeyA => 0xa,
            Key::Key0 => 0x0,
            Key::KeyB => 0xb,
            Key::KeyF => 0xf,
        }
    }
}

/// A read-only snapshot of the keypad, freshly supplied by the caller each
/// cycle: for each logical code, whether that key is down. Viewed as a
/// sequence of 16 booleans indexed by code.
pub struct Keyboard {
    key_status: Vec<bool>,
}

impl View for Keyboard {
    type V = Seq<bool>;

    closed spec fn view(&self) -> Seq<bool> {
        self.key_status@
    }
}

/// The first pressed code in the snapshot, scanning codes 0x0 upward;
/// `None` when no key is down. The scan gives the snapshot a fixed
/// first-match policy when several keys are down at once.
pub open spec fn first_pressed_from(s: Seq<bool>, k: int) -> Option<u8>
    decreases 16 - k,
{
    if k < 0 || k >= 16 {
        None
    } else if s[k] {
        Some(k as u8)
    } else {
        first_pressed_from(s, k + 1)
    }
}

/// The pressed key the snapshot reports, if any.
pub open spec fn pressed_key(s: Seq<bool>) -> Option<u8> {
    first_pressed_from(s, 0)
}

impl Keyboard {
    /// The snapshot is a status flag for each of the 16 codes.
    pub open spec fn wf(&self) -> bool {
        self@.len() == 16
    }

    /// A snapshot with no key down.
    pub fn new() -> (r: Self)
        ensures
            r.wf(),
            forall|k: int| 0 <= k < 16 ==> !r@[k],
    {
        let key_status: Vec<bool> = vec![
            false, false, false, false,
            false, false, false, false,
            false, false, false, false,
            false, false, false, false,
        ];
        Keyboard { key_status }
    }

    /// Records that `key` is down.
    pub fn press(&mut self, key: Key)
        requires
            old(self).wf(),
        ensures
            final(self).wf(),
            final(self)@ == old(self)@.update(key_code(key) as int, true),
    {
        let code = key.get_code();
        self.key_status[code as usize] = true;
    }

    /// The logical code of the pressed key, if any; of several pressed
    /// keys the one with the lowest code is reported.
    pub fn get_pressed_key(&self) -> (r: Option<u8>)
        requires
            self.wf(),
        ensures
            r == pressed_key(self@),
    {
        let mut k: u8 = 0;
        while k < 16
            invariant
                self.wf(),
                0 <= k <= 16,
                pressed_key(self@) == first_pressed_from(self@, k as int),
            decreases 16 - k,
        {
            if self.key_status[k as usize] {
                return Some(k);
            }
            k = k + 1;
        }
        None
    }
}

} // verus!
