//! Keyboard input bookkeeping: one packed state byte per key, plus the
//! table of all keys that the window loop polls into.

use vstd::prelude::*;

verus! {

/// Bit of the state byte that records whether the key is held down.
pub const PRESSED_BIT: u8 = 0x01;
/// Bit that records that the key went down on the most recent poll.
pub const JUST_PRESSED_BIT: u8 = 0x02;
/// Bit that records that the key went up on the most recent poll.
pub const JUST_UNPRESSED_BIT: u8 = 0x04;

/// Number of distinct key codes the global table tracks.
pub const KEY_COUNT: usize = 162;

/// One key's state, packed as a bitmask over the three bits above.
#[derive(Clone, Copy)]
pub struct InputKey {
    state: u8,
}

impl InputKey {
    /// Whether the key is currently held down.
    pub closed spec fn pressed(&self) -> bool {
        self.state & PRESSED_BIT == PRESSED_BIT
    }

    /// Whether the key went down on the most recent poll.
    pub closed spec fn just_pressed(&self) -> bool {
        self.state & JUST_PRESSED_BIT == JUST_PRESSED_BIT
    }

    /// Whether the key went up on the most recent poll.
    pub closed spec fn just_unpressed(&self) -> bool {
        self.state & JUST_UNPRESSED_BIT == JUST_UNPRESSED_BIT
    }

    /// A fresh key: not pressed, no edge recorded.
    pub fn new() -> (r: Self)
        ensures
            !r.pressed(),
            !r.just_pressed(),
            !r.just_unpressed(),
    {
        proof {
            assert(0u8 & 0x01 != 0x01 && 0u8 & 0x02 != 0x02 && 0u8 & 0x04 != 0x04) by (bit_vector);
        }
        Self { state: 0 }
    }

    /// Record a key-down event: the key becomes pressed, and the
    /// just-pressed edge is set exactly when the key was up before.
    pub fn key_pressed(&mut self)
        ensures
            final(self).pressed(),
            final(self).just_pressed() == !old(self).pressed(),
            final(self).just_unpressed() == old(self).just_unpressed(),
    {
        let s: u8 = self.state;
        if self.is_pressed() {
            self.state = self.state & 0xfd;
        } else {
            self.state = self.state | 0x02;
        }
        self.state = self.state | 0x01;
        proof {
            assert((s & 0x01 == 0x01) ==> {
                let t = (s & 0xfd) | 0x01;
                &&& t & 0x01 == 0x01
                &&& t & 0x02 != 0x02
                &&& (t & 0x04 == 0x04) == (s & 0x04 == 0x04)
            }) by (bit_vector);
            assert((s & 0x01 != 0x01) ==> {
                let t = (s | 0x02) | 0x01;
                &&& t & 0x01 == 0x01
                &&& t & 0x02 == 0x02
                &&& (t & 0x04 == 0x04) == (s & 0x04 == 0x04)
            }) by (bit_vector);
        }
    }

    /// Record a key-up event: the key becomes unpressed, and the
    /// just-unpressed edge is set exactly when the key was down before.
    pub fn key_unpressed(&mut self)
        ensures
            !final(self).pressed(),
            final(self).just_unpressed() == old(self).pressed(),
            final(self).just_pressed() == old(self).just_pressed(),
    {
        let s: u8 = self.state;
        if !self.is_pressed() {
            self.state = self.state & 0xfb;
        } else {
            self.state = self.state | 0x04;
        }
        self.state = self.state & 0xfe;
        proof {
            assert((s & 0x01 != 0x01) ==> {
                let t = (s & 0xfb) & 0xfe;
                &&& t & 0x01 != 0x01
                &&& t & 0x04 != 0x04
                &&& (t & 0x02 == 0x02) == (s & 0x02 == 0x02)
            }) by (bit_vector);
            assert((s & 0x01 == 0x01) ==> {
                let t = (s | 0x04) & 0xfe;
                &&& t & 0x01 != 0x01
                &&& t & 0x04 == 0x04
                &&& (t & 0x02 == 0x02) == (s & 0x02 == 0x02)
            }) by (bit_vector);
        }
    }

    /// Apply one polled element state: down events go through
    /// `key_pressed`, up events through `key_unpressed`.
    pub fn poll(&mut self, pressed: bool)
        ensures
            final(self).pressed() == pressed,
            pressed ==> final(self).just_pressed() == !old(self).pressed(),
            pressed ==> final(self).just_unpressed() == old(self).just_unpressed(),
            !pressed ==> final(self).just_unpressed() == old(self).pressed(),
            !pressed ==> final(self).just_pressed() == old(self).just_pressed(),
    {
        if pressed {
            self.key_pressed();
        } else {
            self.key_unpressed();
        }
    }

    /// Whether the key is currently held down.
    pub fn is_pressed(&self) -> (r: bool)
        ensures
            r == self.pressed(),
    {
        (self.state & 0x01) == 0x01
    }

    /// Whether the key went down on the most recent poll.
    pub fn is_just_pressed(&self) -> (r: bool)
        ensures
            r == self.just_pressed(),
    {
        (self.state & 0x02) == 0x02
    }

    /// Whether the key went up on the most recent poll.
    pub fn is_just_unpressed(&self) -> (r: bool)
        ensures
            r == self.just_unpressed(),
    {
        (self.state & 0x04) == 0x04
    }
}

/// The table of every key the window loop reports, indexed by key code.
pub struct GlobalInputState {
    inputs: Vec<InputKey>,
}

impl GlobalInputState {
    /// One key's state, as seen by the table.
    pub closed spec fn key(&self, code: int) -> InputKey {
        self.inputs@[code]
    }

    /// How many key codes the table holds.
    pub closed spec fn len(&self) -> nat {
        self.inputs@.len()
    }

    /// A fresh table: every key unpressed with no edges recorded.
    pub fn new() -> (r: Self)
        ensures
            r.len() == KEY_COUNT,
            forall|c: int| 0 <= c < KEY_COUNT ==> {
                &&& !(#[trigger] r.key(c)).pressed()
                &&& !r.key(c).just_pressed()
                &&& !r.key(c).just_unpressed()
            },
    {
        let mut inputs: Vec<InputKey> = Vec::new();
        let mut i: usize = 0;
        while i < KEY_COUNT
            invariant
                i <= KEY_COUNT,
                inputs@.len() == i,
                forall|c: int| 0 <= c < i ==> {
                    &&& !(#[trigger] inputs@[c]).pressed()
                    &&& !inputs@[c].just_pressed()
                    &&& !inputs@[c].just_unpressed()
                },
            decreases KEY_COUNT - i,
        {
            inputs.push(InputKey::new());
            i = i + 1;
        }
        Self { inputs }
    }

    /// Apply one polled event for the key with the given code; all other
    /// keys keep their state.
    pub fn poll(&mut self, code: usize, pressed: bool)
        requires
            code < old(self).len(),
        ensures
            final(self).len() == old(self).len(),
            final(self).key(code as int).pressed() == pressed,
            pressed ==> final(self).key(code as int).just_pressed()
                == !old(self).key(code as int).pressed(),
            !pressed ==> final(self).key(code as int).just_unpressed()
                == old(self).key(code as int).pressed(),
            forall|c: int| 0 <= c < old(self).len() && c != code
                ==> #[trigger] final(self).key(c) == old(self).key(c),
    {
        let k = &mut self.inputs[code];
        k.poll(pressed);
    }

    /// Whether the key with the given code is currently held down.
    pub fn is_pressed(&self, code: usize) -> (r: bool)
        requires
            code < self.len(),
        ensures
            r == self.key(code as int).pressed(),
    {
        self.inputs[code].is_pressed()
    }

    /// Whether the key with the given code went down on the most recent poll.
    pub fn is_just_pressed(&self, code: usize) -> (r: bool)
        requires
            code < self.len(),
        ensures
            r == self.key(code as int).just_pressed(),
    {
        self.inputs[code].is_just_pressed()
    }

    /// Whether the key with the given code went up on the most recent poll.
    pub fn is_just_unpressed(&self, code: usize) -> (r: bool)
        requires
            code < self.len(),
        ensures
            r == self.key(code as int).just_unpressed(),
    {
        self.inputs[code].is_just_unpressed()
    }
}

} // verus!
