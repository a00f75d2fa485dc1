//! The input latch: two bytes of button and coin bits. The presentation side
//! sets and clears single bits; the port reads of the bus return them, and a
//! read of the first port clears the coin bit again.

use vstd::prelude::*;

verus! {

/// Bits that read as one on the first input port whatever the latch holds.
pub const PORT_A_STATUS: u8 = 0b1000_1000;

/// Bits that read as one on the second input port whatever the latch holds.
pub const PORT_B_STATUS: u8 = 0b0000_1000;

/// The named inputs of the cabinet. All of them live in the first field of
/// the latch.
#[derive(Clone, Copy, Debug, PartialEq, Eq, Structural)]
pub enum Button {
    /// A coin dropped into the slot.
    Coin,
    /// Start of a game for two players.
    StartTwoPlayers,
    /// Start of a game for one player.
    StartOnePlayer,
    /// Fire button of the first player.
    Fire,
    /// The first player moves left.
    Left,
    /// The first player moves right.
    Right,
}

impl Button {
    /// The single bit that stands for this input.
    pub open spec fn mask_of(self) -> u8 {
        match self {
            Button::Coin => 0b0000_0001,
            Button::StartTwoPlayers => 0b0000_0010,
            Button::StartOnePlayer => 0b0000_0100,
            Button::Fire => 0b0001_0000,
            Button::Left => 0b0010_0000,
            Button::Right => 0b0100_0000,
        }
    }

    /// The single bit that stands for this input.
    pub fn mask(self) -> (m: u8)
        ensures
            m == self.mask_of(),
    {
        match self {
            Button::Coin => 0b0000_0001,
            Button::StartTwoPlayers => 0b0000_0010,
            Button::StartOnePlayer => 0b0000_0100,
            Button::Fire => 0b0001_0000,
            Button::Left => 0b0010_0000,
            Button::Right => 0b0100_0000,
        }
    }
}

/// The two fields of the latch, one per input port.
#[derive(Clone, Copy, Debug, PartialEq, Eq, Structural)]
pub struct InvadersInputState {
    /// Bits returned by the first input port.
    pub first: u8,
    /// Bits returned by the second input port.
    pub second: u8,
}

impl InvadersInputState {
    /// Whether the bit of `button` is set.
    pub open spec fn is_down(self, button: Button) -> bool {
        self.first & button.mask_of() != 0
    }

    /// The latch after the bit of `button` was set.
    pub open spec fn pressed(self, button: Button) -> InvadersInputState {
        InvadersInputState { first: self.first | button.mask_of(), second: self.second }
    }

    /// The latch after the bit of `button` was cleared.
    pub open spec fn released(self, button: Button) -> InvadersInputState {
        InvadersInputState { first: self.first & !button.mask_of(), second: self.second }
    }

    /// The byte that a read of the first input port returns.
    pub open spec fn port_a(self) -> u8 {
        PORT_A_STATUS | self.first
    }

    /// The latch after a read of the first input port: the coin bit is
    /// cleared, so that a coin is seen by one read only.
    pub open spec fn after_port_a(self) -> InvadersInputState {
        InvadersInputState { first: self.first & 0xFE, second: self.second }
    }

    /// The byte that a read of the second input port returns.
    pub open spec fn port_b(self) -> u8 {
        PORT_B_STATUS | self.second
    }

    /// A latch with no bit set.
    pub fn new() -> (latch: Self)
        ensures
            latch == (InvadersInputState { first: 0, second: 0 }),
    {
        InvadersInputState { first: 0, second: 0 }
    }

    /// Sets the bit of `button`.
    pub fn press(&mut self, button: Button)
        ensures
            *final(self) == old(self).pressed(button),
    {
        self.first = self.first | button.mask();
    }

    /// Clears the bit of `button`.
    pub fn release(&mut self, button: Button)
        ensures
            *final(self) == old(self).released(button),
    {
        self.first = self.first & !button.mask();
    }

    /// Reads the first input port and clears the coin bit.
    pub fn read_port_a(&mut self) -> (byte: u8)
        ensures
            byte == old(self).port_a(),
            *final(self) == old(self).after_port_a(),
    {
        let value: u8 = self.first;
        self.first = self.first & 0xFE;
        PORT_A_STATUS | value
    }

    /// Reads the second input port.
    pub fn read_port_b(&self) -> (byte: u8)
        ensures
            byte == self.port_b(),
    {
        PORT_B_STATUS | self.second
    }
}

/// Pressing sets the bit of that button, releasing clears it, and neither
/// touches the bit of any other button nor the second field.
pub proof fn lemma_press_and_release(latch: InvadersInputState, button: Button, other: Button)
    ensures
        latch.pressed(button).is_down(button),
        !latch.released(button).is_down(button),
        other != button ==> latch.pressed(button).is_down(other) == latch.is_down(other),
        other != button ==> latch.released(button).is_down(other) == latch.is_down(other),
        latch.pressed(button).second == latch.second,
        latch.released(button).second == latch.second,
{
    let f = latch.first;
    let m = button.mask_of();
    let o = other.mask_of();
    assert(m == 1 || m == 2 || m == 4 || m == 16 || m == 32 || m == 64);
    assert(o == 1 || o == 2 || o == 4 || o == 16 || o == 32 || o == 64);
    assert(other != button ==> o != m);
    assert((f | m) & m != 0 && (f & !m) & m == 0) by (bit_vector)
        requires
            m == 1 || m == 2 || m == 4 || m == 16 || m == 32 || m == 64,
    ;
    assert(o != m ==> ((f | m) & o == f & o && (f & !m) & o == f & o)) by (bit_vector)
        requires
            m == 1 || m == 2 || m == 4 || m == 16 || m == 32 || m == 64,
            o == 1 || o == 2 || o == 4 || o == 16 || o == 32 || o == 64,
    ;
}

/// A coin is seen once: the read of the first input port that follows a coin
/// shows the coin bit, and the next read, with no coin in between, does not.
/// Every other bit of the latch is the same for both reads.
pub proof fn lemma_coin_is_seen_once(latch: InvadersInputState)
    requires
        latch.is_down(Button::Coin),
    ensures
        latch.port_a() & 1 == 1,
        latch.after_port_a().port_a() & 1 == 0,
        !latch.after_port_a().is_down(Button::Coin),
        latch.after_port_a().port_a() & 0xFE == latch.port_a() & 0xFE,
        latch.after_port_a().second == latch.second,
{
    let f = latch.first;
    assert(f & 1 != 0 ==> (0b1000_1000u8 | f) & 1 == 1) by (bit_vector);
    assert((0b1000_1000u8 | (f & 0xFE)) & 1 == 0) by (bit_vector);
    assert((f & 0xFE) & 1 == 0) by (bit_vector);
    assert((0b1000_1000u8 | (f & 0xFE)) & 0xFE == (0b1000_1000u8 | f) & 0xFE) by (bit_vector);
}

} // verus!
