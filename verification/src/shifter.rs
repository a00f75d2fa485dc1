//! The bit-shifter peripheral: a 16-bit register that is fed one byte at a
//! time and read back through an 8-bit window placed by a 3-bit offset.

use vstd::prelude::*;

verus! {

/// What the peripheral holds, as plain values.
pub struct ShiftState {
    /// The 16-bit register.
    pub value: u16,
    /// The window offset.
    pub offset: u8,
}

impl ShiftState {
    /// The offset is a 3-bit number.
    pub open spec fn wf(self) -> bool {
        self.offset <= 7
    }

    /// The state after `byte` was fed in: the low byte of the register is
    /// discarded, the high byte moves down, and `byte` becomes the high byte.
    pub open spec fn loaded(self, byte: u8) -> ShiftState {
        ShiftState { value: (self.value >> 8) | ((byte as u16) << 8), offset: self.offset }
    }

    /// The state after `data` was written to the offset control: only its low
    /// three bits are kept.
    pub open spec fn with_offset(self, data: u8) -> ShiftState {
        ShiftState { value: self.value, offset: data & 0b111 }
    }

    /// The byte seen through the window: the register shifted right by
    /// `10 - offset` bits, cut to eight bits. The window is anchored at bit 10
    /// of the register, two bits above the byte boundary.
    pub open spec fn window(self) -> u8 {
        ((self.value >> ((10 - self.offset) as u16)) & 0xFF) as u8
    }
}

/// The bit-shifter peripheral.
pub struct ShiftRegister {
    value: u16,
    offset: u8,
}

impl View for ShiftRegister {
    type V = ShiftState;

    /// The register and the offset. The offset is given by its low three
    /// bits, which are all the bits that the stored offset ever has: so the
    /// view of every value of this type is well-formed.
    closed spec fn view(&self) -> ShiftState {
        ShiftState { value: self.value, offset: self.offset & 0b111 }
    }
}

impl ShiftRegister {
    /// The stored offset never has a bit above its low three.
    #[verifier::type_invariant]
    spec fn offset_is_three_bits(self) -> bool {
        self.offset <= 7
    }

    /// The view of every peripheral is well-formed.
    pub proof fn lemma_wf(&self)
        ensures
            self@.wf(),
    {
        let offset = self.offset;
        assert(offset & 0b111 <= 7) by (bit_vector);
    }

    /// A peripheral with register and offset zero.
    pub fn new() -> (shifter: Self)
        ensures
            shifter@ == (ShiftState { value: 0, offset: 0 }),
    {
        assert(0u8 & 0b111 == 0) by (bit_vector);
        ShiftRegister { value: 0, offset: 0 }
    }

    /// Feeds `byte` into the register.
    pub fn load(&mut self, byte: u8)
        ensures
            final(self)@ == old(self)@.loaded(byte),
    {
        proof {
            use_type_invariant(&*self);
        }
        self.value = (self.value >> 8) | ((byte as u16) << 8);
    }

    /// Sets the window offset from the low three bits of `data`.
    pub fn set_offset(&mut self, data: u8)
        ensures
            final(self)@ == old(self)@.with_offset(data),
    {
        assert(data & 0b111 <= 7 && (data & 0b111) & 0b111 == data & 0b111) by (bit_vector);
        self.offset = data & 0b111;
    }

    /// Reads the byte seen through the window.
    pub fn window(&self) -> (byte: u8)
        ensures
            byte == self@.window(),
    {
        proof {
            use_type_invariant(self);
            let offset = self.offset;
            assert(offset <= 7 ==> offset & 0b111 == offset) by (bit_vector);
        }
        ((self.value >> (10 - self.offset)) & 0xFF) as u8
    }
}

} // verus!
