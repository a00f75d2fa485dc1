//! The bus of the machine: address space, bit-shifter, input latch and
//! interrupt queue behind the reads, writes and port accesses of the
//! processor.

use crate::input::{Button, InvadersInputState};
use crate::interrupts::InterruptQueue;
use crate::memory;
use crate::memory::AddressSpace;
use crate::shifter::{ShiftRegister, ShiftState};
use vstd::prelude::*;

verus! {

/// Input port that returns the first field of the latch.
pub const INPUT_PORT_A: u8 = 1;

/// Input port that returns the second field of the latch.
pub const INPUT_PORT_B: u8 = 2;

/// Input port that returns the window of the bit-shifter.
pub const SHIFT_READ_PORT: u8 = 3;

/// Output port that sets the window offset of the bit-shifter.
pub const SHIFT_OFFSET_PORT: u8 = 2;

/// Output port that feeds a byte into the bit-shifter.
pub const SHIFT_DATA_PORT: u8 = 4;

/// The watchdog, as input and as output port. Nothing is behind it.
pub const WATCHDOG_PORT: u8 = 6;

/// The byte that a read returns where no device answers.
pub const OPEN_BUS: u8 = 0xFF;

/// Whether a device answers reads of `port`.
pub open spec fn answers_in(port: u8) -> bool {
    port == INPUT_PORT_A || port == INPUT_PORT_B || port == SHIFT_READ_PORT || port
        == WATCHDOG_PORT
}

/// Whether a device takes writes to `port`.
pub open spec fn answers_out(port: u8) -> bool {
    port == SHIFT_OFFSET_PORT || port == SHIFT_DATA_PORT || port == WATCHDOG_PORT
}

/// Whether a device answers reads of `port`. A read of any other port is not
/// an error; callers can use this to report it.
pub fn is_in_port(port: u8) -> (known: bool)
    ensures
        known == answers_in(port),
{
    port == INPUT_PORT_A || port == INPUT_PORT_B || port == SHIFT_READ_PORT || port
        == WATCHDOG_PORT
}

/// Whether a device takes writes to `port`. A write to any other port is not
/// an error; callers can use this to report it.
pub fn is_out_port(port: u8) -> (known: bool)
    ensures
        known == answers_out(port),
{
    port == SHIFT_OFFSET_PORT || port == SHIFT_DATA_PORT || port == WATCHDOG_PORT
}

/// Everything the bus holds, as plain values.
pub struct BusView {
    /// The cells of the address space, `memory::CELL_COUNT` of them.
    pub cells: Seq<u8>,
    /// The bit-shifter.
    pub shifter: ShiftState,
    /// The input latch.
    pub inputs: InvadersInputState,
    /// The pending interrupt vectors, oldest first.
    pub interrupts: Seq<u8>,
}

impl BusView {
    /// What holds of the view of every bus.
    pub open spec fn wf(self) -> bool {
        &&& self.cells.len() == memory::CELL_COUNT
        &&& self.shifter.wf()
    }

    /// The bus with other cells and everything else as before.
    pub open spec fn with_cells(self, cells: Seq<u8>) -> BusView {
        BusView { cells, ..self }
    }

    /// The byte that a read of `addr` returns.
    pub open spec fn read_b(self, addr: u16) -> u8 {
        memory::read(self.cells, addr)
    }

    /// The word that a read of `addr` and `addr + 1` returns.
    pub open spec fn read_w(self, addr: u16) -> int {
        memory::read_word(self.cells, addr)
    }

    /// The bus after running code wrote `value` to `addr`.
    pub open spec fn write_b(self, addr: u16, value: u8) -> BusView {
        self.with_cells(memory::write(self.cells, addr, value))
    }

    /// The bus after running code wrote `word` to `addr` and `addr + 1`.
    pub open spec fn write_w(self, addr: u16, word: u16) -> BusView {
        self.with_cells(memory::write_word(self.cells, addr, word))
    }

    /// The bus after `value` was placed at `addr`, in any region.
    pub open spec fn write_b_unrestricted(self, addr: u16, value: u8) -> BusView {
        self.with_cells(memory::store(self.cells, addr, value))
    }

    /// The bus after the image `bytes` was installed at `base`.
    pub open spec fn write_buffer(self, base: u16, bytes: Seq<u8>) -> BusView {
        self.with_cells(memory::load(self.cells, base, bytes))
    }

    /// The byte that a read of the input port `port` returns.
    pub open spec fn in_value(self, port: u8) -> u8 {
        if port == INPUT_PORT_A {
            self.inputs.port_a()
        } else if port == INPUT_PORT_B {
            self.inputs.port_b()
        } else if port == SHIFT_READ_PORT {
            self.shifter.window()
        } else {
            OPEN_BUS
        }
    }

    /// The bus after a read of the input port `port`. Only a read of the
    /// first input port leaves a trace: it clears the coin bit.
    pub open spec fn after_in(self, port: u8) -> BusView {
        if port == INPUT_PORT_A {
            BusView { inputs: self.inputs.after_port_a(), ..self }
        } else {
            self
        }
    }

    /// The bus after `data` was written to the output port `port`. A write to
    /// the watchdog or to a port without a device changes nothing.
    pub open spec fn after_out(self, port: u8, data: u8) -> BusView {
        if port == SHIFT_OFFSET_PORT {
            BusView { shifter: self.shifter.with_offset(data), ..self }
        } else if port == SHIFT_DATA_PORT {
            BusView { shifter: self.shifter.loaded(data), ..self }
        } else {
            self
        }
    }

    /// The bus after `vector` joined the pending interrupts.
    pub open spec fn push_interrupt(self, vector: u8) -> BusView {
        BusView { interrupts: self.interrupts.push(vector), ..self }
    }

    /// The bus after the oldest pending interrupt was taken.
    pub open spec fn drop_interrupt(self) -> BusView {
        BusView { interrupts: self.interrupts.drop_first(), ..self }
    }

    /// The bus after `button` went down.
    pub open spec fn press(self, button: Button) -> BusView {
        BusView { inputs: self.inputs.pressed(button), ..self }
    }

    /// The bus after `button` came up.
    pub open spec fn release(self, button: Button) -> BusView {
        BusView { inputs: self.inputs.released(button), ..self }
    }
}

/// The bus of the machine.
pub struct InvadersBus {
    memory: AddressSpace,
    shifter: ShiftRegister,
    inputs: InvadersInputState,
    interrupts: InterruptQueue,
}

impl View for InvadersBus {
    type V = BusView;

    closed spec fn view(&self) -> BusView {
        BusView {
            cells: self.memory@,
            shifter: self.shifter@,
            inputs: self.inputs,
            interrupts: self.interrupts@,
        }
    }
}

impl InvadersBus {
    /// The view of every bus is well-formed.
    pub proof fn lemma_wf(&self)
        ensures
            self@.wf(),
    {
        self.memory.lemma_cell_count();
        self.shifter.lemma_wf();
    }

    /// A bus with all memory zero, the bit-shifter zero, no interrupt
    /// pending, and `inputs` as the state of the latch.
    pub fn new(inputs: InvadersInputState) -> (bus: Self)
        ensures
            bus@ == (BusView {
                cells: Seq::new(memory::CELL_COUNT as nat, |i: int| 0u8),
                shifter: ShiftState { value: 0, offset: 0 },
                inputs,
                interrupts: Seq::<u8>::empty(),
            }),
    {
        InvadersBus {
            memory: AddressSpace::new(),
            shifter: ShiftRegister::new(),
            inputs,
            interrupts: InterruptQueue::new(),
        }
    }

    /// Places `b` at `a` in any region, program memory included.
    pub fn write_b_unrestricted(&mut self, a: u16, b: u8)
        ensures
            final(self)@ == old(self)@.write_b_unrestricted(a, b),
    {
        self.memory.store_byte(a, b);
    }

    /// Removes and returns the oldest pending interrupt vector. One must be
    /// pending: check `has_interrupt` first.
    pub fn get_interrupt(&mut self) -> (vector: u8)
        requires
            old(self)@.interrupts.len() > 0,
        ensures
            vector == old(self)@.interrupts.first(),
            final(self)@ == old(self)@.drop_interrupt(),
    {
        self.interrupts.pop()
    }

    /// Whether an interrupt vector is pending. Takes nothing from the queue.
    pub fn has_interrupt(&self) -> (pending: bool)
        ensures
            pending == (self@.interrupts.len() > 0),
    {
        self.interrupts.has_pending()
    }

    /// Appends `b` to the pending interrupt vectors.
    pub fn push_interrupt(&mut self, b: u8)
        ensures
            final(self)@ == old(self)@.push_interrupt(b),
    {
        self.interrupts.push(b);
    }

    /// Reads the input port `b`. A port without a device reads as `OPEN_BUS`.
    pub fn in_b(&mut self, b: u8) -> (value: u8)
        ensures
            value == old(self)@.in_value(b),
            final(self)@ == old(self)@.after_in(b),
    {
        if b == INPUT_PORT_A {
            self.inputs.read_port_a()
        } else if b == INPUT_PORT_B {
            self.inputs.read_port_b()
        } else if b == SHIFT_READ_PORT {
            self.shifter.window()
        } else {
            OPEN_BUS
        }
    }

    /// Writes `a` to the output port `b`. A write to a port without a device
    /// is dropped.
    pub fn out_b(&mut self, b: u8, a: u8)
        ensures
            final(self)@ == old(self)@.after_out(b, a),
    {
        if b == SHIFT_OFFSET_PORT {
            self.shifter.set_offset(a);
        } else if b == SHIFT_DATA_PORT {
            self.shifter.load(a);
        }
    }

    /// Reads the byte at `a`. Total over the 16-bit range and free of
    /// effects.
    pub fn read_b(&self, a: u16) -> (value: u8)
        ensures
            value == self@.read_b(a),
    {
        self.memory.read_byte(a)
    }

    /// Reads the little-endian word at `a` and `a + 1`.
    pub fn read_w(&self, a: u16) -> (word: u16)
        requires
            a < 0xFFFF,
        ensures
            word == self@.read_w(a),
    {
        self.memory.read_word(a)
    }

    /// Writes `b` to `a` as running code does: a write to program memory is
    /// dropped without an error.
    pub fn write_b(&mut self, a: u16, b: u8)
        ensures
            final(self)@ == old(self)@.write_b(a, b),
    {
        self.memory.write_byte(a, b);
    }

    /// Writes `w` to `a` and `a + 1` as running code does, low byte at `a`.
    pub fn write_w(&mut self, a: u16, w: u16)
        requires
            a < 0xFFFF,
        ensures
            final(self)@ == old(self)@.write_w(a, w),
    {
        self.memory.write_word(a, w);
    }

    /// Installs the image `data` at `a`, `a + 1`, ..., in any region, program
    /// memory included. Every byte must have a 16-bit address.
    pub fn write_buffer(&mut self, a: u16, data: Vec<u8>)
        requires
            a + data@.len() <= 0x1_0000,
        ensures
            final(self)@ == old(self)@.write_buffer(a, data@),
    {
        self.memory.load_image(a, data.as_slice());
    }

    /// The state of the input latch.
    pub fn inputs(&self) -> (latch: InvadersInputState)
        ensures
            latch == self@.inputs,
    {
        self.inputs
    }

    /// Sets the bit of `button` in the input latch.
    pub fn press(&mut self, button: Button)
        ensures
            final(self)@ == old(self)@.press(button),
    {
        self.inputs.press(button);
    }

    /// Clears the bit of `button` in the input latch.
    pub fn release(&mut self, button: Button)
        ensures
            final(self)@ == old(self)@.release(button),
    {
        self.inputs.release(button);
    }
}

/// The state of the bit-shifter after the offset `offset` was written and
/// then the bytes `first` and `second` were fed in: the second byte is the
/// high byte of the register, the first its low byte. The read port then
/// shows the register shifted right by `10 - offset % 8` bits, cut to eight
/// bits, whatever the bit-shifter held before.
pub proof fn lemma_shift_read_after_two_loads(bus: BusView, offset: u8, first: u8, second: u8)
    ensures
        ({
            let after = bus.after_out(SHIFT_OFFSET_PORT, offset).after_out(
                SHIFT_DATA_PORT,
                first,
            ).after_out(SHIFT_DATA_PORT, second);
            let register = ((second as u16) << 8) | (first as u16);
            &&& after.shifter == (ShiftState { value: register, offset: offset & 0b111 })
            &&& after.shifter.wf()
            &&& after.in_value(SHIFT_READ_PORT) == ((register >> ((10 - (offset & 0b111)) as u16))
                & 0xFF) as u8
            &&& after.cells == bus.cells
            &&& after.inputs == bus.inputs
            &&& after.interrupts == bus.interrupts
        }),
{
    let before = bus.shifter.value;
    assert((((before >> 8) | ((first as u16) << 8)) >> 8) | ((second as u16) << 8) == ((second as u16)
        << 8) | (first as u16)) by (bit_vector);
    assert(offset & 0b111 <= 7) by (bit_vector);
}

/// Whether the window of the bit-shifter, after `high` and then `low` were
/// fed in under the offset `offset`, shows the byte that a window anchored at
/// bit 8 of the word `high:low` would show. It does for some inputs only:
/// the register holds the bytes in the order `low:high`, and its window is
/// anchored at bit 10.
pub open spec fn window_matches_byte_anchor(offset: u8, high: u8, low: u8) -> bool {
    let register = ((low as u16) << 8) | (high as u16);
    let word = ((high as u16) << 8) | (low as u16);
    (ShiftState { value: register, offset: offset & 0b111 }).window() == ((word >> ((8 - (offset
        & 0b111)) as u16)) & 0xFF) as u8
}

/// On the inputs for which `window_matches_byte_anchor` holds, the read port
/// shows, after the offset `offset` was written and `high` and then `low`
/// were fed in, the word `high:low` shifted right by `8 - offset % 8` bits
/// and cut to eight bits.
pub proof fn lemma_shift_read_at_byte_anchor(bus: BusView, offset: u8, high: u8, low: u8)
    requires
        window_matches_byte_anchor(offset, high, low),
    ensures
        ({
            let after = bus.after_out(SHIFT_OFFSET_PORT, offset).after_out(
                SHIFT_DATA_PORT,
                high,
            ).after_out(SHIFT_DATA_PORT, low);
            let word = ((high as u16) << 8) | (low as u16);
            after.in_value(SHIFT_READ_PORT) == ((word >> ((8 - (offset & 0b111)) as u16)) & 0xFF) as u8
        }),
{
    lemma_shift_read_after_two_loads(bus, offset, high, low);
}

/// A coin is seen by one read: with the coin bit set in the latch, a read of
/// the first input port returns it set, and the read after it, with no new
/// coin in between, returns it cleared. Nothing but the coin bit changes.
pub proof fn lemma_coin_read_once(bus: BusView)
    requires
        bus.inputs.is_down(Button::Coin),
    ensures
        bus.in_value(INPUT_PORT_A) & 1 == 1,
        bus.after_in(INPUT_PORT_A).in_value(INPUT_PORT_A) & 1 == 0,
        bus.after_in(INPUT_PORT_A).in_value(INPUT_PORT_A) & 0xFE == bus.in_value(INPUT_PORT_A)
            & 0xFE,
        bus.after_in(INPUT_PORT_A) == (BusView { inputs: bus.inputs.released(Button::Coin), ..bus }),
{
    crate::input::lemma_coin_is_seen_once(bus.inputs);
    let f = bus.inputs.first;
    assert(f & 0xFE == f & !1u8) by (bit_vector);
}

/// Reads of the second input port, of the bit-shifter, of the watchdog and of
/// ports without a device leave the bus as it was; the latter two return
/// `OPEN_BUS`. Writes to the watchdog and to ports without a device leave the
/// bus as it was.
pub proof fn lemma_idle_ports(bus: BusView, port: u8, data: u8)
    ensures
        port != INPUT_PORT_A ==> bus.after_in(port) == bus,
        port == WATCHDOG_PORT || !answers_in(port) ==> bus.in_value(port) == OPEN_BUS,
        port == WATCHDOG_PORT || !answers_out(port) ==> bus.after_out(port, data) == bus,
{
}

} // verus!
