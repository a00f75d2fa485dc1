use invaders_bus::bus::{
    is_in_port, is_out_port, INPUT_PORT_A, INPUT_PORT_B, OPEN_BUS, SHIFT_DATA_PORT,
    SHIFT_OFFSET_PORT, SHIFT_READ_PORT, WATCHDOG_PORT,
};
use invaders_bus::shifter::ShiftRegister;
use invaders_bus::{Button, InvadersBus, InvadersInputState};

fn fresh_bus() -> InvadersBus {
    InvadersBus::new(InvadersInputState { first: 0x00, second: 0x00 })
}

fn window_of(offset: u8, first: u8, second: u8) -> u8 {
    let mut bus = fresh_bus();
    bus.out_b(SHIFT_OFFSET_PORT, offset);
    bus.out_b(SHIFT_DATA_PORT, first);
    bus.out_b(SHIFT_DATA_PORT, second);
    bus.in_b(SHIFT_READ_PORT)
}

#[test]
fn port_numbers_are_those_of_the_cabinet() {
    assert_eq!(INPUT_PORT_A, 1);
    assert_eq!(INPUT_PORT_B, 2);
    assert_eq!(SHIFT_READ_PORT, 3);
    assert_eq!(SHIFT_OFFSET_PORT, 2);
    assert_eq!(SHIFT_DATA_PORT, 4);
    assert_eq!(WATCHDOG_PORT, 6);
    assert_eq!(OPEN_BUS, 0xFF);
}

#[test]
fn shifter_reads_zero_at_first() {
    let mut bus = fresh_bus();
    assert_eq!(bus.in_b(SHIFT_READ_PORT), 0x00);
}

#[test]
fn shifter_window_after_two_loads() {
    assert_eq!(window_of(0, 0xAA, 0xFF), 0x3F);
    assert_eq!(window_of(1, 0xAA, 0xFF), 0x7F);
    assert_eq!(window_of(2, 0xAA, 0xFF), 0xFF);
    assert_eq!(window_of(3, 0xAA, 0xFF), 0xFF);
    assert_eq!(window_of(4, 0xAA, 0xFF), 0xFE);
    assert_eq!(window_of(5, 0xAA, 0xFF), 0xFD);
    assert_eq!(window_of(6, 0xAA, 0xFF), 0xFA);
    assert_eq!(window_of(7, 0xAA, 0xFF), 0xF5);
}

#[test]
fn shifter_window_is_anchored_at_bit_ten() {
    for offset in 0..8u8 {
        for (first, second) in [(0x12u8, 0x34u8), (0xFF, 0x00), (0x00, 0xFF), (0x81, 0x7E)] {
            let register = ((second as u16) << 8) | first as u16;
            let expected = ((register >> (10 - offset)) & 0xFF) as u8;
            assert_eq!(window_of(offset, first, second), expected);
        }
    }
}

#[test]
fn shifter_second_load_becomes_the_high_byte() {
    assert_eq!(window_of(2, 0x12, 0x34), 0x34);
    assert_eq!(window_of(2, 0x34, 0x12), 0x12);
    assert_eq!(window_of(0, 0xFF, 0x00), 0x00);
    assert_eq!(window_of(0, 0x00, 0xFF), 0x3F);
}

#[test]
fn shifter_single_load_on_a_zero_register() {
    let mut bus = fresh_bus();
    bus.out_b(SHIFT_DATA_PORT, 0x12);
    assert_eq!(bus.in_b(SHIFT_READ_PORT), 0x04);
    bus.out_b(SHIFT_OFFSET_PORT, 2);
    assert_eq!(bus.in_b(SHIFT_READ_PORT), 0x12);
}

#[test]
fn shifter_third_load_pushes_the_first_out() {
    let mut bus = fresh_bus();
    bus.out_b(SHIFT_OFFSET_PORT, 7);
    bus.out_b(SHIFT_DATA_PORT, 0x11);
    bus.out_b(SHIFT_DATA_PORT, 0x22);
    bus.out_b(SHIFT_DATA_PORT, 0x33);
    assert_eq!(bus.in_b(SHIFT_READ_PORT), ((0x3322u16 >> 3) & 0xFF) as u8);
    assert_eq!(bus.in_b(SHIFT_READ_PORT), 0x64);
}

#[test]
fn shifter_offset_keeps_the_low_three_bits_of_the_data() {
    assert_eq!(window_of(0xFF, 0xAA, 0xFF), 0xF5);
    assert_eq!(window_of(0x08, 0xAA, 0xFF), 0x3F);
    assert_eq!(window_of(0xFA, 0xAA, 0xFF), 0xFF);
    assert_eq!(window_of(0x10 | 5, 0xAA, 0xFF), 0xFD);
}

#[test]
fn shifter_offset_stays_until_it_is_written_again() {
    let mut bus = fresh_bus();
    bus.out_b(SHIFT_OFFSET_PORT, 7);
    bus.out_b(SHIFT_DATA_PORT, 0xAA);
    bus.out_b(SHIFT_DATA_PORT, 0xFF);
    assert_eq!(bus.in_b(SHIFT_READ_PORT), 0xF5);
    assert_eq!(bus.in_b(SHIFT_READ_PORT), 0xF5);
    bus.out_b(SHIFT_OFFSET_PORT, 0);
    assert_eq!(bus.in_b(SHIFT_READ_PORT), 0x3F);
}

#[test]
fn shift_register_alone() {
    let mut shifter = ShiftRegister::new();
    assert_eq!(shifter.window(), 0x00);
    shifter.set_offset(0x0A);
    shifter.load(0x5A);
    shifter.load(0xC3);
    assert_eq!(shifter.window(), 0xC3);
    shifter.set_offset(6);
    assert_eq!(shifter.window(), ((0xC35Au16 >> 4) & 0xFF) as u8);
    assert_eq!(shifter.window(), 0x35);
}

#[test]
fn input_port_a_returns_the_coin_once() {
    let mut bus = InvadersBus::new(InvadersInputState { first: 0x01, second: 0x00 });
    assert_eq!(bus.in_b(INPUT_PORT_A), 0x89);
    assert_eq!(bus.in_b(INPUT_PORT_A), 0x88);
    assert_eq!(bus.in_b(INPUT_PORT_A), 0x88);
    assert_eq!(bus.inputs().first, 0x00);
}

#[test]
fn input_port_a_clears_nothing_but_the_coin() {
    let mut bus = InvadersBus::new(InvadersInputState { first: 0x15, second: 0x03 });
    assert_eq!(bus.in_b(INPUT_PORT_A), 0x9D);
    assert_eq!(bus.in_b(INPUT_PORT_A), 0x9C);
    assert_eq!(bus.inputs(), InvadersInputState { first: 0x14, second: 0x03 });
}

#[test]
fn input_port_a_shows_a_new_coin_again() {
    let mut bus = fresh_bus();
    bus.press(Button::Coin);
    assert_eq!(bus.in_b(INPUT_PORT_A) & 0x01, 0x01);
    assert_eq!(bus.in_b(INPUT_PORT_A) & 0x01, 0x00);
    bus.press(Button::Coin);
    assert_eq!(bus.in_b(INPUT_PORT_A) & 0x01, 0x01);
    assert_eq!(bus.in_b(INPUT_PORT_A) & 0x01, 0x00);
}

#[test]
fn input_port_a_without_any_input() {
    let mut bus = fresh_bus();
    assert_eq!(bus.in_b(INPUT_PORT_A), 0x88);
}

#[test]
fn input_port_b_returns_the_second_field_and_keeps_it() {
    let mut bus = InvadersBus::new(InvadersInputState { first: 0x01, second: 0x03 });
    assert_eq!(bus.in_b(INPUT_PORT_B), 0x0B);
    assert_eq!(bus.in_b(INPUT_PORT_B), 0x0B);
    assert_eq!(bus.inputs(), InvadersInputState { first: 0x01, second: 0x03 });
    let mut plain = fresh_bus();
    assert_eq!(plain.in_b(INPUT_PORT_B), 0x08);
}

#[test]
fn watchdog_reads_open_bus_and_ignores_writes() {
    let mut bus = InvadersBus::new(InvadersInputState { first: 0x01, second: 0x02 });
    bus.out_b(SHIFT_OFFSET_PORT, 2);
    bus.out_b(SHIFT_DATA_PORT, 0x77);
    assert_eq!(bus.in_b(WATCHDOG_PORT), 0xFF);
    bus.out_b(WATCHDOG_PORT, 0x55);
    assert_eq!(bus.in_b(SHIFT_READ_PORT), 0x77);
    assert_eq!(bus.inputs(), InvadersInputState { first: 0x01, second: 0x02 });
}

#[test]
fn unknown_ports_read_all_ones_and_ignore_writes() {
    let mut bus = InvadersBus::new(InvadersInputState { first: 0x01, second: 0x02 });
    bus.out_b(SHIFT_OFFSET_PORT, 2);
    bus.out_b(SHIFT_DATA_PORT, 0x77);
    bus.write_b(0x2000, 0x42);
    for port in [0u8, 5, 7, 8, 0x40, 0xFF] {
        assert_eq!(bus.in_b(port), 0xFF);
    }
    for port in [0u8, 1, 3, 5, 7, 0xFF] {
        bus.out_b(port, 0xA5);
    }
    assert_eq!(bus.in_b(SHIFT_READ_PORT), 0x77);
    assert_eq!(bus.read_b(0x2000), 0x42);
    assert_eq!(bus.inputs(), InvadersInputState { first: 0x01, second: 0x02 });
    assert!(!bus.has_interrupt());
}

#[test]
fn known_ports_are_told_from_unknown_ones() {
    for port in 0..=255u8 {
        assert_eq!(is_in_port(port), port == 1 || port == 2 || port == 3 || port == 6);
        assert_eq!(is_out_port(port), port == 2 || port == 4 || port == 6);
    }
}

#[test]
fn port_accesses_leave_memory_alone() {
    let mut bus = fresh_bus();
    bus.write_b(0x2400, 0x0F);
    bus.out_b(SHIFT_DATA_PORT, 0xFF);
    bus.out_b(SHIFT_OFFSET_PORT, 3);
    let _ = bus.in_b(INPUT_PORT_A);
    let _ = bus.in_b(SHIFT_READ_PORT);
    assert_eq!(bus.read_b(0x2400), 0x0F);
    assert_eq!(bus.read_b(0x2401), 0x00);
}

#[test]
fn buttons_have_their_own_bits() {
    assert_eq!(Button::Coin.mask(), 0x01);
    assert_eq!(Button::StartTwoPlayers.mask(), 0x02);
    assert_eq!(Button::StartOnePlayer.mask(), 0x04);
    assert_eq!(Button::Fire.mask(), 0x10);
    assert_eq!(Button::Left.mask(), 0x20);
    assert_eq!(Button::Right.mask(), 0x40);
}

#[test]
fn press_and_release_touch_one_bit() {
    let mut latch = InvadersInputState::new();
    assert_eq!(latch, InvadersInputState { first: 0x00, second: 0x00 });
    latch.press(Button::Fire);
    latch.press(Button::Left);
    assert_eq!(latch.first, 0x30);
    latch.press(Button::Fire);
    assert_eq!(latch.first, 0x30);
    latch.release(Button::Fire);
    assert_eq!(latch.first, 0x20);
    latch.release(Button::Right);
    assert_eq!(latch.first, 0x20);
    latch.press(Button::StartOnePlayer);
    latch.press(Button::StartTwoPlayers);
    latch.press(Button::Right);
    latch.press(Button::Coin);
    assert_eq!(latch.first, 0x67);
    assert_eq!(latch.second, 0x00);
}

#[test]
fn latch_port_reads() {
    let mut latch = InvadersInputState { first: 0x41, second: 0x80 };
    assert_eq!(latch.read_port_b(), 0x88);
    assert_eq!(latch.read_port_a(), 0xC9);
    assert_eq!(latch, InvadersInputState { first: 0x40, second: 0x80 });
    assert_eq!(latch.read_port_a(), 0xC8);
}

#[test]
fn buttons_reach_the_port_through_the_bus() {
    let mut bus = fresh_bus();
    bus.press(Button::Left);
    bus.press(Button::StartOnePlayer);
    assert_eq!(bus.in_b(INPUT_PORT_A), 0x88 | 0x20 | 0x04);
    bus.release(Button::Left);
    assert_eq!(bus.in_b(INPUT_PORT_A), 0x88 | 0x04);
    assert_eq!(bus.in_b(INPUT_PORT_B), 0x08);
}
