use mcu_hal::dac::{Channel, Dac, DacBits, DacRegBlock, DacRegsDual, DacRegsShared, Rcc, Trigger};

fn dual_dac(channel: Channel, bits: DacBits, vref_mv: u32) -> Dac<DacRegsDual> {
    let mut rcc = Rcc { apb1enr: 0, apb1rstr: 0 };
    Dac::new(DacRegsDual::new(), channel, bits, vref_mv, &mut rcc)
}

#[test]
fn trigger_bits_encoding() {
    assert_eq!(Trigger::Tim6.bits(), 0b000);
    assert_eq!(Trigger::Tim3_8.bits(), 0b001);
    assert_eq!(Trigger::Tim7.bits(), 0b010);
    assert_eq!(Trigger::Tim15.bits(), 0b011);
    assert_eq!(Trigger::Tim2.bits(), 0b100);
    assert_eq!(Trigger::Tim4.bits(), 0b101);
    assert_eq!(Trigger::Exti9.bits(), 0b110);
    assert_eq!(Trigger::Swtrig.bits(), 0b111);
}

#[test]
fn new_enables_and_resets_clock_domain() {
    let mut rcc = Rcc { apb1enr: 0, apb1rstr: 0 };
    let dac = Dac::new(DacRegsDual::new(), Channel::One, DacBits::TwelveR, 3300, &mut rcc);
    assert_eq!(rcc.apb1enr, 1 << 29);
    assert_eq!(rcc.apb1rstr, 0);
    assert_eq!(dac.vref_mv, 3300);
    assert_eq!(dac.regs.read_cr(), 0);
}

#[test]
fn new_keeps_other_clock_bits() {
    let mut rcc = Rcc { apb1enr: 0b1010, apb1rstr: 1 << 3 };
    let _dac = Dac::new(DacRegsDual::new(), Channel::Two, DacBits::EightR, 5000, &mut rcc);
    assert_eq!(rcc.apb1enr, 0b1010 | (1 << 29));
    assert_eq!(rcc.apb1rstr, 1 << 3);
}

#[test]
fn enable_twice_keeps_bit_set() {
    let mut dac = dual_dac(Channel::One, DacBits::TwelveR, 3300);
    dac.enable();
    let after_first = dac.regs.read_cr();
    dac.enable();
    let after_second = dac.regs.read_cr();
    assert_eq!(after_first, 1);
    assert_eq!(after_second, after_first);
}

#[test]
fn disable_twice_keeps_bit_clear() {
    let mut dac = dual_dac(Channel::Two, DacBits::TwelveR, 3300);
    dac.enable();
    assert_eq!(dac.regs.read_cr(), 1 << 16);
    dac.disable();
    let after_first = dac.regs.read_cr();
    dac.disable();
    let after_second = dac.regs.read_cr();
    assert_eq!(after_first, 0);
    assert_eq!(after_second, after_first);
}

#[test]
fn enable_channels_use_distinct_bits() {
    let mut one = dual_dac(Channel::One, DacBits::EightR, 3300);
    let mut two = dual_dac(Channel::Two, DacBits::EightR, 3300);
    one.enable();
    two.enable();
    assert_eq!(one.regs.read_cr(), 1 << 0);
    assert_eq!(two.regs.read_cr(), 1 << 16);
}

#[test]
fn set_value_routes_by_channel_and_precision() {
    let mut dac = dual_dac(Channel::One, DacBits::TwelveR, 3300);
    dac.set_value(100);
    assert_eq!(dac.regs.read_data(Channel::One, DacBits::TwelveR), 100);
    assert_eq!(dac.regs.read_data(Channel::One, DacBits::EightR), 0);
    assert_eq!(dac.regs.read_data(Channel::Two, DacBits::TwelveR), 0);
}

#[test]
fn set_value_truncates_at_field_width() {
    let mut dac = dual_dac(Channel::One, DacBits::TwelveR, 3300);
    dac.set_value(0x1FFF);
    assert_eq!(dac.regs.read_data(Channel::One, DacBits::TwelveR), 0xFFF);

    let mut dac8 = dual_dac(Channel::One, DacBits::EightR, 3300);
    dac8.set_value(0x123);
    assert_eq!(dac8.regs.read_data(Channel::One, DacBits::EightR), 0x23);

    let mut dacl = dual_dac(Channel::One, DacBits::TwelveL, 3300);
    dacl.set_value(0xABC);
    assert_eq!(dacl.regs.read_data(Channel::One, DacBits::TwelveL), 0xAB0);
}

#[test]
fn set_voltage_full_scale_and_zero() {
    let mut dac = dual_dac(Channel::One, DacBits::EightR, 3300);
    dac.set_voltage_mv(3300);
    assert_eq!(dac.regs.read_data(Channel::One, DacBits::EightR), 255);
    dac.set_voltage_mv(0);
    assert_eq!(dac.regs.read_data(Channel::One, DacBits::EightR), 0);

    let mut dac12 = dual_dac(Channel::Two, DacBits::TwelveR, 3300);
    dac12.set_voltage_mv(3300);
    assert_eq!(dac12.regs.read_data(Channel::Two, DacBits::TwelveR), 4095);
}

#[test]
fn set_voltage_rounds_to_nearest() {
    // 2500 / 5000 * 255 = 127.5: the tie rounds up.
    let mut dac = dual_dac(Channel::One, DacBits::EightR, 5000);
    dac.set_voltage_mv(2500);
    assert_eq!(dac.regs.read_data(Channel::One, DacBits::EightR), 128);

    // 1000 / 3300 * 4095 = 1240.9...: rounds up to 1241.
    let mut dac12 = dual_dac(Channel::One, DacBits::TwelveR, 3300);
    dac12.set_voltage_mv(1000);
    assert_eq!(dac12.regs.read_data(Channel::One, DacBits::TwelveR), 1241);

    // 100 / 3300 * 4095 = 124.09...: rounds down to 124.
    dac12.set_voltage_mv(100);
    assert_eq!(dac12.regs.read_data(Channel::One, DacBits::TwelveR), 124);
}

#[test]
fn midscale_voltage_tie_rounds_up() {
    // 1650 / 3300 * 4095 = 2047.5: the fixed tie policy rounds up to 2048.
    let mut dac = dual_dac(Channel::One, DacBits::TwelveR, 3300);
    dac.set_voltage_mv(1650);
    assert_eq!(dac.regs.read_data(Channel::One, DacBits::TwelveR), 2048);
}

#[test]
fn overrange_voltage_truncates_at_field_width() {
    // 6600 / 3300 * 255 = 510 = 0x1FE: the hardware keeps the low 8 bits.
    let mut dac = dual_dac(Channel::One, DacBits::EightR, 3300);
    dac.set_voltage_mv(6600);
    assert_eq!(dac.regs.read_data(Channel::One, DacBits::EightR), 0xFE);
}

#[test]
fn set_trigger_programs_enable_and_source() {
    let mut dac = dual_dac(Channel::One, DacBits::TwelveR, 3300);
    dac.set_trigger(Trigger::Tim2);
    // ten1 is bit 1; tsel1 holds 0b100 at bits 2..5.
    assert_eq!(dac.regs.read_cr(), (1 << 1) | (0b100 << 2));

    let mut dac2 = dual_dac(Channel::Two, DacBits::TwelveR, 3300);
    dac2.set_trigger(Trigger::Swtrig);
    assert_eq!(dac2.regs.read_cr(), (1 << 17) | (0b111 << 18));
}

#[test]
fn trigger_lfsr_programs_wave_and_data() {
    let mut dac = dual_dac(Channel::One, DacBits::EightR, 3300);
    dac.trigger_lfsr(Trigger::Swtrig, 0xAA);
    // wave1 = 0b01 at bit 6, mamp1 = 0b0001 at bit 8, ten1, tsel1 = 0b111.
    assert_eq!(dac.regs.read_cr(), (1 << 6) | (1 << 8) | (1 << 1) | (0b111 << 2));
    assert_eq!(dac.regs.read_data(Channel::One, DacBits::EightR), 0xAA);
}

#[test]
fn trigger_triangle_programs_wave_and_data() {
    let mut dac = dual_dac(Channel::Two, DacBits::TwelveR, 3300);
    dac.trigger_triangle(Trigger::Tim6, 0x7FF);
    // wave2 = 0b10 at bit 22, mamp2 = 0b0010 at bit 24, ten2, tsel2 = 0.
    assert_eq!(dac.regs.read_cr(), (2 << 22) | (2 << 24) | (1 << 17));
    assert_eq!(dac.regs.read_data(Channel::Two, DacBits::TwelveR), 0x7FF);
}

#[test]
fn shared_family_aliases_channels() {
    let mut rcc = Rcc { apb1enr: 0, apb1rstr: 0 };
    let mut dac =
        Dac::new(DacRegsShared::new(), Channel::One, DacBits::TwelveR, 3300, &mut rcc);
    dac.set_value(1234);
    // Both channels are bound to the same data-holding register.
    assert_eq!(dac.regs.read_data(Channel::One, DacBits::TwelveR), 1234);
    assert_eq!(dac.regs.read_data(Channel::Two, DacBits::TwelveR), 1234);
}

#[test]
fn dual_family_keeps_channels_apart() {
    let mut rcc = Rcc { apb1enr: 0, apb1rstr: 0 };
    let regs = DacRegsDual::new();
    let mut dac = Dac::new(regs, Channel::One, DacBits::TwelveR, 3300, &mut rcc);
    dac.set_value(1234);
    assert_eq!(dac.regs.read_data(Channel::One, DacBits::TwelveR), 1234);
    assert_eq!(dac.regs.read_data(Channel::Two, DacBits::TwelveR), 0);
}

#[test]
fn enable_and_trigger_leave_each_other_alone() {
    let mut dac = dual_dac(Channel::One, DacBits::TwelveR, 3300);
    dac.enable();
    dac.set_trigger(Trigger::Tim7);
    // The trigger writes did not glitch the enable bit.
    let cr = dac.regs.read_cr();
    assert_eq!(cr & 1, 1);
    assert_eq!((cr >> 1) & 1, 1);
    assert_eq!((cr >> 2) & 0b111, 0b010);
    // Disabling clears only the enable bit; the trigger setup stays.
    dac.disable();
    let cr2 = dac.regs.read_cr();
    assert_eq!(cr2 & 1, 0);
    assert_eq!((cr2 >> 1) & 1, 1);
    assert_eq!((cr2 >> 2) & 0b111, 0b010);
}

#[test]
fn channels_do_not_disturb_each_other() {
    let mut dac = dual_dac(Channel::Two, DacBits::TwelveR, 3300);
    dac.enable();
    dac.set_trigger(Trigger::Swtrig);
    let cr = dac.regs.read_cr();
    // Channel One's fields are all still clear.
    assert_eq!(cr & 0xFFFF, 0);
}

#[test]
fn set_value_leaves_control_register_alone() {
    let mut dac = dual_dac(Channel::One, DacBits::TwelveR, 3300);
    dac.enable();
    let cr = dac.regs.read_cr();
    dac.set_value(500);
    assert_eq!(dac.regs.read_cr(), cr);
}
