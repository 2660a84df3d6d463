use stm32f7xx_hal::delay::{Delay, SystOp, SYST, SYSCLK_HZ, TICKS_PER_US};
use stm32f7xx_hal::prelude::_stm32f7_hal_time_U32Ext;
use stm32f7xx_hal::reg::{get_flag, set_flag, set_pair_field};
use stm32f7xx_hal::time::Hertz;

#[test]
fn new_selects_the_core_clock() {
    let mut delay = Delay::new(SYST::claim());
    assert!(!delay.is_counting());
    assert_eq!(delay.flush(), vec![SystOp::UseCoreClock]);
    assert!(delay.flush().is_empty());
}

#[test]
fn delay_us_zero_ends_on_the_first_reading() {
    let mut delay = Delay::new(SYST::claim());
    delay.delay_us(0);
    assert_eq!(delay.reload_value(), 0);
    assert!(delay.is_counting());
    assert_eq!(
        delay.flush(),
        vec![
            SystOp::UseCoreClock,
            SystOp::SetReload(0),
            SystOp::ClearCurrent,
            SystOp::EnableCounter
        ]
    );
    assert!(delay.wrapped(true));
    assert!(!delay.is_counting());
    assert_eq!(delay.flush(), vec![SystOp::DisableCounter]);
}

#[test]
fn delay_ms_of_one_second_reloads_the_clock_frequency() {
    let mut delay = Delay::new(SYST::claim());
    delay.delay_ms(1000);
    assert_eq!(delay.reload_value(), 16_000_000);
    assert_eq!(delay.reload_value(), SYSCLK_HZ);
    assert_eq!(TICKS_PER_US * 1_000_000, SYSCLK_HZ);
    let ops = delay.flush();
    assert_eq!(ops[1], SystOp::SetReload(16_000_000));
}

#[test]
fn delay_us_multiplies_by_the_ticks_per_microsecond() {
    let mut delay = Delay::new(SYST::claim());
    delay.delay_us(250);
    assert_eq!(delay.reload_value(), 4000);
    delay.delay_us(268_435_455);
    assert_eq!(delay.reload_value(), 4_294_967_280);
}

#[test]
fn delay_ms_reaches_the_largest_reload_that_fits() {
    let mut delay = Delay::new(SYST::claim());
    delay.delay_ms(268_435);
    assert_eq!(delay.reload_value(), 4_294_960_000);
    delay.delay_ms(0);
    assert_eq!(delay.reload_value(), 0);
}

#[test]
fn delay_waits_until_the_flag_is_seen() {
    let mut delay = Delay::new(SYST::claim());
    assert!(delay.wrapped(false));
    assert!(delay.wrapped(true));
    let _ = delay.flush();
    delay.delay_us(10);
    let _ = delay.flush();
    assert!(!delay.wrapped(false));
    assert!(!delay.wrapped(false));
    assert!(delay.is_counting());
    assert!(delay.flush().is_empty());
    assert!(delay.wrapped(true));
    assert_eq!(delay.flush(), vec![SystOp::DisableCounter]);
    assert!(delay.wrapped(false));
    assert!(delay.flush().is_empty());
    assert_eq!(delay.reload_value(), 160);
}

#[test]
fn narrow_delays_forward_to_the_wide_ones() {
    let mut delay = Delay::new(SYST::claim());
    delay.delay_us_u8(255);
    assert_eq!(delay.reload_value(), 4080);
    delay.delay_us_u16(65_535);
    assert_eq!(delay.reload_value(), 1_048_560);
    delay.delay_ms_u8(2);
    assert_eq!(delay.reload_value(), 32_000);
    delay.delay_ms_u16(65_535);
    assert_eq!(delay.reload_value(), 1_048_560_000);
    let ops = delay.flush();
    assert_eq!(ops.len(), 13);
    assert_eq!(ops[10], SystOp::SetReload(1_048_560_000));
    assert_eq!(ops[11], SystOp::ClearCurrent);
    assert_eq!(ops[12], SystOp::EnableCounter);
}

#[test]
fn hz_wraps_the_number() {
    let Hertz(n) = 16_000_000u32.hz();
    assert_eq!(n, 16_000_000);
    assert_eq!(0u32.hz().0, 0);
}

#[test]
fn pair_fields_are_written_in_place() {
    assert_eq!(set_pair_field(0, 3, 0b01), 0x40);
    assert_eq!(set_pair_field(0xffff_ffff, 3, 0b00), 0xffff_ff3f);
    assert_eq!(set_pair_field(0xffff_ffff, 15, 0b10), 0xbfff_ffff);
    assert_eq!(set_pair_field(0x1234_5678, 0, 0b11), 0x1234_567b);
}

#[test]
fn flags_are_written_and_read_in_place() {
    assert_eq!(set_flag(0, 31, true), 0x8000_0000);
    assert_eq!(set_flag(0xffff_ffff, 0, false), 0xffff_fffe);
    assert_eq!(set_flag(0x10, 4, true), 0x10);
    assert!(get_flag(0x10, 4));
    assert!(!get_flag(0x10, 5));
}
