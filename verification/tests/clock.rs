use stm32f7xx_hal::flash::{FlashExt, FLASH};
use stm32f7xx_hal::rcc::{clock_config, status_of, ClockPhase, ClockPoll, RccExt, RCC};

#[test]
fn freeze_from_reset_defaults_reports_the_requested_source() {
    let mut rcc = RCC::at_reset().constrain();
    let mut flash = FLASH::at_reset().constrain();
    let mut run = rcc.cfgr.freeze(&mut rcc.cr, &mut flash.acr);
    assert_eq!(run.current_phase(), ClockPhase::Oscillator);
    assert_eq!(run.poll(), ClockPoll::Control);
    assert_eq!(run.requested_source(), 0);
    assert_eq!(flash.acr.flush(), vec![0]);
    assert_eq!(rcc.cr.flush(), vec![0x83]);
    assert!(rcc.cfgr.flush().is_empty());

    // The control register of a device at reset reads 0x83: ready.
    assert_eq!(run.advance(&mut rcc.cfgr, 0x83), ClockPoll::Config);
    assert_eq!(run.current_phase(), ClockPhase::Switch);
    assert_eq!(rcc.cfgr.flush(), vec![0]);

    // The configuration register of a device at reset reads 0: source 0.
    assert_eq!(run.advance(&mut rcc.cfgr, 0), ClockPoll::Nothing);
    assert_eq!(run.current_phase(), ClockPhase::Frozen);
    assert_eq!(status_of(rcc.cfgr.cfgr().read()), run.requested_source());
    assert!(rcc.cfgr.flush().is_empty());
}

#[test]
fn freeze_rewrites_control_and_latency_from_reset_contents() {
    let mut rcc = RCC::claim(0, 0, 0x0300_0000, 0x0000_940a).constrain();
    let mut flash = FLASH::claim(0x0000_0705).constrain();
    let _run = rcc.cfgr.freeze(&mut rcc.cr, &mut flash.acr);
    assert_eq!(flash.acr.acr().read(), 0);
    assert_eq!(rcc.cr.cr().read(), 0x83);
    assert_eq!(rcc.cfgr.cfgr().read(), 0x0000_940a);
}

#[test]
fn switch_waits_for_the_oscillator() {
    let mut rcc = RCC::claim(0, 0, 0, 0).constrain();
    let mut flash = FLASH::at_reset().constrain();
    let mut run = rcc.cfgr.freeze(&mut rcc.cr, &mut flash.acr);
    assert_eq!(run.advance(&mut rcc.cfgr, 0x0000_0001), ClockPoll::Control);
    assert_eq!(run.advance(&mut rcc.cfgr, 0xffff_fffd), ClockPoll::Control);
    assert_eq!(run.current_phase(), ClockPhase::Oscillator);
    assert!(rcc.cfgr.flush().is_empty());
    assert_eq!(run.advance(&mut rcc.cfgr, 0x0000_0002), ClockPoll::Config);
    assert_eq!(rcc.cfgr.flush(), vec![0]);
}

#[test]
fn switch_waits_for_the_status_field() {
    let mut rcc = RCC::claim(0, 0, 0x83, 0x0000_000a).constrain();
    let mut flash = FLASH::at_reset().constrain();
    let mut run = rcc.cfgr.freeze(&mut rcc.cr, &mut flash.acr);
    assert_eq!(run.advance(&mut rcc.cfgr, 0x83), ClockPoll::Config);
    assert_eq!(rcc.cfgr.cfgr().read(), 0);
    // Status still reports source 2, then source 1.
    assert_eq!(run.advance(&mut rcc.cfgr, 0x0000_0008), ClockPoll::Config);
    assert_eq!(run.advance(&mut rcc.cfgr, 0x0000_0004), ClockPoll::Config);
    assert_eq!(run.current_phase(), ClockPhase::Switch);
    assert_eq!(rcc.cfgr.cfgr().read(), 0);
    // Status reports source 0; other fields of the reading are taken over.
    assert_eq!(run.advance(&mut rcc.cfgr, 0x00ff_0000), ClockPoll::Nothing);
    assert_eq!(run.current_phase(), ClockPhase::Frozen);
    assert_eq!(rcc.cfgr.cfgr().read(), 0x00ff_0000);
    // Once frozen, further readings change nothing.
    assert_eq!(run.advance(&mut rcc.cfgr, 0x0000_0008), ClockPoll::Nothing);
    assert_eq!(run.current_phase(), ClockPhase::Frozen);
    assert_eq!(rcc.cfgr.cfgr().read(), 0x00ff_0000);
}

#[test]
fn clock_config_places_each_field() {
    assert_eq!(clock_config(0, 0, 0, 0), 0);
    assert_eq!(clock_config(7, 5, 9, 2), (7 << 13) | (5 << 10) | (9 << 4) | 2);
    assert_eq!(clock_config(4, 0, 0, 1), 0x8001);
}

#[test]
fn status_of_reads_bits_two_and_three() {
    assert_eq!(status_of(0), 0);
    assert_eq!(status_of(0b0100), 1);
    assert_eq!(status_of(0b1000), 2);
    assert_eq!(status_of(0xffff_ffff), 3);
    assert_eq!(status_of(0xffff_fff3), 0);
}

#[test]
fn constrain_takes_over_the_claimed_images() {
    let rcc = RCC::claim(0x11, 0x22, 0x33, 0x44).constrain();
    assert_eq!(rcc.ahb1.enr().read(), 0x11);
    assert_eq!(rcc.ahb1.rstr().read(), 0x22);
    assert_eq!(rcc.cr.cr().read(), 0x33);
    assert_eq!(rcc.cfgr.cfgr().read(), 0x44);
    let at_reset = RCC::at_reset().constrain();
    assert_eq!(at_reset.ahb1.enr().read(), 0x0010_0000);
    assert_eq!(at_reset.ahb1.rstr().read(), 0);
    assert_eq!(at_reset.cr.cr().read(), 0x83);
    assert_eq!(at_reset.cfgr.cfgr().read(), 0);
    let flash = FLASH::claim(0x55).constrain();
    assert_eq!(flash.acr.acr().read(), 0x55);
    assert_eq!(flash.acr.acr().pending_len(), 0);
}
