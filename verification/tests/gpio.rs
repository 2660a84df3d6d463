use stm32f7xx_hal::gpio::{ErasedPin, GpioExt, Output, Parts, PushPull, GPIO};
use stm32f7xx_hal::rcc::{RccExt, AHB1, RCC};

fn port_k() -> (Parts<10>, AHB1) {
    let mut rcc = RCC::at_reset().constrain();
    let port = GPIO::<10>::claim(0, 0, 0).expect("port K exists");
    let parts = port.split(&mut rcc.ahb1);
    (parts, rcc.ahb1)
}

#[test]
fn claim_knows_the_ports_of_the_device() {
    assert!(GPIO::<0>::claim(0xa800_0000, 0, 0x6400_0000).is_some());
    assert!(GPIO::<10>::claim(0, 0, 0).is_some());
    assert!(GPIO::<11>::claim(0, 0, 0).is_none());
    assert!(GPIO::<255>::claim(0, 0, 0).is_none());
}

#[test]
fn split_enables_then_pulses_reset() {
    let mut rcc = RCC::claim(0x0010_0001, 0x0000_0002, 0x83, 0).constrain();
    let port = GPIO::<10>::claim(0, 0, 0).expect("port K exists");
    let mut parts = port.split(&mut rcc.ahb1);
    assert_eq!(rcc.ahb1.enr().read(), 0x0010_0401);
    assert_eq!(rcc.ahb1.rstr().read(), 0x0000_0002);
    assert_eq!(rcc.ahb1.flush_enr(), vec![0x0010_0401]);
    assert_eq!(rcc.ahb1.flush_rstr(), vec![0x0000_0402, 0x0000_0002]);
    assert_eq!(rcc.ahb1.enr().pending_len(), 0);
    assert_eq!(parts.moder.moder().read(), 0);
    assert_eq!(parts.otyper.otyper().read(), 0);
    assert_eq!(parts.pupdr.pupdr().read(), 0);
    assert!(parts.moder.flush().is_empty());
    assert!(parts.otyper.flush().is_empty());
    assert!(parts.pupdr.flush().is_empty());
}

#[test]
fn split_of_port_a_uses_line_zero() {
    let mut rcc = RCC::at_reset().constrain();
    let port = GPIO::<0>::claim(0xa800_0000, 0, 0x6400_0000).expect("port A exists");
    let mut parts = port.split(&mut rcc.ahb1);
    assert_eq!(rcc.ahb1.flush_enr(), vec![0x0010_0001]);
    assert_eq!(rcc.ahb1.flush_rstr(), vec![0x0000_0001, 0x0000_0000]);
    assert_eq!(parts.moder.moder().read(), 0xa800_0000);
    assert_eq!(parts.otyper.otyper().read(), 0);
    assert_eq!(parts.pupdr.pupdr().read(), 0x6400_0000);
    let pin13 = parts.pin13.into_push_pull_output(&mut parts.moder, &mut parts.otyper);
    assert_eq!(parts.moder.moder().read(), 0xa400_0000);
    let _pin13 = pin13.into_pull_down_input(&mut parts.moder, &mut parts.pupdr);
    assert_eq!(parts.moder.moder().read(), 0xa000_0000);
    assert_eq!(parts.pupdr.pupdr().read(), 0x6800_0000);
}

#[test]
fn push_pull_then_set_high_and_low_write_one_bit() {
    let (mut parts, _ahb1) = port_k();
    let mut pin0 = parts.pin0.into_push_pull_output(&mut parts.moder, &mut parts.otyper);
    let mut pin3 = parts.pin3.into_push_pull_output(&mut parts.moder, &mut parts.otyper);
    let mut pin15 = parts.pin15.into_push_pull_output(&mut parts.moder, &mut parts.otyper);
    assert_eq!(pin0.set_high(), 0x0000_0001);
    assert_eq!(pin0.set_low(), 0x0001_0000);
    assert_eq!(pin3.set_high(), 0x0000_0008);
    assert_eq!(pin3.set_low(), 0x0008_0000);
    assert_eq!(pin15.set_high(), 0x0000_8000);
    assert_eq!(pin15.set_low(), 0x8000_0000);
}

#[test]
fn erased_pins_keep_their_index() {
    let (mut parts, _ahb1) = port_k();
    let pin1 = parts.pin1.into_push_pull_output(&mut parts.moder, &mut parts.otyper);
    let pin7 = parts.pin7.into_push_pull_output(&mut parts.moder, &mut parts.otyper);
    let pin12 = parts.pin12.into_push_pull_output(&mut parts.moder, &mut parts.otyper);
    let mut pins: Vec<ErasedPin<10, Output<PushPull>>> =
        vec![pin1.downgrade(), pin7.downgrade(), pin12.downgrade()];
    let expected: [u8; 3] = [1, 7, 12];
    for (pin, index) in pins.iter_mut().zip(expected.iter()) {
        assert_eq!(pin.pin_index(), *index);
        assert_eq!(pin.set_high(), 1u32 << *index);
        assert_eq!(pin.set_low(), 1u32 << (16 + *index));
    }
}

#[test]
fn push_pull_output_writes_mode_and_type() {
    let (mut parts, _ahb1) = port_k();
    let _led = parts.pin3.into_push_pull_output(&mut parts.moder, &mut parts.otyper);
    assert_eq!(parts.moder.moder().read(), 0b01 << 6);
    assert_eq!(parts.otyper.otyper().read(), 0);
    assert_eq!(parts.moder.flush(), vec![0b01 << 6]);
    assert_eq!(parts.otyper.flush(), vec![0]);
    assert_eq!(parts.moder.moder().read(), 0b01 << 6);
}

#[test]
fn mode_transition_keeps_the_fields_of_other_pins() {
    let (mut parts, _ahb1) = port_k();
    let _pin1 = parts.pin1.into_push_pull_output(&mut parts.moder, &mut parts.otyper);
    let _pin15 = parts.pin15.into_open_drain_output(&mut parts.moder, &mut parts.otyper);
    let before = parts.moder.moder().read();
    assert_eq!(before, (0b01 << 2) | (0b01 << 30));
    let pin2 = parts.pin2.into_push_pull_output(&mut parts.moder, &mut parts.otyper);
    let after = parts.moder.moder().read();
    assert_eq!(after, (0b01 << 2) | (0b01 << 4) | (0b01 << 30));
    assert_eq!(after & !(0b11 << 4), before & !(0b11 << 4));
    let _pin2 = pin2.into_floating_input(&mut parts.moder, &mut parts.pupdr);
    assert_eq!(parts.moder.moder().read(), before);
}

#[test]
fn output_type_bit_is_set_and_cleared_alone() {
    let (mut parts, _ahb1) = port_k();
    let pin5 = parts.pin5.into_open_drain_output(&mut parts.moder, &mut parts.otyper);
    assert_eq!(parts.otyper.otyper().read(), 1 << 5);
    let _pin6 = parts.pin6.into_open_drain_output(&mut parts.moder, &mut parts.otyper);
    assert_eq!(parts.otyper.otyper().read(), (1 << 5) | (1 << 6));
    let _pin5 = pin5.into_push_pull_output(&mut parts.moder, &mut parts.otyper);
    assert_eq!(parts.otyper.otyper().read(), 1 << 6);
    assert_eq!(parts.otyper.flush(), vec![1 << 5, (1 << 5) | (1 << 6), 1 << 6]);
}

#[test]
fn input_transitions_write_the_pull_field() {
    let (mut parts, _ahb1) = port_k();
    let pin4 = parts.pin4.into_pull_down_input(&mut parts.moder, &mut parts.pupdr);
    assert_eq!(parts.moder.moder().read(), 0);
    assert_eq!(parts.pupdr.pupdr().read(), 0b10 << 8);
    let pin4 = pin4.into_pull_up_input(&mut parts.moder, &mut parts.pupdr);
    assert_eq!(parts.pupdr.pupdr().read(), 0b01 << 8);
    let pin4 = pin4.into_floating_input(&mut parts.moder, &mut parts.pupdr);
    assert_eq!(parts.pupdr.pupdr().read(), 0);
    let _pin4 = pin4.into_pull_down_input(&mut parts.moder, &mut parts.pupdr);
    assert_eq!(parts.pupdr.flush(), vec![0b10 << 8, 0b01 << 8, 0, 0b10 << 8]);
}

#[test]
fn output_to_input_rewrites_the_mode_field() {
    let (mut parts, _ahb1) = port_k();
    let pin9 = parts.pin9.into_push_pull_output(&mut parts.moder, &mut parts.otyper);
    assert_eq!(parts.moder.moder().read(), 0b01 << 18);
    let _pin9 = pin9.into_pull_up_input(&mut parts.moder, &mut parts.pupdr);
    assert_eq!(parts.moder.moder().read(), 0);
    assert_eq!(parts.pupdr.pupdr().read(), 0b01 << 18);
}

#[test]
fn transitions_of_one_pin_leave_another_pin_alone() {
    let (mut parts, _ahb1) = port_k();
    let _tracked = parts.pin8.into_open_drain_output(&mut parts.moder, &mut parts.otyper);
    let _pulled = parts.pin10.into_pull_up_input(&mut parts.moder, &mut parts.pupdr);
    let moder_8 = (parts.moder.moder().read() >> 16) & 0b11;
    let otyper_8 = (parts.otyper.otyper().read() >> 8) & 1;
    let pupdr_10 = (parts.pupdr.pupdr().read() >> 20) & 0b11;
    assert_eq!((moder_8, otyper_8, pupdr_10), (0b01, 1, 0b01));

    let pin9 = parts.pin9.into_pull_down_input(&mut parts.moder, &mut parts.pupdr);
    let pin9 = pin9.into_open_drain_output(&mut parts.moder, &mut parts.otyper);
    let pin9 = pin9.into_push_pull_output(&mut parts.moder, &mut parts.otyper);
    let pin9 = pin9.into_pull_up_input(&mut parts.moder, &mut parts.pupdr);
    let _pin9 = pin9.into_floating_input(&mut parts.moder, &mut parts.pupdr);

    assert_eq!((parts.moder.moder().read() >> 16) & 0b11, moder_8);
    assert_eq!((parts.otyper.otyper().read() >> 8) & 1, otyper_8);
    assert_eq!((parts.pupdr.pupdr().read() >> 20) & 0b11, pupdr_10);
    assert_eq!(parts.moder.moder().read(), 0b01 << 16);
    assert_eq!(parts.otyper.otyper().read(), 1 << 8);
    assert_eq!(parts.pupdr.pupdr().read(), 0b01 << 20);
}

#[test]
fn internal_pull_up_toggles_the_pull_field() {
    let (mut parts, _ahb1) = port_k();
    let _other = parts.pin0.into_pull_down_input(&mut parts.moder, &mut parts.pupdr);
    let mut pin2 = parts.pin2.into_open_drain_output(&mut parts.moder, &mut parts.otyper);
    pin2.internal_pull_up(&mut parts.pupdr, true);
    assert_eq!(parts.pupdr.pupdr().read(), 0b10 | (0b01 << 4));
    pin2.internal_pull_up(&mut parts.pupdr, false);
    assert_eq!(parts.pupdr.pupdr().read(), 0b10);
}

#[test]
fn input_pin_reads_its_own_bit() {
    let (mut parts, _ahb1) = port_k();
    let pin4 = parts.pin4.into_floating_input(&mut parts.moder, &mut parts.pupdr);
    assert!(pin4.is_high(0x0000_0010));
    assert!(!pin4.is_low(0x0000_0010));
    assert!(pin4.is_low(0xffff_ffef));
    assert!(!pin4.is_high(0xffff_ffef));
    let pin0 = parts.pin0;
    assert!(pin0.is_low(0));
    assert!(pin0.is_high(1));
}
