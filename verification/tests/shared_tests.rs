use mcu_hal::shared::{RxPeriph, RxShared};

#[test]
fn ten_interrupts_fill_a_ten_byte_buffer() {
    let mut shared = RxShared::new(10);
    shared.install(RxPeriph { dr: 0, ready: false });
    for k in 0..10u8 {
        // The hardware latches a new byte and raises the ready flag.
        shared.periph = Some(RxPeriph { dr: k, ready: true });
        shared.on_interrupt();
    }
    assert_eq!(shared.index(), 10);
    for k in 0..10u8 {
        assert_eq!(shared.byte_at(k as usize), k);
    }

    // An eleventh event must not write past the buffer: the byte is
    // dropped and the index stays at the capacity.
    shared.periph = Some(RxPeriph { dr: 0xEE, ready: true });
    shared.on_interrupt();
    assert_eq!(shared.index(), 10);
    for k in 0..10u8 {
        assert_eq!(shared.byte_at(k as usize), k);
    }
}

#[test]
fn interrupt_with_empty_handle_changes_nothing() {
    let mut shared = RxShared::new(4);
    shared.on_interrupt();
    assert_eq!(shared.index(), 0);
    assert!(shared.periph.is_none());
    for i in 0..4 {
        assert_eq!(shared.byte_at(i), 0);
    }
}

#[test]
fn handler_clears_the_ready_flag_first() {
    let mut shared = RxShared::new(4);
    shared.install(RxPeriph { dr: 0x5A, ready: true });
    shared.on_interrupt();
    let p = shared.periph.unwrap();
    assert!(!p.ready);
    assert_eq!(p.dr, 0x5A);
    assert_eq!(shared.index(), 1);
    assert_eq!(shared.byte_at(0), 0x5A);
}

#[test]
fn fresh_state_is_empty_and_zeroed() {
    let shared = RxShared::new(3);
    assert!(shared.periph.is_none());
    assert_eq!(shared.index(), 0);
    for i in 0..3 {
        assert_eq!(shared.byte_at(i), 0);
    }
}

#[test]
fn zero_capacity_buffer_drops_everything() {
    let mut shared = RxShared::new(0);
    shared.install(RxPeriph { dr: 9, ready: true });
    shared.on_interrupt();
    assert_eq!(shared.index(), 0);
}

#[test]
fn bytes_land_in_arrival_order() {
    let mut shared = RxShared::new(4);
    shared.install(RxPeriph { dr: 0, ready: false });
    for &b in &[0x10u8, 0x20, 0x30] {
        shared.periph = Some(RxPeriph { dr: b, ready: true });
        shared.on_interrupt();
    }
    assert_eq!(shared.index(), 3);
    assert_eq!(shared.byte_at(0), 0x10);
    assert_eq!(shared.byte_at(1), 0x20);
    assert_eq!(shared.byte_at(2), 0x30);
    assert_eq!(shared.byte_at(3), 0);
}
