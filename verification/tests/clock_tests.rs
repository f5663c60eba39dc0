use mcu_hal::traits::{ClockCfg, ClocksValid, FixedClocks};

#[test]
fn fixed_clocks_report_their_speeds() {
    let clocks = FixedClocks {
        sysclk: 80_000_000,
        hclk: 80_000_000,
        systick: 80_000_000,
        usb: 48_000_000,
        apb1: 40_000_000,
        apb1_timer: 80_000_000,
        apb2: 40_000_000,
        apb2_timer: 80_000_000,
    };
    assert_eq!(clocks.sysclk(), 80_000_000);
    assert_eq!(clocks.hclk(), 80_000_000);
    assert_eq!(clocks.systick(), 80_000_000);
    assert_eq!(clocks.usb(), 48_000_000);
    assert_eq!(clocks.apb1(), 40_000_000);
    assert_eq!(clocks.apb1_timer(), 80_000_000);
    assert_eq!(clocks.apb2(), 40_000_000);
    assert_eq!(clocks.apb2_timer(), 80_000_000);
    assert!(matches!(clocks.validate_speeds(), ClocksValid::Valid));
}
