use d4evts::{
    get_color, setup_logging, update, Args, Counts, DeltaError, LogLevel, Message, Rgb, LE_EVERY,
    RW_EVERY, WB_EVERY,
};

#[test]
fn color_thresholds() {
    let red = Rgb { r: 0xff, g: 0x80, b: 0x80 };
    let yellow = Rgb { r: 0xff, g: 0xff, b: 0x00 };
    let grey = Rgb { r: 0x80, g: 0x80, b: 0x80 };
    assert_eq!(get_color(0), red);
    assert_eq!(get_color(1), red);
    assert_eq!(get_color(300), red);
    assert_eq!(get_color(301), yellow);
    assert_eq!(get_color(600), yellow);
    assert_eq!(get_color(601), grey);
    assert_eq!(get_color(12600), grey);
    assert_eq!(get_color(u64::MAX), grey);
}

#[test]
fn log_level_follows_the_debug_flag() {
    assert_eq!(setup_logging(&Args { debug: true }), LogLevel::Debug);
    assert_eq!(setup_logging(&Args { debug: false }), LogLevel::Info);
}

#[test]
fn counts_start_at_zero() {
    assert_eq!(Counts::default(), Counts { wb: 0, le: 0, rw: 0 });
}

#[test]
fn refresh_takes_over_three_countdowns() {
    let mut counts = Counts::default();
    assert_eq!(counts.refresh(Ok(10), Ok(20), Ok(30)), Ok(()));
    assert_eq!(counts, Counts { wb: 10, le: 20, rw: 30 });
}

#[test]
fn refresh_keeps_the_state_on_an_error() {
    let mut counts = Counts { wb: 1, le: 2, rw: 3 };
    assert_eq!(
        counts.refresh(Err(DeltaError::ClockUnavailable), Ok(20), Err(DeltaError::BeforeEpoch)),
        Err(DeltaError::ClockUnavailable)
    );
    assert_eq!(counts, Counts { wb: 1, le: 2, rw: 3 });
    assert_eq!(
        counts.refresh(Ok(10), Err(DeltaError::BeforeEpoch), Err(DeltaError::ClockUnavailable)),
        Err(DeltaError::BeforeEpoch)
    );
    assert_eq!(counts, Counts { wb: 1, le: 2, rw: 3 });
    assert_eq!(
        counts.refresh(Ok(10), Ok(20), Err(DeltaError::ClockUnavailable)),
        Err(DeltaError::ClockUnavailable)
    );
    assert_eq!(counts, Counts { wb: 1, le: 2, rw: 3 });
}

#[test]
fn update_recomputes_all_three() {
    let mut counts = Counts::default();
    assert_eq!(update(&mut counts, Message::Tick), Ok(()));
    assert!(0 < counts.wb && counts.wb <= WB_EVERY);
    assert!(0 < counts.le && counts.le <= LE_EVERY);
    assert!(0 < counts.rw && counts.rw <= RW_EVERY);
    // The Legion Event and the World Boss epochs lie 600 s apart and both
    // intervals are multiples of 300 s.
    let apart = (counts.wb % 300).abs_diff(counts.le % 300);
    assert!(apart <= 5 || apart >= 295);
}
