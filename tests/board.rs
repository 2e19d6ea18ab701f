use esp32s3_ffi::bmp180::{
    Coeffs, AC5_REG, AC6_REG, CONVERSION_WAIT_MS, CTRL_MEAS_REG, MC_REG, MD_REG, OUT_LSB_REG,
    OUT_MSB_REG, TEMP_COMMAND,
};
use esp32s3_ffi::indicator::BLINK_MS;
use esp32s3_ffi::plan::{Op, Record, SensorError};
use esp32s3_ffi::registry::{Registry, SetupError};
use esp32s3_ffi::sr04::TRIGGER_PULSE_MS;

type Board = Registry<(), (), (), (), ()>;

fn ready_board(c: Coeffs) -> Board {
    let mut b = Board::new();
    b.install((), (), (), (), ()).unwrap();
    b.store_coeffs(c).unwrap();
    b
}

fn record(reads: Vec<(u8, u8)>, samples: Vec<u64>) -> Record {
    let mut r = Record::new();
    r.reads = reads;
    r.samples = samples;
    r
}

#[test]
fn fresh_board_yields_sentinels() {
    let b = Board::new();
    assert!(!b.is_ready());
    assert!(b.temperature_plan().is_empty());
    assert!(b.distance_plan().is_empty());
    assert!(b.blink_plan().is_empty());
    assert!(b.calibration_plan().is_empty());
    let full = record(vec![(1, 2), (3, 4)], vec![1, 2]);
    assert_eq!(b.temperature_from(&full), Err(SensorError::ResourceUnavailable));
    assert_eq!(b.distance_from(&full), Err(SensorError::ResourceUnavailable));
}

#[test]
fn setup_populates_every_slot_once() {
    let mut b = Board::new();
    assert_eq!(b.install((), (), (), (), ()), Ok(()));
    assert!(!b.is_ready());
    assert_eq!(b.store_coeffs(Coeffs { ac5: 1, ac6: 2, mc: 3, md: 4 }), Ok(()));
    assert!(b.is_ready());
    assert_eq!(b.install((), (), (), (), ()), Err(SetupError::AlreadyInstalled));
    assert_eq!(
        b.store_coeffs(Coeffs { ac5: 9, ac6: 9, mc: 9, md: 9 }),
        Err(SetupError::AlreadyCalibrated)
    );
    assert_eq!(b.coeffs, Some(Coeffs { ac5: 1, ac6: 2, mc: 3, md: 4 }));
}

#[test]
fn calibration_plan_and_decoding() {
    let mut b = Board::new();
    b.install((), (), (), (), ()).unwrap();
    assert_eq!(
        b.calibration_plan(),
        vec![
            Op::QueryRegister(AC5_REG),
            Op::QueryRegister(AC6_REG),
            Op::QueryRegister(MC_REG),
            Op::QueryRegister(MD_REG)
        ]
    );
    let rec = record(vec![(0x7F, 0xF5), (0x5A, 0x71), (0xDD, 0xF9), (0x0B, 0x34)], vec![]);
    let expected = Coeffs { ac5: 32757, ac6: 23153, mc: -8711, md: 2868 };
    assert_eq!(b.calibration_from(&rec), Ok(expected));
    // Same responses, same coefficients.
    assert_eq!(b.calibration_from(&rec), Ok(expected));
    let short = record(vec![(0, 1), (0, 2), (0, 3)], vec![]);
    assert_eq!(b.calibration_from(&short), Err(SensorError::MissingResponse));
}

#[test]
fn calibration_without_bus_reads_zero() {
    let b = Board::new();
    let rec = record(vec![], vec![]);
    assert_eq!(b.calibration_from(&rec), Ok(Coeffs { ac5: 0, ac6: 0, mc: 0, md: 0 }));
}

#[test]
fn temperature_plan_and_result() {
    let b = ready_board(Coeffs { ac5: 32757, ac6: 23153, mc: -8711, md: 2868 });
    assert_eq!(
        b.temperature_plan(),
        vec![
            Op::WriteRegister(CTRL_MEAS_REG, TEMP_COMMAND),
            Op::WaitMs(CONVERSION_WAIT_MS),
            Op::SelectRegister(OUT_MSB_REG),
            Op::ReadPair,
            Op::SelectRegister(OUT_LSB_REG),
            Op::ReadPair
        ]
    );
    // 27898 = 0x6CFA; only the first byte of each read counts.
    let rec = record(vec![(0x6C, 0xAA), (0xFA, 0xBB)], vec![]);
    assert_eq!(b.temperature_from(&rec), Ok(150));
    let short = record(vec![(0x6C, 0)], vec![]);
    assert_eq!(b.temperature_from(&short), Err(SensorError::MissingResponse));
}

#[test]
fn temperature_needs_calibration() {
    let mut b = Board::new();
    b.install((), (), (), (), ()).unwrap();
    assert!(b.temperature_plan().is_empty());
    let rec = record(vec![(0x6C, 0), (0xFA, 0)], vec![]);
    assert_eq!(b.temperature_from(&rec), Err(SensorError::ResourceUnavailable));
}

#[test]
fn temperature_with_degenerate_calibration() {
    let b = ready_board(Coeffs { ac5: 5, ac6: 100, mc: -8711, md: 0 });
    let rec = record(vec![(0, 0), (100, 0)], vec![]);
    assert_eq!(b.temperature_from(&rec), Err(SensorError::DegenerateCalibration));
}

#[test]
fn distance_plan_and_result() {
    let b = ready_board(Coeffs { ac5: 1, ac6: 1, mc: 1, md: 1 });
    assert_eq!(
        b.distance_plan(),
        vec![
            Op::SetTrigger(true),
            Op::WaitMs(TRIGGER_PULSE_MS),
            Op::SetTrigger(false),
            Op::SampleTimer,
            Op::AwaitEcho,
            Op::SampleTimer
        ]
    );
    // 5882 ticks: about one metre.
    let rec = record(vec![], vec![10_000, 15_882]);
    assert_eq!(b.distance_from(&rec), Ok(99_994));
    let short = record(vec![], vec![10_000]);
    assert_eq!(b.distance_from(&short), Err(SensorError::MissingResponse));
}

#[test]
fn distance_unavailable_without_trigger() {
    let mut b: Registry<(), (), (), (), ()> = Registry {
        delay: Some(()),
        indicator: Some(()),
        trigger: None,
        echo: Some(()),
        bus: Some(()),
        coeffs: Some(Coeffs { ac5: 1, ac6: 1, mc: 1, md: 1 }),
    };
    let rec = record(vec![], vec![0, 100]);
    assert!(b.distance_plan().is_empty());
    assert_eq!(b.distance_from(&rec), Err(SensorError::ResourceUnavailable));
    b.trigger = Some(());
    b.delay = None;
    assert_eq!(b.distance_from(&rec), Err(SensorError::ResourceUnavailable));
}

#[test]
fn blink_restores_indicator_level() {
    let b = ready_board(Coeffs { ac5: 1, ac6: 1, mc: 1, md: 1 });
    let plan = b.blink_plan();
    assert_eq!(plan, vec![Op::ToggleIndicator, Op::WaitMs(BLINK_MS), Op::ToggleIndicator]);
    for start in [false, true] {
        let mut level = start;
        let mut seen_other = false;
        for op in &plan {
            if *op == Op::ToggleIndicator {
                level = !level;
            }
            seen_other |= level != start;
        }
        assert!(seen_other);
        assert_eq!(level, start);
    }
}
