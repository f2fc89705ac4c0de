use dcs_display::dcs::{BitsPerPixel, SetAddressMode};
use dcs_display::error::{ConfigurationError, ModelInitError};
use dcs_display::interface::InterfaceKind;
use dcs_display::models::{
    Action, BringUp, Model, Progress, SettleDelays, GC9503CV, MAX_VENDOR_REGISTERS,
};
use dcs_display::options::{ColorInversion, ColorOrder, ModelOptions, Orientation, Rotation};

/// What a recording transport and a recording timer have seen.
#[derive(Debug, Clone, PartialEq, Eq)]
enum Seen {
    Delay(u32),
    Write(u8, Vec<u8>),
}

#[derive(Debug, Clone, Copy, PartialEq, Eq)]
struct BusFault(u16);

/// Carries a bring-up out against a recorder. The write number `fail_at`
/// (counted from zero over the writes alone) is not recorded and fails.
fn bring_up(
    kind: InterfaceKind,
    options: &ModelOptions,
    fail_at: Option<usize>,
) -> (Vec<Seen>, Result<SetAddressMode, ModelInitError<BusFault>>) {
    let model = GC9503CV;
    let mut seen = Vec::new();
    let mut writes = 0;
    let mut progress = model.init::<BusFault>(kind, options);
    for _ in 0..1000 {
        match progress {
            Progress::Pending { state, action } => {
                let outcome = match action {
                    Action::Delay(ms) => {
                        seen.push(Seen::Delay(ms));
                        Ok(())
                    }
                    Action::Write(frame) => {
                        writes += 1;
                        if fail_at == Some(writes - 1) {
                            Err(BusFault(0xBAD))
                        } else {
                            seen.push(Seen::Write(frame.instruction(), frame.params().to_vec()));
                            Ok(())
                        }
                    }
                };
                progress = model.resume(state, outcome);
            }
            Progress::Done(mode) => return (seen, Ok(mode)),
            Progress::Failed(error) => return (seen, Err(error)),
        }
    }
    panic!("the bring-up did not end");
}

fn options(color_order: ColorOrder, rotation: Rotation, invert: ColorInversion) -> ModelOptions {
    ModelOptions {
        color_order,
        orientation: Orientation { rotation, mirrored: false },
        invert_colors: invert,
    }
}

fn plain_options() -> ModelOptions {
    options(ColorOrder::Rgb, Rotation::Deg0, ColorInversion::Normal)
}

fn writes_of(seen: &[Seen]) -> Vec<(u8, Vec<u8>)> {
    let mut writes = Vec::new();
    for entry in seen {
        if let Seen::Write(instruction, params) = entry {
            writes.push((*instruction, params.clone()));
        }
    }
    writes
}

#[test]
fn gc9503cv_constants() {
    let model = GC9503CV;
    assert_eq!(model.framebuffer_size(), (480, 480));
    assert_eq!(model.bits_per_pixel(), BitsPerPixel::Sixteen);
    assert_eq!(
        model.settle_delays(),
        SettleDelays { power_on_ms: 120, reset_ms: 120, sleep_out_ms: 120, display_on_ms: 20 }
    );
    assert_eq!(model.vendor_register_count(), 9);
    assert!(model.vendor_register_count() <= MAX_VENDOR_REGISTERS);
}

#[test]
fn gc9503cv_works_on_serial_four_line_and_parallel_eight_bit() {
    let model = GC9503CV;
    assert!(model.supports(InterfaceKind::Serial4Line));
    assert!(model.supports(InterfaceKind::Parallel8Bit));
    assert!(!model.supports(InterfaceKind::Serial3Line));
    assert!(!model.supports(InterfaceKind::Parallel16Bit));
}

#[test]
fn gc9503cv_vendor_registers() {
    let model = GC9503CV;
    let expected: [(u8, &[u8]); 9] = [
        (0xB1, &[0x02, 0x35, 0x36]),
        (0xB4, &[0x00]),
        (0xB7, &[0x02]),
        (0xC0, &[0x18, 0x18]),
        (0xC1, &[0x41]),
        (0xC2, &[0x22]),
        (0xC5, &[0x30]),
        (
            0xE0,
            &[
                0x1F, 0x25, 0x22, 0x0B, 0x06, 0x0A, 0x4E, 0xC6, 0x39, 0x00, 0x00, 0x00, 0x00, 0x00,
                0x00,
            ],
        ),
        (
            0xE1,
            &[
                0x1F, 0x3F, 0x3F, 0x0F, 0x1F, 0x0F, 0x46, 0x49, 0x3B, 0x0F, 0x0F, 0x0F, 0x0F, 0x0F,
                0x00,
            ],
        ),
    ];
    for (index, (instruction, payload)) in expected.iter().enumerate() {
        let frame = model.vendor_register(index);
        assert_eq!(frame.instruction(), *instruction);
        assert_eq!(frame.params(), *payload);
    }
}

#[test]
fn init_on_an_unsupported_bus_sends_nothing() {
    for kind in [InterfaceKind::Serial3Line, InterfaceKind::Parallel16Bit] {
        let (seen, result) = bring_up(kind, &plain_options(), None);
        assert_eq!(
            result,
            Err(ModelInitError::InvalidConfiguration(ConfigurationError::UnsupportedInterface))
        );
        assert!(seen.is_empty());
    }
}

#[test]
fn init_is_turned_down_at_once_on_an_unsupported_bus() {
    let progress = GC9503CV.init::<BusFault>(InterfaceKind::Serial3Line, &plain_options());
    match progress {
        Progress::Failed(error) => assert_eq!(
            error,
            ModelInitError::InvalidConfiguration(ConfigurationError::UnsupportedInterface)
        ),
        other => panic!("unexpected {:?}", other),
    }
}

#[test]
fn init_starts_with_the_power_on_delay() {
    let progress = GC9503CV.init::<BusFault>(InterfaceKind::Serial4Line, &plain_options());
    match progress {
        Progress::Pending { action: Action::Delay(ms), .. } => assert_eq!(ms, 120),
        other => panic!("unexpected {:?}", other),
    }
}

#[test]
fn init_carries_out_the_whole_sequence() {
    let options = options(ColorOrder::Bgr, Rotation::Deg90, ColorInversion::Inverted);
    let (seen, result) = bring_up(InterfaceKind::Serial4Line, &options, None);
    let expected = vec![
        Seen::Delay(120),
        Seen::Write(0x01, vec![]),
        Seen::Delay(120),
        Seen::Write(0x11, vec![]),
        Seen::Delay(120),
        Seen::Write(0xB1, vec![0x02, 0x35, 0x36]),
        Seen::Write(0xB4, vec![0x00]),
        Seen::Write(0xB7, vec![0x02]),
        Seen::Write(0xC0, vec![0x18, 0x18]),
        Seen::Write(0xC1, vec![0x41]),
        Seen::Write(0xC2, vec![0x22]),
        Seen::Write(0xC5, vec![0x30]),
        Seen::Write(
            0xE0,
            vec![
                0x1F, 0x25, 0x22, 0x0B, 0x06, 0x0A, 0x4E, 0xC6, 0x39, 0x00, 0x00, 0x00, 0x00, 0x00,
                0x00,
            ],
        ),
        Seen::Write(
            0xE1,
            vec![
                0x1F, 0x3F, 0x3F, 0x0F, 0x1F, 0x0F, 0x46, 0x49, 0x3B, 0x0F, 0x0F, 0x0F, 0x0F, 0x0F,
                0x00,
            ],
        ),
        Seen::Write(0x36, vec![0b0110_1000]),
        Seen::Write(0x3A, vec![0x55]),
        Seen::Write(0x21, vec![]),
        Seen::Write(0x29, vec![]),
        Seen::Delay(20),
    ];
    assert_eq!(seen, expected);
    assert_eq!(result, Ok(SetAddressMode::from_options(&options)));
}

#[test]
fn init_ends_with_display_on_as_the_last_write() {
    for kind in [InterfaceKind::Serial4Line, InterfaceKind::Parallel8Bit] {
        for invert in [ColorInversion::Normal, ColorInversion::Inverted] {
            let options = options(ColorOrder::Rgb, Rotation::Deg180, invert);
            let (seen, result) = bring_up(kind, &options, None);
            assert!(result.is_ok());
            let writes = writes_of(&seen);
            assert_eq!(writes.len(), 15);
            assert_eq!(writes.last(), Some(&(0x29, vec![])));
            assert_eq!(seen.last(), Some(&Seen::Delay(20)));
        }
    }
}

#[test]
fn init_returns_the_address_mode_of_the_options() {
    let cases: [(ColorOrder, Rotation, u8); 4] = [
        (ColorOrder::Rgb, Rotation::Deg0, 0b0000_0000),
        (ColorOrder::Bgr, Rotation::Deg0, 0b0000_1000),
        (ColorOrder::Bgr, Rotation::Deg270, 0b1010_1000),
        (ColorOrder::Rgb, Rotation::Deg180, 0b1100_0000),
    ];
    for (color_order, rotation, byte) in cases {
        let options = options(color_order, rotation, ColorInversion::Normal);
        let (seen, result) = bring_up(InterfaceKind::Parallel8Bit, &options, None);
        let mode = result.unwrap();
        assert_eq!(mode.as_u8(), byte);
        assert_eq!(mode.color_order, color_order);
        // The byte that was sent is the byte that is returned.
        assert!(writes_of(&seen).contains(&(0x36, vec![byte])));
    }
}

#[test]
fn init_sends_the_inversion_that_the_options_ask_for() {
    let normal = options(ColorOrder::Rgb, Rotation::Deg0, ColorInversion::Normal);
    let (seen, _) = bring_up(InterfaceKind::Serial4Line, &normal, None);
    let writes = writes_of(&seen);
    assert!(writes.contains(&(0x20, vec![])));
    assert!(!writes.contains(&(0x21, vec![])));

    let inverted = options(ColorOrder::Rgb, Rotation::Deg0, ColorInversion::Inverted);
    let (seen, _) = bring_up(InterfaceKind::Serial4Line, &inverted, None);
    let writes = writes_of(&seen);
    assert!(writes.contains(&(0x21, vec![])));
    assert!(!writes.contains(&(0x20, vec![])));
}

#[test]
fn init_stops_at_the_first_bus_error() {
    // The first write is the reset, step 1 of the sequence.
    let (seen, result) = bring_up(InterfaceKind::Serial4Line, &plain_options(), Some(0));
    assert_eq!(result, Err(ModelInitError::Interface { step: 1, error: BusFault(0xBAD) }));
    assert_eq!(seen, vec![Seen::Delay(120)]);

    // The third write is the first vendor register, step 5.
    let (seen, result) = bring_up(InterfaceKind::Serial4Line, &plain_options(), Some(2));
    assert_eq!(result, Err(ModelInitError::Interface { step: 5, error: BusFault(0xBAD) }));
    assert_eq!(writes_of(&seen), vec![(0x01, vec![]), (0x11, vec![])]);

    // The last write, display on, is step 17.
    let (seen, result) = bring_up(InterfaceKind::Serial4Line, &plain_options(), Some(14));
    assert_eq!(result, Err(ModelInitError::Interface { step: 17, error: BusFault(0xBAD) }));
    assert_eq!(writes_of(&seen).len(), 14);
    assert_eq!(seen.last(), Some(&Seen::Write(0x20, vec![])));
}

#[test]
fn init_can_be_started_again_after_a_failure() {
    let (_, failed) = bring_up(InterfaceKind::Serial4Line, &plain_options(), Some(5));
    assert!(failed.is_err());
    let (seen, result) = bring_up(InterfaceKind::Serial4Line, &plain_options(), None);
    assert!(result.is_ok());
    assert_eq!(seen.len(), 19);
    assert_eq!(seen[0], Seen::Delay(120));
}

#[test]
fn resume_hands_out_one_step_at_a_time() {
    let model = GC9503CV;
    let options = plain_options();
    let mut progress = model.init::<BusFault>(InterfaceKind::Parallel8Bit, &options);
    let mut steps = 0;
    while let Progress::Pending { state, action } = progress {
        steps += 1;
        if steps == 2 {
            match action {
                Action::Write(frame) => assert_eq!(frame.instruction(), 0x01),
                Action::Delay(_) => panic!("the second step is a write"),
            }
        }
        progress = model.resume(state, Ok(()));
        assert!(steps <= 19);
    }
    assert_eq!(steps, 19);
    match progress {
        Progress::Done(mode) => assert_eq!(mode, SetAddressMode::from_options(&options)),
        other => panic!("unexpected {:?}", other),
    }
}

#[test]
fn resume_passes_the_bus_error_through() {
    let model = GC9503CV;
    let options = plain_options();
    let progress = model.init::<&str>(InterfaceKind::Parallel8Bit, &options);
    let state = match progress {
        Progress::Pending { state, .. } => state,
        other => panic!("unexpected {:?}", other),
    };
    match model.resume(state, Err("no acknowledge")) {
        Progress::Failed(error) => {
            assert_eq!(error, ModelInitError::Interface { step: 0, error: "no acknowledge" })
        }
        other => panic!("unexpected {:?}", other),
    }
}
