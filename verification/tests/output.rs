use wasm_leds::error::{ProgramRuntimeError, SinkError};
use wasm_leds::led::{Color, LedRange, LedUpdate, LED_COUNT};
use wasm_leds::memory::{check_bounds, write_bytes};
use wasm_leds::output::{decode_descriptor, decode_output, translate, OutputDescriptor};
use wasm_leds::sink::{
    BusOutcome, BusTransaction, HardwareSink, I2CForwardSink, LocalStripSink, SinkKind,
    SinkRequest, BUS_TIMEOUT_MS,
};

const DARK: Color = Color { red: 0, green: 0, blue: 0 };

fn rgb(red: u8, green: u8, blue: u8) -> Color {
    Color { red, green, blue }
}

#[test]
fn led_count_is_eighty_eight() {
    assert_eq!(LED_COUNT, 88);
}

#[test]
fn led_range_is_checked() {
    assert_eq!(LedRange::new(5, 9), Some(LedRange { start: 5, end: 9 }));
    assert_eq!(LedRange::new(0, 87), Some(LedRange { start: 0, end: 87 }));
    assert_eq!(LedRange::new(7, 7), Some(LedRange { start: 7, end: 7 }));
    assert_eq!(LedRange::new(9, 5), None);
    assert_eq!(LedRange::new(0, 88), None);
    assert_eq!(LedRange::new(200, 255), None);
    assert_eq!(LedRange::whole_strip(), LedRange { start: 0, end: 87 });
    assert_eq!(LedRange { start: 5, end: 9 }.len(), 5);
    assert_eq!(LedRange::whole_strip().len(), 88);
}

#[test]
fn led_update_gives_each_led_its_colour() {
    let solid = LedUpdate::Solid { range: LedRange { start: 3, end: 4 }, color: rgb(1, 2, 3) };
    assert_eq!(solid.led_range(), LedRange { start: 3, end: 4 });
    assert_eq!(solid.color_at(3), rgb(1, 2, 3));
    assert_eq!(solid.color_at(4), rgb(1, 2, 3));
    let each = LedUpdate::PerLed {
        range: LedRange { start: 3, end: 4 },
        colors: vec![rgb(1, 2, 3), rgb(4, 5, 6)],
    };
    assert_eq!(each.color_at(3), rgb(1, 2, 3));
    assert_eq!(each.color_at(4), rgb(4, 5, 6));
    assert_eq!(
        LedUpdate::whole_strip(rgb(9, 8, 7)),
        LedUpdate::Solid { range: LedRange { start: 0, end: 87 }, color: rgb(9, 8, 7) }
    );
}

#[test]
fn check_bounds_accepts_what_fits() {
    let mem = [0u8; 10];
    assert!(check_bounds(&mem, 0, 10));
    assert!(check_bounds(&mem, 10, 0));
    assert!(check_bounds(&mem, 4, 6));
    assert!(!check_bounds(&mem, 4, 7));
    assert!(!check_bounds(&mem, 11, 0));
    assert!(!check_bounds(&mem, u32::MAX, 1));
    assert!(!check_bounds(&mem, 0, usize::MAX));
}

#[test]
fn write_bytes_writes_only_the_addressed_bytes() {
    let mut mem = [1u8, 2, 3, 4, 5, 6];
    assert_eq!(write_bytes(&mut mem, 2, &[9, 8, 7]), Ok(()));
    assert_eq!(mem, [1, 2, 9, 8, 7, 6]);
    assert_eq!(write_bytes(&mut mem, 6, &[]), Ok(()));
    assert_eq!(mem, [1, 2, 9, 8, 7, 6]);
}

#[test]
fn write_bytes_refuses_what_does_not_fit() {
    let mut mem = [1u8, 2, 3, 4];
    assert_eq!(write_bytes(&mut mem, 3, &[9, 9]), Err(ProgramRuntimeError::OutOfBounds(3)));
    assert_eq!(mem, [1, 2, 3, 4]);
    assert_eq!(write_bytes(&mut mem, 5, &[]), Err(ProgramRuntimeError::OutOfBounds(5)));
    assert_eq!(mem, [1, 2, 3, 4]);
}

#[test]
fn unbuffered_descriptor_is_decoded_field_by_field() {
    let mem = [0xaa, 0, 5, 9, 10, 20, 30, 0xbb];
    assert_eq!(
        decode_descriptor(&mem, 1),
        Ok(OutputDescriptor::Unbuffered { start: 5, end: 9, color: rgb(10, 20, 30) })
    );
}

#[test]
fn buffered_descriptor_is_decoded_field_by_field() {
    let mem = [1, 0, 2, 0x78, 0x56, 0x34, 0x12];
    assert_eq!(
        decode_descriptor(&mem, 0),
        Ok(OutputDescriptor::Buffered { start: 0, end: 2, source_ptr: 0x1234_5678 })
    );
}

#[test]
fn descriptor_with_an_unknown_tag_is_rejected() {
    let mem = [2, 0, 0, 0, 0, 0, 0, 0];
    assert_eq!(decode_descriptor(&mem, 0), Err(ProgramRuntimeError::BadDiscriminant(2)));
    let mem = [255];
    assert_eq!(decode_descriptor(&mem, 0), Err(ProgramRuntimeError::BadDiscriminant(255)));
}

#[test]
fn descriptor_outside_memory_is_rejected() {
    let mem = [0, 1, 2, 3, 4];
    assert_eq!(decode_descriptor(&mem, 0), Err(ProgramRuntimeError::OutOfBounds(0)));
    assert_eq!(decode_descriptor(&mem, 5), Err(ProgramRuntimeError::OutOfBounds(5)));
    assert_eq!(decode_descriptor(&[], 0), Err(ProgramRuntimeError::OutOfBounds(0)));
    let mem = [1, 0, 2, 7, 0, 0];
    assert_eq!(decode_descriptor(&mem, 0), Err(ProgramRuntimeError::OutOfBounds(0)));
    let mem = [0, 0, 1, 0, 1, 2, 3];
    assert_eq!(decode_descriptor(&mem, u32::MAX), Err(ProgramRuntimeError::OutOfBounds(u32::MAX)));
}

#[test]
fn unbuffered_update_sets_leds_five_to_nine() {
    let mem = [0, 5, 9, 10, 20, 30];
    let update = decode_output(&mem, 0).unwrap();
    assert_eq!(
        update,
        LedUpdate::Solid { range: LedRange { start: 5, end: 9 }, color: rgb(10, 20, 30) }
    );
    let mut strip = LocalStripSink::new();
    strip.apply(&update);
    for led in 0..LED_COUNT {
        let expected = if (5..=9).contains(&led) { rgb(10, 20, 30) } else { DARK };
        assert_eq!(strip.frame[led], expected);
    }
}

#[test]
fn buffered_update_sets_leds_in_array_order() {
    let mut mem = vec![0u8; 32];
    mem[3..10].copy_from_slice(&[1, 0, 2, 16, 0, 0, 0]);
    mem[16..25].copy_from_slice(&[1, 2, 3, 4, 5, 6, 7, 8, 9]);
    let update = decode_output(&mem, 3).unwrap();
    assert_eq!(
        update,
        LedUpdate::PerLed {
            range: LedRange { start: 0, end: 2 },
            colors: vec![rgb(1, 2, 3), rgb(4, 5, 6), rgb(7, 8, 9)],
        }
    );
    let mut strip = LocalStripSink::new();
    strip.apply(&update);
    assert_eq!(strip.frame[0], rgb(1, 2, 3));
    assert_eq!(strip.frame[1], rgb(4, 5, 6));
    assert_eq!(strip.frame[2], rgb(7, 8, 9));
    for led in 3..LED_COUNT {
        assert_eq!(strip.frame[led], DARK);
    }
}

#[test]
fn translate_rejects_a_range_off_the_strip() {
    let mem = [0u8; 600];
    let off = OutputDescriptor::Unbuffered { start: 0, end: 88, color: rgb(1, 1, 1) };
    assert_eq!(translate(&mem, off), Err(ProgramRuntimeError::BadRange(0, 88)));
    let backwards = OutputDescriptor::Unbuffered { start: 9, end: 5, color: rgb(1, 1, 1) };
    assert_eq!(translate(&mem, backwards), Err(ProgramRuntimeError::BadRange(9, 5)));
    let buffered = OutputDescriptor::Buffered { start: 90, end: 91, source_ptr: 0 };
    assert_eq!(translate(&mem, buffered), Err(ProgramRuntimeError::BadRange(90, 91)));
}

#[test]
fn translate_rejects_colours_outside_memory() {
    let mem = [0u8; 20];
    let d = OutputDescriptor::Buffered { start: 0, end: 2, source_ptr: 12 };
    assert_eq!(translate(&mem, d), Err(ProgramRuntimeError::OutOfBounds(12)));
    let d = OutputDescriptor::Buffered { start: 0, end: 2, source_ptr: 11 };
    assert!(translate(&mem, d).is_ok());
    let d = OutputDescriptor::Buffered { start: 0, end: 0, source_ptr: u32::MAX };
    assert_eq!(translate(&mem, d), Err(ProgramRuntimeError::OutOfBounds(u32::MAX)));
}

#[test]
fn translate_reports_the_range_before_the_colours() {
    let mem = [0u8; 4];
    let d = OutputDescriptor::Buffered { start: 5, end: 4, source_ptr: 1000 };
    assert_eq!(translate(&mem, d), Err(ProgramRuntimeError::BadRange(5, 4)));
}

#[test]
fn translate_takes_the_whole_strip() {
    let mem: Vec<u8> = (0..264u32).map(|i| (i % 256) as u8).collect();
    let d = OutputDescriptor::Buffered { start: 0, end: 87, source_ptr: 0 };
    match translate(&mem, d).unwrap() {
        LedUpdate::PerLed { range, colors } => {
            assert_eq!(range, LedRange { start: 0, end: 87 });
            assert_eq!(colors.len(), 88);
            assert_eq!(colors[0], rgb(0, 1, 2));
            assert_eq!(colors[87], rgb(5, 6, 7));
        }
        other => panic!("{:?}", other),
    }
}

#[test]
fn local_strip_starts_dark() {
    let strip = LocalStripSink::new();
    assert_eq!(strip.frame, vec![DARK; 88]);
    assert_eq!(strip.snapshot(), vec![DARK; 88]);
}

#[test]
fn local_strip_keeps_earlier_updates() {
    let mut strip = LocalStripSink::new();
    strip.apply(&LedUpdate::Solid { range: LedRange { start: 0, end: 3 }, color: rgb(1, 1, 1) });
    strip.apply(&LedUpdate::PerLed {
        range: LedRange { start: 2, end: 4 },
        colors: vec![rgb(2, 2, 2), rgb(3, 3, 3), rgb(4, 4, 4)],
    });
    let shown: Vec<Color> = strip.frame[0..6].to_vec();
    assert_eq!(
        shown,
        vec![rgb(1, 1, 1), rgb(1, 1, 1), rgb(2, 2, 2), rgb(3, 3, 3), rgb(4, 4, 4), DARK]
    );
}

#[test]
fn bus_address_byte_tells_buffered_from_unbuffered() {
    let bus = I2CForwardSink {};
    let buffered = LedUpdate::PerLed {
        range: LedRange { start: 2, end: 3 },
        colors: vec![rgb(1, 2, 3), rgb(4, 5, 6)],
    };
    let unbuffered = LedUpdate::Solid { range: LedRange { start: 2, end: 3 }, color: rgb(1, 2, 3) };
    assert_eq!(bus.apply(&buffered).bytes[1], 90);
    assert_eq!(bus.apply(&unbuffered).bytes[1], 2);
}

#[test]
fn bus_transaction_of_an_unbuffered_update() {
    let bus = I2CForwardSink {};
    let update = LedUpdate::Solid { range: LedRange { start: 5, end: 9 }, color: rgb(10, 20, 30) };
    assert_eq!(
        bus.apply(&update),
        BusTransaction { bytes: vec![0, 5, 9, 10, 20, 30], timeout_ms: 10 }
    );
    assert_eq!(BUS_TIMEOUT_MS, 10);
}

#[test]
fn bus_transaction_of_a_buffered_update() {
    let bus = I2CForwardSink {};
    let update = LedUpdate::PerLed {
        range: LedRange { start: 0, end: 2 },
        colors: vec![rgb(1, 2, 3), rgb(4, 5, 6), rgb(7, 8, 9)],
    };
    assert_eq!(
        bus.apply(&update),
        BusTransaction { bytes: vec![0, 88, 2, 1, 2, 3, 4, 5, 6, 7, 8, 9], timeout_ms: 10 }
    );
}

#[test]
fn bus_transaction_at_the_end_of_the_strip() {
    let bus = I2CForwardSink {};
    let update = LedUpdate::PerLed { range: LedRange { start: 87, end: 87 }, colors: vec![rgb(1, 2, 3)] };
    assert_eq!(bus.apply(&update).bytes, vec![0, 175, 87, 1, 2, 3]);
}

#[test]
fn bus_carries_the_guest_bytes_of_a_buffered_update() {
    let mut mem = vec![0u8; 64];
    mem[0..7].copy_from_slice(&[1, 10, 13, 20, 0, 0, 0]);
    for (i, byte) in mem[20..32].iter_mut().enumerate() {
        *byte = 100 + i as u8;
    }
    let update = decode_output(&mem, 0).unwrap();
    let transaction = I2CForwardSink {}.apply(&update);
    assert_eq!(transaction.bytes[..3].to_vec(), vec![0u8, 98, 13]);
    assert_eq!(transaction.bytes[3..].to_vec(), mem[20..32].to_vec());
}

#[test]
fn bus_outcome_maps_to_sink_errors() {
    assert_eq!(I2CForwardSink::outcome(BusOutcome::Ack), Ok(()));
    assert_eq!(I2CForwardSink::outcome(BusOutcome::Nack), Err(SinkError::BusNack));
    assert_eq!(I2CForwardSink::outcome(BusOutcome::Timeout), Err(SinkError::BusTimeout));
}

#[test]
fn hardware_sink_asks_for_the_work_of_its_kind() {
    let update = LedUpdate::Solid { range: LedRange { start: 1, end: 2 }, color: rgb(7, 7, 7) };
    let mut local = HardwareSink::new(SinkKind::LocalStrip);
    let mut frame = vec![DARK; 88];
    frame[1] = rgb(7, 7, 7);
    frame[2] = rgb(7, 7, 7);
    assert_eq!(local.apply(&update), SinkRequest::Flush(frame.clone()));
    assert_eq!(local, HardwareSink::LocalStrip(LocalStripSink { frame }));
    let mut bus = HardwareSink::new(SinkKind::I2cForward);
    assert_eq!(
        bus.apply(&update),
        SinkRequest::Transact(BusTransaction { bytes: vec![0, 1, 2, 7, 7, 7], timeout_ms: 10 })
    );
    assert_eq!(bus, HardwareSink::I2cForward(I2CForwardSink {}));
}

#[test]
fn validity_of_ranges_and_updates_is_told() {
    assert!(LedRange { start: 0, end: 87 }.is_valid());
    assert!(LedRange { start: 3, end: 3 }.is_valid());
    assert!(!LedRange { start: 4, end: 3 }.is_valid());
    assert!(!LedRange { start: 0, end: 88 }.is_valid());
    let range = LedRange { start: 1, end: 2 };
    assert!(LedUpdate::Solid { range, color: DARK }.is_valid());
    assert!(LedUpdate::PerLed { range, colors: vec![DARK, DARK] }.is_valid());
    assert!(!LedUpdate::PerLed { range, colors: vec![DARK] }.is_valid());
    assert!(!LedUpdate::PerLed { range, colors: vec![DARK; 3] }.is_valid());
    assert!(!LedUpdate::Solid { range: LedRange { start: 2, end: 1 }, color: DARK }.is_valid());
    assert!(!LedUpdate::PerLed { range: LedRange { start: 2, end: 1 }, colors: vec![] }.is_valid());
}

#[test]
fn validity_of_sinks_is_told() {
    assert!(LocalStripSink::new().is_valid());
    assert!(!LocalStripSink { frame: vec![DARK; 87] }.is_valid());
    assert!(!LocalStripSink { frame: vec![] }.is_valid());
    assert!(HardwareSink::new(SinkKind::LocalStrip).is_valid());
    assert!(HardwareSink::new(SinkKind::I2cForward).is_valid());
    assert!(!HardwareSink::LocalStrip(LocalStripSink { frame: vec![DARK; 89] }).is_valid());
}
