use waveshare_touchscreen::face::{face_shapes, Shape};
use waveshare_touchscreen::poller::{poll_records, SensorPoller, SensorReadout, POLL_INTERVAL_MS};
use waveshare_touchscreen::telemetry::{
    drain_step, sink_entry, DrainStep, FieldValue, ImuReading, SinkField, SinkTag,
    TelemetryRecord, TouchPoint,
};
use waveshare_touchscreen::timing::{ms_to_ticks, RENDER_INTERVAL_MS};
use waveshare_touchscreen::touch::{dispatch, Expression, STATE_PRESSED, STATE_RELEASED};

fn imu(x: f32, y: f32, z: f32) -> ImuReading {
    ImuReading { x: x.to_bits(), y: y.to_bits(), z: z.to_bits() }
}

fn tag_of(r: &TelemetryRecord) -> SinkTag {
    match drain_step(Some(*r)) {
        DrainStep::Write(e) => e.tag,
        DrainStep::Stop => panic!("a record stopped the drain"),
    }
}

#[test]
fn record_constructors() {
    let p = TouchPoint { x: 1, y: 2 };
    let d = imu(0.5, -1.0, 9.81);
    assert_eq!(TelemetryRecord::touch_point_from(p), TelemetryRecord::Touch(p));
    assert_eq!(TelemetryRecord::accel_point_from(d), TelemetryRecord::Accel(d));
    assert_eq!(TelemetryRecord::gyro_point_from(d), TelemetryRecord::Gyro(d));
}

#[test]
fn tag_names() {
    assert_eq!(SinkTag::Touch.name(), "touch");
    assert_eq!(SinkTag::Accel.name(), "accel");
    assert_eq!(SinkTag::Gyro.name(), "gyro");
}

#[test]
fn touch_entry_keeps_coordinates() {
    let e = sink_entry(&TelemetryRecord::Touch(TouchPoint { x: -3, y: 470 }));
    assert_eq!(e.tag, SinkTag::Touch);
    assert_eq!(
        e.fields,
        vec![
            SinkField { key: 'X', value: FieldValue::Coord(-3) },
            SinkField { key: 'Y', value: FieldValue::Coord(470) },
        ]
    );
}

#[test]
fn sensor_entries_keep_payload_bits() {
    let d = imu(0.25, -9.5, 1.0e-3);
    for (r, tag) in [
        (TelemetryRecord::Accel(d), SinkTag::Accel),
        (TelemetryRecord::Gyro(d), SinkTag::Gyro),
    ] {
        let e = sink_entry(&r);
        assert_eq!(e.tag, tag);
        assert_eq!(e.fields.len(), 3);
        assert_eq!(e.fields[0], SinkField { key: 'X', value: FieldValue::Bits(0.25f32.to_bits()) });
        assert_eq!(e.fields[1], SinkField { key: 'Y', value: FieldValue::Bits((-9.5f32).to_bits()) });
        assert_eq!(e.fields[2], SinkField { key: 'Z', value: FieldValue::Bits(1.0e-3f32.to_bits()) });
    }
}

#[test]
fn drain_stops_on_closed_channel() {
    assert!(matches!(drain_step(None), DrainStep::Stop));
    assert!(matches!(
        drain_step(Some(TelemetryRecord::Accel(imu(1.0, 2.0, 3.0)))),
        DrainStep::Write(_)
    ));
}

#[test]
fn two_poll_cycles_yield_four_records() {
    let first = SensorReadout { accel: imu(0.1, 0.2, 9.8), gyro: imu(-1.5, 0.0, 2.25) };
    let second = SensorReadout { accel: imu(0.3, -0.2, 9.7), gyro: imu(4.0, 5.0, -6.0) };
    let records = poll_records(&vec![first, second]);
    assert_eq!(
        records,
        vec![
            TelemetryRecord::Accel(first.accel),
            TelemetryRecord::Gyro(first.gyro),
            TelemetryRecord::Accel(second.accel),
            TelemetryRecord::Gyro(second.gyro),
        ]
    );
    let tags: Vec<SinkTag> = records.iter().map(tag_of).collect();
    assert_eq!(tags, vec![SinkTag::Accel, SinkTag::Gyro, SinkTag::Accel, SinkTag::Gyro]);
}

#[test]
fn poller_stops_after_failed_send() {
    let mut p = SensorPoller::new();
    let readout = SensorReadout { accel: imu(1.0, 2.0, 3.0), gyro: imu(4.0, 5.0, 6.0) };
    assert!(p.running());
    assert_eq!(p.on_readout(readout).len(), 2);
    p.on_send_result(true);
    assert!(p.running());
    p.on_send_result(false);
    assert!(!p.running());
    assert!(p.on_readout(readout).is_empty());
    p.on_send_result(true);
    assert!(!p.running());
}

#[test]
fn merged_producers_lose_nothing() {
    let touch_points = [TouchPoint { x: 1, y: 1 }, TouchPoint { x: 2, y: 2 }, TouchPoint { x: 3, y: 3 }];
    let readouts = vec![
        SensorReadout { accel: imu(1.0, 0.0, 0.0), gyro: imu(0.0, 1.0, 0.0) },
        SensorReadout { accel: imu(2.0, 0.0, 0.0), gyro: imu(0.0, 2.0, 0.0) },
    ];
    let touch: Vec<TelemetryRecord> = touch_points
        .iter()
        .map(|p| dispatch(STATE_PRESSED, STATE_PRESSED, *p).record.unwrap())
        .collect();
    let sensor = poll_records(&readouts);
    // One merge that keeps each producer's order.
    let merged = vec![sensor[0], touch[0], touch[1], sensor[1], sensor[2], touch[2], sensor[3]];
    let entries: Vec<_> = merged
        .iter()
        .map(|r| match drain_step(Some(*r)) {
            DrainStep::Write(e) => e,
            DrainStep::Stop => panic!("a record stopped the drain"),
        })
        .collect();
    let touch_entries: Vec<_> = entries.iter().filter(|e| e.tag == SinkTag::Touch).collect();
    let sensor_entries: Vec<_> = entries.iter().filter(|e| e.tag != SinkTag::Touch).collect();
    assert_eq!(touch_entries.len(), 3);
    assert_eq!(sensor_entries.len(), 4);
    for (e, p) in touch_entries.iter().zip(touch_points.iter()) {
        assert_eq!(e.fields[0].value, FieldValue::Coord(p.x));
    }
    let sensor_tags: Vec<SinkTag> = sensor_entries.iter().map(|e| e.tag).collect();
    assert_eq!(sensor_tags, vec![SinkTag::Accel, SinkTag::Gyro, SinkTag::Accel, SinkTag::Gyro]);
    assert_eq!(sensor_entries[2].fields[0].value, FieldValue::Bits(2.0f32.to_bits()));
}

#[test]
fn neutral_face_layout() {
    assert_eq!(
        face_shapes(Expression::Neutral),
        vec![
            Shape::Line { length: 50, x_ofs: 65, y_ofs: 50 },
            Shape::Line { length: 50, x_ofs: -65, y_ofs: 50 },
            Shape::Line { length: 100, x_ofs: 0, y_ofs: -25 },
        ]
    );
}

#[test]
fn smiling_face_layout() {
    let shapes = face_shapes(Expression::Smiling);
    assert_eq!(shapes.len(), 4);
    assert_eq!(
        shapes[0],
        Shape::Arc { start_angle: 0, end_angle: 360, width: 58, height: 50, x_ofs: 65, y_ofs: 46 }
    );
    assert_eq!(
        shapes[3],
        Shape::Arc { start_angle: 180, end_angle: 360, width: 108, height: 100, x_ofs: 0, y_ofs: -25 }
    );
}

#[test]
fn repeated_smile_is_stable() {
    let a = dispatch(STATE_RELEASED, STATE_PRESSED, TouchPoint { x: 1, y: 2 });
    let b = dispatch(STATE_RELEASED, STATE_PRESSED, TouchPoint { x: 3, y: 4 });
    assert_eq!(a.render, Some(Expression::Smiling));
    assert_eq!(b.render, a.render);
    assert_eq!(face_shapes(Expression::Smiling), face_shapes(Expression::Smiling));
}

#[test]
fn ms_to_ticks_values() {
    assert_eq!(ms_to_ticks(POLL_INTERVAL_MS, 1000), Some(100));
    assert_eq!(ms_to_ticks(POLL_INTERVAL_MS, 100), Some(10));
    assert_eq!(ms_to_ticks(RENDER_INTERVAL_MS, 100), Some(1));
    assert_eq!(ms_to_ticks(RENDER_INTERVAL_MS, 50), Some(0));
    assert_eq!(ms_to_ticks(0, 1000), Some(0));
    assert_eq!(ms_to_ticks(u32::MAX, 1000), Some(u32::MAX));
    assert_eq!(ms_to_ticks(u32::MAX, 1001), None);
}
