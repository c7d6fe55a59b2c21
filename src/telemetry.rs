//! Telemetry records produced by the touch dispatcher and the sensor poller.
use vstd::prelude::*;

verus! {

/// A touch coordinate as reported by the touch controller.
#[derive(Clone, Copy, Debug, PartialEq, Eq, Structural)]
pub struct TouchPoint {
    pub x: i32,
    pub y: i32,
}

/// One inertial-sensor sample. Each axis holds the IEEE-754 bit pattern of
/// the single-precision value that the sensor driver reported, so that the
/// payload is carried verbatim.
#[derive(Clone, Copy, Debug, PartialEq, Eq, Structural)]
pub struct ImuReading {
    pub x: u32,
    pub y: u32,
    pub z: u32,
}

/// A record travelling from a producer to the telemetry drain.
#[derive(Clone, Copy, Debug, PartialEq, Eq, Structural)]
pub enum TelemetryRecord {
    Touch(TouchPoint),
    Accel(ImuReading),
    Gyro(ImuReading),
}

impl TelemetryRecord {
    pub fn touch_point_from(data: TouchPoint) -> (r: Self)
        ensures
            r == TelemetryRecord::Touch(data),
    {
        TelemetryRecord::Touch(data)
    }

    pub fn accel_point_from(data: ImuReading) -> (r: Self)
        ensures
            r == TelemetryRecord::Accel(data),
    {
        TelemetryRecord::Accel(data)
    }

    pub fn gyro_point_from(data: ImuReading) -> (r: Self)
        ensures
            r == TelemetryRecord::Gyro(data),
    {
        TelemetryRecord::Gyro(data)
    }
}

/// The three tag namespaces of the telemetry sink.
#[derive(Clone, Copy, Debug, PartialEq, Eq, Structural)]
pub enum SinkTag {
    Touch,
    Accel,
    Gyro,
}

impl SinkTag {
    pub open spec fn spec_name(self) -> Seq<char> {
        match self {
            SinkTag::Touch => "touch"@,
            SinkTag::Accel => "accel"@,
            SinkTag::Gyro => "gyro"@,
        }
    }

    /// The tag string handed to the sink.
    pub fn name(&self) -> (r: &'static str)
        ensures
            r@ == self.spec_name(),
    {
        match self {
            SinkTag::Touch => "touch",
            SinkTag::Accel => "accel",
            SinkTag::Gyro => "gyro",
        }
    }
}

/// A numeric field value: a coordinate, or the bit pattern of a
/// single-precision sensor value.
#[derive(Clone, Copy, Debug, PartialEq, Eq, Structural)]
pub enum FieldValue {
    Coord(i32),
    Bits(u32),
}

/// One key/value field of a sink entry.
#[derive(Clone, Copy, Debug, PartialEq, Eq, Structural)]
pub struct SinkField {
    pub key: char,
    pub value: FieldValue,
}

/// What the drain writes to the sink for one record.
#[derive(Debug)]
pub struct SinkEntry {
    pub tag: SinkTag,
    pub fields: Vec<SinkField>,
}

/// The abstract content of a sink entry: its tag and its fields in order.
pub struct SinkEntryModel {
    pub tag: SinkTag,
    pub fields: Seq<SinkField>,
}

impl View for SinkEntry {
    type V = SinkEntryModel;

    open spec fn view(&self) -> SinkEntryModel {
        SinkEntryModel { tag: self.tag, fields: self.fields@ }
    }
}

pub open spec fn tag_of(r: TelemetryRecord) -> SinkTag {
    match r {
        TelemetryRecord::Touch(_) => SinkTag::Touch,
        TelemetryRecord::Accel(_) => SinkTag::Accel,
        TelemetryRecord::Gyro(_) => SinkTag::Gyro,
    }
}

pub open spec fn axes_fields(d: ImuReading) -> Seq<SinkField> {
    seq![
        SinkField { key: 'X', value: FieldValue::Bits(d.x) },
        SinkField { key: 'Y', value: FieldValue::Bits(d.y) },
        SinkField { key: 'Z', value: FieldValue::Bits(d.z) },
    ]
}

/// The fields of a record, carrying its payload verbatim.
pub open spec fn fields_of(r: TelemetryRecord) -> Seq<SinkField> {
    match r {
        TelemetryRecord::Touch(p) => seq![
            SinkField { key: 'X', value: FieldValue::Coord(p.x) },
            SinkField { key: 'Y', value: FieldValue::Coord(p.y) },
        ],
        TelemetryRecord::Accel(d) => axes_fields(d),
        TelemetryRecord::Gyro(d) => axes_fields(d),
    }
}

pub open spec fn entry_of(r: TelemetryRecord) -> SinkEntryModel {
    SinkEntryModel { tag: tag_of(r), fields: fields_of(r) }
}

fn axes_entry(tag: SinkTag, d: ImuReading) -> (e: SinkEntry)
    ensures
        e.tag == tag,
        e.fields@ == axes_fields(d),
{
    let fields = vec![
        SinkField { key: 'X', value: FieldValue::Bits(d.x) },
        SinkField { key: 'Y', value: FieldValue::Bits(d.y) },
        SinkField { key: 'Z', value: FieldValue::Bits(d.z) },
    ];
    proof {
        assert(fields@ =~= axes_fields(d));
    }
    SinkEntry { tag, fields }
}

/// Serializes one record for the sink: tagged by its variant, with its
/// numeric payload unchanged.
pub fn sink_entry(r: &TelemetryRecord) -> (e: SinkEntry)
    ensures
        e@ == entry_of(*r),
{
    match r {
        TelemetryRecord::Touch(p) => {
            let fields = vec![
                SinkField { key: 'X', value: FieldValue::Coord(p.x) },
                SinkField { key: 'Y', value: FieldValue::Coord(p.y) },
            ];
            proof {
                assert(fields@ =~= fields_of(*r));
            }
            SinkEntry { tag: SinkTag::Touch, fields }
        },
        TelemetryRecord::Accel(d) => axes_entry(SinkTag::Accel, *d),
        TelemetryRecord::Gyro(d) => axes_entry(SinkTag::Gyro, *d),
    }
}

/// What the drain does after one blocking receive.
#[derive(Debug)]
pub enum DrainStep {
    /// Write this entry to the sink and receive again.
    Write(SinkEntry),
    /// Every sender is gone: log the shutdown and leave the loop.
    Stop,
}

/// The drain's decision on what a receive returned: `None` stands for the
/// closed indication of the channel.
pub fn drain_step(received: Option<TelemetryRecord>) -> (step: DrainStep)
    ensures
        received is None <==> step is Stop,
        received matches Some(r) ==> (step matches DrainStep::Write(e) && e@ == entry_of(r)),
{
    match received {
        Some(r) => DrainStep::Write(sink_entry(&r)),
        None => DrainStep::Stop,
    }
}

} // verus!
