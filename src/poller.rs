//! The sensor poller's decisions: two records per cycle, and a stop once
//! the channel turns out to be closed.
use vstd::prelude::*;

use crate::telemetry::{ImuReading, TelemetryRecord};

verus! {

/// Interval between two sensor reads, in milliseconds.
pub const POLL_INTERVAL_MS: u32 = 100;

/// One read of the inertial sensor: both samples come from a single call.
#[derive(Clone, Copy, Debug, PartialEq, Eq, Structural)]
pub struct SensorReadout {
    pub accel: ImuReading,
    pub gyro: ImuReading,
}

/// The records of one cycle: the accelerometer record, then the gyroscope
/// record.
pub open spec fn cycle_records(r: SensorReadout) -> Seq<TelemetryRecord> {
    seq![TelemetryRecord::Accel(r.accel), TelemetryRecord::Gyro(r.gyro)]
}

/// The records of a run of cycles, in order.
pub open spec fn poller_records(readouts: Seq<SensorReadout>) -> Seq<TelemetryRecord>
    decreases readouts.len(),
{
    if readouts.len() == 0 {
        seq![]
    } else {
        poller_records(readouts.drop_last()) + cycle_records(readouts.last())
    }
}

/// The poller task's state: whether it still produces.
pub struct SensorPoller {
    running: bool,
}

impl SensorPoller {
    pub closed spec fn is_running(self) -> bool {
        self.running
    }

    pub fn new() -> (p: Self)
        ensures
            p.is_running(),
    {
        SensorPoller { running: true }
    }

    pub fn running(&self) -> (r: bool)
        ensures
            r == self.is_running(),
    {
        self.running
    }

    /// The records to send for one read, in sending order; none once the
    /// poller has stopped.
    pub fn on_readout(&self, readout: SensorReadout) -> (r: Vec<TelemetryRecord>)
        ensures
            self.is_running() ==> r@ == cycle_records(readout),
            !self.is_running() ==> r@.len() == 0,
    {
        if self.running {
            let r = vec![
                TelemetryRecord::accel_point_from(readout.accel),
                TelemetryRecord::gyro_point_from(readout.gyro),
            ];
            proof {
                assert(r@ =~= cycle_records(readout));
            }
            r
        } else {
            Vec::new()
        }
    }

    /// Takes note of one send: a send that found the channel closed stops
    /// the poller for good.
    pub fn on_send_result(&mut self, delivered: bool)
        ensures
            final(self).is_running() == (old(self).is_running() && delivered),
    {
        self.running = self.running && delivered;
    }
}

/// Runs a fresh poller over a run of readouts, every send delivered, and
/// collects the records it sends, in order.
pub fn poll_records(readouts: &Vec<SensorReadout>) -> (r: Vec<TelemetryRecord>)
    ensures
        r@ == poller_records(readouts@),
{
    let mut p = SensorPoller::new();
    let mut r: Vec<TelemetryRecord> = Vec::new();
    let mut i: usize = 0;
    while i < readouts.len()
        invariant
            i <= readouts.len(),
            p.is_running(),
            r@ == poller_records(readouts@.take(i as int)),
        decreases readouts.len() - i,
    {
        let batch = p.on_readout(readouts[i]);
        let ghost before = r@;
        let mut j: usize = 0;
        while j < batch.len()
            invariant
                j <= batch.len(),
                p.is_running(),
                r@ == before + batch@.take(j as int),
            decreases batch.len() - j,
        {
            r.push(batch[j]);
            p.on_send_result(true);
            proof {
                assert(batch@.take(j as int + 1) =~= batch@.take(j as int).push(batch@[j as int]));
            }
            j = j + 1;
        }
        proof {
            let next = readouts@.take(i as int + 1);
            assert(next.drop_last() =~= readouts@.take(i as int));
            assert(batch@.take(batch.len() as int) =~= batch@);
        }
        i = i + 1;
    }
    proof {
        assert(readouts@.take(readouts.len() as int) =~= readouts@);
    }
    r
}

} // verus!
