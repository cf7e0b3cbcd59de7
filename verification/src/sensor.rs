//! Sensor detection: the known sensor driver objects are tried in turn
//! until one initialises.
use vstd::prelude::*;

use crate::error::Error;
use crate::pipeline::{symbol_message, CallOutcome};

verus! {

/// The sensor driver objects tried, in priority order.
pub open spec fn sensor_object(i: int) -> Seq<char> {
    if i == 0 {
        "stSnsGc2053_Obj"@
    } else {
        "stSnsOv5647_Obj"@
    }
}

/// How many sensor driver objects are tried.
pub const SENSOR_COUNT: usize = 2;

/// The message when no known sensor answers.
pub open spec fn no_sensor_message() -> Seq<char> {
    "no supported sensor detected (tried GC2053, OV5647)"@
}

/// What a sensor probe concludes from one `CVI_ISP_SnsInit` call.
#[derive(Debug)]
pub enum ProbeVerdict {
    /// The sensor with this index initialised; probing is over.
    Detected(usize),
    /// This sensor did not initialise; try the next one.
    TryNext,
    /// Probing failed with this error.
    Failed(Error),
}

/// Detects the camera sensor by trying each known sensor driver object in
/// turn: an object whose symbol is absent is skipped, one whose
/// initialisation returns non-zero is passed over, and the first that
/// initialises is the sensor.
#[derive(Debug)]
pub struct SensorProbe {
    next: usize,
}

impl SensorProbe {
    /// The index of the sensor object to try next.
    pub closed spec fn position(&self) -> nat {
        self.next as nat
    }

    /// A probe that starts with the first sensor object.
    pub fn new() -> (p: Self)
        ensures
            p.position() == 0,
    {
        SensorProbe { next: 0 }
    }

    /// The sensor object to try next, or `None` when all have been tried.
    pub fn next_sensor(&self) -> (r: Option<usize>)
        ensures
            self.position() < SENSOR_COUNT ==> r == Some(self.position() as usize),
            self.position() >= SENSOR_COUNT ==> r is None,
    {
        if self.next < SENSOR_COUNT {
            Some(self.next)
        } else {
            None
        }
    }

    /// The symbol name of the sensor object with index `i`.
    pub fn object_name(i: usize) -> (s: &'static str)
        requires
            i < SENSOR_COUNT,
        ensures
            s@ == sensor_object(i as int),
    {
        if i == 0 {
            "stSnsGc2053_Obj"
        } else {
            "stSnsOv5647_Obj"
        }
    }

    /// The current sensor object's symbol was not found: move on.
    pub fn object_missing(&mut self)
        ensures
            final(self).position() == if old(self).position() < SENSOR_COUNT {
                old(self).position() + 1
            } else {
                old(self).position()
            },
    {
        if self.next < SENSOR_COUNT {
            self.next = self.next + 1;
        }
    }

    /// Judge how `CVI_ISP_SnsInit` went for the current sensor object.
    pub fn init_outcome(&mut self, outcome: &CallOutcome) -> (v: ProbeVerdict)
        ensures
            old(self).position() >= SENSOR_COUNT ==> (v matches ProbeVerdict::TryNext
                && final(self).position() == old(self).position()),
            old(self).position() < SENSOR_COUNT ==> match *outcome {
                CallOutcome::SymbolMissing(d) => v matches ProbeVerdict::Failed(Error::Camera(m))
                    && m@ == symbol_message("ISP_SnsInit"@, d@) && final(self).position()
                    == old(self).position(),
                CallOutcome::Returned(rc) => if rc == 0 {
                    v matches ProbeVerdict::Detected(i) && i == old(self).position()
                        && final(self).position() == old(self).position()
                } else {
                    v matches ProbeVerdict::TryNext && final(self).position() == old(
                        self,
                    ).position() + 1
                },
            },
    {
        if self.next >= SENSOR_COUNT {
            return ProbeVerdict::TryNext;
        }
        match outcome {
            CallOutcome::SymbolMissing(d) => {
                let m = String::from_str("ISP_SnsInit").concat(" symbol: ").concat(d.as_str());
                ProbeVerdict::Failed(Error::Camera(m))
            },
            CallOutcome::Returned(rc) => {
                if *rc == 0 {
                    ProbeVerdict::Detected(self.next)
                } else {
                    self.next = self.next + 1;
                    ProbeVerdict::TryNext
                }
            },
        }
    }

    /// The error when every sensor object has been tried without success.
    pub fn no_sensor_error() -> (e: Error)
        ensures
            e matches Error::Camera(m) && m@ == no_sensor_message(),
    {
        Error::Camera(String::from_str("no supported sensor detected (tried GC2053, OV5647)"))
    }
}

} // verus!
