//! Error kinds of the engine.
//!
//! Backend construction failures are recovered locally by advancing the
//! fallback chain; these kinds record why a probe failed. A sensor that does
//! not exist is unsupported hardware; one that exists but cannot be read is
//! a permission problem; one that reads but does not parse is a transient
//! monitoring fault.

use vstd::prelude::*;
use vstd::string::StringExecFns;

verus! {

/// Engine-wide error type.
#[derive(Debug)]
pub enum Error {
    /// The expected sensor, file or API is absent on this platform.
    HardwareNotSupported(String),
    /// The sensor exists but is unreadable without elevated rights.
    PermissionDenied(String),
    /// A transient monitoring fault: malformed sensor output or a failed
    /// bridge query.
    PowerMonitor(String),
}

impl Error {
    /// The human-readable detail the error carries.
    pub fn message(&self) -> (r: &String)
        ensures
            r@ == (match self {
                Error::HardwareNotSupported(m) => m@,
                Error::PermissionDenied(m) => m@,
                Error::PowerMonitor(m) => m@,
            }),
    {
        match self {
            Error::HardwareNotSupported(m) => m,
            Error::PermissionDenied(m) => m,
            Error::PowerMonitor(m) => m,
        }
    }
}

/// The outcome of probing one sensor register at the platform edge, as plain
/// values.
#[derive(Debug, Clone, Copy, PartialEq, Eq, Structural)]
pub enum SensorProbe {
    /// The sensor file or API does not exist.
    Missing,
    /// The sensor exists but reading it was refused.
    Unreadable,
    /// The sensor was read but its output did not parse.
    Unparsable,
    /// The sensor produced this raw value.
    Reading(u64),
}

/// Classify a probe outcome: a value passes through, and each failure mode
/// maps to its error kind, carrying the probe's description.
pub fn classify_probe(probe: SensorProbe, detail: &str) -> (r: Result<u64, Error>)
    ensures
        match probe {
            SensorProbe::Reading(v) => r == Ok::<u64, Error>(v),
            SensorProbe::Missing => r matches Err(Error::HardwareNotSupported(m)) && m@
                == detail@,
            SensorProbe::Unreadable => r matches Err(Error::PermissionDenied(m)) && m@
                == detail@,
            SensorProbe::Unparsable => r matches Err(Error::PowerMonitor(m)) && m@ == detail@,
        },
{
    match probe {
        SensorProbe::Reading(v) => Ok(v),
        SensorProbe::Missing => Err(Error::HardwareNotSupported(String::from_str(detail))),
        SensorProbe::Unreadable => Err(Error::PermissionDenied(String::from_str(detail))),
        SensorProbe::Unparsable => Err(Error::PowerMonitor(String::from_str(detail))),
    }
}

} // verus!
