//! The service's settings.

use vstd::prelude::*;

verus! {

/// All settings.
#[derive(Debug, Clone, PartialEq, Eq)]
pub struct Config {
    pub server: Server,
    pub urls: Urls,
}

/// Where the service listens, and how long it waits for one probe.
#[derive(Debug, Clone, PartialEq, Eq)]
pub struct Server {
    pub addr: String,
    pub port: u16,
    /// Time allowed for one attempt of a probe, in milliseconds.
    pub request_timeout: i64,
}

/// The upstream's endpoints.
#[derive(Debug, Clone, PartialEq, Eq)]
pub struct Urls {
    pub get_pay: String,
    pub init_funds: String,
    pub batch_pay_finish: String,
}

/// A setting in milliseconds as an unsigned count: the setting itself where
/// it is not negative, and the setting plus 2^64 where it is, which is more
/// time than any attempt takes.
pub open spec fn millis_of(setting: i64) -> u64 {
    if setting >= 0 {
        setting as u64
    } else {
        (setting + 0x1_0000_0000_0000_0000) as u64
    }
}

impl Server {
    /// Time allowed for one attempt of a probe, in milliseconds.
    pub fn request_timeout_millis(&self) -> (millis: u64)
        ensures
            millis == millis_of(self.request_timeout),
    {
        if self.request_timeout >= 0 {
            self.request_timeout as u64
        } else {
            u64::MAX - ((-(self.request_timeout + 1)) as u64)
        }
    }
}

} // verus!
