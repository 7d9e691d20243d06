//! The state of the application as a whole.

use vstd::prelude::*;
use vstd::string::*;

verus! {

/// The state of the application.
#[derive(Debug, Clone)]
pub struct SystemStatus {
    pub version: String,
    pub db_connected: bool,
    pub gemini_configured: bool,
    pub voice_available: bool,
    pub timezone: String,
    pub uptime_seconds: u64,
}

/// What a `SystemStatus` says.
pub struct SystemStatusView {
    pub version: Seq<char>,
    pub db_connected: bool,
    pub gemini_configured: bool,
    pub voice_available: bool,
    pub timezone: Seq<char>,
    pub uptime_seconds: int,
}

impl View for SystemStatus {
    type V = SystemStatusView;

    open spec fn view(&self) -> SystemStatusView {
        SystemStatusView {
            version: self.version@,
            db_connected: self.db_connected,
            gemini_configured: self.gemini_configured,
            voice_available: self.voice_available,
            timezone: self.timezone@,
            uptime_seconds: self.uptime_seconds as int,
        }
    }
}

/// The state of the application. Whoever can ask has a store; voice and
/// uptime are not tracked; the time zone is Western European Time.
pub fn get_system_status(version: String, gemini_configured: bool) -> (status: SystemStatus)
    ensures
        status@ == (SystemStatusView {
            version: version@,
            db_connected: true,
            gemini_configured,
            voice_available: false,
            timezone: "WET"@,
            uptime_seconds: 0,
        }),
{
    SystemStatus {
        version,
        db_connected: true,
        gemini_configured,
        voice_available: false,
        timezone: String::from_str("WET"),
        uptime_seconds: 0,
    }
}

} // verus!
