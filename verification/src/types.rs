//! Identifiers and error types shared by the browser shell components.
use vstd::prelude::*;

verus! {

/// Identifier of a browser tab.
#[derive(Debug, Clone, Copy, PartialEq, Eq, Hash, Structural)]
pub struct TabId(pub u64);

/// Identifier of a browser window.
#[derive(Debug, Clone, Copy, PartialEq, Eq, Hash, Structural)]
pub struct WindowId(pub u64);

/// Identifier of an operating-system process.
#[derive(Debug, Clone, Copy, PartialEq, Eq, Hash, Structural)]
pub struct ProcessId(pub u32);

/// Identifier of a render surface.
#[derive(Debug, Clone, Copy, PartialEq, Eq, Hash, Structural)]
pub struct RenderSurfaceId(pub u64);

/// Identifier of a download.
#[derive(Debug, Clone, Copy, PartialEq, Eq, Hash, Structural)]
pub struct DownloadId(pub u64);

/// A fresh random 64-bit value, drawn from a version 4 UUID.
///
/// Trusted: calls `uuid::Uuid::new_v4` and keeps the first half of its
/// 128 bits.  The value rests on chance, so nothing is stated of it.
#[verifier::external_body]
pub(crate) fn random_u64() -> u64 {
    uuid::Uuid::new_v4().as_u64_pair().0
}

impl TabId {
    /// A new tab identifier drawn at random.
    pub fn new() -> TabId {
        TabId(random_u64())
    }
}

impl WindowId {
    /// A new window identifier drawn at random.
    pub fn new() -> WindowId {
        WindowId(random_u64())
    }
}

impl RenderSurfaceId {
    /// A new render-surface identifier drawn at random.
    pub fn new() -> RenderSurfaceId {
        RenderSurfaceId(random_u64())
    }
}

impl DownloadId {
    /// A new download identifier drawn at random.
    pub fn new() -> DownloadId {
        DownloadId(random_u64())
    }
}

impl ProcessId {
    /// Wraps an operating-system process id.
    pub fn new(pid: u32) -> (r: ProcessId)
        ensures
            r.0 == pid,
    {
        ProcessId(pid)
    }
}

/// Errors reported by UI components.
#[derive(Debug, Clone, PartialEq, Eq)]
pub enum ComponentError {
    /// The requested resource does not exist.
    ResourceNotFound(String),
    /// The component is in a state that forbids the operation.
    InvalidState(String),
}

/// Errors reported by tab operations.
#[derive(Debug, Clone, PartialEq, Eq)]
pub enum TabError {
    /// No tab has this identifier.
    NotFound(TabId),
    /// The tab could not be created.
    CreationFailed(String),
    /// The navigation could not be performed.
    NavigationFailed(String),
}

/// Errors of session persistence.
#[derive(Debug, Clone, PartialEq, Eq)]
pub enum SessionError {
    /// Reading or writing a file failed.
    IoError(String),
    /// The session could not be written as JSON.
    SerializationError(String),
    /// Saving failed.
    SaveFailed(String),
    /// No saved session at this path.
    NotFound(String),
    /// The saved session cannot be used.
    Corrupted(String),
}

/// Keyboard shortcuts that the browser chrome reacts to.
#[derive(Debug, Clone, Copy, PartialEq, Eq, Hash, Structural)]
pub enum KeyboardShortcut {
    CtrlT,
    CtrlW,
    CtrlN,
    CtrlShiftN,
    CtrlTab,
    CtrlShiftTab,
    CtrlL,
    F5,
    CtrlR,
    CtrlShiftR,
    CtrlD,
    CtrlH,
    CtrlJ,
    F11,
    F12,
}

/// Seconds since the UNIX epoch according to the system clock.
///
/// Trusted: calls `std::time::SystemTime::now` and measures it from
/// `UNIX_EPOCH` (zero when the clock is before the epoch).  The value
/// depends on the clock, so nothing is stated of it.
#[verifier::external_body]
pub(crate) fn unix_seconds_now() -> u64 {
    match std::time::SystemTime::now().duration_since(std::time::UNIX_EPOCH) {
        Ok(d) => d.as_secs(),
        Err(_) => 0,
    }
}

/// Milliseconds since the UNIX epoch according to the system clock.
///
/// Trusted: calls `std::time::SystemTime::now` and measures it from
/// `UNIX_EPOCH` in milliseconds, truncated to 64 bits (zero when the clock is
/// before the epoch).  The value depends on the clock, so nothing is stated.
#[verifier::external_body]
pub(crate) fn unix_millis_now() -> u64 {
    match std::time::SystemTime::now().duration_since(std::time::UNIX_EPOCH) {
        Ok(d) => d.as_millis() as u64,
        Err(_) => 0,
    }
}

} // verus!
