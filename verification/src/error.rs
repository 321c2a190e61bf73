use vstd::prelude::*;

verus! {

/// One step of the shell object-navigation chain used to reach the desktop
/// folder view. Each step acquires a narrower capability; any of them can be
/// absent on a given desktop environment, so a failure names its step.
#[derive(Clone, Copy, Debug, PartialEq, Eq, Structural)]
pub enum ShellStep {
    /// Establishing the scoped connection to the shell's object model.
    Connect,
    /// Obtaining the shell-windows collection object.
    ShellWindows,
    /// Locating the desktop window within the collection.
    DesktopWindow,
    /// Obtaining the service-provider capability from the desktop dispatch.
    ServiceProvider,
    /// Requesting the top-level browser service.
    Browser,
    /// Obtaining the active view and reinterpreting it as a folder view.
    FolderView,
    /// Writing the folder-view flag word.
    SetFlags,
}

/// Every failure the subsystem can surface. OS status codes are carried
/// verbatim for diagnosis; nothing is swallowed or retried beyond the bounded
/// size renegotiation of the query protocol.
#[derive(Clone, Copy, Debug, PartialEq, Eq, Structural)]
pub enum Error {
    /// A display-configuration query failed with the given OS status.
    OsQueryFailed(i32),
    /// A display-configuration apply failed with the given OS status.
    OsApplyFailed(i32),
    /// The shell navigation chain failed at the given step with the given
    /// OS status.
    ShellError(ShellStep, i32),
    /// A request broke a cross-field constraint and was rejected before any
    /// OS call was attempted.
    InvalidRequest,
}

} // verus!
