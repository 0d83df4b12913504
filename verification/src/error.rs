//! Error taxonomy and the classifier that decides, for every raw failure,
//! whether recreating the service handle may help (recoverable) or the
//! failure must surface to the caller unchanged (fatal).

use vstd::prelude::*;

verus! {

/// The native component is not initialized in this process yet; classified
/// recoverable, and additionally asks for the one-time interop-runtime
/// initialization.
pub const CO_E_NOTINITIALIZED: u32 = 0x8004_01F0;

/// The class that owns the virtual desktops is not registered: the shell
/// component is down. Recoverable.
pub const REGDB_E_CLASSNOTREG: u32 = 0x8004_0154;

/// The RPC transport to the component is unavailable. Recoverable.
pub const RPC_S_SERVER_UNAVAILABLE: u32 = 0x8007_06BA;

/// A previously obtained connection point has been disconnected. Recoverable.
pub const RPC_E_DISCONNECTED: u32 = 0x8001_0108;

/// A raw status code as the native desktop-management component reports it.
#[derive(Clone, Copy, Debug, PartialEq, Eq, Structural, Hash)]
pub struct HRESULT {
    pub code: u32,
}

/// Every failure a caller of the public surface can observe.
#[derive(Clone, Copy, Debug, PartialEq, Eq, Structural)]
pub enum Error {
    /// The named desktop index or identifier names no current desktop.
    DesktopNotFound,
    /// The window handle names no current top-level window.
    WindowNotFound,
    /// Terminal: the service was never created, or every attempt within the
    /// retry bound failed.
    ServiceNotCreated,
    /// A fatal, uncategorized failure of the external component, surfaced
    /// verbatim for diagnosis.
    ExternalFailure(HRESULT),
}

/// The classifier's verdict on one raw failure.
#[derive(Clone, Copy, Debug, PartialEq, Eq, Structural)]
pub enum Verdict {
    /// Surface the failure to the caller at once; no retry may mask it.
    Fatal,
    /// Recreate the service handle and retry. When `needs_runtime_init`
    /// holds, the process-wide interop runtime must be initialized first.
    Recoverable { needs_runtime_init: bool },
}

/// Which raw status codes warrant recreating the service handle.
pub open spec fn spec_code_recoverable(code: u32) -> bool {
    ||| code == CO_E_NOTINITIALIZED
    ||| code == REGDB_E_CLASSNOTREG
    ||| code == RPC_S_SERVER_UNAVAILABLE
    ||| code == RPC_E_DISCONNECTED
}

/// Which raw status codes additionally ask for the one-time
/// interop-runtime initialization.
pub open spec fn spec_needs_runtime_init(code: u32) -> bool {
    code == CO_E_NOTINITIALIZED
}

/// Which failures warrant recreating the service handle: the transient
/// connectivity codes above, and a service that was never created. Every
/// other failure — not-found conditions and uncategorized codes — is fatal.
pub open spec fn spec_recoverable(e: Error) -> bool {
    match e {
        Error::ServiceNotCreated => true,
        Error::ExternalFailure(h) => spec_code_recoverable(h.code),
        _ => false,
    }
}

/// Pure classification of a failure into `Fatal` or `Recoverable`.
pub fn classify(e: &Error) -> (v: Verdict)
    ensures
        (v is Recoverable) == spec_recoverable(*e),
        v matches Verdict::Recoverable { needs_runtime_init } ==> needs_runtime_init == (
            e matches Error::ExternalFailure(h) && spec_needs_runtime_init(h.code)
        ),
{
    match e {
        Error::ServiceNotCreated => Verdict::Recoverable { needs_runtime_init: false },
        Error::ExternalFailure(h) => {
            if h.code == CO_E_NOTINITIALIZED {
                Verdict::Recoverable { needs_runtime_init: true }
            } else if h.code == REGDB_E_CLASSNOTREG || h.code == RPC_S_SERVER_UNAVAILABLE
                || h.code == RPC_E_DISCONNECTED {
                Verdict::Recoverable { needs_runtime_init: false }
            } else {
                Verdict::Fatal
            }
        },
        _ => Verdict::Fatal,
    }
}

} // verus!
