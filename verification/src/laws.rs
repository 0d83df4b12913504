//! Library-wide laws, stated over the same spec functions the public
//! contracts use and proved once and for all.

use vstd::prelude::*;

use crate::error::Error;
use crate::host::{unchanged_domain, HostState};
use crate::service::{req_step_domain, DesktopRequest, VirtualDesktops};

verus! {

/// Round trip: renaming a desktop to some other name and then back to its
/// original name leaves the name sequence exactly as it was before.
pub proof fn lemma_rename_round_trip(
    h0: HostState,
    h1: HostState,
    h2: HostState,
    d: usize,
    tmp: String,
    back: String,
)
    requires
        h0.wf(),
        d < h0.desktops@.len(),
        back@ == h0.names()[d as int],
        req_step_domain(h0, DesktopRequest::Rename(d, tmp), h1),
        req_step_domain(h1, DesktopRequest::Rename(d, back), h2),
    ensures
        h2.names() == h0.names(),
{
    assert(h2.names() =~= h0.names());
}

/// Agreement: two count queries answered from domain-unchanged states — as
/// every read-only call leaves them — report the same count, however many
/// callers interleave between them.
pub proof fn lemma_counts_agree(
    a: VirtualDesktops,
    b: VirtualDesktops,
    ra: Result<u32, Error>,
    rb: Result<u32, Error>,
)
    requires
        ra == Ok::<u32, Error>(a.host.desktops@.len() as u32),
        rb == Ok::<u32, Error>(b.host.desktops@.len() as u32),
        unchanged_domain(a.host, b.host),
    ensures
        ra == rb,
{
}

} // verus!
