//! The resilient dispatcher. A context owns the shared service state —
//! either a live handle or the reason it is absent — and runs every domain
//! request through a bounded retry/recreate protocol: invoke against the
//! current snapshot, classify a failure, return fatal ones at once, recreate
//! the handle and retry recoverable ones, up to `ATTEMPT_LIMIT` attempts.

use vstd::prelude::*;

use crate::error::{
    classify, spec_code_recoverable, spec_recoverable, Error, Verdict, HRESULT,
};
use crate::events::{DesktopEvent, EventBridge};
use crate::host::{
    find_desktop, find_pinned, find_window, list_desktops, list_names, unchanged_domain,
    unchanged_host, DesktopID, HostDesktop, HostState, HostWindow, HWND,
};

verus! {

/// Bound on attempts per call: enough to absorb a shell restart, small
/// enough not to spin against a persistently absent component. Tunable.
pub const ATTEMPT_LIMIT: usize = 6;

/// A live connection to the external component. Destroyed and replaced on
/// recreation; `events_armed` records whether desktop-change delivery was
/// requested on this particular connection.
#[derive(Clone, Copy, Debug)]
pub struct ServiceHandle {
    pub generation: u64,
    pub events_armed: bool,
}

/// The shared cell's content: a live handle, or the reason none exists —
/// either never yet created, or creation failed with a classifiable cause.
#[derive(Clone, Copy, Debug)]
pub enum ServiceState {
    Ready(ServiceHandle),
    Unavailable(Error),
}

/// One domain request against the service.
pub enum DesktopRequest {
    GetDesktops,
    GetIndexByDesktop(DesktopID),
    GetNames,
    GetCount,
    GetCurrent,
    GetByWindow(HWND),
    IsOnCurrent(HWND),
    IsOnDesktop(HWND, usize),
    Rename(usize, String),
    MoveWindow(HWND, usize),
    GoTo(usize),
    IsPinned(HWND),
    Pin(HWND),
    Unpin(HWND),
    Subscribe,
}

/// One successful reply.
pub enum DesktopResponse {
    Desktops(Vec<DesktopID>),
    Index(usize),
    Names(Vec<String>),
    Count(u32),
    Flag(bool),
    Done,
}

/// Whether a domain request succeeds against this component state.
pub open spec fn req_ok(h: HostState, req: DesktopRequest) -> bool {
    match req {
        DesktopRequest::GetDesktops => true,
        DesktopRequest::GetNames => true,
        DesktopRequest::GetCount => true,
        DesktopRequest::GetCurrent => true,
        DesktopRequest::Subscribe => true,
        DesktopRequest::GetIndexByDesktop(id) => h.has_id(id),
        DesktopRequest::GetByWindow(w) => h.has_window(w),
        DesktopRequest::IsOnCurrent(w) => h.has_window(w),
        DesktopRequest::IsPinned(w) => h.has_window(w),
        DesktopRequest::Pin(w) => h.has_window(w),
        DesktopRequest::Unpin(w) => h.has_window(w),
        DesktopRequest::IsOnDesktop(w, d) => d < h.desktops@.len() && h.has_window(w),
        DesktopRequest::Rename(d, _) => d < h.desktops@.len(),
        DesktopRequest::MoveWindow(w, d) => d < h.desktops@.len() && h.has_window(w),
        DesktopRequest::GoTo(d) => d < h.desktops@.len(),
    }
}

/// The domain error a failing request reports: a stale desktop index or
/// identifier gives `DesktopNotFound` (checked first where both apply), a
/// stale window handle gives `WindowNotFound`.
pub open spec fn req_err(h: HostState, req: DesktopRequest) -> Error
    recommends
        !req_ok(h, req),
{
    match req {
        DesktopRequest::GetIndexByDesktop(_) => Error::DesktopNotFound,
        DesktopRequest::GetByWindow(_) => Error::WindowNotFound,
        DesktopRequest::IsOnCurrent(_) => Error::WindowNotFound,
        DesktopRequest::IsPinned(_) => Error::WindowNotFound,
        DesktopRequest::Pin(_) => Error::WindowNotFound,
        DesktopRequest::Unpin(_) => Error::WindowNotFound,
        DesktopRequest::IsOnDesktop(_, d) => if d >= h.desktops@.len() {
            Error::DesktopNotFound
        } else {
            Error::WindowNotFound
        },
        DesktopRequest::MoveWindow(_, d) => if d >= h.desktops@.len() {
            Error::DesktopNotFound
        } else {
            Error::WindowNotFound
        },
        DesktopRequest::Rename(..) => Error::DesktopNotFound,
        DesktopRequest::GoTo(_) => Error::DesktopNotFound,
        _ => Error::ServiceNotCreated,
    }
}

/// What a successful reply says about the component state it was read from.
pub open spec fn resp_matches(h: HostState, req: DesktopRequest, resp: DesktopResponse) -> bool {
    match req {
        DesktopRequest::GetDesktops => resp matches DesktopResponse::Desktops(v) && v@ == h.ids(),
        DesktopRequest::GetIndexByDesktop(id) => resp matches DesktopResponse::Index(i)
            && i < h.desktops@.len() && h.desktops@[i as int].id == id,
        DesktopRequest::GetNames => resp matches DesktopResponse::Names(v) && v@.map_values(
            |s: String| s@,
        ) == h.names(),
        DesktopRequest::GetCount => resp == DesktopResponse::Count(h.desktops@.len() as u32),
        DesktopRequest::GetCurrent => resp == DesktopResponse::Index(h.current),
        DesktopRequest::GetByWindow(w) => resp matches DesktopResponse::Index(i)
            && i < h.desktops@.len() && h.window_home(w, h.desktops@[i as int].id),
        DesktopRequest::IsOnCurrent(w) => resp == DesktopResponse::Flag(
            h.on_desktop(w, h.current as int),
        ),
        DesktopRequest::IsOnDesktop(w, d) => resp == DesktopResponse::Flag(
            h.on_desktop(w, d as int),
        ),
        DesktopRequest::IsPinned(w) => resp == DesktopResponse::Flag(h.is_pinned(w)),
        DesktopRequest::Rename(..) => resp is Done,
        DesktopRequest::MoveWindow(..) => resp is Done,
        DesktopRequest::GoTo(_) => resp is Done,
        DesktopRequest::Pin(_) => resp is Done,
        DesktopRequest::Unpin(_) => resp is Done,
        DesktopRequest::Subscribe => resp is Done,
    }
}

/// The reply variant each request produces.
pub open spec fn resp_shape(req: DesktopRequest, resp: DesktopResponse) -> bool {
    match req {
        DesktopRequest::GetDesktops => resp is Desktops,
        DesktopRequest::GetIndexByDesktop(_) => resp is Index,
        DesktopRequest::GetCurrent => resp is Index,
        DesktopRequest::GetByWindow(_) => resp is Index,
        DesktopRequest::GetNames => resp is Names,
        DesktopRequest::GetCount => resp is Count,
        DesktopRequest::IsOnCurrent(_) => resp is Flag,
        DesktopRequest::IsOnDesktop(..) => resp is Flag,
        DesktopRequest::IsPinned(_) => resp is Flag,
        _ => resp is Done,
    }
}

proof fn lemma_resp_shape(h: HostState, req: DesktopRequest, res: Result<DesktopResponse, Error>)
    requires
        res matches Ok(resp) ==> resp_matches(h, req, resp),
    ensures
        res matches Ok(resp) ==> resp_shape(req, resp),
{
    match req {
        DesktopRequest::GetDesktops => {},
        DesktopRequest::GetIndexByDesktop(_) => {},
        DesktopRequest::GetNames => {},
        DesktopRequest::GetCount => {},
        DesktopRequest::GetCurrent => {},
        DesktopRequest::GetByWindow(_) => {},
        DesktopRequest::IsOnCurrent(_) => {},
        DesktopRequest::IsOnDesktop(..) => {},
        DesktopRequest::Rename(..) => {},
        DesktopRequest::MoveWindow(..) => {},
        DesktopRequest::GoTo(_) => {},
        DesktopRequest::IsPinned(_) => {},
        DesktopRequest::Pin(_) => {},
        DesktopRequest::Unpin(_) => {},
        DesktopRequest::Subscribe => {},
    }
}

/// How one successful domain request changes the component state: nothing
/// but the named desktop's name, the named window's desktop, the current
/// index or the pinned set, respectively; fault queues aside.
pub open spec fn req_step_domain(h: HostState, req: DesktopRequest, h2: HostState) -> bool {
    match req {
        DesktopRequest::Rename(d, name) => {
            &&& h2.desktops@ == h.desktops@.update(
                d as int,
                HostDesktop { id: h.desktops@[d as int].id, name },
            )
            &&& h2.current == h.current
            &&& h2.windows@ == h.windows@
            &&& h2.pinned@ == h.pinned@
        },
        DesktopRequest::MoveWindow(w, d) => {
            &&& exists|j: int|
                0 <= j < h.windows@.len() && #[trigger] h.windows@[j].hwnd == w && h2.windows@
                    == h.windows@.update(
                    j,
                    HostWindow { hwnd: w, desktop: h.desktops@[d as int].id },
                )
            &&& h2.desktops@ == h.desktops@
            &&& h2.current == h.current
            &&& h2.pinned@ == h.pinned@
        },
        DesktopRequest::GoTo(d) => {
            &&& h2.current == d
            &&& h2.desktops@ == h.desktops@
            &&& h2.windows@ == h.windows@
            &&& h2.pinned@ == h.pinned@
        },
        DesktopRequest::Pin(w) => {
            &&& h2.pinned@ == (if h.is_pinned(w) {
                h.pinned@
            } else {
                h.pinned@.push(w)
            })
            &&& h2.desktops@ == h.desktops@
            &&& h2.current == h.current
            &&& h2.windows@ == h.windows@
        },
        DesktopRequest::Unpin(w) => {
            &&& (if h.is_pinned(w) {
                exists|j: int|
                    0 <= j < h.pinned@.len() && #[trigger] h.pinned@[j] == w && h2.pinned@
                        == h.pinned@.remove(j)
            } else {
                h2.pinned@ == h.pinned@
            })
            &&& h2.desktops@ == h.desktops@
            &&& h2.current == h.current
            &&& h2.windows@ == h.windows@
        },
        _ => unchanged_domain(h, h2),
    }
}

/// The event a successful mutating request announces, read off the state
/// before the request ran.
pub open spec fn emitted_event(h: HostState, req: DesktopRequest) -> Option<DesktopEvent>
    recommends
        req_ok(h, req),
{
    match req {
        DesktopRequest::GoTo(d) => Some(
            DesktopEvent::DesktopChanged {
                old: h.desktops@[h.current as int].id,
                new: h.desktops@[d as int].id,
            },
        ),
        DesktopRequest::Rename(d, name) => Some(
            DesktopEvent::DesktopNameChanged(h.desktops@[d as int].id, name),
        ),
        _ => None,
    }
}

/// Run one domain request against the component: a queued fault fails the
/// request with that raw code; otherwise the request validates its inputs
/// and reads or changes the component state.
fn invoke(host: &mut HostState, req: &DesktopRequest) -> (r: Result<DesktopResponse, Error>)
    requires
        old(host).wf(),
    ensures
        final(host).wf(),
        final(host).create_faults@ == old(host).create_faults@,
        old(host).op_faults@.len() > 0 ==> {
            &&& r == Err::<DesktopResponse, Error>(
                Error::ExternalFailure(HRESULT { code: old(host).op_faults@[0] }),
            )
            &&& unchanged_domain(*old(host), *final(host))
            &&& final(host).op_faults@ == old(host).op_faults@.skip(1)
        },
        old(host).op_faults@.len() == 0 ==> {
            &&& final(host).op_faults@ == old(host).op_faults@
            &&& (req_ok(*old(host), *req) ==> (r matches Ok(resp) && resp_matches(
                *old(host),
                *req,
                resp,
            ) && req_step_domain(*old(host), *req, *final(host))))
            &&& (!req_ok(*old(host), *req) ==> r == Err::<DesktopResponse, Error>(
                req_err(*old(host), *req),
            ) && unchanged_domain(*old(host), *final(host)))
        },
{
    if host.op_faults.len() > 0 {
        let code = host.op_faults.remove(0);
        proof {
            assert(host.op_faults@ =~= old(host).op_faults@.skip(1));
        }
        return Err(Error::ExternalFailure(HRESULT { code }));
    }
    match req {
        DesktopRequest::GetDesktops => Ok(DesktopResponse::Desktops(list_desktops(host))),
        DesktopRequest::GetNames => Ok(DesktopResponse::Names(list_names(host))),
        DesktopRequest::GetCount => Ok(DesktopResponse::Count(host.desktops.len() as u32)),
        DesktopRequest::GetCurrent => Ok(DesktopResponse::Index(host.current)),
        DesktopRequest::GetIndexByDesktop(id) => match find_desktop(host, *id) {
            Some(i) => Ok(DesktopResponse::Index(i)),
            None => Err(Error::DesktopNotFound),
        },
        DesktopRequest::GetByWindow(w) => match find_window(host, *w) {
            Some(j) => {
                let id = host.windows[j].desktop;
                match find_desktop(host, id) {
                    Some(i) => Ok(DesktopResponse::Index(i)),
                    None => vstd::pervasive::unreached(),
                }
            },
            None => Err(Error::WindowNotFound),
        },
        DesktopRequest::IsOnCurrent(w) => match find_window(host, *w) {
            Some(j) => {
                let pinned = find_pinned(host, *w).is_some();
                let b = pinned || host.windows[j].desktop == host.desktops[host.current].id;
                proof {
                    lemma_on_desktop(*host, *w, j as int, host.current as int, b);
                }
                Ok(DesktopResponse::Flag(b))
            },
            None => Err(Error::WindowNotFound),
        },
        DesktopRequest::IsOnDesktop(w, d) => {
            if *d >= host.desktops.len() {
                Err(Error::DesktopNotFound)
            } else {
                match find_window(host, *w) {
                    Some(j) => {
                        let pinned = find_pinned(host, *w).is_some();
                        let b = pinned || host.windows[j].desktop == host.desktops[*d].id;
                        proof {
                            lemma_on_desktop(*host, *w, j as int, *d as int, b);
                        }
                        Ok(DesktopResponse::Flag(b))
                    },
                    None => Err(Error::WindowNotFound),
                }
            }
        },
        DesktopRequest::IsPinned(w) => match find_window(host, *w) {
            Some(_) => Ok(DesktopResponse::Flag(find_pinned(host, *w).is_some())),
            None => Err(Error::WindowNotFound),
        },
        DesktopRequest::Rename(d, name) => {
            if *d >= host.desktops.len() {
                Err(Error::DesktopNotFound)
            } else {
                let id = host.desktops[*d].id;
                host.desktops[*d] = HostDesktop { id, name: name.clone() };
                proof {
                    assert forall|i: int| 0 <= i < host.windows@.len() implies host.has_id(
                        #[trigger] host.windows@[i].desktop,
                    ) by {
                        assert(old(host).has_id(old(host).windows@[i].desktop));
                        let j = choose|j: int|
                            0 <= j < old(host).desktops@.len() && old(host).desktops@[j].id == old(
                                host,
                            ).windows@[i].desktop;
                        assert(host.desktops@[j].id == old(host).desktops@[j].id);
                    }
                }
                Ok(DesktopResponse::Done)
            }
        },
        DesktopRequest::MoveWindow(w, d) => {
            if *d >= host.desktops.len() {
                Err(Error::DesktopNotFound)
            } else {
                match find_window(host, *w) {
                    Some(j) => {
                        let id = host.desktops[*d].id;
                        host.windows[j] = HostWindow { hwnd: *w, desktop: id };
                        proof {
                            assert(host.desktops@ == old(host).desktops@);
                            assert forall|i: int| 0 <= i < host.windows@.len() implies host.has_id(
                                #[trigger] host.windows@[i].desktop,
                            ) by {
                                if i == j as int {
                                    assert(host.desktops@[*d as int].id == host.windows@[i].desktop);
                                } else {
                                    assert(old(host).has_id(old(host).windows@[i].desktop));
                                    let j2 = choose|j2: int|
                                        0 <= j2 < old(host).desktops@.len() && old(
                                            host,
                                        ).desktops@[j2].id == old(host).windows@[i].desktop;
                                    assert(host.desktops@[j2].id == host.windows@[i].desktop);
                                }
                            }
                        }
                        Ok(DesktopResponse::Done)
                    },
                    None => Err(Error::WindowNotFound),
                }
            }
        },
        DesktopRequest::GoTo(d) => {
            if *d >= host.desktops.len() {
                Err(Error::DesktopNotFound)
            } else {
                host.current = *d;
                Ok(DesktopResponse::Done)
            }
        },
        DesktopRequest::Pin(w) => match find_window(host, *w) {
            Some(_) => {
                match find_pinned(host, *w) {
                    Some(_) => (),
                    None => {
                        host.pinned.push(*w);
                    },
                }
                Ok(DesktopResponse::Done)
            },
            None => Err(Error::WindowNotFound),
        },
        DesktopRequest::Unpin(w) => match find_window(host, *w) {
            Some(_) => {
                match find_pinned(host, *w) {
                    Some(j) => {
                        let _ = host.pinned.remove(j);
                    },
                    None => (),
                }
                Ok(DesktopResponse::Done)
            },
            None => Err(Error::WindowNotFound),
        },
        DesktopRequest::Subscribe => Ok(DesktopResponse::Done),
    }
}

/// `b` computed from one matching window agrees with `on_desktop`, because
/// window handles are distinct.
proof fn lemma_on_desktop(h: HostState, w: HWND, j: int, d: int, b: bool)
    requires
        h.wf(),
        0 <= j < h.windows@.len(),
        h.windows@[j].hwnd == w,
        0 <= d < h.desktops@.len(),
        b == (h.is_pinned(w) || h.windows@[j].desktop == h.desktops@[d].id),
    ensures
        b == h.on_desktop(w, d),
{
    if !b {
        assert forall|k: int|
            0 <= k < h.windows@.len() && #[trigger] h.windows@[k].hwnd == w implies h.windows@[k].desktop
            != h.desktops@[d].id by {
            if k < j {
                assert(h.windows@[k].hwnd != h.windows@[j].hwnd);
            } else if k > j {
                assert(h.windows@[j].hwnd != h.windows@[k].hwnd);
            }
        }
    }
}

/// The shared context: the guarded service state, the component it talks
/// to, the event bridge, and the process-wide subscription and runtime
/// markers. `recreations` counts factory invocations.
pub struct VirtualDesktops {
    pub host: HostState,
    pub state: ServiceState,
    pub bridge: EventBridge,
    pub has_listeners: bool,
    pub runtime_ready: bool,
    pub recreations: u64,
}

/// Outcome of one attempt of the protocol.
enum Attempt {
    Done(Result<DesktopResponse, Error>),
    Retry,
}

/// The bridge kept its subscribers.
pub open spec fn bridge_stable(pre: VirtualDesktops, post: VirtualDesktops) -> bool {
    &&& post.bridge.senders@ == pre.bridge.senders@
    &&& post.bridge.joins@ == pre.bridge.joins@
}

impl VirtualDesktops {
    pub open spec fn wf(self) -> bool {
        &&& self.host.wf()
        &&& self.bridge.wf()
    }

    /// No faults are queued and the service is either live or absent for a
    /// recoverable reason: the next call is owed a domain answer.
    pub open spec fn serviceable(self) -> bool {
        &&& self.host.op_faults@.len() == 0
        &&& self.host.create_faults@.len() == 0
        &&& match self.state {
            ServiceState::Ready(_) => true,
            ServiceState::Unavailable(e) => spec_recoverable(e),
        }
    }

    /// The service is live and its next operation fails with a fatal code.
    pub open spec fn fatal_fault_next(self) -> bool {
        &&& self.state is Ready
        &&& self.host.op_faults@.len() > 0
        &&& !spec_code_recoverable(self.host.op_faults@[0])
    }

    /// The service is live, exactly one recoverable fault is queued, and
    /// recreation will succeed.
    pub open spec fn one_recoverable_fault(self) -> bool {
        &&& self.state is Ready
        &&& self.host.op_faults@.len() == 1
        &&& spec_code_recoverable(self.host.op_faults@[0])
        &&& self.host.create_faults@.len() == 0
    }

    /// The error carrying the next queued fault code.
    pub open spec fn first_fault_error(self) -> Error {
        Error::ExternalFailure(HRESULT { code: self.host.op_faults@[0] })
    }

    /// The error carrying the next queued connection-fault code.
    pub open spec fn first_fault_create_error(self) -> Error {
        Error::ExternalFailure(HRESULT { code: self.host.create_faults@[0] })
    }

    /// A context over a seeded component state: no service yet, an empty
    /// event bridge, nothing subscribed, the runtime not initialized.
    pub fn new(host: HostState) -> (s: VirtualDesktops)
        requires
            host.wf(),
        ensures
            s.wf(),
            s.host == host,
            s.state == ServiceState::Unavailable(Error::ServiceNotCreated),
            s.bridge.senders@.len() == 0,
            s.bridge.history@ == Seq::<DesktopEvent>::empty(),
            !s.has_listeners,
            !s.runtime_ready,
            s.recreations == 0,
            s.serviceable() <== host.op_faults@.len() == 0 && host.create_faults@.len() == 0,
    {
        VirtualDesktops {
            host,
            state: ServiceState::Unavailable(Error::ServiceNotCreated),
            bridge: EventBridge::new(),
            has_listeners: false,
            runtime_ready: false,
            recreations: 0,
        }
    }

    /// The explicit one-time interop-runtime initialization step, invoked
    /// when classification signals the need. Idempotent: a second call
    /// changes nothing.
    fn ensure_runtime(&mut self)
        requires
            old(self).wf(),
        ensures
            final(self).wf(),
            final(self).runtime_ready,
            final(self).host == old(self).host,
            final(self).state == old(self).state,
            final(self).bridge == old(self).bridge,
            final(self).has_listeners == old(self).has_listeners,
            final(self).recreations == old(self).recreations,
    {
        self.runtime_ready = true;
    }

    /// The factory: one attempt to obtain a live connection. Consumes one
    /// queued connection fault, if any; counts the invocation either way.
    pub(crate) fn try_create(&mut self) -> (r: Result<ServiceHandle, Error>)
        requires
            old(self).wf(),
        ensures
            final(self).wf(),
            unchanged_domain(old(self).host, final(self).host),
            final(self).host.op_faults@ == old(self).host.op_faults@,
            final(self).state == old(self).state,
            final(self).bridge == old(self).bridge,
            final(self).has_listeners == old(self).has_listeners,
            final(self).recreations == (if old(self).recreations < u64::MAX {
                (old(self).recreations + 1) as u64
            } else {
                u64::MAX
            }),
            old(self).host.create_faults@.len() == 0 ==> {
                &&& r matches Ok(h) && h.events_armed == old(self).has_listeners
                &&& final(self).host.create_faults@ == old(self).host.create_faults@
            },
            old(self).host.create_faults@.len() > 0 ==> {
                &&& r == Err::<ServiceHandle, Error>(
                    Error::ExternalFailure(HRESULT { code: old(self).host.create_faults@[0] }),
                )
                &&& final(self).host.create_faults@ == old(self).host.create_faults@.skip(1)
            },
    {
        if self.recreations < u64::MAX {
            self.recreations = self.recreations + 1;
        }
        if self.host.create_faults.len() > 0 {
            let code = self.host.create_faults.remove(0);
            proof {
                assert(self.host.create_faults@ =~= old(self).host.create_faults@.skip(1));
            }
            return Err(Error::ExternalFailure(HRESULT { code }));
        }
        Ok(ServiceHandle { generation: self.recreations, events_armed: self.has_listeners })
    }

    /// The recreation step: invoke the factory and store the outcome —
    /// `Ready` or `Unavailable` — as the new current snapshot.
    fn recreate(&mut self)
        requires
            old(self).wf(),
        ensures
            final(self).wf(),
            unchanged_domain(old(self).host, final(self).host),
            final(self).host.op_faults@ == old(self).host.op_faults@,
            final(self).bridge == old(self).bridge,
            final(self).has_listeners == old(self).has_listeners,
            final(self).recreations == (if old(self).recreations < u64::MAX {
                (old(self).recreations + 1) as u64
            } else {
                u64::MAX
            }),
            old(self).host.create_faults@.len() == 0 ==> {
                &&& final(self).host.create_faults@ == old(self).host.create_faults@
                &&& final(self).state matches ServiceState::Ready(h) && h.events_armed == old(self).has_listeners
            },
            old(self).host.create_faults@.len() > 0 ==> {
                &&& final(self).host.create_faults@ == old(self).host.create_faults@.skip(1)
                &&& final(self).state == ServiceState::Unavailable(
                    Error::ExternalFailure(HRESULT { code: old(self).host.create_faults@[0] }),
                )
            },
    {
        match self.try_create() {
            Ok(h) => {
                self.state = ServiceState::Ready(h);
            },
            Err(e) => {
                self.state = ServiceState::Unavailable(e);
            },
        }
    }

    /// One attempt: read the snapshot; invoke against a live handle, or
    /// classify the stored absence reason. Fatal outcomes finish the call;
    /// recoverable ones ask the dispatcher to recreate and retry.
    fn attempt_once(&mut self, req: &DesktopRequest) -> (r: Attempt)
        requires
            old(self).wf(),
        ensures
            final(self).wf(),
            final(self).recreations == old(self).recreations,
            final(self).host.create_faults@ == old(self).host.create_faults@,
            bridge_stable(*old(self), *final(self)),
            old(self).bridge.history@.is_prefix_of(final(self).bridge.history@),
            r matches Attempt::Done(res) ==> (res matches Ok(resp) ==> resp_matches(
                old(self).host,
                *req,
                resp,
            )),
            old(self).state matches ServiceState::Unavailable(e) ==> {
                &&& unchanged_host(old(self).host, final(self).host)
                &&& final(self).state == old(self).state
                &&& final(self).bridge.history@ == old(self).bridge.history@
                &&& final(self).has_listeners == old(self).has_listeners
                &&& (if spec_recoverable(e) {
                    r is Retry
                } else {
                    r == Attempt::Done(Err::<DesktopResponse, Error>(e))
                })
            },
            (old(self).state is Ready && old(self).host.op_faults@.len() > 0) ==> {
                &&& unchanged_domain(old(self).host, final(self).host)
                &&& final(self).host.op_faults@ == old(self).host.op_faults@.skip(1)
                &&& final(self).state == old(self).state
                &&& final(self).bridge.history@ == old(self).bridge.history@
                &&& final(self).has_listeners == old(self).has_listeners
                &&& (if spec_code_recoverable(old(self).host.op_faults@[0]) {
                    r is Retry
                } else {
                    r == Attempt::Done(
                        Err::<DesktopResponse, Error>(old(self).first_fault_error()),
                    )
                })
            },
            (old(self).state is Ready && old(self).host.op_faults@.len() == 0) ==> {
                &&& final(self).host.op_faults@.len() == 0
                &&& (req_ok(old(self).host, *req) ==> {
                    &&& r matches Attempt::Done(res) && res matches Ok(resp) && resp_matches(
                        old(self).host,
                        *req,
                        resp,
                    )
                    &&& req_step_domain(old(self).host, *req, final(self).host)
                    &&& final(self).state is Ready
                    &&& (*req is Subscribe ==> final(self).has_listeners && (final(self).state matches
                        ServiceState::Ready(h) && h.events_armed))
                })
                &&& (!req_ok(old(self).host, *req) ==> {
                    &&& r == Attempt::Done(
                        Err::<DesktopResponse, Error>(req_err(old(self).host, *req)),
                    )
                    &&& unchanged_domain(old(self).host, final(self).host)
                    &&& final(self).state == old(self).state
                    &&& final(self).bridge.history@ == old(self).bridge.history@
                })
            },
    {
        let snapshot = self.state;
        match snapshot {
            ServiceState::Unavailable(e) => match classify(&e) {
                Verdict::Fatal => Attempt::Done(Err(e)),
                Verdict::Recoverable { needs_runtime_init } => {
                    if needs_runtime_init {
                        self.ensure_runtime();
                    }
                    Attempt::Retry
                },
            },
            ServiceState::Ready(handle) => {
                let pending: Option<DesktopEvent> = if handle.events_armed {
                    build_event(&self.host, req)
                } else {
                    None
                };
                let res = invoke(&mut self.host, req);
                match res {
                    Ok(resp) => {
                        match req {
                            DesktopRequest::Subscribe => {
                                self.state = ServiceState::Ready(
                                    ServiceHandle {
                                        generation: handle.generation,
                                        events_armed: true,
                                    },
                                );
                                self.has_listeners = true;
                            },
                            _ => {
                                match pending {
                                    Some(ev) => {
                                        self.bridge.broadcast(&ev);
                                    },
                                    None => (),
                                }
                            },
                        }
                        Attempt::Done(Ok(resp))
                    },
                    Err(e) => match classify(&e) {
                        Verdict::Fatal => Attempt::Done(Err(e)),
                        Verdict::Recoverable { needs_runtime_init } => {
                            if needs_runtime_init {
                                self.ensure_runtime();
                            }
                            Attempt::Retry
                        },
                    },
                }
            },
        }
    }

    /// The retry/recreate protocol around one domain request. Up to
    /// `ATTEMPT_LIMIT` attempts: a success or a fatal failure finishes the
    /// call at once; a recoverable failure recreates the service handle and
    /// retries; exhaustion reports `ServiceNotCreated`.
    ///
    /// The contract carries the three central guarantees: a serviceable
    /// context is owed the domain answer; a fatal cause surfaces verbatim
    /// with no recreation attempt; a single recoverable cause triggers
    /// exactly one recreation before the answer.
    pub fn dispatch(&mut self, req: &DesktopRequest) -> (r: Result<DesktopResponse, Error>)
        requires
            old(self).wf(),
        ensures
            final(self).wf(),
            bridge_stable(*old(self), *final(self)),
            old(self).bridge.history@.is_prefix_of(final(self).bridge.history@),
            final(self).recreations as int <= old(self).recreations as int + ATTEMPT_LIMIT as int,
            r matches Ok(resp) ==> resp_shape(*req, resp),
            old(self).serviceable() ==> {
                &&& final(self).host.op_faults@.len() == 0
                &&& final(self).host.create_faults@.len() == 0
                &&& final(self).state is Ready
                &&& (req_ok(old(self).host, *req) ==> (r matches Ok(resp) && resp_matches(
                    old(self).host,
                    *req,
                    resp,
                ) && req_step_domain(old(self).host, *req, final(self).host)))
                &&& (!req_ok(old(self).host, *req) ==> r == Err::<DesktopResponse, Error>(
                    req_err(old(self).host, *req),
                ) && unchanged_domain(old(self).host, final(self).host))
                &&& (*req is Subscribe ==> final(self).has_listeners && (final(self).state matches
                    ServiceState::Ready(h) && h.events_armed))
            },
            old(self).fatal_fault_next() ==> {
                &&& r == Err::<DesktopResponse, Error>(old(self).first_fault_error())
                &&& final(self).recreations == old(self).recreations
                &&& unchanged_domain(old(self).host, final(self).host)
                &&& final(self).host.op_faults@ == old(self).host.op_faults@.skip(1)
                &&& final(self).host.create_faults@ == old(self).host.create_faults@
                &&& final(self).state == old(self).state
            },
            (old(self).one_recoverable_fault() && old(self).recreations < u64::MAX) ==> {
                &&& final(self).recreations == old(self).recreations + 1
                &&& final(self).host.op_faults@.len() == 0
                &&& final(self).host.create_faults@.len() == 0
                &&& (req_ok(old(self).host, *req) ==> (r matches Ok(resp) && resp_matches(
                    old(self).host,
                    *req,
                    resp,
                ) && req_step_domain(old(self).host, *req, final(self).host)))
                &&& (!req_ok(old(self).host, *req) ==> r == Err::<DesktopResponse, Error>(
                    req_err(old(self).host, *req),
                ) && unchanged_domain(old(self).host, final(self).host))
            },
    {
        let ghost pre = *self;
        match self.attempt_once(req) {
            Attempt::Done(res) => {
                proof {
                    lemma_resp_shape(pre.host, *req, res);
                }
                return res;
            },
            Attempt::Retry => {},
        }
        self.recreate();
        let ghost pre2 = *self;
        match self.attempt_once(req) {
            Attempt::Done(res) => {
                proof {
                    lemma_resp_shape(pre2.host, *req, res);
                }
                return res;
            },
            Attempt::Retry => {},
        }
        self.recreate();
        let mut attempts: usize = 2;
        while attempts < ATTEMPT_LIMIT
            invariant
                self.wf(),
                2 <= attempts <= ATTEMPT_LIMIT,
                !old(self).serviceable(),
                !old(self).fatal_fault_next(),
                !(old(self).one_recoverable_fault() && old(self).recreations < u64::MAX),
                bridge_stable(*old(self), *self),
                old(self).bridge.history@.is_prefix_of(self.bridge.history@),
                self.recreations as int <= old(self).recreations as int + attempts as int,
            decreases ATTEMPT_LIMIT - attempts,
        {
            let ghost prek = *self;
            match self.attempt_once(req) {
                Attempt::Done(res) => {
                    proof {
                        lemma_resp_shape(prek.host, *req, res);
                    }
                    return res;
                },
                Attempt::Retry => {},
            }
            self.recreate();
            attempts += 1;
        }
        Err(Error::ServiceNotCreated)
    }
}

/// The event a successful request will announce, built from the state
/// before the request runs; `None` when nothing is announced or the inputs
/// will be rejected anyway.
fn build_event(h: &HostState, req: &DesktopRequest) -> (r: Option<DesktopEvent>)
    requires
        h.wf(),
    ensures
        req_ok(*h, *req) ==> r == emitted_event(*h, *req),
{
    match req {
        DesktopRequest::GoTo(d) => {
            if *d < h.desktops.len() {
                Some(
                    DesktopEvent::DesktopChanged {
                        old: h.desktops[h.current].id,
                        new: h.desktops[*d].id,
                    },
                )
            } else {
                None
            }
        },
        DesktopRequest::Rename(d, name) => {
            if *d < h.desktops.len() {
                Some(DesktopEvent::DesktopNameChanged(h.desktops[*d].id, name.clone()))
            } else {
                None
            }
        },
        _ => None,
    }
}

} // verus!
