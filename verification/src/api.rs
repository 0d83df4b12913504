//! The public surface: thin functions that translate ergonomic inputs —
//! desktop indices, window handles — into domain requests and delegate to
//! the resilient dispatcher. Every function returns an explicit result;
//! recoverable failures are absorbed below and never observed here.

use vstd::prelude::*;
use vstd::string::StringExecFns;

use crate::error::Error;
use crate::events::EventReceiver;
use crate::host::{unchanged_domain, DesktopID, HostWindow, HWND};
use crate::service::{
    DesktopRequest, DesktopResponse, ServiceState, VirtualDesktops,
};

verus! {

impl VirtualDesktops {
    /// Should be called when the shell process that owns the desktops has
    /// restarted: recreates the service handle at once, bypassing the lazy
    /// retry path. On a failed creation the previous state is kept.
    pub fn notify_explorer_restarted(&mut self) -> (r: Result<(), Error>)
        requires
            old(self).wf(),
        ensures
            final(self).wf(),
            unchanged_domain(old(self).host, final(self).host),
            final(self).host.op_faults@ == old(self).host.op_faults@,
            old(self).host.create_faults@.len() == 0 ==> r == Ok::<(), Error>(())
                && final(self).state is Ready && final(self).host.create_faults@ == old(self).host.create_faults@,
            old(self).host.create_faults@.len() > 0 ==> {
                &&& r == Err::<(), Error>(old(self).first_fault_create_error())
                &&& final(self).state == old(self).state
                &&& final(self).host.create_faults@ == old(self).host.create_faults@.skip(1)
            },
    {
        match self.try_create() {
            Ok(h) => {
                self.state = ServiceState::Ready(h);
                Ok(())
            },
            Err(e) => Err(e),
        }
    }

    /// The desktop identifiers, in left-to-right order.
    pub fn get_desktops(&mut self) -> (r: Result<Vec<DesktopID>, Error>)
        requires
            old(self).wf(),
        ensures
            final(self).wf(),
            old(self).serviceable() ==> (r matches Ok(v) && v@ == old(self).host.ids())
                && unchanged_domain(old(self).host, final(self).host) && final(self).serviceable(),
            old(self).fatal_fault_next() ==> r == Err::<Vec<DesktopID>, Error>(
                old(self).first_fault_error(),
            ) && final(self).recreations == old(self).recreations,
    {
        match self.dispatch(&DesktopRequest::GetDesktops) {
            Ok(DesktopResponse::Desktops(v)) => Ok(v),
            Ok(_) => vstd::pervasive::unreached(),
            Err(e) => Err(e),
        }
    }

    /// The position of a desktop identifier in the enumeration;
    /// `DesktopNotFound` when it no longer exists.
    pub fn get_index_by_desktop(&mut self, desktop: DesktopID) -> (r: Result<usize, Error>)
        requires
            old(self).wf(),
        ensures
            final(self).wf(),
            old(self).serviceable() ==> {
                &&& (old(self).host.has_id(desktop) ==> (r matches Ok(i)
                    && i < old(self).host.desktops@.len() && old(self).host.desktops@[
                    i as int
                ].id == desktop))
                &&& (!old(self).host.has_id(desktop) ==> r == Err::<usize, Error>(
                    Error::DesktopNotFound,
                ))
                &&& unchanged_domain(old(self).host, final(self).host)
                &&& final(self).serviceable()
            },
            old(self).fatal_fault_next() ==> r == Err::<usize, Error>(
                old(self).first_fault_error(),
            ) && final(self).recreations == old(self).recreations,
    {
        match self.dispatch(&DesktopRequest::GetIndexByDesktop(desktop)) {
            Ok(DesktopResponse::Index(i)) => Ok(i),
            Ok(_) => vstd::pervasive::unreached(),
            Err(e) => Err(e),
        }
    }

    /// The desktop names, in left-to-right order.
    pub fn get_desktop_names(&mut self) -> (r: Result<Vec<String>, Error>)
        requires
            old(self).wf(),
        ensures
            final(self).wf(),
            old(self).serviceable() ==> (r matches Ok(v) && v@.map_values(|s: String| s@) == old(self).host.names()) && unchanged_domain(old(self).host, final(self).host) && final(self).serviceable(),
            old(self).fatal_fault_next() ==> r == Err::<Vec<String>, Error>(
                old(self).first_fault_error(),
            ) && final(self).recreations == old(self).recreations,
    {
        match self.dispatch(&DesktopRequest::GetNames) {
            Ok(DesktopResponse::Names(v)) => Ok(v),
            Ok(_) => vstd::pervasive::unreached(),
            Err(e) => Err(e),
        }
    }

    /// The number of desktops; never zero in a healthy system.
    pub fn get_desktop_count(&mut self) -> (r: Result<u32, Error>)
        requires
            old(self).wf(),
        ensures
            final(self).wf(),
            old(self).serviceable() ==> r == Ok::<u32, Error>(
                old(self).host.desktops@.len() as u32,
            ) && unchanged_domain(old(self).host, final(self).host) && final(self).serviceable(),
            old(self).fatal_fault_next() ==> r == Err::<u32, Error>(old(self).first_fault_error())
                && final(self).recreations == old(self).recreations,
    {
        match self.dispatch(&DesktopRequest::GetCount) {
            Ok(DesktopResponse::Count(c)) => Ok(c),
            Ok(_) => vstd::pervasive::unreached(),
            Err(e) => Err(e),
        }
    }

    /// The position of the current desktop.
    pub fn get_current_desktop(&mut self) -> (r: Result<usize, Error>)
        requires
            old(self).wf(),
        ensures
            final(self).wf(),
            old(self).serviceable() ==> r == Ok::<usize, Error>(old(self).host.current)
                && unchanged_domain(old(self).host, final(self).host) && final(self).serviceable(),
            old(self).fatal_fault_next() ==> r == Err::<usize, Error>(
                old(self).first_fault_error(),
            ) && final(self).recreations == old(self).recreations,
    {
        match self.dispatch(&DesktopRequest::GetCurrent) {
            Ok(DesktopResponse::Index(i)) => Ok(i),
            Ok(_) => vstd::pervasive::unreached(),
            Err(e) => Err(e),
        }
    }

    /// The position of the desktop a window belongs to; `WindowNotFound`
    /// when the handle names no current window.
    pub fn get_desktop_by_window(&mut self, hwnd: HWND) -> (r: Result<usize, Error>)
        requires
            old(self).wf(),
        ensures
            final(self).wf(),
            old(self).serviceable() ==> {
                &&& (old(self).host.has_window(hwnd) ==> (r matches Ok(i)
                    && i < old(self).host.desktops@.len() && old(self).host.window_home(
                    hwnd,
                    old(self).host.desktops@[i as int].id,
                )))
                &&& (!old(self).host.has_window(hwnd) ==> r == Err::<usize, Error>(
                    Error::WindowNotFound,
                ))
                &&& unchanged_domain(old(self).host, final(self).host)
                &&& final(self).serviceable()
            },
            old(self).fatal_fault_next() ==> r == Err::<usize, Error>(
                old(self).first_fault_error(),
            ) && final(self).recreations == old(self).recreations,
    {
        match self.dispatch(&DesktopRequest::GetByWindow(hwnd)) {
            Ok(DesktopResponse::Index(i)) => Ok(i),
            Ok(_) => vstd::pervasive::unreached(),
            Err(e) => Err(e),
        }
    }

    /// Whether the window is visible on the current desktop (pinned windows
    /// are visible on every desktop).
    pub fn is_window_on_current_virtual_desktop(&mut self, hwnd: HWND) -> (r: Result<bool, Error>)
        requires
            old(self).wf(),
        ensures
            final(self).wf(),
            old(self).serviceable() ==> {
                &&& (old(self).host.has_window(hwnd) ==> r == Ok::<bool, Error>(
                    old(self).host.on_desktop(hwnd, old(self).host.current as int),
                ))
                &&& (!old(self).host.has_window(hwnd) ==> r == Err::<bool, Error>(
                    Error::WindowNotFound,
                ))
                &&& unchanged_domain(old(self).host, final(self).host)
                &&& final(self).serviceable()
            },
            old(self).fatal_fault_next() ==> r == Err::<bool, Error>(old(self).first_fault_error())
                && final(self).recreations == old(self).recreations,
    {
        match self.dispatch(&DesktopRequest::IsOnCurrent(hwnd)) {
            Ok(DesktopResponse::Flag(b)) => Ok(b),
            Ok(_) => vstd::pervasive::unreached(),
            Err(e) => Err(e),
        }
    }

    /// Whether the window is visible on the desktop with this position.
    /// A stale index reports `DesktopNotFound` before the window is checked.
    pub fn is_window_on_desktop(&mut self, hwnd: HWND, desktop: usize) -> (r: Result<bool, Error>)
        requires
            old(self).wf(),
        ensures
            final(self).wf(),
            old(self).serviceable() ==> {
                &&& (desktop >= old(self).host.desktops@.len() ==> r == Err::<bool, Error>(
                    Error::DesktopNotFound,
                ))
                &&& ((desktop < old(self).host.desktops@.len() && !old(self).host.has_window(hwnd))
                    ==> r == Err::<bool, Error>(Error::WindowNotFound))
                &&& ((desktop < old(self).host.desktops@.len() && old(self).host.has_window(hwnd))
                    ==> r == Ok::<bool, Error>(old(self).host.on_desktop(hwnd, desktop as int)))
                &&& unchanged_domain(old(self).host, final(self).host)
                &&& final(self).serviceable()
            },
            old(self).fatal_fault_next() ==> r == Err::<bool, Error>(old(self).first_fault_error())
                && final(self).recreations == old(self).recreations,
    {
        match self.dispatch(&DesktopRequest::IsOnDesktop(hwnd, desktop)) {
            Ok(DesktopResponse::Flag(b)) => Ok(b),
            Ok(_) => vstd::pervasive::unreached(),
            Err(e) => Err(e),
        }
    }

    /// Rename the desktop at this position; `DesktopNotFound` when the
    /// position is out of range. On success only that desktop's name
    /// changes.
    pub fn rename_desktop(&mut self, desktop: usize, name: &str) -> (r: Result<(), Error>)
        requires
            old(self).wf(),
        ensures
            final(self).wf(),
            old(self).serviceable() ==> {
                &&& (desktop < old(self).host.desktops@.len() ==> {
                    &&& r == Ok::<(), Error>(())
                    &&& final(self).host.names() == old(self).host.names().update(
                        desktop as int,
                        name@,
                    )
                    &&& final(self).host.ids() == old(self).host.ids()
                    &&& final(self).host.windows@ == old(self).host.windows@
                    &&& final(self).host.pinned@ == old(self).host.pinned@
                    &&& final(self).host.current == old(self).host.current
                })
                &&& (desktop >= old(self).host.desktops@.len() ==> r == Err::<(), Error>(
                    Error::DesktopNotFound,
                ) && unchanged_domain(old(self).host, final(self).host))
                &&& final(self).serviceable()
            },
            old(self).fatal_fault_next() ==> r == Err::<(), Error>(old(self).first_fault_error())
                && final(self).recreations == old(self).recreations,
    {
        let owned = String::from_str(name);
        let req = DesktopRequest::Rename(desktop, owned);
        let ghost pre = *self;
        match self.dispatch(&req) {
            Ok(DesktopResponse::Done) => {
                proof {
                    if pre.serviceable() && desktop < pre.host.desktops@.len() {
                        assert(self.host.names() =~= pre.host.names().update(
                            desktop as int,
                            name@,
                        ));
                        assert(self.host.ids() =~= pre.host.ids());
                    }
                }
                Ok(())
            },
            Ok(_) => vstd::pervasive::unreached(),
            Err(e) => Err(e),
        }
    }

    /// Move a window to the desktop at this position. A stale desktop index
    /// reports `DesktopNotFound` even when the window handle is valid; a
    /// stale window handle reports `WindowNotFound`.
    pub fn move_window_to_desktop(&mut self, hwnd: HWND, desktop: usize) -> (r: Result<(), Error>)
        requires
            old(self).wf(),
        ensures
            final(self).wf(),
            old(self).serviceable() ==> {
                &&& (desktop >= old(self).host.desktops@.len() ==> r == Err::<(), Error>(
                    Error::DesktopNotFound,
                ) && unchanged_domain(old(self).host, final(self).host))
                &&& ((desktop < old(self).host.desktops@.len() && !old(self).host.has_window(hwnd))
                    ==> r == Err::<(), Error>(Error::WindowNotFound) && unchanged_domain(
                    old(self).host,
                    final(self).host,
                ))
                &&& ((desktop < old(self).host.desktops@.len() && old(self).host.has_window(hwnd))
                    ==> {
                    &&& r == Ok::<(), Error>(())
                    &&& final(self).host.window_home(
                        hwnd,
                        old(self).host.desktops@[desktop as int].id,
                    )
                    &&& final(self).host.windows@.len() == old(self).host.windows@.len()
                    &&& final(self).host.desktops@ == old(self).host.desktops@
                    &&& final(self).host.pinned@ == old(self).host.pinned@
                    &&& final(self).host.current == old(self).host.current
                })
                &&& final(self).serviceable()
            },
            old(self).fatal_fault_next() ==> r == Err::<(), Error>(old(self).first_fault_error())
                && final(self).recreations == old(self).recreations,
    {
        let ghost pre = *self;
        match self.dispatch(&DesktopRequest::MoveWindow(hwnd, desktop)) {
            Ok(DesktopResponse::Done) => {
                proof {
                    if pre.serviceable() && desktop < pre.host.desktops@.len()
                        && pre.host.has_window(hwnd) {
                        let j = choose|j: int|
                            0 <= j < pre.host.windows@.len() && #[trigger] pre.host.windows@[
                                j
                            ].hwnd == hwnd && self.host.windows@ == pre.host.windows@.update(
                                j,
                                HostWindow {
                                    hwnd,
                                    desktop: pre.host.desktops@[desktop as int].id,
                                },
                            );
                        assert(self.host.windows@[j].hwnd == hwnd);
                    }
                }
                Ok(())
            },
            Ok(_) => vstd::pervasive::unreached(),
            Err(e) => Err(e),
        }
    }

    /// Switch to the desktop at this position; `DesktopNotFound` when it is
    /// out of range.
    pub fn go_to_desktop(&mut self, desktop: usize) -> (r: Result<(), Error>)
        requires
            old(self).wf(),
        ensures
            final(self).wf(),
            old(self).serviceable() ==> {
                &&& (desktop < old(self).host.desktops@.len() ==> {
                    &&& r == Ok::<(), Error>(())
                    &&& final(self).host.current == desktop
                    &&& final(self).host.desktops@ == old(self).host.desktops@
                    &&& final(self).host.windows@ == old(self).host.windows@
                    &&& final(self).host.pinned@ == old(self).host.pinned@
                })
                &&& (desktop >= old(self).host.desktops@.len() ==> r == Err::<(), Error>(
                    Error::DesktopNotFound,
                ) && unchanged_domain(old(self).host, final(self).host))
                &&& final(self).serviceable()
            },
            old(self).fatal_fault_next() ==> r == Err::<(), Error>(old(self).first_fault_error())
                && final(self).recreations == old(self).recreations,
    {
        match self.dispatch(&DesktopRequest::GoTo(desktop)) {
            Ok(DesktopResponse::Done) => Ok(()),
            Ok(_) => vstd::pervasive::unreached(),
            Err(e) => Err(e),
        }
    }

    /// Whether the window is pinned (visible on every desktop).
    pub fn is_pinned_window(&mut self, hwnd: HWND) -> (r: Result<bool, Error>)
        requires
            old(self).wf(),
        ensures
            final(self).wf(),
            old(self).serviceable() ==> {
                &&& (old(self).host.has_window(hwnd) ==> r == Ok::<bool, Error>(
                    old(self).host.is_pinned(hwnd),
                ))
                &&& (!old(self).host.has_window(hwnd) ==> r == Err::<bool, Error>(
                    Error::WindowNotFound,
                ))
                &&& unchanged_domain(old(self).host, final(self).host)
                &&& final(self).serviceable()
            },
            old(self).fatal_fault_next() ==> r == Err::<bool, Error>(old(self).first_fault_error())
                && final(self).recreations == old(self).recreations,
    {
        match self.dispatch(&DesktopRequest::IsPinned(hwnd)) {
            Ok(DesktopResponse::Flag(b)) => Ok(b),
            Ok(_) => vstd::pervasive::unreached(),
            Err(e) => Err(e),
        }
    }

    /// Pin a window: it becomes visible on every desktop, and stays pinned
    /// across desktop switches. Pinning a pinned window changes nothing.
    pub fn pin_window(&mut self, hwnd: HWND) -> (r: Result<(), Error>)
        requires
            old(self).wf(),
        ensures
            final(self).wf(),
            old(self).serviceable() ==> {
                &&& (old(self).host.has_window(hwnd) ==> {
                    &&& r == Ok::<(), Error>(())
                    &&& final(self).host.is_pinned(hwnd)
                    &&& final(self).host.pinned@ == (if old(self).host.is_pinned(hwnd) {
                        old(self).host.pinned@
                    } else {
                        old(self).host.pinned@.push(hwnd)
                    })
                    &&& final(self).host.desktops@ == old(self).host.desktops@
                    &&& final(self).host.windows@ == old(self).host.windows@
                    &&& final(self).host.current == old(self).host.current
                })
                &&& (!old(self).host.has_window(hwnd) ==> r == Err::<(), Error>(
                    Error::WindowNotFound,
                ) && unchanged_domain(old(self).host, final(self).host))
                &&& final(self).serviceable()
            },
            old(self).fatal_fault_next() ==> r == Err::<(), Error>(old(self).first_fault_error())
                && final(self).recreations == old(self).recreations,
    {
        let ghost pre = *self;
        match self.dispatch(&DesktopRequest::Pin(hwnd)) {
            Ok(DesktopResponse::Done) => {
                proof {
                    if pre.serviceable() && pre.host.has_window(hwnd) && !pre.host.is_pinned(
                        hwnd,
                    ) {
                        assert(self.host.pinned@[pre.host.pinned@.len() as int] == hwnd);
                    }
                }
                Ok(())
            },
            Ok(_) => vstd::pervasive::unreached(),
            Err(e) => Err(e),
        }
    }

    /// Unpin a window: it is visible only on its own desktop again; other
    /// windows' pinned state is untouched. Unpinning an unpinned window
    /// changes nothing.
    pub fn unpin_window(&mut self, hwnd: HWND) -> (r: Result<(), Error>)
        requires
            old(self).wf(),
        ensures
            final(self).wf(),
            old(self).serviceable() ==> {
                &&& (old(self).host.has_window(hwnd) ==> {
                    &&& r == Ok::<(), Error>(())
                    &&& !final(self).host.is_pinned(hwnd)
                    &&& (forall|w2: HWND|
                        w2 != hwnd ==> final(self).host.is_pinned(w2) == old(self).host.is_pinned(w2))
                    &&& final(self).host.desktops@ == old(self).host.desktops@
                    &&& final(self).host.windows@ == old(self).host.windows@
                    &&& final(self).host.current == old(self).host.current
                })
                &&& (!old(self).host.has_window(hwnd) ==> r == Err::<(), Error>(
                    Error::WindowNotFound,
                ) && unchanged_domain(old(self).host, final(self).host))
                &&& final(self).serviceable()
            },
            old(self).fatal_fault_next() ==> r == Err::<(), Error>(old(self).first_fault_error())
                && final(self).recreations == old(self).recreations,
    {
        let ghost pre = *self;
        match self.dispatch(&DesktopRequest::Unpin(hwnd)) {
            Ok(DesktopResponse::Done) => {
                proof {
                    if pre.serviceable() && pre.host.has_window(hwnd) {
                        lemma_unpin(pre.host.pinned@, self.host.pinned@, hwnd);
                    }
                }
                Ok(())
            },
            Ok(_) => vstd::pervasive::unreached(),
            Err(e) => Err(e),
        }
    }

    /// A receiving end of the process-wide event channel. As a best-effort
    /// side effect, arms event delivery on the current service handle; a
    /// failure to arm is deliberately swallowed — the receiver is still
    /// returned, and events begin to flow once a later subscription attempt
    /// reaches a healthy service.
    pub fn get_event_receiver(&mut self) -> (r: EventReceiver)
        requires
            old(self).wf(),
        ensures
            final(self).wf(),
            final(self).bridge.senders@.len() == old(self).bridge.senders@.len() + 1,
            final(self).bridge.joins@.len() == old(self).bridge.joins@.len() + 1,
            final(self).bridge.joins@.take(old(self).bridge.joins@.len() as int) == old(self).bridge.joins@,
            final(self).bridge.joins@.last() == final(self).bridge.history@.len() as int,
            old(self).bridge.history@.is_prefix_of(final(self).bridge.history@),
            old(self).serviceable() ==> final(self).has_listeners && (final(self).state matches
                ServiceState::Ready(h) && h.events_armed),
    {
        let _ = self.dispatch(&DesktopRequest::Subscribe);
        let r = self.bridge.subscribe();
        proof {
            assert(self.bridge.joins@.take(old(self).bridge.joins@.len() as int) =~= old(
                self,
            ).bridge.joins@);
        }
        r
    }
}

/// Removing the only occurrence of a handle from a distinct pinned set
/// unpins exactly that handle.
proof fn lemma_unpin(pre: Seq<HWND>, post: Seq<HWND>, w: HWND)
    requires
        forall|i: int, j: int| 0 <= i < j < pre.len() ==> #[trigger] pre[i] != #[trigger] pre[j],
        (if pre.contains(w) {
            exists|j: int| 0 <= j < pre.len() && #[trigger] pre[j] == w && post == pre.remove(j)
        } else {
            post == pre
        }),
    ensures
        !post.contains(w),
        forall|w2: HWND| w2 != w ==> post.contains(w2) == pre.contains(w2),
{
    if pre.contains(w) {
        let j = choose|j: int| 0 <= j < pre.len() && #[trigger] pre[j] == w && post == pre.remove(j);
        assert forall|w2: HWND| w2 != w implies post.contains(w2) == pre.contains(w2) by {
            if pre.contains(w2) {
                let m = choose|m: int| 0 <= m < pre.len() && pre[m] == w2;
                if m < j {
                    assert(post[m] == w2);
                } else {
                    assert(m != j);
                    assert(post[m - 1] == w2);
                }
                assert(post.contains(w2));
            }
            if post.contains(w2) {
                let m = choose|m: int| 0 <= m < post.len() && post[m] == w2;
                if m < j {
                    assert(pre[m] == w2);
                } else {
                    assert(pre[m + 1] == w2);
                }
                assert(pre.contains(w2));
            }
        }
        if post.contains(w) {
            let m = choose|m: int| 0 <= m < post.len() && post[m] == w;
            if m < j {
                assert(pre[m] == w && pre[j] == w);
            } else {
                assert(pre[m + 1] == w && pre[j] == w);
            }
            assert(false);
        }
    } else {
        assert forall|w2: HWND| w2 != w implies post.contains(w2) == pre.contains(w2) by {}
        assert(!post.contains(w));
    }
}

} // verus!
