//! In-process model of the external desktop-management component: the
//! desktops, windows and pinned set it tracks, plus the transient failures
//! it raises. Domain operations run against this state once a live service
//! handle exists; queued fault codes let the component misbehave exactly as
//! the resilience layer must tolerate.

use vstd::prelude::*;

verus! {

/// Handle naming a top-level window, as supplied by the host environment.
pub type HWND = u64;

/// Opaque, comparable, copyable value naming one virtual desktop. A stale
/// identifier (its desktop was destroyed) is a normal outcome, not a bug.
#[derive(Clone, Copy, Debug, PartialEq, Eq, Structural, Hash)]
pub struct DesktopID {
    pub value: u64,
}

/// One virtual desktop as the component reports it, in left-to-right order.
pub struct HostDesktop {
    pub id: DesktopID,
    pub name: String,
}

/// One top-level window and the desktop it currently belongs to.
#[derive(Clone, Copy, Debug, PartialEq, Eq, Structural)]
pub struct HostWindow {
    pub hwnd: HWND,
    pub desktop: DesktopID,
}

/// The state of the external component, together with the failures it will
/// raise next: `op_faults` fail upcoming domain operations, front first,
/// and `create_faults` fail upcoming connection attempts, front first.
pub struct HostState {
    pub desktops: Vec<HostDesktop>,
    pub current: usize,
    pub windows: Vec<HostWindow>,
    pub pinned: Vec<HWND>,
    pub op_faults: Vec<u32>,
    pub create_faults: Vec<u32>,
}

impl HostState {
    /// The desktop identifiers, in left-to-right order.
    pub open spec fn ids(self) -> Seq<DesktopID> {
        self.desktops@.map_values(|d: HostDesktop| d.id)
    }

    /// The desktop names, in left-to-right order.
    pub open spec fn names(self) -> Seq<Seq<char>> {
        self.desktops@.map_values(|d: HostDesktop| d.name@)
    }

    pub open spec fn has_id(self, id: DesktopID) -> bool {
        exists|j: int| 0 <= j < self.desktops@.len() && self.desktops@[j].id == id
    }

    pub open spec fn has_window(self, hwnd: HWND) -> bool {
        exists|j: int| 0 <= j < self.windows@.len() && self.windows@[j].hwnd == hwnd
    }

    pub open spec fn is_pinned(self, hwnd: HWND) -> bool {
        self.pinned@.contains(hwnd)
    }

    /// The window belongs to this desktop identifier.
    pub open spec fn window_home(self, hwnd: HWND, id: DesktopID) -> bool {
        exists|j: int|
            0 <= j < self.windows@.len() && self.windows@[j].hwnd == hwnd
                && self.windows@[j].desktop == id
    }

    /// The window is visible on desktop `d`: pinned windows are visible on
    /// every desktop, the rest only on their own.
    pub open spec fn on_desktop(self, hwnd: HWND, d: int) -> bool {
        self.is_pinned(hwnd) || self.window_home(hwnd, self.desktops@[d].id)
    }

    /// Well-formedness: at least one desktop, a valid current index,
    /// distinct desktop identifiers, distinct window handles, a distinct
    /// pinned set, and every window placed on an existing desktop.
    pub open spec fn wf(self) -> bool {
        &&& 1 <= self.desktops@.len() <= 0xFFFF_FFFFu32
        &&& self.current < self.desktops@.len()
        &&& forall|i: int, j: int|
            0 <= i < j < self.desktops@.len()
                ==> #[trigger] self.desktops@[i].id != #[trigger] self.desktops@[j].id
        &&& forall|i: int, j: int|
            0 <= i < j < self.windows@.len()
                ==> #[trigger] self.windows@[i].hwnd != #[trigger] self.windows@[j].hwnd
        &&& forall|i: int, j: int|
            0 <= i < j < self.pinned@.len() ==> #[trigger] self.pinned@[i] != #[trigger] self.pinned@[j]
        &&& forall|i: int|
            0 <= i < self.windows@.len() ==> self.has_id(#[trigger] self.windows@[i].desktop)
    }

    /// Seed a component state: desktops named left to right, identifiers
    /// assigned in order, no windows, nothing pinned, no queued faults.
    pub fn new(names: Vec<String>, current: usize) -> (h: HostState)
        requires
            1 <= names@.len() <= 0xFFFF_FFFFu32,
            current < names@.len(),
        ensures
            h.wf(),
            h.names() == names@.map_values(|s: String| s@),
            h.desktops@.len() == names@.len(),
            h.current == current,
            h.windows@.len() == 0,
            h.pinned@.len() == 0,
            h.op_faults@.len() == 0,
            h.create_faults@.len() == 0,
    {
        let mut desktops: Vec<HostDesktop> = Vec::new();
        let mut i: usize = 0;
        while i < names.len()
            invariant
                i <= names@.len(),
                names@.len() <= 0xFFFF_FFFFu32,
                desktops@.len() == i,
                forall|k: int|
                    0 <= k < i ==> #[trigger] desktops@[k].id == (DesktopID { value: (k + 1) as u64 }),
                forall|k: int| 0 <= k < i ==> #[trigger] desktops@[k].name@ == names@[k]@,
            decreases names@.len() - i,
        {
            let id = DesktopID { value: (i as u64) + 1 };
            desktops.push(HostDesktop { id, name: names[i].clone() });
            i += 1;
        }
        let h = HostState {
            desktops,
            current,
            windows: Vec::new(),
            pinned: Vec::new(),
            op_faults: Vec::new(),
            create_faults: Vec::new(),
        };
        proof {
            assert forall|a: int, b: int| 0 <= a < b < h.desktops@.len() implies
                #[trigger] h.desktops@[a].id != #[trigger] h.desktops@[b].id by {
                assert(h.desktops@[a].id.value == a + 1);
                assert(h.desktops@[b].id.value == b + 1);
            }
            assert(h.names() =~= names@.map_values(|s: String| s@));
        }
        h
    }

    /// Place a fresh window on the desktop with the given index. Returns
    /// whether the window was placed: it is not when the handle is already
    /// present or the index is out of range.
    pub fn add_window(&mut self, hwnd: HWND, desktop: usize) -> (r: bool)
        requires
            old(self).wf(),
        ensures
            final(self).wf(),
            r == (!old(self).has_window(hwnd) && desktop < old(self).desktops@.len()),
            r ==> final(self).windows@ == old(self).windows@.push(
                HostWindow { hwnd, desktop: old(self).desktops@[desktop as int].id },
            ),
            !r ==> final(self).windows@ == old(self).windows@,
            final(self).desktops@ == old(self).desktops@,
            final(self).current == old(self).current,
            final(self).pinned@ == old(self).pinned@,
            final(self).op_faults@ == old(self).op_faults@,
            final(self).create_faults@ == old(self).create_faults@,
    {
        if desktop >= self.desktops.len() {
            return false;
        }
        if find_window(self, hwnd).is_some() {
            return false;
        }
        let id = self.desktops[desktop].id;
        self.windows.push(HostWindow { hwnd, desktop: id });
        true
    }

    /// Queue a raw status code that the next domain operation will fail with.
    pub fn push_operation_fault(&mut self, code: u32)
        requires
            old(self).wf(),
        ensures
            final(self).wf(),
            final(self).op_faults@ == old(self).op_faults@.push(code),
            final(self).desktops@ == old(self).desktops@,
            final(self).current == old(self).current,
            final(self).windows@ == old(self).windows@,
            final(self).pinned@ == old(self).pinned@,
            final(self).create_faults@ == old(self).create_faults@,
    {
        self.op_faults.push(code);
    }

    /// Queue a raw status code that the next connection attempt will fail with.
    pub fn push_connection_fault(&mut self, code: u32)
        requires
            old(self).wf(),
        ensures
            final(self).wf(),
            final(self).create_faults@ == old(self).create_faults@.push(code),
            final(self).desktops@ == old(self).desktops@,
            final(self).current == old(self).current,
            final(self).windows@ == old(self).windows@,
            final(self).pinned@ == old(self).pinned@,
            final(self).op_faults@ == old(self).op_faults@,
    {
        self.create_faults.push(code);
    }
}

/// Nothing the domain operations read or write differs between the two
/// states; the fault queues may.
pub open spec fn unchanged_domain(a: HostState, b: HostState) -> bool {
    &&& b.desktops@ == a.desktops@
    &&& b.current == a.current
    &&& b.windows@ == a.windows@
    &&& b.pinned@ == a.pinned@
}

/// The two states agree everywhere, fault queues included.
pub open spec fn unchanged_host(a: HostState, b: HostState) -> bool {
    &&& unchanged_domain(a, b)
    &&& b.op_faults@ == a.op_faults@
    &&& b.create_faults@ == a.create_faults@
}

/// The position of the desktop with this identifier, if it still exists.
pub fn find_desktop(h: &HostState, id: DesktopID) -> (r: Option<usize>)
    ensures
        match r {
            Some(j) => j < h.desktops@.len() && h.desktops@[j as int].id == id,
            None => !h.has_id(id),
        },
{
    let mut i: usize = 0;
    while i < h.desktops.len()
        invariant
            i <= h.desktops@.len(),
            forall|k: int| 0 <= k < i ==> #[trigger] h.desktops@[k].id != id,
        decreases h.desktops@.len() - i,
    {
        if h.desktops[i].id == id {
            return Some(i);
        }
        i += 1;
    }
    None
}

/// The position of the window with this handle, if it exists.
pub fn find_window(h: &HostState, hwnd: HWND) -> (r: Option<usize>)
    ensures
        match r {
            Some(j) => j < h.windows@.len() && h.windows@[j as int].hwnd == hwnd,
            None => !h.has_window(hwnd),
        },
{
    let mut i: usize = 0;
    while i < h.windows.len()
        invariant
            i <= h.windows@.len(),
            forall|k: int| 0 <= k < i ==> #[trigger] h.windows@[k].hwnd != hwnd,
        decreases h.windows@.len() - i,
    {
        if h.windows[i].hwnd == hwnd {
            return Some(i);
        }
        i += 1;
    }
    None
}

/// The position of the handle in the pinned set, if it is pinned.
pub fn find_pinned(h: &HostState, hwnd: HWND) -> (r: Option<usize>)
    ensures
        match r {
            Some(j) => j < h.pinned@.len() && h.pinned@[j as int] == hwnd,
            None => !h.is_pinned(hwnd),
        },
{
    let mut i: usize = 0;
    while i < h.pinned.len()
        invariant
            i <= h.pinned@.len(),
            forall|k: int| 0 <= k < i ==> #[trigger] h.pinned@[k] != hwnd,
        decreases h.pinned@.len() - i,
    {
        if h.pinned[i] == hwnd {
            return Some(i);
        }
        i += 1;
    }
    None
}

/// The desktop identifiers as an owned vector, in order.
pub fn list_desktops(h: &HostState) -> (v: Vec<DesktopID>)
    ensures
        v@ == h.ids(),
{
    let mut v: Vec<DesktopID> = Vec::new();
    let mut i: usize = 0;
    while i < h.desktops.len()
        invariant
            i <= h.desktops@.len(),
            v@ =~= h.ids().take(i as int),
        decreases h.desktops@.len() - i,
    {
        v.push(h.desktops[i].id);
        i += 1;
    }
    proof {
        assert(v@ =~= h.ids());
    }
    v
}

/// The desktop names as an owned vector, in order.
pub fn list_names(h: &HostState) -> (v: Vec<String>)
    ensures
        v@.map_values(|s: String| s@) == h.names(),
{
    let mut v: Vec<String> = Vec::new();
    let mut i: usize = 0;
    while i < h.desktops.len()
        invariant
            i <= h.desktops@.len(),
            v@.len() == i,
            forall|k: int| 0 <= k < i ==> #[trigger] v@[k]@ == h.desktops@[k].name@,
        decreases h.desktops@.len() - i,
    {
        v.push(name_at(h, i));
        i += 1;
    }
    proof {
        assert(v@.map_values(|s: String| s@) =~= h.names());
    }
    v
}

fn name_at(h: &HostState, i: usize) -> (s: String)
    requires
        i < h.desktops@.len(),
    ensures
        s@ == h.desktops@[i as int].name@,
{
    h.desktops[i].name.clone()
}

} // verus!
