//! The window registry: the stacking order and the focus cursor.

use vstd::prelude::*;
use crate::config::SnapPosition;
use crate::geometry::{Point, Rectangle, Size};

verus! {

/// What the registry itself records of a window.
#[derive(Debug, Clone, Copy, PartialEq, Eq, Structural)]
pub struct WindowMeta {
    /// Number given when the window was added. Numbers grow, and no two
    /// windows ever get the same.
    pub id: u64,
    /// Geometry before the last snap
    pub pre_snap_geometry: Option<Rectangle>,
    /// Current snap state
    pub snap_state: Option<SnapPosition>,
}

/// A top-level window as the registry sees it: a token that names the
/// surface, and the last known answers of the display platform about it.
///
/// Two values stand for the same window exactly when their `handle`s are
/// equal, whatever their other fields hold: the registry finds a window by
/// its `handle` alone.
#[derive(Debug, Clone, Copy, PartialEq, Eq, Structural)]
pub struct Window {
    /// Token of the surface, stable for as long as the surface lives
    pub handle: u64,
    /// Top-left corner, where the window is mapped
    pub location: Option<Point>,
    /// Size that the window has committed
    pub size: Size,
    /// Whether the surface still exists
    pub alive: bool,
}

impl Window {
    /// A living window that the registry has not seen yet.
    pub fn new(handle: u64, location: Option<Point>, size: Size) -> (window: Window)
        ensures
            window == (Window { handle, location, size, alive: true }),
    {
        Window { handle, location, size, alive: true }
    }
}

/// The registry as a mathematical value.
pub struct RegistryView {
    /// Stacking order, bottom first
    pub windows: Seq<Window>,
    /// The record of each window, in the same order
    pub metadata: Seq<WindowMeta>,
    /// Index of the focused window in `windows`
    pub focused: Option<int>,
    /// The number that the next added window gets
    pub next_id: u64,
}

/// Whether `i` is the lowest place in `stack` of a window named `handle`.
pub open spec fn is_first_index(stack: Seq<Window>, handle: u64, i: int) -> bool {
    &&& 0 <= i < stack.len()
    &&& stack[i].handle == handle
    &&& forall|j: int| 0 <= j < i ==> stack[j].handle != handle
}

/// The lowest place in `stack` of a window named `handle`.
pub open spec fn first_index(stack: Seq<Window>, handle: u64) -> Option<int> {
    if exists|i: int| is_first_index(stack, handle, i) {
        Some(choose|i: int| is_first_index(stack, handle, i))
    } else {
        None
    }
}

/// A focus index that points past the end of a stack of `len` windows moves
/// to the top of it, or goes away with the last window.
pub open spec fn clamped_focus(focused: Option<int>, len: int) -> Option<int> {
    match focused {
        None => None,
        Some(f) => if f < len {
            Some(f)
        } else if len == 0 {
            None
        } else {
            Some(len - 1)
        },
    }
}

/// The focus after the window at `pos` has left a stack that then holds
/// `len` windows.
pub open spec fn focus_after_remove(focused: Option<int>, pos: int, len: int) -> Option<int> {
    match focused {
        None => None,
        Some(f) => if f >= len {
            clamped_focus(focused, len)
        } else if f > pos {
            Some(f - 1)
        } else {
            Some(f)
        },
    }
}

/// The registry after the window named `handle` was removed.
pub open spec fn after_remove(r: RegistryView, handle: u64) -> RegistryView {
    match first_index(r.windows, handle) {
        None => r,
        Some(pos) => RegistryView {
            windows: r.windows.remove(pos),
            metadata: r.metadata.remove(pos),
            focused: focus_after_remove(r.focused, pos, r.windows.len() - 1),
            next_id: r.next_id,
        },
    }
}

/// The focus one step up a stack of `len` windows, from the top back to the
/// bottom.
pub open spec fn next_focus(focused: Option<int>, len: int) -> Option<int> {
    if len <= 0 {
        focused
    } else {
        match focused {
            Some(f) => Some((f + 1) % len),
            None => Some(0),
        }
    }
}

/// The focus one step down a stack of `len` windows, from the bottom back to
/// the top.
pub open spec fn prev_focus(focused: Option<int>, len: int) -> Option<int> {
    if len <= 0 {
        focused
    } else {
        match focused {
            Some(f) => Some(if f == 0 { len - 1 } else { f - 1 }),
            None => Some(0),
        }
    }
}

/// The focus after `n` steps up.
pub open spec fn focus_after_steps(focused: Option<int>, len: int, n: nat) -> Option<int>
    decreases n,
{
    if n == 0 {
        focused
    } else {
        next_focus(focus_after_steps(focused, len, (n - 1) as nat), len)
    }
}

/// The entry `entry` after the display platform has reported `report`: an
/// entry that `report` names takes its location, its size and whether it
/// is alive from there, and keeps what the registry recorded of it.
pub open spec fn refreshed(entry: Window, report: Window) -> Window {
    if entry.handle == report.handle {
        Window { location: report.location, size: report.size, alive: report.alive, ..entry }
    } else {
        entry
    }
}

/// Those of `items` that belong to windows that are alive, where `items`
/// holds one item for each of `windows`, in the same order.
pub open spec fn survivors<T>(windows: Seq<Window>, items: Seq<T>) -> Seq<T>
    decreases windows.len(),
{
    if windows.len() == 0 || items.len() == 0 {
        Seq::empty()
    } else {
        let before = survivors(windows.drop_last(), items.drop_last());
        if windows.last().alive {
            before.push(items.last())
        } else {
            before
        }
    }
}

/// Manages window state and operations
pub struct WindowManager {
    /// All managed windows in stacking order (bottom to top)
    windows: Vec<Window>,
    /// Window metadata, in the same order
    metadata: Vec<WindowMeta>,
    /// Currently focused window index
    focused: Option<usize>,
    /// Counter for window IDs
    next_id: u64,
}

impl View for WindowManager {
    type V = RegistryView;

    closed spec fn view(&self) -> RegistryView {
        RegistryView {
            windows: self.windows@,
            metadata: self.metadata@,
            focused: match self.focused {
                Some(f) => Some(f as int),
                None => None,
            },
            next_id: self.next_id,
        }
    }
}

impl RegistryView {
    /// Every window has its record; the focus, where there is one, is a
    /// place in the stack; and the ids of the records are all different and
    /// all below the next one.
    pub open spec fn wf(self) -> bool {
        &&& self.metadata.len() == self.windows.len()
        &&& self.focused matches Some(f) ==> 0 <= f < self.windows.len()
        &&& forall|i: int| 0 <= i < self.metadata.len() ==> (#[trigger] self.metadata[i]).id
            < self.next_id
        &&& forall|i: int, j: int|
            0 <= i < j < self.metadata.len() ==> (#[trigger] self.metadata[i]).id != (
            #[trigger] self.metadata[j]).id
    }

    /// The registry without the windows that are gone, with the focus as
    /// it is after those windows were removed one by one. A focused window
    /// that is alive keeps the focus. The focus of one that is gone goes to
    /// the next living window above it, else to the new top, and is lost
    /// with the last window.
    pub open spec fn cleaned(self) -> RegistryView {
        RegistryView {
            windows: self.windows.filter(|w: Window| w.alive),
            metadata: survivors(self.windows, self.metadata),
            focused: match self.focused {
                Some(f) => clamped_focus(
                    Some(self.windows.take(f).filter(|w: Window| w.alive).len() as int),
                    self.windows.filter(|w: Window| w.alive).len() as int,
                ),
                None => None,
            },
            next_id: self.next_id,
        }
    }

    /// The record of the focused window.
    pub open spec fn focused_meta(self) -> Option<WindowMeta> {
        match self.focused {
            Some(f) => Some(self.metadata[f]),
            None => None,
        }
    }

    /// The registry after a snap of the focused window was recorded: its
    /// record holds the geometry `prior` that it had and the position that
    /// it went to.
    pub open spec fn with_snap(self, prior: Option<Rectangle>, position: SnapPosition)
        -> RegistryView {
        match self.focused {
            Some(f) => RegistryView {
                metadata: self.metadata.update(
                    f,
                    WindowMeta {
                        id: self.metadata[f].id,
                        pre_snap_geometry: prior,
                        snap_state: Some(position),
                    },
                ),
                ..self
            },
            None => self,
        }
    }

    /// The registry with the focused window moved to the top of the stack
    /// and focused there.
    pub open spec fn raised(self) -> RegistryView {
        match self.focused {
            Some(f) => if f < self.windows.len() - 1 {
                RegistryView {
                    windows: self.windows.remove(f).push(self.windows[f]),
                    metadata: self.metadata.remove(f).push(self.metadata[f]),
                    focused: Some(self.windows.len() - 1),
                    next_id: self.next_id,
                }
            } else {
                self
            },
            None => self,
        }
    }

    /// The focused window.
    pub open spec fn focused_window(self) -> Option<Window> {
        match self.focused {
            Some(f) => Some(self.windows[f]),
            None => None,
        }
    }
}

impl WindowManager {
    /// Validity of a registry: that of its view.
    pub open spec fn wf(&self) -> bool {
        self@.wf()
    }

    /// The empty registry.
    pub fn new() -> (registry: Self)
        ensures
            registry.wf(),
            registry@ == (RegistryView {
                windows: Seq::empty(),
                metadata: Seq::empty(),
                focused: None,
                next_id: 0,
            }),
    {
        WindowManager { windows: Vec::new(), metadata: Vec::new(), focused: None, next_id: 0 }
    }

    /// Puts `window` on top of the stack under a fresh id and focuses it.
    pub fn add(&mut self, window: Window)
        requires
            old(self).wf(),
            old(self)@.next_id < u64::MAX,
        ensures
            final(self).wf(),
            final(self)@ == (RegistryView {
                windows: old(self)@.windows.push(window),
                metadata: old(self)@.metadata.push(
                    WindowMeta {
                        id: old(self)@.next_id,
                        pre_snap_geometry: None,
                        snap_state: None,
                    },
                ),
                focused: Some(old(self)@.windows.len() as int),
                next_id: (old(self)@.next_id + 1) as u64,
            }),
    {
        let id = self.next_id;
        self.next_id = self.next_id + 1;
        self.metadata.push(WindowMeta { id, pre_snap_geometry: None, snap_state: None });
        self.windows.push(window);
        self.focused = Some(self.windows.len() - 1);
    }

    /// Takes the window that `window` names off the stack, the lowest such
    /// one if several are. The focus stays on the window it was on, unless
    /// that is the one that leaves.
    pub fn remove(&mut self, window: &Window)
        requires
            old(self).wf(),
        ensures
            final(self).wf(),
            final(self)@ == after_remove(old(self)@, window.handle),
    {
        let mut pos: usize = 0;
        while pos < self.windows.len() && self.windows[pos].handle != window.handle
            invariant
                pos <= self.windows.len(),
                forall|j: int| 0 <= j < pos ==> self.windows@[j].handle != window.handle,
            decreases self.windows.len() - pos,
        {
            pos = pos + 1;
        }
        if pos < self.windows.len() {
            proof {
                lemma_first_index(self.windows@, window.handle, pos as int);
            }
            self.windows.remove(pos);
            self.metadata.remove(pos);
            if let Some(focused) = self.focused {
                if focused >= self.windows.len() {
                    self.focused = if self.windows.len() == 0 {
                        None
                    } else {
                        Some(self.windows.len() - 1)
                    };
                } else if focused > pos {
                    self.focused = Some(focused - 1);
                }
            }
        } else {
            assert(first_index(self.windows@, window.handle) is None);
        }
    }

    /// The focused window.
    pub fn focused(&self) -> (window: Option<&Window>)
        requires
            self.wf(),
        ensures
            match window {
                Some(w) => self@.focused_window() == Some(*w),
                None => self@.focused is None,
            },
    {
        match self.focused {
            Some(i) => Some(&self.windows[i]),
            None => None,
        }
    }

    /// The focused window, to be updated in place. The stack keeps its order
    /// and the focus its index.
    pub fn focused_mut(&mut self) -> (window: Option<&mut Window>)
        requires
            old(self).wf(),
        ensures
            match window {
                Some(w) => {
                    &&& old(self)@.focused_window() == Some(*w)
                    &&& final(self)@ == (RegistryView {
                        windows: old(self)@.windows.update(old(self)@.focused.unwrap(), *final(w)),
                        ..old(self)@
                    })
                },
                None => old(self)@.focused is None && final(self)@ == old(self)@,
            },
    {
        match self.focused {
            Some(i) => Some(&mut self.windows[i]),
            None => None,
        }
    }

    /// The index of the focused window in the stack.
    pub fn focused_index(&self) -> (index: Option<usize>)
        ensures
            match index {
                Some(i) => self@.focused == Some(i as int),
                None => self@.focused is None,
            },
    {
        self.focused
    }

    /// Moves the focus one window up the stack, and from the top to the
    /// bottom.
    pub fn focus_next(&mut self)
        requires
            old(self).wf(),
        ensures
            final(self).wf(),
            final(self)@ == (RegistryView {
                focused: next_focus(old(self)@.focused, old(self)@.windows.len() as int),
                ..old(self)@
            }),
    {
        if self.windows.len() == 0 {
            return ;
        }
        self.focused = Some(
            match self.focused {
                Some(i) => (i + 1) % self.windows.len(),
                None => 0,
            },
        );
    }

    /// Moves the focus one window down the stack, and from the bottom to the
    /// top.
    pub fn focus_prev(&mut self)
        requires
            old(self).wf(),
        ensures
            final(self).wf(),
            final(self)@ == (RegistryView {
                focused: prev_focus(old(self)@.focused, old(self)@.windows.len() as int),
                ..old(self)@
            }),
    {
        if self.windows.len() == 0 {
            return ;
        }
        self.focused = Some(
            match self.focused {
                Some(i) => {
                    if i == 0 {
                        self.windows.len() - 1
                    } else {
                        i - 1
                    }
                },
                None => 0,
            },
        );
    }

    /// Moves the focused window to the top of the stack and keeps it
    /// focused.
    pub fn raise_focused(&mut self)
        requires
            old(self).wf(),
        ensures
            final(self).wf(),
            final(self)@ == old(self)@.raised(),
    {
        if let Some(i) = self.focused {
            if i < self.windows.len() - 1 {
                let window = self.windows.remove(i);
                self.windows.push(window);
                let meta = self.metadata.remove(i);
                self.metadata.push(meta);
                self.focused = Some(self.windows.len() - 1);
            }
        }
    }

    /// Drops every window that is no longer alive. The focus stays on the
    /// window it was on, unless that window is gone.
    pub fn cleanup_closed(&mut self)
        requires
            old(self).wf(),
        ensures
            final(self).wf(),
            final(self)@ == old(self)@.cleaned(),
    {
        let ghost before = self.windows@;
        let ghost records = self.metadata@;
        let ghost alive = |w: Window| w.alive;
        let ghost mut origin: Seq<int> = Seq::empty();
        let mut kept: Vec<Window> = Vec::new();
        let mut kept_records: Vec<WindowMeta> = Vec::new();
        let mut below: usize = 0;
        let mut i: usize = 0;
        proof {
            reveal(Seq::filter);
        }
        while i < self.windows.len()
            invariant
                i <= self.windows.len(),
                self.windows@ == before,
                self.focused == old(self).focused,
                self.focused matches Some(f) ==> f < before.len() && (f < i ==> below
                    == before.take(f as int).filter(alive).len()),
                self.metadata@ == records,
                records.len() == before.len(),
                alive == |w: Window| w.alive,
                kept@ == before.take(i as int).filter(alive),
                kept_records@ == survivors(before.take(i as int), records.take(i as int)),
                origin.len() == kept_records.len(),
                forall|k: int|
                    0 <= k < origin.len() ==> 0 <= #[trigger] origin[k] < i && kept_records@[k]
                        == records[origin[k]],
                forall|k: int, l: int|
                    0 <= k < l < origin.len() ==> #[trigger] origin[k] < #[trigger] origin[l],
            decreases self.windows.len() - i,
        {
            let window = self.windows[i];
            let record = self.metadata[i];
            if let Some(focused) = self.focused {
                if i == focused {
                    below = kept.len();
                }
            }
            proof {
                assert(before.take(i as int + 1) =~= before.take(i as int).push(window));
                assert(before.take(i as int + 1).drop_last() =~= before.take(i as int));
                assert(records.take(i as int + 1).drop_last() =~= records.take(i as int));
                before.take(i as int).lemma_filter_push(window, alive);
            }
            if window.alive {
                kept.push(window);
                kept_records.push(record);
                proof {
                    origin = origin.push(i as int);
                }
            }
            i = i + 1;
        }
        proof {
            assert(before.take(i as int) =~= before);
            assert(records.take(i as int) =~= records);
            assert forall|a: int, b: int| 0 <= a < b < kept_records.len() implies (
            #[trigger] kept_records@[a]).id != (#[trigger] kept_records@[b]).id by {
                assert(records[origin[a]].id != records[origin[b]].id);
            }
            assert forall|a: int| 0 <= a < kept_records.len() implies (
            #[trigger] kept_records@[a]).id < self.next_id by {
                assert(records[origin[a]].id < self.next_id);
            }
            before.lemma_filter_len(alive);
            lemma_survivors_len(before, records);
        }
        self.windows = kept;
        self.metadata = kept_records;
        if self.focused.is_some() {
            self.focused = if below < self.windows.len() {
                Some(below)
            } else if self.windows.len() == 0 {
                None
            } else {
                Some(self.windows.len() - 1)
            };
        }
    }

    /// The record of the focused window.
    pub fn focused_meta(&self) -> (meta: Option<WindowMeta>)
        requires
            self.wf(),
        ensures
            meta == self@.focused_meta(),
    {
        match self.focused {
            Some(i) => Some(self.metadata[i]),
            None => None,
        }
    }

    /// The records of all windows in stacking order, bottom first.
    pub fn metadata(&self) -> (records: &[WindowMeta])
        ensures
            records@ == self@.metadata,
    {
        self.metadata.as_slice()
    }

    /// Records a snap of the focused window: the geometry `prior` that it
    /// had, and the position that it goes to.
    pub fn record_snap(&mut self, prior: Option<Rectangle>, position: SnapPosition)
        requires
            old(self).wf(),
        ensures
            final(self).wf(),
            final(self)@ == old(self)@.with_snap(prior, position),
    {
        if let Some(i) = self.focused {
            let id = self.metadata[i].id;
            self.metadata.set(
                i,
                WindowMeta { id, pre_snap_geometry: prior, snap_state: Some(position) },
            );
        }
    }

    /// Takes note of what the display platform reports of a window: its
    /// location, its size and whether it is alive.
    pub fn refresh(&mut self, report: &Window)
        requires
            old(self).wf(),
        ensures
            final(self).wf(),
            final(self)@ == (RegistryView {
                windows: old(self)@.windows.map_values(|w: Window| refreshed(w, *report)),
                ..old(self)@
            }),
    {
        let ghost before = self.windows@;
        let mut updated: Vec<Window> = Vec::new();
        let mut i: usize = 0;
        while i < self.windows.len()
            invariant
                i <= self.windows.len(),
                self.windows@ == before,
                updated.len() == i,
                forall|k: int| 0 <= k < i ==> updated@[k] == refreshed(before[k], *report),
            decreases self.windows.len() - i,
        {
            let mut entry = self.windows[i];
            if entry.handle == report.handle {
                entry.location = report.location;
                entry.size = report.size;
                entry.alive = report.alive;
            }
            updated.push(entry);
            i = i + 1;
        }
        assert(updated@ =~= before.map_values(|w: Window| refreshed(w, *report)));
        self.windows = updated;
    }

    /// The number that the next added window gets.
    pub fn next_id(&self) -> (id: u64)
        ensures
            id == self@.next_id,
    {
        self.next_id
    }

    /// All windows in stacking order, bottom first.
    pub fn all(&self) -> (windows: &[Window])
        ensures
            windows@ == self@.windows,
    {
        self.windows.as_slice()
    }

    /// The number of windows.
    pub fn len(&self) -> (len: usize)
        ensures
            len == self@.windows.len(),
    {
        self.windows.len()
    }

    /// Whether no window is managed.
    pub fn is_empty(&self) -> (empty: bool)
        ensures
            empty == (self@.windows.len() == 0),
    {
        self.windows.len() == 0
    }
}

/// There are as many survivors as windows that are alive.
proof fn lemma_survivors_len<T>(windows: Seq<Window>, items: Seq<T>)
    requires
        windows.len() == items.len(),
    ensures
        survivors(windows, items).len() == windows.filter(|w: Window| w.alive).len(),
    decreases windows.len(),
{
    reveal(Seq::filter);
    if windows.len() > 0 {
        lemma_survivors_len(windows.drop_last(), items.drop_last());
    }
}

/// The survivors of the lowest `n` windows come first among the survivors
/// of all.
proof fn lemma_survivors_prefix<T>(windows: Seq<Window>, items: Seq<T>, n: int)
    requires
        windows.len() == items.len(),
        0 <= n <= windows.len(),
    ensures
        survivors(windows.take(n), items.take(n)).is_prefix_of(survivors(windows, items)),
    decreases windows.len(),
{
    if n == windows.len() {
        assert(windows.take(n) == windows);
        assert(items.take(n) == items);
    } else {
        lemma_survivors_prefix(windows.drop_last(), items.drop_last(), n);
        assert(windows.drop_last().take(n) == windows.take(n));
        assert(items.drop_last().take(n) == items.take(n));
    }
}

/// Dropping the windows that are gone leaves the focus on the window it
/// was on, and with it that window's record, where that window is alive.
pub proof fn lemma_cleanup_keeps_focus(registry: RegistryView)
    requires
        registry.wf(),
        registry.focused_window() matches Some(w) && w.alive,
    ensures
        registry.cleaned().focused is Some,
        registry.cleaned().focused_window() == registry.focused_window(),
        registry.cleaned().focused_meta() == registry.focused_meta(),
{
    let alive = |w: Window| w.alive;
    let f = registry.focused.unwrap();
    let windows = registry.windows;
    let records = registry.metadata;
    let lower = windows.take(f);
    let upto = windows.take(f + 1);
    assert(upto == lower.push(windows[f]));
    assert(upto.drop_last() == lower);
    assert(records.take(f + 1).drop_last() == records.take(f));
    lower.lemma_filter_push(windows[f], alive);
    assert(windows == upto + windows.skip(f + 1));
    Seq::filter_distributes_over_add(upto, windows.skip(f + 1), alive);
    lemma_survivors_prefix(windows, records, f + 1);
    lemma_survivors_len(lower, records.take(f));
    let g = lower.filter(alive).len() as int;
    assert(survivors(upto, records.take(f + 1))[g] == records[f]);
}

/// An index that holds `handle` below which no window does is the first
/// index of `handle`.
proof fn lemma_first_index(stack: Seq<Window>, handle: u64, i: int)
    requires
        is_first_index(stack, handle, i),
    ensures
        first_index(stack, handle) == Some(i),
{
    let j = choose|j: int| is_first_index(stack, handle, j);
    if j < i {
        assert(stack[j].handle != handle);
    } else if i < j {
        assert(stack[i].handle != handle);
    }
}

/// Removing a window other than the focused one leaves the focus on the
/// window it was on.
pub proof fn lemma_remove_keeps_focus(registry: RegistryView, handle: u64)
    requires
        registry.wf(),
        registry.focused_window() matches Some(w) && w.handle != handle,
    ensures
        after_remove(registry, handle).wf(),
        after_remove(registry, handle).focused_window() == registry.focused_window(),
{
    match first_index(registry.windows, handle) {
        None => {},
        Some(pos) => {
            assert(is_first_index(registry.windows, handle, pos));
        },
    }
}

/// `n` steps up from the window at `start` lead to the window `n` places
/// further up, counted round the stack.
proof fn lemma_focus_steps(start: int, len: int, n: nat)
    requires
        0 <= start < len,
    ensures
        focus_after_steps(Some(start), len, n) == Some((start + n) % len),
    decreases n,
{
    if n == 0 {
        vstd::arithmetic::div_mod::lemma_small_mod(start as nat, len as nat);
    } else {
        lemma_focus_steps(start, len, (n - 1) as nat);
        vstd::arithmetic::div_mod::lemma_add_mod_noop(start + n - 1, 1, len);
        vstd::arithmetic::div_mod::lemma_mod_twice(start + n - 1, len);
        if len == 1 {
            assert(((start + n - 1) % 1 + 1) % 1 == 0);
        } else {
            vstd::arithmetic::div_mod::lemma_small_mod(1, len as nat);
        }
    }
}

/// On a stack of `len` windows, `len` steps up from any focused window end
/// on that window again.
pub proof fn lemma_focus_next_cycle(start: int, len: int)
    requires
        0 <= start < len,
    ensures
        focus_after_steps(Some(start), len, len as nat) == Some(start),
{
    lemma_focus_steps(start, len, len as nat);
    vstd::arithmetic::div_mod::lemma_mod_add_multiples_vanish(start, len);
    vstd::arithmetic::div_mod::lemma_small_mod(start as nat, len as nat);
}

/// Direction of a move or resize step.
#[derive(Debug, Clone, Copy, PartialEq, Eq, Structural)]
pub enum Direction {
    Up,
    Down,
    Left,
    Right,
}

impl Direction {
    /// The unit vector of the direction, with `y` growing downwards.
    pub open spec fn unit(self) -> (int, int) {
        match self {
            Direction::Up => (0, -1),
            Direction::Down => (0, 1),
            Direction::Left => (-1, 0),
            Direction::Right => (1, 0),
        }
    }

    /// The displacement of one move step of `step` pixels.
    pub fn to_delta(&self, step: i32) -> (delta: Point)
        requires
            step > i32::MIN,
        ensures
            delta.x == self.unit().0 * step,
            delta.y == self.unit().1 * step,
    {
        match self {
            Direction::Up => Point { x: 0, y: -step },
            Direction::Down => Point { x: 0, y: step },
            Direction::Left => Point { x: -step, y: 0 },
            Direction::Right => Point { x: step, y: 0 },
        }
    }

    /// The change of `(width, height)` that one resize step of `step` pixels
    /// makes.
    pub fn to_size_delta(&self, step: i32) -> (delta: (i32, i32))
        requires
            step > i32::MIN,
        ensures
            delta.0 == self.unit().0 * step,
            delta.1 == self.unit().1 * step,
    {
        match self {
            Direction::Up => (0, -step),
            Direction::Down => (0, step),
            Direction::Left => (-step, 0),
            Direction::Right => (step, 0),
        }
    }
}

} // verus!
