//! The modal input dispatcher: what a key event means, given the modes in
//! force, and what is then asked of the display platform.

use vstd::prelude::*;
use crate::arrange::{
    geometry_fits, move_target, moved, resize_target, resized, snap_geometry, snapped,
    MIN_WINDOW_SIZE,
};
use crate::command_center::{CommandCenterSection, CommandCenterView};
use crate::config::SnapPosition;
use crate::geometry::{fits_i32, Point, Rectangle, Size};
use crate::state::{VibeWM, VibeWMView, DEFAULT_OUTPUT_HEIGHT, DEFAULT_OUTPUT_WIDTH};
use crate::window::{next_focus, prev_focus, Direction, RegistryView, Window};

verus! {

/// Input handling state
#[derive(Debug, Clone, Copy, PartialEq, Eq, Structural)]
pub struct InputState {
    /// Is resize mode active (mod+R held)?
    pub resize_mode: bool,
    /// Has quit been requested?
    pub quit_requested: bool,
}

impl InputState {
    pub fn new() -> (state: Self)
        ensures
            state == (InputState { resize_mode: false, quit_requested: false }),
    {
        InputState { resize_mode: false, quit_requested: false }
    }
}

/// The modifiers held while a key event arrives.
#[derive(Debug, Clone, Copy, PartialEq, Eq, Structural)]
pub struct ModifiersState {
    /// The secondary modifier
    pub shift: bool,
    /// The primary modifier, which qualifies every binding
    pub logo: bool,
}

/// The symbol that a key stands for, by its number.
#[derive(Debug, Clone, Copy, PartialEq, Eq, Structural)]
pub struct Keysym {
    pub raw: u32,
}

impl Keysym {
    /// The number of the symbol.
    pub fn raw(self) -> (raw: u32)
        ensures
            raw == self.raw,
    {
        self.raw
    }
}

pub const KEY_BACKSPACE: u32 = 0xff08;

pub const KEY_TAB: u32 = 0xff09;

pub const KEY_RETURN: u32 = 0xff0d;

pub const KEY_ESCAPE: u32 = 0xff1b;

pub const KEY_LEFT: u32 = 0xff51;

pub const KEY_UP: u32 = 0xff52;

pub const KEY_RIGHT: u32 = 0xff53;

pub const KEY_DOWN: u32 = 0xff54;

pub const KEY_I: u32 = 0x69;

pub const KEY_J: u32 = 0x6a;

pub const KEY_K: u32 = 0x6b;

pub const KEY_L: u32 = 0x6c;

pub const KEY_Q: u32 = 0x71;

pub const KEY_R: u32 = 0x72;

pub const KEY_S: u32 = 0x73;

pub const KEY_W: u32 = 0x77;

/// What the display platform is asked to do after a key event.
#[derive(Debug, Clone)]
pub enum Action {
    /// Nothing
    Nothing,
    /// Put the window at `location`, at once
    SetPosition { window: u64, location: Point },
    /// Ask the window to take `size`; it answers when it will
    RequestSize { window: u64, size: Size },
    /// Put the window at the corner of `geometry`, and ask it to take the
    /// size of `geometry`
    Snap { window: u64, geometry: Rectangle },
    /// Ask the window to close
    Close { window: u64 },
    /// Start `command`, and do not wait for it
    Spawn { command: String },
}

/// An [`Action`] as a mathematical value.
pub enum ActionView {
    Nothing,
    SetPosition { window: u64, location: Point },
    RequestSize { window: u64, size: Size },
    Snap { window: u64, geometry: Rectangle },
    Close { window: u64 },
    Spawn { command: Seq<char> },
}

impl View for Action {
    type V = ActionView;

    open spec fn view(&self) -> ActionView {
        match self {
            Action::Nothing => ActionView::Nothing,
            Action::SetPosition { window, location } => ActionView::SetPosition {
                window: *window,
                location: *location,
            },
            Action::RequestSize { window, size } => ActionView::RequestSize {
                window: *window,
                size: *size,
            },
            Action::Snap { window, geometry } => ActionView::Snap {
                window: *window,
                geometry: *geometry,
            },
            Action::Close { window } => ActionView::Close { window: *window },
            Action::Spawn { command } => ActionView::Spawn { command: command@ },
        }
    }
}

/// What became of a key event.
#[derive(Debug, Clone)]
pub struct KeyResult {
    /// Whether the event was a binding of the window manager. An event
    /// that was not goes on to the focused client.
    pub handled: bool,
    /// What the display platform is to do
    pub action: Action,
}

/// The binding that a key event falls under.
#[derive(Debug, Clone, Copy, PartialEq, Eq, Structural)]
pub enum Binding {
    /// The resize key with the modifier, pressed or released
    ResizeMode,
    /// The release of any other key
    Release,
    /// The key that opens and closes the command center
    ToggleCommandCenter,
    /// Any other key while the command center is visible
    CommandCenter,
    Quit,
    FocusNext,
    FocusPrev,
    /// A move of the focused window, or a resize in resize mode
    Motion(Direction),
    Snap(SnapPosition),
    CloseWindow,
    /// No binding
    Unbound,
}

/// The binding of a key event, found in the order of precedence: the
/// resize key first, whether pressed or released; then presses only; the
/// command center's key; the command center itself while it is visible;
/// and last the bindings of windows, which all need the modifier.
pub open spec fn binding_of(
    modifiers: ModifiersState,
    keysym: Keysym,
    pressed: bool,
    overlay_visible: bool,
) -> Binding {
    let key = keysym.raw;
    if modifiers.logo && key == KEY_R {
        Binding::ResizeMode
    } else if !pressed {
        Binding::Release
    } else if modifiers.logo && key == KEY_S {
        Binding::ToggleCommandCenter
    } else if overlay_visible {
        Binding::CommandCenter
    } else if !modifiers.logo {
        Binding::Unbound
    } else if key == KEY_Q {
        Binding::Quit
    } else if key == KEY_TAB {
        if modifiers.shift {
            Binding::FocusPrev
        } else {
            Binding::FocusNext
        }
    } else if key == KEY_I {
        Binding::Motion(Direction::Up)
    } else if key == KEY_K {
        Binding::Motion(Direction::Down)
    } else if key == KEY_J {
        Binding::Motion(Direction::Left)
    } else if key == KEY_L {
        Binding::Motion(Direction::Right)
    } else if key == KEY_LEFT {
        Binding::Snap(SnapPosition::Left)
    } else if key == KEY_RIGHT {
        Binding::Snap(SnapPosition::Right)
    } else if key == KEY_UP {
        Binding::Snap(SnapPosition::Top)
    } else if key == KEY_DOWN {
        Binding::Snap(SnapPosition::Bottom)
    } else if key == KEY_W {
        Binding::CloseWindow
    } else {
        Binding::Unbound
    }
}

/// The character that a key types into the search query: small letters,
/// digits, the space, `-`, `_` and `.` as they are, capital letters as
/// small ones, and no other.
pub open spec fn typed_char(keysym: Keysym) -> Option<char> {
    let raw = keysym.raw;
    if 0x61 <= raw <= 0x7a || 0x30 <= raw <= 0x39 || raw == 0x20 || raw == 0x2d || raw == 0x5f
        || raw == 0x2e {
        Some(raw as u8 as char)
    } else if 0x41 <= raw <= 0x5a {
        Some((raw + 32) as u8 as char)
    } else {
        None
    }
}

/// Convert keysym to character for text input
pub fn keysym_to_char(keysym: Keysym) -> (typed: Option<char>)
    ensures
        typed == typed_char(keysym),
{
    let raw = keysym.raw();
    if raw >= 0x61 && raw <= 0x7a {
        return Some(raw as u8 as char);
    }
    if raw >= 0x41 && raw <= 0x5a {
        return Some((raw as u8 + 32) as char);
    }
    if raw >= 0x30 && raw <= 0x39 {
        return Some(raw as u8 as char);
    }
    if raw == 0x20 {
        return Some(' ');
    }
    if raw == 0x2d {
        Some('-')
    } else if raw == 0x5f {
        Some('_')
    } else if raw == 0x2e {
        Some('.')
    } else {
        None
    }
}

/// Finds the binding of a key event.
pub fn classify(
    modifiers: &ModifiersState,
    keysym: Keysym,
    pressed: bool,
    overlay_visible: bool,
) -> (binding: Binding)
    ensures
        binding == binding_of(*modifiers, keysym, pressed, overlay_visible),
{
    let key = keysym.raw();
    if modifiers.logo && key == KEY_R {
        return Binding::ResizeMode;
    }
    if !pressed {
        return Binding::Release;
    }
    if modifiers.logo && key == KEY_S {
        return Binding::ToggleCommandCenter;
    }
    if overlay_visible {
        return Binding::CommandCenter;
    }
    if !modifiers.logo {
        return Binding::Unbound;
    }
    if key == KEY_Q {
        Binding::Quit
    } else if key == KEY_TAB {
        if modifiers.shift {
            Binding::FocusPrev
        } else {
            Binding::FocusNext
        }
    } else if key == KEY_I {
        Binding::Motion(Direction::Up)
    } else if key == KEY_K {
        Binding::Motion(Direction::Down)
    } else if key == KEY_J {
        Binding::Motion(Direction::Left)
    } else if key == KEY_L {
        Binding::Motion(Direction::Right)
    } else if key == KEY_LEFT {
        Binding::Snap(SnapPosition::Left)
    } else if key == KEY_RIGHT {
        Binding::Snap(SnapPosition::Right)
    } else if key == KEY_UP {
        Binding::Snap(SnapPosition::Top)
    } else if key == KEY_DOWN {
        Binding::Snap(SnapPosition::Bottom)
    } else if key == KEY_W {
        Binding::CloseWindow
    } else {
        Binding::Unbound
    }
}

/// The registry `registry` with `window` in the place of the focused
/// window.
pub open spec fn with_focused(registry: RegistryView, window: Window) -> RegistryView {
    RegistryView {
        windows: registry.windows.update(registry.focused.unwrap(), window),
        ..registry
    }
}

impl VibeWMView {
    /// The state and the request after a move of the focused window by
    /// one step. Nothing happens without a focused window, with one that
    /// is not mapped, and where the place one step on cannot be told in
    /// the machine's coordinates.
    pub open spec fn after_move(self, direction: Direction) -> (VibeWMView, ActionView) {
        match self.windows.focused_window() {
            Some(window) => match window.location {
                Some(current) => {
                    let target = moved(current, direction, self.config.move_step as int);
                    if fits_i32(target.0) && fits_i32(target.1) {
                        let location = Point { x: target.0 as i32, y: target.1 as i32 };
                        (
                            VibeWMView {
                                windows: with_focused(
                                    self.windows,
                                    Window { location: Some(location), ..window },
                                ),
                                ..self
                            },
                            ActionView::SetPosition { window: window.handle, location },
                        )
                    } else {
                        (self, ActionView::Nothing)
                    }
                },
                None => (self, ActionView::Nothing),
            },
            None => (self, ActionView::Nothing),
        }
    }

    /// The request after a resize of the focused window by one step.
    /// Nothing is asked without a focused window, and where the size one
    /// step on cannot be told in the machine's coordinates.
    pub open spec fn resize_request(self, direction: Direction) -> ActionView {
        match self.windows.focused_window() {
            Some(window) => {
                let target = resized(window.size, direction, self.config.resize_step as int);
                if fits_i32(target.0) && fits_i32(target.1) {
                    ActionView::RequestSize {
                        window: window.handle,
                        size: Size { w: target.0 as i32, h: target.1 as i32 },
                    }
                } else {
                    ActionView::Nothing
                }
            },
            None => ActionView::Nothing,
        }
    }

    /// The geometry of a snap of the focused window `window` to
    /// `position`.
    pub open spec fn snap_target(self, window: Window, position: SnapPosition) -> (
        int,
        int,
        int,
        int,
    ) {
        snapped(
            position,
            self.output().w as int,
            self.output().h as int,
            self.config.outer_gap as int,
            self.config.inner_gap as int,
            window.size.w as int,
            window.size.h as int,
        )
    }

    /// The geometry that the focused window `window` has before a snap,
    /// where it is mapped.
    pub open spec fn geometry_of(window: Window) -> Option<Rectangle> {
        match window.location {
            Some(loc) => Some(Rectangle { loc, size: window.size }),
            None => None,
        }
    }

    /// The state and the request after a snap of the focused window to
    /// `position`. The window's record keeps the geometry that it had and
    /// the position that it was snapped to. Nothing happens without a
    /// focused window, and where the geometry cannot be told in the
    /// machine's coordinates.
    pub open spec fn after_snap(self, position: SnapPosition) -> (VibeWMView, ActionView) {
        match self.windows.focused_window() {
            Some(window) => {
                let target = self.snap_target(window, position);
                if geometry_fits(target) {
                    let geometry = Rectangle {
                        loc: Point { x: target.0 as i32, y: target.1 as i32 },
                        size: Size { w: target.2 as i32, h: target.3 as i32 },
                    };
                    (
                        VibeWMView {
                            windows: with_focused(
                                self.windows.with_snap(Self::geometry_of(window), position),
                                Window { location: Some(geometry.loc), ..window },
                            ),
                            ..self
                        },
                        ActionView::Snap { window: window.handle, geometry },
                    )
                } else {
                    (self, ActionView::Nothing)
                }
            },
            None => (self, ActionView::Nothing),
        }
    }

    /// The request to close the focused window.
    pub open spec fn close_request(self) -> ActionView {
        match self.windows.focused_window() {
            Some(window) => ActionView::Close { window: window.handle },
            None => ActionView::Nothing,
        }
    }

    /// Whether `after`, `handled` and `action` are what a key makes of this
    /// state while the command center is visible: Escape closes, Up and
    /// Down move the selection, Return launches, BackSpace and the keys
    /// that type a character edit the query, and no other key is handled.
    pub open spec fn command_center_input(
        self,
        keysym: Keysym,
        now: int,
        after: VibeWMView,
        handled: bool,
        action: ActionView,
    ) -> bool {
        let center = self.command_center;
        let key = keysym.raw;
        &&& after == (VibeWMView { command_center: after.command_center, ..self })
        &&& if key == KEY_ESCAPE {
            handled && action is Nothing && after.command_center == center.toggled(now)
        } else if key == KEY_UP {
            handled && action is Nothing && after.command_center == (CommandCenterView {
                selected_index: center.selected_prev(),
                ..center
            })
        } else if key == KEY_DOWN {
            handled && action is Nothing && after.command_center == (CommandCenterView {
                selected_index: center.selected_next(),
                ..center
            })
        } else if key == KEY_RETURN {
            handled && match center.selected_entry() {
                Some(entry) => action == (ActionView::Spawn { command: entry.command })
                    && after.command_center == center.toggled(now),
                None => action is Nothing && after.command_center == center,
            }
        } else if key == KEY_BACKSPACE {
            handled && action is Nothing && if center.section == CommandCenterSection::Search {
                center.requeried(center.without_last(), after.command_center)
            } else {
                after.command_center == center
            }
        } else {
            match typed_char(keysym) {
                Some(c) => handled && action is Nothing && if center.section
                    == CommandCenterSection::Search {
                    center.requeried(center.search_query.push(c), after.command_center)
                } else {
                    after.command_center == center
                },
                None => !handled && action is Nothing && after.command_center == center,
            }
        }
    }

    /// Whether `after`, `handled` and `action` are what the key event
    /// makes of this state at the time `now`.
    pub open spec fn key_event(
        self,
        modifiers: ModifiersState,
        keysym: Keysym,
        pressed: bool,
        now: int,
        after: VibeWMView,
        handled: bool,
        action: ActionView,
    ) -> bool {
        match binding_of(modifiers, keysym, pressed, self.command_center.visible) {
            Binding::ResizeMode => handled && action is Nothing && after == (VibeWMView {
                input: InputState { resize_mode: pressed, ..self.input },
                ..self
            }),
            Binding::Release => !handled && action is Nothing && after == self,
            Binding::ToggleCommandCenter => handled && action is Nothing && after == (VibeWMView {
                command_center: self.command_center.toggled(now),
                ..self
            }),
            Binding::CommandCenter => self.command_center_input(
                keysym,
                now,
                after,
                handled,
                action,
            ),
            Binding::Quit => handled && action is Nothing && after == (VibeWMView {
                input: InputState { quit_requested: true, ..self.input },
                ..self
            }),
            Binding::FocusNext => handled && action is Nothing && after == (VibeWMView {
                windows: RegistryView {
                    focused: next_focus(self.windows.focused, self.windows.windows.len() as int),
                    ..self.windows
                },
                ..self
            }),
            Binding::FocusPrev => handled && action is Nothing && after == (VibeWMView {
                windows: RegistryView {
                    focused: prev_focus(self.windows.focused, self.windows.windows.len() as int),
                    ..self.windows
                },
                ..self
            }),
            Binding::Motion(direction) => handled && if self.input.resize_mode {
                after == self && action == self.resize_request(direction)
            } else {
                (after, action) == self.after_move(direction)
            },
            Binding::Snap(position) => handled && (after, action) == self.after_snap(position),
            Binding::CloseWindow => handled && after == self && action == self.close_request(),
            Binding::Unbound => !handled && action is Nothing && after == self,
        }
    }
}

/// In no state does a resize step ask a window for less than
/// [`MIN_WINDOW_SIZE`] in either dimension.
pub proof fn lemma_resize_request_floor(state: VibeWMView, direction: Direction)
    ensures
        state.resize_request(direction) matches ActionView::RequestSize { size, .. } ==> size.w
            >= MIN_WINDOW_SIZE && size.h >= MIN_WINDOW_SIZE,
{
}

impl VibeWM {
    /// Handle vibeWM keybinds: decides what the key event means, changes
    /// the state by it and says what the display platform is to do.
    pub fn handle_keybind(
        &mut self,
        modifiers: &ModifiersState,
        keysym: Keysym,
        pressed: bool,
        now: u64,
    ) -> (result: KeyResult)
        requires
            old(self).wf(),
        ensures
            final(self).wf(),
            old(self)@.key_event(
                *modifiers,
                keysym,
                pressed,
                now as int,
                final(self)@,
                result.handled,
                result.action@,
            ),
    {
        match classify(modifiers, keysym, pressed, self.command_center.visible()) {
            Binding::ResizeMode => {
                self.input.resize_mode = pressed;
                KeyResult { handled: true, action: Action::Nothing }
            },
            Binding::Release => KeyResult { handled: false, action: Action::Nothing },
            Binding::ToggleCommandCenter => {
                self.toggle_command_center(now);
                KeyResult { handled: true, action: Action::Nothing }
            },
            Binding::CommandCenter => self.handle_command_center_input(keysym, modifiers, now),
            Binding::Quit => {
                self.input.quit_requested = true;
                KeyResult { handled: true, action: Action::Nothing }
            },
            Binding::FocusNext => {
                self.windows.focus_next();
                KeyResult { handled: true, action: Action::Nothing }
            },
            Binding::FocusPrev => {
                self.windows.focus_prev();
                KeyResult { handled: true, action: Action::Nothing }
            },
            Binding::Motion(direction) => {
                let action = self.handle_vim_motion(direction);
                KeyResult { handled: true, action }
            },
            Binding::Snap(position) => {
                let action = self.snap_focused(position);
                KeyResult { handled: true, action }
            },
            Binding::CloseWindow => {
                let action = match self.windows.focused() {
                    Some(window) => Action::Close { window: window.handle },
                    None => Action::Nothing,
                };
                KeyResult { handled: true, action }
            },
            Binding::Unbound => KeyResult { handled: false, action: Action::Nothing },
        }
    }

    /// Handle input when command center is open
    pub fn handle_command_center_input(
        &mut self,
        keysym: Keysym,
        _modifiers: &ModifiersState,
        now: u64,
    ) -> (result: KeyResult)
        requires
            old(self).wf(),
        ensures
            final(self).wf(),
            old(self)@.command_center_input(
                keysym,
                now as int,
                final(self)@,
                result.handled,
                result.action@,
            ),
    {
        let key = keysym.raw();
        if key == KEY_ESCAPE {
            self.command_center.toggle(now);
            KeyResult { handled: true, action: Action::Nothing }
        } else if key == KEY_UP {
            self.command_center.select_prev();
            KeyResult { handled: true, action: Action::Nothing }
        } else if key == KEY_DOWN {
            self.command_center.select_next();
            KeyResult { handled: true, action: Action::Nothing }
        } else if key == KEY_RETURN {
            let action = match self.command_center.launch_selected(now) {
                Some(command) => Action::Spawn { command },
                None => Action::Nothing,
            };
            KeyResult { handled: true, action }
        } else if key == KEY_BACKSPACE {
            self.command_center.handle_backspace();
            KeyResult { handled: true, action: Action::Nothing }
        } else {
            match keysym_to_char(keysym) {
                Some(c) => {
                    self.command_center.handle_char(c);
                    KeyResult { handled: true, action: Action::Nothing }
                },
                None => KeyResult { handled: false, action: Action::Nothing },
            }
        }
    }

    /// One step in `direction`: a resize in resize mode, else a move.
    pub fn handle_vim_motion(&mut self, direction: Direction) -> (action: Action)
        requires
            old(self).wf(),
        ensures
            final(self).wf(),
            if old(self)@.input.resize_mode {
                final(self)@ == old(self)@ && action@ == old(self)@.resize_request(direction)
            } else {
                (final(self)@, action@) == old(self)@.after_move(direction)
            },
    {
        if self.input.resize_mode {
            self.resize_focused(direction)
        } else {
            self.move_focused(direction)
        }
    }

    /// Moves the focused window one step in `direction`.
    pub fn move_focused(&mut self, direction: Direction) -> (action: Action)
        requires
            old(self).wf(),
        ensures
            final(self).wf(),
            (final(self)@, action@) == old(self)@.after_move(direction),
    {
        let step = self.config.move_step;
        let target = match self.windows.focused() {
            Some(window) => match window.location {
                Some(current) => move_target(current, direction, step),
                None => None,
            },
            None => None,
        };
        let Some(location) = target else {
            return Action::Nothing;
        };
        match self.windows.focused_mut() {
            Some(window) => {
                window.location = Some(location);
                Action::SetPosition { window: window.handle, location }
            },
            None => Action::Nothing,
        }
    }

    /// Asks the focused window to grow or shrink by one step along
    /// `direction`.
    pub fn resize_focused(&self, direction: Direction) -> (action: Action)
        requires
            self.wf(),
        ensures
            action@ == self@.resize_request(direction),
    {
        let Some(window) = self.windows.focused() else {
            return Action::Nothing;
        };
        match resize_target(window.size, direction, self.config.resize_step) {
            Some(size) => Action::RequestSize { window: window.handle, size },
            None => Action::Nothing,
        }
    }

    /// Snaps the focused window to `position` on the output.
    pub fn snap_focused(&mut self, position: SnapPosition) -> (action: Action)
        requires
            old(self).wf(),
        ensures
            final(self).wf(),
            (final(self)@, action@) == old(self)@.after_snap(position),
    {
        let output = match self.output_size {
            Some(size) => size,
            None => Size { w: DEFAULT_OUTPUT_WIDTH, h: DEFAULT_OUTPUT_HEIGHT },
        };
        let gap = self.config.outer_gap;
        let inner = self.config.inner_gap;
        let target = match self.windows.focused() {
            Some(window) => match snap_geometry(position, output, gap, inner, window.size) {
                Some(geometry) => Some((*window, geometry)),
                None => None,
            },
            None => None,
        };
        let Some((window, geometry)) = target else {
            return Action::Nothing;
        };
        let prior = match window.location {
            Some(loc) => Some(Rectangle { loc, size: window.size }),
            None => None,
        };
        self.windows.record_snap(prior, position);
        match self.windows.focused_mut() {
            Some(entry) => {
                entry.location = Some(geometry.loc);
                Action::Snap { window: entry.handle, geometry }
            },
            None => Action::Nothing,
        }
    }
}

} // verus!
