//! The window manager's own state: the registry, the input modes and the
//! command center, under one roof.

use vstd::prelude::*;
use crate::catalog::{by_name, parsed_all, stably_sorted, DescriptorFile};
use crate::command_center::{CommandCenter, CommandCenterSection, CommandCenterView};
use crate::config::Config;
use crate::geometry::Size;
use crate::input::InputState;
use crate::window::{RegistryView, WindowManager};

verus! {

/// Width of the output that is assumed as long as none is known.
pub const DEFAULT_OUTPUT_WIDTH: i32 = 1920;

/// Height of the output that is assumed as long as none is known.
pub const DEFAULT_OUTPUT_HEIGHT: i32 = 1080;

/// Main compositor state
pub struct VibeWM {
    pub config: Config,
    /// Size of the output's current mode
    pub output_size: Option<Size>,
    pub windows: WindowManager,
    pub input: InputState,
    /// Command center - the anti-suckless control panel
    pub command_center: CommandCenter,
}

/// The state as a mathematical value.
pub struct VibeWMView {
    pub config: Config,
    pub output_size: Option<Size>,
    pub windows: RegistryView,
    pub input: InputState,
    pub command_center: CommandCenterView,
}

impl View for VibeWM {
    type V = VibeWMView;

    open spec fn view(&self) -> VibeWMView {
        VibeWMView {
            config: self.config,
            output_size: self.output_size,
            windows: self.windows@,
            input: self.input,
            command_center: self.command_center@,
        }
    }
}

impl VibeWMView {
    /// The size of the output that arrangements go by.
    pub open spec fn output(self) -> Size {
        match self.output_size {
            Some(size) => size,
            None => Size { w: DEFAULT_OUTPUT_WIDTH, h: DEFAULT_OUTPUT_HEIGHT },
        }
    }
}

impl VibeWM {
    /// Validity of the state: that of the registry and of the command
    /// center.
    pub open spec fn wf(&self) -> bool {
        self.windows.wf() && self.command_center.wf()
    }

    /// A state without windows and without an output, with a closed
    /// command center over the applications that `files` describe.
    pub fn new(config: Config, files: &Vec<DescriptorFile>, now: u64) -> (state: Self)
        ensures
            state.wf(),
            stably_sorted(parsed_all(files@), state@.command_center.all_apps, by_name()),
            state@ == (VibeWMView {
                config,
                output_size: None,
                windows: RegistryView {
                    windows: Seq::empty(),
                    metadata: Seq::empty(),
                    focused: None,
                    next_id: 0,
                },
                input: InputState { resize_mode: false, quit_requested: false },
                command_center: CommandCenterView {
                    visible: false,
                    animation_ms: 0,
                    animation_start: None,
                    search_query: Seq::empty(),
                    filtered_apps: state@.command_center.all_apps,
                    all_apps: state@.command_center.all_apps,
                    selected_index: 0,
                    section: CommandCenterSection::Search,
                    glow_phase_ms: 0,
                    last_frame: now as int,
                },
            }),
    {
        VibeWM {
            config,
            output_size: None,
            windows: WindowManager::new(),
            input: InputState::new(),
            command_center: CommandCenter::new(files, now),
        }
    }

    /// The work of each turn of the event loop: windows that are gone
    /// leave the registry, and the command center's animations move on to
    /// the time `now`.
    pub fn handle_pending(&mut self, now: u64)
        requires
            old(self).wf(),
        ensures
            final(self).wf(),
            final(self)@ == (VibeWMView {
                windows: old(self)@.windows.cleaned(),
                command_center: old(self)@.command_center.updated(now as int),
                ..old(self)@
            }),
    {
        self.windows.cleanup_closed();
        self.command_center.update(now);
    }

    /// Opens the command center, or closes it.
    pub fn toggle_command_center(&mut self, now: u64)
        requires
            old(self).wf(),
        ensures
            final(self).wf(),
            final(self)@ == (VibeWMView {
                command_center: old(self)@.command_center.toggled(now as int),
                ..old(self)@
            }),
    {
        self.command_center.toggle(now);
    }

    /// Called each frame: whether the command center is to be drawn, which
    /// it is while it is visible and while it has not closed all the way.
    pub fn render_frame(&self) -> (draw: bool)
        ensures
            draw == (self@.command_center.visible || self@.command_center.animation_ms > 0),
    {
        self.command_center.visible() || self.command_center.animation_ms() > 0
    }
}

} // verus!
