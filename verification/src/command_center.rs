//! The command center: an overlay that searches the application catalog
//! and launches what is selected, with the timing of its animations.
//!
//! Time enters as a count of milliseconds from a start that the caller
//! chooses and keeps. Nothing here reads a clock.

use vstd::prelude::*;
use crate::catalog::{
    by_name, clone_entries, is_filtered, load_catalog, parsed_all, ranked_matches, stably_sorted,
    views, DescriptorFile,
};
use crate::desktop_entry::{AppEntry, AppEntryView};
use crate::text::{chars_of, pop_char, push_char, to_lowercase};

verus! {

/// How long the overlay takes to open or close, in milliseconds.
pub const ANIMATION_DURATION_MS: u64 = 200;

/// How long one pulse of the glow takes, in milliseconds.
pub const GLOW_CYCLE_MS: u64 = 2000;

/// The part of the overlay that takes the keys.
#[derive(Debug, Clone, Copy, PartialEq, Eq, Structural)]
pub enum CommandCenterSection {
    Search,
    Apps,
    Windows,
    System,
}

/// The command center as a mathematical value.
pub struct CommandCenterView {
    /// Is visible?
    pub visible: bool,
    /// How far the overlay is open, in milliseconds of the
    /// [`ANIMATION_DURATION_MS`] that opening takes: 0 is closed
    pub animation_ms: int,
    /// When the transition in flight started
    pub animation_start: Option<int>,
    /// Current search query
    pub search_query: Seq<char>,
    /// Filtered app list
    pub filtered_apps: Seq<AppEntryView>,
    /// All available apps
    pub all_apps: Seq<AppEntryView>,
    /// Selected index in the list
    pub selected_index: int,
    /// Current section focus
    pub section: CommandCenterSection,
    /// Where the glow is in its pulse, in milliseconds from the start of
    /// the pulse
    pub glow_phase_ms: int,
    /// Time of the last update
    pub last_frame: int,
}

/// `now - then`, or 0 where `then` is the later one.
pub open spec fn elapsed_since(then: int, now: int) -> int {
    if now >= then {
        now - then
    } else {
        0
    }
}

impl CommandCenterView {
    /// The selection is a place in the filtered list, or 0; progress and
    /// phase are in range; and the filtered list is what the query leaves
    /// of the catalog.
    pub open spec fn wf(self) -> bool {
        &&& 0 <= self.animation_ms <= ANIMATION_DURATION_MS
        &&& 0 <= self.glow_phase_ms < GLOW_CYCLE_MS
        &&& 0 <= self.last_frame
        &&& self.animation_start matches Some(start) ==> 0 <= start
        &&& self.selected_index == 0 || 0 <= self.selected_index < self.filtered_apps.len()
        &&& is_filtered(self.all_apps, self.search_query, self.filtered_apps)
    }

    /// The state after a toggle at the time `now`. Opening starts from an
    /// empty query, the whole catalog and the first entry.
    pub open spec fn toggled(self, now: int) -> CommandCenterView {
        if self.visible {
            CommandCenterView { visible: false, animation_start: Some(now), ..self }
        } else {
            CommandCenterView {
                visible: true,
                animation_start: Some(now),
                search_query: Seq::empty(),
                filtered_apps: self.all_apps,
                selected_index: 0,
                section: CommandCenterSection::Search,
                ..self
            }
        }
    }

    /// The state after an update at the time `now`. The glow moves on by
    /// the time since the last update. A transition in flight sets the
    /// progress by the time since it started, and ends once that time is
    /// more than the transition takes.
    pub open spec fn updated(self, now: int) -> CommandCenterView {
        let glow = (self.glow_phase_ms + elapsed_since(self.last_frame, now)) % (
        GLOW_CYCLE_MS as int);
        match self.animation_start {
            None => CommandCenterView { glow_phase_ms: glow, last_frame: now, ..self },
            Some(start) => {
                let elapsed = elapsed_since(start, now);
                let done = if elapsed < ANIMATION_DURATION_MS {
                    elapsed
                } else {
                    ANIMATION_DURATION_MS as int
                };
                CommandCenterView {
                    glow_phase_ms: glow,
                    last_frame: now,
                    animation_ms: if self.visible {
                        done
                    } else {
                        ANIMATION_DURATION_MS - done
                    },
                    animation_start: if elapsed > ANIMATION_DURATION_MS {
                        None
                    } else {
                        Some(start)
                    },
                    ..self
                }
            },
        }
    }

    /// The selection one entry up.
    pub open spec fn selected_prev(self) -> int {
        if self.selected_index > 0 {
            self.selected_index - 1
        } else {
            self.selected_index
        }
    }

    /// The selection one entry down.
    pub open spec fn selected_next(self) -> int {
        if self.selected_index + 1 < self.filtered_apps.len() {
            self.selected_index + 1
        } else {
            self.selected_index
        }
    }

    /// The query without its last character, where it has one.
    pub open spec fn without_last(self) -> Seq<char> {
        if self.search_query.len() > 0 {
            self.search_query.drop_last()
        } else {
            self.search_query
        }
    }

    /// The entry that is selected.
    pub open spec fn selected_entry(self) -> Option<AppEntryView> {
        if 0 <= self.selected_index < self.filtered_apps.len() {
            Some(self.filtered_apps[self.selected_index])
        } else {
            None
        }
    }

    /// Whether `after` is this state with the query `query` in force: the
    /// filtered list is what `query` leaves of the catalog, the first entry
    /// is selected, and nothing else has changed.
    pub open spec fn requeried(self, query: Seq<char>, after: CommandCenterView) -> bool {
        &&& after == (CommandCenterView {
            search_query: query,
            filtered_apps: after.filtered_apps,
            selected_index: 0,
            ..self
        })
        &&& is_filtered(self.all_apps, query, after.filtered_apps)
    }
}

/// The Command Center state
pub struct CommandCenter {
    visible: bool,
    animation_ms: u64,
    animation_start: Option<u64>,
    search_query: String,
    filtered_apps: Vec<AppEntry>,
    all_apps: Vec<AppEntry>,
    selected_index: usize,
    section: CommandCenterSection,
    glow_phase_ms: u64,
    last_frame: u64,
}

impl View for CommandCenter {
    type V = CommandCenterView;

    closed spec fn view(&self) -> CommandCenterView {
        CommandCenterView {
            visible: self.visible,
            animation_ms: self.animation_ms as int,
            animation_start: match self.animation_start {
                Some(start) => Some(start as int),
                None => None,
            },
            search_query: self.search_query@,
            filtered_apps: views(self.filtered_apps@),
            all_apps: views(self.all_apps@),
            selected_index: self.selected_index as int,
            section: self.section,
            glow_phase_ms: self.glow_phase_ms as int,
            last_frame: self.last_frame as int,
        }
    }
}

impl CommandCenter {
    /// Validity of a command center: that of its view.
    pub open spec fn wf(&self) -> bool {
        self@.wf()
    }

    /// A closed command center over the applications that `files` describe,
    /// made at the time `now`.
    pub fn new(files: &Vec<DescriptorFile>, now: u64) -> (center: Self)
        ensures
            center.wf(),
            stably_sorted(parsed_all(files@), center@.all_apps, by_name()),
            center@ == (CommandCenterView {
                visible: false,
                animation_ms: 0,
                animation_start: None,
                search_query: Seq::empty(),
                filtered_apps: center@.all_apps,
                all_apps: center@.all_apps,
                selected_index: 0,
                section: CommandCenterSection::Search,
                glow_phase_ms: 0,
                last_frame: now as int,
            }),
    {
        let mut center = CommandCenter {
            visible: false,
            animation_ms: 0,
            animation_start: None,
            search_query: String::new(),
            filtered_apps: Vec::new(),
            all_apps: Vec::new(),
            selected_index: 0,
            section: CommandCenterSection::Search,
            glow_phase_ms: 0,
            last_frame: now,
        };
        center.load_apps(files);
        center.filtered_apps = clone_entries(&center.all_apps);
        center
    }

    /// Toggle visibility with animation
    pub fn toggle(&mut self, now: u64)
        requires
            old(self).wf(),
        ensures
            final(self).wf(),
            final(self)@ == old(self)@.toggled(now as int),
    {
        self.visible = !self.visible;
        self.animation_start = Some(now);
        if self.visible {
            self.search_query = String::new();
            self.filtered_apps = clone_entries(&self.all_apps);
            self.selected_index = 0;
            self.section = CommandCenterSection::Search;
        }
    }

    /// Update animations - call every frame
    pub fn update(&mut self, now: u64)
        requires
            old(self).wf(),
        ensures
            final(self).wf(),
            final(self)@ == old(self)@.updated(now as int),
    {
        let dt: u64 = if now >= self.last_frame {
            now - self.last_frame
        } else {
            0
        };
        self.last_frame = now;
        proof {
            vstd::arithmetic::div_mod::lemma_add_mod_noop(
                self.glow_phase_ms as int,
                dt as int,
                GLOW_CYCLE_MS as int,
            );
            vstd::arithmetic::div_mod::lemma_small_mod(
                self.glow_phase_ms as nat,
                GLOW_CYCLE_MS as nat,
            );
        }
        self.glow_phase_ms = (self.glow_phase_ms + dt % GLOW_CYCLE_MS) % GLOW_CYCLE_MS;
        if let Some(start) = self.animation_start {
            let elapsed: u64 = if now >= start {
                now - start
            } else {
                0
            };
            let done: u64 = if elapsed < ANIMATION_DURATION_MS {
                elapsed
            } else {
                ANIMATION_DURATION_MS
            };
            if self.visible {
                self.animation_ms = done;
            } else {
                self.animation_ms = ANIMATION_DURATION_MS - done;
            }
            if elapsed > ANIMATION_DURATION_MS {
                self.animation_start = None;
            }
        }
    }

    /// Handle text input for search: `c` goes to the end of the query, and
    /// the catalog is filtered anew.
    pub fn handle_char(&mut self, c: char)
        requires
            old(self).wf(),
        ensures
            final(self).wf(),
            if old(self)@.section == CommandCenterSection::Search {
                old(self)@.requeried(old(self)@.search_query.push(c), final(self)@)
            } else {
                final(self)@ == old(self)@
            },
    {
        if self.section == CommandCenterSection::Search {
            push_char(&mut self.search_query, c);
            self.update_filter();
        }
    }

    /// Handle backspace: the last character of the query goes, where it has
    /// one, and the catalog is filtered anew.
    pub fn handle_backspace(&mut self)
        requires
            old(self).wf(),
        ensures
            final(self).wf(),
            if old(self)@.section == CommandCenterSection::Search {
                old(self)@.requeried(old(self)@.without_last(), final(self)@)
            } else {
                final(self)@ == old(self)@
            },
    {
        if self.section == CommandCenterSection::Search {
            let _ = pop_char(&mut self.search_query);
            self.update_filter();
        }
    }

    /// Move selection up
    pub fn select_prev(&mut self)
        requires
            old(self).wf(),
        ensures
            final(self).wf(),
            final(self)@ == (CommandCenterView {
                selected_index: old(self)@.selected_prev(),
                ..old(self)@
            }),
    {
        if self.selected_index > 0 {
            self.selected_index = self.selected_index - 1;
        }
    }

    /// Move selection down
    pub fn select_next(&mut self)
        requires
            old(self).wf(),
        ensures
            final(self).wf(),
            final(self)@ == (CommandCenterView {
                selected_index: old(self)@.selected_next(),
                ..old(self)@
            }),
    {
        if self.filtered_apps.len() > 0 && self.selected_index < self.filtered_apps.len() - 1 {
            self.selected_index = self.selected_index + 1;
        }
    }

    /// Launch selected app: gives its command and toggles the overlay.
    /// Without a selected entry nothing happens.
    pub fn launch_selected(&mut self, now: u64) -> (command: Option<String>)
        requires
            old(self).wf(),
        ensures
            final(self).wf(),
            match old(self)@.selected_entry() {
                Some(entry) => {
                    &&& command matches Some(c) && c@ == entry.command
                    &&& final(self)@ == old(self)@.toggled(now as int)
                },
                None => command is None && final(self)@ == old(self)@,
            },
    {
        if self.selected_index < self.filtered_apps.len() {
            let command = self.filtered_apps[self.selected_index].command.clone();
            self.toggle(now);
            Some(command)
        } else {
            None
        }
    }

    /// Is visible?
    pub fn visible(&self) -> (visible: bool)
        ensures
            visible == self@.visible,
    {
        self.visible
    }

    /// How far the overlay is open, from 0 for closed to
    /// [`ANIMATION_DURATION_MS`] for open.
    pub fn animation_ms(&self) -> (progress: u64)
        ensures
            progress == self@.animation_ms,
    {
        self.animation_ms
    }

    /// When the transition in flight started.
    pub fn animation_start(&self) -> (start: Option<u64>)
        ensures
            match start {
                Some(s) => self@.animation_start == Some(s as int),
                None => self@.animation_start is None,
            },
    {
        self.animation_start
    }

    /// Current search query
    pub fn search_query(&self) -> (query: &str)
        ensures
            query@ == self@.search_query,
    {
        self.search_query.as_str()
    }

    /// Filtered app list
    pub fn filtered_apps(&self) -> (apps: &Vec<AppEntry>)
        ensures
            views(apps@) == self@.filtered_apps,
    {
        &self.filtered_apps
    }

    /// All available apps
    pub fn all_apps(&self) -> (apps: &Vec<AppEntry>)
        ensures
            views(apps@) == self@.all_apps,
    {
        &self.all_apps
    }

    /// Selected index in the list
    pub fn selected_index(&self) -> (index: usize)
        ensures
            index == self@.selected_index,
    {
        self.selected_index
    }

    /// Current section focus
    pub fn section(&self) -> (section: CommandCenterSection)
        ensures
            section == self@.section,
    {
        self.section
    }

    /// Where the glow is in its pulse, from 0 to [`GLOW_CYCLE_MS`].
    pub fn glow_phase_ms(&self) -> (phase: u64)
        ensures
            phase == self@.glow_phase_ms,
    {
        self.glow_phase_ms
    }

    /// Time of the last update
    pub fn last_frame(&self) -> (time: u64)
        ensures
            time == self@.last_frame,
    {
        self.last_frame
    }

    /// Update filtered apps based on search query
    fn update_filter(&mut self)
        requires
            0 <= old(self)@.animation_ms <= ANIMATION_DURATION_MS,
            0 <= old(self)@.glow_phase_ms < GLOW_CYCLE_MS,
        ensures
            final(self).wf(),
            old(self)@.requeried(old(self)@.search_query, final(self)@),
    {
        if self.search_query.as_str().is_empty() {
            self.filtered_apps = clone_entries(&self.all_apps);
        } else {
            let folded = to_lowercase(self.search_query.as_str());
            let query = chars_of(folded.as_str());
            self.filtered_apps = ranked_matches(&self.all_apps, &query);
        }
        self.selected_index = 0;
    }

    /// Load apps from the descriptors `files` into an empty catalog, in the
    /// order of their names.
    fn load_apps(&mut self, files: &Vec<DescriptorFile>)
        requires
            old(self).all_apps@.len() == 0,
        ensures
            stably_sorted(parsed_all(files@), views(final(self).all_apps@), by_name()),
            final(self)@ == (CommandCenterView {
                all_apps: views(final(self).all_apps@),
                ..old(self)@
            }),
    {
        self.all_apps = load_catalog(files);
    }
}

/// `value / 10` rounded towards zero.
pub open spec fn tenth(value: int) -> int {
    if value >= 0 {
        value / 10
    } else {
        -((-value) / 10)
    }
}

/// `tenths` tenths of `length`, rounded towards zero, and `cap` at most.
pub open spec fn capped_share(length: int, tenths: int, cap: int) -> int {
    let share = tenth(length * tenths);
    if share < cap {
        share
    } else {
        cap
    }
}

/// Space between the container's edge and what it holds.
pub const LAYOUT_PADDING: i32 = 24;

/// Height of the search bar.
pub const SEARCH_HEIGHT: i32 = 56;

/// Height of the system info bar.
pub const SYSTEM_HEIGHT: i32 = 48;

/// Layout calculations for rendering
#[derive(Debug, Clone, Copy, PartialEq, Eq, Structural)]
pub struct CommandCenterLayout {
    pub total_width: i32,
    pub total_height: i32,
    // Main container (centered)
    pub container_x: i32,
    pub container_y: i32,
    pub container_width: i32,
    pub container_height: i32,
    // Search bar
    pub search_x: i32,
    pub search_y: i32,
    pub search_width: i32,
    pub search_height: i32,
    // App grid
    pub apps_x: i32,
    pub apps_y: i32,
    pub apps_width: i32,
    pub apps_height: i32,
    pub app_card_width: i32,
    pub app_card_height: i32,
    pub app_columns: i32,
    // System info bar
    pub system_x: i32,
    pub system_y: i32,
    pub system_width: i32,
    pub system_height: i32,
}

impl CommandCenterLayout {
    /// The layout on a screen of `screen_width` by `screen_height`: a
    /// container in the middle, six tenths of the screen wide but 800 at
    /// most and seven tenths high but 600 at most, with the search bar at
    /// its top, the system bar at its bottom and the app grid between.
    pub open spec fn of(screen_width: int, screen_height: int) -> (
        int,
        int,
        int,
        int,
    ) {
        let width = capped_share(screen_width, 6, 800);
        let height = capped_share(screen_height, 7, 600);
        (
            crate::geometry::half(screen_width - width),
            crate::geometry::half(screen_height - height),
            width,
            height,
        )
    }

    pub fn calculate(screen_width: i32, screen_height: i32) -> (layout: Self)
        ensures
            (
                layout.container_x as int,
                layout.container_y as int,
                layout.container_width as int,
                layout.container_height as int,
            ) == Self::of(screen_width as int, screen_height as int),
            layout == (CommandCenterLayout {
                total_width: screen_width,
                total_height: screen_height,
                container_x: layout.container_x,
                container_y: layout.container_y,
                container_width: layout.container_width,
                container_height: layout.container_height,
                search_x: (layout.container_x + LAYOUT_PADDING) as i32,
                search_y: (layout.container_y + LAYOUT_PADDING) as i32,
                search_width: (layout.container_width - 2 * LAYOUT_PADDING) as i32,
                search_height: SEARCH_HEIGHT,
                apps_x: (layout.container_x + LAYOUT_PADDING) as i32,
                apps_y: (layout.container_y + LAYOUT_PADDING + SEARCH_HEIGHT + 16) as i32,
                apps_width: (layout.container_width - 2 * LAYOUT_PADDING) as i32,
                apps_height: (layout.container_height - 2 * LAYOUT_PADDING - SEARCH_HEIGHT
                    - SYSTEM_HEIGHT - 32) as i32,
                app_card_width: 180,
                app_card_height: 64,
                app_columns: 3,
                system_x: (layout.container_x + LAYOUT_PADDING) as i32,
                system_y: (layout.container_y + layout.container_height - LAYOUT_PADDING
                    - SYSTEM_HEIGHT) as i32,
                system_width: (layout.container_width - 2 * LAYOUT_PADDING) as i32,
                system_height: SYSTEM_HEIGHT,
            }),
    {
        let wide: i64 = (screen_width as i64 * 6) / 10;
        let high: i64 = (screen_height as i64 * 7) / 10;
        let container_width: i32 = if wide < 800 {
            wide as i32
        } else {
            800
        };
        let container_height: i32 = if high < 600 {
            high as i32
        } else {
            600
        };
        let container_x = (screen_width - container_width) / 2;
        let container_y = (screen_height - container_height) / 2;
        let padding = LAYOUT_PADDING;
        CommandCenterLayout {
            total_width: screen_width,
            total_height: screen_height,
            container_x,
            container_y,
            container_width,
            container_height,
            search_x: container_x + padding,
            search_y: container_y + padding,
            search_width: container_width - padding * 2,
            search_height: SEARCH_HEIGHT,
            apps_x: container_x + padding,
            apps_y: container_y + padding + SEARCH_HEIGHT + 16,
            apps_width: container_width - padding * 2,
            apps_height: container_height - padding * 2 - SEARCH_HEIGHT - SYSTEM_HEIGHT - 32,
            app_card_width: 180,
            app_card_height: 64,
            app_columns: 3,
            system_x: container_x + padding,
            system_y: container_y + container_height - padding - SYSTEM_HEIGHT,
            system_width: container_width - padding * 2,
            system_height: SYSTEM_HEIGHT,
        }
    }
}

/// The character of the digit `d`.
pub open spec fn digit_char(d: int) -> char {
    (48 + d) as u8 as char
}

/// The time of day `seconds` after midnight of some day, as hours and
/// minutes of two digits each with a colon between.
pub open spec fn clock_text(seconds: int) -> Seq<char> {
    let hours = (seconds % 86400) / 3600;
    let minutes = (seconds % 3600) / 60;
    seq![
        digit_char(hours / 10),
        digit_char(hours % 10),
        ':',
        digit_char(minutes / 10),
        digit_char(minutes % 10),
    ]
}

fn digit_of(d: u64) -> (c: char)
    requires
        d < 10,
    ensures
        c == digit_char(d as int),
{
    (48u8 + d as u8) as char
}

impl CommandCenter {
    /// Get formatted time string, for the time `now_secs` in seconds since
    /// the Unix epoch.
    pub fn get_time_string(&self, now_secs: u64) -> (text: String)
        ensures
            text@ == clock_text(now_secs as int),
    {
        let hours = (now_secs % 86400) / 3600;
        let minutes = (now_secs % 3600) / 60;
        let mut text = String::new();
        push_char(&mut text, digit_of(hours / 10));
        push_char(&mut text, digit_of(hours % 10));
        push_char(&mut text, ':');
        push_char(&mut text, digit_of(minutes / 10));
        push_char(&mut text, digit_of(minutes % 10));
        text
    }
}

} // verus!
