//! The modal interaction state machine.
//!
//! A fixed set of UI modes — device list, log view, add-device form,
//! settings form — with per-mode key handling. Every controller call's error
//! is absorbed into an ordered log and never propagates: the loop around the
//! state machine must not crash on a device failure. The loop itself (key
//! reading, drawing, the UDP probe, persistence) lives outside the library;
//! it feeds `step` one key at a time and performs what the returned outcome
//! asks for.

use vstd::prelude::*;
use vstd::string::*;

use crate::api::{
    any_selected, concat_reports, fleet_extended, fleet_refreshed, fleet_reported, fleet_updated,
    spec_contains_ip, spec_decode_status, spec_first_selected_index, spec_message, status_message,
    toggle_op, with_enabled, with_selected, ApiError, DeviceView, Devices, FleetOpSpec,
};
use crate::text::{pop_char, push_char, texts_view};

verus! {

/// Which widget currently has the focus.
#[derive(PartialEq, Eq, Structural, Debug)]
pub enum CurrentWidget {
    Devices,
    Logs,
    AddDevice,
    DeviceSettings,
}

/// The active field of the add-device form.
#[derive(PartialEq, Eq, Structural, Debug)]
pub enum CurrentlyAdding {
    IP,
    Name,
}

/// The active field of the settings form.
#[derive(PartialEq, Eq, Structural, Debug)]
pub enum CurrentlySetting {
    Color,
    Brightness,
}

/// A key event, as the state machine sees it.
#[derive(Clone, Copy, PartialEq, Eq, Structural, Debug)]
pub enum Key {
    Esc,
    Enter,
    Tab,
    Backspace,
    Up,
    Down,
    Left,
    Right,
    Char(char),
    Other,
}

/// What the surrounding loop must do after a step.
#[derive(PartialEq, Eq, Structural, Debug)]
pub enum StepOutcome {
    /// Keep going: read the next key.
    Continue,
    /// Run the UDP probe and hand its result to `discover`.
    Discover,
    /// Compare the entered and cached brightness texts as floats and hand
    /// the verdict to `set_color_and_brightness`.
    ConfirmSettings,
    /// Persist the device list and leave the loop.
    Quit,
}

/// The texts of a log, in order.
pub open spec fn logs_view(logs: Seq<String>) -> Seq<Seq<char>> {
    texts_view(logs)
}

/// A device error of the allowed kinds was appended to the log as exactly
/// its display text — what absorbing a controller failure means.
pub open spec fn device_error_logged(
    pre: Seq<Seq<char>>,
    post: Seq<Seq<char>>,
    decode_possible: bool,
) -> bool {
    exists|e: ApiError|
        {
            &&& (e is Transport || e is Status || (decode_possible && e is Decode))
            &&& post == pre.push(#[trigger] spec_message(e))
        }
}

/// The whole interactive state: the fleet, the log, and the modal UI state.
pub struct App {
    pub devices: Devices,
    pub logs: Vec<String>,
    pub current_device_index: usize,
    pub current_widget: CurrentWidget,
    pub currently_adding: Option<CurrentlyAdding>,
    pub currently_setting: Option<CurrentlySetting>,
    pub log_horizontal_offset: u16,
    pub color_input: String,
    pub brightness_input: String,
    pub ip_input: String,
    pub name_input: String,
}

impl App {
    /// The index invariant: the current index stays inside the device list,
    /// and reads zero while the list is empty.
    pub open spec fn wf(self) -> bool {
        &&& (self.devices@.len() == 0 ==> self.current_device_index == 0)
        &&& (self.devices@.len() > 0 ==> (self.current_device_index as int)
            < self.devices@.len())
    }

    /// A fresh session over a loaded fleet: device list focused, everything
    /// else empty.
    pub fn new(config: Devices) -> (r: App)
        ensures
            r.wf(),
            r.devices@ == config@,
            r.logs@.len() == 0,
            r.current_device_index == 0,
            r.current_widget is Devices,
            r.currently_adding is None,
            r.currently_setting is None,
            r.log_horizontal_offset == 0,
            r.color_input@.len() == 0,
            r.brightness_input@.len() == 0,
            r.ip_input@.len() == 0,
            r.name_input@.len() == 0,
    {
        App {
            devices: config,
            logs: Vec::new(),
            current_device_index: 0,
            current_widget: CurrentWidget::Devices,
            currently_adding: None,
            currently_setting: None,
            log_horizontal_offset: 0,
            color_input: String::new(),
            brightness_input: String::new(),
            ip_input: String::new(),
            name_input: String::new(),
        }
    }

    /// Moves the add-device form to its other field, or to the IP field when
    /// none was active.
    pub fn toggle_adding_field(&mut self)
        ensures
            *final(self) == (App {
                currently_adding: match old(self).currently_adding {
                    Some(CurrentlyAdding::IP) => Some(CurrentlyAdding::Name),
                    Some(CurrentlyAdding::Name) => Some(CurrentlyAdding::IP),
                    None => Some(CurrentlyAdding::IP),
                },
                ..*old(self)
            }),
    {
        if let Some(edit_mode) = &self.currently_adding {
            match edit_mode {
                CurrentlyAdding::IP => self.currently_adding = Some(CurrentlyAdding::Name),
                CurrentlyAdding::Name => self.currently_adding = Some(CurrentlyAdding::IP),
            };
        } else {
            self.currently_adding = Some(CurrentlyAdding::IP);
        }
    }

    /// Moves the settings form to its other field, or to the color field
    /// when none was active.
    pub fn toggle_settings_field(&mut self)
        ensures
            *final(self) == (App {
                currently_setting: match old(self).currently_setting {
                    Some(CurrentlySetting::Color) => Some(CurrentlySetting::Brightness),
                    Some(CurrentlySetting::Brightness) => Some(CurrentlySetting::Color),
                    None => Some(CurrentlySetting::Color),
                },
                ..*old(self)
            }),
    {
        if let Some(edit_mode) = &self.currently_setting {
            match edit_mode {
                CurrentlySetting::Color => {
                    self.currently_setting = Some(CurrentlySetting::Brightness);
                },
                CurrentlySetting::Brightness => {
                    self.currently_setting = Some(CurrentlySetting::Color);
                },
            };
        } else {
            self.currently_setting = Some(CurrentlySetting::Color);
        }
    }

    /// Opens the settings form when some device is selected, seeding both
    /// inputs from the first selected device's cached state; does nothing
    /// otherwise.
    pub fn open_settings(&mut self)
        ensures
            open_settings_rel(*old(self), *final(self)),
    {
        match self.devices.first_selected_index() {
            Some(i) => {
                let first = self.devices.get(i);
                self.color_input = first.bulb.color.clone();
                self.brightness_input = first.bulb.brightness.clone();
                self.current_widget = CurrentWidget::DeviceSettings;
                self.currently_setting = Some(CurrentlySetting::Color);
            },
            None => {},
        }
    }

    /// Scrolls the log view a notch back towards its left edge.
    pub fn scroll_logs_left(&mut self)
        ensures
            *final(self) == (App {
                log_horizontal_offset: if old(self).log_horizontal_offset >= 4 {
                    (old(self).log_horizontal_offset - 4) as u16
                } else {
                    0u16
                },
                ..*old(self)
            }),
    {
        if self.log_horizontal_offset >= 4 {
            self.log_horizontal_offset = self.log_horizontal_offset - 4;
        } else {
            self.log_horizontal_offset = 0;
        }
    }

    /// Scrolls the log view a notch to the right.
    pub fn scroll_logs_right(&mut self)
        ensures
            *final(self) == (App {
                log_horizontal_offset: if old(self).log_horizontal_offset <= u16::MAX - 4 {
                    (old(self).log_horizontal_offset + 4) as u16
                } else {
                    u16::MAX
                },
                ..*old(self)
            }),
    {
        if self.log_horizontal_offset <= u16::MAX - 4 {
            self.log_horizontal_offset = self.log_horizontal_offset + 4;
        } else {
            self.log_horizontal_offset = u16::MAX;
        }
    }

    /// Moves the current index one device up, stopping at the first.
    pub fn prev_device(&mut self)
        ensures
            *final(self) == (App {
                current_device_index: if old(self).current_device_index > 0 {
                    (old(self).current_device_index - 1) as usize
                } else {
                    0usize
                },
                ..*old(self)
            }),
            old(self).wf() ==> final(self).wf(),
    {
        if self.current_device_index > 0 {
            self.current_device_index = self.current_device_index - 1;
        }
    }

    /// Moves the current index one device down, stopping at the last.
    pub fn next_device(&mut self)
        ensures
            *final(self) == (App {
                current_device_index: if old(self).devices@.len() > 0 && (
                old(self).current_device_index as int) < old(self).devices@.len() - 1 {
                    (old(self).current_device_index + 1) as usize
                } else {
                    old(self).current_device_index
                },
                ..*old(self)
            }),
            old(self).wf() ==> final(self).wf(),
    {
        let len = self.devices.len();
        if len > 0 && self.current_device_index < len - 1 {
            self.current_device_index = self.current_device_index + 1;
        }
    }

    /// Flips the selection flag of the current device, when there is one.
    pub fn select_device(&mut self)
        requires
            old(self).wf(),
        ensures
            final(self).wf(),
            select_rel(*old(self), *final(self)),
    {
        let len = self.devices.len();
        if len > 0 {
            self.devices.flip_selected(self.current_device_index);
        }
    }

    /// Removes the current device and clamps the index: one step back when
    /// it was not at the front, never negative, never out of bounds.
    pub fn remove_device(&mut self)
        requires
            old(self).wf(),
        ensures
            final(self).wf(),
            remove_rel(*old(self), *final(self)),
    {
        let len = self.devices.len();
        if len > 0 {
            self.devices.remove_at(self.current_device_index);
            self.prev_device();
        }
    }
}

/// Opening the settings form: when some device is selected, the form opens
/// on the color field with both inputs seeded from the first selected
/// device's cached state; with nothing selected, nothing happens.
pub open spec fn open_settings_rel(pre: App, post: App) -> bool {
    match spec_first_selected_index(pre.devices@) {
        Some(i) => {
            &&& post.color_input@ == pre.devices@[i].bulb.color
            &&& post.brightness_input@ == pre.devices@[i].bulb.brightness
            &&& post.current_widget is DeviceSettings
            &&& post.currently_setting == Some(CurrentlySetting::Color)
            &&& post.devices == pre.devices
            &&& post.logs == pre.logs
            &&& post.current_device_index == pre.current_device_index
            &&& post.currently_adding == pre.currently_adding
            &&& post.log_horizontal_offset == pre.log_horizontal_offset
            &&& post.ip_input == pre.ip_input
            &&& post.name_input == pre.name_input
        },
        None => post == pre,
    }
}

/// Flipping the current device's selection flag, when there is one.
pub open spec fn select_rel(pre: App, post: App) -> bool {
    if pre.devices@.len() > 0 {
        &&& post.devices@ == pre.devices@.update(
            pre.current_device_index as int,
            with_selected(
                pre.devices@[pre.current_device_index as int],
                !pre.devices@[pre.current_device_index as int].selected,
            ),
        )
        &&& same_but_devices(pre, post)
    } else {
        post == pre
    }
}

/// Removing the current device and clamping the index one step back.
pub open spec fn remove_rel(pre: App, post: App) -> bool {
    if pre.devices@.len() > 0 {
        &&& post.devices@ == pre.devices@.remove(pre.current_device_index as int)
        &&& post.current_device_index == if pre.current_device_index > 0 {
            (pre.current_device_index - 1) as usize
        } else {
            0usize
        }
        &&& post.logs == pre.logs
        &&& post.current_widget == pre.current_widget
        &&& post.currently_adding == pre.currently_adding
        &&& post.currently_setting == pre.currently_setting
        &&& post.log_horizontal_offset == pre.log_horizontal_offset
        &&& post.color_input == pre.color_input
        &&& post.brightness_input == pre.brightness_input
        &&& post.ip_input == pre.ip_input
        &&& post.name_input == pre.name_input
    } else {
        post == pre
    }
}

/// Everything of the state but the fleet is kept.
pub open spec fn same_but_devices(pre: App, post: App) -> bool {
    &&& post.logs == pre.logs
    &&& post.current_device_index == pre.current_device_index
    &&& post.current_widget == pre.current_widget
    &&& post.currently_adding == pre.currently_adding
    &&& post.currently_setting == pre.currently_setting
    &&& post.log_horizontal_offset == pre.log_horizontal_offset
    &&& post.color_input == pre.color_input
    &&& post.brightness_input == pre.brightness_input
    &&& post.ip_input == pre.ip_input
    &&& post.name_input == pre.name_input
}

/// Everything of the state but the fleet and the log is kept.
pub open spec fn same_but_devices_and_logs(pre: App, post: App) -> bool {
    &&& post.current_device_index == pre.current_device_index
    &&& post.current_widget == pre.current_widget
    &&& post.currently_adding == pre.currently_adding
    &&& post.currently_setting == pre.currently_setting
    &&& post.log_horizontal_offset == pre.log_horizontal_offset
    &&& post.color_input == pre.color_input
    &&& post.brightness_input == pre.brightness_input
    &&& post.ip_input == pre.ip_input
    &&& post.name_input == pre.name_input
}

/// Everything of the state but the text inputs is kept.
pub open spec fn same_but_inputs(pre: App, post: App) -> bool {
    &&& post.devices == pre.devices
    &&& post.logs == pre.logs
    &&& post.current_device_index == pre.current_device_index
    &&& post.current_widget == pre.current_widget
    &&& post.currently_adding == pre.currently_adding
    &&& post.currently_setting == pre.currently_setting
    &&& post.log_horizontal_offset == pre.log_horizontal_offset
}

proof fn lemma_logs_push(pre: Seq<String>, m: String)
    ensures
        logs_view(pre.push(m)) == logs_view(pre).push(m@),
{
    assert(logs_view(pre.push(m)) =~= logs_view(pre).push(m@));
}

impl App {
    /// In the add form, a typed character lands in the active field.
    pub fn add_input_char(&mut self, c: char)
        ensures
            add_char_rel(*old(self), *final(self), c),
    {
        match &self.currently_adding {
            Some(CurrentlyAdding::IP) => push_char(&mut self.ip_input, c),
            Some(CurrentlyAdding::Name) => push_char(&mut self.name_input, c),
            None => {},
        }
    }

    /// In the add form, backspace drops the last character of the active
    /// field.
    pub fn add_input_backspace(&mut self)
        ensures
            add_backspace_rel(*old(self), *final(self)),
    {
        match &self.currently_adding {
            Some(CurrentlyAdding::IP) => {
                pop_char(&mut self.ip_input);
            },
            Some(CurrentlyAdding::Name) => {
                pop_char(&mut self.name_input);
            },
            None => {},
        }
    }

    /// In the settings form, a typed character lands in the active field;
    /// the color field is capped at the seven characters of `#RRGGBB`.
    pub fn settings_input_char(&mut self, c: char)
        ensures
            settings_char_rel(*old(self), *final(self), c),
    {
        match &self.currently_setting {
            Some(CurrentlySetting::Color) => {
                if self.color_input.unicode_len() < 7 {
                    push_char(&mut self.color_input, c);
                }
            },
            Some(CurrentlySetting::Brightness) => push_char(&mut self.brightness_input, c),
            None => {},
        }
    }

    /// In the settings form, backspace drops the last character of the
    /// active field; the color field never loses its leading `#`.
    pub fn settings_input_backspace(&mut self)
        ensures
            settings_backspace_rel(*old(self), *final(self)),
    {
        match &self.currently_setting {
            Some(CurrentlySetting::Color) => {
                if self.color_input.unicode_len() > 1 {
                    pop_char(&mut self.color_input);
                }
            },
            Some(CurrentlySetting::Brightness) => {
                pop_char(&mut self.brightness_input);
            },
            None => {},
        }
    }
}

/// `s` without its last character, when it has one.
pub open spec fn dropped_last(s: Seq<char>) -> Seq<char> {
    if s.len() > 0 {
        s.drop_last()
    } else {
        s
    }
}

/// A typed character appended to the add form's active field.
pub open spec fn add_char_rel(pre: App, post: App, c: char) -> bool {
    &&& same_but_inputs(pre, post)
    &&& post.color_input == pre.color_input
    &&& post.brightness_input == pre.brightness_input
    &&& match pre.currently_adding {
        Some(CurrentlyAdding::IP) => post.ip_input@ == pre.ip_input@.push(c) && post.name_input
            == pre.name_input,
        Some(CurrentlyAdding::Name) => post.name_input@ == pre.name_input@.push(c)
            && post.ip_input == pre.ip_input,
        None => post == pre,
    }
}

/// Backspace on the add form's active field.
pub open spec fn add_backspace_rel(pre: App, post: App) -> bool {
    &&& same_but_inputs(pre, post)
    &&& post.color_input == pre.color_input
    &&& post.brightness_input == pre.brightness_input
    &&& match pre.currently_adding {
        Some(CurrentlyAdding::IP) => post.ip_input@ == dropped_last(pre.ip_input@)
            && post.name_input == pre.name_input,
        Some(CurrentlyAdding::Name) => post.name_input@ == dropped_last(pre.name_input@)
            && post.ip_input == pre.ip_input,
        None => post == pre,
    }
}

/// A typed character appended to the settings form's active field; the
/// color field is capped at the seven characters of `#RRGGBB`.
pub open spec fn settings_char_rel(pre: App, post: App, c: char) -> bool {
    &&& same_but_inputs(pre, post)
    &&& post.ip_input == pre.ip_input
    &&& post.name_input == pre.name_input
    &&& match pre.currently_setting {
        Some(CurrentlySetting::Color) => post.brightness_input == pre.brightness_input
            && post.color_input@ == if pre.color_input@.len() < 7 {
            pre.color_input@.push(c)
        } else {
            pre.color_input@
        },
        Some(CurrentlySetting::Brightness) => post.brightness_input@ == pre.brightness_input@.push(
            c,
        ) && post.color_input == pre.color_input,
        None => post == pre,
    }
}

/// Backspace on the settings form's active field; the color field never
/// loses its leading `#`.
pub open spec fn settings_backspace_rel(pre: App, post: App) -> bool {
    &&& same_but_inputs(pre, post)
    &&& post.ip_input == pre.ip_input
    &&& post.name_input == pre.name_input
    &&& match pre.currently_setting {
        Some(CurrentlySetting::Color) => post.brightness_input == pre.brightness_input
            && post.color_input@ == if pre.color_input@.len() > 1 {
            pre.color_input@.drop_last()
        } else {
            pre.color_input@
        },
        Some(CurrentlySetting::Brightness) => post.brightness_input@ == dropped_last(
            pre.brightness_input@,
        ) && post.color_input == pre.color_input,
        None => post == pre,
    }
}

/// What a status refresh may do to the session: nothing on an empty fleet;
/// else either every selected device was refreshed and the concatenated
/// report logged (nothing logged when nothing was selected), or the refresh
/// stopped at some failing selected device and that error was logged.
pub open spec fn refreshed_rel(pre: App, post: App) -> bool {
    &&& same_but_devices_and_logs(pre, post)
    &&& if pre.devices@.len() == 0 {
        post == pre
    } else {
        ||| exists|bodies: Seq<Seq<char>>|
            {
                &&& #[trigger] fleet_reported(
                    pre.devices@,
                    post.devices@,
                    bodies,
                    pre.devices@.len() as int,
                )
                &&& if any_selected(pre.devices@) {
                    logs_view(post.logs@) == logs_view(pre.logs@).push(
                        concat_reports(pre.devices@, bodies, pre.devices@.len() as int),
                    )
                } else {
                    post.logs == pre.logs
                }
            }
        ||| {
            &&& exists|k: int|
                0 <= k < pre.devices@.len() && pre.devices@[k].selected && #[trigger]
                fleet_refreshed(pre.devices@, post.devices@, k)
            &&& device_error_logged(logs_view(pre.logs@), logs_view(post.logs@), true)
        }
    }
}

/// What a fleet-wide toggle may do to the session: either every selected
/// device moved in lock-step away from the first selected device's cached
/// state with nothing logged, or the batch stopped at some failing selected
/// device and that error was logged.
pub open spec fn toggle_selected_rel(pre: App, post: App) -> bool {
    &&& same_but_devices_and_logs(pre, post)
    &&& {
        ||| {
            &&& fleet_updated(
                pre.devices@,
                post.devices@,
                pre.devices@.len() as int,
                toggle_op(pre.devices@),
            )
            &&& post.logs == pre.logs
        }
        ||| {
            &&& exists|k: int|
                0 <= k < pre.devices@.len() && pre.devices@[k].selected && #[trigger]
                fleet_updated(pre.devices@, post.devices@, k, toggle_op(pre.devices@))
            &&& device_error_logged(logs_view(pre.logs@), logs_view(post.logs@), false)
        }
    }
}

/// What toggling the current device may do to the session: nothing on an
/// empty fleet; else the current device flipped with nothing logged, or
/// stayed and the error was logged.
pub open spec fn toggle_current_rel(pre: App, post: App) -> bool {
    &&& same_but_devices_and_logs(pre, post)
    &&& if pre.devices@.len() == 0 {
        post == pre
    } else {
        ||| {
            &&& post.devices@ == pre.devices@.update(
                pre.current_device_index as int,
                with_enabled(
                    pre.devices@[pre.current_device_index as int],
                    if pre.devices@[pre.current_device_index as int].bulb.enabled == 1 {
                        0u8
                    } else {
                        1u8
                    },
                ),
            )
            &&& post.logs == pre.logs
        }
        ||| {
            &&& post.devices@ == pre.devices@
            &&& device_error_logged(logs_view(pre.logs@), logs_view(post.logs@), false)
        }
    }
}

/// What confirming the add form may do to the session. A duplicate or empty
/// address only logs a message and keeps the form; otherwise the device was
/// either reached, seeded from a decoded status, appended and reported,
/// with the buffers cleared and the list focused again — or the attempt
/// failed, the error was logged and the form stayed as it was.
pub open spec fn add_device_rel(pre: App, post: App) -> bool {
    &&& post.current_device_index == pre.current_device_index
    &&& post.currently_setting == pre.currently_setting
    &&& post.log_horizontal_offset == pre.log_horizontal_offset
    &&& post.color_input == pre.color_input
    &&& post.brightness_input == pre.brightness_input
    &&& if spec_contains_ip(pre.devices@, pre.ip_input@) {
        &&& post.devices == pre.devices
        &&& logs_view(post.logs@) == logs_view(pre.logs@).push(
            "Device \""@ + pre.ip_input@ + "\" already added"@,
        )
        &&& post.current_widget == pre.current_widget
        &&& post.currently_adding == pre.currently_adding
        &&& post.ip_input == pre.ip_input
        &&& post.name_input == pre.name_input
    } else if pre.ip_input@.len() == 0 {
        &&& post.devices == pre.devices
        &&& logs_view(post.logs@) == logs_view(pre.logs@).push(
            "failed to add device: empty IP"@,
        )
        &&& post.current_widget == pre.current_widget
        &&& post.currently_adding == pre.currently_adding
        &&& post.ip_input == pre.ip_input
        &&& post.name_input == pre.name_input
    } else {
        ||| {
            &&& fleet_extended(pre.devices@, post.devices@, pre.ip_input@, pre.name_input@)
            &&& exists|body: Seq<char>|
                #[trigger] spec_decode_status(body) == Some(post.devices@.last().bulb)
                    && logs_view(post.logs@) == logs_view(pre.logs@).push(
                    status_message(pre.ip_input@, body),
                )
            &&& post.ip_input@.len() == 0
            &&& post.name_input@.len() == 0
            &&& post.currently_adding is None
            &&& post.current_widget is Devices
        }
        ||| {
            &&& post.devices@ == pre.devices@
            &&& device_error_logged(logs_view(pre.logs@), logs_view(post.logs@), true)
            &&& post.current_widget == pre.current_widget
            &&& post.currently_adding == pre.currently_adding
            &&& post.ip_input == pre.ip_input
            &&& post.name_input == pre.name_input
        }
    }
}

impl App {
    /// Reads fresh status for every selected device and logs the report;
    /// an empty fleet is left alone, a failure is logged instead.
    pub fn refresh_devices(&mut self)
        requires
            old(self).wf(),
        ensures
            final(self).wf(),
            refreshed_rel(*old(self), *final(self)),
    {
        let len = self.devices.len();
        if len == 0 {
            return ;
        }
        let ghost pre_logs = self.logs@;
        let ghost pre_d = self.devices@;
        match self.devices.get_status() {
            Ok(None) => {
                proof {
                    assert(exists|bodies: Seq<Seq<char>>|
                        #[trigger] fleet_reported(
                            pre_d,
                            self.devices@,
                            bodies,
                            pre_d.len() as int,
                        ));
                }
            },
            Ok(Some(v)) => {
                let ghost vv = v@;
                proof {
                    assert(exists|bodies: Seq<Seq<char>>|
                        #[trigger] fleet_reported(pre_d, self.devices@, bodies, pre_d.len() as int)
                            && vv == concat_reports(pre_d, bodies, pre_d.len() as int));
                }
                let ghost cur_d = self.devices@;
                self.logs.push(v);
                proof {
                    lemma_logs_push(pre_logs, self.logs@.last());
                    assert(self.devices@ == cur_d);
                    let bodies = choose|bodies: Seq<Seq<char>>|
                        #[trigger] fleet_reported(pre_d, cur_d, bodies, pre_d.len() as int) && vv
                            == concat_reports(pre_d, bodies, pre_d.len() as int);
                    assert(fleet_reported(pre_d, self.devices@, bodies, pre_d.len() as int));
                    assert(logs_view(self.logs@) == logs_view(pre_logs).push(
                        concat_reports(pre_d, bodies, pre_d.len() as int),
                    ));
                }
            },
            Err(e) => {
                let m = e.message();
                self.logs.push(m);
                proof {
                    lemma_logs_push(pre_logs, self.logs@.last());
                    assert(logs_view(self.logs@) == logs_view(pre_logs).push(spec_message(e)));
                    assert(device_error_logged(logs_view(pre_logs), logs_view(self.logs@), true));
                }
            },
        }
    }

    /// Toggles every selected device in lock-step; a failure is logged.
    pub fn toggle_selected(&mut self)
        requires
            old(self).wf(),
        ensures
            final(self).wf(),
            toggle_selected_rel(*old(self), *final(self)),
    {
        let ghost pre_logs = self.logs@;
        match self.devices.toggle() {
            Ok(()) => {},
            Err(e) => {
                let m = e.message();
                self.logs.push(m);
                proof {
                    lemma_logs_push(pre_logs, self.logs@.last());
                    assert(logs_view(self.logs@) == logs_view(pre_logs).push(spec_message(e)));
                    assert(device_error_logged(logs_view(pre_logs), logs_view(self.logs@), false));
                }
            },
        }
    }

    /// Toggles the power of the current device alone; a failure is logged.
    pub fn toggle_current(&mut self)
        requires
            old(self).wf(),
        ensures
            final(self).wf(),
            toggle_current_rel(*old(self), *final(self)),
    {
        let len = self.devices.len();
        if len == 0 {
            return ;
        }
        let ghost pre_logs = self.logs@;
        match self.devices.toggle_one(self.current_device_index) {
            Ok(()) => {},
            Err(e) => {
                let m = e.message();
                self.logs.push(m);
                proof {
                    lemma_logs_push(pre_logs, self.logs@.last());
                    assert(logs_view(self.logs@) == logs_view(pre_logs).push(spec_message(e)));
                    assert(device_error_logged(logs_view(pre_logs), logs_view(self.logs@), false));
                }
            },
        }
    }

    /// Confirms the add form: validates the address, asks the fleet to add
    /// the device, and logs the outcome.
    pub fn add_device(&mut self)
        requires
            old(self).wf(),
        ensures
            final(self).wf(),
            add_device_rel(*old(self), *final(self)),
    {
        let ghost pre_logs = self.logs@;
        if self.devices.has_ip(&self.ip_input) {
            let mut m = "Device \"".to_owned();
            m.append(self.ip_input.as_str());
            m.append("\" already added");
            self.logs.push(m);
            proof {
                lemma_logs_push(pre_logs, self.logs@.last());
            }
            return ;
        }
        if self.ip_input.as_str().is_empty() {
            self.logs.push("failed to add device: empty IP".to_owned());
            proof {
                lemma_logs_push(pre_logs, self.logs@.last());
            }
            return ;
        }
        let ip = self.ip_input.clone();
        let name = self.name_input.clone();
        match self.devices.add(ip, name) {
            Ok(v) => {
                self.logs.push(v);
                self.ip_input = String::new();
                self.name_input = String::new();
                self.currently_adding = None;
                self.current_widget = CurrentWidget::Devices;
                proof {
                    lemma_logs_push(pre_logs, self.logs@.last());
                }
            },
            Err(e) => {
                let m = e.message();
                self.logs.push(m);
                proof {
                    lemma_logs_push(pre_logs, self.logs@.last());
                    assert(logs_view(self.logs@) == logs_view(pre_logs).push(spec_message(e)));
                    assert(device_error_logged(logs_view(pre_logs), logs_view(self.logs@), true));
                }
            },
        }
    }
}

/// The form is closed and the device list focused again.
pub open spec fn settings_closed(post: App) -> bool {
    post.currently_setting is None && post.current_widget is Devices
}

/// The brightness half of confirming the settings form, starting from the
/// fleet as the color half left it (`mid`), driven by the caller-computed
/// float comparison `differs`. An empty fleet is skipped. An input that did
/// not parse (`None`) is logged and keeps the form open. A value within
/// epsilon of the current device's cached one (`Some(false)`) sends
/// nothing. A differing value goes out to every selected device,
/// fail-fast, a failure logged; the form closes whether or not that batch
/// succeeded.
pub open spec fn brightness_phase(
    mid: Seq<DeviceView>,
    differs: Option<bool>,
    pre: App,
    post: App,
) -> bool {
    if mid.len() == 0 {
        &&& post.devices@ == mid
        &&& post.logs == pre.logs
        &&& settings_closed(post)
    } else {
        match differs {
            None => {
                &&& post.devices@ == mid
                &&& logs_view(post.logs@) == logs_view(pre.logs@).push(
                    "failed to set brightness: invalid number"@,
                )
                &&& post.current_widget == pre.current_widget
                &&& post.currently_setting == pre.currently_setting
            },
            Some(false) => {
                &&& post.devices@ == mid
                &&& post.logs == pre.logs
                &&& settings_closed(post)
            },
            Some(true) => {
                &&& settings_closed(post)
                &&& {
                    ||| {
                        &&& fleet_updated(
                            mid,
                            post.devices@,
                            mid.len() as int,
                            FleetOpSpec::Brightness(pre.brightness_input@),
                        )
                        &&& post.logs == pre.logs
                    }
                    ||| {
                        &&& exists|k: int|
                            0 <= k < mid.len() && mid[k].selected && #[trigger] fleet_updated(
                                mid,
                                post.devices@,
                                k,
                                FleetOpSpec::Brightness(pre.brightness_input@),
                            )
                        &&& device_error_logged(logs_view(pre.logs@), logs_view(post.logs@), false)
                    }
                }
            },
        }
    }
}

/// What confirming the settings form may do to the session. A color text of
/// the wrong length is logged and keeps the form. Else the color goes out
/// to every selected device, fail-fast: on a failure the error is logged
/// and the form stays; once the whole color batch went through, the
/// brightness half runs as `brightness_phase` says.
pub open spec fn settings_confirm_rel(pre: App, differs: Option<bool>, post: App) -> bool {
    &&& post.current_device_index == pre.current_device_index
    &&& post.currently_adding == pre.currently_adding
    &&& post.log_horizontal_offset == pre.log_horizontal_offset
    &&& post.color_input == pre.color_input
    &&& post.brightness_input == pre.brightness_input
    &&& post.ip_input == pre.ip_input
    &&& post.name_input == pre.name_input
    &&& if pre.color_input@.len() != 7 {
        &&& post.devices == pre.devices
        &&& logs_view(post.logs@) == logs_view(pre.logs@).push(
            "failed to set color: wrong input length"@,
        )
        &&& post.current_widget == pre.current_widget
        &&& post.currently_setting == pre.currently_setting
    } else {
        ||| {
            &&& exists|k: int|
                0 <= k < pre.devices@.len() && pre.devices@[k].selected && #[trigger]
                fleet_updated(
                    pre.devices@,
                    post.devices@,
                    k,
                    FleetOpSpec::Color(pre.color_input@),
                )
            &&& device_error_logged(logs_view(pre.logs@), logs_view(post.logs@), false)
            &&& post.current_widget == pre.current_widget
            &&& post.currently_setting == pre.currently_setting
        }
        ||| exists|mid: Seq<DeviceView>|
            {
                &&& #[trigger] fleet_updated(
                    pre.devices@,
                    mid,
                    pre.devices@.len() as int,
                    FleetOpSpec::Color(pre.color_input@),
                )
                &&& brightness_phase(mid, differs, pre, post)
            }
    }
}

/// One discovered address folded into the session, best-effort: an address
/// already present in the fleet is skipped silently; a fresh one is
/// attempted through the fleet's add, and exactly one line is appended for
/// it — the new device's status report when it was reached and decoded, or
/// the error's display text when it was not (and then the fleet is
/// unchanged).
pub open spec fn discover_step_one(
    ip: Seq<char>,
    d0: Seq<DeviceView>,
    l0: Seq<Seq<char>>,
    d1: Seq<DeviceView>,
    l1: Seq<Seq<char>>,
) -> bool {
    if spec_contains_ip(d0, ip) {
        d1 == d0 && l1 == l0
    } else {
        ||| {
            &&& fleet_extended(d0, d1, ip, Seq::<char>::empty())
            &&& exists|body: Seq<char>|
                #[trigger] spec_decode_status(body) == Some(d1.last().bulb) && l1 == l0.push(
                    status_message(ip, body),
                )
        }
        ||| {
            &&& d1 == d0
            &&& device_error_logged(l0, l1, true)
        }
    }
}

/// A run of the discovery loop as the sequence of states it passed
/// through: entry `x` of `ds`/`ls` is the fleet and the log before address
/// `x` was handled, and each address was folded in by one best-effort
/// step — so every discovered address was attempted, in arrival order, and
/// one failing add does not stop the later ones.
pub open spec fn discover_trace(
    ips: Seq<Seq<char>>,
    ds: Seq<Seq<DeviceView>>,
    ls: Seq<Seq<Seq<char>>>,
) -> bool {
    &&& ds.len() == ips.len() + 1
    &&& ls.len() == ips.len() + 1
    &&& forall|x: int|
        0 <= x < ips.len() ==> #[trigger] discover_step_one(
            ips[x],
            ds[x],
            ls[x],
            ds[x + 1],
            ls[x + 1],
        )
}

impl App {
    /// Confirms the settings form: sends the entered color to the selected
    /// devices, then the entered brightness when it parsed and differed
    /// from the current device's cached value by more than epsilon. The
    /// caller compares the two brightness texts as floats and passes the
    /// verdict in `brightness_differs` (`None`: the input does not parse);
    /// floating point stays outside the library.
    pub fn set_color_and_brightness(&mut self, brightness_differs: Option<bool>)
        requires
            old(self).wf(),
        ensures
            final(self).wf(),
            settings_confirm_rel(*old(self), brightness_differs, *final(self)),
    {
        let ghost pre_logs = self.logs@;
        let clen = self.color_input.unicode_len();
        if clen != 7 {
            self.logs.push("failed to set color: wrong input length".to_owned());
            proof {
                lemma_logs_push(pre_logs, self.logs@.last());
            }
            return ;
        }
        let color = self.color_input.clone();
        match self.devices.set_color(color.as_str()) {
            Err(e) => {
                let m = e.message();
                self.logs.push(m);
                proof {
                    lemma_logs_push(pre_logs, self.logs@.last());
                    assert(logs_view(self.logs@) == logs_view(pre_logs).push(spec_message(e)));
                    assert(device_error_logged(
                        logs_view(pre_logs),
                        logs_view(self.logs@),
                        false,
                    ));
                }
                return ;
            },
            Ok(()) => {},
        }
        let ghost mid = self.devices@;
        let len = self.devices.len();
        if len > 0 {
            match brightness_differs {
                None => {
                    self.logs.push("failed to set brightness: invalid number".to_owned());
                    proof {
                        lemma_logs_push(pre_logs, self.logs@.last());
                    }
                    return ;
                },
                Some(true) => {
                    let value = self.brightness_input.clone();
                    match self.devices.set_brightness(value.as_str()) {
                        Ok(()) => {},
                        Err(e) => {
                            let m = e.message();
                            self.logs.push(m);
                            proof {
                                lemma_logs_push(pre_logs, self.logs@.last());
                                assert(logs_view(self.logs@) == logs_view(pre_logs).push(
                                    spec_message(e),
                                ));
                                assert(device_error_logged(
                                    logs_view(pre_logs),
                                    logs_view(self.logs@),
                                    false,
                                ));
                            }
                        },
                    }
                },
                Some(false) => {},
            }
        }
        self.currently_setting = None;
        self.current_widget = CurrentWidget::Devices;
    }

    /// Folds the result of one UDP probe into the fleet: every discovered
    /// address not already present is added, each outcome logged on its
    /// own — one failing add does not stop the others. An empty result and
    /// a failed probe are logged as such.
    pub fn discover(&mut self, found: Result<Vec<String>, String>)
        requires
            old(self).wf(),
        ensures
            final(self).wf(),
            same_but_devices_and_logs(*old(self), *final(self)),
            match found {
                Err(msg) => final(self).devices == old(self).devices && logs_view(
                    final(self).logs@,
                ) == logs_view(old(self).logs@).push(msg@),
                Ok(v) => {
                    &&& old(self).devices@.len() <= final(self).devices@.len() <= old(
                        self,
                    ).devices@.len() + v@.len()
                    &&& final(self).devices@.subrange(0, old(self).devices@.len() as int) == old(
                        self,
                    ).devices@
                    &&& (v@.len() == 0 ==> final(self).devices == old(self).devices && logs_view(
                        final(self).logs@,
                    ) == logs_view(old(self).logs@).push("No devices detected"@))
                    &&& forall|j: int|
                        old(self).devices@.len() <= j < final(self).devices@.len() ==> {
                            &&& (#[trigger] final(self).devices@[j]).selected
                            &&& final(self).devices@[j].name == Seq::<char>::empty()
                            &&& exists|x: int|
                                0 <= x < v@.len() && final(self).devices@[j].ip == #[trigger] v@[x]@
                            &&& !spec_contains_ip(
                                final(self).devices@.subrange(0, j),
                                final(self).devices@[j].ip,
                            )
                        }
                    &&& logs_view(final(self).logs@).subrange(0, old(self).logs@.len() as int)
                        == logs_view(old(self).logs@)
                    &&& logs_view(final(self).logs@).len() <= logs_view(old(self).logs@).len() + if v@.len()
                        == 0 {
                        1int
                    } else {
                        v@.len() as int
                    }
                    &&& (v@.len() > 0 ==> exists|ds: Seq<Seq<DeviceView>>, ls: Seq<Seq<Seq<char>>>|
                        {
                            &&& #[trigger] discover_trace(texts_view(v@), ds, ls)
                            &&& ds[0] == old(self).devices@
                            &&& ls[0] == logs_view(old(self).logs@)
                            &&& ds[v@.len() as int] == final(self).devices@
                            &&& ls[v@.len() as int] == logs_view(final(self).logs@)
                        })
                },
            },
    {
        let ghost pre_logs = self.logs@;
        let ghost pre_d = self.devices@;
        match found {
            Err(msg) => {
                self.logs.push(msg);
                proof {
                    lemma_logs_push(pre_logs, self.logs@.last());
                }
            },
            Ok(v) => {
                if v.len() == 0 {
                    self.logs.push("No devices detected".to_owned());
                    proof {
                        lemma_logs_push(pre_logs, self.logs@.last());
                        assert(logs_view(self.logs@).subrange(0, pre_logs.len() as int)
                            =~= logs_view(pre_logs));
                    }
                    return ;
                }
                let n = v.len();
                let mut i: usize = 0;
                let ghost mut ds: Seq<Seq<DeviceView>> = seq![pre_d];
                let ghost mut ls: Seq<Seq<Seq<char>>> = seq![logs_view(pre_logs)];
                while i < n
                    invariant
                        i <= n,
                        n == v@.len(),
                        old(self).devices@ == pre_d,
                        old(self).logs@ == pre_logs,
                        pre_d.len() <= self.devices@.len() <= pre_d.len() + i,
                        self.devices@.subrange(0, pre_d.len() as int) == pre_d,
                        forall|j: int|
                            pre_d.len() <= j < self.devices@.len() ==> {
                                &&& (#[trigger] self.devices@[j]).selected
                                &&& self.devices@[j].name == Seq::<char>::empty()
                                &&& exists|x: int|
                                    0 <= x < v@.len() && self.devices@[j].ip == #[trigger] v@[x]@
                                &&& !spec_contains_ip(
                                    self.devices@.subrange(0, j),
                                    self.devices@[j].ip,
                                )
                            },
                        logs_view(pre_logs).len() <= logs_view(self.logs@).len(),
                        logs_view(self.logs@).subrange(0, pre_logs.len() as int) == logs_view(
                            pre_logs,
                        ),
                        logs_view(self.logs@).len() <= logs_view(pre_logs).len() + i,
                        same_but_devices_and_logs(*old(self), *self),
                        self.wf(),
                        ds.len() == i + 1,
                        ls.len() == i + 1,
                        ds[0] == pre_d,
                        ls[0] == logs_view(pre_logs),
                        ds.last() == self.devices@,
                        ls.last() == logs_view(self.logs@),
                        forall|x: int|
                            0 <= x < i ==> #[trigger] discover_step_one(
                                texts_view(v@)[x],
                                ds[x],
                                ls[x],
                                ds[x + 1],
                                ls[x + 1],
                            ),
                    decreases n - i,
                {
                    let ghost before_d = self.devices@;
                    let ghost before_logs = self.logs@;
                    let ip = v[i].clone();
                    let ghost ipv = ip@;
                    proof {
                        assert(texts_view(v@)[i as int] == ipv);
                    }
                    if !self.devices.has_ip(&ip) {
                        proof {
                            assert(!spec_contains_ip(before_d, ipv));
                        }
                        match self.devices.add(ip, String::new()) {
                            Ok(m) => {
                                let ghost mm = m@;
                                let ghost cur_d = self.devices@;
                                proof {
                                    assert(exists|body: Seq<char>|
                                        #[trigger] spec_decode_status(body) == Some(
                                            cur_d.last().bulb,
                                        ) && mm == status_message(ipv, body));
                                }
                                self.logs.push(m);
                                proof {
                                    lemma_logs_push(before_logs, self.logs@.last());
                                    assert(self.devices@ == cur_d);
                                    let body = choose|body: Seq<char>|
                                        #[trigger] spec_decode_status(body) == Some(
                                            cur_d.last().bulb,
                                        ) && mm == status_message(ipv, body);
                                    assert(logs_view(self.logs@) == logs_view(before_logs).push(
                                        status_message(ipv, body),
                                    ));
                                    assert(discover_step_one(
                                        texts_view(v@)[i as int],
                                        before_d,
                                        logs_view(before_logs),
                                        self.devices@,
                                        logs_view(self.logs@),
                                    ));
                                    assert(logs_view(self.logs@).subrange(
                                        0,
                                        pre_logs.len() as int,
                                    ) =~= logs_view(before_logs).subrange(
                                        0,
                                        pre_logs.len() as int,
                                    ));
                                    assert(self.devices@.subrange(
                                        0,
                                        self.devices@.len() - 1,
                                    ) == before_d);
                                    assert(self.devices@.subrange(0, pre_d.len() as int)
                                        =~= pre_d);
                                    assert(self.devices@.last().ip == v@[i as int]@);
                                    assert forall|j: int|
                                        pre_d.len() <= j < self.devices@.len() implies {
                                        &&& (#[trigger] self.devices@[j]).selected
                                        &&& self.devices@[j].name == Seq::<char>::empty()
                                        &&& exists|x: int|
                                            0 <= x < v@.len() && self.devices@[j].ip
                                                == #[trigger] v@[x]@
                                        &&& !spec_contains_ip(
                                            self.devices@.subrange(0, j),
                                            self.devices@[j].ip,
                                        )
                                    } by {
                                        if j < self.devices@.len() - 1 {
                                            assert(self.devices@[j] == self.devices@.subrange(
                                                0,
                                                self.devices@.len() - 1,
                                            )[j]);
                                            assert(self.devices@[j] == before_d[j]);
                                            assert(self.devices@.subrange(0, j)
                                                =~= before_d.subrange(0, j));
                                        } else {
                                            assert(self.devices@.subrange(0, j) =~= before_d);
                                            assert(!spec_contains_ip(
                                                before_d,
                                                self.devices@[j].ip,
                                            ));
                                        }
                                    }
                                }
                            },
                            Err(e) => {
                                let m = e.message();
                                let ghost cur_d = self.devices@;
                                self.logs.push(m);
                                proof {
                                    lemma_logs_push(before_logs, self.logs@.last());
                                    assert(logs_view(self.logs@).subrange(
                                        0,
                                        pre_logs.len() as int,
                                    ) =~= logs_view(before_logs).subrange(
                                        0,
                                        pre_logs.len() as int,
                                    ));
                                    assert(self.devices@ == cur_d);
                                    assert(logs_view(self.logs@) == logs_view(before_logs).push(
                                        spec_message(e),
                                    ));
                                    assert(device_error_logged(
                                        logs_view(before_logs),
                                        logs_view(self.logs@),
                                        true,
                                    ));
                                    assert(discover_step_one(
                                        texts_view(v@)[i as int],
                                        before_d,
                                        logs_view(before_logs),
                                        self.devices@,
                                        logs_view(self.logs@),
                                    ));
                                }
                            },
                        }
                    } else {
                        proof {
                            assert(spec_contains_ip(before_d, ipv));
                            assert(discover_step_one(
                                texts_view(v@)[i as int],
                                before_d,
                                logs_view(before_logs),
                                self.devices@,
                                logs_view(self.logs@),
                            ));
                        }
                    }
                    proof {
                        ds = ds.push(self.devices@);
                        ls = ls.push(logs_view(self.logs@));
                        assert(ds[i as int] == before_d);
                        assert(ls[i as int] == logs_view(before_logs));
                        assert(discover_step_one(
                            texts_view(v@)[i as int],
                            ds[i as int],
                            ls[i as int],
                            ds[i as int + 1],
                            ls[i as int + 1],
                        ));
                    }
                    i += 1;
                }
                proof {
                    assert(discover_trace(texts_view(v@), ds, ls));
                    assert(ds[n as int] == ds.last());
                    assert(ls[n as int] == ls.last());
                }
            },
        }
    }
}

impl App {
    /// One transition of the modal state machine: dispatches a key to the
    /// active mode's handler. Everything that needs the world outside the
    /// fleet's own HTTP calls — the UDP probe, the float comparison of
    /// brightness texts, persistence on quit — is handed back to the caller
    /// through the outcome.
    pub fn step(&mut self, key: Key) -> (out: StepOutcome)
        requires
            old(self).wf(),
        ensures
            final(self).wf(),
            match old(self).current_widget {
                CurrentWidget::Devices => {
                    if key == Key::Esc || key == Key::Char('q') {
                        out == StepOutcome::Quit && *final(self) == *old(self)
                    } else if key == Key::Enter {
                        out == StepOutcome::Continue && toggle_current_rel(
                            *old(self),
                            *final(self),
                        )
                    } else if key == Key::Tab {
                        out == StepOutcome::Continue && *final(self) == (App {
                            current_widget: CurrentWidget::Logs,
                            ..*old(self)
                        })
                    } else if key == Key::Up || key == Key::Char('k') {
                        out == StepOutcome::Continue && *final(self) == (App {
                            current_device_index: if old(self).current_device_index > 0 {
                                (old(self).current_device_index - 1) as usize
                            } else {
                                0usize
                            },
                            ..*old(self)
                        })
                    } else if key == Key::Down || key == Key::Char('j') {
                        out == StepOutcome::Continue && *final(self) == (App {
                            current_device_index: if old(self).devices@.len() > 0 && (
                            old(self).current_device_index as int) < old(self).devices@.len()
                                - 1 {
                                (old(self).current_device_index + 1) as usize
                            } else {
                                old(self).current_device_index
                            },
                            ..*old(self)
                        })
                    } else if key == Key::Char('a') {
                        out == StepOutcome::Continue && *final(self) == (App {
                            current_widget: CurrentWidget::AddDevice,
                            currently_adding: Some(CurrentlyAdding::IP),
                            ..*old(self)
                        })
                    } else if key == Key::Char('A') {
                        out == StepOutcome::Discover && *final(self) == *old(self)
                    } else if key == Key::Char('c') {
                        out == StepOutcome::Continue && open_settings_rel(
                            *old(self),
                            *final(self),
                        )
                    } else if key == Key::Char('d') {
                        out == StepOutcome::Continue && remove_rel(*old(self), *final(self))
                    } else if key == Key::Char('e') {
                        out == StepOutcome::Continue && toggle_selected_rel(
                            *old(self),
                            *final(self),
                        )
                    } else if key == Key::Char('r') {
                        out == StepOutcome::Continue && refreshed_rel(*old(self), *final(self))
                    } else if key == Key::Char(' ') {
                        out == StepOutcome::Continue && select_rel(*old(self), *final(self))
                    } else {
                        out == StepOutcome::Continue && *final(self) == *old(self)
                    }
                },
                CurrentWidget::Logs => {
                    if key == Key::Esc || key == Key::Char('q') {
                        out == StepOutcome::Quit && *final(self) == *old(self)
                    } else if key == Key::Backspace {
                        out == StepOutcome::Continue && final(self).logs@ == Seq::<
                            String,
                        >::empty() && same_but_devices_and_logs(*old(self), *final(self))
                            && final(self).devices == old(self).devices
                    } else if key == Key::Tab {
                        out == StepOutcome::Continue && *final(self) == (App {
                            current_widget: CurrentWidget::Devices,
                            ..*old(self)
                        })
                    } else if key == Key::Left || key == Key::Char('h') {
                        out == StepOutcome::Continue && *final(self) == (App {
                            log_horizontal_offset: if old(self).log_horizontal_offset >= 4 {
                                (old(self).log_horizontal_offset - 4) as u16
                            } else {
                                0u16
                            },
                            ..*old(self)
                        })
                    } else if key == Key::Right || key == Key::Char('l') {
                        out == StepOutcome::Continue && *final(self) == (App {
                            log_horizontal_offset: if old(self).log_horizontal_offset
                                <= u16::MAX - 4 {
                                (old(self).log_horizontal_offset + 4) as u16
                            } else {
                                u16::MAX
                            },
                            ..*old(self)
                        })
                    } else {
                        out == StepOutcome::Continue && *final(self) == *old(self)
                    }
                },
                CurrentWidget::AddDevice => {
                    if key == Key::Esc {
                        out == StepOutcome::Continue && final(self).ip_input@.len() == 0
                            && final(self).name_input@.len() == 0 && final(self).current_widget
                            is Devices && final(self).currently_adding is None && same_but_form(
                            *old(self),
                            *final(self),
                        )
                    } else if key == Key::Enter {
                        out == StepOutcome::Continue && add_device_rel(*old(self), *final(self))
                    } else if key == Key::Backspace {
                        out == StepOutcome::Continue && add_backspace_rel(
                            *old(self),
                            *final(self),
                        )
                    } else if key == Key::Tab || key == Key::Up || key == Key::Down {
                        out == StepOutcome::Continue && *final(self) == (App {
                            currently_adding: match old(self).currently_adding {
                                Some(CurrentlyAdding::IP) => Some(CurrentlyAdding::Name),
                                Some(CurrentlyAdding::Name) => Some(CurrentlyAdding::IP),
                                None => Some(CurrentlyAdding::IP),
                            },
                            ..*old(self)
                        })
                    } else if key matches Key::Char(c) {
                        out == StepOutcome::Continue && add_char_rel(
                            *old(self),
                            *final(self),
                            key->Char_0,
                        )
                    } else {
                        out == StepOutcome::Continue && *final(self) == *old(self)
                    }
                },
                CurrentWidget::DeviceSettings => {
                    if key == Key::Esc || key == Key::Char('q') {
                        out == StepOutcome::Continue && *final(self) == (App {
                            current_widget: CurrentWidget::Devices,
                            currently_setting: None,
                            ..*old(self)
                        })
                    } else if key == Key::Enter {
                        out == StepOutcome::ConfirmSettings && *final(self) == *old(self)
                    } else if key == Key::Backspace {
                        out == StepOutcome::Continue && settings_backspace_rel(
                            *old(self),
                            *final(self),
                        )
                    } else if key == Key::Tab || key == Key::Up || key == Key::Down {
                        out == StepOutcome::Continue && *final(self) == (App {
                            currently_setting: match old(self).currently_setting {
                                Some(CurrentlySetting::Color) => Some(
                                    CurrentlySetting::Brightness,
                                ),
                                Some(CurrentlySetting::Brightness) => Some(
                                    CurrentlySetting::Color,
                                ),
                                None => Some(CurrentlySetting::Color),
                            },
                            ..*old(self)
                        })
                    } else if key matches Key::Char(c) {
                        out == StepOutcome::Continue && settings_char_rel(
                            *old(self),
                            *final(self),
                            key->Char_0,
                        )
                    } else {
                        out == StepOutcome::Continue && *final(self) == *old(self)
                    }
                },
            },
    {
        match self.current_widget {
            CurrentWidget::Devices => match key {
                Key::Esc | Key::Char('q') => return StepOutcome::Quit,
                Key::Enter => self.toggle_current(),
                Key::Tab => self.current_widget = CurrentWidget::Logs,
                Key::Up | Key::Char('k') => self.prev_device(),
                Key::Down | Key::Char('j') => self.next_device(),
                Key::Char('a') => {
                    self.current_widget = CurrentWidget::AddDevice;
                    self.currently_adding = Some(CurrentlyAdding::IP);
                },
                Key::Char('A') => return StepOutcome::Discover,
                Key::Char('c') => self.open_settings(),
                Key::Char('d') => self.remove_device(),
                Key::Char('e') => self.toggle_selected(),
                Key::Char('r') => self.refresh_devices(),
                Key::Char(' ') => self.select_device(),
                _ => {},
            },
            CurrentWidget::Logs => match key {
                Key::Esc | Key::Char('q') => return StepOutcome::Quit,
                Key::Backspace => self.logs.clear(),
                Key::Tab => self.current_widget = CurrentWidget::Devices,
                Key::Left | Key::Char('h') => self.scroll_logs_left(),
                Key::Right | Key::Char('l') => self.scroll_logs_right(),
                _ => {},
            },
            CurrentWidget::AddDevice => match key {
                Key::Esc => {
                    self.current_widget = CurrentWidget::Devices;
                    self.currently_adding = None;
                    self.ip_input = String::new();
                    self.name_input = String::new();
                },
                Key::Enter => self.add_device(),
                Key::Backspace => self.add_input_backspace(),
                Key::Tab | Key::Up | Key::Down => self.toggle_adding_field(),
                Key::Char(c) => self.add_input_char(c),
                _ => {},
            },
            CurrentWidget::DeviceSettings => match key {
                Key::Esc | Key::Char('q') => {
                    self.current_widget = CurrentWidget::Devices;
                    self.currently_setting = None;
                },
                Key::Enter => return StepOutcome::ConfirmSettings,
                Key::Backspace => self.settings_input_backspace(),
                Key::Tab | Key::Up | Key::Down => self.toggle_settings_field(),
                Key::Char(c) => self.settings_input_char(c),
                _ => {},
            },
        }
        StepOutcome::Continue
    }
}

/// Removing the current device keeps the index clamped: removing the last
/// entry of the list lands the index on the new last entry, never negative
/// and never out of bounds, and an emptied list resets it to zero.
pub proof fn lemma_remove_clamps(pre: App, post: App)
    requires
        pre.wf(),
        remove_rel(pre, post),
        pre.devices@.len() > 0,
        pre.current_device_index as int == pre.devices@.len() - 1,
    ensures
        post.devices@.len() == pre.devices@.len() - 1,
        post.devices@.len() > 0 ==> post.current_device_index as int == post.devices@.len() - 1,
        post.devices@.len() == 0 ==> post.current_device_index == 0,
{
}

/// Everything of the state but the form fields and text inputs is kept:
/// what cancelling a form leaves alone.
pub open spec fn same_but_form(pre: App, post: App) -> bool {
    &&& post.devices == pre.devices
    &&& post.logs == pre.logs
    &&& post.current_device_index == pre.current_device_index
    &&& post.currently_setting == pre.currently_setting
    &&& post.log_horizontal_offset == pre.log_horizontal_offset
    &&& post.color_input == pre.color_input
    &&& post.brightness_input == pre.brightness_input
}

} // verus!
