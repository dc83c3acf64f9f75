use vstd::prelude::*;

use std::collections::BTreeMap;

use crate::status::{Field, RemoteStatus, RemoteTrack, StatusFields, field_text};
use crate::template::{FormatTemplate, TemplateError, render_text, well_formed};

verus! {

/// The settings of the widget.
pub struct MpdConfig {
    /// Time between two refreshes, in milliseconds.
    pub interval: u64,
    pub format: String,
    /// `host:port` of the player.
    pub ip: String,
    /// Colours handed on to the bar unchanged.
    pub color_overrides: Option<BTreeMap<String, String>>,
}

impl MpdConfig {
    /// One second.
    pub fn default_interval() -> (r: u64)
        ensures
            r == 1000,
    {
        1000
    }

    pub fn default_format() -> (r: String)
        ensures
            r@ == "{artist} - {title} [{playback_info}]{repeat}{random}{single}{consume}"@,
    {
        String::from_str("{artist} - {title} [{playback_info}]{repeat}{random}{single}{consume}")
    }

    pub fn default_ip() -> (r: String)
        ensures
            r@ == "127.0.0.1:6600"@,
    {
        String::from_str("127.0.0.1:6600")
    }

    pub fn default_color_overrides() -> (r: Option<BTreeMap<String, String>>)
        ensures
            r is None,
    {
        None
    }

    /// The settings that apply where none is given.
    pub fn defaults() -> (r: MpdConfig)
        ensures
            r.interval == 1000,
            r.format@ == "{artist} - {title} [{playback_info}]{repeat}{random}{single}{consume}"@,
            r.ip@ == "127.0.0.1:6600"@,
            r.color_overrides is None,
    {
        MpdConfig {
            interval: MpdConfig::default_interval(),
            format: MpdConfig::default_format(),
            ip: MpdConfig::default_ip(),
            color_overrides: MpdConfig::default_color_overrides(),
        }
    }
}

/// Why the widget could not be made.
#[derive(Clone, Copy, Debug, PartialEq, Eq, Structural)]
pub enum BlockError {
    /// The first connection to the player failed.
    NotConnected,
    /// The format string has a placeholder that is never closed.
    InvalidFormat,
}

/// Whether the last status query succeeded.
#[derive(Clone, Copy, Debug, PartialEq, Eq, Structural)]
pub enum Link {
    Usable,
    Broken,
}

/// What a status query returned.
pub enum Probe {
    /// The status, and the queued track if there is one.
    Fetched { status: RemoteStatus, track: Option<RemoteTrack> },
    /// The query failed.
    Failed,
}

/// What the caller does after an update.
#[derive(Clone, Copy, Debug, PartialEq, Eq, Structural)]
pub enum Step {
    /// Close the connection, open a new one and report the outcome.
    Reconnect,
    /// Update again after this many milliseconds.
    Sleep(u64),
}

/// A mouse button or wheel direction.
#[derive(Clone, Copy, Debug, PartialEq, Eq, Structural)]
pub enum MouseButton {
    Left,
    Middle,
    Right,
    WheelUp,
    WheelDown,
    Other,
}

/// A click or scroll on the bar, addressed to the widget named `name`.
pub struct BarEvent {
    pub name: Option<String>,
    pub button: MouseButton,
}

/// A command for the player.
#[derive(Clone, Copy, Debug, PartialEq, Eq, Structural)]
pub enum Command {
    Previous,
    TogglePause,
    Next,
    /// Set the volume five higher, at most 100.
    VolumeUp,
    /// Set the volume five lower, at least 0.
    VolumeDown,
}

/// The command that `button` asks for.
pub open spec fn command_for(button: MouseButton) -> Option<Command> {
    match button {
        MouseButton::Left => Some(Command::Previous),
        MouseButton::Middle => Some(Command::TogglePause),
        MouseButton::Right => Some(Command::Next),
        MouseButton::WheelUp => Some(Command::VolumeUp),
        MouseButton::WheelDown => Some(Command::VolumeDown),
        MouseButton::Other => None,
    }
}

impl Command {
    /// The message given when the player refuses the command.
    pub fn failure_message(&self) -> (r: String)
        ensures
            r@ == match *self {
                Command::Previous => "Failed to go to previous track"@,
                Command::TogglePause => "Failed to toggle pause"@,
                Command::Next => "Failed to go to next track"@,
                _ => "Failed to adjust mpd volume"@,
            },
    {
        match self {
            Command::Previous => String::from_str("Failed to go to previous track"),
            Command::TogglePause => String::from_str("Failed to toggle pause"),
            Command::Next => String::from_str("Failed to go to next track"),
            _ => String::from_str("Failed to adjust mpd volume"),
        }
    }
}

/// The text shown while the connection is being replaced.
pub open spec fn reconnecting_text() -> Seq<char> {
    "reconnecting..."@
}

/// The text that `format` renders to for `status` and `track`.
pub open spec fn status_text(format: Seq<char>, status: RemoteStatus, track: Option<RemoteTrack>) -> Seq<char> {
    render_text(format, |f: Field| field_text(f, status, track))
}

/// The widget: its identity, settings, connection state and shown text.
pub struct Mpd {
    id: String,
    update_interval: u64,
    ip: String,
    format: FormatTemplate,
    text: String,
    link: Link,
}

impl Mpd {
    pub closed spec fn wf(&self) -> bool {
        self.format.wf()
    }

    pub closed spec fn id_view(&self) -> Seq<char> {
        self.id@
    }

    pub closed spec fn interval_view(&self) -> u64 {
        self.update_interval
    }

    pub closed spec fn ip_view(&self) -> Seq<char> {
        self.ip@
    }

    pub closed spec fn format_view(&self) -> Seq<char> {
        self.format@
    }

    /// The text on show.
    pub closed spec fn text_view(&self) -> Seq<char> {
        self.text@
    }

    pub closed spec fn link_view(&self) -> Link {
        self.link
    }

    /// Holds of `after` when it keeps the identity and settings of `self`.
    pub open spec fn same_settings(&self, after: Mpd) -> bool {
        &&& after.id_view() == self.id_view()
        &&& after.interval_view() == self.interval_view()
        &&& after.ip_view() == self.ip_view()
        &&& after.format_view() == self.format_view()
    }

    /// The state after an update that observed `probe`, and the step it asks for.
    pub open spec fn updated(&self, probe: Probe, after: Mpd, step: Step) -> bool {
        &&& self.same_settings(after)
        &&& match probe {
            Probe::Fetched { status, track } => {
                &&& after.text_view() == status_text(self.format_view(), status, track)
                &&& after.link_view() == Link::Usable
                &&& step == Step::Sleep(self.interval_view())
            },
            Probe::Failed => {
                &&& after.text_view() == reconnecting_text()
                &&& after.link_view() == Link::Broken
                &&& step == Step::Reconnect
            },
        }
    }

    /// The state after a reconnect attempt whose outcome was `ok`.
    pub open spec fn reconnect_outcome(&self, ok: bool, after: Mpd) -> bool {
        &&& self.same_settings(after)
        &&& after.text_view() == self.text_view()
        &&& after.link_view() == if ok { Link::Usable } else { Link::Broken }
    }

    /// Makes the widget once the first connection is made (`connected`);
    /// fails when it was not, or when the format string is not well formed.
    pub fn new(config: MpdConfig, id: String, connected: bool) -> (r: Result<Mpd, BlockError>)
        ensures
            !connected ==> r == Err::<Mpd, BlockError>(BlockError::NotConnected),
            connected && !well_formed(config.format@) ==> r == Err::<Mpd, BlockError>(
                BlockError::InvalidFormat,
            ),
            connected && well_formed(config.format@) ==> r is Ok,
            r matches Ok(m) ==> {
                &&& m.wf()
                &&& m.id_view() == id@
                &&& m.interval_view() == config.interval
                &&& m.ip_view() == config.ip@
                &&& m.format_view() == config.format@
                &&& m.text_view() == "Mpd"@
                &&& m.link_view() == Link::Usable
            },
    {
        if !connected {
            return Err(BlockError::NotConnected);
        }
        let format = match FormatTemplate::from_string(config.format.as_str()) {
            Ok(t) => t,
            Err(TemplateError::UnclosedPlaceholder) => {
                return Err(BlockError::InvalidFormat);
            },
        };
        Ok(Mpd {
            id,
            update_interval: config.interval,
            ip: config.ip,
            format,
            text: String::from_str("Mpd"),
            link: Link::Usable,
        })
    }

    /// Takes the outcome of this cycle's status query. On success the text is
    /// rendered afresh from it; on failure the text says that the widget is
    /// reconnecting and the caller is asked to replace the connection.
    pub fn update(&mut self, probe: Probe) -> (r: Step)
        requires
            old(self).wf(),
        ensures
            final(self).wf(),
            old(self).updated(probe, *final(self), r),
    {
        match probe {
            Probe::Fetched { status, track } => {
                let fields = StatusFields::derive(&status, &track);
                let text = self.format.render(&fields);
                proof {
                    let v1 = |f: Field| fields.text_of(f);
                    let v2 = |f: Field| field_text(f, status, track);
                    assert(v1 =~= v2);
                }
                self.text = text;
                self.link = Link::Usable;
                Step::Sleep(self.update_interval)
            },
            Probe::Failed => {
                self.text = String::from_str("reconnecting...");
                self.link = Link::Broken;
                Step::Reconnect
            },
        }
    }

    /// Takes the outcome of a reconnect attempt; the new connection, when
    /// `ok`, serves from the next update on. Returns the wait before that update.
    pub fn reconnected(&mut self, ok: bool) -> (r: u64)
        requires
            old(self).wf(),
        ensures
            final(self).wf(),
            old(self).reconnect_outcome(ok, *final(self)),
            r == old(self).interval_view(),
    {
        self.link = if ok { Link::Usable } else { Link::Broken };
        self.update_interval
    }

    /// The command that `event` asks of this widget: none when it is meant for
    /// another widget or its button has no command.
    pub fn click(&self, event: &BarEvent) -> (r: Option<Command>)
        ensures
            r == match event.name {
                Some(name) => if name@ == self.id_view() { command_for(event.button) } else { None },
                None => None,
            },
    {
        match &event.name {
            Some(name) => {
                if *name == self.id {
                    match event.button {
                        MouseButton::Left => Some(Command::Previous),
                        MouseButton::Middle => Some(Command::TogglePause),
                        MouseButton::Right => Some(Command::Next),
                        MouseButton::WheelUp => Some(Command::VolumeUp),
                        MouseButton::WheelDown => Some(Command::VolumeDown),
                        MouseButton::Other => None,
                    }
                } else {
                    None
                }
            },
            None => None,
        }
    }

    pub fn id(&self) -> (r: &String)
        ensures
            r@ == self.id_view(),
    {
        &self.id
    }

    /// The address used to reconnect.
    pub fn ip(&self) -> (r: &String)
        ensures
            r@ == self.ip_view(),
    {
        &self.ip
    }

    /// The text on show.
    pub fn view(&self) -> (r: &String)
        ensures
            r@ == self.text_view(),
    {
        &self.text
    }

    pub fn link(&self) -> (r: Link)
        ensures
            r == self.link_view(),
    {
        self.link
    }

    pub fn update_interval(&self) -> (r: u64)
        ensures
            r == self.interval_view(),
    {
        self.update_interval
    }
}

} // verus!
