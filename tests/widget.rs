use mpd_block::block::{BarEvent, BlockError, Command, Link, MouseButton, Mpd, MpdConfig, Probe, Step};
use mpd_block::fields::{flags, format_duration, format_optional_duration, volume_down, volume_up};
use mpd_block::status::{
    playback_info, track_artist, track_length, track_title, volume_text, PlayState, RemoteStatus, RemoteTrack,
    StatusFields,
};
use mpd_block::template::{FormatTemplate, TemplateError};

fn status(state: PlayState, elapsed: Option<u64>) -> RemoteStatus {
    RemoteStatus {
        repeat: false,
        random: false,
        single: false,
        consume: false,
        state,
        elapsed,
        volume: 50,
    }
}

fn track(title: Option<&str>, artist: Option<&str>, duration: Option<u64>) -> RemoteTrack {
    RemoteTrack {
        file: String::from("music/song.flac"),
        title: title.map(String::from),
        artist: artist.map(String::from),
        duration,
    }
}

fn widget(format: &str) -> Mpd {
    let mut config = MpdConfig::defaults();
    config.format = String::from(format);
    Mpd::new(config, String::from("mpd-widget"), true).unwrap()
}

fn fetched(s: RemoteStatus, t: Option<RemoteTrack>) -> Probe {
    Probe::Fetched { status: s, track: t }
}

#[test]
fn duration_minutes_and_padded_seconds() {
    assert_eq!(format_duration(125), "2:05");
    assert_eq!(format_duration(59), "0:59");
    assert_eq!(format_duration(3600), "60:00");
    assert_eq!(format_duration(0), "0:00");
    assert_eq!(format_duration(70), "1:10");
}

#[test]
fn absent_duration_is_empty() {
    assert_eq!(format_optional_duration(None), "");
    assert_eq!(format_optional_duration(Some(65)), "1:05");
}

#[test]
fn flags_in_fixed_order() {
    assert_eq!(flags(true, false, true, false), "RS");
    assert_eq!(flags(true, true, true, true), "RZSC");
    assert_eq!(flags(false, false, false, false), "");
    assert_eq!(flags(false, true, false, true), "ZC");
}

#[test]
fn volume_is_clamped() {
    let mut v: i8 = 98;
    for _ in 0..5 {
        v = volume_up(v);
        assert!(v <= 100);
    }
    assert_eq!(v, 100);
    let mut w: i8 = 3;
    for _ in 0..5 {
        w = volume_down(w);
        assert!(w >= 0);
    }
    assert_eq!(w, 0);
    assert_eq!(volume_up(50), 55);
    assert_eq!(volume_down(50), 45);
    assert_eq!(volume_up(-1), 4);
}

#[test]
fn title_and_artist_fallbacks() {
    assert_eq!(track_title(&Some(track(Some("Song"), None, None))), "Song");
    assert_eq!(track_title(&Some(track(None, None, None))), "music/song.flac");
    assert_eq!(track_title(&None), "");
    assert_eq!(track_artist(&Some(track(None, Some("Band"), None))), "Band");
    assert_eq!(track_artist(&Some(track(None, None, None))), "unknown artist");
    assert_eq!(track_artist(&None), "");
    assert_eq!(track_length(&Some(track(None, None, Some(185)))), "3:05");
    assert_eq!(track_length(&Some(track(None, None, None))), "");
    assert_eq!(track_length(&None), "");
}

#[test]
fn playback_info_by_state() {
    let t = Some(track(None, None, Some(185)));
    assert_eq!(playback_info(&status(PlayState::Playing, Some(65)), &t), "1:05/3:05");
    assert_eq!(playback_info(&status(PlayState::Paused, Some(65)), &t), "paused");
    assert_eq!(playback_info(&status(PlayState::Stopped, None), &t), "stopped");
    assert_eq!(playback_info(&status(PlayState::Playing, None), &None), "/");
}

#[test]
fn volume_as_decimal() {
    assert_eq!(volume_text(0), "0");
    assert_eq!(volume_text(100), "100");
    assert_eq!(volume_text(-1), "-1");
}

#[test]
fn unknown_placeholder_passes_through() {
    let t = FormatTemplate::from_string("{title} #{nonexistent}").unwrap();
    let fields = StatusFields::derive(&status(PlayState::Stopped, None), &Some(track(Some("Foo"), None, None)));
    assert_eq!(t.render(&fields), "Foo #{nonexistent}");
}

#[test]
fn unclosed_placeholder_is_refused() {
    assert_eq!(FormatTemplate::from_string("{title").err(), Some(TemplateError::UnclosedPlaceholder));
    assert_eq!(FormatTemplate::from_string("{a{title}}").err(), Some(TemplateError::UnclosedPlaceholder));
    assert!(FormatTemplate::from_string("plain } text").is_ok());
    assert!(FormatTemplate::from_string("").is_ok());
}

#[test]
fn every_placeholder_renders() {
    let t = FormatTemplate::from_string("{volume}|{elapsed}|{length}|{artist}|{repeat}{random}{single}{consume}").unwrap();
    let mut s = status(PlayState::Playing, Some(7));
    s.random = true;
    s.consume = true;
    let fields = StatusFields::derive(&s, &Some(track(None, None, Some(600))));
    assert_eq!(t.render(&fields), "50|0:07|10:00|unknown artist|ZC");
}

#[test]
fn end_to_end_default_format() {
    let mut m = widget(&MpdConfig::default_format());
    let t = track(Some("Y"), Some("X"), Some(185));
    let step = m.update(fetched(status(PlayState::Playing, Some(65)), Some(t)));
    assert_eq!(step, Step::Sleep(1000));
    assert_eq!(m.view(), "X - Y [1:05/3:05]");
    assert_eq!(m.link(), Link::Usable);
}

#[test]
fn failed_probe_shows_reconnecting() {
    let mut m = widget("{title}");
    assert_eq!(m.update(fetched(status(PlayState::Paused, None), Some(track(Some("A"), None, None)))), Step::Sleep(1000));
    assert_eq!(m.view(), "A");
    assert_eq!(m.update(Probe::Failed), Step::Reconnect);
    assert_eq!(m.view(), "reconnecting...");
    assert_eq!(m.link(), Link::Broken);
    assert_eq!(m.reconnected(false), 1000);
    assert_eq!(m.link(), Link::Broken);
    assert_eq!(m.view(), "reconnecting...");
}

#[test]
fn render_after_successful_reconnect() {
    let mut m = widget("{artist}: {title} {playback_info}");
    assert_eq!(m.update(Probe::Failed), Step::Reconnect);
    assert_eq!(m.reconnected(true), 1000);
    assert_eq!(m.link(), Link::Usable);
    let step = m.update(fetched(status(PlayState::Paused, Some(3)), Some(track(Some("B"), Some("C"), None))));
    assert_eq!(step, Step::Sleep(1000));
    assert_eq!(m.view(), "C: B paused");
}

#[test]
fn render_twice_is_stable() {
    let mut m = widget(&MpdConfig::default_format());
    let s = status(PlayState::Playing, Some(30));
    m.update(fetched(s, Some(track(Some("T"), None, Some(90)))));
    let first = m.view().clone();
    m.update(fetched(s, Some(track(Some("T"), None, Some(90)))));
    assert_eq!(m.view(), &first);
    assert_eq!(first, "unknown artist - T [0:30/1:30]");
}

#[test]
fn empty_queue_renders_empty_fields() {
    let mut m = widget(&MpdConfig::default_format());
    m.update(fetched(status(PlayState::Stopped, None), None));
    assert_eq!(m.view(), " -  [stopped]");
}

#[test]
fn click_maps_buttons_to_commands() {
    let m = widget("{title}");
    let ev = |b: MouseButton| BarEvent { name: Some(String::from("mpd-widget")), button: b };
    assert_eq!(m.click(&ev(MouseButton::Left)), Some(Command::Previous));
    assert_eq!(m.click(&ev(MouseButton::Middle)), Some(Command::TogglePause));
    assert_eq!(m.click(&ev(MouseButton::Right)), Some(Command::Next));
    assert_eq!(m.click(&ev(MouseButton::WheelUp)), Some(Command::VolumeUp));
    assert_eq!(m.click(&ev(MouseButton::WheelDown)), Some(Command::VolumeDown));
    assert_eq!(m.click(&ev(MouseButton::Other)), None);
}

#[test]
fn click_for_other_widget_is_ignored() {
    let m = widget("{title}");
    let other = BarEvent { name: Some(String::from("clock")), button: MouseButton::Left };
    assert_eq!(m.click(&other), None);
    let unnamed = BarEvent { name: None, button: MouseButton::Left };
    assert_eq!(m.click(&unnamed), None);
    assert_eq!(m.view(), "Mpd");
}

#[test]
fn construction_errors() {
    let config = MpdConfig::defaults();
    assert_eq!(Mpd::new(config, String::from("x"), false).err(), Some(BlockError::NotConnected));
    let mut bad = MpdConfig::defaults();
    bad.format = String::from("{artist");
    assert_eq!(Mpd::new(bad, String::from("x"), true).err(), Some(BlockError::InvalidFormat));
}

#[test]
fn construction_keeps_settings() {
    let m = widget("{title}");
    assert_eq!(m.id(), "mpd-widget");
    assert_eq!(m.ip(), "127.0.0.1:6600");
    assert_eq!(m.update_interval(), 1000);
    assert_eq!(m.view(), "Mpd");
    assert_eq!(m.link(), Link::Usable);
}

#[test]
fn config_defaults() {
    assert_eq!(MpdConfig::default_interval(), 1000);
    assert_eq!(
        MpdConfig::default_format(),
        "{artist} - {title} [{playback_info}]{repeat}{random}{single}{consume}"
    );
    assert_eq!(MpdConfig::default_ip(), "127.0.0.1:6600");
    assert!(MpdConfig::default_color_overrides().is_none());
}

#[test]
fn failure_messages() {
    assert_eq!(Command::Previous.failure_message(), "Failed to go to previous track");
    assert_eq!(Command::TogglePause.failure_message(), "Failed to toggle pause");
    assert_eq!(Command::Next.failure_message(), "Failed to go to next track");
    assert_eq!(Command::VolumeUp.failure_message(), "Failed to adjust mpd volume");
}
