use mpirs::player::{MetadataEntry, Player, PlayerError};
use mpirs::value::ArgValue;

fn vlc() -> Player {
    Player::try_new(String::from("vlc"), true).expect("a conformant name must yield a handle")
}

#[test]
fn try_new_rejects_nonconformant_name() {
    // Constructing a handle for a name the bus probe rejected must always
    // fail with the invalidity error; no handle exists afterwards, so no
    // remote call can be issued.
    let r = Player::try_new(String::from("definitely_not_running"), false);
    assert_eq!(r, Err(PlayerError::InvalidPlayer));
}

#[test]
fn try_new_keeps_conformant_name() {
    let p = Player::try_new(String::from("mpv"), true).expect("conformant");
    assert_eq!(p.name, "mpv");
}

#[test]
fn get_proxy_addresses_the_player() {
    let p = vlc();
    let a = p.get_proxy();
    assert_eq!(a.destination, "org.mpris.MediaPlayer2.vlc");
    assert_eq!(a.path, "/org/mpris/MediaPlayer2");
    assert_eq!(a.timeout_ms, 5000);
}

fn assert_control(c: &mpirs::call::MethodCall, member: &str) {
    assert_eq!(c.destination, "org.mpris.MediaPlayer2.vlc");
    assert_eq!(c.path, "/org/mpris/MediaPlayer2");
    assert_eq!(c.interface, "org.mpris.MediaPlayer2.Player");
    assert_eq!(c.member, member);
    assert!(c.args.is_empty());
}

#[test]
fn each_control_issues_one_call_of_its_own_name_with_no_arguments() {
    let p = vlc();
    assert_control(&p.next(), "Next");
    assert_control(&p.previous(), "Previous");
    assert_control(&p.pause(), "Pause");
    assert_control(&p.play(), "Play");
    assert_control(&p.play_pause(), "PlayPause");
    assert_control(&p.stop(), "Stop");
}

#[test]
fn seek_sends_the_offset_in_microseconds() {
    let p = vlc();
    let c = p.seek(5_000_000);
    assert_eq!(c.member, "Seek");
    assert_eq!(c.interface, "org.mpris.MediaPlayer2.Player");
    assert_eq!(c.args, vec![ArgValue::Int64(5_000_000)]);
}

#[test]
fn seek_reverse_builds_the_sign_negated_seek_call() {
    let p = vlc();
    let forward = p.seek(5_000_000);
    let backward = p.seek_reverse(5_000_000);
    assert_eq!(backward.destination, forward.destination);
    assert_eq!(backward.path, forward.path);
    assert_eq!(backward.interface, forward.interface);
    assert_eq!(backward.member, forward.member);
    assert_eq!(backward.args, vec![ArgValue::Int64(-5_000_000)]);
}

#[test]
fn seek_reverse_of_zero_is_seek_of_zero() {
    let p = vlc();
    assert_eq!(p.seek_reverse(0), p.seek(0));
}

#[test]
fn set_position_sends_exactly_one_setposition_call_with_the_position() {
    let p = vlc();
    let c = p.set_position(150000);
    assert_eq!(c.destination, "org.mpris.MediaPlayer2.vlc");
    assert_eq!(c.path, "/org/mpris/MediaPlayer2");
    assert_eq!(c.interface, "org.mpris.MediaPlayer2.Player");
    assert_eq!(c.member, "SetPosition");
    assert_eq!(c.args, vec![ArgValue::Int64(150000)]);
}

#[test]
fn open_uri_carries_the_uri() {
    let p = vlc();
    let c = p.open_uri("file:///tmp/song.flac");
    assert_eq!(c.member, "OpenUri");
    assert_eq!(c.args, vec![ArgValue::Str(String::from("file:///tmp/song.flac"))]);
}

#[test]
fn get_property_is_a_get_on_the_properties_interface() {
    let p = vlc();
    let c = p.get_property("Volume");
    assert_eq!(c.destination, "org.mpris.MediaPlayer2.vlc");
    assert_eq!(c.path, "/org/mpris/MediaPlayer2");
    assert_eq!(c.interface, "org.freedesktop.DBus.Properties");
    assert_eq!(c.member, "Get");
    assert_eq!(
        c.args,
        vec![
            ArgValue::Str(String::from("org.mpris.MediaPlayer2.Player")),
            ArgValue::Str(String::from("Volume")),
        ]
    );
}

#[test]
fn set_property_is_a_set_carrying_the_value() {
    let p = vlc();
    let c = p.set_property("Shuffle", ArgValue::Boolean(true));
    assert_eq!(c.interface, "org.freedesktop.DBus.Properties");
    assert_eq!(c.member, "Set");
    assert_eq!(
        c.args,
        vec![
            ArgValue::Str(String::from("org.mpris.MediaPlayer2.Player")),
            ArgValue::Str(String::from("Shuffle")),
            ArgValue::Boolean(true),
        ]
    );
}

#[test]
fn get_and_set_of_one_property_address_the_same_target() {
    // The library's half of the write-then-read round trip: both calls go to
    // the same destination, path and property, and the write carries the
    // value unchanged, so what a conformant player stores under the property
    // is exactly what the following read asks for.
    let p = vlc();
    let get = p.get_property("Rate");
    let set = p.set_property("Rate", ArgValue::UInt64(1));
    assert_eq!(get.destination, set.destination);
    assert_eq!(get.path, set.path);
    assert_eq!(get.args[0], set.args[0]);
    assert_eq!(get.args[1], set.args[1]);
    assert_eq!(set.args[2], ArgValue::UInt64(1));
}

#[test]
fn metadata_call_fetches_the_metadata_dictionary() {
    let p = vlc();
    let c = p.metadata_call();
    assert_eq!(c.member, "Get");
    assert_eq!(c.interface, "org.freedesktop.DBus.Properties");
    assert_eq!(
        c.args,
        vec![
            ArgValue::Str(String::from("org.mpris.MediaPlayer2.Player")),
            ArgValue::Str(String::from("Metadata")),
        ]
    );
}

fn sample_metadata() -> Vec<MetadataEntry> {
    vec![
        MetadataEntry {
            key: String::from("xesam:title"),
            value: ArgValue::Str(String::from("Some Song")),
        },
        MetadataEntry { key: String::from("mpris:length"), value: ArgValue::Int64(214_000_000) },
        MetadataEntry {
            key: String::from("xesam:title"),
            value: ArgValue::Str(String::from("A Shadowing Entry")),
        },
    ]
}

#[test]
fn metadata_property_present_key_yields_its_value() {
    let p = vlc();
    let md = sample_metadata();
    let v = p.get_metadata_property(&md, "mpris:length").expect("present");
    assert_eq!(*v, ArgValue::Int64(214_000_000));
}

#[test]
fn metadata_property_duplicate_key_yields_the_first_value() {
    let p = vlc();
    let md = sample_metadata();
    let v = p.get_metadata_property(&md, "xesam:title").expect("present");
    assert_eq!(*v, ArgValue::Str(String::from("Some Song")));
}

#[test]
fn metadata_property_absent_key_is_an_error() {
    let p = vlc();
    let md = sample_metadata();
    let r = p.get_metadata_property(&md, "xesam:album");
    assert_eq!(r, Err(PlayerError::UnknownProperty));
}

#[test]
fn metadata_property_on_empty_dictionary_is_an_error() {
    let p = vlc();
    let md: Vec<MetadataEntry> = vec![];
    assert_eq!(p.get_metadata_property(&md, "xesam:title"), Err(PlayerError::UnknownProperty));
}
