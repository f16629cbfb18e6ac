use vstd::prelude::*;
use crate::call::{
    bus_name_of, bus_name_string, mpris_object_path, mpris_object_path_string, player_interface,
    properties_interface, MethodCall, MethodCallSpec,
};
use crate::names::str_eq;
use crate::value::{ArgSpec, ArgValue};

verus! {

/// Why a player operation was refused.
#[derive(Clone, Copy, Debug, PartialEq, Eq, Structural)]
pub enum PlayerError {
    /// The player name did not resolve to a live, MPRIS-conformant endpoint
    /// on the bus.
    InvalidPlayer,
    /// The requested key is absent from the metadata dictionary.
    UnknownProperty,
}

/// A handle on one MPRIS player: its bus-address short name. Constructed
/// only through [`Player::try_new`], after the name has been validated as a
/// live MPRIS endpoint; every method describes exactly one remote invocation
/// against this player's well-known bus address.
#[derive(Clone, Debug, PartialEq, Eq)]
pub struct Player {
    pub name: String,
}

/// The remote address every proxy for the player called `name` speaks to:
/// the player's well-known bus name and the fixed MPRIS object path.
#[derive(Clone, Debug, PartialEq, Eq)]
pub struct ProxyAddress {
    pub destination: String,
    pub path: String,
    pub timeout_ms: u64,
}

/// A call of `member` on the MPRIS player interface of the player called
/// `name`, carrying `args`.
pub open spec fn player_method_call(
    name: Seq<char>,
    member: Seq<char>,
    args: Seq<ArgSpec>,
) -> MethodCallSpec {
    MethodCallSpec {
        destination: bus_name_of(name),
        path: mpris_object_path(),
        interface: player_interface(),
        member,
        args,
    }
}

/// A playback control: a call of `member` with no arguments.
pub open spec fn control_call(name: Seq<char>, member: Seq<char>) -> MethodCallSpec {
    player_method_call(name, member, Seq::empty())
}

/// The seek call: one signed microsecond offset.
pub open spec fn seek_call(name: Seq<char>, offset_micros: int) -> MethodCallSpec {
    player_method_call(name, "Seek"@, seq![ArgSpec::Int64(offset_micros)])
}

/// The reverse seek call: the same wire call as a seek, with the offset
/// negated before sending.
pub open spec fn seek_reverse_call(name: Seq<char>, offset_micros: int) -> MethodCallSpec {
    player_method_call(name, "Seek"@, seq![ArgSpec::Int64(-offset_micros)])
}

/// The absolute positioning call: one signed microsecond position.
pub open spec fn set_position_call(name: Seq<char>, position_micros: int) -> MethodCallSpec {
    player_method_call(name, "SetPosition"@, seq![ArgSpec::Int64(position_micros)])
}

/// The track-loading call: one URI argument.
pub open spec fn open_uri_call(name: Seq<char>, uri: Seq<char>) -> MethodCallSpec {
    player_method_call(name, "OpenUri"@, seq![ArgSpec::Str(uri)])
}

/// The read of one player property: a `Get` on the standard property
/// interface, naming the MPRIS player interface and the property.
pub open spec fn property_get_call(name: Seq<char>, property: Seq<char>) -> MethodCallSpec {
    MethodCallSpec {
        destination: bus_name_of(name),
        path: mpris_object_path(),
        interface: properties_interface(),
        member: "Get"@,
        args: seq![ArgSpec::Str(player_interface()), ArgSpec::Str(property)],
    }
}

/// The write of one player property: a `Set` on the standard property
/// interface, naming the MPRIS player interface, the property, and the value.
pub open spec fn property_set_call(
    name: Seq<char>,
    property: Seq<char>,
    value: ArgSpec,
) -> MethodCallSpec {
    MethodCallSpec {
        destination: bus_name_of(name),
        path: mpris_object_path(),
        interface: properties_interface(),
        member: "Set"@,
        args: seq![ArgSpec::Str(player_interface()), ArgSpec::Str(property), value],
    }
}

/// One entry of a player's metadata dictionary.
#[derive(Clone, Debug, PartialEq, Eq)]
pub struct MetadataEntry {
    pub key: String,
    pub value: ArgValue,
}

/// The first value stored under `key`, if any.
pub open spec fn metadata_lookup(entries: Seq<MetadataEntry>, key: Seq<char>) -> Option<ArgSpec>
    decreases entries.len(),
{
    if entries.len() == 0 {
        None
    } else if entries[0].key@ == key {
        Some(entries[0].value@)
    } else {
        metadata_lookup(entries.drop_first(), key)
    }
}

impl Player {
    /// Tries to create a new `Player` handle for `name`.
    ///
    /// Whether `name` resolves to a live, MPRIS-conformant endpoint is the
    /// embedding application's bus probe; `conformant` is that probe's
    /// verdict. For an invalid player the construction always fails and no
    /// handle exists, so no remote call can ever be issued through one.
    pub fn try_new(name: String, conformant: bool) -> (r: Result<Player, PlayerError>)
        ensures
            r is Ok <==> conformant,
            r matches Ok(p) ==> p.name@ == name@,
            r matches Err(e) ==> e == PlayerError::InvalidPlayer,
    {
        if !conformant {
            return Err(PlayerError::InvalidPlayer);
        }
        Ok(Player { name })
    }

    /// The remote address of this player's proxy: its well-known bus name,
    /// the fixed MPRIS object path, and the fixed call timeout.
    pub fn get_proxy(&self) -> (p: ProxyAddress)
        ensures
            p.destination@ == bus_name_of(self.name@),
            p.path@ == mpris_object_path(),
            p.timeout_ms == 5000,
    {
        ProxyAddress {
            destination: bus_name_string(self.name.as_str()),
            path: mpris_object_path_string(),
            timeout_ms: 5000,
        }
    }

    /// One call of `member` on this player's MPRIS player interface.
    fn player_call(&self, member: &str, args: Vec<ArgValue>) -> (c: MethodCall)
        ensures
            c@ == player_method_call(
                self.name@,
                member@,
                args@.map_values(|a: ArgValue| a@),
            ),
    {
        MethodCall {
            destination: bus_name_string(self.name.as_str()),
            path: mpris_object_path_string(),
            interface: String::from_str("org.mpris.MediaPlayer2.Player"),
            member: String::from_str(member),
            args,
        }
    }

    /// One call of `member` on the standard property interface, with `args`.
    fn property_call(&self, member: &str, args: Vec<ArgValue>) -> (c: MethodCall)
        ensures
            c@ == (MethodCallSpec {
                destination: bus_name_of(self.name@),
                path: mpris_object_path(),
                interface: properties_interface(),
                member: member@,
                args: args@.map_values(|a: ArgValue| a@),
            }),
    {
        MethodCall {
            destination: bus_name_string(self.name.as_str()),
            path: mpris_object_path_string(),
            interface: String::from_str("org.freedesktop.DBus.Properties"),
            member: String::from_str(member),
            args,
        }
    }

    /// Skips to the next track: exactly one remote `Next` call, no arguments.
    pub fn next(&self) -> (c: MethodCall)
        ensures
            c@ == control_call(self.name@, "Next"@),
    {
        let c = self.player_call("Next", Vec::new());
        proof {
            assert(c@ =~= control_call(self.name@, "Next"@));
        }
        c
    }

    /// Skips to the previous track: exactly one remote `Previous` call, no
    /// arguments.
    pub fn previous(&self) -> (c: MethodCall)
        ensures
            c@ == control_call(self.name@, "Previous"@),
    {
        let c = self.player_call("Previous", Vec::new());
        proof {
            assert(c@ =~= control_call(self.name@, "Previous"@));
        }
        c
    }

    /// Pauses the current track: exactly one remote `Pause` call, no
    /// arguments.
    pub fn pause(&self) -> (c: MethodCall)
        ensures
            c@ == control_call(self.name@, "Pause"@),
    {
        let c = self.player_call("Pause", Vec::new());
        proof {
            assert(c@ =~= control_call(self.name@, "Pause"@));
        }
        c
    }

    /// Starts or resumes the current track: exactly one remote `Play` call,
    /// no arguments.
    pub fn play(&self) -> (c: MethodCall)
        ensures
            c@ == control_call(self.name@, "Play"@),
    {
        let c = self.player_call("Play", Vec::new());
        proof {
            assert(c@ =~= control_call(self.name@, "Play"@));
        }
        c
    }

    /// Toggles between playing and paused: exactly one remote `PlayPause`
    /// call, no arguments.
    pub fn play_pause(&self) -> (c: MethodCall)
        ensures
            c@ == control_call(self.name@, "PlayPause"@),
    {
        let c = self.player_call("PlayPause", Vec::new());
        proof {
            assert(c@ =~= control_call(self.name@, "PlayPause"@));
        }
        c
    }

    /// Stops playback: exactly one remote `Stop` call, no arguments.
    pub fn stop(&self) -> (c: MethodCall)
        ensures
            c@ == control_call(self.name@, "Stop"@),
    {
        let c = self.player_call("Stop", Vec::new());
        proof {
            assert(c@ =~= control_call(self.name@, "Stop"@));
        }
        c
    }

    /// Advances the playback position: exactly one remote `Seek` call whose
    /// argument is the offset in signed microseconds.
    pub fn seek(&self, offset_micros: u64) -> (c: MethodCall)
        requires
            offset_micros <= i64::MAX as u64,
        ensures
            c@ == seek_call(self.name@, offset_micros as int),
    {
        let mut args: Vec<ArgValue> = Vec::new();
        args.push(ArgValue::Int64(offset_micros as i64));
        let c = self.player_call("Seek", args);
        proof {
            assert(c@ =~= seek_call(self.name@, offset_micros as int));
        }
        c
    }

    /// Rewinds the playback position: the same remote `Seek` call as
    /// [`Player::seek`], with the microsecond offset negated before sending.
    pub fn seek_reverse(&self, offset_micros: u64) -> (c: MethodCall)
        requires
            offset_micros <= i64::MAX as u64,
        ensures
            c@ == seek_reverse_call(self.name@, offset_micros as int),
    {
        let forward: i64 = offset_micros as i64;
        let mut args: Vec<ArgValue> = Vec::new();
        args.push(ArgValue::Int64(-forward));
        let c = self.player_call("Seek", args);
        proof {
            assert(c@ =~= seek_reverse_call(self.name@, offset_micros as int));
        }
        c
    }

    /// Sets the playback position: exactly one remote `SetPosition` call
    /// carrying the absolute position in signed microseconds.
    pub fn set_position(&self, position_micros: i64) -> (c: MethodCall)
        ensures
            c@ == set_position_call(self.name@, position_micros as int),
    {
        let mut args: Vec<ArgValue> = Vec::new();
        args.push(ArgValue::Int64(position_micros));
        let c = self.player_call("SetPosition", args);
        proof {
            assert(c@ =~= set_position_call(self.name@, position_micros as int));
        }
        c
    }

    /// Asks the player to load (and possibly play) a track: exactly one
    /// remote `OpenUri` call carrying the URI.
    pub fn open_uri(&self, uri: &str) -> (c: MethodCall)
        ensures
            c@ == open_uri_call(self.name@, uri@),
    {
        let mut args: Vec<ArgValue> = Vec::new();
        args.push(ArgValue::Str(String::from_str(uri)));
        let c = self.player_call("OpenUri", args);
        proof {
            assert(c@ =~= open_uri_call(self.name@, uri@));
        }
        c
    }

    /// Reads one player property: exactly one remote `Get` on the standard
    /// property interface, naming the MPRIS player interface and `property`.
    pub fn get_property(&self, property: &str) -> (c: MethodCall)
        ensures
            c@ == property_get_call(self.name@, property@),
    {
        let mut args: Vec<ArgValue> = Vec::new();
        args.push(ArgValue::Str(String::from_str("org.mpris.MediaPlayer2.Player")));
        args.push(ArgValue::Str(String::from_str(property)));
        let c = self.property_call("Get", args);
        proof {
            assert(c@ =~= property_get_call(self.name@, property@));
        }
        c
    }

    /// Writes one player property: exactly one remote `Set` on the standard
    /// property interface, naming the MPRIS player interface, `property`,
    /// and the value to store.
    pub fn set_property(&self, property: &str, value: ArgValue) -> (c: MethodCall)
        ensures
            c@ == property_set_call(self.name@, property@, value@),
    {
        let ghost v: ArgSpec = value@;
        let mut args: Vec<ArgValue> = Vec::new();
        args.push(ArgValue::Str(String::from_str("org.mpris.MediaPlayer2.Player")));
        args.push(ArgValue::Str(String::from_str(property)));
        args.push(value);
        let c = self.property_call("Set", args);
        proof {
            assert(c@ =~= property_set_call(self.name@, property@, v));
        }
        c
    }

    /// The read that fetches this player's whole metadata dictionary: the
    /// property `Get` for `Metadata`.
    pub fn metadata_call(&self) -> (c: MethodCall)
        ensures
            c@ == property_get_call(self.name@, "Metadata"@),
    {
        self.get_property("Metadata")
    }

    /// Picks the requested key out of the metadata dictionary fetched by
    /// [`Player::metadata_call`]: the first value stored under `property`,
    /// or an error exactly when the key is absent.
    pub fn get_metadata_property<'e>(
        &self,
        metadata: &'e Vec<MetadataEntry>,
        property: &str,
    ) -> (r: Result<&'e ArgValue, PlayerError>)
        ensures
            r is Ok <==> metadata_lookup(metadata@, property@) is Some,
            r matches Ok(v) ==> Some(v@) == metadata_lookup(metadata@, property@),
            r matches Err(e) ==> e == PlayerError::UnknownProperty,
    {
        let mut i: usize = 0;
        while i < metadata.len()
            invariant
                0 <= i <= metadata@.len(),
                forall|j: int| 0 <= j < i ==> (#[trigger] metadata@[j].key@) != property@,
            decreases metadata@.len() - i,
        {
            if str_eq(metadata[i].key.as_str(), property) {
                proof {
                    lemma_metadata_lookup_skip(metadata@, property@, i as int);
                }
                return Ok(&metadata[i].value);
            }
            i += 1;
        }
        proof {
            lemma_metadata_lookup_skip(metadata@, property@, metadata@.len() as int);
        }
        Err(PlayerError::UnknownProperty)
    }
}

/// If no key among the first `i` entries matches, the lookup outcome is
/// decided by the entries from `i` on.
proof fn lemma_metadata_lookup_skip(entries: Seq<MetadataEntry>, key: Seq<char>, i: int)
    requires
        0 <= i <= entries.len(),
        forall|j: int| 0 <= j < i ==> (#[trigger] entries[j].key@) != key,
    ensures
        metadata_lookup(entries, key) == metadata_lookup(entries.skip(i), key),
    decreases i,
{
    if i > 0 {
        assert(entries.drop_first() =~= entries.skip(1));
        lemma_metadata_lookup_skip(entries.skip(1), key, i - 1);
        assert(entries.skip(1).skip(i - 1) =~= entries.skip(i));
    } else {
        assert(entries.skip(0) =~= entries);
    }
}

/// Law: rewinding builds the very wire call that seeking by the negated
/// offset would build — the two are indistinguishable at the wire level.
pub proof fn lemma_seek_reverse_is_negated_seek(name: Seq<char>, offset_micros: int)
    ensures
        seek_reverse_call(name, offset_micros) == seek_call(name, -offset_micros),
{
    assert(seek_reverse_call(name, offset_micros) =~= seek_call(name, -offset_micros));
}

/// Law: the read and the write of one property address the same player, the
/// same object path, the same interface and the same property, and the write
/// carries exactly the value handed to it — so after a successful write, a
/// following read asks the player for precisely the property just written.
pub proof fn lemma_property_round_trip_target(
    name: Seq<char>,
    property: Seq<char>,
    value: ArgSpec,
)
    ensures
        property_set_call(name, property, value).destination == property_get_call(
            name,
            property,
        ).destination,
        property_set_call(name, property, value).path == property_get_call(name, property).path,
        property_set_call(name, property, value).interface == property_get_call(
            name,
            property,
        ).interface,
        property_set_call(name, property, value).args[1] == property_get_call(
            name,
            property,
        ).args[1],
        property_set_call(name, property, value).args[2] == value,
{
}

} // verus!

