use vstd::prelude::*;
use crate::value::{ArgSpec, ArgValue};

verus! {

/// The mathematical image of one remote invocation: which bus name it is
/// addressed to, on which object path, which interface and member it names,
/// and the argument list it carries.
#[verifier::ext_equal]
pub struct MethodCallSpec {
    pub destination: Seq<char>,
    pub path: Seq<char>,
    pub interface: Seq<char>,
    pub member: Seq<char>,
    pub args: Seq<ArgSpec>,
}

/// A complete description of one remote method invocation. The embedding
/// application performs it over its bus connection exactly as written here;
/// this crate never issues a call itself.
#[derive(Clone, Debug, PartialEq, Eq)]
pub struct MethodCall {
    pub destination: String,
    pub path: String,
    pub interface: String,
    pub member: String,
    pub args: Vec<ArgValue>,
}

impl View for MethodCall {
    type V = MethodCallSpec;

    open spec fn view(&self) -> MethodCallSpec {
        MethodCallSpec {
            destination: self.destination@,
            path: self.path@,
            interface: self.interface@,
            member: self.member@,
            args: self.args@.map_values(|a: ArgValue| a@),
        }
    }
}

/// The fixed MPRIS object path every player exposes.
pub open spec fn mpris_object_path() -> Seq<char> {
    "/org/mpris/MediaPlayer2"@
}

/// The prefix of every MPRIS player's well-known bus name.
pub open spec fn mpris_bus_prefix() -> Seq<char> {
    "org.mpris.MediaPlayer2."@
}

/// The MPRIS player control interface.
pub open spec fn player_interface() -> Seq<char> {
    "org.mpris.MediaPlayer2.Player"@
}

/// The standard property-access interface used for property reads and writes.
pub open spec fn properties_interface() -> Seq<char> {
    "org.freedesktop.DBus.Properties"@
}

/// The well-known bus name of the player called `player`.
pub open spec fn bus_name_of(player: Seq<char>) -> Seq<char> {
    mpris_bus_prefix() + player
}

/// The fixed MPRIS object path, as an owned string.
pub fn mpris_object_path_string() -> (s: String)
    ensures
        s@ == mpris_object_path(),
{
    String::from_str("/org/mpris/MediaPlayer2")
}

/// The well-known bus name of the player called `player`, as an owned string.
pub fn bus_name_string(player: &str) -> (s: String)
    ensures
        s@ == bus_name_of(player@),
{
    String::from_str("org.mpris.MediaPlayer2.").concat(player)
}

} // verus!
