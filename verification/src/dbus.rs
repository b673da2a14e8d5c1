//! Names on the session bus under which `spotifyd` answers, and the command
//! lines that reach it.

use crate::process::{Invocation, InvocationModel};
use vstd::prelude::*;
use vstd::string::*;

verus! {

/// Bus name of the `spotifyd` instance that runs as process `pid`.
pub open spec fn instance_name(pid: Seq<char>) -> Seq<char> {
    "org.mpris.MediaPlayer2.spotifyd.instance"@ + pid
}

/// Full name of the player method `method` of the MPRIS player interface.
pub open spec fn player_method_name(method: Seq<char>) -> Seq<char> {
    "org.mpris.MediaPlayer2.Player."@ + method
}

/// The `dbus-send` string argument that names the Spotify resource `uri`.
pub open spec fn resource_argument(uri: Seq<char>) -> Seq<char> {
    "string:spotify:"@ + uri
}

/// Returns the bus name of the `spotifyd` instance with process id `pid`.
pub fn sp_instance(pid: &str) -> (name: String)
    ensures
        name@ == instance_name(pid@),
{
    String::from_str("org.mpris.MediaPlayer2.spotifyd.instance").concat(pid)
}

/// Returns the full name of a method of the player interface.
pub fn sp_player(method: &str) -> (name: String)
    ensures
        name@ == player_method_name(method@),
{
    String::from_str("org.mpris.MediaPlayer2.Player.").concat(method)
}

/// Returns the `dbus-send` argument for the Spotify resource `uri`.
pub fn sp_thing(uri: &str) -> (argument: String)
    ensures
        argument@ == resource_argument(uri@),
{
    String::from_str("string:spotify:").concat(uri)
}

/// The `dbus-send` command that calls `method_uri` on the media-player
/// object of the bus name `instance`, with `thing` as its one argument, and
/// prints the reply.
pub open spec fn dbus_send_model(
    instance: Seq<char>,
    method_uri: Seq<char>,
    thing: Seq<char>,
) -> InvocationModel {
    InvocationModel {
        program: "dbus-send"@,
        arguments: seq![
            "--print-reply"@,
            "--dest="@ + instance,
            "/org/mpris/MediaPlayer2"@,
            method_uri,
            thing,
        ],
    }
}

/// Returns the command that sends one message to `spotifyd` and prints the
/// reply. The three strings are passed on as they are: none is checked,
/// quoted or split.
pub fn dbus_send(instance: &str, method_uri: &str, thing: &str) -> (command: Invocation)
    ensures
        command@ == dbus_send_model(instance@, method_uri@, thing@),
{
    let mut arguments: Vec<String> = Vec::new();
    arguments.push(String::from_str("--print-reply"));
    arguments.push(String::from_str("--dest=").concat(instance));
    arguments.push(String::from_str("/org/mpris/MediaPlayer2"));
    arguments.push(String::from_str(method_uri));
    arguments.push(String::from_str(thing));
    let command = Invocation { program: String::from_str("dbus-send"), arguments };
    assert(command@.arguments =~= dbus_send_model(instance@, method_uri@, thing@).arguments);
    command
}

} // verus!
