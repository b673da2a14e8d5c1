//! Helper programs: how one is called, and how its output is read.
//!
//! The crate starts no process. It says which program to run with which
//! arguments, and turns the bytes that the program wrote into text.

use std::string::FromUtf8Error;
use vstd::prelude::*;
use vstd::string::*;
use vstd::utf8::*;

verus! {

/// A program and the arguments to start it with.
#[derive(Debug, PartialEq, Eq)]
pub struct Invocation {
    pub program: String,
    pub arguments: Vec<String>,
}

/// An [`Invocation`] as a mathematical value.
pub struct InvocationModel {
    pub program: Seq<char>,
    pub arguments: Seq<Seq<char>>,
}

impl View for Invocation {
    type V = InvocationModel;

    open spec fn view(&self) -> InvocationModel {
        InvocationModel {
            program: self.program@,
            arguments: self.arguments@.map_values(|a: String| a@),
        }
    }
}

/// The output of a helper program was not UTF-8.
#[derive(Debug, Clone, Copy, PartialEq, Eq)]
pub struct DecodeError;

/// `std::string::FromUtf8Error`, the error of `String::from_utf8`.
#[verifier::external_type_specification]
#[verifier::external_body]
pub struct ExFromUtf8Error(std::string::FromUtf8Error);

/// `String::from_utf8`. It succeeds exactly on UTF-8, and the string it
/// returns is made of the very bytes it was given.
#[verifier::external_body]
fn string_from_utf8(bytes: Vec<u8>) -> (r: Result<String, FromUtf8Error>)
    ensures
        r is Ok <==> valid_utf8(bytes@),
        r matches Ok(s) ==> encode_utf8(s@) == bytes@,
{
    String::from_utf8(bytes)
}

/// The command that finds the process id of the running `spotifyd`.
pub open spec fn pid_lookup_model() -> InvocationModel {
    InvocationModel { program: "pgrep"@, arguments: seq!["spotifyd"@] }
}

/// Returns the command that prints the process id of the running
/// `spotifyd`.
pub fn pid_lookup() -> (command: Invocation)
    ensures
        command@ == pid_lookup_model(),
{
    let mut arguments: Vec<String> = Vec::new();
    arguments.push(String::from_str("spotifyd"));
    let command = Invocation { program: String::from_str("pgrep"), arguments };
    assert(command@.arguments =~= pid_lookup_model().arguments);
    command
}

/// Reads what a helper program wrote to its standard output: the text that
/// the bytes encode, or an error where they are not UTF-8. No byte is
/// dropped, replaced or trimmed.
pub fn decode_output(stdout: Vec<u8>) -> (r: Result<String, DecodeError>)
    ensures
        r is Ok <==> valid_utf8(stdout@),
        r matches Ok(text) ==> text@ == decode_utf8(stdout@),
{
    match string_from_utf8(stdout) {
        Ok(text) => {
            proof {
                encode_utf8_decode_utf8(text@);
            }
            Ok(text)
        },
        Err(_) => Err(DecodeError),
    }
}

} // verus!
