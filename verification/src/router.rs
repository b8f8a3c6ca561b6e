//! Command routing: which trigger words are answered, and with what.

use vstd::prelude::*;

verus! {

/// The commands this library answers.
#[derive(Clone, Copy, Debug, PartialEq, Eq, Structural)]
pub enum Command {
    Ping,
}

/// The trigger word of the liveness command.
pub open spec fn ping_trigger() -> Seq<char> {
    "ping"@
}

/// The acknowledgement sent for the liveness command.
pub open spec fn ping_reply() -> Seq<char> {
    "Pong!"@
}

/// Maps a trigger word to its command; unknown words have none.
pub fn route(trigger: &str) -> (command: Option<Command>)
    ensures
        command == if trigger@ == ping_trigger() {
            Some(Command::Ping)
        } else {
            None
        },
{
    if trigger.to_owned() == "ping".to_owned() {
        Some(Command::Ping)
    } else {
        None
    }
}

/// The text to reply with when `command` is received.
pub fn reply_for(command: Command) -> (text: String)
    ensures
        text@ == ping_reply(),
{
    match command {
        Command::Ping => "Pong!".to_owned(),
    }
}

} // verus!
