//! Coloured console messages of the init ramdisk.

use vstd::prelude::*;

verus! {

#[derive(Debug, Clone, Copy, PartialEq, Eq, Structural)]
pub enum MessageType {
    Info,
    Warning,
    Error,
}

/// The escape sequence that sets the colour of a message's bullet.
pub open spec fn colour(message_type: MessageType) -> Seq<char> {
    match message_type {
        MessageType::Info => "\x1b[0;32m"@,
        MessageType::Warning => "\x1b[0;33m"@,
        MessageType::Error => "\x1b[0;31m"@,
    }
}

/// The line that is printed for `message`: a bullet in the colour of the
/// message's kind, then the message.
pub fn info(message: &str, message_type: &MessageType) -> (line: String)
    ensures
        line@ == colour(*message_type) + " * \x1b[0m"@ + message@,
{
    let start = match message_type {
        MessageType::Info => "\x1b[0;32m",
        MessageType::Warning => "\x1b[0;33m",
        MessageType::Error => "\x1b[0;31m",
    };
    crate::text::concat3(start, " * \x1b[0m", message)
}

} // verus!
