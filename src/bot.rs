//! Recognising bot commands in chat messages.
use vstd::prelude::*;

use crate::text::{chars_equal, char_vec, has_suffix};
use crate::utils::{utf16_prefix, utf16_prefix_of};
use vstd::string::StrSliceExecFns;

verus! {

/// The first entity of a text message, as the chat service reports it:
/// whether it marks a bot command, and where it lies, in UTF-16 code units.
#[derive(Debug, Clone, Copy)]
pub struct CommandEntity {
    pub is_bot_command: bool,
    pub offset: i64,
    pub length: i64,
}

/// A command addressed to the bot. `arg` is the character index in the
/// message text where the command's argument starts.
#[derive(Debug, PartialEq, Eq)]
pub enum Command {
    More { arg: usize },
    Count { arg: usize },
    Version,
    Unrecognized,
}

/// The command called `name`, with its argument at `arg`.
pub open spec fn command_named(name: Seq<char>, arg: nat) -> Command {
    if name == "/more"@ {
        Command::More { arg: arg as usize }
    } else if name == "/count"@ {
        Command::Count { arg: arg as usize }
    } else if name == "/version"@ {
        Command::Version
    } else {
        Command::Unrecognized
    }
}

/// The command in the message `data`, and whether it names the bot
/// (`botname`, written after the command). `None` where the message does
/// not start with a bot command.
pub open spec fn command_of(botname: Seq<char>, data: Seq<char>, entity: Option<CommandEntity>) -> Option<
    (Command, bool),
> {
    match entity {
        None => None,
        Some(e) => if !e.is_bot_command || e.offset != 0 || e.length < 0 || e.length > usize::MAX {
            None
        } else {
            match utf16_prefix(data, e.length as nat) {
                None => None,
                Some(k) => {
                    let head = data.take(k as int);
                    if has_suffix(head, botname) {
                        Some((command_named(head.take(head.len() - botname.len()), k), true))
                    } else {
                        Some((command_named(head, k), false))
                    }
                },
            }
        },
    }
}

fn command_in(chars: &Vec<char>, end: usize, arg: usize) -> (r: Command)
    requires
        end <= chars@.len(),
    ensures
        r == command_named(chars@.take(end as int), arg as nat),
{
    assert(chars@.subrange(0, end as int) =~= chars@.take(end as int));
    if chars_equal(chars, 0, end, "/more") {
        Command::More { arg }
    } else if chars_equal(chars, 0, end, "/count") {
        Command::Count { arg }
    } else if chars_equal(chars, 0, end, "/version") {
        Command::Version
    } else {
        Command::Unrecognized
    }
}

impl Command {
    /// Reads the command that starts the message `data`, whose first entity
    /// is `entity`, for the bot called `botname`.
    pub fn from_message(botname: &str, data: &str, entity: Option<CommandEntity>) -> (r: Option<
        (Command, bool),
    >)
        ensures
            r == command_of(botname@, data@, entity),
    {
        let e = match entity {
            Some(e) => e,
            None => return None,
        };
        if !e.is_bot_command || e.offset != 0 || e.length < 0 {
            return None;
        }
        if (e.length as u64) > (usize::MAX as u64) {
            return None;
        }
        let chars = char_vec(data);
        let k = match utf16_prefix_of(&chars, e.length as usize) {
            Some((k, _)) => k,
            None => return None,
        };
        let ghost head = data@.take(k as int);
        let n = botname.unicode_len();
        if n <= k && chars_equal(&chars, k - n, k, botname) {
            assert(head.subrange(head.len() - botname@.len(), head.len() as int) =~= chars@.subrange(
                k - n,
                k as int,
            ));
            assert(head.take(head.len() - botname@.len()) =~= chars@.take(k - n));
            Some((command_in(&chars, k - n, k), true))
        } else {
            assert(n <= k ==> head.subrange(head.len() - botname@.len(), head.len() as int)
                =~= chars@.subrange(k - n, k as int));
            Some((command_in(&chars, k, k), false))
        }
    }
}

/// What `str::trim` makes of `s`.
pub uninterp spec fn trimmed(s: Seq<char>) -> Seq<char>;

/// Relies on `str::trim`: the text without its leading and trailing
/// whitespace, which depends on the text alone.
#[verifier::external_body]
fn trim(s: &str) -> (r: &str)
    ensures
        r@ == trimmed(s@),
{
    s.trim()
}

/// The argument of a command in the message `data`: the text from `arg` on,
/// trimmed.
pub fn get_arg(data: &str, arg: usize) -> (r: &str)
    requires
        arg <= data@.len(),
    ensures
        r@ == trimmed(data@.subrange(arg as int, data@.len() as int)),
{
    let n = data.unicode_len();
    trim(data.substring_char(arg, n))
}

} // verus!
