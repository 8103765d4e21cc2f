use crate::prompt::{numeral_value, parse_numeral};
use vstd::prelude::*;

verus! {

/// What the user asked for on the command line.
#[derive(Debug, PartialEq, Eq)]
pub enum Command {
    /// Add a session: from five values (location, date and time, duration,
    /// rating, wave height in feet), or, with none, by asking for each.
    Add { fields: Vec<String> },
    /// Delete the session with this identifier.
    Delete { id: u64 },
    /// List the sessions, all of them or those at one location.
    List { location: Option<String> },
    /// Show where the store lives.
    Config,
}

/// Why the command line could not be read.
#[derive(Clone, Copy, Debug, PartialEq, Eq, Structural)]
pub enum ArgsError {
    MissingCommand,
    UnknownCommand,
    WrongArgumentCount,
    InvalidId,
}

pub open spec fn add_word() -> Seq<char> {
    seq!['a', 'd', 'd']
}

pub open spec fn delete_word() -> Seq<char> {
    seq!['d', 'e', 'l', 'e', 't', 'e']
}

pub open spec fn list_word() -> Seq<char> {
    seq!['l', 'i', 's', 't']
}

pub open spec fn config_word() -> Seq<char> {
    seq!['c', 'o', 'n', 'f', 'i', 'g']
}

fn is_word(arg: &String, word: &str) -> (r: bool)
    ensures
        r == (arg@ == word@),
{
    let w = word.to_owned();
    *arg == w
}

/// Reads the command line, the program's name left out.
pub fn get_args(args: &Vec<String>) -> (r: Result<Command, ArgsError>)
    ensures
        args@.len() == 0 ==> r == Err::<Command, ArgsError>(ArgsError::MissingCommand),
        args@.len() > 0 && args@[0]@ == add_word() ==> if args@.len() == 1 || args@.len() == 6 {
            r matches Ok(Command::Add { fields }) && fields@.len() + 1 == args@.len() && forall|
                i: int,
            |
                0 <= i < fields@.len() ==> #[trigger] fields@[i]@ == args@[i + 1]@
        } else {
            r == Err::<Command, ArgsError>(ArgsError::WrongArgumentCount)
        },
        args@.len() > 0 && args@[0]@ == delete_word() ==> if args@.len() == 2 {
            match numeral_value(args@[1]@) {
                Some(n) => r == Ok::<Command, ArgsError>(Command::Delete { id: n }),
                None => r == Err::<Command, ArgsError>(ArgsError::InvalidId),
            }
        } else {
            r == Err::<Command, ArgsError>(ArgsError::WrongArgumentCount)
        },
        args@.len() > 0 && args@[0]@ == list_word() ==> if args@.len() == 1 {
            r matches Ok(Command::List { location: None })
        } else if args@.len() == 2 {
            r matches Ok(Command::List { location: Some(l) }) && l@ == args@[1]@
        } else {
            r == Err::<Command, ArgsError>(ArgsError::WrongArgumentCount)
        },
        args@.len() > 0 && args@[0]@ == config_word() ==> if args@.len() == 1 {
            r == Ok::<Command, ArgsError>(Command::Config)
        } else {
            r == Err::<Command, ArgsError>(ArgsError::WrongArgumentCount)
        },
        args@.len() > 0 && args@[0]@ != add_word() && args@[0]@ != delete_word() && args@[0]@
            != list_word() && args@[0]@ != config_word() ==> r == Err::<Command, ArgsError>(
            ArgsError::UnknownCommand,
        ),
{
    proof {
        reveal_strlit("add");
        reveal_strlit("delete");
        reveal_strlit("list");
        reveal_strlit("config");
        assert("add"@ =~= add_word());
        assert("delete"@ =~= delete_word());
        assert("list"@ =~= list_word());
        assert("config"@ =~= config_word());
    }
    if args.len() == 0 {
        return Err(ArgsError::MissingCommand);
    }
    let n = args.len();
    if is_word(&args[0], "add") {
        if n != 1 && n != 6 {
            return Err(ArgsError::WrongArgumentCount);
        }
        let mut fields: Vec<String> = Vec::new();
        let mut i: usize = 1;
        while i < n
            invariant
                1 <= i <= n,
                n == args@.len(),
                fields@.len() + 1 == i,
                forall|j: int| 0 <= j < fields@.len() ==> #[trigger] fields@[j]@ == args@[j + 1]@,
            decreases n - i,
        {
            fields.push(args[i].clone());
            i = i + 1;
        }
        Ok(Command::Add { fields })
    } else if is_word(&args[0], "delete") {
        if n != 2 {
            return Err(ArgsError::WrongArgumentCount);
        }
        match parse_numeral(args[1].as_str()) {
            Some(id) => Ok(Command::Delete { id }),
            None => Err(ArgsError::InvalidId),
        }
    } else if is_word(&args[0], "list") {
        if n == 1 {
            Ok(Command::List { location: None })
        } else if n == 2 {
            Ok(Command::List { location: Some(args[1].clone()) })
        } else {
            Err(ArgsError::WrongArgumentCount)
        }
    } else if is_word(&args[0], "config") {
        if n == 1 {
            Ok(Command::Config)
        } else {
            Err(ArgsError::WrongArgumentCount)
        }
    } else {
        Err(ArgsError::UnknownCommand)
    }
}

} // verus!
