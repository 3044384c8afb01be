//! The command line: a command, and at most one option after it.

use vstd::prelude::*;

verus! {

/// Splits a program's arguments, the program's own name first, into the
/// command and the option that may follow it. Further arguments are
/// ignored. `None` exactly when no command was given.
pub fn parse_cli_args(args: &Vec<String>) -> (parsed: Option<(String, Option<String>)>)
    ensures
        match parsed {
            None => args@.len() < 2,
            Some((command, option)) => {
                &&& args@.len() >= 2
                &&& command == args@[1]
                &&& option == if args@.len() > 2 {
                    Some(args@[2])
                } else {
                    None
                }
            },
        },
{
    if args.len() < 2 {
        return None;
    }
    let command: String = args[1].clone();
    let option: Option<String> = if args.len() > 2 {
        Some(args[2].clone())
    } else {
        None
    };
    Some((command, option))
}

} // verus!
