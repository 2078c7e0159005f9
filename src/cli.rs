//! What an invocation asks for, and whether its input may be read.

use crate::ConvertError;
use vstd::prelude::*;

verus! {

/// What an invocation asks for, given its arguments.
#[derive(Clone, Debug, PartialEq, Eq)]
pub enum Command {
    /// No argument: show how the tool is used.
    Usage,
    /// More than one argument: refuse.
    TooManyArguments,
    /// One argument: convert the file it names.
    Convert(String),
}

/// Decides what to do from the arguments that follow the program name.
pub fn command_for_args(args: &Vec<String>) -> (r: Command)
    ensures
        args@.len() == 0 <==> r is Usage,
        args@.len() >= 2 <==> r is TooManyArguments,
        args@.len() == 1 <==> r is Convert,
        r is Convert ==> r->Convert_0@ == args@[0]@,
{
    if args.len() == 0 {
        Command::Usage
    } else if args.len() >= 2 {
        Command::TooManyArguments
    } else {
        Command::Convert(args[0].clone())
    }
}

/// Checks what the input path names: an entry that must exist and must be
/// a regular file.
pub fn check_input_entry(exists: bool, is_file: bool) -> (r: Result<(), ConvertError>)
    ensures
        !exists ==> r == Err::<(), ConvertError>(ConvertError::NotFound),
        exists && !is_file ==> r == Err::<(), ConvertError>(ConvertError::NotAFile),
        exists && is_file ==> r is Ok,
{
    if !exists {
        Err(ConvertError::NotFound)
    } else if !is_file {
        Err(ConvertError::NotAFile)
    } else {
        Ok(())
    }
}

} // verus!
