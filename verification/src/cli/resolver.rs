//! Arguments that may be given on the command line or asked for interactively.
use vstd::prelude::*;

use crate::text::push_str;

verus! {

/// How a required argument is obtained.
#[derive(Debug, PartialEq, Eq)]
pub enum Requirement<T> {
    /// It was given.
    Provided(T),
    /// It must be asked for.
    Prompt,
    /// It is missing and cannot be asked for; the message says which argument.
    Missing(String),
}

/// `missing required argument <{name}> (running non-interactively)`.
pub open spec fn missing_message(name: Seq<char>) -> Seq<char> {
    "missing required argument <"@ + name + "> (running non-interactively)"@
}

/// The message for a required argument that is missing and cannot be asked for.
pub fn missing_argument_message(name: &str) -> (r: String)
    ensures
        r@ == missing_message(name@),
{
    let mut r = "missing required argument <".to_owned();
    push_str(&mut r, name);
    push_str(&mut r, "> (running non-interactively)");
    r
}

/// A required argument: the given value, else a prompt when interactive, else an error
/// naming the argument.
pub fn require_or_prompt<T>(value: Option<T>, name: &str, interactive: bool) -> (r: Requirement<T>)
    ensures
        match value {
            Some(v) => r == Requirement::Provided(v),
            None => if interactive {
                r == Requirement::<T>::Prompt
            } else {
                r matches Requirement::Missing(m) && m@ == missing_message(name@)
            },
        },
{
    match value {
        Some(v) => Requirement::Provided(v),
        None => if interactive {
            Requirement::Prompt
        } else {
            Requirement::Missing(missing_argument_message(name))
        },
    }
}

/// Whether arguments may be asked for: input is allowed and standard input is a terminal.
pub fn is_interactive(no_input: bool, stdin_is_terminal: bool) -> (r: bool)
    ensures
        r == (!no_input && stdin_is_terminal),
{
    !no_input && stdin_is_terminal
}

} // verus!
