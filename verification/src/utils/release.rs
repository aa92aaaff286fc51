use vstd::prelude::*;

verus! {

/// Words the message of a failure without the text of its cause.
pub fn format_error(error: &str, error_message: &str) -> (s: String)
    ensures
        s@ == error_message@,
{
    String::from_str(error_message)
}

} // verus!
