use vstd::prelude::*;

verus! {

/// The message of a failure as debug builds word it: the message, then the
/// text of the error that caused it.
pub open spec fn debug_error_text(error: Seq<char>, error_message: Seq<char>) -> Seq<char> {
    error_message + ", error: "@ + error
}

/// Words the message of a failure together with the text of its cause.
pub fn format_error(error: &str, error_message: &str) -> (s: String)
    ensures
        s@ == debug_error_text(error@, error_message@),
{
    let mut s = String::from_str(error_message);
    s.append(", error: ");
    s.append(error);
    s
}

} // verus!
