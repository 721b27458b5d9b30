//! The call into the `shellexpand` crate.

use vstd::prelude::*;
use crate::error::KicadError;

verus! {

/// Whether a text begins with a tilde that stands for the home directory:
/// one that is alone or stands before a slash or a backslash.
pub open spec fn names_home(text: Seq<char>) -> bool {
    text.len() > 0 && text[0] == '~' && (text.len() == 1 || text[1] == '/' || text[1] == '\\')
}

/// Whether a text holds nothing that an expansion replaces: no `$`, and no
/// tilde at its start that stands for the home directory.
pub open spec fn is_plain(text: Seq<char>) -> bool {
    !text.contains('$') && !names_home(text)
}

/// Calls `shellexpand::full`, which replaces a leading tilde by the home
/// directory and `$NAME` or `${NAME}` by the value of that variable of the
/// process's environment.  On failure the crate names the variable and the
/// cause; both are handed on as text.  What a variable or the tilde is
/// replaced by depends on the environment, and nothing is claimed of it.
/// Claimed is what the crate does whatever the environment holds: it looks
/// variables up only where the text has a `$`, so that a text without one
/// never fails; and it returns a text unchanged that has no `$` and no
/// tilde at its start that stands alone or before a slash (or, on Windows,
/// a backslash).
#[verifier::external_body]
pub(crate) fn expand_full(text: &str) -> (r: Result<String, (String, String)>)
    ensures
        match r {
            Ok(s) => is_plain(text@) ==> s@ == text@,
            Err(_) => text@.contains('$'),
        },
{
    match shellexpand::full(text) {
        Ok(s) => Ok(s.into_owned()),
        Err(e) => Err((e.var_name, e.cause.to_string())),
    }
}

/// What an expansion's outcome means to the library: the expanded text, or
/// the error that names the variable and the cause.
pub fn expansion(outcome: Result<String, (String, String)>) -> (r: Result<String, KicadError>)
    ensures
        match outcome {
            Ok(s) => r == Ok::<String, KicadError>(s),
            Err((variable, cause)) => r == Err::<String, KicadError>(KicadError::Expand { variable, cause }),
        },
{
    match outcome {
        Ok(s) => Ok(s),
        Err((variable, cause)) => Err(KicadError::Expand { variable, cause }),
    }
}

} // verus!
