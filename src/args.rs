//! The macro's configuration tokens.
use vstd::prelude::*;
use vstd::string::StringExecFns;
use crate::expand::{ExpandError, RecursionArgs};

verus! {

/// The tokens are exactly `?Send`: the opt-out from the `Send` bound.
pub open spec fn is_opt_out(tokens: Seq<String>) -> bool {
    tokens.len() == 2 && tokens[0]@ == "?"@ && tokens[1]@ == "Send"@
}

/// The tokens are a configuration that the macro accepts.
pub open spec fn args_ok(tokens: Seq<String>) -> bool {
    tokens.len() == 0 || is_opt_out(tokens)
}

/// Reads the macro's arguments, given as the text of each token: none gives
/// a `Send` future, `?Send` one without that bound; anything else is refused.
pub fn parse_args(tokens: &Vec<String>) -> (r: Result<RecursionArgs, ExpandError>)
    ensures
        tokens@.len() == 0 ==> r == Ok::<RecursionArgs, ExpandError>(RecursionArgs { send_bound: true }),
        is_opt_out(tokens@) ==> r == Ok::<RecursionArgs, ExpandError>(RecursionArgs { send_bound: false }),
        !args_ok(tokens@) ==> r == Err::<RecursionArgs, ExpandError>(ExpandError::BadArguments),
{
    if tokens.len() == 0 {
        return Ok(RecursionArgs { send_bound: true });
    }
    proof {
        reveal_strlit("?");
        reveal_strlit("Send");
    }
    if tokens.len() == 2 && tokens[0] == String::from_str("?") && tokens[1] == String::from_str(
        "Send",
    ) {
        Ok(RecursionArgs { send_bound: false })
    } else {
        Err(ExpandError::BadArguments)
    }
}

} // verus!
