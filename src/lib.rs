//! Rewrites a recursive `async fn` into one returning a pinned, boxed
//! future, which recursive calls can await.
use vstd::prelude::*;

pub mod args;
pub mod expand;
pub mod item;
pub mod laws;
pub mod render;

use crate::args::{args_ok, is_opt_out, parse_args};
use crate::expand::{expand, expanded, ExpandError};
use crate::item::AsyncItem;
use crate::render::{item_text, render};

verus! {

/// The whole rewrite: reads the arguments (the text of each token), rewrites
/// the definition, and returns the text of the result.
pub fn async_recursion(args: &Vec<String>, item: AsyncItem) -> (r: Result<String, ExpandError>)
    ensures
        !args_ok(args@) ==> r == Err::<String, ExpandError>(ExpandError::BadArguments),
        args_ok(args@) && !item.is_async ==> r == Err::<String, ExpandError>(ExpandError::NotAsync),
        args_ok(args@) && item.is_async ==> r is Ok && exists|new: AsyncItem|
            expanded(item, new, !is_opt_out(args@)) && r->Ok_0@ == #[trigger] item_text(new),
{
    let config = match parse_args(args) {
        Ok(c) => c,
        Err(e) => return Err(e),
    };
    let mut item = item;
    match expand(&mut item, &config) {
        Ok(()) => Ok(render(&item)),
        Err(e) => Err(e),
    }
}

} // verus!
