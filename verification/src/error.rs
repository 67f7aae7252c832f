//! Why a rewrite can be refused.

use vstd::prelude::*;
use vstd::string::StringExecFns;

verus! {

/// A declaration that the rewrite cannot wrap.
#[derive(Debug, PartialEq, Eq)]
pub enum RewriteError {
    /// Parameter `index` of foreign function `function` is bound by something
    /// other than one name, so no call can hand it on.
    UnsupportedPattern { function: String, index: usize },
}

/// An error, with the function's name as a sequence of characters.
pub enum RewriteErrorView {
    UnsupportedPattern { function: Seq<char>, index: int },
}

impl View for RewriteError {
    type V = RewriteErrorView;

    open spec fn view(&self) -> RewriteErrorView {
        match *self {
            RewriteError::UnsupportedPattern { function, index } => {
                RewriteErrorView::UnsupportedPattern { function: function@, index: index as int }
            },
        }
    }
}

impl Clone for RewriteError {
    fn clone(&self) -> (out: Self)
        ensures
            out@ == self@,
    {
        match self {
            RewriteError::UnsupportedPattern { function, index } => {
                RewriteError::UnsupportedPattern { function: function.clone(), index: *index }
            },
        }
    }
}

impl RewriteError {
    /// The diagnostic for this error, naming the function at fault.
    pub fn message(&self) -> (out: String)
        ensures
            out@ == "unsupported parameter pattern in foreign function "@ + self@->function,
    {
        match self {
            RewriteError::UnsupportedPattern { function, index: _ } => {
                String::from_str("unsupported parameter pattern in foreign function ").concat(
                    function.as_str(),
                )
            },
        }
    }
}

} // verus!
