//! The scope token and the function that opens a scope.

use std::marker::PhantomData;
use std::rc::Rc;
use vstd::prelude::*;
use vstd::string::StringExecFns;

verus! {

/// Zero-sized token certifying that local storage may be read directly for the
/// duration of `'a`.
///
/// Only [`local_scope`] makes one. The marker field stands for an `Rc`, so the
/// token is neither `Send` nor `Sync` and stays on the thread that opened the
/// scope; within that thread it is freely copied.
#[derive(Clone, Copy)]
pub struct LocalScope<'a> {
    confined: PhantomData<Rc<&'a ()>>,
}

impl<'a> LocalScope<'a> {
    /// The fixed label under which a token shows in diagnostics.
    pub open spec fn debug_view() -> Seq<char> {
        "ThreadLocalScope"@
    }

    /// The token, as a value. It has no state, so there is only this one.
    pub closed spec fn token() -> Self {
        LocalScope { confined: PhantomData }
    }

    /// A token carries no state: every token is the value [`LocalScope::token`],
    /// so any two are equal.
    pub proof fn lemma_stateless(self, other: LocalScope<'a>)
        ensures
            self == Self::token(),
            self == other,
    {
    }

    /// Renders the token for diagnostics: the fixed label, nothing else.
    pub fn debug_text(&self) -> (text: String)
        ensures
            text@ == Self::debug_view(),
    {
        String::from_str("ThreadLocalScope")
    }
}

/// Opens a scope bound to this call: `f` runs exactly once, with the token of
/// the new scope, and what it returns is handed back.
///
/// `f` has to accept a token of any lifetime, so neither the token nor a
/// reference obtained through it can be part of the result.
pub fn local_scope<F, R>(f: F) -> (r: R) where F: for<'a> FnOnce(LocalScope<'a>) -> R
    requires
        call_requires(f, (LocalScope::token(),)),
    ensures
        call_ensures(f, (LocalScope::token(),), r),
{
    f(LocalScope { confined: PhantomData })
}

} // verus!
