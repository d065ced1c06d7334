//! The resolved behavior for a lookup key.

use vstd::prelude::*;

verus! {

/// What to do for a resolved key: build an outward redirect from an opaque
/// destination string, or serve the entry stored under another (normalized)
/// key.
#[derive(Clone, Debug, PartialEq, Eq)]
pub enum Action {
    /// Redirect to the page of the named person. The carried string is the
    /// canonical name as it was written in the configuration, so the serving
    /// layer can build the outward-facing redirect path from it.
    Redirect(String),
    /// Serve as the person stored under the carried normalized key.
    Resolve(String),
}

/// The mathematical value of an [`Action`]: the same two variants over
/// character sequences.
pub ghost enum ActionView {
    Redirect(Seq<char>),
    Resolve(Seq<char>),
}

impl View for Action {
    type V = ActionView;

    open spec fn view(&self) -> ActionView {
        match self {
            Action::Redirect(s) => ActionView::Redirect(s@),
            Action::Resolve(s) => ActionView::Resolve(s@),
        }
    }
}

impl Action {
    /// An owned copy with the same value.
    pub fn duplicate(&self) -> (r: Action)
        ensures
            r@ == self@,
    {
        match self {
            Action::Redirect(s) => Action::Redirect(s.clone()),
            Action::Resolve(s) => Action::Resolve(s.clone()),
        }
    }
}

} // verus!
