//! The collapsible error list shown above a form: errors accumulate until
//! they are cleared, and a toggle switches between short and detailed text.

use vstd::prelude::*;
use crate::client::Error;

verus! {

/// The errors a form has collected, and whether the detailed rendering is
/// shown.
pub struct ErrorHeader {
    pub errors: Vec<Error>,
    pub debug: bool,
}

impl Default for ErrorHeader {
    /// A fresh header holds no errors and shows the short rendering.
    fn default() -> (r: Self)
        ensures
            r.errors@ =~= Seq::<Error>::empty(),
            !r.debug,
    {
        ErrorHeader { errors: Vec::new(), debug: false }
    }
}

impl ErrorHeader {
    /// Append one error; earlier ones stay in order.
    pub fn push(&mut self, error: Error)
        ensures
            final(self).errors@ == old(self).errors@.push(error),
            final(self).debug == old(self).debug,
    {
        self.errors.push(error);
    }

    /// Drop every collected error.
    pub fn clear(&mut self)
        ensures
            final(self).errors@ =~= Seq::<Error>::empty(),
            final(self).debug == old(self).debug,
    {
        self.errors.clear();
    }
}

} // verus!
