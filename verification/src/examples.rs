//! One task, four ways: keep a value and hand back a view of it.

use crate::constraints::ConstIndex;
use crate::sandbox::Sandboxed;
use vstd::prelude::*;

verus! {

/// A growing record of strings.
pub struct Example {
    pub values: Vec<String>,
}

impl Example {
    /// Appends `value` and returns it as a string slice. The lookup of the
    /// last value cannot fail here, but only the order of the two lines above
    /// it says so.
    pub fn save_and_reference_panicking(&mut self, value: String) -> (saved: &str)
        ensures
            saved@ == value@,
            final(self).values@ == old(self).values@.push(value),
    {
        self.values.push(value);
        self.values.last().expect("value should always exist").as_str()
    }

    /// Appends `value` and returns it as a string slice. The fallback is
    /// never taken.
    pub fn save_and_reference_defaulting(&mut self, value: String) -> (saved: &str)
        ensures
            saved@ == value@,
            final(self).values@ == old(self).values@.push(value),
    {
        self.values.push(value);
        match self.values.last() {
            Some(last) => last.as_str(),
            None => "err",
        }
    }

    /// Appends `value` and returns it as a string slice, wrapped in an option
    /// that is never `None`.
    pub fn save_and_reference_deferring(&mut self, value: String) -> (saved: Option<&str>)
        ensures
            saved matches Some(slice) && slice@ == value@,
            final(self).values@ == old(self).values@.push(value),
    {
        self.values.push(value);
        match self.values.last() {
            Some(last) => Some(last.as_str()),
            None => None,
        }
    }

    /// Appends `value` and returns it as a string slice. The push is what
    /// permits the access to the last value.
    pub fn save_and_reference_sandboxed(&mut self, value: String) -> (saved: &str)
        ensures
            saved@ == value@,
            final(self).values@ == old(self).values@.push(value),
    {
        self.values.sandboxed().push(value).release_get(ConstIndex::new(-1)).as_str()
    }
}

} // verus!
