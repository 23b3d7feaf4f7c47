//! An assignment as a file describes it: preferences and named tests.

use preferences::Preferences;
use std::collections::BTreeMap;
use test::Test;
use vstd::prelude::*;

pub mod preferences;
pub mod test;

verus! {

#[derive(Debug)]
pub struct Assignment {
    pub preferences: Preferences,
    pub tests: BTreeMap<String, Test>,
}

impl Assignment {
    /// The description in the preferences, if there is one.
    pub fn get_description(&self) -> (description: Option<String>)
        ensures
            description == self.preferences.description,
    {
        self.preferences.description.clone()
    }

    /// The time limit in the preferences, in seconds, if there is one.
    pub fn get_timeout(&self) -> (timeout: Option<u64>)
        ensures
            timeout == self.preferences.timeout,
    {
        self.preferences.timeout
    }
}

} // verus!
