//! Small configuration value types: comma-separated lists, optional
//! values read from possibly empty strings, and the shape of a
//! service-credentials setting.

use crate::dataset::{split_on, split_str};
use crate::mounts::views_of;
use vstd::prelude::*;

verus! {

broadcast use vstd::string::group_string_axioms;

/// A list given as one comma-separated string.
pub struct CommaSepVec(pub Vec<String>);

impl CommaSepVec {
    /// Cut the string at every comma.
    pub fn from_str(s: &str) -> (r: CommaSepVec)
        ensures
            views_of(r.0@) == split_on(s@, ','),
    {
        CommaSepVec(split_str(s, ','))
    }
}

/// A value whose textual form may be empty, meaning absent.
pub struct MaybeEmpty<T>(pub Option<T>);

impl<T> MaybeEmpty<T> {
    pub fn new(value: Option<T>) -> (r: MaybeEmpty<T>)
        ensures
            r.0 == value,
    {
        MaybeEmpty(value)
    }

    pub fn get(&self) -> (r: &Option<T>)
        ensures
            *r == self.0,
    {
        &self.0
    }
}

/// An absent or empty string is an absent value; anything else is the
/// value itself.
pub fn maybe_empty_string(s: &str) -> (r: MaybeEmpty<String>)
    ensures
        s@.len() == 0 ==> r.0 is None,
        s@.len() > 0 ==> (r.0 matches Some(v) && v@ == s@),
{
    if s.is_empty() {
        MaybeEmpty(None)
    } else {
        MaybeEmpty(Some(String::from_str(s)))
    }
}

/// Where service credentials come from: the instance's own identity,
/// or a credentials file.
pub enum GoogleApplicationCredentials {
    Instance,
    Json(String),
}

impl GoogleApplicationCredentials {
    /// An empty setting or the word `instance` means instance
    /// credentials; anything else is a file path.
    pub fn from_setting(s: &str) -> (r: GoogleApplicationCredentials)
        ensures
            s@.len() == 0 || s@ == "instance"@ ==> r is Instance,
            s@.len() > 0 && s@ != "instance"@ ==> (r matches GoogleApplicationCredentials::Json(
                p,
            ) && p@ == s@),
    {
        let instance = String::from_str("instance");
        let own = String::from_str(s);
        if s.is_empty() || own == instance {
            GoogleApplicationCredentials::Instance
        } else {
            GoogleApplicationCredentials::Json(own)
        }
    }
}

} // verus!
