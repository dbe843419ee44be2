//! The settings keys the preferences surface binds bidirectionally to its
//! three toggles. The keys are bound, not owned: this layer neither stores
//! nor interprets their values.

use vstd::prelude::*;

verus! {

/// The keys, in the order their toggles appear: run-on-startup,
/// sort-descending, start-in-background.
pub fn bound_settings_keys() -> (r: Vec<&'static str>)
    ensures
        r@.len() == 3,
        r@[0]@ == "run-on-startup"@,
        r@[1]@ == "sort-descending"@,
        r@[2]@ == "start-in-background"@,
{
    let mut r: Vec<&'static str> = Vec::new();
    r.push("run-on-startup");
    r.push("sort-descending");
    r.push("start-in-background");
    r
}

} // verus!
