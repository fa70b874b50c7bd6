//! Connection profiles and the configuration they come from.
//!
//! The configuration file itself is read and parsed elsewhere; this
//! module receives its contents as plain values — the default profile
//! name, the ordered list of named profiles, and the poll interval —
//! and builds the immutable [`Config`] the session runs on. Load order
//! is preserved as the profiles' index assignment.

use vstd::prelude::*;

verus! {

/// A named server connection: base URL and bearer token, at a fixed
/// position in the profile list.
#[derive(Debug)]
pub struct Profile {
    pub index: usize,
    pub name: String,
    pub url: String,
    pub token: String,
}

pub struct ProfileV {
    pub index: usize,
    pub name: Seq<char>,
    pub url: Seq<char>,
    pub token: Seq<char>,
}

impl DeepView for Profile {
    type V = ProfileV;

    open spec fn deep_view(&self) -> ProfileV {
        ProfileV {
            index: self.index,
            name: self.name@,
            url: self.url@,
            token: self.token@,
        }
    }
}

impl Clone for Profile {
    fn clone(&self) -> (r: Self)
        ensures
            r.deep_view() == self.deep_view(),
    {
        Profile {
            index: self.index,
            name: self.name.clone(),
            url: self.url.clone(),
            token: self.token.clone(),
        }
    }
}

/// The read-only configuration of one run: an ordered, densely indexed
/// profile list, the name of the default profile, and the poll
/// interval in seconds.
#[derive(Debug)]
pub struct Config {
    pub default: String,
    pub profiles: Vec<Profile>,
    pub fetch_interval: i64,
}

/// Profiles carry their own position: the list is a dense array.
pub open spec fn config_wf(c: Config) -> bool {
    forall|i: int| 0 <= i < c.profiles@.len() ==> (#[trigger] c.profiles@[i]).index == i
}

impl Default for Config {
    fn default() -> (r: Config)
        ensures
            r.default@.len() == 0,
            r.profiles@.len() == 0,
            r.fetch_interval == 5,
            config_wf(r),
    {
        Config { default: String::new(), profiles: Vec::new(), fetch_interval: 5 }
    }
}

/// The poll interval in seconds: as configured when present, 5 otherwise.
pub open spec fn spec_interval(fetch_interval: Option<i64>) -> i64 {
    match fetch_interval {
        Some(n) => n,
        None => 5,
    }
}

impl Config {
    /// Builds the configuration from what the file loader produced:
    /// the default profile name, `(name, url, token)` entries in file
    /// order, and the poll interval if the file named one.
    pub fn from_parts(
        default: String,
        entries: Vec<(String, String, String)>,
        fetch_interval: Option<i64>,
    ) -> (r: Config)
        ensures
            r.default@ == default@,
            r.fetch_interval == spec_interval(fetch_interval),
            r.profiles@.len() == entries@.len(),
            forall|i: int|
                0 <= i < entries@.len() ==> {
                    let p = #[trigger] r.profiles@[i];
                    &&& p.index == i
                    &&& p.name@ == entries@[i].0@
                    &&& p.url@ == entries@[i].1@
                    &&& p.token@ == entries@[i].2@
                },
            config_wf(r),
    {
        let interval: i64 = match fetch_interval {
            Some(n) => n,
            None => 5,
        };
        let mut profiles: Vec<Profile> = Vec::new();
        let mut i: usize = 0;
        while i < entries.len()
            invariant
                i <= entries@.len(),
                profiles@.len() == i,
                forall|j: int|
                    0 <= j < i ==> {
                        let p = #[trigger] profiles@[j];
                        &&& p.index == j
                        &&& p.name@ == entries@[j].0@
                        &&& p.url@ == entries@[j].1@
                        &&& p.token@ == entries@[j].2@
                    },
            decreases entries@.len() - i,
        {
            let entry = &entries[i];
            profiles.push(
                Profile {
                    index: i,
                    name: entry.0.clone(),
                    url: entry.1.clone(),
                    token: entry.2.clone(),
                },
            );
            i = i + 1;
        }
        Config { default, profiles, fetch_interval: interval }
    }
}

/// The position of the first profile of the given name, scanning from
/// position `i`.
pub open spec fn spec_find_from(profiles: Seq<Profile>, name: Seq<char>, i: int) -> Option<int>
    decreases profiles.len() - i,
{
    if i < 0 || i >= profiles.len() {
        None
    } else if profiles[i].name@ == name {
        Some(i)
    } else {
        spec_find_from(profiles, name, i + 1)
    }
}

/// The position of the first profile of the given name.
pub open spec fn spec_find_profile(profiles: Seq<Profile>, name: Seq<char>) -> Option<int> {
    spec_find_from(profiles, name, 0)
}

pub(crate) fn find_by_name(profiles: &Vec<Profile>, name: &String) -> (r: Option<usize>)
    ensures
        match r {
            Some(i) => spec_find_profile(profiles@, name@) == Some(i as int) && i
                < profiles@.len(),
            None => spec_find_profile(profiles@, name@) is None,
        },
{
    let mut i: usize = 0;
    while i < profiles.len()
        invariant
            i <= profiles@.len(),
            spec_find_profile(profiles@, name@) == spec_find_from(profiles@, name@, i as int),
        decreases profiles@.len() - i,
    {
        if profiles[i].name == *name {
            return Some(i);
        }
        i = i + 1;
    }
    None
}

} // verus!
