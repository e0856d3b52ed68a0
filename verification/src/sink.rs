//! Sinks: power-controllable devices. This module holds the admission rule
//! deciding which sources may trigger a sink, and the kind-specific sink
//! option types in its submodules.

pub mod hs100;
pub mod kodi_rpc_cec;
pub mod simple_post_api;
pub mod snmpv2;

use crate::settings::SinkBaseSettings;
use vstd::prelude::*;

verus! {

/// Whether a name appears in a list of names, compared by contents.
pub open spec fn list_contains(list: Seq<String>, name: Seq<char>) -> bool {
    exists|i: int| 0 <= i < list.len() && list[i]@ == name
}

/// The sink admission rule as a pure function of the source name, the
/// whitelist and the blacklist: a blacklisted name is rejected; else, when a
/// whitelist exists, only its names are admitted; else every name is
/// admitted.
pub open spec fn spec_admits(
    whitelist: Option<Vec<String>>,
    blacklist: Option<Vec<String>>,
    source_name: Seq<char>,
) -> bool {
    &&& match blacklist {
        Some(bl) => !list_contains(bl@, source_name),
        None => true,
    }
    &&& match whitelist {
        Some(wl) => list_contains(wl@, source_name),
        None => true,
    }
}

/// Whether a name appears in a list of names, compared by contents.
fn list_contains_name(list: &Vec<String>, name: &String) -> (r: bool)
    ensures
        r == list_contains(list@, name@),
{
    let mut i: usize = 0;
    while i < list.len()
        invariant
            i <= list.len(),
            forall|k: int| 0 <= k < i ==> list@[k]@ != name@,
        decreases list.len() - i,
    {
        if list[i] == *name {
            proof {
                assert(0 <= i < list@.len() && list@[i as int]@ == name@);
            }
            return true;
        }
        i = i + 1;
    }
    false
}

impl SinkBaseSettings {
    /// The admission rule applied to this sink's filters.
    pub open spec fn spec_allows_source_for_on(&self, source_name: Seq<char>) -> bool {
        spec_admits(self.on_source_whitelist, self.on_source_blacklist, source_name)
    }

    /// Decides whether an on event of the named source may trigger this
    /// sink, per the admission rule.
    pub fn allows_source_for_on(&self, source_name: &String) -> (r: bool)
        ensures
            r == self.spec_allows_source_for_on(source_name@),
    {
        let blacklisted = match &self.on_source_blacklist {
            Some(blacklist) => list_contains_name(blacklist, source_name),
            None => false,
        };
        if blacklisted {
            return false;
        }

        match &self.on_source_whitelist {
            Some(whitelist) => list_contains_name(whitelist, source_name),
            None => true,
        }
    }
}

/// Sink admission is a pure function of the source name and the two filter
/// lists, and the four filter combinations behave as follows: with no
/// filters every source is admitted; a blacklist alone excludes exactly its
/// names; a whitelist alone admits exactly its names; with both present the
/// blacklist wins, so a name on both lists is rejected.
pub proof fn lemma_admission_cases(
    whitelist: Option<Vec<String>>,
    blacklist: Option<Vec<String>>,
    name: Seq<char>,
)
    ensures
        whitelist is None && blacklist is None ==> spec_admits(whitelist, blacklist, name),
        whitelist is None && blacklist is Some ==> spec_admits(whitelist, blacklist, name)
            == !list_contains(blacklist.unwrap()@, name),
        whitelist is Some && blacklist is None ==> spec_admits(whitelist, blacklist, name)
            == list_contains(whitelist.unwrap()@, name),
        whitelist is Some && blacklist is Some ==> spec_admits(whitelist, blacklist, name) == (
        list_contains(whitelist.unwrap()@, name) && !list_contains(blacklist.unwrap()@, name)),
        blacklist is Some && list_contains(blacklist.unwrap()@, name) ==> !spec_admits(
            whitelist,
            blacklist,
            name,
        ),
{
}

} // verus!
