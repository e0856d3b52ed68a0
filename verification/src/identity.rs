//! Identity of registered objects: a fixed category tag plus the
//! user-configured name. Identities key the registries, so they are unique
//! per registry.

use crate::settings::{SinkBaseSettings, SourceBaseSettings};
use vstd::prelude::*;

verus! {

/// The identity of a named object.
pub struct Identity {
    /// Fixed category tag of the registry the object belongs to.
    pub category: &'static str,
    /// User-configured name, unique within its category.
    pub name: String,
}

impl Identity {
    /// An owned copy of this identity.
    pub fn clone_owned(&self) -> (r: Identity)
        ensures
            r == *self,
    {
        Identity { category: self.category, name: self.name.clone() }
    }
}

/// Something that has a name and a category, for categorization and logging.
pub trait Named {
    /// The category tag, as a mathematical sequence.
    spec fn spec_category(&self) -> Seq<char>;

    /// The configured name, as a mathematical sequence.
    spec fn spec_name(&self) -> Seq<char>;

    /// The category tag.
    fn category(&self) -> (r: &'static str)
        ensures
            r@ == self.spec_category(),
    ;

    /// The configured name.
    fn name(&self) -> (r: &str)
        ensures
            r@ == self.spec_name(),
    ;

    /// The full identity: category plus name.
    fn identity(&self) -> (r: Identity)
        ensures
            r.category@ == self.spec_category(),
            r.name@ == self.spec_name(),
    ;
}

impl Named for SinkBaseSettings {
    open spec fn spec_category(&self) -> Seq<char> {
        "sink"@
    }

    open spec fn spec_name(&self) -> Seq<char> {
        self.name@
    }

    fn category(&self) -> (r: &'static str) {
        "sink"
    }

    fn name(&self) -> (r: &str) {
        self.name.as_str()
    }

    fn identity(&self) -> (r: Identity) {
        Identity { category: "sink", name: self.name.clone() }
    }
}

impl Named for SourceBaseSettings {
    open spec fn spec_category(&self) -> Seq<char> {
        "source"@
    }

    open spec fn spec_name(&self) -> Seq<char> {
        self.name@
    }

    fn category(&self) -> (r: &'static str) {
        "source"
    }

    fn name(&self) -> (r: &str) {
        self.name.as_str()
    }

    fn identity(&self) -> (r: Identity) {
        Identity { category: "source", name: self.name.clone() }
    }
}

} // verus!
