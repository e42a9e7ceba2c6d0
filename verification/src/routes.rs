//! The route protection registry: which paths are protected, and by which
//! scheme.
//!
//! The registry is filled while the routes are put together at startup and
//! only grows: a path can be protected, and the scheme of a protected path
//! can be set anew, but no path is ever released.

use vstd::hash_map::StringHashMap;
use vstd::prelude::*;
use vstd::string::*;

use crate::registry::ValidatorType;

verus! {

/// The protected paths, each with the scheme that guards it.
pub struct RouteProtection {
    bound: StringHashMap<ValidatorType>,
}

impl View for RouteProtection {
    type V = Map<Seq<char>, ValidatorType>;

    closed spec fn view(&self) -> Self::V {
        self.bound@
    }
}

impl RouteProtection {
    /// A registry that protects no path.
    pub fn new() -> (routes: RouteProtection)
        ensures
            routes@ == Map::<Seq<char>, ValidatorType>::empty(),
    {
        RouteProtection { bound: StringHashMap::new() }
    }

    /// Protects `path` by `scheme`. Every path that was protected stays
    /// protected by the scheme it had; `path` itself is from now on guarded
    /// by `scheme`.
    pub fn protect_route(&mut self, path: &str, scheme: ValidatorType)
        ensures
            final(self)@ == old(self)@.insert(path@, scheme),
    {
        self.bound.insert(String::from_str(path), scheme);
    }

    /// The scheme that guards `path`, if the path is protected.
    pub fn binding(&self, path: &str) -> (scheme: Option<ValidatorType>)
        ensures
            scheme == if self@.contains_key(path@) {
                Some(self@[path@])
            } else {
                None
            },
    {
        match self.bound.get(path) {
            Some(scheme) => Some(*scheme),
            None => None,
        }
    }

    /// Whether `path` is protected.
    pub fn is_protected(&self, path: &str) -> (protected: bool)
        ensures
            protected == self@.contains_key(path@),
    {
        self.bound.contains_key(path)
    }
}

} // verus!
