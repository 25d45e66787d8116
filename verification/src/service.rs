//! The service-level catalog contract.
//!
//! A catalog binds a closed set of connector variants into one dispatchable
//! value: `get_items` enumerates the display names of the registered members,
//! and `construct` turns one of those names back into a member, refusing any
//! other string with a recoverable [`UnknownVariant`] error.

use vstd::prelude::*;
use crate::resource::{resource_names, ResourceType};

verus! {

/// Error for a name that no catalog member carries; `construct` reports it to
/// the caller instead of aborting.
#[derive(Debug)]
pub struct UnknownVariant {
    /// The name that was looked up.
    pub name: String,
}

/// The character sequences of a sequence of strings.
pub open spec fn names_view(names: Seq<String>) -> Seq<Seq<char>> {
    names.map_values(|s: String| s@)
}

/// Compares two string slices by their characters.
pub fn str_eq(a: &str, b: &str) -> (r: bool)
    ensures
        r == (a@ == b@),
{
    let owned_a = a.to_owned();
    let owned_b = b.to_owned();
    owned_a == owned_b
}

/// A catalog kind: a closed set of named members. `spec_items` fixes the
/// display names; `get_items` enumerates them in that order.
pub trait GetItems: Sized {
    /// The display names of the registered members, in display order.
    spec fn spec_items() -> Seq<Seq<char>>;

    /// Enumerates the display names of the registered members.
    fn get_items() -> (names: Vec<String>)
        ensures
            names_view(names@) == Self::spec_items(),
    ;
}

/// Name-to-instance construction over a catalog kind.
pub trait Construct: GetItems {
    /// The member a name denotes, if the name is registered.
    spec fn spec_construct(name: Seq<char>) -> Option<Self>;

    /// Law: a name denotes a member exactly when it is one of the registered
    /// display names.
    proof fn lemma_construct_names(name: Seq<char>)
        ensures
            (Self::spec_construct(name) is Some) <==> Self::spec_items().contains(name),
    ;

    /// Builds the member the name denotes; any other string is refused with
    /// `UnknownVariant`, never by aborting.
    fn construct(name: &str) -> (result: Result<Self, UnknownVariant>)
        ensures
            (match result {
                Ok(member) => Self::spec_construct(name@) == Some(member),
                Err(e) => Self::spec_construct(name@) is None && e.name@ == name@,
            }),
    ;
}

/// A service-level catalog member: it can also name the resource kinds it
/// owns.
pub trait ServiceKind: Construct {
    /// The display names of the resource kinds the member owns.
    spec fn spec_resources(&self) -> Seq<Seq<char>>;

    /// Enumerates the resource kinds this service owns.
    fn get_resources(&self) -> (kinds: Vec<ResourceType>)
        ensures
            resource_names(kinds@) == self.spec_resources(),
    ;
}

} // verus!
