//! Listing the configured payloads.
use vstd::prelude::*;
use crate::config::Payload;
use crate::text::{lower_of, lowercase, str_eq};

verus! {

/// Which payloads a listing covers.
#[derive(Debug, PartialEq, Eq, Structural, Clone, Copy)]
pub enum ListingScope {
    /// The payloads in effect.
    Effective,
    /// Every configured payload.
    All,
}

/// The scope a name selects, ignoring case; `effective` by default.
pub open spec fn scope_of(s: Option<Seq<char>>) -> ListingScope {
    match s {
        Some(name) => if lower_of(name) == "all"@ {
            ListingScope::All
        } else {
            ListingScope::Effective
        },
        None => ListingScope::Effective,
    }
}

impl ListingScope {
    /// The scope an already lower-cased name selects.
    pub fn from_lowercase_name(name: &str) -> (r: ListingScope)
        ensures
            r == (if name@ == "all"@ {
                ListingScope::All
            } else {
                ListingScope::Effective
            }),
    {
        if str_eq(name, "all") {
            ListingScope::All
        } else {
            ListingScope::Effective
        }
    }

    pub fn from(s: &Option<String>) -> (r: ListingScope)
        ensures
            r == scope_of(
                match *s {
                    Some(x) => Some(x@),
                    None => None,
                },
            ),
    {
        match s {
            Some(name) => {
                let lower = lowercase(name.as_str());
                ListingScope::from_lowercase_name(lower.as_str())
            },
            None => ListingScope::Effective,
        }
    }
}

/// The ids of the payloads in `scope`, in configuration order. Every
/// configured payload is in effect, so both scopes list them all.
pub fn get_listing(payloads: &[Payload], scope: ListingScope) -> (r: Vec<String>)
    ensures
        r@.len() == payloads@.len(),
        forall|i: int| 0 <= i < payloads@.len() ==> #[trigger] r@[i] == payloads@[i].id,
{
    let mut out: Vec<String> = Vec::new();
    let mut i: usize = 0;
    while i < payloads.len()
        invariant
            i <= payloads@.len(),
            out@.len() == i,
            forall|k: int| 0 <= k < i ==> #[trigger] out@[k] == payloads@[k].id,
        decreases payloads@.len() - i,
    {
        out.push(payloads[i].id.clone());
        i += 1;
    }
    out
}

} // verus!
