//! The endpoint catalogue: one entry for each route that the application
//! serves, with an identifier derived from path and method.

use std::collections::hash_map::DefaultHasher;
use std::hash::Hasher;
use vstd::prelude::*;
use vstd::std_specs::hash::*;
use vstd::std_specs::iter::IteratorSpec;
use vstd::string::*;

use crate::text::{hex_of_u64, hex_u64, utf8};

verus! {

/// What the hasher is fed for a text: its UTF-8 bytes, then the byte `0xff`
/// that ends every hashed string.
pub open spec fn hashed_text(text: Seq<char>) -> Seq<Seq<u8>> {
    seq![utf8(text), seq![0xffu8]]
}

/// The identifier of the endpoint with this path and method: the default
/// hasher's digest of path and method written one after the other, in
/// lower-case hexadecimal without leading zeros.
pub open spec fn endpoint_id(path: Seq<char>, method: Seq<char>) -> Seq<char> {
    hex_of_u64(DefaultHasher::spec_finish(hashed_text(path + method)))
}

/// The identifier of the endpoint with this path and method.
pub fn generate_id(path: &str, method: &str) -> (id: String)
    ensures
        id@ == endpoint_id(path@, method@),
{
    let mut joined = String::from_str(path);
    joined.append(method);
    let mut hasher = DefaultHasher::new();
    let bytes = joined.as_str().as_bytes();
    assert(bytes@ == utf8(path@ + method@));
    hasher.write(bytes);
    let mut end: Vec<u8> = Vec::new();
    end.push(0xff);
    assert(end@ =~= seq![0xffu8]);
    hasher.write(end.as_slice());
    assert(hasher@ =~= hashed_text(path@ + method@));
    hex_u64(hasher.finish())
}

/// The position of the first `/` of `path` at or after `from`, or the
/// length of `path` where there is none.
pub open spec fn next_slash(path: Seq<char>, from: int) -> int
    decreases path.len() - from,
{
    if from < 0 || from >= path.len() {
        path.len() as int
    } else if path[from] == '/' {
        from
    } else {
        next_slash(path, from + 1)
    }
}

/// The resource that a path belongs to: what stands between its first `/`
/// and its second, or after its first where it has no second. A path
/// without `/` belongs to no resource, which is the empty text.
pub open spec fn resource_of_path(path: Seq<char>) -> Seq<char> {
    let first = next_slash(path, 0);
    if first >= path.len() {
        seq![]
    } else {
        path.subrange(first + 1, next_slash(path, first + 1))
    }
}

/// `next_slash` is the position up to which there is no `/`, and at which
/// there is one or the path ends.
proof fn lemma_next_slash(path: Seq<char>, from: int, found: int)
    requires
        0 <= from <= found <= path.len(),
        forall|j: int| from <= j < found ==> #[trigger] path[j] != '/',
        found < path.len() ==> path[found] == '/',
    ensures
        next_slash(path, from) == found,
    decreases found - from,
{
    if from < found {
        assert(path[from] != '/');
        lemma_next_slash(path, from + 1, found);
    }
}

/// The resource that the path belongs to.
pub fn resource_of(path: &str) -> (resource: String)
    ensures
        resource@ == resource_of_path(path@),
{
    broadcast use vstd::string::group_string_axioms;

    let mut resource = String::new();
    let mut slashes: u8 = 0;
    let ghost mut at: int = 0;
    let ghost mut first: int = 0;
    let ghost mut second: int = 0;
    let mut rest = path.chars();
    loop
        invariant
            0 <= at <= path@.len(),
            rest.remaining() == path@.subrange(at, path@.len() as int),
            slashes <= 2,
            slashes == 0 ==> resource@.len() == 0 && forall|j: int|
                0 <= j < at ==> #[trigger] path@[j] != '/',
            slashes >= 1 ==> 0 <= first < at && path@[first] == '/' && forall|j: int|
                0 <= j < first ==> #[trigger] path@[j] != '/',
            slashes == 1 ==> resource@ == path@.subrange(first + 1, at) && forall|j: int|
                first < j < at ==> #[trigger] path@[j] != '/',
            slashes == 2 ==> first < second < at && path@[second] == '/' && resource@
                == path@.subrange(first + 1, second) && forall|j: int|
                first < j < second ==> #[trigger] path@[j] != '/',
        ensures
            at == path@.len(),
        decreases path@.len() - at,
    {
        let ghost before = rest.remaining();
        match rest.next() {
            None => {
                assert(before.len() == 0);
                break ;
            },
            Some(c) => {
                assert(before.len() > 0);
                assert(c == before[0]);
                assert(c == path@[at]);
                assert(rest.remaining() =~= path@.subrange(at + 1, path@.len() as int));
                if slashes == 0 {
                    if c == '/' {
                        slashes = 1;
                        proof {
                            first = at;
                            assert(resource@ =~= path@.subrange(first + 1, at + 1));
                        }
                    }
                } else if slashes == 1 {
                    if c == '/' {
                        slashes = 2;
                        proof {
                            second = at;
                        }
                    } else {
                        crate::text::push_char(&mut resource, c);
                        assert(resource@ =~= path@.subrange(first + 1, at + 1));
                    }
                }
                proof {
                    at = at + 1;
                }
            },
        }
    }
    proof {
        let n = path@.len() as int;
        if slashes == 0 {
            lemma_next_slash(path@, 0, n);
            assert(resource@ =~= resource_of_path(path@));
        } else if slashes == 1 {
            lemma_next_slash(path@, 0, first);
            lemma_next_slash(path@, first + 1, n);
        } else {
            lemma_next_slash(path@, 0, first);
            lemma_next_slash(path@, first + 1, second);
        }
    }
    resource
}

/// One entry of the endpoint catalogue.
#[derive(Debug)]
pub struct Endpoint {
    pub id: String,
    pub path: String,
    pub method: String,
    pub action: String,
    pub resource: String,
    pub controller: String,
    pub summary: Option<String>,
    /// The moment at which the entry was made, in seconds since the epoch.
    pub created_at: u64,
    pub updated_at: Option<u64>,
}

/// One route that the application serves.
#[derive(Debug)]
pub struct CollectedRoute {
    pub path: String,
    pub method: String,
    pub service_name: String,
    pub summary: String,
}

/// Whether `entry` is the catalogue entry of `route`, made at `created_at`:
/// path, method, controller and summary are those of the route, the action
/// is `rw`, and identifier and resource are derived from path and method.
pub open spec fn is_entry_of(entry: Endpoint, route: CollectedRoute, created_at: u64) -> bool {
    &&& entry.id@ == endpoint_id(route.path@, route.method@)
    &&& entry.path@ == route.path@
    &&& entry.method@ == route.method@
    &&& entry.action@ == "rw"@
    &&& entry.resource@ == resource_of_path(route.path@)
    &&& entry.controller@ == route.service_name@
    &&& entry.summary matches Some(text) && text@ == route.summary@
    &&& entry.created_at == created_at
    &&& entry.updated_at is None
}

/// Makes the catalogue entry of a route.
pub fn endpoint_of(route: &CollectedRoute, created_at: u64) -> (entry: Endpoint)
    ensures
        is_entry_of(entry, *route, created_at),
{
    Endpoint {
        id: generate_id(route.path.as_str(), route.method.as_str()),
        path: route.path.clone(),
        method: route.method.clone(),
        action: String::from_str("rw"),
        resource: resource_of(route.path.as_str()),
        controller: route.service_name.clone(),
        summary: Some(route.summary.clone()),
        created_at,
        updated_at: None,
    }
}

/// Makes the catalogue entries of all routes, in their order.
pub fn process_collected_routes(routes: &Vec<CollectedRoute>, created_at: u64) -> (entries: Vec<
    Endpoint,
>)
    ensures
        entries@.len() == routes@.len(),
        forall|i: int|
            0 <= i < routes@.len() ==> is_entry_of(#[trigger] entries@[i], routes@[i], created_at),
{
    let mut entries: Vec<Endpoint> = Vec::new();
    let mut i: usize = 0;
    while i < routes.len()
        invariant
            i <= routes@.len(),
            entries@.len() == i,
            forall|j: int|
                0 <= j < i ==> is_entry_of(#[trigger] entries@[j], routes@[j], created_at),
        decreases routes@.len() - i,
    {
        entries.push(endpoint_of(&routes[i], created_at));
        i = i + 1;
    }
    entries
}

} // verus!
