//! The parts of a request that authentication reads, as plain values, and
//! the rule by which a named field is found among them.
//!
//! Header names match without regard to the case of ASCII letters, as HTTP
//! asks; query parameter names match letter for letter. Where a name occurs
//! more than once, the first occurrence counts.

use vstd::prelude::*;
use vstd::string::*;

use crate::text::{same_folded, same_name_ignoring_case, same_text, utf8};

verus! {

/// Where a scheme finds its fields.
#[derive(Clone, Copy, Debug, PartialEq, Eq, Structural)]
pub enum ApiKeySource {
    /// In the request headers.
    Header,
    /// In the parameters of the query string.
    Query,
}

/// One header or one query parameter.
#[derive(Debug)]
pub struct Field {
    pub name: String,
    pub value: String,
}

/// The headers and the query parameters of a request, each in the order in
/// which the request carries them.
#[derive(Debug)]
pub struct RequestParts {
    pub headers: Vec<Field>,
    pub query: Vec<Field>,
}

/// Whether a field named `name` answers to `wanted` in `source`.
pub open spec fn name_matches(source: ApiKeySource, name: Seq<char>, wanted: Seq<char>) -> bool {
    match source {
        ApiKeySource::Header => same_folded(utf8(name), utf8(wanted)),
        ApiKeySource::Query => name == wanted,
    }
}

/// The index of the first of the first `upto` fields that answers to
/// `wanted`, if there is one.
pub open spec fn first_match(
    fields: Seq<Field>,
    source: ApiKeySource,
    wanted: Seq<char>,
    upto: int,
) -> Option<int>
    decreases upto,
{
    if upto <= 0 {
        None
    } else {
        match first_match(fields, source, wanted, upto - 1) {
            Some(i) => Some(i),
            None => if name_matches(source, fields[upto - 1].name@, wanted) {
                Some(upto - 1)
            } else {
                None
            },
        }
    }
}

/// The fields of a request that `source` names.
pub open spec fn fields_of(request: RequestParts, source: ApiKeySource) -> Seq<Field> {
    match source {
        ApiKeySource::Header => request.headers@,
        ApiKeySource::Query => request.query@,
    }
}

/// The value of the field `wanted` of a request: that of the first field in
/// `source` that answers to the name.
pub open spec fn field_value(request: RequestParts, source: ApiKeySource, wanted: Seq<char>)
    -> Option<Seq<char>> {
    let fields = fields_of(request, source);
    match first_match(fields, source, wanted, fields.len() as int) {
        Some(i) => Some(fields[i].value@),
        None => None,
    }
}

/// What `first_match` finds is the least index that answers to the name.
pub proof fn lemma_first_match(
    fields: Seq<Field>,
    source: ApiKeySource,
    wanted: Seq<char>,
    upto: int,
)
    requires
        0 <= upto <= fields.len(),
    ensures
        match first_match(fields, source, wanted, upto) {
            Some(i) => {
                &&& 0 <= i < upto
                &&& name_matches(source, fields[i].name@, wanted)
                &&& forall|j: int| 0 <= j < i ==> !name_matches(source, #[trigger] fields[j].name@, wanted)
            },
            None => forall|j: int|
                0 <= j < upto ==> !name_matches(source, #[trigger] fields[j].name@, wanted),
        },
    decreases upto,
{
    if upto > 0 {
        lemma_first_match(fields, source, wanted, upto - 1);
    }
}

impl RequestParts {
    /// A request without headers and without query parameters.
    pub fn new() -> (request: RequestParts)
        ensures
            request.headers@.len() == 0,
            request.query@.len() == 0,
    {
        RequestParts { headers: Vec::new(), query: Vec::new() }
    }

    /// Adds a header after those that the request already has.
    pub fn push_header(&mut self, name: &str, value: &str)
        ensures
            final(self).query@ == old(self).query@,
            final(self).headers@.len() == old(self).headers@.len() + 1,
            final(self).headers@.drop_last() == old(self).headers@,
            final(self).headers@.last().name@ == name@,
            final(self).headers@.last().value@ == value@,
    {
        self.headers.push(Field { name: String::from_str(name), value: String::from_str(value) });
        assert(self.headers@.drop_last() =~= old(self).headers@);
    }

    /// Adds a query parameter after those that the request already has.
    pub fn push_query(&mut self, name: &str, value: &str)
        ensures
            final(self).headers@ == old(self).headers@,
            final(self).query@.len() == old(self).query@.len() + 1,
            final(self).query@.drop_last() == old(self).query@,
            final(self).query@.last().name@ == name@,
            final(self).query@.last().value@ == value@,
    {
        self.query.push(Field { name: String::from_str(name), value: String::from_str(value) });
        assert(self.query@.drop_last() =~= old(self).query@);
    }

    /// The value of the field `wanted` in `source`, if the request has it.
    pub fn field(&self, source: ApiKeySource, wanted: &str) -> (value: Option<&str>)
        ensures
            match value {
                Some(text) => field_value(*self, source, wanted@) == Some(text@),
                None => field_value(*self, source, wanted@) is None,
            },
    {
        let fields: &Vec<Field> = match source {
            ApiKeySource::Header => &self.headers,
            ApiKeySource::Query => &self.query,
        };
        let mut i: usize = 0;
        while i < fields.len()
            invariant
                i <= fields@.len(),
                fields@ == fields_of(*self, source),
                first_match(fields@, source, wanted@, i as int) is None,
            decreases fields@.len() - i,
        {
            let hit = match source {
                ApiKeySource::Header => same_name_ignoring_case(fields[i].name.as_str(), wanted),
                ApiKeySource::Query => same_text(fields[i].name.as_str(), wanted),
            };
            if hit {
                proof {
                    assert(first_match(fields@, source, wanted@, i + 1) == Some(i as int));
                    lemma_found_stays(fields@, source, wanted@, i + 1, fields@.len() as int);
                }
                return Some(fields[i].value.as_str());
            }
            assert(first_match(fields@, source, wanted@, i + 1) is None);
            i = i + 1;
        }
        None
    }
}

/// A match found among the first fields is still the first match when more
/// fields are considered.
proof fn lemma_found_stays(
    fields: Seq<Field>,
    source: ApiKeySource,
    wanted: Seq<char>,
    upto: int,
    more: int,
)
    requires
        0 <= upto <= more,
        first_match(fields, source, wanted, upto) is Some,
    ensures
        first_match(fields, source, wanted, more) == first_match(fields, source, wanted, upto),
    decreases more - upto,
{
    if upto < more {
        lemma_found_stays(fields, source, wanted, upto, more - 1);
    }
}

} // verus!
