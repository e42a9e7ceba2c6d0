//! The key registry: the API-key credentials that request authentication knows, by scheme
//! and identifier.
//!
//! A registry is an ordinary value, made once at startup and handed to
//! whoever needs it. Reading takes `&self`, so any number of readers may
//! share it; writing takes `&mut self`.

use vstd::hash_map::StringHashMap;
use vstd::prelude::*;
use vstd::string::*;

verus! {

/// The two signature schemes.
#[derive(Clone, Copy, Debug, PartialEq, Eq, Structural)]
pub enum ValidatorType {
    /// The request carries a token, and the token is on the allow-list.
    Simple,
    /// The request carries identifier, timestamp, nonce and a signature made
    /// with the identifier's secret.
    Complex,
}

/// One credential. Within a scheme an identifier names at most one record.
/// The complex scheme needs the secret; the simple scheme ignores it.
#[derive(Debug)]
pub struct ApiKeyRecord {
    pub identifier: String,
    pub secret: Option<String>,
    pub scheme: ValidatorType,
}

/// The characters of an optional text.
pub open spec fn text_of(value: Option<String>) -> Option<Seq<char>> {
    match value {
        Some(text) => Some(text@),
        None => None,
    }
}

/// The characters of an optional borrowed text.
pub open spec fn text_of_str(value: Option<&str>) -> Option<Seq<char>> {
    match value {
        Some(text) => Some(text@),
        None => None,
    }
}

/// The registry. Its view maps scheme and identifier to the secret that was
/// registered with them, if one was.
pub struct KeyRegistry {
    simple: StringHashMap<Option<String>>,
    complex: StringHashMap<Option<String>>,
}

impl View for KeyRegistry {
    type V = Map<(ValidatorType, Seq<char>), Option<Seq<char>>>;

    closed spec fn view(&self) -> Self::V {
        Map::new(
            |key: (ValidatorType, Seq<char>)|
                match key.0 {
                    ValidatorType::Simple => self.simple@.contains_key(key.1),
                    ValidatorType::Complex => self.complex@.contains_key(key.1),
                },
            |key: (ValidatorType, Seq<char>)|
                match key.0 {
                    ValidatorType::Simple => text_of(self.simple@[key.1]),
                    ValidatorType::Complex => text_of(self.complex@[key.1]),
                },
        )
    }
}

impl KeyRegistry {
    /// A registry that knows no key.
    pub fn new() -> (registry: KeyRegistry)
        ensures
            registry@ == Map::<(ValidatorType, Seq<char>), Option<Seq<char>>>::empty(),
    {
        let registry = KeyRegistry { simple: StringHashMap::new(), complex: StringHashMap::new() };
        assert(registry@ =~= Map::<(ValidatorType, Seq<char>), Option<Seq<char>>>::empty());
        registry
    }

    /// Registers a credential. A record that the scheme already holds for
    /// the identifier is replaced, which is how a secret is rotated.
    pub fn add_key(&mut self, scheme: ValidatorType, identifier: &str, secret: Option<&str>)
        ensures
            final(self)@ == old(self)@.insert((scheme, identifier@), text_of_str(secret)),
    {
        let owned: Option<String> = match secret {
            Some(text) => Some(String::from_str(text)),
            None => None,
        };
        match scheme {
            ValidatorType::Simple => {
                self.simple.insert(String::from_str(identifier), owned);
            },
            ValidatorType::Complex => {
                self.complex.insert(String::from_str(identifier), owned);
            },
        }
        assert(self@ =~= old(self)@.insert((scheme, identifier@), text_of_str(secret)));
    }

    /// Forgets the record that the scheme holds for the identifier, and
    /// tells whether there was one.
    pub fn remove_key(&mut self, scheme: ValidatorType, identifier: &str) -> (removed: bool)
        ensures
            removed == old(self)@.contains_key((scheme, identifier@)),
            final(self)@ == old(self)@.remove((scheme, identifier@)),
    {
        let removed = self.contains(scheme, identifier);
        match scheme {
            ValidatorType::Simple => {
                self.simple.remove(identifier);
            },
            ValidatorType::Complex => {
                self.complex.remove(identifier);
            },
        }
        assert(self@ =~= old(self)@.remove((scheme, identifier@)));
        removed
    }

    /// Whether the scheme holds a record for the identifier.
    pub fn contains(&self, scheme: ValidatorType, identifier: &str) -> (known: bool)
        ensures
            known == self@.contains_key((scheme, identifier@)),
    {
        match scheme {
            ValidatorType::Simple => self.simple.contains_key(identifier),
            ValidatorType::Complex => self.complex.contains_key(identifier),
        }
    }

    /// The secret registered for the identifier under the scheme: `None`
    /// when the scheme holds no record for it, or a record without secret.
    pub fn secret_of(&self, scheme: ValidatorType, identifier: &str) -> (secret: Option<&String>)
        ensures
            match secret {
                Some(text) => self@.contains_key((scheme, identifier@)) && self@[(
                    scheme,
                    identifier@,
                )] == Some(text@),
                None => !self@.contains_key((scheme, identifier@)) || self@[(scheme, identifier@)]
                    is None,
            },
    {
        let found = match scheme {
            ValidatorType::Simple => self.simple.get(identifier),
            ValidatorType::Complex => self.complex.get(identifier),
        };
        match found {
            Some(entry) => match entry {
                Some(text) => Some(text),
                None => None,
            },
            None => None,
        }
    }

    /// The record that the scheme holds for the identifier, if any.
    pub fn lookup(&self, scheme: ValidatorType, identifier: &str) -> (record: Option<ApiKeyRecord>)
        ensures
            match record {
                Some(found) => {
                    &&& self@.contains_key((scheme, identifier@))
                    &&& found.identifier@ == identifier@
                    &&& found.scheme == scheme
                    &&& text_of(found.secret) == self@[(scheme, identifier@)]
                },
                None => !self@.contains_key((scheme, identifier@)),
            },
    {
        let found = match scheme {
            ValidatorType::Simple => self.simple.get(identifier),
            ValidatorType::Complex => self.complex.get(identifier),
        };
        match found {
            Some(entry) => {
                let secret: Option<String> = match entry {
                    Some(text) => Some(text.clone()),
                    None => None,
                };
                Some(ApiKeyRecord { identifier: String::from_str(identifier), secret, scheme })
            },
            None => None,
        }
    }
}

} // verus!
