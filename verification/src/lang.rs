//! Language tags and the maps from languages to texts.
//!
//! A title or a description can be given in several languages. The builder
//! collects the texts under keys that are plain strings; building the final
//! map checks that every key is a well-formed language tag and stores the
//! texts under the tags in their normal form.

use vstd::prelude::*;
use crate::error::Error;
use crate::ordered_map::{OrderedMap, inserted, inserted_keys};

verus! {

/// The normal form of `tag` as `oxilangtag::LanguageTag::parse_and_normalize`
/// gives it: nothing where `tag` is not a well-formed language tag.
pub uninterp spec fn normalized_language_tag(tag: Seq<char>) -> Option<Seq<char>>;

/// Calls `oxilangtag::LanguageTag::parse_and_normalize` on `tag`.
///
/// The contract claims no more than that the call is a function of the tag:
/// the result is the named normal form, and nothing where the call fails.
#[verifier::external_body]
fn normalize_language_tag(tag: &str) -> (r: Option<String>)
    ensures
        match r {
            Some(normal) => normalized_language_tag(tag@) == Some(normal@),
            None => normalized_language_tag(tag@).is_none(),
        },
{
    match oxilangtag::LanguageTag::parse_and_normalize(tag) {
        Ok(parsed) => Some(parsed.into_inner()),
        Err(_) => None,
    }
}

/// Whether `tag` is the normal form of some well-formed language tag.
pub open spec fn is_normal_form(tag: Seq<char>) -> bool {
    exists|source: Seq<char>| #[trigger] normalized_language_tag(source) == Some(tag)
}

/// A well-formed language tag in its normal form.
#[derive(Clone, Debug, PartialEq, Eq, Hash)]
pub struct LanguageTag {
    /// The characters of the tag.
    pub tag: String,
}

impl LanguageTag {
    /// Whether the tag is the normal form of some well-formed language tag.
    pub open spec fn well_formed(self) -> bool {
        is_normal_form(self.tag@)
    }

    /// The tag for `source`, given the normal form that parsing `source` gave.
    pub fn from_normalized(source: &str, normalized: Option<String>) -> (r: Result<
        LanguageTag,
        Error,
    >)
        ensures
            match normalized {
                Some(normal) => r == Ok::<LanguageTag, Error>(LanguageTag { tag: normal }),
                None => (r matches Err(Error::InvalidLanguageTag(s)) && s@ == source@),
            },
    {
        match normalized {
            Some(normal) => Ok(LanguageTag { tag: normal }),
            None => Err(Error::InvalidLanguageTag(source.to_owned())),
        }
    }

    /// Parses `source` as a language tag.
    pub fn parse(source: &str) -> (r: Result<LanguageTag, Error>)
        ensures
            match r {
                Ok(tag) => normalized_language_tag(source@) == Some(tag.tag@) && tag.well_formed(),
                Err(e) => normalized_language_tag(source@).is_none() && (e matches Error::InvalidLanguageTag(
                    s,
                ) && s@ == source@),
            },
    {
        let normalized = normalize_language_tag(source);
        LanguageTag::from_normalized(source, normalized)
    }

    /// The characters of the tag.
    pub fn as_str(&self) -> (r: &str)
        ensures
            r@ == self.tag@,
    {
        self.tag.as_str()
    }
}

/// The texts of the languages, each under a key that is not checked yet.
#[derive(Debug, PartialEq)]
pub struct MultiLanguageBuilder<T> {
    /// The texts, in the order in which their languages were first named.
    pub values: OrderedMap<T>,
}

impl<T> MultiLanguageBuilder<T> {
    /// Whether the builder holds no text.
    pub open spec fn is_empty(self) -> bool {
        self.values@.len() == 0
    }

    /// The builder without texts.
    pub fn new() -> (r: Self)
        ensures
            r.is_empty(),
    {
        MultiLanguageBuilder { values: OrderedMap::new() }
    }

    /// Gives the language `language` the text `value`. A language that is
    /// named again takes the new text and keeps its place.
    pub fn add(self, language: String, value: T) -> (r: Self)
        ensures
            r.values@ == inserted(self.values@, language@, value),
    {
        let mut builder = self;
        builder.values.insert(language, value);
        builder
    }
}

impl<T> Default for MultiLanguageBuilder<T> {
    fn default() -> (r: Self)
        ensures
            r.is_empty(),
    {
        MultiLanguageBuilder::new()
    }
}

/// Texts in several languages, each under a well-formed language tag.
#[derive(Debug, PartialEq)]
pub struct MultiLanguage {
    /// The texts under the normal forms of their tags, in the order in which
    /// the tags first came.
    pub values: OrderedMap<String>,
}

/// The index of the first of `entries`, at or after `from`, whose key is not
/// a well-formed language tag; the length of `entries` if there is none.
pub open spec fn first_invalid_from<T>(entries: Seq<(Seq<char>, T)>, from: int) -> int
    decreases entries.len() - from,
{
    if from < 0 || from >= entries.len() {
        entries.len() as int
    } else if normalized_language_tag(entries[from].0).is_none() {
        from
    } else {
        first_invalid_from(entries, from + 1)
    }
}

/// Whether every key of `entries` is a well-formed language tag.
pub open spec fn all_tags_valid<T>(entries: Seq<(Seq<char>, T)>) -> bool {
    first_invalid_from(entries, 0) == entries.len()
}

/// The map that takes the first `n` of `entries` one after the other, each
/// under the normal form of its key. It is meant for entries whose first `n`
/// keys are well-formed.
pub open spec fn built<T>(entries: Seq<(Seq<char>, T)>, n: int) -> Seq<(Seq<char>, T)>
    decreases n,
{
    if n <= 0 || n > entries.len() {
        Seq::empty()
    } else {
        match normalized_language_tag(entries[n - 1].0) {
            Some(tag) => inserted(built(entries, n - 1), tag, entries[n - 1].1),
            None => built(entries, n - 1),
        }
    }
}

/// Where the first invalid key lies: at an index whose key is invalid, after
/// valid keys only.
pub proof fn first_invalid_from_bounds<T>(entries: Seq<(Seq<char>, T)>, from: int)
    requires
        0 <= from <= entries.len(),
    ensures
        from <= first_invalid_from(entries, from) <= entries.len(),
        first_invalid_from(entries, from) < entries.len() ==> normalized_language_tag(
            entries[first_invalid_from(entries, from)].0,
        ).is_none(),
        forall|j: int|
            from <= j < first_invalid_from(entries, from) ==> normalized_language_tag(
                (#[trigger] entries[j]).0,
            ).is_some(),
    decreases entries.len() - from,
{
    if from < entries.len() && normalized_language_tag(entries[from].0).is_some() {
        first_invalid_from_bounds(entries, from + 1);
    }
}

impl MultiLanguage {
    /// Whether every key of the map is a language tag in normal form.
    pub open spec fn well_formed(self) -> bool {
        &&& self.values.well_formed()
        &&& forall|i: int|
            0 <= i < self.values@.len() ==> is_normal_form((#[trigger] self.values@[i]).0)
    }

    /// The map without texts.
    pub fn new() -> (r: Self)
        ensures
            r.values@.len() == 0,
            r.well_formed(),
    {
        MultiLanguage { values: OrderedMap::new() }
    }

    /// Gives the language of `tag` the text `value`.
    pub fn insert(&mut self, tag: LanguageTag, value: String)
        ensures
            final(self).values@ == inserted(old(self).values@, tag.tag@, value),
            old(self).well_formed() && tag.well_formed() ==> final(self).well_formed(),
    {
        proof {
            inserted_keys(self.values@, tag.tag@, value);
        }
        self.values.insert(tag.tag, value);
    }

    /// Takes the text `value` of the key `language`, given the normal form
    /// that parsing the key gave: a key that is a language tag has its text
    /// stored under the normal form, and any other key is reported.
    pub fn accept(&mut self, language: String, normalized: Option<String>, value: String) -> (r:
        Result<(), Error>)
        ensures
            match normalized {
                Some(tag) => r.is_ok() && final(self).values@ == inserted(
                    old(self).values@,
                    tag@,
                    value,
                ) && (old(self).well_formed() && is_normal_form(tag@)
                    ==> final(self).well_formed()),
                None => r == Err::<(), Error>(Error::InvalidLanguageTag(language)) && *final(self)
                    == *old(self),
            },
    {
        match normalized {
            Some(tag) => {
                proof {
                    inserted_keys(self.values@, tag@, value);
                }
                self.values.insert(tag, value);
                Ok(())
            },
            None => Err(Error::InvalidLanguageTag(language)),
        }
    }
}

impl MultiLanguageBuilder<String> {
    /// Checks the keys and makes the final map.
    ///
    /// The keys are taken in their order. The first key that is not a
    /// well-formed language tag is reported and nothing is built; without
    /// such a key every text is stored under the normal form of its key.
    pub fn build(self) -> (r: Result<MultiLanguage, Error>)
        ensures
            match r {
                Ok(map) => all_tags_valid(self.values@) && map.values@ == built(
                    self.values@,
                    self.values@.len() as int,
                ) && map.well_formed(),
                Err(e) => {
                    let i = first_invalid_from(self.values@, 0);
                    i < self.values@.len() && e == Error::InvalidLanguageTag(
                        self.values.entries@[i].0,
                    )
                },
            },
    {
        let ghost all = self.values@;
        let ghost source = self.values.entries@;
        let mut map = MultiLanguage::new();
        for pair in it: self.values.entries
            invariant
                source == it.seq(),
                all == crate::ordered_map::pairs_view(source),
                first_invalid_from(all, 0) == first_invalid_from(all, it.index() as int),
                map.values@ == built(all, it.index() as int),
                map.well_formed(),
        {
            let (language, value) = pair;
            let normalized = normalize_language_tag(language.as_str());
            let accepted = map.accept(language, normalized, value);
            match accepted {
                Ok(()) => {},
                Err(e) => {
                    return Err(e);
                },
            }
        }
        Ok(map)
    }
}

} // verus!
