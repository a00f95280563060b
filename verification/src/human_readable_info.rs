//! The fields of a schema that people read: semantic type tags, a title and a
//! description, each of the two also in several languages.

use vstd::prelude::*;
use crate::lang::MultiLanguageBuilder;

verus! {

/// The fields that people read, as a builder has collected them.
#[derive(Debug, Default, PartialEq)]
pub struct HumanReadableInfo {
    /// Semantic type tags, in the order in which they were given.
    pub attype: Option<Vec<String>>,
    /// A title.
    pub title: Option<String>,
    /// The title in several languages, under unchecked keys.
    pub titles: Option<MultiLanguageBuilder<String>>,
    /// A description.
    pub description: Option<String>,
    /// The description in several languages, under unchecked keys.
    pub descriptions: Option<MultiLanguageBuilder<String>>,
}

/// What a builder holds of the fields that people read.
pub struct InfoModel {
    /// Semantic type tags, in the order in which they were given.
    pub attype: Option<Seq<String>>,
    /// A title.
    pub title: Option<String>,
    /// The title in several languages.
    pub titles: Option<MultiLanguageBuilder<String>>,
    /// A description.
    pub description: Option<String>,
    /// The description in several languages.
    pub descriptions: Option<MultiLanguageBuilder<String>>,
}

impl InfoModel {
    /// No field is set.
    pub open spec fn empty() -> InfoModel {
        InfoModel { attype: None, title: None, titles: None, description: None, descriptions: None }
    }

    /// One more semantic type tag, after those that are there.
    pub open spec fn with_attype(self, value: String) -> InfoModel {
        InfoModel {
            attype: Some(
                match self.attype {
                    Some(tags) => tags.push(value),
                    None => seq![value],
                },
            ),
            ..self
        }
    }

    /// The title is `value`.
    pub open spec fn with_title(self, value: String) -> InfoModel {
        InfoModel { title: Some(value), ..self }
    }

    /// The titles in several languages are `texts`.
    pub open spec fn with_titles(self, texts: MultiLanguageBuilder<String>) -> InfoModel {
        InfoModel { titles: Some(texts), ..self }
    }

    /// The description is `value`.
    pub open spec fn with_description(self, value: String) -> InfoModel {
        InfoModel { description: Some(value), ..self }
    }

    /// The descriptions in several languages are `texts`.
    pub open spec fn with_descriptions(self, texts: MultiLanguageBuilder<String>) -> InfoModel {
        InfoModel { descriptions: Some(texts), ..self }
    }
}

/// The tags of a vector that may be absent.
pub open spec fn tags_view(tags: Option<Vec<String>>) -> Option<Seq<String>> {
    match tags {
        Some(tags) => Some(tags@),
        None => None,
    }
}

/// A builder that takes the fields that people read.
///
/// Every method changes the one field that it names and leaves all else that
/// the builder holds as it is.
pub trait BuildableHumanReadableInfo: Sized {
    /// What the builder holds of the fields that people read.
    spec fn info(self) -> InfoModel;

    /// Whether `other` holds what `self` holds, the fields that people read
    /// left aside.
    spec fn same_but_info(self, other: Self) -> bool;

    /// Adds a semantic type tag.
    fn attype(self, value: String) -> (r: Self)
        ensures
            r.info() == self.info().with_attype(value),
            self.same_but_info(r),
    ;

    /// Sets the title.
    fn title(self, value: String) -> (r: Self)
        ensures
            r.info() == self.info().with_title(value),
            self.same_but_info(r),
    ;

    /// Sets the titles in several languages to what `f` makes of an empty
    /// multi-language builder.
    fn titles<F>(self, f: F) -> (r: Self) where
        F: FnOnce(MultiLanguageBuilder<String>) -> MultiLanguageBuilder<String>,

        requires
            forall|empty: MultiLanguageBuilder<String>| empty.is_empty() ==> f.requires((empty,)),
        ensures
            exists|empty: MultiLanguageBuilder<String>, texts: MultiLanguageBuilder<String>|
                empty.is_empty() && #[trigger] f.ensures((empty,), texts) && r.info()
                    == self.info().with_titles(texts),
            self.same_but_info(r),
    ;

    /// Sets the description.
    fn description(self, value: String) -> (r: Self)
        ensures
            r.info() == self.info().with_description(value),
            self.same_but_info(r),
    ;

    /// Sets the descriptions in several languages to what `f` makes of an
    /// empty multi-language builder.
    fn descriptions<F>(self, f: F) -> (r: Self) where
        F: FnOnce(MultiLanguageBuilder<String>) -> MultiLanguageBuilder<String>,

        requires
            forall|empty: MultiLanguageBuilder<String>| empty.is_empty() ==> f.requires((empty,)),
        ensures
            exists|empty: MultiLanguageBuilder<String>, texts: MultiLanguageBuilder<String>|
                empty.is_empty() && #[trigger] f.ensures((empty,), texts) && r.info()
                    == self.info().with_descriptions(texts),
            self.same_but_info(r),
    ;
}

impl BuildableHumanReadableInfo for HumanReadableInfo {
    open spec fn info(self) -> InfoModel {
        InfoModel {
            attype: tags_view(self.attype),
            title: self.title,
            titles: self.titles,
            description: self.description,
            descriptions: self.descriptions,
        }
    }

    open spec fn same_but_info(self, other: Self) -> bool {
        true
    }

    fn attype(self, value: String) -> (r: Self) {
        let mut info = self;
        let mut tags = match info.attype {
            Some(tags) => tags,
            None => Vec::new(),
        };
        tags.push(value);
        info.attype = Some(tags);
        assert(info.attype.unwrap()@ =~= self.info().with_attype(value).attype.unwrap());
        info
    }

    fn title(self, value: String) -> (r: Self) {
        let mut info = self;
        info.title = Some(value);
        info
    }

    fn titles<F>(self, f: F) -> (r: Self) where
        F: FnOnce(MultiLanguageBuilder<String>) -> MultiLanguageBuilder<String>,
     {
        let mut info = self;
        let texts = f(MultiLanguageBuilder::new());
        info.titles = Some(texts);
        info
    }

    fn description(self, value: String) -> (r: Self) {
        let mut info = self;
        info.description = Some(value);
        info
    }

    fn descriptions<F>(self, f: F) -> (r: Self) where
        F: FnOnce(MultiLanguageBuilder<String>) -> MultiLanguageBuilder<String>,
     {
        let mut info = self;
        let texts = f(MultiLanguageBuilder::new());
        info.descriptions = Some(texts);
        info
    }
}

} // verus!
