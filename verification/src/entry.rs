//! One emoji record and its mathematical view.

use vstd::prelude::*;

verus! {

/// What an [`EmojiContainer`] holds, as plain sequences.
pub struct EntryView {
    pub emoji: Seq<char>,
    pub description: Seq<char>,
    pub category: Seq<char>,
    pub aliases: Seq<Seq<char>>,
    pub tags: Seq<Seq<char>>,
}

/// The view of a list of strings: the characters of each, in order.
pub open spec fn strings_view(v: Seq<String>) -> Seq<Seq<char>> {
    Seq::new(v.len(), |i: int| v[i]@)
}

/// The views of a list of records, in order.
pub open spec fn entries_view(v: Seq<EmojiContainer>) -> Seq<EntryView> {
    Seq::new(v.len(), |i: int| v[i]@)
}

/// One emoji record: glyph, description, category, aliases and tags.
#[derive(Debug)]
pub struct EmojiContainer {
    emoji: String,
    description: String,
    category: String,
    aliases: Vec<String>,
    tags: Vec<String>,
}

impl View for EmojiContainer {
    type V = EntryView;

    closed spec fn view(&self) -> EntryView {
        EntryView {
            emoji: self.emoji@,
            description: self.description@,
            category: self.category@,
            aliases: strings_view(self.aliases@),
            tags: strings_view(self.tags@),
        }
    }
}

impl EmojiContainer {
    /// Builds a record from its five fields, kept as given.
    pub fn new(
        emoji: String,
        description: String,
        category: String,
        aliases: Vec<String>,
        tags: Vec<String>,
    ) -> (entry: EmojiContainer)
        ensures
            entry@.emoji == emoji@,
            entry@.description == description@,
            entry@.category == category@,
            entry@.aliases == strings_view(aliases@),
            entry@.tags == strings_view(tags@),
    {
        EmojiContainer { emoji, description, category, aliases, tags }
    }

    /// The glyph.
    pub fn emoji(&self) -> (glyph: &str)
        ensures
            glyph@ == self@.emoji,
    {
        self.emoji.as_str()
    }

    /// The human description.
    pub fn description(&self) -> (text: &str)
        ensures
            text@ == self@.description,
    {
        self.description.as_str()
    }

    /// The category.
    pub fn category(&self) -> (text: &str)
        ensures
            text@ == self@.category,
    {
        self.category.as_str()
    }

    /// The aliases, in order.
    pub fn aliases(&self) -> (list: &Vec<String>)
        ensures
            strings_view(list@) == self@.aliases,
    {
        &self.aliases
    }

    /// The tags, in order.
    pub fn tags(&self) -> (list: &Vec<String>)
        ensures
            strings_view(list@) == self@.tags,
    {
        &self.tags
    }
}

} // verus!
