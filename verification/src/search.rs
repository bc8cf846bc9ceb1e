use crate::keybindings::{Keybinding, KeybindingView};
use crate::text::{contains, join, joined, lowercase_of, occurs_in, to_lowercase};
use vstd::prelude::*;

verus! {

/// `needle` is part of at least one of the four texts, each taken as it is.
pub open spec fn any_contains(
    function: Seq<char>,
    description: Seq<char>,
    modifiers: Seq<char>,
    key: Seq<char>,
    needle: Seq<char>,
) -> bool {
    ||| occurs_in(needle, function)
    ||| occurs_in(needle, description)
    ||| occurs_in(needle, modifiers)
    ||| occurs_in(needle, key)
}

impl KeybindingView {
    /// The modifier names written in one line, a single space between them.
    pub open spec fn modifier_text(self) -> Seq<char> {
        joined(self.modifiers, " "@)
    }

    /// `needle`, taken as it is, is part of the lowercase form of the action
    /// name, of the description, of the modifier line or of the key.
    pub open spec fn is_match(self, needle: Seq<char>) -> bool {
        any_contains(
            lowercase_of(self.function),
            lowercase_of(self.description),
            lowercase_of(self.modifier_text()),
            lowercase_of(self.key),
            needle,
        )
    }

    /// The shortcut stays on screen while `query` is typed into the search
    /// field: always for the empty query, else when the lowercase form of the
    /// query matches.
    pub open spec fn is_visible(self, query: Seq<char>) -> bool {
        query.len() == 0 || self.is_match(lowercase_of(query))
    }
}

/// The two queries show the same: both are empty or neither is, and their
/// lowercase forms are equal.
pub open spec fn is_same_search(first: Seq<char>, second: Seq<char>) -> bool {
    (first.len() == 0) == (second.len() == 0) && lowercase_of(first) == lowercase_of(second)
}

/// The query `shorter` is at least as permissive as `longer`: nothing typed,
/// or its lowercase form stands within that of `longer`.
pub open spec fn is_refined_by(shorter: Seq<char>, longer: Seq<char>) -> bool {
    shorter.len() == 0 || (longer.len() > 0 && occurs_in(
        lowercase_of(shorter),
        lowercase_of(longer),
    ))
}

/// Tells whether two queries show the same whatever the table holds: both
/// empty or both not, with equal lowercase forms.
pub fn same_search(first: &str, second: &str) -> (same: bool)
    ensures
        same == is_same_search(first@, second@),
{
    first.is_empty() == second.is_empty() && to_lowercase(first) == to_lowercase(second)
}

/// Tells whether going from the query `shorter` to the query `longer` can
/// only take shortcuts off the screen: `shorter` is empty, or `longer` is
/// not and the lowercase form of `shorter` stands within that of `longer`.
pub fn refines_search(shorter: &str, longer: &str) -> (yes: bool)
    ensures
        yes == is_refined_by(shorter@, longer@),
{
    shorter.is_empty() || (!longer.is_empty() && contains(
        to_lowercase(longer).as_str(),
        to_lowercase(shorter).as_str(),
    ))
}

/// Tells whether `needle` is part of one of the four searchable texts of a
/// shortcut. The texts and the needle are compared as given, so callers hand
/// over lowercase forms.
pub fn any_field_contains(
    function: &str,
    description: &str,
    modifiers: &str,
    key: &str,
    needle: &str,
) -> (found: bool)
    ensures
        found == any_contains(function@, description@, modifiers@, key@, needle@),
{
    contains(function, needle) || contains(description, needle) || contains(modifiers, needle)
        || contains(key, needle)
}

impl Keybinding {
    /// Tells whether `needle` is part of the lowercase form of one of the
    /// searchable texts. The needle itself is not changed.
    pub fn is_match(&self, needle: &str) -> (found: bool)
        ensures
            found == self@.is_match(needle@),
    {
        let function = to_lowercase(self.function.as_str());
        let description = to_lowercase(self.description.as_str());
        let modifiers = to_lowercase(join(&self.modifiers, " ").as_str());
        let key = to_lowercase(self.key.as_str());
        any_field_contains(
            function.as_str(),
            description.as_str(),
            modifiers.as_str(),
            key.as_str(),
            needle,
        )
    }

    /// Tells whether the shortcut stays on screen for `query`.
    pub fn is_visible(&self, query: &str) -> (shown: bool)
        ensures
            shown == self@.is_visible(query@),
    {
        query.is_empty() || self.is_match(to_lowercase(query).as_str())
    }
}

} // verus!
