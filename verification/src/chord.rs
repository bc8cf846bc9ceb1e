use crate::keybindings::{Keybinding, KeybindingView};
use vstd::prelude::*;

verus! {

/// One piece of a key combination as it is drawn: a key cap, or the plus
/// sign between two key caps.
#[derive(Debug, PartialEq, Eq)]
pub enum ChordPart {
    Key(String),
    Plus,
}

/// What a [`ChordPart`] holds, as plain values.
pub enum ChordPartView {
    Key(Seq<char>),
    Plus,
}

impl View for ChordPart {
    type V = ChordPartView;

    open spec fn view(&self) -> ChordPartView {
        match self {
            ChordPart::Key(name) => ChordPartView::Key(name@),
            ChordPart::Plus => ChordPartView::Plus,
        }
    }
}

impl DeepView for ChordPart {
    type V = ChordPartView;

    open spec fn deep_view(&self) -> ChordPartView {
        self@
    }
}

/// The key caps of a shortcut: its modifiers, then its key unless the key
/// is empty.
pub open spec fn key_caps(e: KeybindingView) -> Seq<Seq<char>> {
    if e.key.len() > 0 {
        e.modifiers.push(e.key)
    } else {
        e.modifiers
    }
}

/// The names as key caps with a plus sign between each two neighbours.
pub open spec fn with_plus_between(names: Seq<Seq<char>>) -> Seq<ChordPartView> {
    Seq::new(
        if names.len() == 0 {
            0
        } else {
            (2 * names.len() - 1) as nat
        },
        |j: int|
            if j % 2 == 0 {
                ChordPartView::Key(names[j / 2])
            } else {
                ChordPartView::Plus
            },
    )
}

/// A shortcut as it is drawn: its key caps joined by plus signs.
pub open spec fn chord_of(e: KeybindingView) -> Seq<ChordPartView> {
    with_plus_between(key_caps(e))
}

impl Keybinding {
    /// The pieces to draw for the key combination, from left to right: each
    /// modifier as a key cap, then the key unless it is empty, with a plus
    /// sign between each two key caps.
    pub fn chord(&self) -> (parts: Vec<ChordPart>)
        ensures
            parts.deep_view() == chord_of(self@),
    {
        let ghost whole = chord_of(self@);
        let ghost caps = key_caps(self@);
        let with_key = !self.key.as_str().is_empty();
        let count = self.modifiers.len();
        let mut parts: Vec<ChordPart> = Vec::new();
        let mut i: usize = 0;
        assert(parts.deep_view() =~= whole.subrange(0, 0));
        while i < count
            invariant
                i <= count,
                count == self.modifiers.len(),
                with_key == (self@.key.len() > 0),
                caps == key_caps(self@),
                whole == chord_of(self@),
                parts.deep_view() == whole.subrange(
                    0,
                    if 2 * i <= whole.len() {
                        2 * i
                    } else {
                        whole.len() as int
                    },
                ),
            decreases count - i,
        {
            let ghost drawn = parts.deep_view();
            let ghost cap = ChordPartView::Key(caps[i as int]);
            assert(caps[i as int] == self.modifiers[i as int]@);
            assert(whole[2 * i] == cap);
            parts.push(ChordPart::Key(self.modifiers[i].clone()));
            assert(parts.deep_view() =~= drawn.push(cap));
            if i < count - 1 || with_key {
                assert(whole[2 * i + 1] == ChordPartView::Plus);
                parts.push(ChordPart::Plus);
                assert(parts.deep_view() =~= drawn.push(cap).push(ChordPartView::Plus));
                assert(parts.deep_view() =~= whole.subrange(0, 2 * i + 2));
            } else {
                assert(parts.deep_view() =~= whole);
                assert(whole.subrange(0, whole.len() as int) =~= whole);
            }
            i += 1;
        }
        if with_key {
            let ghost drawn = parts.deep_view();
            assert(whole[2 * count] == ChordPartView::Key(self@.key));
            parts.push(ChordPart::Key(self.key.clone()));
            assert(parts.deep_view() =~= drawn.push(ChordPartView::Key(self@.key)));
        }
        assert(parts.deep_view() =~= whole);
        parts
    }
}

} // verus!
