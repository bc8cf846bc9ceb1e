use crate::catalog::catalog;
use crate::grouping::{groups_of, view_of, well_formed, GroupView, Grouping};
use crate::color::Rgb;
use crate::keybindings::{accent_of, get_keybindings, Category};
use vstd::prelude::*;

verus! {

/// The state behind the panel: the fixed table split by category, the text
/// in the search field, and the sections on screen.
///
/// The sections on screen follow the search text only when
/// [`CheatsheetApp::update_filter`] is called.
pub struct CheatsheetApp {
    keybindings: Grouping,
    search_text: String,
    filtered_keybindings: Grouping,
}

impl CheatsheetApp {
    #[verifier::type_invariant]
    spec fn inv(&self) -> bool {
        self.keybindings@ == groups_of(catalog())
    }

    /// The text in the search field.
    pub closed spec fn query(&self) -> Seq<char> {
        self.search_text@
    }

    /// The sections on screen.
    pub closed spec fn shown(&self) -> Seq<GroupView> {
        self.filtered_keybindings@
    }

    /// Starts with an empty search field and the whole table on screen.
    pub fn new() -> (app: Self)
        ensures
            app.query() == Seq::<char>::empty(),
            app.shown() == view_of(catalog(), Seq::empty()),
    {
        let table = get_keybindings();
        let keybindings = Grouping::from_catalog(&table);
        let filtered_keybindings = keybindings.clone();
        proof {
            crate::grouping::lemma_narrowed_by_empty_query(keybindings@);
        }
        CheatsheetApp { keybindings, search_text: String::new(), filtered_keybindings }
    }

    /// The text in the search field.
    pub fn search_text(&self) -> (text: &str)
        ensures
            text@ == self.query(),
    {
        self.search_text.as_str()
    }

    /// Puts `text` into the search field. The sections on screen stay as they
    /// are until the filter is updated.
    pub fn set_search_text(&mut self, text: &str)
        ensures
            final(self).query() == text@,
            final(self).shown() == old(self).shown(),
    {
        proof {
            use_type_invariant(&*self);
        }
        self.search_text = text.to_string();
    }

    /// Brings the sections on screen in line with the search field: for each
    /// category in display order the shortcuts of the table that match the
    /// text, categories without a match left out. An empty field shows the
    /// whole table.
    pub fn update_filter(&mut self)
        ensures
            final(self).query() == old(self).query(),
            final(self).shown() == view_of(catalog(), old(self).query()),
            well_formed(final(self).shown()),
    {
        proof {
            use_type_invariant(&*self);
        }
        self.filtered_keybindings = self.keybindings.filtered(self.search_text.as_str());
    }

    /// The whole table split by category.
    pub fn keybindings(&self) -> (sections: &Grouping)
        ensures
            sections@ == groups_of(catalog()),
    {
        proof {
            use_type_invariant(self);
        }
        &self.keybindings
    }

    /// The sections on screen.
    pub fn filtered_keybindings(&self) -> (sections: &Grouping)
        ensures
            sections@ == self.shown(),
    {
        &self.filtered_keybindings
    }

    /// The accent colour of a category, the one that [`Category::color`]
    /// writes in `#rrggbb` notation.
    pub fn get_category_color(&self, category: &Category) -> (color: Rgb)
        ensures
            color == accent_of(*category),
    {
        category.accent()
    }
}

} // verus!
