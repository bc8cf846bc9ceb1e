use crate::keybindings::{display_order, Category, Keybinding, KeybindingView, DISPLAY_ORDER};
use crate::seq_facts::{lemma_filter_embedding, lemma_filter_keeps_all, lemma_filter_one_more};
use crate::text::{lowercase_of, to_lowercase};
use vstd::prelude::*;

verus! {

/// One section of the panel: a category and its shortcuts.
#[derive(Debug)]
pub struct Group {
    pub category: Category,
    pub keybindings: Vec<Keybinding>,
}

/// What a [`Group`] holds, as plain values.
#[verifier::ext_equal]
pub struct GroupView {
    pub category: Category,
    pub keybindings: Seq<KeybindingView>,
}

impl View for Group {
    type V = GroupView;

    open spec fn view(&self) -> GroupView {
        GroupView { category: self.category, keybindings: self.keybindings.deep_view() }
    }
}

impl DeepView for Group {
    type V = GroupView;

    open spec fn deep_view(&self) -> GroupView {
        self@
    }
}

/// The shortcuts filed under `category`.
pub open spec fn in_category(category: Category) -> spec_fn(KeybindingView) -> bool {
    |e: KeybindingView| e.category == category
}

/// The shortcuts that stay on screen for `query`.
pub open spec fn is_shown(query: Seq<char>) -> spec_fn(KeybindingView) -> bool {
    |e: KeybindingView| e.is_visible(query)
}

/// The sections that have something to show.
pub open spec fn non_empty() -> spec_fn(GroupView) -> bool {
    |g: GroupView| g.keybindings.len() > 0
}

/// The shortcuts of `catalog` filed under `category`, in catalog order.
pub open spec fn entries_in(catalog: Seq<KeybindingView>, category: Category) -> Seq<
    KeybindingView,
> {
    catalog.filter(in_category(category))
}

/// The shortcuts among `entries` that stay on screen for `query`, in their
/// order.
pub open spec fn visible(entries: Seq<KeybindingView>, query: Seq<char>) -> Seq<KeybindingView> {
    entries.filter(is_shown(query))
}

/// The section that `catalog` gives for a category, empty or not.
pub open spec fn group_of(catalog: Seq<KeybindingView>) -> spec_fn(Category) -> GroupView {
    |c: Category| GroupView { category: c, keybindings: entries_in(catalog, c) }
}

/// A section cut down to what stays on screen for `query`.
pub open spec fn narrow_group(query: Seq<char>) -> spec_fn(GroupView) -> GroupView {
    |g: GroupView| GroupView { category: g.category, keybindings: visible(g.keybindings, query) }
}

/// The catalog split by category: one section for each category that has a
/// shortcut, in display order, each with its shortcuts in catalog order.
pub open spec fn groups_of(catalog: Seq<KeybindingView>) -> Seq<GroupView> {
    display_order().map_values(group_of(catalog)).filter(non_empty())
}

/// The sections cut down to what stays on screen for `query`; a section with
/// nothing left is dropped.
pub open spec fn narrowed(groups: Seq<GroupView>, query: Seq<char>) -> Seq<GroupView> {
    groups.map_values(narrow_group(query)).filter(non_empty())
}

/// What the panel shows of `catalog` while `query` stands in the search field.
pub open spec fn view_of(catalog: Seq<KeybindingView>, query: Seq<char>) -> Seq<GroupView> {
    narrowed(groups_of(catalog), query)
}

/// The sections come in display order, so no category comes twice.
pub open spec fn in_display_order(groups: Seq<GroupView>) -> bool {
    forall|i: int, j: int|
        0 <= i < j < groups.len() ==> (#[trigger] groups[i]).category.rank() < (
        #[trigger] groups[j]).category.rank()
}

/// Sections in display order, none of them empty, each holding shortcuts of
/// its own category only.
pub open spec fn well_formed(groups: Seq<GroupView>) -> bool {
    &&& in_display_order(groups)
    &&& forall|i: int| 0 <= i < groups.len() ==> (#[trigger] groups[i]).keybindings.len() > 0
    &&& forall|i: int, k: int|
        0 <= i < groups.len() && 0 <= k < groups[i].keybindings.len() ==> (
        #[trigger] groups[i].keybindings[k]).category == groups[i].category
}

/// `groups` has a section for `category`.
pub open spec fn has_category(groups: Seq<GroupView>, category: Category) -> bool {
    exists|i: int| 0 <= i < groups.len() && (#[trigger] groups[i]).category == category
}

/// The sections as a mapping from category to shortcuts.
pub open spec fn as_map(groups: Seq<GroupView>) -> Map<Category, Seq<KeybindingView>> {
    Map::new(
        |c: Category| has_category(groups, c),
        |c: Category|
            groups[choose|i: int| 0 <= i < groups.len() && (#[trigger] groups[i]).category == c].keybindings,
    )
}

/// The categories with a section that are drawn in column `column` of
/// `num_columns`: a category goes by its place in the display order, column
/// after column and round again.
pub open spec fn in_column(groups: Seq<GroupView>, num_columns: int, column: int) -> spec_fn(
    Category,
) -> bool {
    |c: Category| has_category(groups, c) && c.rank() % num_columns == column
}

/// The categories drawn in column `column` of `num_columns`, from top to
/// bottom.
pub open spec fn column_of(groups: Seq<GroupView>, num_columns: int, column: int) -> Seq<Category> {
    display_order().filter(in_column(groups, num_columns, column))
}

/// Among sections in display order, the mapping gives each section's own
/// shortcuts for its category.
pub proof fn lemma_as_map_at(groups: Seq<GroupView>, i: int)
    requires
        in_display_order(groups),
        0 <= i < groups.len(),
    ensures
        has_category(groups, groups[i].category),
        as_map(groups)[groups[i].category] == groups[i].keybindings,
{
    let c = groups[i].category;
    let j = choose|j: int| 0 <= j < groups.len() && (#[trigger] groups[j]).category == c;
    if j < i {
        assert(groups[j].category.rank() < groups[i].category.rank());
    }
    if i < j {
        assert(groups[i].category.rank() < groups[j].category.rank());
    }
}

/// Splitting a catalog gives well-formed sections.
pub proof fn lemma_groups_of_well_formed(catalog: Seq<KeybindingView>)
    ensures
        well_formed(groups_of(catalog)),
{
    let all = display_order().map_values(group_of(catalog));
    let groups = groups_of(catalog);
    let idx = lemma_filter_embedding(all, non_empty());
    assert forall|i: int, j: int| 0 <= i < j < groups.len() implies (#[trigger] groups[i]).category.rank()
        < (#[trigger] groups[j]).category.rank() by {
        assert(groups[i] == all[idx[i]]);
        assert(groups[j] == all[idx[j]]);
    }
    assert forall|i: int| 0 <= i < groups.len() implies (#[trigger] groups[i]).keybindings.len()
        > 0 by {
        all.lemma_filter_pred(non_empty(), i);
    }
    assert forall|i: int, k: int|
        0 <= i < groups.len() && 0 <= k < groups[i].keybindings.len() implies (
    #[trigger] groups[i].keybindings[k]).category == groups[i].category by {
        assert(groups[i] == all[idx[i]]);
        catalog.lemma_filter_pred(in_category(groups[i].category), k);
    }
}

/// Cutting well-formed sections down leaves well-formed sections.
pub proof fn lemma_narrowed_well_formed(groups: Seq<GroupView>, query: Seq<char>)
    requires
        well_formed(groups),
    ensures
        well_formed(narrowed(groups, query)),
{
    let all = groups.map_values(narrow_group(query));
    let cut = narrowed(groups, query);
    let idx = lemma_filter_embedding(all, non_empty());
    assert forall|i: int| 0 <= i < cut.len() implies (#[trigger] cut[i]).keybindings.len() > 0 by {
        all.lemma_filter_pred(non_empty(), i);
    }
    assert forall|i: int, j: int| 0 <= i < j < cut.len() implies (#[trigger] cut[i]).category.rank() < (
    #[trigger] cut[j]).category.rank() by {
        assert(cut[i] == all[idx[i]]);
        assert(cut[j] == all[idx[j]]);
        assert(groups[idx[i]].category.rank() < groups[idx[j]].category.rank());
    }
    assert forall|i: int, k: int|
        0 <= i < cut.len() && 0 <= k < cut[i].keybindings.len() implies (
    #[trigger] cut[i].keybindings[k]).category == cut[i].category by {
        assert(cut[i] == all[idx[i]]);
        let whole = groups[idx[i]].keybindings;
        let at = lemma_filter_embedding(whole, is_shown(query));
        assert(cut[i].keybindings[k] == whole[at[k]]);
    }
}

/// With nothing typed, cutting down changes nothing.
pub proof fn lemma_narrowed_by_empty_query(groups: Seq<GroupView>)
    requires
        well_formed(groups),
    ensures
        narrowed(groups, Seq::empty()) == groups,
{
    let query = Seq::<char>::empty();
    let all = groups.map_values(narrow_group(query));
    assert forall|i: int| 0 <= i < groups.len() implies all[i] == groups[i] by {
        lemma_filter_keeps_all(groups[i].keybindings, is_shown(query));
    }
    assert(all =~= groups);
    lemma_filter_keeps_all(groups, non_empty());
}

impl Clone for Group {
    fn clone(&self) -> (copy: Self)
        ensures
            copy@ == self@,
    {
        let keybindings = self.keybindings.clone();
        assert(keybindings.deep_view() =~= self.keybindings.deep_view());
        Group { category: self.category, keybindings }
    }
}

/// Picks the shortcuts of `catalog` filed under `category`, in catalog order.
pub fn select_category(catalog: &Vec<Keybinding>, category: Category) -> (entries: Vec<Keybinding>)
    ensures
        entries.deep_view() == entries_in(catalog.deep_view(), category),
{
    let ghost all = catalog.deep_view();
    let mut entries: Vec<Keybinding> = Vec::new();
    let mut i: usize = 0;
    while i < catalog.len()
        invariant
            i <= catalog.len(),
            all == catalog.deep_view(),
            entries.deep_view() =~= all.take(i as int).filter(in_category(category)),
        decreases catalog.len() - i,
    {
        proof {
            lemma_filter_one_more(all, in_category(category), i as int);
        }
        if catalog[i].category == category {
            entries.push(catalog[i].clone());
        }
        i += 1;
    }
    assert(all.take(i as int) =~= all);
    entries
}

/// Picks the shortcuts among `entries` that stay on screen for `query`, in
/// their order. With an empty query that is all of them.
pub fn select_visible(entries: &Vec<Keybinding>, query: &str) -> (shown: Vec<Keybinding>)
    ensures
        shown.deep_view() == visible(entries.deep_view(), query@),
{
    let ghost all = entries.deep_view();
    if query.is_empty() {
        let shown = entries.clone();
        proof {
            assert(shown.deep_view() =~= all);
            lemma_filter_keeps_all(all, is_shown(query@));
        }
        return shown;
    }
    let needle = to_lowercase(query);
    let mut shown: Vec<Keybinding> = Vec::new();
    let mut i: usize = 0;
    while i < entries.len()
        invariant
            i <= entries.len(),
            all == entries.deep_view(),
            query@.len() > 0,
            needle@ == lowercase_of(query@),
            shown.deep_view() =~= all.take(i as int).filter(is_shown(query@)),
        decreases entries.len() - i,
    {
        proof {
            lemma_filter_one_more(all, is_shown(query@), i as int);
        }
        if entries[i].is_match(needle.as_str()) {
            shown.push(entries[i].clone());
        }
        i += 1;
    }
    assert(all.take(i as int) =~= all);
    shown
}

/// The sections of the panel: an ordered mapping from category to shortcuts.
///
/// Sections come in display order, no category comes twice, and no section is
/// empty.
#[derive(Debug)]
pub struct Grouping {
    groups: Vec<Group>,
}

impl View for Grouping {
    type V = Seq<GroupView>;

    closed spec fn view(&self) -> Seq<GroupView> {
        self.groups.deep_view()
    }
}

impl Clone for Grouping {
    fn clone(&self) -> (copy: Self)
        ensures
            copy@ == self@,
    {
        proof {
            use_type_invariant(self);
        }
        let groups = self.groups.clone();
        assert(groups.deep_view() =~= self.groups.deep_view());
        Grouping { groups }
    }
}

impl Grouping {
    #[verifier::type_invariant]
    spec fn inv(&self) -> bool {
        well_formed(self.groups.deep_view())
    }

    /// The number of sections.
    pub fn len(&self) -> (n: usize)
        ensures
            n == self@.len(),
    {
        self.groups.len()
    }

    /// Tells whether there is no section at all.
    pub fn is_empty(&self) -> (none: bool)
        ensures
            none == (self@.len() == 0),
    {
        self.groups.is_empty()
    }

    /// The sections in display order.
    pub fn groups(&self) -> (all: &Vec<Group>)
        ensures
            all.deep_view() == self@,
            well_formed(self@),
    {
        proof {
            use_type_invariant(self);
        }
        &self.groups
    }

    /// The categories that have a section, in display order.
    pub fn categories(&self) -> (order: Vec<Category>)
        ensures
            order@ == self@.map_values(|g: GroupView| g.category),
    {
        let mut order: Vec<Category> = Vec::new();
        let mut k: usize = 0;
        while k < self.groups.len()
            invariant
                k <= self.groups.len(),
                self@ == self.groups.deep_view(),
                order@ == self@.subrange(0, k as int).map_values(|g: GroupView| g.category),
            decreases self.groups.len() - k,
        {
            order.push(self.groups[k].category);
            k += 1;
        }
        assert(self@.subrange(0, k as int) =~= self@);
        order
    }

    /// Tells whether `category` has a section.
    pub fn contains_key(&self, category: &Category) -> (found: bool)
        ensures
            found == has_category(self@, *category),
    {
        self.get(category).is_some()
    }

    /// The shortcuts of the section of `category`, if it has one.
    pub fn get(&self, category: &Category) -> (entries: Option<&Vec<Keybinding>>)
        ensures
            match entries {
                Some(found) => has_category(self@, *category) && found.deep_view() == as_map(
                    self@,
                )[*category],
                None => !has_category(self@, *category),
            },
    {
        proof {
            use_type_invariant(self);
        }
        let mut k: usize = 0;
        while k < self.groups.len()
            invariant
                k <= self.groups.len(),
                self@ == self.groups.deep_view(),
                in_display_order(self@),
                forall|j: int| 0 <= j < k ==> (#[trigger] self@[j]).category != *category,
            decreases self.groups.len() - k,
        {
            if self.groups[k].category == *category {
                proof {
                    lemma_as_map_at(self@, k as int);
                }
                return Some(&self.groups[k].keybindings);
            }
            k += 1;
        }
        None
    }

    /// Lays the sections out in `num_columns` columns. A category keeps the
    /// column that its place in the display order gives it, whether or not
    /// the categories before it have a section.
    pub fn columns(&self, num_columns: usize) -> (columns: Vec<Vec<Category>>)
        ensures
            columns@.len() == num_columns,
            forall|j: int|
                0 <= j < num_columns ==> (#[trigger] columns@[j])@ == column_of(
                    self@,
                    num_columns as int,
                    j,
                ),
    {
        let mut columns: Vec<Vec<Category>> = Vec::new();
        let mut j: usize = 0;
        while j < num_columns
            invariant
                j <= num_columns,
                columns@.len() == j,
                forall|c: int| 0 <= c < j ==> (#[trigger] columns@[c])@ == Seq::<Category>::empty(),
            decreases num_columns - j,
        {
            columns.push(Vec::new());
            j += 1;
        }
        if num_columns == 0 {
            return columns;
        }
        let ghost n = num_columns as int;
        let mut i: usize = 0;
        proof {
            assert forall|c: int| 0 <= c < n implies (#[trigger] columns@[c])@ == display_order().take(
                0,
            ).filter(in_column(self@, n, c)) by {
                lemma_filter_one_more(display_order(), in_column(self@, n, c), 0);
            }
        }
        while i < 10
            invariant
                i <= 10,
                n == num_columns,
                n > 0,
                columns@.len() == n,
                forall|c: int|
                    0 <= c < n ==> (#[trigger] columns@[c])@ == display_order().take(i as int).filter(
                        in_column(self@, n, c),
                    ),
            decreases 10 - i,
        {
            let category = DISPLAY_ORDER[i];
            let ghost before = columns@;
            proof {
                assert(category == display_order()[i as int]);
                assert forall|c: int| 0 <= c < n implies #[trigger] display_order().take(
                    i + 1,
                ).filter(in_column(self@, n, c)) == (if in_column(self@, n, c)(category) {
                    before[c]@.push(category)
                } else {
                    before[c]@
                }) by {
                    lemma_filter_one_more(display_order(), in_column(self@, n, c), i as int);
                }
            }
            if self.contains_key(&category) {
                columns[i % num_columns].push(category);
            }
            i += 1;
        }
        assert(display_order().take(10) =~= display_order());
        columns
    }

    /// Splits `catalog` by category.
    pub fn from_catalog(catalog: &Vec<Keybinding>) -> (sections: Self)
        ensures
            sections@ == groups_of(catalog.deep_view()),
            well_formed(sections@),
    {
        let ghost all = display_order().map_values(group_of(catalog.deep_view()));
        let mut groups: Vec<Group> = Vec::new();
        let mut k: usize = 0;
        while k < 10
            invariant
                k <= 10,
                all == display_order().map_values(group_of(catalog.deep_view())),
                groups.deep_view() =~= all.take(k as int).filter(non_empty()),
            decreases 10 - k,
        {
            let category = DISPLAY_ORDER[k];
            let entries = select_category(catalog, category);
            proof {
                assert(category == display_order()[k as int]);
                lemma_filter_one_more(all, non_empty(), k as int);
            }
            if !entries.is_empty() {
                groups.push(Group { category, keybindings: entries });
            }
            k += 1;
        }
        proof {
            assert(all.take(10) =~= all);
            lemma_groups_of_well_formed(catalog.deep_view());
        }
        Grouping { groups }
    }

    /// Cuts every section down to what stays on screen for `query` and drops
    /// the sections that are left with nothing.
    pub fn filtered(&self, query: &str) -> (cut: Self)
        ensures
            cut@ == narrowed(self@, query@),
            well_formed(cut@),
    {
        proof {
            use_type_invariant(self);
        }
        if query.is_empty() {
            proof {
                assert(query@ =~= Seq::empty());
                lemma_narrowed_by_empty_query(self@);
            }
            return self.clone();
        }
        let ghost all = self@.map_values(narrow_group(query@));
        let mut groups: Vec<Group> = Vec::new();
        let mut k: usize = 0;
        while k < self.groups.len()
            invariant
                k <= self.groups.len(),
                all == self@.map_values(narrow_group(query@)),
                self@ == self.groups.deep_view(),
                groups.deep_view() =~= all.take(k as int).filter(non_empty()),
            decreases self.groups.len() - k,
        {
            let category = self.groups[k].category;
            let entries = select_visible(&self.groups[k].keybindings, query);
            proof {
                lemma_filter_one_more(all, non_empty(), k as int);
            }
            if !entries.is_empty() {
                groups.push(Group { category, keybindings: entries });
            }
            k += 1;
        }
        proof {
            assert(all.take(k as int) =~= all);
            lemma_narrowed_well_formed(self@, query@);
        }
        Grouping { groups }
    }
}

/// Computes what the panel shows of `catalog` for `query`: for each category
/// in display order the matching shortcuts in catalog order, categories
/// without a match left out.
pub fn compute_view(catalog: &Vec<Keybinding>, query: &str) -> (view: Grouping)
    ensures
        view@ == view_of(catalog.deep_view(), query@),
        well_formed(view@),
{
    Grouping::from_catalog(catalog).filtered(query)
}

} // verus!
