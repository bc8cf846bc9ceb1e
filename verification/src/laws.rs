use crate::grouping::{
    as_map, entries_in, group_of, groups_of, has_category, in_category, is_shown,
    lemma_as_map_at, lemma_groups_of_well_formed, lemma_narrowed_by_empty_query,
    lemma_narrowed_well_formed, narrow_group, narrowed, non_empty, view_of, visible, well_formed,
    GroupView,
};
use crate::color::{hex_of, lemma_hex_names_one_color, Rgb};
use crate::keybindings::{accent_of, display_order, Category, KeybindingView};
use crate::search::{is_refined_by, is_same_search};
use crate::seq_facts::{
    is_embedding, is_subsequence, lemma_embedding_compose, lemma_filter_embedding,
    lemma_filter_refines, lemma_filter_then_map,
};
use crate::text::{lowercase_of, occurs_at, occurs_in};
use vstd::prelude::*;

verus! {

/// The section that `catalog` gives for a category while `query` stands in
/// the search field, empty or not.
pub open spec fn section_of(catalog: Seq<KeybindingView>, query: Seq<char>) -> spec_fn(
    Category,
) -> GroupView {
    |c: Category| GroupView { category: c, keybindings: visible(entries_in(catalog, c), query) }
}

/// A section that still holds something after it was cut down held
/// something before.
proof fn lemma_narrowing_empties_no_section(query: Seq<char>)
    ensures
        forall|g: GroupView| #[trigger] non_empty()(narrow_group(query)(g)) ==> non_empty()(g),
{
    assert forall|g: GroupView| #[trigger] non_empty()(narrow_group(query)(g)) implies non_empty()(
        g,
    ) by {
        g.keybindings.lemma_filter_len(is_shown(query));
    }
}

/// The view is made category by category: each category in display order
/// gets the matching shortcuts filed under it, and the categories left with
/// nothing are dropped.
pub proof fn lemma_view_by_category(catalog: Seq<KeybindingView>, query: Seq<char>)
    ensures
        view_of(catalog, query) == display_order().map_values(section_of(catalog, query)).filter(
            non_empty(),
        ),
{
    let whole = display_order().map_values(group_of(catalog));
    lemma_narrowing_empties_no_section(query);
    lemma_filter_then_map(whole, non_empty(), narrow_group(query), non_empty());
    assert(whole.map_values(narrow_group(query)) =~= display_order().map_values(
        section_of(catalog, query),
    ));
}

/// A category has a section in the view exactly when one of its shortcuts
/// matches, and the section then holds the matching shortcuts of that
/// category in catalog order.
pub proof fn lemma_view_lookup(catalog: Seq<KeybindingView>, query: Seq<char>, category: Category)
    ensures
        has_category(view_of(catalog, query), category) <==> visible(
            entries_in(catalog, category),
            query,
        ).len() > 0,
        has_category(view_of(catalog, query), category) ==> as_map(view_of(catalog, query))[category]
            == visible(entries_in(catalog, category), query),
{
    let all = display_order().map_values(section_of(catalog, query));
    let view = view_of(catalog, query);
    lemma_view_by_category(catalog, query);
    lemma_view_of_well_formed(catalog, query);
    let idx = lemma_filter_embedding(all, non_empty());
    if has_category(view, category) {
        let i = choose|i: int| 0 <= i < view.len() && (#[trigger] view[i]).category == category;
        assert(view[i] == all[idx[i]]);
        all.lemma_filter_pred(non_empty(), i);
        lemma_as_map_at(view, i);
    }
    if visible(entries_in(catalog, category), query).len() > 0 {
        let r = category.rank();
        assert(display_order()[r] == category);
        assert(all[r] == section_of(catalog, query)(category));
        all.lemma_filter_contains(non_empty(), r);
        let i = choose|i: int| 0 <= i < view.len() && view[i] == all[r];
        assert(view[i].category == category);
    }
}

/// The view comes in display order, has no category twice and no empty
/// section, and files every shortcut under its own category.
pub proof fn lemma_view_of_well_formed(catalog: Seq<KeybindingView>, query: Seq<char>)
    ensures
        well_formed(view_of(catalog, query)),
{
    lemma_groups_of_well_formed(catalog);
    lemma_narrowed_well_formed(groups_of(catalog), query);
}

/// No section of the view is empty: a category without a match is left out.
pub proof fn lemma_no_empty_section(catalog: Seq<KeybindingView>, query: Seq<char>, i: int)
    requires
        0 <= i < view_of(catalog, query).len(),
    ensures
        view_of(catalog, query)[i].keybindings.len() > 0,
{
    lemma_view_of_well_formed(catalog, query);
}

/// With nothing typed the view is the catalog split by category: every
/// category that has a shortcut has a section, and the section holds all
/// shortcuts of the category in catalog order.
pub proof fn lemma_empty_query_shows_everything(catalog: Seq<KeybindingView>)
    ensures
        view_of(catalog, Seq::empty()) == groups_of(catalog),
        forall|i: int|
            0 <= i < catalog.len() ==> has_category(
                view_of(catalog, Seq::empty()),
                (#[trigger] catalog[i]).category,
            ),
        forall|c: Category|
            has_category(view_of(catalog, Seq::empty()), c) ==> #[trigger] as_map(
                view_of(catalog, Seq::empty()),
            )[c] == entries_in(catalog, c),
{
    let query = Seq::<char>::empty();
    lemma_groups_of_well_formed(catalog);
    lemma_narrowed_by_empty_query(groups_of(catalog));
    assert forall|c: Category| visible(entries_in(catalog, c), query) == entries_in(catalog, c) by {
        crate::seq_facts::lemma_filter_keeps_all(entries_in(catalog, c), is_shown(query));
    }
    assert forall|i: int| 0 <= i < catalog.len() implies has_category(
        view_of(catalog, query),
        (#[trigger] catalog[i]).category,
    ) by {
        let c = catalog[i].category;
        catalog.lemma_filter_contains(in_category(c), i);
        lemma_view_lookup(catalog, query, c);
    }
    assert forall|c: Category| has_category(view_of(catalog, query), c) implies #[trigger] as_map(
        view_of(catalog, query),
    )[c] == entries_in(catalog, c) by {
        lemma_view_lookup(catalog, query, c);
    }
}

/// Two queries with the same lowercase form give the same view. So upper
/// and lower case in the query make no difference.
pub proof fn lemma_case_insensitive(catalog: Seq<KeybindingView>, first: Seq<char>, second: Seq<char>)
    requires
        is_same_search(first, second),
    ensures
        view_of(catalog, first) == view_of(catalog, second),
{
    assert(is_shown(first) =~= is_shown(second));
    assert(narrow_group(first) =~= narrow_group(second));
}

/// A text that holds `middle`, which holds `inner`, holds `inner`.
pub proof fn lemma_occurs_in_transitive(inner: Seq<char>, middle: Seq<char>, outer: Seq<char>)
    requires
        occurs_in(inner, middle),
        occurs_in(middle, outer),
    ensures
        occurs_in(inner, outer),
{
    let i = choose|i: int| occurs_at(inner, middle, i);
    let j = choose|j: int| occurs_at(middle, outer, j);
    assert(outer.subrange(i + j, i + j + inner.len()) =~= outer.subrange(
        j,
        j + middle.len(),
    ).subrange(i, i + inner.len()));
    assert(occurs_at(inner, outer, i + j));
}

/// Typing on narrows the view: where the lowercase form of the query so far
/// stands within that of the longer query, every shortcut shown for the
/// longer query was shown before, the longer query's view is the earlier view
/// cut down once more, and each of its sections is a subsequence of the
/// earlier section of the same category.
pub proof fn lemma_longer_query_narrows(
    catalog: Seq<KeybindingView>,
    shorter: Seq<char>,
    longer: Seq<char>,
)
    requires
        is_refined_by(shorter, longer),
    ensures
        forall|e: KeybindingView| e.is_visible(longer) ==> e.is_visible(shorter),
        view_of(catalog, longer) == narrowed(view_of(catalog, shorter), longer),
        forall|c: Category| #[trigger]
            has_category(view_of(catalog, longer), c) ==> has_category(
                view_of(catalog, shorter),
                c,
            ) && is_subsequence(
                as_map(view_of(catalog, longer))[c],
                as_map(view_of(catalog, shorter))[c],
            ),
{
    assert forall|e: KeybindingView| e.is_visible(longer) implies e.is_visible(shorter) by {
        if shorter.len() > 0 {
            let small = lowercase_of(shorter);
            let big = lowercase_of(longer);
            if occurs_in(big, lowercase_of(e.function)) {
                lemma_occurs_in_transitive(small, big, lowercase_of(e.function));
            }
            if occurs_in(big, lowercase_of(e.description)) {
                lemma_occurs_in_transitive(small, big, lowercase_of(e.description));
            }
            if occurs_in(big, lowercase_of(e.modifier_text())) {
                lemma_occurs_in_transitive(small, big, lowercase_of(e.modifier_text()));
            }
            if occurs_in(big, lowercase_of(e.key)) {
                lemma_occurs_in_transitive(small, big, lowercase_of(e.key));
            }
        }
    }
    assert forall|e: KeybindingView| #[trigger] is_shown(longer)(e) implies is_shown(shorter)(e) by {}
    assert forall|entries: Seq<KeybindingView>| #[trigger]
        visible(entries, longer) == visible(visible(entries, shorter), longer) by {
        lemma_filter_refines(entries, is_shown(shorter), is_shown(longer));
    }
    let groups = groups_of(catalog);
    let once = groups.map_values(narrow_group(shorter));
    lemma_narrowing_empties_no_section(longer);
    lemma_filter_then_map(once, non_empty(), narrow_group(longer), non_empty());
    assert(once.map_values(narrow_group(longer)) =~= groups.map_values(narrow_group(longer)));
    assert forall|c: Category| #[trigger]
        has_category(view_of(catalog, longer), c) implies has_category(
        view_of(catalog, shorter),
        c,
    ) && is_subsequence(
        as_map(view_of(catalog, longer))[c],
        as_map(view_of(catalog, shorter))[c],
    ) by {
        lemma_view_lookup(catalog, longer, c);
        lemma_view_lookup(catalog, shorter, c);
        let before = visible(entries_in(catalog, c), shorter);
        before.lemma_filter_len(is_shown(longer));
        let idx = lemma_filter_embedding(before, is_shown(longer));
        assert(is_embedding(idx, visible(before, longer), before));
    }
}

/// Within a section the shortcuts stand in the order they have in the
/// catalog: the section is a subsequence of the catalog.
pub proof fn lemma_order_preserved(catalog: Seq<KeybindingView>, query: Seq<char>, i: int)
    requires
        0 <= i < view_of(catalog, query).len(),
    ensures
        is_subsequence(view_of(catalog, query)[i].keybindings, catalog),
{
    let view = view_of(catalog, query);
    let c = view[i].category;
    lemma_view_of_well_formed(catalog, query);
    lemma_as_map_at(view, i);
    lemma_view_lookup(catalog, query, c);
    let filed = entries_in(catalog, c);
    let outer = lemma_filter_embedding(catalog, in_category(c));
    let inner = lemma_filter_embedding(filed, is_shown(query));
    let idx = lemma_embedding_compose(inner, outer, visible(filed, query), filed, catalog);
    assert(is_embedding(idx, view[i].keybindings, catalog));
}

/// Each category has one accent colour: the notation that names it is the
/// notation of its red, green and blue parts, and no other colour is written
/// that way.
pub proof fn lemma_one_accent_color(category: Category, color: Rgb)
    ensures
        category.hex_color() == hex_of(accent_of(category)),
        hex_of(color) == category.hex_color() ==> color == accent_of(category),
{
    if hex_of(color) == category.hex_color() {
        lemma_hex_names_one_color(color, accent_of(category));
    }
}

} // verus!
