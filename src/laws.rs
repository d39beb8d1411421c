//! What holds of the scraper and of the controller over any input and any run
//! of events.

use vstd::prelude::*;
use crate::catalogue::{activate, step, teardown, CatalogueModel, Event};
use crate::scrape::{item_of, items_of, items_view, rows_in, CatalogueItem, ItemModel, MarkupScraper, RowModel};

verus! {

/// Whether the controller starts a fetch on this step.
pub open spec fn starts_fetch(s: CatalogueModel, e: Event) -> nat {
    if step(s, e).1 is Some { 1 } else { 0 }
}

/// Whether this step completes the outstanding fetch (with markup or with a
/// failure).
pub open spec fn completes_fetch(s: CatalogueModel, e: Event) -> nat {
    if s.live && s.is_fetching && (e is Ready || e is Failed) { 1 } else { 0 }
}

/// The state after a run of events, and the number of fetches started on the way.
pub open spec fn run(s: CatalogueModel, es: Seq<Event>) -> (CatalogueModel, nat)
    decreases es.len(),
{
    if es.len() == 0 {
        (s, 0)
    } else {
        let next = step(s, es[0]).0;
        let rest = run(next, es.drop_first());
        (rest.0, rest.1 + starts_fetch(s, es[0]))
    }
}

/// The number of fetches that complete during a run of events.
pub open spec fn completions(s: CatalogueModel, es: Seq<Event>) -> nat
    decreases es.len(),
{
    if es.len() == 0 {
        0
    } else {
        completions(step(s, es[0]).0, es.drop_first()) + completes_fetch(s, es[0])
    }
}

/// The number of scroll signals in a run that reach a live controller with no
/// fetch outstanding (and a page that can still be turned).
pub open spec fn idle_signals(s: CatalogueModel, es: Seq<Event>) -> nat
    decreases es.len(),
{
    if es.len() == 0 {
        0
    } else {
        let counted: nat = if es[0] is Scrolled && s.live && !s.is_fetching && s.page < u64::MAX { 1 } else { 0 };
        idle_signals(step(s, es[0]).0, es.drop_first()) + counted
    }
}

pub open spec fn all_scrolls(es: Seq<Event>) -> bool {
    forall|i: int| 0 <= i < es.len() ==> es[i] is Scrolled
}

/// Scraping is a function of the markup: any two results that `scrape` may
/// return for the same markup hold the same items, in the same order.
pub proof fn lemma_scrape_deterministic(
    s: MarkupScraper,
    markup: Seq<char>,
    first: Seq<CatalogueItem>,
    second: Seq<CatalogueItem>,
)
    requires
        items_view(first) == s.items_in(markup),
        items_view(second) == s.items_in(markup),
    ensures
        items_view(first) == items_view(second),
        items_view(first) == items_of(rows_in(markup, s.rows@, s.thumbs@, s.thumb_attr@, s.links@, s.link_attr@)),
{
}

/// The items of two runs of rows, one after the other, are the items of the
/// first followed by those of the second.
pub proof fn lemma_items_of_concat(a: Seq<RowModel>, b: Seq<RowModel>)
    ensures
        items_of(a + b) == items_of(a) + items_of(b),
    decreases b.len(),
{
    if b.len() == 0 {
        assert(a + b =~= a);
        assert(items_of(a) + items_of(b) =~= items_of(a));
    } else {
        lemma_items_of_concat(a, b.drop_last());
        assert((a + b).drop_last() =~= a + b.drop_last());
        assert((a + b).last() == b.last());
        match item_of(b.last()) {
            Some(item) => {
                assert(items_of(a) + items_of(b) =~= (items_of(a) + items_of(b.drop_last())).push(item));
            },
            None => {},
        }
    }
}

/// A row without a result link, without a path, or with an empty title or path
/// contributes no item, wherever it stands among the rows.
pub proof fn lemma_missing_field_drop(before: Seq<RowModel>, row: RowModel, after: Seq<RowModel>)
    requires
        row.links.len() == 0 || row.links.last().href is None || row.links.last().text.len() == 0
            || row.links.last().href.unwrap().len() == 0,
    ensures
        items_of(before + seq![row] + after) == items_of(before) + items_of(after),
{
    lemma_items_of_concat(before + seq![row], after);
    lemma_items_of_concat(before, seq![row]);
    assert(seq![row].drop_last() =~= Seq::<RowModel>::empty());
    assert(seq![row].last() == row);
    assert(item_of(row) is None);
    assert(items_of(Seq::<RowModel>::empty()) == Seq::<ItemModel>::empty());
    assert(items_of(seq![row]) =~= Seq::<ItemModel>::empty());
    assert(items_of(before) + items_of(seq![row]) =~= items_of(before));
}

/// Every item has a non-empty title and a non-empty path.
pub proof fn lemma_items_have_title_and_path(rows: Seq<RowModel>)
    ensures
        forall|i: int| 0 <= i < items_of(rows).len() ==> (#[trigger] items_of(rows)[i]).title.len() > 0
            && items_of(rows)[i].path.len() > 0,
    decreases rows.len(),
{
    if rows.len() > 0 {
        lemma_items_have_title_and_path(rows.drop_last());
        let rest = items_of(rows.drop_last());
        match item_of(rows.last()) {
            Some(item) => {
                assert(item.title.len() > 0 && item.path.len() > 0);
                assert(items_of(rows) == rest.push(item));
                assert forall|i: int| 0 <= i < items_of(rows).len() implies (#[trigger] items_of(rows)[i]).title.len()
                    > 0 && items_of(rows)[i].path.len() > 0 by {
                    if i < rest.len() {
                        assert(items_of(rows)[i] == rest[i]);
                    }
                }
            },
            None => {},
        }
    }
}

/// At most one fetch is in flight: over any run of events, the fetches started
/// and the one outstanding at the start are exactly those completed and the one
/// outstanding at the end.
pub proof fn lemma_single_flight(s: CatalogueModel, es: Seq<Event>)
    ensures
        run(s, es).1 + (if s.is_fetching { 1nat } else { 0nat }) == completions(s, es) + (if run(s, es).0.is_fetching {
            1nat
        } else {
            0nat
        }),
    decreases es.len(),
{
    if es.len() > 0 {
        lemma_single_flight(step(s, es[0]).0, es.drop_first());
    }
}

/// Over any run of events, the fetches started are exactly the scroll signals
/// that arrived while no fetch was outstanding; signals that arrive during a
/// fetch start nothing.
pub proof fn lemma_fetches_are_idle_signals(s: CatalogueModel, es: Seq<Event>)
    ensures
        run(s, es).1 == idle_signals(s, es),
    decreases es.len(),
{
    if es.len() > 0 {
        lemma_fetches_are_idle_signals(step(s, es[0]).0, es.drop_first());
    }
}

/// Activation of a live, idle controller starts exactly one fetch, for its
/// current page; otherwise it starts none.
pub proof fn lemma_activation_loads_once(s: CatalogueModel)
    ensures
        activate(s).1 == if s.live && !s.is_fetching { Some(s.page) } else { None },
        s.live && !s.is_fetching ==> activate(activate(s).0).1 is None,
{
}

/// Scroll signals that arrive while a fetch is outstanding start nothing and
/// change nothing.
pub proof fn lemma_scrolls_while_fetching(s: CatalogueModel, es: Seq<Event>)
    requires
        s.is_fetching,
        all_scrolls(es),
    ensures
        run(s, es) == (s, 0nat),
    decreases es.len(),
{
    if es.len() > 0 {
        assert(all_scrolls(es.drop_first()));
        lemma_scrolls_while_fetching(s, es.drop_first());
    }
}

/// A burst of scroll signals starts exactly as many fetches as signals that
/// arrive while no fetch is outstanding: one where the controller is live, idle
/// and can still turn the page, none otherwise.
pub proof fn lemma_scroll_burst(s: CatalogueModel, es: Seq<Event>)
    requires
        es.len() > 0,
        all_scrolls(es),
    ensures
        run(s, es).1 == if s.live && !s.is_fetching && s.page < u64::MAX { 1nat } else { 0nat },
    decreases es.len(),
{
    let next = step(s, es[0]).0;
    assert(es[0] is Scrolled);
    assert(all_scrolls(es.drop_first()));
    assert(run(s, es).1 == run(next, es.drop_first()).1 + starts_fetch(s, es[0]));
    if s.live && !s.is_fetching && s.page < u64::MAX {
        if es.len() > 1 {
            lemma_scrolls_while_fetching(next, es.drop_first());
        }
    } else if !s.live {
        lemma_teardown_quiet(s, es.drop_first());
    } else if s.is_fetching {
        lemma_scrolls_while_fetching(s, es.drop_first());
    } else {
        if es.len() > 1 {
            lemma_scroll_burst(s, es.drop_first());
        }
    }
}

/// The page never goes back, and it moves by exactly one for each scroll signal
/// that starts a fetch.
pub proof fn lemma_page_monotone(s: CatalogueModel, es: Seq<Event>)
    ensures
        run(s, es).0.page == s.page + run(s, es).1,
        run(s, es).0.page >= s.page,
    decreases es.len(),
{
    if es.len() > 0 {
        lemma_page_monotone(step(s, es[0]).0, es.drop_first());
    }
}

/// A controller that was torn down takes no event: whatever arrives, a late
/// fetch answer included, its state stays as it is and no fetch starts.
pub proof fn lemma_teardown_quiet(s: CatalogueModel, es: Seq<Event>)
    requires
        !s.live,
    ensures
        run(s, es) == (s, 0nat),
    decreases es.len(),
{
    if es.len() > 0 {
        lemma_teardown_quiet(s, es.drop_first());
    }
}

/// After teardown, no run of events changes the state.
pub proof fn lemma_teardown_safety(s: CatalogueModel, es: Seq<Event>)
    ensures
        run(teardown(s), es) == (teardown(s), 0nat),
{
    lemma_teardown_quiet(teardown(s), es);
}

} // verus!
