//! The controller of one catalogue view: pagination, the single fetch in
//! flight, the displayed items and their favorite flags.

use vstd::prelude::*;
use crate::query::{query_for, CatalogueQuery};
use crate::scrape::{
    items_view, scraped, CatalogueItem, ItemModel, MarkupScraper, LINK_ATTR, LINK_SELECTOR,
    ROW_SELECTOR, THUMB_ATTR, THUMB_SELECTOR,
};
use crate::scroll::{at_bottom, ScrollMonitor};

verus! {

/// What the view is made with: the remote catalogue it shows.
pub struct Props {
    pub source: String,
}

/// An event delivered to the controller.
pub enum Msg {
    /// The outstanding fetch answered with this markup.
    FetchReady(String),
    /// The outstanding fetch got no response.
    FetchFailed,
    /// The user reached the bottom of the content.
    ScrolledDown,
    /// Nothing to do.
    Noop,
}

pub enum Event {
    Ready(Seq<char>),
    Failed,
    Scrolled,
    Nothing,
}

impl View for Msg {
    type V = Event;

    open spec fn view(&self) -> Event {
        match self {
            Msg::FetchReady(markup) => Event::Ready(markup@),
            Msg::FetchFailed => Event::Failed,
            Msg::ScrolledDown => Event::Scrolled,
            Msg::Noop => Event::Nothing,
        }
    }
}

/// One entry as the presentation layer shows it.
pub struct Card {
    pub title: String,
    pub thumbnail: String,
    pub path: String,
    pub source: String,
    pub is_favorite: bool,
}

/// The state of one catalogue view.
pub struct Catalogue {
    pub source: String,
    pub page: u64,
    pub mangas: Vec<CatalogueItem>,
    pub favorites: Vec<String>,
    pub is_fetching: bool,
    pub live: bool,
    pub monitor: ScrollMonitor,
    pub scraper: MarkupScraper,
}

pub struct CatalogueModel {
    pub source: Seq<char>,
    pub page: nat,
    pub items: Seq<ItemModel>,
    pub favorites: Seq<Seq<char>>,
    pub is_fetching: bool,
    pub live: bool,
    pub monitor: ScrollMonitor,
}

impl View for Catalogue {
    type V = CatalogueModel;

    open spec fn view(&self) -> CatalogueModel {
        CatalogueModel {
            source: self.source@,
            page: self.page as nat,
            items: items_view(self.mangas@),
            favorites: self.favorites@.map_values(|f: String| f@),
            is_fetching: self.is_fetching,
            live: self.live,
            monitor: self.monitor,
        }
    }
}

/// The page of the fetch that a command starts, if any.
pub open spec fn fetch_page(c: Option<CatalogueQuery>) -> Option<nat> {
    match c {
        Some(q) => Some(q.page as nat),
        None => None,
    }
}

/// Whether `title` is one of the favorites.
pub open spec fn favorite(s: CatalogueModel, title: Seq<char>) -> bool {
    s.favorites.contains(title)
}

/// Activation: a live, idle controller starts the fetch of its current page.
pub open spec fn activate(s: CatalogueModel) -> (CatalogueModel, Option<nat>) {
    if s.live && !s.is_fetching {
        (CatalogueModel { is_fetching: true, ..s }, Some(s.page))
    } else {
        (s, None)
    }
}

/// One event: the next state and the page of the fetch to start, if any.
pub open spec fn step(s: CatalogueModel, e: Event) -> (CatalogueModel, Option<nat>) {
    if !s.live {
        (s, None)
    } else {
        match e {
            Event::Scrolled => if !s.is_fetching && s.page < u64::MAX {
                (CatalogueModel { page: s.page + 1, is_fetching: true, ..s }, Some(s.page + 1))
            } else {
                (s, None)
            },
            Event::Ready(markup) => if s.is_fetching {
                (CatalogueModel { items: scraped(markup), is_fetching: false, ..s }, None)
            } else {
                (s, None)
            },
            Event::Failed => if s.is_fetching {
                (CatalogueModel { is_fetching: false, ..s }, None)
            } else {
                (s, None)
            },
            Event::Nothing => (s, None),
        }
    }
}

/// Teardown: the controller stops taking events and its monitor is detached.
pub open spec fn teardown(s: CatalogueModel) -> CatalogueModel {
    CatalogueModel { live: false, monitor: ScrollMonitor { installed: false, ..s.monitor }, ..s }
}

impl Catalogue {
    /// Pages start at 1, and the scraper is the one with the default selectors.
    pub open spec fn wf(&self) -> bool {
        &&& self.page >= 1
        &&& self.scraper.wf()
        &&& self.scraper.rows@ == ROW_SELECTOR@
        &&& self.scraper.thumbs@ == THUMB_SELECTOR@
        &&& self.scraper.thumb_attr@ == THUMB_ATTR@
        &&& self.scraper.links@ == LINK_SELECTOR@
        &&& self.scraper.link_attr@ == LINK_ATTR@
    }

    /// A live, idle controller at page 1 with no items, whose monitor is
    /// installed; `None` where the scraper's selectors do not parse.
    pub fn create(props: Props, favorites: Vec<String>) -> (r: Option<Catalogue>)
        ensures
            r matches Some(c) ==> {
                &&& c.wf()
                &&& c@ == (CatalogueModel {
                    source: props.source@,
                    page: 1,
                    items: Seq::empty(),
                    favorites: favorites@.map_values(|f: String| f@),
                    is_fetching: false,
                    live: true,
                    monitor: ScrollMonitor { armed: true, installed: true },
                })
            },
            r is None <==> !(crate::scrape::css_selector_valid(ROW_SELECTOR@)
                && crate::scrape::css_selector_valid(THUMB_SELECTOR@)
                && crate::scrape::css_selector_valid(LINK_SELECTOR@)),
    {
        match MarkupScraper::new() {
            Some(scraper) => {
                let c = Catalogue {
                    source: props.source,
                    page: 1,
                    mangas: Vec::new(),
                    favorites,
                    is_fetching: false,
                    live: true,
                    monitor: ScrollMonitor::install(),
                    scraper,
                };
                assert(items_view(c.mangas@) =~= Seq::<ItemModel>::empty());
                Some(c)
            },
            None => None,
        }
    }

    /// Activation: starts the load of the current page, which is page 1 on a
    /// new controller.
    pub fn mounted(&mut self) -> (r: Option<CatalogueQuery>)
        requires
            old(self).wf(),
        ensures
            final(self).wf(),
            (final(self)@, fetch_page(r)) == activate(old(self)@),
            r matches Some(q) ==> q@ == query_for(q.page as nat),
    {
        if self.live && !self.is_fetching {
            self.is_fetching = true;
            Some(CatalogueQuery::with_page(self.page))
        } else {
            None
        }
    }

    /// Applies one event; returns the query of the fetch to start, if any.
    pub fn update(&mut self, msg: Msg) -> (r: Option<CatalogueQuery>)
        requires
            old(self).wf(),
        ensures
            final(self).wf(),
            (final(self)@, fetch_page(r)) == step(old(self)@, msg@),
            r matches Some(q) ==> q@ == query_for(q.page as nat),
            old(self).page <= final(self).page,
    {
        if !self.live {
            return None;
        }
        match msg {
            Msg::ScrolledDown => {
                if !self.is_fetching && self.page < u64::MAX {
                    self.page = self.page + 1;
                    self.is_fetching = true;
                    Some(CatalogueQuery::with_page(self.page))
                } else {
                    None
                }
            },
            Msg::FetchReady(markup) => {
                if self.is_fetching {
                    self.scrape_catalogue(markup.as_str());
                    self.is_fetching = false;
                }
                None
            },
            Msg::FetchFailed => {
                self.is_fetching = false;
                None
            },
            Msg::Noop => None,
        }
    }

    /// Replaces the displayed items with those scraped from `markup`.
    pub fn scrape_catalogue(&mut self, markup: &str)
        requires
            old(self).wf(),
        ensures
            final(self).wf(),
            final(self)@ == (CatalogueModel { items: scraped(markup@), ..old(self)@ }),
    {
        let items = self.scraper.scrape(markup);
        self.mangas = items;
    }

    /// A new scroll position from the viewport; where the monitor fires, the
    /// controller takes a scroll signal. Returns the query of the fetch to
    /// start, if any.
    pub fn scrolled(&mut self, reach: i64, content_height: i64) -> (r: Option<CatalogueQuery>)
        requires
            old(self).wf(),
        ensures
            final(self).wf(),
            ({
                let fire = old(self).monitor.installed && old(self).monitor.armed
                    && at_bottom(reach as int, content_height as int);
                let watched = CatalogueModel { monitor: final(self).monitor, ..old(self)@ };
                if fire {
                    (final(self)@, fetch_page(r)) == step(watched, Event::Scrolled)
                } else {
                    final(self)@ == watched && r is None
                }
            }),
            final(self).monitor.installed == old(self).monitor.installed,
            r matches Some(q) ==> q@ == query_for(q.page as nat),
    {
        let fire = self.monitor.observe(reach, content_height);
        if fire {
            self.update(Msg::ScrolledDown)
        } else {
            None
        }
    }

    /// Teardown: detaches the scroll monitor and stops taking events, so that
    /// a fetch that answers later changes nothing.
    pub fn destroy(&mut self)
        requires
            old(self).wf(),
        ensures
            final(self).wf(),
            final(self)@ == teardown(old(self)@),
    {
        self.monitor.dispose();
        self.live = false;
    }

    /// Whether the item's title is one of the favorites (exact, case-sensitive).
    pub fn is_favorite(&self, item: &CatalogueItem) -> (r: bool)
        ensures
            r == favorite(self@, item.title@),
    {
        let mut i: usize = 0;
        while i < self.favorites.len()
            invariant
                i <= self.favorites.len(),
                forall|j: int| 0 <= j < i ==> self.favorites@[j]@ != item.title@,
            decreases self.favorites.len() - i,
        {
            if self.favorites[i] == item.title {
                assert(self@.favorites[i as int] == item.title@);
                return true;
            }
            i = i + 1;
        }
        assert(!self@.favorites.contains(item.title@)) by {
            if self@.favorites.contains(item.title@) {
                let k = choose|k: int| 0 <= k < self@.favorites.len() && self@.favorites[k] == item.title@;
                assert(self.favorites@[k]@ == item.title@);
            }
        }
        false
    }

    /// The displayed entries, in item order, each with its favorite flag.
    pub fn cards(&self) -> (r: Vec<Card>)
        ensures
            r@.len() == self@.items.len(),
            forall|i: int| 0 <= i < r@.len() ==> {
                &&& (#[trigger] r@[i]).title@ == self@.items[i].title
                &&& r@[i].thumbnail@ == self@.items[i].thumbnail_url
                &&& r@[i].path@ == self@.items[i].path
                &&& r@[i].source@ == self@.source
                &&& r@[i].is_favorite == favorite(self@, self@.items[i].title)
            },
    {
        let mut cards: Vec<Card> = Vec::new();
        let mut i: usize = 0;
        while i < self.mangas.len()
            invariant
                i <= self.mangas.len(),
                cards@.len() == i,
                forall|k: int| 0 <= k < i ==> {
                    &&& (#[trigger] cards@[k]).title@ == self@.items[k].title
                    &&& cards@[k].thumbnail@ == self@.items[k].thumbnail_url
                    &&& cards@[k].path@ == self@.items[k].path
                    &&& cards@[k].source@ == self@.source
                    &&& cards@[k].is_favorite == favorite(self@, self@.items[k].title)
                },
            decreases self.mangas.len() - i,
        {
            let manga = &self.mangas[i];
            let card = Card {
                title: manga.title.clone(),
                thumbnail: manga.thumbnail_url.clone(),
                path: manga.path.clone(),
                source: self.source.clone(),
                is_favorite: self.is_favorite(manga),
            };
            let ghost before = cards@;
            cards.push(card);
            assert(forall|k: int| 0 <= k < i ==> cards@[k] == before[k]);
            i = i + 1;
        }
        cards
    }
}

} // verus!
