use catalogue::catalogue::{Catalogue, Msg, Props};
use catalogue::scroll::{reached_bottom, ScrollMonitor};

const PAGE: &str = "<div class=\"requested\">\
    <div class=\"row\"><img src=\"/a.png\"><a class=\"resultLink\" href=\"/manga/a\">Alpha</a></div>\
    <div class=\"row\"><img src=\"/b.png\"><a class=\"resultLink\" href=\"/manga/b\">Beta</a></div>\
    </div>";

const OTHER_PAGE: &str = "<div class=\"requested\">\
    <div class=\"row\"><a class=\"resultLink\" href=\"/manga/c\">Gamma</a></div>\
    </div>";

fn new_catalogue(favorites: &[&str]) -> Catalogue {
    Catalogue::create(
        Props { source: "mangasee".to_string() },
        favorites.iter().map(|f| f.to_string()).collect(),
    )
    .expect("the default selectors parse")
}

#[test]
fn create_starts_idle_at_page_one() {
    let c = new_catalogue(&[]);
    assert_eq!(c.page, 1);
    assert!(c.mangas.is_empty());
    assert!(!c.is_fetching);
    assert!(c.live);
    assert_eq!(c.source, "mangasee");
}

#[test]
fn mounted_loads_page_one() {
    let mut c = new_catalogue(&[]);
    let q = c.mounted().expect("the first load");
    assert_eq!(q.page, 1);
    assert!(c.is_fetching);
    assert!(c.mounted().is_none());
}

#[test]
fn scroll_while_fetching_is_ignored() {
    let mut c = new_catalogue(&[]);
    c.mounted().unwrap();
    for _ in 0..5 {
        assert!(c.update(Msg::ScrolledDown).is_none());
    }
    assert_eq!(c.page, 1);
}

#[test]
fn fetch_ready_replaces_items() {
    let mut c = new_catalogue(&[]);
    c.mounted().unwrap();
    assert!(c.update(Msg::FetchReady(PAGE.to_string())).is_none());
    assert!(!c.is_fetching);
    assert_eq!(c.mangas.len(), 2);
    assert_eq!(c.mangas[1].title, "Beta");
    let q = c.update(Msg::ScrolledDown).expect("the next page");
    assert_eq!(q.page, 2);
    assert_eq!(c.page, 2);
    c.update(Msg::FetchReady(OTHER_PAGE.to_string()));
    assert_eq!(c.mangas.len(), 1);
    assert_eq!(c.mangas[0].title, "Gamma");
}

#[test]
fn fetch_failure_keeps_items() {
    let mut c = new_catalogue(&[]);
    c.mounted().unwrap();
    c.update(Msg::FetchReady(PAGE.to_string()));
    c.update(Msg::ScrolledDown).unwrap();
    assert!(c.update(Msg::FetchFailed).is_none());
    assert!(!c.is_fetching);
    assert_eq!(c.mangas.len(), 2);
    assert_eq!(c.page, 2);
    assert_eq!(c.update(Msg::ScrolledDown).unwrap().page, 3);
}

#[test]
fn empty_page_is_valid() {
    let mut c = new_catalogue(&[]);
    c.mounted().unwrap();
    c.update(Msg::FetchReady("<p>no results</p>".to_string()));
    assert!(c.mangas.is_empty());
    assert!(!c.is_fetching);
}

#[test]
fn noop_changes_nothing() {
    let mut c = new_catalogue(&[]);
    assert!(c.update(Msg::Noop).is_none());
    assert_eq!(c.page, 1);
    assert!(!c.is_fetching);
}

#[test]
fn last_page_number_stays() {
    let mut c = new_catalogue(&[]);
    c.page = u64::MAX;
    assert!(c.update(Msg::ScrolledDown).is_none());
    assert_eq!(c.page, u64::MAX);
    assert!(!c.is_fetching);
}

#[test]
fn late_answer_after_destroy_is_discarded() {
    let mut c = new_catalogue(&[]);
    c.mounted().unwrap();
    c.destroy();
    assert!(!c.live);
    assert!(c.update(Msg::FetchReady(PAGE.to_string())).is_none());
    assert!(c.mangas.is_empty());
    assert!(c.is_fetching);
    assert!(c.update(Msg::ScrolledDown).is_none());
    assert!(c.scrolled(1000, 10).is_none());
    assert_eq!(c.page, 1);
}

#[test]
fn favorites_flag_cards() {
    let mut c = new_catalogue(&["Beta", "alpha"]);
    c.mounted().unwrap();
    c.update(Msg::FetchReady(PAGE.to_string()));
    let cards = c.cards();
    assert_eq!(cards.len(), 2);
    assert_eq!(cards[0].title, "Alpha");
    assert!(!cards[0].is_favorite);
    assert!(cards[1].is_favorite);
    assert_eq!(cards[0].thumbnail, "/a.png");
    assert_eq!(cards[0].path, "/manga/a");
    assert_eq!(cards[0].source, "mangasee");
    assert!(c.is_favorite(&c.mangas[1]));
    assert!(!c.is_favorite(&c.mangas[0]));
}

#[test]
fn scrolling_to_the_bottom_loads_once() {
    let mut c = new_catalogue(&[]);
    c.mounted().unwrap();
    c.update(Msg::FetchReady(PAGE.to_string()));
    assert!(c.scrolled(500, 1000).is_none());
    assert_eq!(c.scrolled(1000, 1000).unwrap().page, 2);
    c.update(Msg::FetchReady(PAGE.to_string()));
    assert!(c.scrolled(1200, 1000).is_none());
    assert_eq!(c.page, 2);
    assert!(c.scrolled(1200, 2000).is_none());
    assert_eq!(c.scrolled(2000, 2000).unwrap().page, 3);
}

#[test]
fn monitor_fires_once_per_crossing() {
    let mut m = ScrollMonitor::install();
    assert!(!m.observe(10, 100));
    assert!(m.observe(100, 100));
    assert!(!m.observe(120, 100));
    assert!(!m.observe(90, 100));
    assert!(m.observe(101, 100));
}

#[test]
fn monitor_is_silent_after_dispose() {
    let mut m = ScrollMonitor::install();
    m.dispose();
    assert!(!m.installed);
    assert!(!m.observe(100, 100));
    assert!(!m.observe(10, 100));
    assert!(!m.observe(100, 100));
}

#[test]
fn bottom_threshold() {
    assert!(reached_bottom(100, 100));
    assert!(reached_bottom(101, 100));
    assert!(!reached_bottom(99, 100));
}
