use catalogue::scrape::{item_from_row, items_from_rows, CatalogueItem, MarkupScraper, ScrapedLink, ScrapedRow};

fn scraper() -> MarkupScraper {
    MarkupScraper::new().expect("the default selectors parse")
}

fn link(text: &str, href: Option<&str>) -> ScrapedLink {
    ScrapedLink { text: text.to_string(), href: href.map(|h| h.to_string()) }
}

const TWO_ROWS: &str = "<html><body><div class=\"requested\">\
    <div class=\"row\"><img src=\"/a.png\"><a class=\"resultLink\" href=\"/manga/a\">Alpha</a></div>\
    <div class=\"row\"><img src=\"/b.png\"><span>Beta</span></div>\
    </div></body></html>";

#[test]
fn scrape_two_rows_drops_the_one_without_link() {
    let items = scraper().scrape(TWO_ROWS);
    assert_eq!(items.len(), 1);
    let a: &CatalogueItem = &items[0];
    assert_eq!(a.title, "Alpha");
    assert_eq!(a.path, "/manga/a");
    assert_eq!(a.thumbnail_url, "/a.png");
    assert_eq!(a.author, "");
    assert!(a.genre.is_empty());
    assert_eq!(a.status, "");
    assert_eq!(a.description, "");
}

#[test]
fn scrape_twice_gives_the_same_items() {
    let s = scraper();
    let first = s.scrape(TWO_ROWS);
    let second = s.scrape(TWO_ROWS);
    assert_eq!(first.len(), second.len());
    for (x, y) in first.iter().zip(second.iter()) {
        assert_eq!(x.title, y.title);
        assert_eq!(x.path, y.path);
        assert_eq!(x.thumbnail_url, y.thumbnail_url);
    }
}

#[test]
fn scrape_keeps_document_order() {
    let markup = "<div class=\"requested\">\
        <div class=\"row\"><a class=\"resultLink\" href=\"/manga/one\">One</a></div>\
        <div class=\"row\"><a class=\"resultLink\" href=\"/manga/two\">Two</a></div>\
        </div>";
    let items = scraper().scrape(markup);
    assert_eq!(items.len(), 2);
    assert_eq!(items[0].title, "One");
    assert_eq!(items[1].title, "Two");
    assert_eq!(items[1].path, "/manga/two");
    assert_eq!(items[0].thumbnail_url, "");
}

#[test]
fn scrape_drops_link_without_href() {
    let markup = "<div class=\"requested\"><div class=\"row\"><a class=\"resultLink\">Nameless</a></div></div>";
    assert!(scraper().scrape(markup).is_empty());
}

#[test]
fn scrape_drops_empty_title() {
    let markup = "<div class=\"requested\"><div class=\"row\"><a class=\"resultLink\" href=\"/manga/x\"></a></div></div>";
    assert!(scraper().scrape(markup).is_empty());
}

#[test]
fn scrape_ignores_rows_outside_the_results_region() {
    let markup = "<div class=\"other\"><div class=\"row\"><a class=\"resultLink\" href=\"/manga/x\">X</a></div></div>";
    assert!(scraper().scrape(markup).is_empty());
}

#[test]
fn scrape_of_empty_markup_is_empty() {
    assert!(scraper().scrape("").is_empty());
}

#[test]
fn scrape_title_is_rendered_text() {
    let markup = "<div class=\"requested\"><div class=\"row\"><a class=\"resultLink\" href=\"/m\"><span id=\"x\" class=\"y\"><b>Bold</b> text</span></a></div></div>";
    let items = scraper().scrape(markup);
    assert_eq!(items.len(), 1);
    assert_eq!(items[0].title, "Bold text");
}

#[test]
fn scrape_drops_link_without_rendered_text() {
    let markup = "<div class=\"requested\"><div class=\"row\"><a class=\"resultLink\" href=\"/m\"><span></span></a></div></div>";
    assert!(scraper().scrape(markup).is_empty());
}

#[test]
fn row_last_link_and_last_image_win() {
    let row = ScrapedRow {
        thumbs: vec![Some("/first.png".to_string()), Some("/second.png".to_string())],
        links: vec![link("First", Some("/first")), link("Second", Some("/second"))],
    };
    let item = item_from_row(&row).expect("an item");
    assert_eq!(item.title, "Second");
    assert_eq!(item.path, "/second");
    assert_eq!(item.thumbnail_url, "/second.png");
}

#[test]
fn row_image_without_source_gives_empty_thumbnail() {
    let row = ScrapedRow { thumbs: vec![None], links: vec![link("T", Some("/t"))] };
    assert_eq!(item_from_row(&row).expect("an item").thumbnail_url, "");
}

#[test]
fn row_without_path_gives_nothing() {
    let no_href = ScrapedRow { thumbs: vec![], links: vec![link("T", None)] };
    let empty_href = ScrapedRow { thumbs: vec![], links: vec![link("T", Some(""))] };
    let no_link = ScrapedRow { thumbs: vec![Some("/x.png".to_string())], links: vec![] };
    assert!(item_from_row(&no_href).is_none());
    assert!(item_from_row(&empty_href).is_none());
    assert!(item_from_row(&no_link).is_none());
}

#[test]
fn rows_keep_order_and_drop_incomplete() {
    let rows = vec![
        ScrapedRow { thumbs: vec![], links: vec![link("A", Some("/a"))] },
        ScrapedRow { thumbs: vec![], links: vec![] },
        ScrapedRow { thumbs: vec![], links: vec![link("C", Some("/c"))] },
    ];
    let items = items_from_rows(&rows);
    assert_eq!(items.len(), 2);
    assert_eq!(items[0].title, "A");
    assert_eq!(items[1].title, "C");
}
