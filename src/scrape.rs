//! Turning a search-results document into catalogue items.

use vstd::prelude::*;
use vstd::string::StringExecFns;

verus! {

/// Selector of the result rows of a search-results document.
pub const ROW_SELECTOR: &'static str = ".requested .row";

/// Selector of the thumbnail images inside one row.
pub const THUMB_SELECTOR: &'static str = "img";

/// Attribute of a thumbnail image that holds its address.
pub const THUMB_ATTR: &'static str = "src";

/// Selector of the result links inside one row.
pub const LINK_SELECTOR: &'static str = ".resultLink";

/// Attribute of a result link that holds the item's path.
pub const LINK_ATTR: &'static str = "href";

/// One result link found inside a row: its rendered text and its target, if it
/// has one.
pub struct ScrapedLink {
    pub text: String,
    pub href: Option<String>,
}

/// What one result row holds, in the order of the parsed tree: the address attribute of each
/// thumbnail image and each result link.
pub struct ScrapedRow {
    pub thumbs: Vec<Option<String>>,
    pub links: Vec<ScrapedLink>,
}

pub struct LinkModel {
    pub text: Seq<char>,
    pub href: Option<Seq<char>>,
}

pub struct RowModel {
    pub thumbs: Seq<Option<Seq<char>>>,
    pub links: Seq<LinkModel>,
}

pub open spec fn opt_view(o: Option<String>) -> Option<Seq<char>> {
    match o {
        Some(s) => Some(s@),
        None => None,
    }
}

impl View for ScrapedLink {
    type V = LinkModel;

    open spec fn view(&self) -> LinkModel {
        LinkModel { text: self.text@, href: opt_view(self.href) }
    }
}

impl View for ScrapedRow {
    type V = RowModel;

    open spec fn view(&self) -> RowModel {
        RowModel {
            thumbs: self.thumbs@.map_values(|o: Option<String>| opt_view(o)),
            links: self.links@.map_values(|l: ScrapedLink| l@),
        }
    }
}

pub open spec fn rows_view(rows: Seq<ScrapedRow>) -> Seq<RowModel> {
    rows.map_values(|r: ScrapedRow| r@)
}

/// Whether scraper accepts `s` as a CSS selector list.
pub uninterp spec fn css_selector_valid(s: Seq<char>) -> bool;

/// The rows that scraper finds in `markup`, parsed as an HTML document: for each
/// element matching the selector `rows`, in the order in which the parser
/// created the elements, the value of the attribute `thumb_attr` of each
/// descendant matching `thumbs`, and the text nodes (concatenated in tree order)
/// and the attribute `link_attr` of each descendant matching `links`.
pub uninterp spec fn rows_in(
    markup: Seq<char>,
    rows: Seq<char>,
    thumbs: Seq<char>,
    thumb_attr: Seq<char>,
    links: Seq<char>,
    link_attr: Seq<char>,
) -> Seq<RowModel>;

/// Relies on scraper::Selector::parse: whether it accepts the selector.
#[verifier::external_body]
fn selector_is_valid(s: &str) -> (r: bool)
    ensures
        r == css_selector_valid(s@),
{
    scraper::Selector::parse(s).is_ok()
}

/// Relies on scraper::Html::parse_document, Html::select, ElementRef::select,
/// Element::attr and ElementRef::text: the rows of the document, listed as
/// `rows_in` describes. The selectors are parsed by scraper::Selector::parse,
/// which accepts them.
#[verifier::external_body]
fn select_rows(markup: &str, rows: &str, thumbs: &str, thumb_attr: &str, links: &str, link_attr: &str) -> (r: Vec<ScrapedRow>)
    requires
        css_selector_valid(rows@),
        css_selector_valid(thumbs@),
        css_selector_valid(links@),
    ensures
        rows_view(r@) == rows_in(markup@, rows@, thumbs@, thumb_attr@, links@, link_attr@),
{
    let parse = |s| scraper::Selector::parse(s).expect("valid selector");
    let (rows, thumbs, links) = (parse(rows), parse(thumbs), parse(links));
    let document = scraper::Html::parse_document(markup);
    document.select(&rows).map(|row| ScrapedRow {
        thumbs: row.select(&thumbs).map(|e| e.value().attr(thumb_attr).map(String::from)).collect(),
        links: row.select(&links).map(|e| ScrapedLink {
            text: e.text().collect::<String>(),
            href: e.value().attr(link_attr).map(String::from),
        }).collect(),
    }).collect()
}

/// A catalogue entry.
pub struct CatalogueItem {
    pub title: String,
    pub author: String,
    pub genre: Vec<String>,
    pub status: String,
    pub description: String,
    pub path: String,
    pub thumbnail_url: String,
}

pub struct ItemModel {
    pub title: Seq<char>,
    pub author: Seq<char>,
    pub genre: Seq<Seq<char>>,
    pub status: Seq<char>,
    pub description: Seq<char>,
    pub path: Seq<char>,
    pub thumbnail_url: Seq<char>,
}

impl View for CatalogueItem {
    type V = ItemModel;

    open spec fn view(&self) -> ItemModel {
        ItemModel {
            title: self.title@,
            author: self.author@,
            genre: self.genre@.map_values(|g: String| g@),
            status: self.status@,
            description: self.description@,
            path: self.path@,
            thumbnail_url: self.thumbnail_url@,
        }
    }
}

pub open spec fn items_view(items: Seq<CatalogueItem>) -> Seq<ItemModel> {
    items.map_values(|i: CatalogueItem| i@)
}

/// The thumbnail of a row: the address of its last image, empty where the row
/// has no image or that image has no address.
pub open spec fn thumbnail_of(thumbs: Seq<Option<Seq<char>>>) -> Seq<char> {
    if thumbs.len() == 0 {
        Seq::empty()
    } else {
        match thumbs.last() {
            Some(src) => src,
            None => Seq::empty(),
        }
    }
}

/// The item that a row contributes: its last result link gives the title and
/// the path; a row with no link, no path or an empty title or path gives none.
/// The fields that the list view does not show stay empty.
pub open spec fn item_of(row: RowModel) -> Option<ItemModel> {
    if row.links.len() == 0 {
        None
    } else {
        let link = row.links.last();
        match link.href {
            Some(path) => if link.text.len() > 0 && path.len() > 0 {
                Some(ItemModel {
                    title: link.text,
                    author: Seq::empty(),
                    genre: Seq::empty(),
                    status: Seq::empty(),
                    description: Seq::empty(),
                    path,
                    thumbnail_url: thumbnail_of(row.thumbs),
                })
            } else {
                None
            },
            None => None,
        }
    }
}

/// The items of a sequence of rows, in row order.
pub open spec fn items_of(rows: Seq<RowModel>) -> Seq<ItemModel>
    decreases rows.len(),
{
    if rows.len() == 0 {
        Seq::empty()
    } else {
        let rest = items_of(rows.drop_last());
        match item_of(rows.last()) {
            Some(item) => rest.push(item),
            None => rest,
        }
    }
}

/// Every item of a document, as the default selectors find them.
pub open spec fn scraped(markup: Seq<char>) -> Seq<ItemModel> {
    items_of(rows_in(markup, ROW_SELECTOR@, THUMB_SELECTOR@, THUMB_ATTR@, LINK_SELECTOR@, LINK_ATTR@))
}

fn thumbnail_from(thumbs: &Vec<Option<String>>) -> (r: String)
    ensures
        r@ == thumbnail_of(thumbs@.map_values(|o: Option<String>| opt_view(o))),
{
    let n = thumbs.len();
    if n == 0 {
        String::new()
    } else {
        match &thumbs[n - 1] {
            Some(src) => src.clone(),
            None => String::new(),
        }
    }
}

/// The item that one scraped row contributes, if any.
pub fn item_from_row(row: &ScrapedRow) -> (r: Option<CatalogueItem>)
    ensures
        match r {
            Some(item) => item_of(row@) == Some(item@),
            None => item_of(row@) is None,
        },
{
    let n = row.links.len();
    if n == 0 {
        return None;
    }
    let link = &row.links[n - 1];
    assert(row@.links.last() == link@);
    match &link.href {
        Some(href) => {
            if link.text.as_str().is_empty() || href.as_str().is_empty() {
                None
            } else {
                let item = CatalogueItem {
                    title: link.text.clone(),
                    author: String::new(),
                    genre: Vec::new(),
                    status: String::new(),
                    description: String::new(),
                    path: href.clone(),
                    thumbnail_url: thumbnail_from(&row.thumbs),
                };
                assert(item@.genre =~= Seq::<Seq<char>>::empty());
                Some(item)
            }
        },
        None => None,
    }
}

/// The items of a sequence of scraped rows, in row order: each row gives the
/// item of `item_of`, or nothing.
pub fn items_from_rows(rows: &Vec<ScrapedRow>) -> (r: Vec<CatalogueItem>)
    ensures
        items_view(r@) == items_of(rows_view(rows@)),
{
    let mut items: Vec<CatalogueItem> = Vec::new();
    let mut i: usize = 0;
    while i < rows.len()
        invariant
            i <= rows.len(),
            items_view(items@) == items_of(rows_view(rows@.take(i as int))),
        decreases rows.len() - i,
    {
        let ghost before = items@;
        let next = item_from_row(&rows[i]);
        proof {
            let taken = rows_view(rows@.take(i + 1));
            assert(taken.drop_last() =~= rows_view(rows@.take(i as int)));
            assert(taken.last() == rows@[i as int]@);
        }
        match next {
            Some(item) => {
                items.push(item);
                assert(items_view(items@) =~= items_view(before).push(items@.last()@));
            },
            None => {},
        }
        i = i + 1;
    }
    assert(rows@.take(rows.len() as int) =~= rows@);
    items
}

/// Scrapes search-results markup with a fixed set of selectors, checked once
/// when the scraper is made.
pub struct MarkupScraper {
    pub rows: String,
    pub thumbs: String,
    pub thumb_attr: String,
    pub links: String,
    pub link_attr: String,
}

impl MarkupScraper {
    /// The selectors parse.
    pub open spec fn wf(&self) -> bool {
        &&& css_selector_valid(self.rows@)
        &&& css_selector_valid(self.thumbs@)
        &&& css_selector_valid(self.links@)
    }

    /// What the scraper makes of `markup`.
    pub open spec fn items_in(&self, markup: Seq<char>) -> Seq<ItemModel> {
        items_of(rows_in(markup, self.rows@, self.thumbs@, self.thumb_attr@, self.links@, self.link_attr@))
    }

    /// The scraper with the default selectors, or `None` where one of them does
    /// not parse.
    pub fn new() -> (r: Option<MarkupScraper>)
        ensures
            r is Some <==> (css_selector_valid(ROW_SELECTOR@) && css_selector_valid(THUMB_SELECTOR@)
                && css_selector_valid(LINK_SELECTOR@)),
            r matches Some(s) ==> s.rows@ == ROW_SELECTOR@ && s.thumbs@ == THUMB_SELECTOR@
                && s.thumb_attr@ == THUMB_ATTR@ && s.links@ == LINK_SELECTOR@ && s.link_attr@ == LINK_ATTR@,
            r matches Some(s) ==> s.wf() && forall|m: Seq<char>| #[trigger] s.items_in(m) == scraped(m),
    {
        if selector_is_valid(ROW_SELECTOR) && selector_is_valid(THUMB_SELECTOR) && selector_is_valid(LINK_SELECTOR) {
            Some(MarkupScraper {
                rows: String::from_str(ROW_SELECTOR),
                thumbs: String::from_str(THUMB_SELECTOR),
                thumb_attr: String::from_str(THUMB_ATTR),
                links: String::from_str(LINK_SELECTOR),
                link_attr: String::from_str(LINK_ATTR),
            })
        } else {
            None
        }
    }

    /// The items of `markup`, in the order of its rows.
    pub fn scrape(&self, markup: &str) -> (r: Vec<CatalogueItem>)
        requires
            self.wf(),
        ensures
            items_view(r@) == self.items_in(markup@),
    {
        let rows = select_rows(
            markup,
            self.rows.as_str(),
            self.thumbs.as_str(),
            self.thumb_attr.as_str(),
            self.links.as_str(),
            self.link_attr.as_str(),
        );
        items_from_rows(&rows)
    }
}

} // verus!
