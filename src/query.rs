//! The request for one page of search results.

use vstd::prelude::*;
use vstd::string::StringExecFns;

verus! {

/// The relay that forwards the request past the browser's cross-origin rules.
pub const RELAY_PREFIX: &'static str = "https://api.allorigins.win/raw?url=";

/// The remote search endpoint.
pub const SEARCH_ENDPOINT: &'static str = "https://mangaseeonline.us/search/request.php";

/// The content type of the request body.
pub const FORM_CONTENT_TYPE: &'static str = "application/x-www-form-urlencoded; charset=utf-8";

/// The name of the header that carries the content type.
pub const CONTENT_TYPE_HEADER: &'static str = "Content-Type";

#[verifier::external_type_specification]
#[verifier::external_body]
#[verifier::reject_recursive_types(T)]
pub struct ExRequest<T>(http::Request<T>);

/// The field that results are sorted by.
#[derive(Clone, Copy, PartialEq, Eq, Structural, Debug)]
pub enum SortBy {
    Popularity,
}

/// The direction of the sort.
#[derive(Clone, Copy, PartialEq, Eq, Structural, Debug)]
pub enum SortOrder {
    Ascending,
    Descending,
}

/// One page of a search.
pub struct CatalogueQuery {
    pub keyword: String,
    pub page: u64,
    pub sort_by: SortBy,
    pub sort_order: SortOrder,
}

pub struct QueryModel {
    pub keyword: Seq<char>,
    pub page: nat,
    pub sort_by: SortBy,
    pub sort_order: SortOrder,
}

impl View for CatalogueQuery {
    type V = QueryModel;

    open spec fn view(&self) -> QueryModel {
        QueryModel {
            keyword: self.keyword@,
            page: self.page as nat,
            sort_by: self.sort_by,
            sort_order: self.sort_order,
        }
    }
}

/// A request as the transport sends it: a POST of `body` to `url`.
pub struct FetchRequest {
    pub url: String,
    pub content_type: String,
    pub body: String,
}

pub open spec fn sort_by_name(s: SortBy) -> Seq<char> {
    match s {
        SortBy::Popularity => "popularity"@,
    }
}

pub open spec fn sort_order_name(s: SortOrder) -> Seq<char> {
    match s {
        SortOrder::Ascending => "ascending"@,
        SortOrder::Descending => "descending"@,
    }
}

pub open spec fn digit(d: nat) -> char {
    if d == 0 { '0' }
    else if d == 1 { '1' }
    else if d == 2 { '2' }
    else if d == 3 { '3' }
    else if d == 4 { '4' }
    else if d == 5 { '5' }
    else if d == 6 { '6' }
    else if d == 7 { '7' }
    else if d == 8 { '8' }
    else { '9' }
}

/// The decimal digits of `n`, with no leading zero.
pub open spec fn decimal(n: nat) -> Seq<char>
    decreases n,
{
    if n < 10 {
        seq![digit(n)]
    } else {
        decimal(n / 10).push(digit(n % 10))
    }
}

/// The form fields of a query, in the order they are sent.
pub open spec fn form_pairs(q: QueryModel) -> Seq<(Seq<char>, Seq<char>)> {
    seq![
        ("keyword"@, q.keyword),
        ("page"@, decimal(q.page)),
        ("sortBy"@, sort_by_name(q.sort_by)),
        ("sortOrder"@, sort_order_name(q.sort_order)),
    ]
}

pub open spec fn pairs_view(pairs: Seq<(String, String)>) -> Seq<(Seq<char>, Seq<char>)> {
    pairs.map_values(|p: (String, String)| (p.0@, p.1@))
}

/// The default search at page `page`: no keyword, by popularity, most popular
/// first.
pub open spec fn query_for(page: nat) -> QueryModel {
    QueryModel {
        keyword: Seq::empty(),
        page,
        sort_by: SortBy::Popularity,
        sort_order: SortOrder::Descending,
    }
}

/// The body of the default search at page `page`.
pub open spec fn default_body(page: nat) -> Seq<char> {
    "keyword=&page="@ + decimal(page) + "&sortBy=popularity&sortOrder=descending"@
}

/// A character that form encoding leaves as it is.
pub open spec fn unreserved(c: char) -> bool {
    ('a' <= c && c <= 'z') || ('A' <= c && c <= 'Z') || ('0' <= c && c <= '9') || c == '*' || c == '-'
        || c == '.' || c == '_'
}

pub open spec fn all_unreserved(pairs: Seq<(Seq<char>, Seq<char>)>) -> bool {
    forall|i: int, j: int|
        0 <= i < pairs.len() ==> (0 <= j < pairs[i].0.len() ==> unreserved(#[trigger] pairs[i].0[j])) && (0
            <= j < pairs[i].1.len() ==> unreserved(pairs[i].1[j]))
}

/// The fields written `key=value` and joined by `&`, with nothing escaped.
pub open spec fn joined(pairs: Seq<(Seq<char>, Seq<char>)>) -> Seq<char>
    decreases pairs.len(),
{
    if pairs.len() == 0 {
        Seq::empty()
    } else {
        let field = pairs.last().0 + "="@ + pairs.last().1;
        if pairs.len() == 1 {
            field
        } else {
            joined(pairs.drop_last()) + "&"@ + field
        }
    }
}

/// What serde_urlencoded makes of a sequence of string pairs.
pub uninterp spec fn form_encoded(pairs: Seq<(Seq<char>, Seq<char>)>) -> Seq<char>;

/// Relies on serde_urlencoded::to_string on a sequence of string pairs: each pair
/// becomes `key=value` with both sides escaped by form_urlencoded::byte_serialize,
/// which leaves ASCII letters, digits and `*-._` as they are; pairs are joined
/// by `&`. On a sequence of pairs of strings it does not fail: the sequence is
/// serialized element by element, and a pair of a string key and a string value
/// always completes.
#[verifier::external_body]
fn form_urlencode(pairs: &Vec<(String, String)>) -> (r: String)
    ensures
        r@ == form_encoded(pairs_view(pairs@)),
        all_unreserved(pairs_view(pairs@)) ==> r@ == joined(pairs_view(pairs@)),
{
    serde_urlencoded::to_string(pairs).expect("string pairs always encode")
}

/// Whether http's request builder accepts `url` as the address and `name: value`
/// as a header.
pub uninterp spec fn http_post_accepted(url: Seq<char>, name: Seq<char>, value: Seq<char>) -> bool;

/// Relies on http::Request::post, http::request::Builder::header and
/// Builder::body: a POST request to `url` with the header `name: value` and the
/// body; `None` where the builder refuses the address or the header, which
/// depends on those three strings alone.
#[verifier::external_body]
fn http_post(url: &str, name: &str, value: &str, body: String) -> (r: Option<http::Request<String>>)
    ensures
        r is Some <==> http_post_accepted(url@, name@, value@),
{
    http::Request::post(url).header(name, value).body(body).ok()
}

proof fn lemma_decimal_unreserved(n: nat)
    ensures
        forall|j: int| 0 <= j < decimal(n).len() ==> unreserved(#[trigger] decimal(n)[j]),
    decreases n,
{
    if n >= 10 {
        lemma_decimal_unreserved(n / 10);
        assert forall|j: int| 0 <= j < decimal(n).len() implies unreserved(#[trigger] decimal(n)[j]) by {
            if j < decimal(n / 10).len() {
                assert(decimal(n)[j] == decimal(n / 10)[j]);
            }
        }
    }
}

/// The fields of the default search need no escaping, and joined they make
/// `keyword=&page=<page>&sortBy=popularity&sortOrder=descending`.
pub proof fn lemma_default_body(page: nat)
    ensures
        all_unreserved(form_pairs(query_for(page))),
        joined(form_pairs(query_for(page))) == default_body(page),
{
    reveal_strlit("keyword");
    reveal_strlit("page");
    reveal_strlit("sortBy");
    reveal_strlit("sortOrder");
    reveal_strlit("popularity");
    reveal_strlit("descending");
    reveal_strlit("=");
    reveal_strlit("&");
    reveal_strlit("keyword=&page=");
    reveal_strlit("&sortBy=popularity&sortOrder=descending");
    let pairs = form_pairs(query_for(page));
    lemma_decimal_unreserved(page);
    assert forall|i: int, j: int|
        0 <= i < pairs.len() implies (0 <= j < pairs[i].0.len() ==> unreserved(#[trigger] pairs[i].0[j])) && (0
            <= j < pairs[i].1.len() ==> unreserved(pairs[i].1[j])) by {
        if i == 1 && 0 <= j < pairs[i].1.len() {
            assert(pairs[i].1[j] == decimal(page)[j]);
        }
    }
    reveal_with_fuel(joined, 5);
    assert(pairs.drop_last().drop_last().drop_last().drop_last() =~= Seq::<(Seq<char>, Seq<char>)>::empty());
    assert(pairs.drop_last().drop_last().drop_last().len() == 1);
    assert(joined(pairs) =~= default_body(page));
}

fn digit_str(d: u64) -> (r: &'static str)
    requires
        d < 10,
    ensures
        r@ == seq![digit(d as nat)],
{
    proof {
        reveal_strlit("0");
        reveal_strlit("1");
        reveal_strlit("2");
        reveal_strlit("3");
        reveal_strlit("4");
        reveal_strlit("5");
        reveal_strlit("6");
        reveal_strlit("7");
        reveal_strlit("8");
        reveal_strlit("9");
    }
    if d == 0 { "0" }
    else if d == 1 { "1" }
    else if d == 2 { "2" }
    else if d == 3 { "3" }
    else if d == 4 { "4" }
    else if d == 5 { "5" }
    else if d == 6 { "6" }
    else if d == 7 { "7" }
    else if d == 8 { "8" }
    else { "9" }
}

/// Writes `n` in decimal at the end of `s`.
pub fn push_decimal(s: &mut String, n: u64)
    ensures
        final(s)@ == old(s)@ + decimal(n as nat),
    decreases n,
{
    if n < 10 {
        s.append(digit_str(n));
    } else {
        push_decimal(s, n / 10);
        s.append(digit_str(n % 10));
        assert(final(s)@ =~= old(s)@ + decimal(n as nat));
    }
}

impl SortBy {
    /// The name of the field as the endpoint expects it.
    pub fn name(&self) -> (r: &'static str)
        ensures
            r@ == sort_by_name(*self),
    {
        match self {
            SortBy::Popularity => "popularity",
        }
    }
}

impl SortOrder {
    /// The name of the direction as the endpoint expects it.
    pub fn name(&self) -> (r: &'static str)
        ensures
            r@ == sort_order_name(*self),
    {
        match self {
            SortOrder::Ascending => "ascending",
            SortOrder::Descending => "descending",
        }
    }
}

pub fn pair(key: &str, value: String) -> (r: (String, String))
    ensures
        r.0@ == key@,
        r.1@ == value@,
{
    (String::from_str(key), value)
}

impl FetchRequest {
    /// The request as an `http::Request` (a POST of the body to the address,
    /// with the content type as its `Content-Type` header), or `None` where its
    /// address or its content type is refused.
    pub fn to_http(&self) -> (r: Option<http::Request<String>>)
        ensures
            r is Some <==> http_post_accepted(self.url@, CONTENT_TYPE_HEADER@, self.content_type@),
    {
        http_post(self.url.as_str(), CONTENT_TYPE_HEADER, self.content_type.as_str(), self.body.clone())
    }
}

impl CatalogueQuery {
    /// The first page of the default search: no keyword, by popularity, most
    /// popular first.
    pub fn first_page() -> (r: CatalogueQuery)
        ensures
            r@ == query_for(1),
    {
        CatalogueQuery::with_page(1)
    }

    /// The default search at page `page`.
    pub fn with_page(page: u64) -> (r: CatalogueQuery)
        ensures
            r@ == query_for(page as nat),
    {
        CatalogueQuery {
            keyword: String::new(),
            page,
            sort_by: SortBy::Popularity,
            sort_order: SortOrder::Descending,
        }
    }

    /// The form fields of the query, in order.
    pub fn form_fields(&self) -> (r: Vec<(String, String)>)
        ensures
            pairs_view(r@) == form_pairs(self@),
    {
        let mut page = String::new();
        push_decimal(&mut page, self.page);
        let r = vec![
            pair("keyword", self.keyword.clone()),
            pair("page", page),
            pair("sortBy", String::from_str(self.sort_by.name())),
            pair("sortOrder", String::from_str(self.sort_order.name())),
        ];
        assert(pairs_view(r@) =~= form_pairs(self@));
        r
    }

    /// The form-encoded body of the request.
    pub fn form_body(&self) -> (r: String)
        ensures
            r@ == form_encoded(form_pairs(self@)),
            all_unreserved(form_pairs(self@)) ==> r@ == joined(form_pairs(self@)),
            self@ == query_for(self.page as nat) ==> r@ == default_body(self.page as nat),
    {
        proof {
            lemma_default_body(self.page as nat);
        }
        let fields = self.form_fields();
        form_urlencode(&fields)
    }

    /// The request for this page: a POST of the form body to the search
    /// endpoint through the relay.
    pub fn request(&self) -> (r: FetchRequest)
        ensures
            r.url@ == RELAY_PREFIX@ + SEARCH_ENDPOINT@,
            r.content_type@ == FORM_CONTENT_TYPE@,
            r.body@ == form_encoded(form_pairs(self@)),
            all_unreserved(form_pairs(self@)) ==> r.body@ == joined(form_pairs(self@)),
            self@ == query_for(self.page as nat) ==> r.body@ == default_body(self.page as nat),
    {
        proof {
            lemma_default_body(self.page as nat);
        }
        let body = self.form_body();
        let url = String::from_str(RELAY_PREFIX).concat(SEARCH_ENDPOINT);
        FetchRequest { url, content_type: String::from_str(FORM_CONTENT_TYPE), body }
    }
}

} // verus!
