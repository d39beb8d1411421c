//! A client-side manga catalogue: scraping of search-result markup, the form
//! request for one page of results, the scroll monitor that asks for more, the
//! controller that owns the pagination state, and the laws that hold of them
//! over any input and any run of events.

pub mod scrape;
pub mod query;
pub mod scroll;
pub mod catalogue;
pub mod laws;
