//! Reading the catalog listing out of its markup.
//!
//! The `scraper` crate does the markup work behind trusted cell readers.
//! A parsed page is modelled by its source text, which it keeps beside the
//! document — parsing and selecting are pure functions of that text, so
//! each reader's result is named by an uninterpreted spec function of
//! (source, row, column).  The verified scan assembles the raw rows from
//! those readers, and `catalog::build_records` judges them strictly.

use vstd::prelude::*;
use crate::catalog::{
    RawRow, RowModel, RomHackDetails, SearchError, build_records, model_of, row_ok,
    record_matches, url_secure, lemma_record_url_secure,
};

verus! {

#[verifier::external_type_specification]
#[verifier::external_body]
pub struct ExHtml(scraper::Html);

/// How many elements the fixed results-row selector matches in this text
/// (the header row included).
pub uninterp spec fn scraped_row_count(html: Seq<char>) -> nat;

/// The inner markup of cell `col` of row `row`, or `None` when the row or
/// the cell does not exist.
pub uninterp spec fn scraped_cell_text(html: Seq<char>, row: int, col: int) -> Option<Seq<char>>;

/// The inner markup of the first link in that cell, if any.
pub uninterp spec fn scraped_link_text(html: Seq<char>, row: int, col: int) -> Option<Seq<char>>;

/// The `href` attribute of the first link in that cell, if any.
pub uninterp spec fn scraped_link_href(html: Seq<char>, row: int, col: int) -> Option<Seq<char>>;

/// The inner markup of the first `time` element in that cell, if any.
pub uninterp spec fn scraped_time_text(html: Seq<char>, row: int, col: int) -> Option<Seq<char>>;

/// The inner markup of the first `span` element in that cell, if any.
pub uninterp spec fn scraped_span_text(html: Seq<char>, row: int, col: int) -> Option<Seq<char>>;

/// A parsed catalog response, modelled by the source text it was parsed
/// from, which it keeps so that contracts can speak of it.
pub struct CatalogPage {
    doc: scraper::Html,
    source: String,
}

impl CatalogPage {
    /// The markup text this page was parsed from.
    pub closed spec fn text(&self) -> Seq<char> {
        self.source@
    }

    /// Relies on `scraper::Html::parse_document`: parsing is a pure
    /// function of the markup text.
    #[verifier::external_body]
    pub fn parse(html: &str) -> (r: CatalogPage)
        ensures
            r.text() == html@,
    {
        CatalogPage { doc: scraper::Html::parse_document(html), source: html.to_string() }
    }

    /// Relies on `scraper::Html::select` with the fixed results-row
    /// selector: which elements match, and their order, are pure functions
    /// of the source text.
    #[verifier::external_body]
    fn row_count(&self) -> (n: usize)
        ensures
            n as nat == scraped_row_count(self.text()),
    {
        match scraper::Selector::parse("#list_content tr") {
            Ok(sel) => self.doc.select(&sel).count(),
            Err(_) => 0,
        }
    }

    /// Relies on `Html::select`, `ElementRef::select` and
    /// `ElementRef::inner_html`: the cell at (row, col) and its markup are
    /// pure functions of the source text.
    #[verifier::external_body]
    fn cell_text(&self, row: usize, col: usize) -> (r: Option<String>)
        ensures
            r.deep_view() == scraped_cell_text(self.text(), row as int, col as int),
    {
        let tr = scraper::Selector::parse("#list_content tr").ok()?;
        let td = scraper::Selector::parse("td").ok()?;
        let cell = self.doc.select(&tr).nth(row)?.select(&td).nth(col)?;
        Some(cell.inner_html())
    }

    /// Relies on the same selection chain plus a nested `a` lookup: the
    /// first link's markup in that cell is a pure function of the source
    /// text.
    #[verifier::external_body]
    fn link_text(&self, row: usize, col: usize) -> (r: Option<String>)
        ensures
            r.deep_view() == scraped_link_text(self.text(), row as int, col as int),
    {
        let tr = scraper::Selector::parse("#list_content tr").ok()?;
        let td = scraper::Selector::parse("td").ok()?;
        let a = scraper::Selector::parse("a").ok()?;
        let cell = self.doc.select(&tr).nth(row)?.select(&td).nth(col)?;
        Some(cell.select(&a).next()?.inner_html())
    }

    /// Relies on the same selection chain plus `ElementRef::attr`: the
    /// first link's `href` in that cell is a pure function of the source
    /// text.
    #[verifier::external_body]
    fn link_href(&self, row: usize, col: usize) -> (r: Option<String>)
        ensures
            r.deep_view() == scraped_link_href(self.text(), row as int, col as int),
    {
        let tr = scraper::Selector::parse("#list_content tr").ok()?;
        let td = scraper::Selector::parse("td").ok()?;
        let a = scraper::Selector::parse("a").ok()?;
        let cell = self.doc.select(&tr).nth(row)?.select(&td).nth(col)?;
        Some(cell.select(&a).next()?.attr("href")?.to_string())
    }

    /// Relies on the same selection chain plus a nested `time` lookup.
    #[verifier::external_body]
    fn time_text(&self, row: usize, col: usize) -> (r: Option<String>)
        ensures
            r.deep_view() == scraped_time_text(self.text(), row as int, col as int),
    {
        let tr = scraper::Selector::parse("#list_content tr").ok()?;
        let td = scraper::Selector::parse("td").ok()?;
        let t = scraper::Selector::parse("time").ok()?;
        let cell = self.doc.select(&tr).nth(row)?.select(&td).nth(col)?;
        Some(cell.select(&t).next()?.inner_html())
    }

    /// Relies on the same selection chain plus a nested `span` lookup.
    #[verifier::external_body]
    fn span_text(&self, row: usize, col: usize) -> (r: Option<String>)
        ensures
            r.deep_view() == scraped_span_text(self.text(), row as int, col as int),
    {
        let tr = scraper::Selector::parse("#list_content tr").ok()?;
        let td = scraper::Selector::parse("td").ok()?;
        let sp = scraper::Selector::parse("span").ok()?;
        let cell = self.doc.select(&tr).nth(row)?.select(&td).nth(col)?;
        Some(cell.select(&sp).next()?.inner_html())
    }
}

/// How many data rows the listing holds: every matched row but the header.
pub open spec fn data_row_count(html: Seq<char>) -> int {
    if scraped_row_count(html) == 0 {
        0
    } else {
        scraped_row_count(html) - 1
    }
}

/// What the readers yield for data row `i` (rows count from 1; row 0 is
/// the header): the fixed ten-column layout of the listing.
pub open spec fn scraped_row(html: Seq<char>, i: int) -> RowModel {
    RowModel {
        name: scraped_link_text(html, i, 0),
        added: scraped_time_text(html, i, 0),
        demo: scraped_cell_text(html, i, 1),
        featured: scraped_cell_text(html, i, 2),
        length: scraped_cell_text(html, i, 3),
        game_type: scraped_cell_text(html, i, 4),
        authors: scraped_link_text(html, i, 5),
        rating: scraped_cell_text(html, i, 6),
        size: scraped_cell_text(html, i, 7),
        download_href: scraped_link_href(html, i, 8),
        downloads: scraped_span_text(html, i, 8),
    }
}

/// Collects the raw cell values of every data row, in listing order: one
/// `RawRow` per data row, each holding exactly what the readers yield.
fn scrape_catalog_rows(page: &CatalogPage) -> (rows: Vec<RawRow>)
    ensures
        rows@.len() == data_row_count(page.text()),
        forall|k: int|
            0 <= k < rows@.len() ==> model_of(#[trigger] rows@[k]) == scraped_row(
                page.text(),
                k + 1,
            ),
{
    let n = page.row_count();
    let mut rows: Vec<RawRow> = Vec::new();
    let mut i: usize = 1;
    while i < n
        invariant
            1 <= i <= n || (n == 0 && i == 1),
            n as nat == scraped_row_count(page.text()),
            rows@.len() == i - 1 || (n == 0 && rows@.len() == 0),
            forall|k: int|
                0 <= k < rows@.len() ==> model_of(#[trigger] rows@[k]) == scraped_row(
                    page.text(),
                    k + 1,
                ),
        decreases n - i,
    {
        let row = RawRow {
            name: page.link_text(i, 0),
            added: page.time_text(i, 0),
            demo: page.cell_text(i, 1),
            featured: page.cell_text(i, 2),
            length: page.cell_text(i, 3),
            game_type: page.cell_text(i, 4),
            authors: page.link_text(i, 5),
            rating: page.cell_text(i, 6),
            size: page.cell_text(i, 7),
            download_href: page.link_href(i, 8),
            downloads: page.span_text(i, 8),
        };
        assert(model_of(row) == scraped_row(page.text(), i as int));
        rows.push(row);
        i = i + 1;
    }
    rows
}

/// Parses one catalog response body into the result set: scrape the data
/// rows the readers yield, then build records strictly.  `Ok` exactly when
/// every data row is well-formed — zero data rows are a valid, empty result
/// — with one record per row, in listing order, each carrying a non-empty
/// secure absolute download URL; otherwise `Parse` names the first
/// malformed data row.
pub fn parse_search_page(html: &str) -> (r: Result<Vec<RomHackDetails>, SearchError>)
    ensures
        ({
            let n = data_row_count(html@);
            match r {
                Ok(v) => {
                    &&& v@.len() == n
                    &&& forall|k: int| 0 <= k < n ==> row_ok(#[trigger] scraped_row(html@, k + 1))
                    &&& forall|k: int|
                        0 <= k < n ==> record_matches(
                            #[trigger] v@[k],
                            scraped_row(html@, k + 1),
                        )
                    &&& forall|k: int|
                        0 <= k < n ==> url_secure(#[trigger] v@[k].download_url@)
                            && v@[k].download_url@.len() > 0
                },
                Err(e) => {
                    &&& e matches SearchError::Parse { row }
                    &&& e->row < n
                    &&& !row_ok(scraped_row(html@, e->row + 1))
                    &&& forall|j: int|
                        0 <= j < e->row ==> row_ok(#[trigger] scraped_row(html@, j + 1))
                },
            }
        }),
{
    let page = CatalogPage::parse(html);
    let rows = scrape_catalog_rows(&page);
    let ghost n = data_row_count(html@);
    match build_records(&rows) {
        Ok(v) => {
            proof {
                assert forall|k: int|
                    0 <= k < n implies row_ok(#[trigger] scraped_row(html@, k + 1))
                    && record_matches(v@[k], scraped_row(html@, k + 1)) by {
                    assert(model_of(rows@[k]) == scraped_row(html@, k + 1));
                }
                assert forall|k: int|
                    0 <= k < n implies url_secure(#[trigger] v@[k].download_url@)
                    && v@[k].download_url@.len() > 0 by {
                    lemma_record_url_secure(v@[k], model_of(rows@[k]));
                }
            }
            Ok(v)
        },
        Err(e) => {
            proof {
                let row = e->row;
                assert(model_of(rows@[row as int]) == scraped_row(html@, row + 1));
                assert forall|j: int|
                    0 <= j < row implies row_ok(#[trigger] scraped_row(html@, j + 1)) by {
                    assert(model_of(rows@[j]) == scraped_row(html@, j + 1));
                }
            }
            Err(e)
        },
    }
}

} // verus!
