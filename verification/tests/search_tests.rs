use smw_patcher::catalog::{build_records, search_url, RawRow, SearchError};
use smw_patcher::scrape::parse_search_page;
use smw_patcher::text::remove_whitespace;

fn full_row() -> RawRow {
    RawRow {
        name: Some("My Great Hack".to_string()),
        added: Some("2024-01-05 12:00:00 PM".to_string()),
        demo: Some(" No ".to_string()),
        featured: Some("\n Yes \n".to_string()),
        length: Some(" 73 exit(s) ".to_string()),
        game_type: Some(" Standard: Hard ".to_string()),
        authors: Some("author one".to_string()),
        rating: Some(" 4.8 ".to_string()),
        size: Some(" 1.52&nbsp;MiB ".to_string()),
        download_href: Some("//dl.smwcentral.net/12345/file.zip".to_string()),
        downloads: Some("9876".to_string()),
    }
}

#[test]
fn build_records_normalizes_one_row() {
    let rows = vec![full_row()];
    let records = build_records(&rows).expect("well-formed row");
    assert_eq!(records.len(), 1);
    let r = &records[0];
    assert_eq!(r.name, "My Great Hack");
    assert_eq!(r.added_timestamp, "2024-01-05");
    assert_eq!(r.demo, "No");
    assert_eq!(r.featured, "Yes");
    assert_eq!(r.length, "73 exit(s)");
    assert_eq!(r.game_type, "Standard: Hard");
    assert_eq!(r.authors, "author one");
    assert_eq!(r.rating, "4.8");
    assert_eq!(r.size, "1.52 MiB");
    assert_eq!(r.download_url, "https://dl.smwcentral.net/12345/file.zip");
    assert_eq!(r.downloads, "9876");
}

#[test]
fn build_records_keeps_source_order() {
    let mut first = full_row();
    first.name = Some("first".to_string());
    let mut second = full_row();
    second.name = Some("second".to_string());
    second.download_href = Some("http://dl.smwcentral.net/2/b.zip".to_string());
    let rows = vec![first, second];
    let records = build_records(&rows).expect("well-formed rows");
    assert_eq!(records.len(), 2);
    assert_eq!(records[0].name, "first");
    assert_eq!(records[1].name, "second");
    // The insecure scheme is upgraded, so every record is secure-absolute.
    assert_eq!(records[1].download_url, "https://dl.smwcentral.net/2/b.zip");
    for r in &records {
        assert!(r.download_url.starts_with("https://"));
    }
}

#[test]
fn build_records_empty_listing_is_ok_and_empty() {
    let rows: Vec<RawRow> = Vec::new();
    let records = build_records(&rows).expect("empty listing is not an error");
    assert!(records.is_empty());
}

#[test]
fn build_records_missing_cell_fails_whole_search() {
    let mut bad = full_row();
    bad.rating = None;
    let rows = vec![full_row(), bad, full_row()];
    match build_records(&rows) {
        Err(SearchError::Parse { row }) => assert_eq!(row, 1),
        other => panic!("expected a parse failure, got {:?}", other.is_ok()),
    }
}

#[test]
fn build_records_rejects_relative_download_link() {
    let mut bad = full_row();
    bad.download_href = Some("/local/path.zip".to_string());
    let rows = vec![bad];
    match build_records(&rows) {
        Err(SearchError::Parse { row }) => assert_eq!(row, 0),
        _ => panic!("a non-absolute link must fail the search"),
    }
}

#[test]
fn build_records_date_without_space_fails() {
    let mut bad = full_row();
    bad.added = Some("2024-01-05".to_string());
    let rows = vec![bad];
    assert!(build_records(&rows).is_err());
}

fn sample_page(rows: &str) -> String {
    format!(
        "<html><body><div id=\"list_content\"><table>\
         <tr><th>Name</th><th>Date</th></tr>{}</table></div></body></html>",
        rows
    )
}

const GOOD_ROW: &str = "<tr>\
  <td><a href=\"/x\">Cool Hack</a> <time>2024-02-10 09:00:00 AM</time></td>\
  <td> No </td><td> Yes </td><td> 10 exit(s) </td><td> Standard </td>\
  <td><a href=\"/u\">someone</a></td><td> 4.2 </td><td> 1.5 MiB </td>\
  <td><a href=\"//dl.smwcentral.net/99/cool.zip\">Download</a><span>777</span></td>\
</tr>";

#[test]
fn parse_search_page_reads_one_record() {
    let html = sample_page(GOOD_ROW);
    let records = parse_search_page(&html).expect("well-formed page");
    assert_eq!(records.len(), 1);
    let r = &records[0];
    assert_eq!(r.name, "Cool Hack");
    assert_eq!(r.added_timestamp, "2024-02-10");
    assert_eq!(r.demo, "No");
    assert_eq!(r.featured, "Yes");
    assert_eq!(r.authors, "someone");
    assert_eq!(r.download_url, "https://dl.smwcentral.net/99/cool.zip");
    assert_eq!(r.downloads, "777");
}

#[test]
fn parse_search_page_empty_table_is_empty_result() {
    let html = sample_page("");
    let records = parse_search_page(&html).expect("zero data rows are valid");
    assert!(records.is_empty());
}

#[test]
fn parse_search_page_short_row_is_parse_error() {
    let html = sample_page("<tr><td>only one cell</td></tr>");
    match parse_search_page(&html) {
        Err(SearchError::Parse { row }) => assert_eq!(row, 0),
        _ => panic!("a row missing cells must fail the search"),
    }
}

#[test]
fn search_url_escapes_the_term() {
    let url = search_url("mario world");
    assert_eq!(
        url,
        "https://www.smwcentral.net/?p=section&s=smwhacks&f%5Bname%5D=mario%20world"
    );
    let plain = search_url("akogare2");
    assert_eq!(
        plain,
        "https://www.smwcentral.net/?p=section&s=smwhacks&f%5Bname%5D=akogare2"
    );
}

#[test]
fn ordered_fields_follows_column_order() {
    let rows = vec![full_row()];
    let records = build_records(&rows).unwrap();
    let fields = records[0].ordered_fields();
    assert_eq!(
        fields,
        vec![
            "My Great Hack".to_string(),
            "2024-01-05".to_string(),
            "No".to_string(),
            "Yes".to_string(),
            "73 exit(s)".to_string(),
            "Standard: Hard".to_string(),
            "author one".to_string(),
            "4.8".to_string(),
            "1.52 MiB".to_string(),
            "9876".to_string(),
        ]
    );
}

#[test]
fn search_url_escapes_multibyte_characters() {
    let url = search_url("café+");
    assert_eq!(
        url,
        "https://www.smwcentral.net/?p=section&s=smwhacks&f%5Bname%5D=caf%C3%A9%2B"
    );
}

#[test]
fn size_cell_replaces_every_nbsp_entity() {
    let mut row = full_row();
    row.size = Some("&nbsp;1&nbsp;022,5&nbsp;KiB&nbsp;".to_string());
    let records = build_records(&vec![row]).expect("well-formed row");
    assert_eq!(records[0].size, " 1 022,5 KiB ");
}

#[test]
fn remove_whitespace_strips_blanks() {
    assert_eq!(remove_whitespace(&"a b\tc\nd".to_string()), "abcd");
    assert_eq!(remove_whitespace(&"  spaced  out  ".to_string()), "spacedout");
    assert_eq!(remove_whitespace(&"plain".to_string()), "plain");
}

#[test]
fn remove_whitespace_covers_unicode_whitespace() {
    assert_eq!(remove_whitespace(&"a\u{b}b\u{c}c".to_string()), "abc");
    assert_eq!(remove_whitespace(&"x\u{a0}y\u{2003}z".to_string()), "xyz");
    let reference = "a\u{b} \u{a0}b";
    let expected: String = reference.split_whitespace().collect::<Vec<_>>().join("");
    assert_eq!(remove_whitespace(&reference.to_string()), expected);
}

#[test]
fn cells_are_trimmed_like_unicode_trim() {
    let mut row = full_row();
    row.demo = Some("\u{a0} No \u{2002}".to_string());
    let records = build_records(&vec![row]).expect("well-formed row");
    assert_eq!(records[0].demo, "\u{a0} No \u{2002}".trim());
    assert_eq!(records[0].demo, "No");
}
