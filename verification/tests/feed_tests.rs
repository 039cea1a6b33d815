use paper_reader::error::AppError;
use paper_reader::feed::{parse_arxiv_entries, parse_link, search_hits_from_feed, FeedEvent, FeedMode, FeedNeed, FeedParser, FeedTag, TextSlot};

const FEED: &str = r#"<?xml version="1.0" encoding="UTF-8"?>
<feed xmlns="http://www.w3.org/2005/Atom">
  <title>ArXiv Query</title>
  <entry>
    <id>http://arxiv.org/abs/2401.01234v1</id>
    <published>2024-01-03T00:00:00Z</published>
    <title>A Study
      of Things</title>
    <summary>We study things.</summary>
    <author><name>Ada Lovelace</name></author>
    <author><name></name></author>
    <author><name>Alan Turing</name></author>
    <link href="http://arxiv.org/abs/2401.01234v1" rel="alternate" type="text/html"/>
    <link title="pdf" href="http://arxiv.org/pdf/2401.01234v1" rel="related" type="application/pdf"/>
  </entry>
  <entry>
    <id>http://arxiv.org/abs/2402.00001v2</id>
    <title>Second</title>
    <summary>More.</summary>
    <published>2023-05-01T00:00:00Z</published>
    <link href="http://arxiv.org/abs/2402.00001v2"><link href="ignored"/></link>
  </entry>
</feed>"#;

#[test]
fn feeds_yield_their_entries() {
    let entries = match parse_arxiv_entries(FEED) {
        Ok(entries) => entries,
        Err(_) => panic!("the feed should parse"),
    };
    assert_eq!(entries.len(), 2);
    let first = &entries[0];
    assert_eq!(first.id, "http://arxiv.org/abs/2401.01234v1");
    assert_eq!(first.summary, "We study things.");
    assert_eq!(first.published, "2024-01-03T00:00:00Z");
    assert!(first.title.starts_with("A Study"));
    let names: Vec<&str> = first.authors.iter().map(|a| a.name.as_str()).collect();
    assert_eq!(names, vec!["Ada Lovelace", "Alan Turing"]);
    assert_eq!(first.links.len(), 2);
    assert_eq!(first.links[1].title.as_deref(), Some("pdf"));
    let second = &entries[1];
    assert_eq!(second.title, "Second");
    assert_eq!(second.links.len(), 1);
    assert_eq!(second.links[0].href, "http://arxiv.org/abs/2402.00001v2");
}

#[test]
fn a_feed_cut_inside_an_entry_is_refused() {
    let cut = "<feed><entry><id>x</id>";
    assert!(matches!(
        parse_arxiv_entries(cut),
        Err(AppError::UpstreamUnavailable(m)) if m == "unexpected end of arXiv feed"
    ));
    assert!(matches!(parse_arxiv_entries("<feed></feed>"), Ok(entries) if entries.is_empty()));
}

fn tag(name: &str, attributes: &[(&str, &str)]) -> FeedTag {
    FeedTag {
        name: name.as_bytes().to_vec(),
        attributes: attributes.iter().map(|(k, v)| (k.as_bytes().to_vec(), v.as_bytes().to_vec())).collect(),
    }
}

#[test]
fn links_take_their_last_href_and_title() {
    let link = parse_link(&tag("link", &[("title", "a"), ("href", "x"), ("href", "y")])).expect("a link");
    assert_eq!(link.href, "y");
    assert_eq!(link.title.as_deref(), Some("a"));
    assert!(parse_link(&tag("link", &[("title", "pdf")])).is_none());
}

#[test]
fn the_parser_asks_for_texts_and_skips_nested_links() {
    let mut parser = FeedParser::new();
    assert!(matches!(parser.feed_event(FeedEvent::Start(tag("entry", &[]))), FeedNeed::Event));
    assert!(parser.mode == FeedMode::InEntry);
    match parser.feed_event(FeedEvent::Start(tag("title", &[]))) {
        FeedNeed::Text(name, slot) => {
            assert_eq!(name, "title");
            assert!(slot == TextSlot::Title);
            parser.feed_text(slot, "T".into());
        }
        _ => panic!("expected a text request"),
    }
    parser.feed_event(FeedEvent::Start(tag("link", &[("href", "h")])));
    assert!(parser.mode == FeedMode::InLink(0));
    parser.feed_event(FeedEvent::Start(tag("link", &[])));
    assert!(parser.mode == FeedMode::InLink(1));
    parser.feed_event(FeedEvent::End(b"link".to_vec()));
    parser.feed_event(FeedEvent::End(b"link".to_vec()));
    assert!(parser.mode == FeedMode::InEntry);
    parser.feed_text(TextSlot::AuthorName, "nobody".into());
    assert!(parser.author.is_none());
    assert!(matches!(parser.feed_event(FeedEvent::End(b"entry".to_vec())), FeedNeed::Event));
    assert_eq!(parser.entries.len(), 1);
    assert_eq!(parser.entries[0].title, "T");
    assert_eq!(parser.entries[0].links.len(), 1);
    assert!(matches!(parser.feed_event(FeedEvent::Eof), FeedNeed::Finished));
}

#[test]
fn a_feed_reply_becomes_search_hits() {
    let hits = match search_hits_from_feed(FEED) {
        Ok(hits) => hits,
        Err(_) => panic!("the feed should give hits"),
    };
    assert_eq!(hits.len(), 2);
    assert_eq!(hits[0].id, "src_arxiv_2401_01234v1");
    assert_eq!(hits[0].title, "A Study of Things");
    assert_eq!(hits[0].pdf_url.as_deref(), Some("http://arxiv.org/pdf/2401.01234v1.pdf"));
    assert_eq!(hits[1].year, Some(2023));
    assert!(matches!(
        search_hits_from_feed("<feed><entry>"),
        Err(AppError::UpstreamUnavailable(m)) if m == "unexpected end of arXiv feed"
    ));
}
