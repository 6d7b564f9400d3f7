use article_parser::errors::{HtmlErrorCause, InternalParseError};
use article_parser::parse_article_html;
use article_parser::publishers::{guardian, independent, mirror};
use article_parser::root_structs::{ParsedPageContent, Publisher};
use article_parser::{Attr, Doc};

fn el(d: &mut Doc, parent: Option<usize>, tag: &str, attrs: &[(&str, &str)]) -> usize {
    let a = attrs
        .iter()
        .map(|(n, v)| Attr { name: n.to_string(), value: v.to_string() })
        .collect();
    d.push_element(parent, tag.to_string(), a)
}

fn tx(d: &mut Doc, parent: usize, text: &str) {
    d.push_text(parent, text.to_string());
}

// 2020-01-01T00:00:00Z and 2020-01-02T03:04:05Z in epoch milliseconds.
const JAN1: i64 = 1_577_836_800_000;
const JAN2: i64 = 1_577_934_245_000;

fn guardian_doc(with_updated: bool, updated_value: &str, second_h1: Option<&str>) -> Doc {
    let mut d = Doc::new();
    let html = el(&mut d, None, "html", &[]);
    let head = el(&mut d, Some(html), "head", &[]);
    el(&mut d, Some(head), "meta", &[("name", "twitter:text:title"), ("content", "Social Headline")]);
    if with_updated {
        el(&mut d, Some(head), "meta", &[("property", "article:modified_time"), ("content", updated_value)]);
    }
    el(&mut d, Some(head), "meta", &[("property", "article:published_time"), ("content", "2020-01-01T00:00:00Z")]);
    let body = el(&mut d, Some(html), "body", &[]);
    let col = el(&mut d, Some(body), "div", &[("class", "content__main-column")]);
    let header = el(&mut d, Some(col), "header", &[]);
    let h1 = el(&mut d, Some(header), "h1", &[("class", "content__headline")]);
    tx(&mut d, h1, "  Test \t Headline ");
    if let Some(other) = second_h1 {
        let h1b = el(&mut d, Some(header), "h1", &[("class", "content__headline")]);
        tx(&mut d, h1b, other);
    }
    let sf = el(&mut d, Some(header), "div", &[("class", "content__standfirst")]);
    tx(&mut d, sf, "Test Description");
    let fig = el(&mut d, Some(header), "figure", &[("class", "media-primary")]);
    el(&mut d, Some(fig), "img", &[("alt", "Lead alt"), ("src", "https://pictures.example/lead.jpg")]);
    let cap = el(&mut d, Some(fig), "figcaption", &[("class", "caption")]);
    tx(&mut d, cap, "Lead caption");
    let content = el(&mut d, Some(body), "div", &[("class", "content__article-body")]);
    let p1 = el(&mut d, Some(content), "p", &[]);
    tx(&mut d, p1, "Para one.");
    let imgfig = el(&mut d, Some(content), "figure", &[("class", "element-image")]);
    el(&mut d, Some(imgfig), "img", &[("alt", "Inline alt"), ("src", "https://pictures.example/in.jpg")]);
    let icap = el(&mut d, Some(imgfig), "figcaption", &[("class", "caption")]);
    tx(&mut d, icap, "Inline caption");
    el(&mut d, Some(content), "figure", &[("class", "element-interactive")]);
    let vfig = el(&mut d, Some(content), "figure", &[("class", "element"), ("data-atom-type", "media")]);
    let vcap = el(&mut d, Some(vfig), "figcaption", &[("class", "caption")]);
    tx(&mut d, vcap, "Video caption");
    el(&mut d, Some(vfig), "div", &[("class", "youtube-media-atom__iframe"), ("data-asset-id", "abc123")]);
    let p2 = el(&mut d, Some(content), "p", &[]);
    tx(&mut d, p2, "Para two.");
    d
}

#[test]
fn guardian_full_article() {
    let d = guardian_doc(true, "2020-01-02T03:04:05Z", None);
    let c = match guardian::parse(&d).unwrap() {
        ParsedPageContent::NewsArticle(c) => c,
        other => panic!("expected a news article, got {:?}", other),
    };
    assert_eq!(c.headline.as_str(), "Test Headline");
    assert_eq!(c.twitter_headline.as_deref(), Some("Social Headline"));
    assert_eq!(c.description.as_str(), "Test Description");
    assert_eq!(c.thumbnail.alt.as_deref(), Some("Lead alt"));
    assert_eq!(c.thumbnail.url.as_deref(), Some("https://pictures.example/lead.jpg"));
    assert_eq!(c.thumbnail.caption.as_deref(), Some("Lead caption"));
    assert!(c.categories.is_empty());
    assert_eq!(c.images.len(), 2);
    assert_eq!(c.images[0].alt.as_deref(), Some("Inline alt"));
    assert_eq!(c.images[0].url.as_deref(), Some("https://pictures.example/in.jpg"));
    assert_eq!(c.images[0].caption.as_deref(), Some("Inline caption"));
    assert_eq!(c.images[1].alt, None);
    assert_eq!(c.images[1].url, None);
    assert_eq!(c.images[1].caption, None);
    assert_eq!(c.videos.len(), 1);
    assert_eq!(c.videos[0].url.as_deref(), Some("https://www.youtube.com/watch?v=abc123"));
    assert_eq!(c.videos[0].caption.as_deref(), Some("Video caption"));
    assert_eq!(c.body.as_str(), "Para one.\nPara two.");
    assert_eq!(c.date_updated, JAN2);
    assert_eq!(c.date_published, JAN1);
}

#[test]
fn guardian_identical_headlines_tolerated() {
    let d = guardian_doc(true, "2020-01-02T03:04:05Z", Some("Test  Headline"));
    let c = match guardian::parse(&d).unwrap() {
        ParsedPageContent::NewsArticle(c) => c,
        other => panic!("expected a news article, got {:?}", other),
    };
    assert_eq!(c.headline.as_str(), "Test Headline");
}

#[test]
fn guardian_differing_headlines_rejected() {
    let d = guardian_doc(true, "2020-01-02T03:04:05Z", Some("Another Headline"));
    match guardian::parse(&d) {
        Err(InternalParseError::UnknownError(m)) => {
            assert_eq!(m, "Unknown headline type - too many <h1>s with differing text");
        }
        other => panic!("expected the ambiguous-headline error, got {:?}", other),
    }
}

#[test]
fn guardian_video_article_rejected_before_extraction() {
    let mut d = Doc::new();
    let html = el(&mut d, None, "html", &[]);
    let body = el(&mut d, Some(html), "body", &[]);
    let wrap = el(&mut d, Some(body), "div", &[]);
    el(
        &mut d,
        Some(wrap),
        "article",
        &[
            ("id", "article"),
            ("itemtype", "http://schema.org/VideoObject"),
            ("class", "content--media--video"),
        ],
    );
    match guardian::parse(&d) {
        Err(InternalParseError::UnknownError(m)) => {
            assert_eq!(m, "Article type: video article, not yet supported");
        }
        other => panic!("expected the video-precheck error, got {:?}", other),
    }
}

#[test]
fn guardian_missing_updated_timestamp_fails() {
    let d = guardian_doc(false, "", None);
    match guardian::parse(&d) {
        Err(InternalParseError::HtmlStructureError(e)) => {
            assert!(matches!(e.cause, HtmlErrorCause::MissingElement));
            assert_eq!(e.selector.as_str(), "meta[property=\"article:modified_time\"]");
        }
        other => panic!("expected a structural error, got {:?}", other),
    }
}

#[test]
fn guardian_invalid_timestamp_fails() {
    let d = guardian_doc(true, "yesterday teatime", None);
    match guardian::parse(&d) {
        Err(InternalParseError::InvalidDateTime(_)) => {}
        other => panic!("expected an invalid-datetime error, got {:?}", other),
    }
}

// A mirror document whose first content child is the headline, which matches
// no thumbnail shape.
fn mirror_doc_headline_first() -> Doc {
    let mut d = Doc::new();
    let html = el(&mut d, None, "html", &[]);
    let head = el(&mut d, Some(html), "head", &[]);
    el(&mut d, Some(head), "meta", &[("property", "article:modified_time"), ("content", "2020-01-02T03:04:05Z")]);
    el(&mut d, Some(head), "meta", &[("property", "article:published_time"), ("content", "2020-01-01T00:00:00Z")]);
    let body = el(&mut d, Some(html), "body", &[]);
    let main = el(&mut d, Some(body), "main", &[]);
    let article = el(&mut d, Some(main), "article", &[("class", "article-main")]);
    let wrapper = el(&mut d, Some(article), "div", &[("class", "article-wrapper")]);
    let content = el(&mut d, Some(wrapper), "div", &[("class", "content-column")]);
    let h1 = el(&mut d, Some(content), "h1", &[]);
    tx(&mut d, h1, " Mirror  Headline ");
    let sub = el(&mut d, Some(content), "p", &[("class", "sub-title")]);
    tx(&mut d, sub, "Mirror Description");
    let abody = el(&mut d, Some(content), "div", &[("class", "article-body")]);
    let p1 = el(&mut d, Some(abody), "p", &[]);
    tx(&mut d, p1, "First paragraph.");
    d
}

#[test]
fn mirror_full_article() {
    // The first content child must be the thumbnail figure, so build the doc
    // with the figure before the headline.
    let mut d = Doc::new();
    let html = el(&mut d, None, "html", &[]);
    let head = el(&mut d, Some(html), "head", &[]);
    el(&mut d, Some(head), "meta", &[("property", "article:modified_time"), ("content", "2020-01-02T03:04:05Z")]);
    el(&mut d, Some(head), "meta", &[("property", "article:published_time"), ("content", "2020-01-01T00:00:00Z")]);
    let body = el(&mut d, Some(html), "body", &[]);
    let main = el(&mut d, Some(body), "main", &[]);
    let article = el(&mut d, Some(main), "article", &[("class", "article-main")]);
    let wrapper = el(&mut d, Some(article), "div", &[("class", "article-wrapper")]);
    let content = el(&mut d, Some(wrapper), "div", &[("class", "content-column")]);
    let fig = el(&mut d, Some(content), "figure", &[("class", "lead-article-image")]);
    el(&mut d, Some(fig), "img", &[("alt", "Lead alt"), ("src", "https://pictures.example/mirror.jpg")]);
    let figcap = el(&mut d, Some(fig), "figcaption", &[]);
    let span = el(&mut d, Some(figcap), "span", &[("class", "caption")]);
    tx(&mut d, span, "Mirror caption");
    let h1 = el(&mut d, Some(content), "h1", &[]);
    tx(&mut d, h1, " Mirror  Headline ");
    let sub = el(&mut d, Some(content), "p", &[("class", "sub-title")]);
    tx(&mut d, sub, "Mirror Description");
    let abody = el(&mut d, Some(content), "div", &[("class", "article-body")]);
    let p1 = el(&mut d, Some(abody), "p", &[]);
    tx(&mut d, p1, "First paragraph.");
    let infig = el(&mut d, Some(abody), "figure", &[("class", "in-article-image")]);
    el(&mut d, Some(infig), "img", &[("alt", "In alt")]);
    el(&mut d, Some(infig), "meta", &[("itemprop", "url"), ("content", "https://pictures.example/in-mirror.jpg")]);
    let incap = el(&mut d, Some(infig), "figcaption", &[]);
    let inspan = el(&mut d, Some(incap), "span", &[("class", "caption")]);
    tx(&mut d, inspan, "In caption");
    let ul = el(&mut d, Some(abody), "ul", &[]);
    tx(&mut d, ul, "Bullet.");

    let c = match mirror::parse(&d).unwrap() {
        ParsedPageContent::NewsArticle(c) => c,
        other => panic!("expected a news article, got {:?}", other),
    };
    assert_eq!(c.headline.as_str(), "Mirror Headline");
    assert_eq!(c.twitter_headline, None);
    assert_eq!(c.description.as_str(), "Mirror Description");
    assert_eq!(c.thumbnail.alt.as_deref(), Some("Lead alt"));
    assert_eq!(c.thumbnail.url.as_deref(), Some("https://pictures.example/mirror.jpg"));
    assert_eq!(c.thumbnail.caption.as_deref(), Some("Mirror caption"));
    assert_eq!(c.images.len(), 1);
    assert_eq!(c.images[0].alt.as_deref(), Some("In alt"));
    assert_eq!(c.images[0].url.as_deref(), Some("https://pictures.example/in-mirror.jpg"));
    assert_eq!(c.images[0].caption.as_deref(), Some("In caption"));
    assert!(c.videos.is_empty());
    assert_eq!(c.body.as_str(), "First paragraph.\nBullet.");
    assert_eq!(c.date_updated, JAN2);
    assert_eq!(c.date_published, JAN1);
}

#[test]
fn mirror_unknown_thumbnail_fails() {
    // The first content child is the headline, which matches no thumbnail
    // shape.
    let d = mirror_doc_headline_first();
    match mirror::parse(&d) {
        Err(InternalParseError::UnknownError(m)) => {
            assert_eq!(m, "thumbnail type unknown");
        }
        other => panic!("expected the unknown-thumbnail error, got {:?}", other),
    }
}

fn independent_doc(with_extras: bool) -> Doc {
    let mut d = Doc::new();
    let html = el(&mut d, None, "html", &[]);
    let head = el(&mut d, Some(html), "head", &[]);
    el(&mut d, Some(head), "meta", &[("property", "article:modified_time"), ("content", "2020-01-02T03:04:05+0000")]);
    el(&mut d, Some(head), "meta", &[("property", "article:published_time"), ("content", "2020-01-01T00:00:00+0000")]);
    if with_extras {
        el(&mut d, Some(head), "meta", &[("name", "twitter:title"), ("content", "Indy Social")]);
        el(&mut d, Some(head), "meta", &[("name", "article:section"), ("content", "News, UK")]);
        el(&mut d, Some(head), "meta", &[("name", "article:subsection"), ("content", "Sport")]);
    }
    let body = el(&mut d, Some(html), "body", &[]);
    let h1 = el(&mut d, Some(body), "h1", &[("class", "headline")]);
    tx(&mut d, h1, "Test Headline");
    let sub = el(&mut d, Some(body), "p", &[("class", "sub-headline")]);
    if with_extras {
        tx(&mut d, sub, "Rock &amp; Roll");
    } else {
        tx(&mut d, sub, "Test Description");
    }
    let hero = el(&mut d, Some(body), "div", &[("class", "hero-image")]);
    el(&mut d, Some(hero), "amp-img", &[("alt", "A"), ("src", "B")]);
    let mc = el(&mut d, Some(body), "div", &[("class", "main-content")]);
    let bc = el(&mut d, Some(mc), "div", &[("class", "body-content")]);
    let p1 = el(&mut d, Some(bc), "p", &[]);
    tx(&mut d, p1, "Indy paragraph.");
    if with_extras {
        let fig = el(&mut d, Some(bc), "figure", &[]);
        el(&mut d, Some(fig), "amp-img", &[("src", "https://pictures.example/indy.jpg")]);
        let fcap = el(&mut d, Some(fig), "figcaption", &[]);
        tx(&mut d, fcap, "Indy image caption");
        el(&mut d, Some(bc), "figure", &[("class", "i-gallery")]);
        let vfig = el(&mut d, Some(bc), "figure", &[("class", "video")]);
        let vcap = el(&mut d, Some(vfig), "figcaption", &[("class", "caption")]);
        tx(&mut d, vcap, "Indy video caption");
    }
    d
}

#[test]
fn independent_full_article() {
    let d = independent_doc(true);
    let c = match independent::parse(&d).unwrap() {
        ParsedPageContent::NewsArticle(c) => c,
        other => panic!("expected a news article, got {:?}", other),
    };
    assert_eq!(c.headline.as_str(), "Test Headline");
    assert_eq!(c.twitter_headline.as_deref(), Some("Indy Social"));
    // Entities in the sub-headline are decoded.
    assert_eq!(c.description.as_str(), "Rock & Roll");
    assert_eq!(c.thumbnail.alt.as_deref(), Some("A"));
    assert_eq!(c.thumbnail.url.as_deref(), Some("B"));
    assert_eq!(c.thumbnail.caption, None);
    assert_eq!(
        c.categories,
        vec!["News".to_string(), "UK".to_string(), "Sport".to_string()]
    );
    assert_eq!(c.images.len(), 1);
    assert_eq!(c.images[0].alt, None);
    assert_eq!(c.images[0].url.as_deref(), Some("https://pictures.example/indy.jpg"));
    assert_eq!(c.images[0].caption.as_deref(), Some("Indy image caption"));
    assert_eq!(c.videos.len(), 1);
    assert_eq!(c.videos[0].caption.as_deref(), Some("Indy video caption"));
    assert_eq!(c.body.as_str(), "Indy paragraph.");
    assert_eq!(c.date_updated, JAN2);
    assert_eq!(c.date_published, JAN1);
}

#[test]
fn minimal_document_scenario() {
    let d = independent_doc(false);
    let c = match independent::parse(&d).unwrap() {
        ParsedPageContent::NewsArticle(c) => c,
        other => panic!("expected a news article, got {:?}", other),
    };
    assert_eq!(c.headline.as_str(), "Test Headline");
    assert_eq!(c.description.as_str(), "Test Description");
    assert_eq!(c.thumbnail.alt.as_deref(), Some("A"));
    assert_eq!(c.thumbnail.url.as_deref(), Some("B"));
    assert_eq!(c.thumbnail.caption, None);
}

#[test]
fn independent_bad_entity_fails() {
    let mut d2 = Doc::new();
    let html = el(&mut d2, None, "html", &[]);
    let head = el(&mut d2, Some(html), "head", &[]);
    el(&mut d2, Some(head), "meta", &[("property", "article:modified_time"), ("content", "2020-01-02T03:04:05+0000")]);
    el(&mut d2, Some(head), "meta", &[("property", "article:published_time"), ("content", "2020-01-01T00:00:00+0000")]);
    let body = el(&mut d2, Some(html), "body", &[]);
    let h1 = el(&mut d2, Some(body), "h1", &[("class", "headline")]);
    tx(&mut d2, h1, "Test Headline");
    let sub = el(&mut d2, Some(body), "p", &[("class", "sub-headline")]);
    tx(&mut d2, sub, "&nosuchentity;");
    let mc = el(&mut d2, Some(body), "div", &[("class", "main-content")]);
    el(&mut d2, Some(mc), "div", &[("class", "body-content")]);
    match independent::parse(&d2) {
        Err(InternalParseError::HtmlDecodeErr(d)) => {
            assert!(!d.is_empty());
        }
        other => panic!("expected the decode error, got {:?}", other),
    }
}

#[test]
fn independent_section_only_categories_split() {
    let mut d = Doc::new();
    let html = el(&mut d, None, "html", &[]);
    let head = el(&mut d, Some(html), "head", &[]);
    el(&mut d, Some(head), "meta", &[("property", "article:modified_time"), ("content", "2020-01-02T03:04:05+0000")]);
    el(&mut d, Some(head), "meta", &[("property", "article:published_time"), ("content", "2020-01-01T00:00:00+0000")]);
    el(&mut d, Some(head), "meta", &[("name", "article:section"), ("content", "News, UK")]);
    let body = el(&mut d, Some(html), "body", &[]);
    let h1 = el(&mut d, Some(body), "h1", &[("class", "headline")]);
    tx(&mut d, h1, "Test Headline");
    let mc = el(&mut d, Some(body), "div", &[("class", "main-content")]);
    let bc = el(&mut d, Some(mc), "div", &[("class", "body-content")]);
    let p1 = el(&mut d, Some(bc), "p", &[]);
    tx(&mut d, p1, "Text.");
    let c = match independent::parse(&d).unwrap() {
        ParsedPageContent::NewsArticle(c) => c,
        other => panic!("expected a news article, got {:?}", other),
    };
    // A section tag alone is still comma-split into flat categories.
    assert_eq!(c.categories, vec!["News".to_string(), "UK".to_string()]);
}

#[test]
fn independent_og_fallback_thumbnail() {
    let mut d = Doc::new();
    let html = el(&mut d, None, "html", &[]);
    let head = el(&mut d, Some(html), "head", &[]);
    el(&mut d, Some(head), "meta", &[("property", "article:modified_time"), ("content", "2020-01-02T03:04:05+0000")]);
    el(&mut d, Some(head), "meta", &[("property", "article:published_time"), ("content", "2020-01-01T00:00:00+0000")]);
    el(&mut d, Some(head), "meta", &[("property", "og:image"), ("content", "https://pictures.example/og.jpg")]);
    let body = el(&mut d, Some(html), "body", &[]);
    let h1 = el(&mut d, Some(body), "h1", &[("class", "headline")]);
    tx(&mut d, h1, "Test Headline");
    let mc = el(&mut d, Some(body), "div", &[("class", "main-content")]);
    let bc = el(&mut d, Some(mc), "div", &[("class", "body-content")]);
    let p1 = el(&mut d, Some(bc), "p", &[]);
    tx(&mut d, p1, "Text.");
    let c = match independent::parse(&d).unwrap() {
        ParsedPageContent::NewsArticle(c) => c,
        other => panic!("expected a news article, got {:?}", other),
    };
    // No sub-headline: the description defaults to empty rather than failing.
    assert_eq!(c.description.as_str(), "");
    assert_eq!(c.thumbnail.alt, None);
    assert_eq!(c.thumbnail.url.as_deref(), Some("https://pictures.example/og.jpg"));
    assert_eq!(c.thumbnail.caption, None);
}

#[test]
fn orchestrator_wraps_content_and_is_deterministic() {
    let d = guardian_doc(true, "2020-01-02T03:04:05Z", None);
    let p1 = parse_article_html(Publisher::Guardian, "https://news.example/a".to_string(), &d)
        .unwrap();
    let p2 = parse_article_html(Publisher::Guardian, "https://news.example/a".to_string(), &d)
        .unwrap();
    assert_eq!(p1.meta.publisher, Publisher::Guardian);
    assert_eq!(p1.meta.url.as_str(), "https://news.example/a");
    // Content fields agree across calls; only date_parsed may differ.
    assert_eq!(p1.content, p2.content);
}

#[test]
fn orchestrator_propagates_pipeline_errors() {
    let d = guardian_doc(false, "", None);
    match parse_article_html(Publisher::Guardian, "https://news.example/a".to_string(), &d) {
        Err(InternalParseError::HtmlStructureError(e)) => {
            assert!(matches!(e.cause, HtmlErrorCause::MissingElement));
        }
        other => panic!("expected a structural error, got {:?}", other),
    }
}
