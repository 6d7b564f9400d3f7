use article_parser::errors::{HtmlErrorCause, InternalParseError, JsonParseErrorCause};
use article_parser::pattern::{Pattern, Scope, Step};
use article_parser::select::SelectHelpers;
use article_parser::root_structs::Publisher;
use article_parser::text::{
    collapse_str, normalize_str, split_cs_str, trim_str, FixHtmlWhitespace, JoinWithNewline,
    ToOwnedOrNone,
};
use article_parser::{Attr, Doc};

fn el(d: &mut Doc, parent: Option<usize>, tag: &str, attrs: &[(&str, &str)]) -> usize {
    let a = attrs
        .iter()
        .map(|(n, v)| Attr { name: n.to_string(), value: v.to_string() })
        .collect();
    d.push_element(parent, tag.to_string(), a)
}

fn div_x_pattern() -> Pattern {
    Pattern {
        anchored: false,
        steps: vec![Step {
            child_of_prev: false,
            tags: vec!["div".to_string()],
            classes: vec!["x".to_string()],
            not_classes: vec![],
            attrs: vec![],
        }],
        source: "div.x".to_string(),
    }
}

#[test]
fn it_works() {
    assert_eq!(2 + 2, 4);
}

#[test]
fn normalization_collapses_and_trims() {
    assert_eq!(collapse_str("a \t\n b").as_str(), "a b");
    assert_eq!(trim_str("  a b\t ").as_str(), "a b");
    assert_eq!(normalize_str(" \t a  \n b ").as_str(), "a b");
    assert_eq!(normalize_str("   ").as_str(), "");
}

#[test]
fn normalization_is_idempotent_on_samples() {
    for s in ["  Test \t Headline ", "a", "", " \n ", "x  y\tz", "already normal"] {
        let once = normalize_str(s);
        let twice = normalize_str(once.as_str());
        assert_eq!(once, twice);
    }
}

#[test]
fn split_comma_space_pieces() {
    let v = split_cs_str("News, UK, Sport");
    assert_eq!(v, vec!["News".to_string(), "UK".to_string(), "Sport".to_string()]);
    assert_eq!(split_cs_str("Solo"), vec!["Solo".to_string()]);
}

#[test]
fn to_owned_or_none_trims_and_drops_blank() {
    assert_eq!(Some(" a ").to_owned_or_none(), Some("a".to_string()));
    assert_eq!(Some("  \t").to_owned_or_none(), None);
    let none: Option<&str> = None;
    assert_eq!(none.to_owned_or_none(), None);
}

#[test]
fn fix_html_whitespace_collapses_runs() {
    assert_eq!("a \t b".to_string().fix_html_whitespace().as_str(), "a b");
}

#[test]
fn join_with_newline_joins_and_trims() {
    let v = vec!["a".to_string(), "b".to_string()];
    assert_eq!(v.join_with_newline().as_str(), "a\nb");
    let w = vec!["  ".to_string(), "x".to_string()];
    assert_eq!(w.join_with_newline().as_str(), "x");
}

#[test]
fn select_unique_zero_matches_is_missing() {
    let mut d = Doc::new();
    let html = el(&mut d, None, "html", &[]);
    el(&mut d, Some(html), "div", &[("class", "y")]);
    match d.select_unique(&div_x_pattern(), Scope::Document) {
        Err(InternalParseError::HtmlStructureError(e)) => {
            assert!(matches!(e.cause, HtmlErrorCause::MissingElement));
            assert_eq!(e.selector.as_str(), "div.x");
        }
        other => panic!("expected a missing-element error, got {:?}", other),
    }
}

#[test]
fn select_unique_one_match_returns_it() {
    let mut d = Doc::new();
    let html = el(&mut d, None, "html", &[]);
    let target = el(&mut d, Some(html), "div", &[("class", "x")]);
    el(&mut d, Some(html), "div", &[("class", "y")]);
    assert_eq!(d.select_unique(&div_x_pattern(), Scope::Document).unwrap(), target);
}

#[test]
fn select_unique_two_matches_is_non_unique() {
    let mut d = Doc::new();
    let html = el(&mut d, None, "html", &[]);
    el(&mut d, Some(html), "div", &[("class", "x")]);
    el(&mut d, Some(html), "div", &[("class", "x other")]);
    match d.select_unique(&div_x_pattern(), Scope::Document) {
        Err(InternalParseError::HtmlStructureError(e)) => {
            assert!(matches!(e.cause, HtmlErrorCause::NonUniqueElement));
        }
        other => panic!("expected a non-unique-element error, got {:?}", other),
    }
}

#[test]
fn select_first_tolerates_duplicates() {
    let mut d = Doc::new();
    let html = el(&mut d, None, "html", &[]);
    let first = el(&mut d, Some(html), "div", &[("class", "x")]);
    el(&mut d, Some(html), "div", &[("class", "x")]);
    assert_eq!(d.select_first(&div_x_pattern(), Scope::Document).unwrap(), first);
}

#[test]
fn select_unique_attr_blank_counts_as_missing() {
    let mut d = Doc::new();
    let html = el(&mut d, None, "html", &[]);
    el(&mut d, Some(html), "div", &[("class", "x"), ("data-k", "   ")]);
    match d.select_unique_attr(&div_x_pattern(), Scope::Document, "data-k") {
        Err(InternalParseError::HtmlStructureError(e)) => match e.cause {
            HtmlErrorCause::MissingAttribute(name) => assert_eq!(name.as_str(), "data-k"),
            other => panic!("expected a missing-attribute cause, got {:?}", other),
        },
        other => panic!("expected a missing-attribute error, got {:?}", other),
    }
}

#[test]
fn select_unique_attr_trims_value() {
    let mut d = Doc::new();
    let html = el(&mut d, None, "html", &[]);
    el(&mut d, Some(html), "div", &[("class", "x"), ("data-k", "  v  ")]);
    let v = d.select_unique_attr(&div_x_pattern(), Scope::Document, "data-k").unwrap();
    assert_eq!(v.as_str(), "v");
}

#[test]
fn scoped_selection_stays_in_subtree() {
    let mut d = Doc::new();
    let html = el(&mut d, None, "html", &[]);
    let left = el(&mut d, Some(html), "section", &[]);
    let right = el(&mut d, Some(html), "section", &[]);
    let inside = el(&mut d, Some(left), "div", &[("class", "x")]);
    el(&mut d, Some(right), "div", &[("class", "x")]);
    assert_eq!(d.select_unique(&div_x_pattern(), Scope::Under(left)).unwrap(), inside);
}

#[test]
fn publisher_names_resolve_without_case() {
    assert_eq!(Publisher::from_name("bbc"), Some(Publisher::BBC));
    assert_eq!(Publisher::from_name("DailyMail"), Some(Publisher::DailyMail));
    assert_eq!(Publisher::from_name("INDEPENDENT"), Some(Publisher::Independent));
    assert_eq!(Publisher::from_name("metro"), Some(Publisher::Metro));
    assert_eq!(Publisher::from_name("Mirror"), Some(Publisher::Mirror));
    assert_eq!(Publisher::from_name("sky"), Some(Publisher::Sky));
    assert_eq!(Publisher::from_name("Sun"), Some(Publisher::Sun));
    assert_eq!(Publisher::from_name("guardian"), Some(Publisher::Guardian));
    assert_eq!(Publisher::from_name("TheGuardian"), Some(Publisher::Guardian));
}

#[test]
fn unrecognized_publisher_rejected() {
    assert_eq!(Publisher::from_name("nonsense"), None);
    assert_eq!(Publisher::from_name(""), None);
    assert_eq!(Publisher::from_name("guardianx"), None);
}

#[test]
fn error_constructors_build_their_variants() {
    assert!(matches!(
        InternalParseError::unknown("shape"),
        InternalParseError::UnknownError("shape")
    ));
    assert!(matches!(
        InternalParseError::chrono("bad date".to_string()),
        InternalParseError::InvalidDateTime(_)
    ));
    assert!(matches!(
        InternalParseError::decode_html("bad entity".to_string()),
        InternalParseError::HtmlDecodeErr(_)
    ));
    match InternalParseError::ld_json("oops".to_string()) {
        InternalParseError::JsonParseError(e) => {
            assert!(matches!(e.cause, JsonParseErrorCause::InvalidLdJson));
            assert_eq!(e.diagnostic.as_str(), "oops");
        }
        other => panic!("expected a json error, got {:?}", other),
    }
    match InternalParseError::json_data_attr("oops".to_string()) {
        InternalParseError::JsonParseError(e) => {
            assert!(matches!(e.cause, JsonParseErrorCause::InvalidDataAttrJson));
        }
        other => panic!("expected a json error, got {:?}", other),
    }
}
