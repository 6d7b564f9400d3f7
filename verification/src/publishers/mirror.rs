//! The Mirror pipeline: nested article containers addressed by direct-child
//! patterns, a thumbnail dispatched on the first content child (video lead,
//! lead image, or an unsupported shape), in-article image figures, paragraph
//! and list body blocks, and strict RFC 3339 timestamps.

use crate::dom::{Doc, Node};
use crate::errors::{ErrV, InternalParseError};
use crate::pattern::{
    a0, a1, condv, element_matches, no_conds, no_strs, pat_1step, pat_2step, pat_3step, s0, s1, s2,
    select_list, selected, step_new, stepv, Pattern, PatternV, Scope,
};
use crate::publishers::{date_rfc3339, date_rfc3339_of};
use crate::root_structs::{
    images_view, videos_view, Image, ImageV, NewsArticleContent, NewsArticleContentV,
    ParsedPageContent, ParsedPageContentV, Video, VideoV,
};
use crate::select::{
    attr_nonempty, attr_or_none, blocks_text, full_text, html_err, sel_first, sel_unique,
    AttrValueOrNone, FormattedText, FullFixedHtmlText, SelectHelpers,
};
use vstd::prelude::*;

verus! {

// ---------------------------------------------------------------------------
// Patterns.
// ---------------------------------------------------------------------------
pub open spec fn article_root_v() -> PatternV {
    PatternV {
        anchored: false,
        steps: seq![
            stepv(false, seq!["body"@], no_strs(), no_strs(), no_conds()),
            stepv(true, seq!["main"@], no_strs(), no_strs(), no_conds()),
            stepv(true, seq!["article"@], seq!["article-main"@], no_strs(), no_conds()),
        ],
        source: "body > main > article.article-main"@,
    }
}

fn article_root_p() -> (r: Pattern)
    ensures
        r@ == article_root_v(),
{
    pat_3step(
        false,
        "body > main > article.article-main",
        step_new(false, s1("body"), s0(), s0(), a0()),
        step_new(true, s1("main"), s0(), s0(), a0()),
        step_new(true, s1("article"), s1("article-main"), s0(), a0()),
    )
}

pub open spec fn content_col_v() -> PatternV {
    PatternV {
        anchored: true,
        steps: seq![
            stepv(true, seq!["div"@], seq!["article-wrapper"@], no_strs(), no_conds()),
            stepv(true, seq!["div"@], seq!["content-column"@], no_strs(), no_conds()),
        ],
        source: ":scope > div.article-wrapper > div.content-column"@,
    }
}

fn content_col_p() -> (r: Pattern)
    ensures
        r@ == content_col_v(),
{
    pat_2step(
        true,
        ":scope > div.article-wrapper > div.content-column",
        step_new(true, s1("div"), s1("article-wrapper"), s0(), a0()),
        step_new(true, s1("div"), s1("content-column"), s0(), a0()),
    )
}

pub open spec fn article_body_v() -> PatternV {
    PatternV {
        anchored: true,
        steps: seq![
            stepv(true, seq!["div"@], seq!["article-body"@], no_strs(), no_conds()),
        ],
        source: ":scope > div.article-body"@,
    }
}

fn article_body_p() -> (r: Pattern)
    ensures
        r@ == article_body_v(),
{
    pat_1step(
        true,
        ":scope > div.article-body",
        step_new(true, s1("div"), s1("article-body"), s0(), a0()),
    )
}

pub open spec fn children_v() -> PatternV {
    PatternV {
        anchored: true,
        steps: seq![stepv(true, no_strs(), no_strs(), no_strs(), no_conds())],
        source: ":scope > *"@,
    }
}

fn children_p() -> (r: Pattern)
    ensures
        r@ == children_v(),
{
    pat_1step(true, ":scope > *", step_new(true, s0(), s0(), s0(), a0()))
}

pub open spec fn h1_v() -> PatternV {
    PatternV {
        anchored: false,
        steps: seq![stepv(false, seq!["h1"@], no_strs(), no_strs(), no_conds())],
        source: "h1"@,
    }
}

fn h1_p() -> (r: Pattern)
    ensures
        r@ == h1_v(),
{
    pat_1step(false, "h1", step_new(false, s1("h1"), s0(), s0(), a0()))
}

pub open spec fn sub_title_v() -> PatternV {
    PatternV {
        anchored: false,
        steps: seq![stepv(false, seq!["p"@], seq!["sub-title"@], no_strs(), no_conds())],
        source: "p.sub-title"@,
    }
}

fn sub_title_p() -> (r: Pattern)
    ensures
        r@ == sub_title_v(),
{
    pat_1step(false, "p.sub-title", step_new(false, s1("p"), s1("sub-title"), s0(), a0()))
}

pub open spec fn caption_v() -> PatternV {
    PatternV {
        anchored: false,
        steps: seq![
            stepv(false, seq!["figcaption"@], no_strs(), no_strs(), no_conds()),
            stepv(true, no_strs(), seq!["caption"@], no_strs(), no_conds()),
        ],
        source: "figcaption > .caption"@,
    }
}

fn caption_p() -> (r: Pattern)
    ensures
        r@ == caption_v(),
{
    pat_2step(
        false,
        "figcaption > .caption",
        step_new(false, s1("figcaption"), s0(), s0(), a0()),
        step_new(true, s0(), s1("caption"), s0(), a0()),
    )
}

pub open spec fn img_v() -> PatternV {
    PatternV {
        anchored: false,
        steps: seq![stepv(false, seq!["img"@], no_strs(), no_strs(), no_conds())],
        source: "img"@,
    }
}

fn img_p() -> (r: Pattern)
    ensures
        r@ == img_v(),
{
    pat_1step(false, "img", step_new(false, s1("img"), s0(), s0(), a0()))
}

pub open spec fn url_meta_v() -> PatternV {
    PatternV {
        anchored: false,
        steps: seq![
            stepv(false, seq!["meta"@], no_strs(), no_strs(), seq![condv("itemprop"@, Some("url"@))]),
        ],
        source: "meta[itemprop=\"url\"]"@,
    }
}

fn url_meta_p() -> (r: Pattern)
    ensures
        r@ == url_meta_v(),
{
    pat_1step(
        false,
        "meta[itemprop=\"url\"]",
        step_new(false, s1("meta"), s0(), s0(), a1("itemprop", Some("url"))),
    )
}

pub open spec fn p_ul_v() -> PatternV {
    PatternV {
        anchored: true,
        steps: seq![stepv(true, seq!["p"@, "ul"@], no_strs(), no_strs(), no_conds())],
        source: ":scope > p, :scope > ul"@,
    }
}

fn p_ul_p() -> (r: Pattern)
    ensures
        r@ == p_ul_v(),
{
    pat_1step(true, ":scope > p, :scope > ul", step_new(true, s2("p", "ul"), s0(), s0(), a0()))
}

pub open spec fn date_updated_v() -> PatternV {
    PatternV {
        anchored: false,
        steps: seq![
            stepv(false, seq!["head"@], no_strs(), no_strs(), no_conds()),
            stepv(
                true,
                seq!["meta"@],
                no_strs(),
                no_strs(),
                seq![condv("property"@, Some("article:modified_time"@))],
            ),
        ],
        source: "head > meta[property=\"article:modified_time\"]"@,
    }
}

fn date_updated_p() -> (r: Pattern)
    ensures
        r@ == date_updated_v(),
{
    pat_2step(
        false,
        "head > meta[property=\"article:modified_time\"]",
        step_new(false, s1("head"), s0(), s0(), a0()),
        step_new(true, s1("meta"), s0(), s0(), a1("property", Some("article:modified_time"))),
    )
}

pub open spec fn date_published_v() -> PatternV {
    PatternV {
        anchored: false,
        steps: seq![
            stepv(false, seq!["head"@], no_strs(), no_strs(), no_conds()),
            stepv(
                true,
                seq!["meta"@],
                no_strs(),
                no_strs(),
                seq![condv("property"@, Some("article:published_time"@))],
            ),
        ],
        source: "head > meta[property=\"article:published_time\"]"@,
    }
}

fn date_published_p() -> (r: Pattern)
    ensures
        r@ == date_published_v(),
{
    pat_2step(
        false,
        "head > meta[property=\"article:published_time\"]",
        step_new(false, s1("head"), s0(), s0(), a0()),
        step_new(true, s1("meta"), s0(), s0(), a1("property", Some("article:published_time"))),
    )
}

pub open spec fn mod_video_v() -> PatternV {
    PatternV {
        anchored: false,
        steps: seq![stepv(false, seq!["div"@], seq!["mod-video"@], no_strs(), no_conds())],
        source: "div.mod-video"@,
    }
}

fn mod_video_p() -> (r: Pattern)
    ensures
        r@ == mod_video_v(),
{
    pat_1step(false, "div.mod-video", step_new(false, s1("div"), s1("mod-video"), s0(), a0()))
}

pub open spec fn lead_image_v() -> PatternV {
    PatternV {
        anchored: false,
        steps: seq![
            stepv(false, seq!["figure"@], seq!["lead-article-image"@], no_strs(), no_conds()),
        ],
        source: "figure.lead-article-image"@,
    }
}

fn lead_image_p() -> (r: Pattern)
    ensures
        r@ == lead_image_v(),
{
    pat_1step(
        false,
        "figure.lead-article-image",
        step_new(false, s1("figure"), s1("lead-article-image"), s0(), a0()),
    )
}

pub open spec fn in_article_v() -> PatternV {
    PatternV {
        anchored: true,
        steps: seq![
            stepv(true, seq!["figure"@], seq!["in-article-image"@], no_strs(), no_conds()),
        ],
        source: ":scope > figure.in-article-image"@,
    }
}

fn in_article_p() -> (r: Pattern)
    ensures
        r@ == in_article_v(),
{
    pat_1step(
        true,
        ":scope > figure.in-article-image",
        step_new(true, s1("figure"), s1("in-article-image"), s0(), a0()),
    )
}

// ---------------------------------------------------------------------------
// The pipeline, spec side.
// ---------------------------------------------------------------------------
/// The thumbnail is dispatched on the first content child: a video lead
/// yields an empty placeholder, a lead-image figure yields the full image,
/// and anything else is an unsupported shape.
pub open spec fn thumbnail_of(nodes: Seq<Node>, content: usize) -> Result<ImageV, ErrV> {
    match sel_first(nodes, children_v(), Scope::Under(content)) {
        Err(c) => Err(html_err(children_v(), c)),
        Ok(first) => if element_matches(nodes, mod_video_v(), first as int) {
            Ok(ImageV { alt: None, url: None, caption: None })
        } else if element_matches(nodes, lead_image_v(), first as int) {
            match sel_unique(nodes, caption_v(), Scope::Under(first)) {
                Err(c) => Err(html_err(caption_v(), c)),
                Ok(cap) => match sel_unique(nodes, img_v(), Scope::Under(first)) {
                    Err(c) => Err(html_err(img_v(), c)),
                    Ok(img) => Ok(
                        ImageV {
                            alt: attr_or_none(nodes, img as int, "alt"@),
                            url: attr_or_none(nodes, img as int, "src"@),
                            caption: Some(full_text(nodes, cap as int)),
                        },
                    ),
                },
            }
        } else {
            Err(ErrV::Unknown("thumbnail type unknown"@))
        },
    }
}

/// One in-article figure: its first image's raw alt, the image URL from the
/// figure's url metadata, and an optional caption.
pub open spec fn image_one_of(nodes: Seq<Node>, fig: usize) -> Result<ImageV, ErrV> {
    match sel_first(nodes, img_v(), Scope::Under(fig)) {
        Err(c) => Err(html_err(img_v(), c)),
        Ok(img) => match sel_unique(nodes, url_meta_v(), Scope::Under(fig)) {
            Err(c) => Err(html_err(url_meta_v(), c)),
            Ok(meta) => Ok(
                ImageV {
                    alt: attr_nonempty(nodes, img as int, "alt"@),
                    url: attr_or_none(nodes, meta as int, "content"@),
                    caption: match sel_first(nodes, caption_v(), Scope::Under(fig)) {
                        Ok(c) => Some(full_text(nodes, c as int)),
                        Err(_) => None,
                    },
                },
            ),
        },
    }
}

/// The in-article images, in document order; the first failure aborts.
pub open spec fn images_of(nodes: Seq<Node>, figs: Seq<usize>) -> Result<Seq<ImageV>, ErrV>
    decreases figs.len(),
{
    if figs.len() == 0 {
        Ok(Seq::<ImageV>::empty())
    } else {
        match image_one_of(nodes, figs[0]) {
            Err(e) => Err(e),
            Ok(im) => match images_of(nodes, figs.drop_first()) {
                Err(e) => Err(e),
                Ok(rest) => Ok(seq![im] + rest),
            },
        }
    }
}

/// The whole pipeline: all-or-nothing, in extraction order.
pub open spec fn parse_of(nodes: Seq<Node>) -> Result<NewsArticleContentV, ErrV> {
    match sel_unique(nodes, article_root_v(), Scope::Document) {
        Err(c) => Err(html_err(article_root_v(), c)),
        Ok(root) => match sel_unique(nodes, content_col_v(), Scope::Under(root)) {
            Err(c) => Err(html_err(content_col_v(), c)),
            Ok(content) => match sel_unique(nodes, article_body_v(), Scope::Under(content)) {
                Err(c) => Err(html_err(article_body_v(), c)),
                Ok(body_el) => match sel_unique(nodes, h1_v(), Scope::Under(root)) {
                    Err(c) => Err(html_err(h1_v(), c)),
                    Ok(h1) => match thumbnail_of(nodes, content) {
                        Err(e) => Err(e),
                        Ok(thumbnail) => match images_of(
                            nodes,
                            selected(nodes, in_article_v(), Scope::Under(body_el)),
                        ) {
                            Err(e) => Err(e),
                            Ok(images) => match date_rfc3339_of(nodes, date_updated_v()) {
                                Err(e) => Err(e),
                                Ok(date_updated) => match date_rfc3339_of(
                                    nodes,
                                    date_published_v(),
                                ) {
                                    Err(e) => Err(e),
                                    Ok(date_published) => Ok(
                                        NewsArticleContentV {
                                            headline: full_text(nodes, h1 as int),
                                            twitter_headline: None,
                                            description: match sel_unique(
                                                nodes,
                                                sub_title_v(),
                                                Scope::Under(root),
                                            ) {
                                                Ok(st) => full_text(nodes, st as int),
                                                Err(_) => Seq::<char>::empty(),
                                            },
                                            thumbnail,
                                            categories: Seq::<Seq<char>>::empty(),
                                            images,
                                            videos: Seq::<VideoV>::empty(),
                                            body: blocks_text(
                                                nodes,
                                                selected(nodes, p_ul_v(), Scope::Under(body_el)),
                                            ),
                                            date_updated,
                                            date_published,
                                        },
                                    ),
                                },
                            },
                        },
                    },
                },
            },
        },
    }
}

// ---------------------------------------------------------------------------
// Laws.
// ---------------------------------------------------------------------------
/// A document of the shape this pipeline expects: the nested containers and
/// headline resolve, the sub-title is present and non-blank, the thumbnail
/// and every in-article figure extract, the body is non-blank, and both
/// timestamps parse.
pub open spec fn expected_shape(nodes: Seq<Node>) -> bool {
    let root = sel_unique(nodes, article_root_v(), Scope::Document);
    let content = sel_unique(nodes, content_col_v(), Scope::Under(root->Ok_0));
    let body_el = sel_unique(nodes, article_body_v(), Scope::Under(content->Ok_0));
    let h1 = sel_unique(nodes, h1_v(), Scope::Under(root->Ok_0));
    let st = sel_unique(nodes, sub_title_v(), Scope::Under(root->Ok_0));
    &&& root is Ok
    &&& content is Ok
    &&& body_el is Ok
    &&& h1 is Ok
    &&& full_text(nodes, h1->Ok_0 as int).len() > 0
    &&& st is Ok
    &&& full_text(nodes, st->Ok_0 as int).len() > 0
    &&& thumbnail_of(nodes, content->Ok_0) is Ok
    &&& images_of(nodes, selected(nodes, in_article_v(), Scope::Under(body_el->Ok_0))) is Ok
    &&& blocks_text(nodes, selected(nodes, p_ul_v(), Scope::Under(body_el->Ok_0))).len() > 0
    &&& date_rfc3339_of(nodes, date_updated_v()) is Ok
    &&& date_rfc3339_of(nodes, date_published_v()) is Ok
}

/// For a document matching the expected shape, parsing succeeds, and the
/// headline, description and body come back non-empty; headline and
/// description are single-line normalized, the body is trimmed.
pub proof fn lemma_parse_on_expected_shape(nodes: Seq<Node>)
    requires
        expected_shape(nodes),
    ensures
        parse_of(nodes) is Ok,
        parse_of(nodes)->Ok_0.headline.len() > 0,
        parse_of(nodes)->Ok_0.description.len() > 0,
        parse_of(nodes)->Ok_0.body.len() > 0,
        crate::text::normalized(parse_of(nodes)->Ok_0.headline) == parse_of(nodes)->Ok_0.headline,
        crate::text::normalized(parse_of(nodes)->Ok_0.description) == parse_of(
            nodes,
        )->Ok_0.description,
        crate::text::trimmed(parse_of(nodes)->Ok_0.body) == parse_of(nodes)->Ok_0.body,
{
    let root = sel_unique(nodes, article_root_v(), Scope::Document)->Ok_0;
    let content = sel_unique(nodes, content_col_v(), Scope::Under(root))->Ok_0;
    let body_el = sel_unique(nodes, article_body_v(), Scope::Under(content))->Ok_0;
    let h1 = sel_unique(nodes, h1_v(), Scope::Under(root))->Ok_0;
    let st = sel_unique(nodes, sub_title_v(), Scope::Under(root))->Ok_0;
    crate::text::lemma_normalized_idempotent(
        crate::text::joined_with(
            crate::select::trimmed_all(crate::select::texts_under(nodes, h1 as int)),
            " "@,
        ),
    );
    crate::text::lemma_normalized_idempotent(
        crate::text::joined_with(
            crate::select::trimmed_all(crate::select::texts_under(nodes, st as int)),
            " "@,
        ),
    );
    crate::text::lemma_trimmed_idempotent(
        crate::text::joined_with(
            crate::select::full_texts_of(
                nodes,
                selected(nodes, p_ul_v(), Scope::Under(body_el)),
            ),
            "\n"@,
        ),
    );
}

/// With no "updated" timestamp metadata in the document, the parse never
/// succeeds: no timestamp is guessed or defaulted.
pub proof fn lemma_missing_updated_fails(nodes: Seq<Node>)
    requires
        selected(nodes, date_updated_v(), Scope::Document).len() == 0,
    ensures
        parse_of(nodes) is Err,
{
    if parse_of(nodes) is Ok {
        assert(date_rfc3339_of(nodes, date_updated_v()) is Ok);
        assert(false);
    }
}

// ---------------------------------------------------------------------------
// The pipeline, executable side.
// ---------------------------------------------------------------------------
fn thumbnail(doc: &Doc, content: usize) -> (r: Result<Image, InternalParseError>)
    requires
        doc.wf(),
        content < doc@.len(),
    ensures
        match r {
            Ok(im) => thumbnail_of(doc@, content) == Ok::<ImageV, ErrV>(im@),
            Err(e) => thumbnail_of(doc@, content) == Err::<ImageV, ErrV>(e@),
        },
{
    let first = match doc.select_first(&children_p(), Scope::Under(content)) {
        Ok(i) => i,
        Err(e) => {
            return Err(e);
        },
    };
    if crate::pattern::element_matches_exec(doc, &mod_video_p(), first) {
        Ok(Image { alt: None, url: None, caption: None })
    } else if crate::pattern::element_matches_exec(doc, &lead_image_p(), first) {
        let cap = match doc.select_unique(&caption_p(), Scope::Under(first)) {
            Ok(i) => i,
            Err(e) => {
                return Err(e);
            },
        };
        let img = match doc.select_unique(&img_p(), Scope::Under(first)) {
            Ok(i) => i,
            Err(e) => {
                return Err(e);
            },
        };
        let caption = Some(doc.full_fixed_html_text(cap));
        let url = doc.attr_value_or_none(img, "src");
        let alt = doc.attr_value_or_none(img, "alt");
        Ok(Image { alt, url, caption })
    } else {
        Err(InternalParseError::unknown("thumbnail type unknown"))
    }
}

fn image_one(doc: &Doc, fig: usize) -> (r: Result<Image, InternalParseError>)
    requires
        doc.wf(),
        fig < doc@.len(),
    ensures
        match r {
            Ok(im) => image_one_of(doc@, fig) == Ok::<ImageV, ErrV>(im@),
            Err(e) => image_one_of(doc@, fig) == Err::<ImageV, ErrV>(e@),
        },
{
    let img = match doc.select_first(&img_p(), Scope::Under(fig)) {
        Ok(i) => i,
        Err(e) => {
            return Err(e);
        },
    };
    let meta = match doc.select_unique(&url_meta_p(), Scope::Under(fig)) {
        Ok(i) => i,
        Err(e) => {
            return Err(e);
        },
    };
    let alt = doc.attr_nonempty_or_none(img, "alt");
    let url = doc.attr_value_or_none(meta, "content");
    let caption = match doc.select_first(&caption_p(), Scope::Under(fig)) {
        Ok(c) => Some(doc.full_fixed_html_text(c)),
        Err(_) => None,
    };
    Ok(Image { url, alt, caption })
}

fn images_from(doc: &Doc, figs: &Vec<usize>, k: usize) -> (r: Result<Vec<Image>, InternalParseError>)
    requires
        doc.wf(),
        k <= figs@.len(),
        forall|m: int| 0 <= m < figs@.len() ==> #[trigger] figs@[m] < doc@.len(),
    ensures
        match r {
            Ok(v) => images_of(doc@, figs@.skip(k as int)) == Ok::<Seq<ImageV>, ErrV>(
                images_view(v@),
            ),
            Err(e) => images_of(doc@, figs@.skip(k as int)) == Err::<Seq<ImageV>, ErrV>(e@),
        },
    decreases figs@.len() - k,
{
    if k == figs.len() {
        let r: Vec<Image> = Vec::new();
        proof {
            assert(figs@.skip(k as int) =~= Seq::<usize>::empty());
            assert(images_view(r@) =~= Seq::<ImageV>::empty());
        }
        Ok(r)
    } else {
        let im = match image_one(doc, figs[k]) {
            Ok(im) => im,
            Err(e) => {
                proof {
                    assert(figs@.skip(k as int)[0] == figs@[k as int]);
                }
                return Err(e);
            },
        };
        let ghost imv = im@;
        match images_from(doc, figs, k + 1) {
            Ok(mut rest) => {
                let ghost restv = images_view(rest@);
                rest.insert(0, im);
                proof {
                    assert(figs@.skip(k as int)[0] == figs@[k as int]);
                    assert(figs@.skip(k as int).drop_first() =~= figs@.skip(k + 1));
                    assert(images_view(rest@) =~= seq![imv] + restv);
                }
                Ok(rest)
            },
            Err(e) => {
                proof {
                    assert(figs@.skip(k as int)[0] == figs@[k as int]);
                    assert(figs@.skip(k as int).drop_first() =~= figs@.skip(k + 1));
                }
                Err(e)
            },
        }
    }
}

/// Parses a Mirror document into the canonical record, all-or-nothing.
pub fn parse(doc: &Doc) -> (r: Result<ParsedPageContent, InternalParseError>)
    requires
        doc.wf(),
    ensures
        match r {
            Ok(pc) => parse_of(doc@) is Ok && pc@ == ParsedPageContentV::NewsArticle(
                parse_of(doc@)->Ok_0,
            ),
            Err(e) => parse_of(doc@) == Err::<NewsArticleContentV, ErrV>(e@),
        },
{
    // DOCUMENT CONTAINERS
    let root = match doc.select_unique(&article_root_p(), Scope::Document) {
        Ok(i) => i,
        Err(e) => {
            return Err(e);
        },
    };
    let content = match doc.select_unique(&content_col_p(), Scope::Under(root)) {
        Ok(i) => i,
        Err(e) => {
            return Err(e);
        },
    };
    let body_el = match doc.select_unique(&article_body_p(), Scope::Under(content)) {
        Ok(i) => i,
        Err(e) => {
            return Err(e);
        },
    };
    // HEADLINE
    let headline = match doc.select_unique(&h1_p(), Scope::Under(root)) {
        Ok(i) => doc.full_fixed_html_text(i),
        Err(e) => {
            return Err(e);
        },
    };
    // TWITTER HEADLINE
    let twitter_headline: Option<String> = None;
    // DESCRIPTION: absence (or ambiguity) resolves to the empty string.
    let description = match doc.select_unique(&sub_title_p(), Scope::Under(root)) {
        Ok(i) => doc.full_fixed_html_text(i),
        Err(_) => String::new(),
    };
    // THUMBNAIL
    let thumbnail = match thumbnail(doc, content) {
        Ok(im) => im,
        Err(e) => {
            return Err(e);
        },
    };
    // CATEGORIES
    let categories: Vec<String> = Vec::new();
    // IMAGES
    let figs = select_list(doc, &in_article_p(), Scope::Under(body_el));
    let images = match images_from(doc, &figs, 0) {
        Ok(v) => v,
        Err(e) => {
            proof {
                assert(figs@.skip(0) =~= figs@);
            }
            return Err(e);
        },
    };
    proof {
        assert(figs@.skip(0) =~= figs@);
    }
    // VIDEOS
    let videos: Vec<Video> = Vec::new();
    // BODY
    let body_ids = select_list(doc, &p_ul_p(), Scope::Under(body_el));
    let body = doc.formatted_text(&body_ids);
    // DATE UPDATED / DATE PUBLISHED
    let date_updated = match date_rfc3339(doc, &date_updated_p()) {
        Ok(v) => v,
        Err(e) => {
            return Err(e);
        },
    };
    let date_published = match date_rfc3339(doc, &date_published_p()) {
        Ok(v) => v,
        Err(e) => {
            return Err(e);
        },
    };
    let content_out = NewsArticleContent {
        headline,
        twitter_headline,
        description,
        thumbnail,
        categories,
        images,
        videos,
        body,
        date_updated,
        date_published,
    };
    proof {
        assert(content_out.categories.deep_view() =~= Seq::<Seq<char>>::empty());
        assert(videos_view(content_out.videos@) =~= Seq::<VideoV>::empty());
    }
    Ok(ParsedPageContent::NewsArticle(content_out))
}

} // verus!
