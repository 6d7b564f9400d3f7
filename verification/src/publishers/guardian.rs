//! The Guardian pipeline: precondition check, headline with identical-text
//! tolerance, social headline, standfirst description, figure thumbnail with
//! mandatory caption, inline image/interactive and video figures, paragraph
//! and list body blocks, and strict RFC 3339 timestamps.

use crate::dom::{Doc, Node};
use crate::errors::{CauseV, ErrV, InternalParseError};
use crate::pattern::{
    a0, a1, a2, condv, element_matches, filter_by, filter_by2, filtered_by, filtered_by2, no_conds,
    no_strs, pat_1step, pat_2step, pat_3step, s0, s1, s2, select_list, selected, step_new, stepv,
    Pattern, PatternV, Scope,
};
use crate::publishers::{all_texts_equal, date_rfc3339, date_rfc3339_of, texts_all_equal};
use crate::root_structs::{
    images_view, videos_view, Image, ImageV, NewsArticleContent, NewsArticleContentV,
    ParsedPageContent, ParsedPageContentV, Video, VideoV,
};
use crate::select::{
    attr_or_none, blocks_text, children_of, full_text, html_err, sel_unique, sel_unique_attr,
    AttrValueOrNone, ChildrenHelpers, FormattedText, FullFixedHtmlText, SelectHelpers,
};
use vstd::prelude::*;

verus! {

// ---------------------------------------------------------------------------
// Patterns.
// ---------------------------------------------------------------------------
pub open spec fn precheck_v() -> PatternV {
    PatternV {
        anchored: false,
        steps: seq![
            stepv(false, seq!["body"@], no_strs(), no_strs(), no_conds()),
            stepv(true, seq!["div"@], no_strs(), no_strs(), no_conds()),
            stepv(
                true,
                seq!["article"@],
                seq!["content--media--video"@],
                no_strs(),
                seq![
                    condv("id"@, Some("article"@)),
                    condv("itemtype"@, Some("http://schema.org/VideoObject"@)),
                ],
            ),
        ],
        source: "body > div > article[id=\"article\"][itemtype=\"http://schema.org/VideoObject\"].content--media--video"@,
    }
}

fn precheck_p() -> (r: Pattern)
    ensures
        r@ == precheck_v(),
{
    pat_3step(
        false,
        "body > div > article[id=\"article\"][itemtype=\"http://schema.org/VideoObject\"].content--media--video",
        step_new(false, s1("body"), s0(), s0(), a0()),
        step_new(true, s1("div"), s0(), s0(), a0()),
        step_new(
            true,
            s1("article"),
            s1("content--media--video"),
            s0(),
            a2("id", "article", "itemtype", "http://schema.org/VideoObject"),
        ),
    )
}

pub open spec fn twitter_title_v() -> PatternV {
    PatternV {
        anchored: false,
        steps: seq![
            stepv(false, seq!["head"@], no_strs(), no_strs(), no_conds()),
            stepv(
                true,
                seq!["meta"@],
                no_strs(),
                no_strs(),
                seq![condv("name"@, Some("twitter:text:title"@))],
            ),
        ],
        source: "head > meta[name=\"twitter:text:title\"]"@,
    }
}

fn twitter_title_p() -> (r: Pattern)
    ensures
        r@ == twitter_title_v(),
{
    pat_2step(
        false,
        "head > meta[name=\"twitter:text:title\"]",
        step_new(false, s1("head"), s0(), s0(), a0()),
        step_new(true, s1("meta"), s0(), s0(), a1("name", Some("twitter:text:title"))),
    )
}

pub open spec fn date_updated_v() -> PatternV {
    PatternV {
        anchored: false,
        steps: seq![
            stepv(
                false,
                seq!["meta"@],
                no_strs(),
                no_strs(),
                seq![condv("property"@, Some("article:modified_time"@))],
            ),
        ],
        source: "meta[property=\"article:modified_time\"]"@,
    }
}

fn date_updated_p() -> (r: Pattern)
    ensures
        r@ == date_updated_v(),
{
    pat_1step(
        false,
        "meta[property=\"article:modified_time\"]",
        step_new(false, s1("meta"), s0(), s0(), a1("property", Some("article:modified_time"))),
    )
}

pub open spec fn date_published_v() -> PatternV {
    PatternV {
        anchored: false,
        steps: seq![
            stepv(
                false,
                seq!["meta"@],
                no_strs(),
                no_strs(),
                seq![condv("property"@, Some("article:published_time"@))],
            ),
        ],
        source: "meta[property=\"article:published_time\"]"@,
    }
}

fn date_published_p() -> (r: Pattern)
    ensures
        r@ == date_published_v(),
{
    pat_1step(
        false,
        "meta[property=\"article:published_time\"]",
        step_new(false, s1("meta"), s0(), s0(), a1("property", Some("article:published_time"))),
    )
}

pub open spec fn header_v() -> PatternV {
    PatternV {
        anchored: false,
        steps: seq![
            stepv(false, seq!["div"@], seq!["content__main-column"@], no_strs(), no_conds()),
            stepv(true, seq!["header"@], no_strs(), no_strs(), no_conds()),
        ],
        source: "div.content__main-column > header"@,
    }
}

fn header_p() -> (r: Pattern)
    ensures
        r@ == header_v(),
{
    pat_2step(
        false,
        "div.content__main-column > header",
        step_new(false, s1("div"), s1("content__main-column"), s0(), a0()),
        step_new(true, s1("header"), s0(), s0(), a0()),
    )
}

pub open spec fn headline_v() -> PatternV {
    PatternV {
        anchored: false,
        steps: seq![
            stepv(false, seq!["h1"@], seq!["content__headline"@], no_strs(), no_conds()),
        ],
        source: "h1.content__headline"@,
    }
}

fn headline_p() -> (r: Pattern)
    ensures
        r@ == headline_v(),
{
    pat_1step(
        false,
        "h1.content__headline",
        step_new(false, s1("h1"), s1("content__headline"), s0(), a0()),
    )
}

pub open spec fn description_v() -> PatternV {
    PatternV {
        anchored: false,
        steps: seq![
            stepv(false, seq!["div"@], seq!["content__standfirst"@], no_strs(), no_conds()),
        ],
        source: "div.content__standfirst"@,
    }
}

fn description_p() -> (r: Pattern)
    ensures
        r@ == description_v(),
{
    pat_1step(
        false,
        "div.content__standfirst",
        step_new(false, s1("div"), s1("content__standfirst"), s0(), a0()),
    )
}

pub open spec fn figure_header_v() -> PatternV {
    PatternV {
        anchored: false,
        steps: seq![
            stepv(false, seq!["figure"@], seq!["media-primary"@], no_strs(), no_conds()),
        ],
        source: "figure.media-primary"@,
    }
}

fn figure_header_p() -> (r: Pattern)
    ensures
        r@ == figure_header_v(),
{
    pat_1step(
        false,
        "figure.media-primary",
        step_new(false, s1("figure"), s1("media-primary"), s0(), a0()),
    )
}

pub open spec fn img_v() -> PatternV {
    PatternV {
        anchored: false,
        steps: seq![stepv(false, seq!["img"@], no_strs(), no_strs(), no_conds())],
        source: "img"@,
    }
}

fn img_p() -> (r: Pattern)
    ensures
        r@ == img_v(),
{
    pat_1step(false, "img", step_new(false, s1("img"), s0(), s0(), a0()))
}

pub open spec fn figcaption_v() -> PatternV {
    PatternV {
        anchored: false,
        steps: seq![
            stepv(false, seq!["figcaption"@], seq!["caption"@], no_strs(), no_conds()),
        ],
        source: "figcaption.caption"@,
    }
}

fn figcaption_p() -> (r: Pattern)
    ensures
        r@ == figcaption_v(),
{
    pat_1step(
        false,
        "figcaption.caption",
        step_new(false, s1("figcaption"), s1("caption"), s0(), a0()),
    )
}

pub open spec fn article_content_v() -> PatternV {
    PatternV {
        anchored: false,
        steps: seq![
            stepv(false, seq!["div"@], seq!["content__article-body"@], no_strs(), no_conds()),
        ],
        source: "div.content__article-body"@,
    }
}

fn article_content_p() -> (r: Pattern)
    ensures
        r@ == article_content_v(),
{
    pat_1step(
        false,
        "div.content__article-body",
        step_new(false, s1("div"), s1("content__article-body"), s0(), a0()),
    )
}

pub open spec fn element_image_v() -> PatternV {
    PatternV {
        anchored: false,
        steps: seq![
            stepv(false, seq!["figure"@], seq!["element-image"@], no_strs(), no_conds()),
        ],
        source: "figure.element-image"@,
    }
}

fn element_image_p() -> (r: Pattern)
    ensures
        r@ == element_image_v(),
{
    pat_1step(
        false,
        "figure.element-image",
        step_new(false, s1("figure"), s1("element-image"), s0(), a0()),
    )
}

pub open spec fn element_interactive_v() -> PatternV {
    PatternV {
        anchored: false,
        steps: seq![
            stepv(false, seq!["figure"@], seq!["element-interactive"@], no_strs(), no_conds()),
        ],
        source: "figure.element-interactive"@,
    }
}

fn element_interactive_p() -> (r: Pattern)
    ensures
        r@ == element_interactive_v(),
{
    pat_1step(
        false,
        "figure.element-interactive",
        step_new(false, s1("figure"), s1("element-interactive"), s0(), a0()),
    )
}

pub open spec fn video_figure_v() -> PatternV {
    PatternV {
        anchored: false,
        steps: seq![
            stepv(
                false,
                seq!["figure"@],
                seq!["element"@],
                no_strs(),
                seq![condv("data-atom-type"@, Some("media"@))],
            ),
        ],
        source: "figure.element[data-atom-type=\"media\"]"@,
    }
}

fn video_figure_p() -> (r: Pattern)
    ensures
        r@ == video_figure_v(),
{
    pat_1step(
        false,
        "figure.element[data-atom-type=\"media\"]",
        step_new(false, s1("figure"), s1("element"), s0(), a1("data-atom-type", Some("media"))),
    )
}

pub open spec fn youtube_iframe_v() -> PatternV {
    PatternV {
        anchored: false,
        steps: seq![
            stepv(false, seq!["div"@], seq!["youtube-media-atom__iframe"@], no_strs(), no_conds()),
        ],
        source: "div.youtube-media-atom__iframe"@,
    }
}

fn youtube_iframe_p() -> (r: Pattern)
    ensures
        r@ == youtube_iframe_v(),
{
    pat_1step(
        false,
        "div.youtube-media-atom__iframe",
        step_new(false, s1("div"), s1("youtube-media-atom__iframe"), s0(), a0()),
    )
}

/// Classifies body blocks: paragraph or list children.
pub open spec fn body_block_v() -> PatternV {
    PatternV {
        anchored: false,
        steps: seq![stepv(false, seq!["p"@, "ul"@], no_strs(), no_strs(), no_conds())],
        source: "p, ul"@,
    }
}

fn body_block_p() -> (r: Pattern)
    ensures
        r@ == body_block_v(),
{
    pat_1step(false, "p, ul", step_new(false, s2("p", "ul"), s0(), s0(), a0()))
}

// ---------------------------------------------------------------------------
// The pipeline, spec side.
// ---------------------------------------------------------------------------
/// The headline: the text of the single matching element, or of several that
/// all read the same; differing candidates are an unsupported shape.
pub open spec fn headline_of(nodes: Seq<Node>, header: usize) -> Result<Seq<char>, ErrV> {
    let hs = selected(nodes, headline_v(), Scope::Under(header));
    if hs.len() == 0 {
        Err(html_err(headline_v(), CauseV::MissingElement))
    } else if hs.len() == 1 {
        Ok(full_text(nodes, hs[0] as int))
    } else if all_texts_equal(nodes, hs) {
        Ok(full_text(nodes, hs[0] as int))
    } else {
        Err(ErrV::Unknown("Unknown headline type - too many <h1>s with differing text"@))
    }
}

/// The optional social headline; its absence is never fatal.
pub open spec fn twitter_of(nodes: Seq<Node>) -> Option<Seq<char>> {
    match sel_unique_attr(nodes, twitter_title_v(), Scope::Document, "content"@) {
        Ok(v) => Some(v),
        Err(_) => None,
    }
}

/// The standfirst description.
pub open spec fn description_of(nodes: Seq<Node>, header: usize) -> Result<Seq<char>, ErrV> {
    match sel_unique(nodes, description_v(), Scope::Under(header)) {
        Err(c) => Err(html_err(description_v(), c)),
        Ok(d) => Ok(full_text(nodes, d as int)),
    }
}

/// The thumbnail: the header figure's image with its mandatory caption.
pub open spec fn thumbnail_of(nodes: Seq<Node>, header: usize) -> Result<ImageV, ErrV> {
    match sel_unique(nodes, figure_header_v(), Scope::Under(header)) {
        Err(c) => Err(html_err(figure_header_v(), c)),
        Ok(fig) => match sel_unique(nodes, img_v(), Scope::Under(fig)) {
            Err(c) => Err(html_err(img_v(), c)),
            Ok(img) => match sel_unique(nodes, figcaption_v(), Scope::Under(fig)) {
                Err(c) => Err(html_err(figcaption_v(), c)),
                Ok(cap) => Ok(
                    ImageV {
                        alt: attr_or_none(nodes, img as int, "alt"@),
                        url: attr_or_none(nodes, img as int, "src"@),
                        caption: Some(full_text(nodes, cap as int)),
                    },
                ),
            },
        },
    }
}

/// One inline figure: a full image for an image figure, an empty placeholder
/// for an interactive one.
pub open spec fn image_one_of(nodes: Seq<Node>, fig: usize) -> Result<ImageV, ErrV> {
    if element_matches(nodes, element_image_v(), fig as int) {
        match sel_unique(nodes, img_v(), Scope::Under(fig)) {
            Err(c) => Err(html_err(img_v(), c)),
            Ok(img) => match sel_unique(nodes, figcaption_v(), Scope::Under(fig)) {
                Err(c) => Err(html_err(figcaption_v(), c)),
                Ok(cap) => Ok(
                    ImageV {
                        alt: attr_or_none(nodes, img as int, "alt"@),
                        url: attr_or_none(nodes, img as int, "src"@),
                        caption: Some(full_text(nodes, cap as int)),
                    },
                ),
            },
        }
    } else {
        Ok(ImageV { alt: None, url: None, caption: None })
    }
}

/// The inline images, in document order; the first failure aborts.
pub open spec fn images_of(nodes: Seq<Node>, figs: Seq<usize>) -> Result<Seq<ImageV>, ErrV>
    decreases figs.len(),
{
    if figs.len() == 0 {
        Ok(Seq::<ImageV>::empty())
    } else {
        match image_one_of(nodes, figs[0]) {
            Err(e) => Err(e),
            Ok(im) => match images_of(nodes, figs.drop_first()) {
                Err(e) => Err(e),
                Ok(rest) => Ok(seq![im] + rest),
            },
        }
    }
}

/// One video figure: its caption and the video URL built from the player
/// frame's asset id.
pub open spec fn video_one_of(nodes: Seq<Node>, fig: usize) -> Result<VideoV, ErrV> {
    match sel_unique(nodes, figcaption_v(), Scope::Under(fig)) {
        Err(c) => Err(html_err(figcaption_v(), c)),
        Ok(cap) => match sel_unique_attr(nodes, youtube_iframe_v(), Scope::Under(fig), "data-asset-id"@) {
            Err(c) => Err(html_err(youtube_iframe_v(), c)),
            Ok(id) => Ok(
                VideoV {
                    alt: None,
                    url: Some("https://www.youtube.com/watch?v="@ + id),
                    caption: Some(full_text(nodes, cap as int)),
                },
            ),
        },
    }
}

/// The inline videos, in document order; the first failure aborts.
pub open spec fn videos_of(nodes: Seq<Node>, figs: Seq<usize>) -> Result<Seq<VideoV>, ErrV>
    decreases figs.len(),
{
    if figs.len() == 0 {
        Ok(Seq::<VideoV>::empty())
    } else {
        match video_one_of(nodes, figs[0]) {
            Err(e) => Err(e),
            Ok(v) => match videos_of(nodes, figs.drop_first()) {
                Err(e) => Err(e),
                Ok(rest) => Ok(seq![v] + rest),
            },
        }
    }
}

/// The image figures among the body container's children.
pub open spec fn image_figs_of(nodes: Seq<Node>, content: usize) -> Seq<usize> {
    filtered_by2(
        nodes,
        children_of(nodes, content as int),
        element_image_v(),
        element_interactive_v(),
    )
}

/// The video figures among the body container's children.
pub open spec fn video_figs_of(nodes: Seq<Node>, content: usize) -> Seq<usize> {
    filtered_by(nodes, children_of(nodes, content as int), video_figure_v())
}

/// The paragraph and list children that make up the body.
pub open spec fn body_ids_of(nodes: Seq<Node>, content: usize) -> Seq<usize> {
    filtered_by(nodes, children_of(nodes, content as int), body_block_v())
}

/// The whole pipeline: all-or-nothing, in extraction order.
pub open spec fn parse_of(nodes: Seq<Node>) -> Result<NewsArticleContentV, ErrV> {
    if selected(nodes, precheck_v(), Scope::Document).len() > 0 {
        Err(ErrV::Unknown("Article type: video article, not yet supported"@))
    } else {
        match sel_unique(nodes, header_v(), Scope::Document) {
            Err(c) => Err(html_err(header_v(), c)),
            Ok(header) => match sel_unique(nodes, article_content_v(), Scope::Document) {
                Err(c) => Err(html_err(article_content_v(), c)),
                Ok(content) => match headline_of(nodes, header) {
                    Err(e) => Err(e),
                    Ok(headline) => match description_of(nodes, header) {
                        Err(e) => Err(e),
                        Ok(description) => match thumbnail_of(nodes, header) {
                            Err(e) => Err(e),
                            Ok(thumbnail) => match images_of(nodes, image_figs_of(nodes, content)) {
                                Err(e) => Err(e),
                                Ok(images) => match videos_of(
                                    nodes,
                                    video_figs_of(nodes, content),
                                ) {
                                    Err(e) => Err(e),
                                    Ok(videos) => match date_rfc3339_of(nodes, date_updated_v()) {
                                        Err(e) => Err(e),
                                        Ok(date_updated) => match date_rfc3339_of(
                                            nodes,
                                            date_published_v(),
                                        ) {
                                            Err(e) => Err(e),
                                            Ok(date_published) => Ok(
                                                NewsArticleContentV {
                                                    headline,
                                                    twitter_headline: twitter_of(nodes),
                                                    description,
                                                    thumbnail,
                                                    categories: Seq::<Seq<char>>::empty(),
                                                    images,
                                                    videos,
                                                    body: blocks_text(
                                                        nodes,
                                                        body_ids_of(nodes, content),
                                                    ),
                                                    date_updated,
                                                    date_published,
                                                },
                                            ),
                                        },
                                    },
                                },
                            },
                        },
                    },
                },
            },
        }
    }
}

// ---------------------------------------------------------------------------
// Laws.
// ---------------------------------------------------------------------------
/// A document of the shape this pipeline expects: not video-led, each
/// mandatory selection resolves, the mandatory texts are non-blank, and both
/// timestamps parse.
pub open spec fn expected_shape(nodes: Seq<Node>) -> bool {
    let header = sel_unique(nodes, header_v(), Scope::Document);
    let content = sel_unique(nodes, article_content_v(), Scope::Document);
    &&& selected(nodes, precheck_v(), Scope::Document).len() == 0
    &&& header is Ok
    &&& content is Ok
    &&& headline_of(nodes, header->Ok_0) is Ok
    &&& headline_of(nodes, header->Ok_0)->Ok_0.len() > 0
    &&& description_of(nodes, header->Ok_0) is Ok
    &&& description_of(nodes, header->Ok_0)->Ok_0.len() > 0
    &&& thumbnail_of(nodes, header->Ok_0) is Ok
    &&& images_of(nodes, image_figs_of(nodes, content->Ok_0)) is Ok
    &&& videos_of(nodes, video_figs_of(nodes, content->Ok_0)) is Ok
    &&& blocks_text(nodes, body_ids_of(nodes, content->Ok_0)).len() > 0
    &&& date_rfc3339_of(nodes, date_updated_v()) is Ok
    &&& date_rfc3339_of(nodes, date_published_v()) is Ok
}

/// For a document matching the expected shape, parsing succeeds, and the
/// headline, description and body come back non-empty; headline and
/// description are single-line normalized, the body is trimmed.
pub proof fn lemma_parse_on_expected_shape(nodes: Seq<Node>)
    requires
        expected_shape(nodes),
    ensures
        parse_of(nodes) is Ok,
        parse_of(nodes)->Ok_0.headline.len() > 0,
        parse_of(nodes)->Ok_0.description.len() > 0,
        parse_of(nodes)->Ok_0.body.len() > 0,
        crate::text::normalized(parse_of(nodes)->Ok_0.headline) == parse_of(nodes)->Ok_0.headline,
        crate::text::normalized(parse_of(nodes)->Ok_0.description) == parse_of(
            nodes,
        )->Ok_0.description,
        crate::text::trimmed(parse_of(nodes)->Ok_0.body) == parse_of(nodes)->Ok_0.body,
{
    let header = sel_unique(nodes, header_v(), Scope::Document)->Ok_0;
    let content = sel_unique(nodes, article_content_v(), Scope::Document)->Ok_0;
    let hs = selected(nodes, headline_v(), Scope::Under(header));
    assert(headline_of(nodes, header) is Ok);
    assert(parse_of(nodes)->Ok_0.headline == headline_of(nodes, header)->Ok_0);
    assert(headline_of(nodes, header)->Ok_0 == full_text(nodes, hs[0] as int));
    crate::text::lemma_normalized_idempotent(
        crate::text::joined_with(
            crate::select::trimmed_all(crate::select::texts_under(nodes, hs[0] as int)),
            " "@,
        ),
    );
    let d = sel_unique(nodes, description_v(), Scope::Under(header))->Ok_0;
    crate::text::lemma_normalized_idempotent(
        crate::text::joined_with(
            crate::select::trimmed_all(crate::select::texts_under(nodes, d as int)),
            " "@,
        ),
    );
    crate::text::lemma_trimmed_idempotent(
        crate::text::joined_with(
            crate::select::full_texts_of(nodes, body_ids_of(nodes, content)),
            "\n"@,
        ),
    );
}

/// The identical-text tolerance, the documented exception to the
/// unique-match rule for this publisher's headline: several candidates whose
/// normalized texts all agree yield that common text, while differing
/// candidates are rejected as an unsupported headline shape.
pub proof fn lemma_headline_tolerance(nodes: Seq<Node>, header: usize)
    requires
        selected(nodes, headline_v(), Scope::Under(header)).len() >= 2,
    ensures
        all_texts_equal(nodes, selected(nodes, headline_v(), Scope::Under(header)))
            ==> headline_of(nodes, header) == Ok::<Seq<char>, ErrV>(
            full_text(nodes, selected(nodes, headline_v(), Scope::Under(header))[0] as int),
        ),
        !all_texts_equal(nodes, selected(nodes, headline_v(), Scope::Under(header)))
            ==> headline_of(nodes, header) == Err::<Seq<char>, ErrV>(
            ErrV::Unknown("Unknown headline type - too many <h1>s with differing text"@),
        ),
{
}

/// At whole-parse level: once the precheck passes and the header and body
/// containers resolve, two or more headline candidates with differing text
/// fail the parse with exactly the ambiguous-headline error.
pub proof fn lemma_differing_headlines_rejected(nodes: Seq<Node>)
    requires
        selected(nodes, precheck_v(), Scope::Document).len() == 0,
        sel_unique(nodes, header_v(), Scope::Document) is Ok,
        sel_unique(nodes, article_content_v(), Scope::Document) is Ok,
        selected(
            nodes,
            headline_v(),
            Scope::Under(sel_unique(nodes, header_v(), Scope::Document)->Ok_0),
        ).len() >= 2,
        !all_texts_equal(
            nodes,
            selected(
                nodes,
                headline_v(),
                Scope::Under(sel_unique(nodes, header_v(), Scope::Document)->Ok_0),
            ),
        ),
    ensures
        parse_of(nodes) == Err::<NewsArticleContentV, ErrV>(
            ErrV::Unknown("Unknown headline type - too many <h1>s with differing text"@),
        ),
{
}

/// With no "updated" timestamp metadata in the document, the parse never
/// succeeds: no timestamp is guessed or defaulted.
pub proof fn lemma_missing_updated_fails(nodes: Seq<Node>)
    requires
        selected(nodes, date_updated_v(), Scope::Document).len() == 0,
    ensures
        parse_of(nodes) is Err,
{
    if parse_of(nodes) is Ok {
        assert(date_rfc3339_of(nodes, date_updated_v()) is Ok);
        assert(false);
    }
}

// ---------------------------------------------------------------------------
// The pipeline, executable side.
// ---------------------------------------------------------------------------
fn image_one(doc: &Doc, fig: usize) -> (r: Result<Image, InternalParseError>)
    requires
        doc.wf(),
        fig < doc@.len(),
    ensures
        match r {
            Ok(im) => image_one_of(doc@, fig) == Ok::<ImageV, ErrV>(im@),
            Err(e) => image_one_of(doc@, fig) == Err::<ImageV, ErrV>(e@),
        },
{
    let image_pat = element_image_p();
    if crate::pattern::element_matches_exec(doc, &image_pat, fig) {
        let img = match doc.select_unique(&img_p(), Scope::Under(fig)) {
            Ok(i) => i,
            Err(e) => {
                return Err(e);
            },
        };
        let cap = match doc.select_unique(&figcaption_p(), Scope::Under(fig)) {
            Ok(i) => i,
            Err(e) => {
                return Err(e);
            },
        };
        let alt = doc.attr_value_or_none(img, "alt");
        let url = doc.attr_value_or_none(img, "src");
        let caption = Some(doc.full_fixed_html_text(cap));
        Ok(Image { alt, url, caption })
    } else {
        Ok(Image { alt: None, url: None, caption: None })
    }
}

fn images_from(doc: &Doc, figs: &Vec<usize>, k: usize) -> (r: Result<Vec<Image>, InternalParseError>)
    requires
        doc.wf(),
        k <= figs@.len(),
        forall|m: int| 0 <= m < figs@.len() ==> #[trigger] figs@[m] < doc@.len(),
    ensures
        match r {
            Ok(v) => images_of(doc@, figs@.skip(k as int)) == Ok::<Seq<ImageV>, ErrV>(
                images_view(v@),
            ),
            Err(e) => images_of(doc@, figs@.skip(k as int)) == Err::<Seq<ImageV>, ErrV>(e@),
        },
    decreases figs@.len() - k,
{
    if k == figs.len() {
        let r: Vec<Image> = Vec::new();
        proof {
            assert(figs@.skip(k as int) =~= Seq::<usize>::empty());
            assert(images_view(r@) =~= Seq::<ImageV>::empty());
        }
        Ok(r)
    } else {
        let im = match image_one(doc, figs[k]) {
            Ok(im) => im,
            Err(e) => {
                proof {
                    assert(figs@.skip(k as int)[0] == figs@[k as int]);
                }
                return Err(e);
            },
        };
        let ghost imv = im@;
        match images_from(doc, figs, k + 1) {
            Ok(mut rest) => {
                let ghost restv = images_view(rest@);
                rest.insert(0, im);
                proof {
                    assert(figs@.skip(k as int)[0] == figs@[k as int]);
                    assert(figs@.skip(k as int).drop_first() =~= figs@.skip(k + 1));
                    assert(images_view(rest@) =~= seq![imv] + restv);
                }
                Ok(rest)
            },
            Err(e) => {
                proof {
                    assert(figs@.skip(k as int)[0] == figs@[k as int]);
                    assert(figs@.skip(k as int).drop_first() =~= figs@.skip(k + 1));
                }
                Err(e)
            },
        }
    }
}

fn video_one(doc: &Doc, fig: usize) -> (r: Result<Video, InternalParseError>)
    requires
        doc.wf(),
        fig < doc@.len(),
    ensures
        match r {
            Ok(v) => video_one_of(doc@, fig) == Ok::<VideoV, ErrV>(v@),
            Err(e) => video_one_of(doc@, fig) == Err::<VideoV, ErrV>(e@),
        },
{
    let cap = match doc.select_unique(&figcaption_p(), Scope::Under(fig)) {
        Ok(i) => i,
        Err(e) => {
            return Err(e);
        },
    };
    let youtube_id = match doc.select_unique_attr(
        &youtube_iframe_p(),
        Scope::Under(fig),
        "data-asset-id",
    ) {
        Ok(s) => s,
        Err(e) => {
            return Err(e);
        },
    };
    let mut url = String::new();
    url.append("https://www.youtube.com/watch?v=");
    url.append(youtube_id.as_str());
    proof {
        assert(url@ =~= "https://www.youtube.com/watch?v="@ + youtube_id@);
    }
    let caption = Some(doc.full_fixed_html_text(cap));
    Ok(Video { alt: None, url: Some(url), caption })
}

fn videos_from(doc: &Doc, figs: &Vec<usize>, k: usize) -> (r: Result<Vec<Video>, InternalParseError>)
    requires
        doc.wf(),
        k <= figs@.len(),
        forall|m: int| 0 <= m < figs@.len() ==> #[trigger] figs@[m] < doc@.len(),
    ensures
        match r {
            Ok(v) => videos_of(doc@, figs@.skip(k as int)) == Ok::<Seq<VideoV>, ErrV>(
                videos_view(v@),
            ),
            Err(e) => videos_of(doc@, figs@.skip(k as int)) == Err::<Seq<VideoV>, ErrV>(e@),
        },
    decreases figs@.len() - k,
{
    if k == figs.len() {
        let r: Vec<Video> = Vec::new();
        proof {
            assert(figs@.skip(k as int) =~= Seq::<usize>::empty());
            assert(videos_view(r@) =~= Seq::<VideoV>::empty());
        }
        Ok(r)
    } else {
        let v = match video_one(doc, figs[k]) {
            Ok(v) => v,
            Err(e) => {
                proof {
                    assert(figs@.skip(k as int)[0] == figs@[k as int]);
                }
                return Err(e);
            },
        };
        let ghost vv = v@;
        match videos_from(doc, figs, k + 1) {
            Ok(mut rest) => {
                let ghost restv = videos_view(rest@);
                rest.insert(0, v);
                proof {
                    assert(figs@.skip(k as int)[0] == figs@[k as int]);
                    assert(figs@.skip(k as int).drop_first() =~= figs@.skip(k + 1));
                    assert(videos_view(rest@) =~= seq![vv] + restv);
                }
                Ok(rest)
            },
            Err(e) => {
                proof {
                    assert(figs@.skip(k as int)[0] == figs@[k as int]);
                    assert(figs@.skip(k as int).drop_first() =~= figs@.skip(k + 1));
                }
                Err(e)
            },
        }
    }
}

/// Parses a Guardian document into the canonical record, all-or-nothing.
pub fn parse(doc: &Doc) -> (r: Result<ParsedPageContent, InternalParseError>)
    requires
        doc.wf(),
    ensures
        match r {
            Ok(pc) => parse_of(doc@) is Ok && pc@ == ParsedPageContentV::NewsArticle(
                parse_of(doc@)->Ok_0,
            ),
            Err(e) => parse_of(doc@) == Err::<NewsArticleContentV, ErrV>(e@),
        },
{
    // PRECHECK: a video-led article is an unsupported shape.
    let pre = select_list(doc, &precheck_p(), Scope::Document);
    if pre.len() > 0 {
        return Err(InternalParseError::unknown("Article type: video article, not yet supported"));
    }
    let header = match doc.select_unique(&header_p(), Scope::Document) {
        Ok(i) => i,
        Err(e) => {
            return Err(e);
        },
    };
    let content = match doc.select_unique(&article_content_p(), Scope::Document) {
        Ok(i) => i,
        Err(e) => {
            return Err(e);
        },
    };
    // HEADLINE: several candidates are tolerated only when their text agrees.
    let hs = select_list(doc, &headline_p(), Scope::Under(header));
    let headline = if hs.len() == 0 {
        return Err(
            InternalParseError::html(
                crate::errors::HtmlStructureError {
                    cause: crate::errors::HtmlErrorCause::MissingElement,
                    selector: headline_p().source,
                },
            ),
        );
    } else if hs.len() == 1 {
        doc.full_fixed_html_text(hs[0])
    } else if texts_all_equal(doc, &hs) {
        doc.full_fixed_html_text(hs[0])
    } else {
        return Err(
            InternalParseError::unknown("Unknown headline type - too many <h1>s with differing text"),
        );
    };
    // TWITTER HEADLINE
    let twitter_headline = match doc.select_unique_attr(
        &twitter_title_p(),
        Scope::Document,
        "content",
    ) {
        Ok(s) => Some(s),
        Err(_) => None,
    };
    // DESCRIPTION
    let description = match doc.select_unique(&description_p(), Scope::Under(header)) {
        Ok(d) => doc.full_fixed_html_text(d),
        Err(e) => {
            return Err(e);
        },
    };
    // THUMBNAIL
    let thumbnail = {
        let fig = match doc.select_unique(&figure_header_p(), Scope::Under(header)) {
            Ok(i) => i,
            Err(e) => {
                return Err(e);
            },
        };
        let img = match doc.select_unique(&img_p(), Scope::Under(fig)) {
            Ok(i) => i,
            Err(e) => {
                return Err(e);
            },
        };
        let cap = match doc.select_unique(&figcaption_p(), Scope::Under(fig)) {
            Ok(i) => i,
            Err(e) => {
                return Err(e);
            },
        };
        let alt = doc.attr_value_or_none(img, "alt");
        let url = doc.attr_value_or_none(img, "src");
        let caption = Some(doc.full_fixed_html_text(cap));
        Image { alt, url, caption }
    };
    // CATEGORIES
    let categories: Vec<String> = Vec::new();
    // IMAGES
    let kids = doc.children_all(content);
    let image_figs = filter_by2(doc, &kids, &element_image_p(), &element_interactive_p());
    let images = match images_from(doc, &image_figs, 0) {
        Ok(v) => v,
        Err(e) => {
            proof {
                assert(image_figs@.skip(0) =~= image_figs@);
            }
            return Err(e);
        },
    };
    proof {
        assert(image_figs@.skip(0) =~= image_figs@);
    }
    // VIDEOS
    let video_figs = filter_by(doc, &kids, &video_figure_p());
    let videos = match videos_from(doc, &video_figs, 0) {
        Ok(v) => v,
        Err(e) => {
            proof {
                assert(video_figs@.skip(0) =~= video_figs@);
            }
            return Err(e);
        },
    };
    proof {
        assert(video_figs@.skip(0) =~= video_figs@);
    }
    // BODY
    let body_ids = filter_by(doc, &kids, &body_block_p());
    let body = doc.formatted_text(&body_ids);
    // DATE UPDATED / DATE PUBLISHED
    let date_updated = match date_rfc3339(doc, &date_updated_p()) {
        Ok(v) => v,
        Err(e) => {
            return Err(e);
        },
    };
    let date_published = match date_rfc3339(doc, &date_published_p()) {
        Ok(v) => v,
        Err(e) => {
            return Err(e);
        },
    };
    let content_out = NewsArticleContent {
        headline,
        twitter_headline,
        description,
        thumbnail,
        categories,
        images,
        videos,
        body,
        date_updated,
        date_published,
    };
    proof {
        assert(content_out.categories.deep_view() =~= Seq::<Seq<char>>::empty());
    }
    Ok(ParsedPageContent::NewsArticle(content_out))
}

} // verus!
