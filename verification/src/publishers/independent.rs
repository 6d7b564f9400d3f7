//! The Independent pipeline: class-addressed headline and sub-headline with
//! entity decoding, a hero-image thumbnail with an open-graph fallback,
//! section/subsection categories, lossy in-body image collection, video
//! figures, and timestamps in a custom explicit-offset format.

use crate::dom::{Doc, Node};
use crate::entities::html_entity_decode;
use crate::errors::{ErrV, InternalParseError};
use crate::pattern::{
    a0, a1, attr_value_of, condv, no_conds, no_strs, pat_1step, pat_2step, s0, s1, s2,
    select_list, selected, step_new, stepv, Pattern, PatternV, Scope,
};
use crate::publishers::{date_fmt, date_fmt_of};
use crate::root_structs::{
    images_view, videos_view, Image, ImageV, NewsArticleContent, NewsArticleContentV,
    ParsedPageContent, ParsedPageContentV, Video, VideoV,
};
use crate::select::{
    attr_or_none, blocks_text, elem_attrs, full_text, html_err, sel_first, sel_unique,
    sel_unique_attr, AttrValueOrNone, FormattedText, FullFixedHtmlText, SelectHelpers,
};
use crate::text::{split_cs_str, split_comma_space};
use vstd::prelude::*;

verus! {

// ---------------------------------------------------------------------------
// Patterns.
// ---------------------------------------------------------------------------
pub open spec fn story_body_v() -> PatternV {
    PatternV {
        anchored: false,
        steps: seq![
            stepv(false, seq!["div"@], seq!["main-content"@], no_strs(), no_conds()),
            stepv(true, seq!["div"@], seq!["body-content"@], no_strs(), no_conds()),
        ],
        source: "div.main-content > div.body-content"@,
    }
}

fn story_body_p() -> (r: Pattern)
    ensures
        r@ == story_body_v(),
{
    pat_2step(
        false,
        "div.main-content > div.body-content",
        step_new(false, s1("div"), s1("main-content"), s0(), a0()),
        step_new(true, s1("div"), s1("body-content"), s0(), a0()),
    )
}

pub open spec fn headline_v() -> PatternV {
    PatternV {
        anchored: false,
        steps: seq![stepv(false, no_strs(), seq!["headline"@], no_strs(), no_conds())],
        source: ".headline"@,
    }
}

fn headline_p() -> (r: Pattern)
    ensures
        r@ == headline_v(),
{
    pat_1step(false, ".headline", step_new(false, s0(), s1("headline"), s0(), a0()))
}

pub open spec fn twitter_title_v() -> PatternV {
    PatternV {
        anchored: false,
        steps: seq![
            stepv(
                false,
                seq!["meta"@],
                no_strs(),
                no_strs(),
                seq![condv("name"@, Some("twitter:title"@))],
            ),
        ],
        source: "meta[name=\"twitter:title\"]"@,
    }
}

fn twitter_title_p() -> (r: Pattern)
    ensures
        r@ == twitter_title_v(),
{
    pat_1step(
        false,
        "meta[name=\"twitter:title\"]",
        step_new(false, s1("meta"), s0(), s0(), a1("name", Some("twitter:title"))),
    )
}

pub open spec fn sub_headline_v() -> PatternV {
    PatternV {
        anchored: false,
        steps: seq![stepv(false, no_strs(), seq!["sub-headline"@], no_strs(), no_conds())],
        source: ".sub-headline"@,
    }
}

fn sub_headline_p() -> (r: Pattern)
    ensures
        r@ == sub_headline_v(),
{
    pat_1step(false, ".sub-headline", step_new(false, s0(), s1("sub-headline"), s0(), a0()))
}

pub open spec fn hero_image_v() -> PatternV {
    PatternV {
        anchored: false,
        steps: seq![stepv(false, no_strs(), seq!["hero-image"@], no_strs(), no_conds())],
        source: ".hero-image"@,
    }
}

fn hero_image_p() -> (r: Pattern)
    ensures
        r@ == hero_image_v(),
{
    pat_1step(false, ".hero-image", step_new(false, s0(), s1("hero-image"), s0(), a0()))
}

pub open spec fn image_wrapper_v() -> PatternV {
    PatternV {
        anchored: true,
        steps: seq![stepv(true, no_strs(), seq!["image-wrapper"@], no_strs(), no_conds())],
        source: ":scope > .image-wrapper"@,
    }
}

fn image_wrapper_p() -> (r: Pattern)
    ensures
        r@ == image_wrapper_v(),
{
    pat_1step(true, ":scope > .image-wrapper", step_new(true, s0(), s1("image-wrapper"), s0(), a0()))
}

pub open spec fn og_image_v() -> PatternV {
    PatternV {
        anchored: false,
        steps: seq![
            stepv(
                false,
                seq!["meta"@],
                no_strs(),
                no_strs(),
                seq![condv("property"@, Some("og:image"@))],
            ),
        ],
        source: "meta[property=\"og:image\"]"@,
    }
}

fn og_image_p() -> (r: Pattern)
    ensures
        r@ == og_image_v(),
{
    pat_1step(
        false,
        "meta[property=\"og:image\"]",
        step_new(false, s1("meta"), s0(), s0(), a1("property", Some("og:image"))),
    )
}

pub open spec fn section_v() -> PatternV {
    PatternV {
        anchored: false,
        steps: seq![
            stepv(
                false,
                seq!["meta"@],
                no_strs(),
                no_strs(),
                seq![condv("name"@, Some("article:section"@))],
            ),
        ],
        source: "meta[name=\"article:section\"]"@,
    }
}

fn section_p() -> (r: Pattern)
    ensures
        r@ == section_v(),
{
    pat_1step(
        false,
        "meta[name=\"article:section\"]",
        step_new(false, s1("meta"), s0(), s0(), a1("name", Some("article:section"))),
    )
}

pub open spec fn subsection_v() -> PatternV {
    PatternV {
        anchored: false,
        steps: seq![
            stepv(
                false,
                seq!["meta"@],
                no_strs(),
                no_strs(),
                seq![condv("name"@, Some("article:subsection"@))],
            ),
        ],
        source: "meta[name=\"article:subsection\"]"@,
    }
}

fn subsection_p() -> (r: Pattern)
    ensures
        r@ == subsection_v(),
{
    pat_1step(
        false,
        "meta[name=\"article:subsection\"]",
        step_new(false, s1("meta"), s0(), s0(), a1("name", Some("article:subsection"))),
    )
}

pub open spec fn body_figure_v() -> PatternV {
    PatternV {
        anchored: true,
        steps: seq![
            stepv(true, seq!["figure"@], no_strs(), seq!["i-gallery"@, "video"@], no_conds()),
        ],
        source: ":scope > figure:not(.i-gallery):not(.video)"@,
    }
}

fn body_figure_p() -> (r: Pattern)
    ensures
        r@ == body_figure_v(),
{
    pat_1step(
        true,
        ":scope > figure:not(.i-gallery):not(.video)",
        step_new(true, s1("figure"), s0(), s2("i-gallery", "video"), a0()),
    )
}

pub open spec fn amp_img_v() -> PatternV {
    PatternV {
        anchored: false,
        steps: seq![stepv(false, seq!["amp-img"@], no_strs(), no_strs(), no_conds())],
        source: "amp-img"@,
    }
}

fn amp_img_p() -> (r: Pattern)
    ensures
        r@ == amp_img_v(),
{
    pat_1step(false, "amp-img", step_new(false, s1("amp-img"), s0(), s0(), a0()))
}

pub open spec fn figcaption_v() -> PatternV {
    PatternV {
        anchored: false,
        steps: seq![stepv(false, seq!["figcaption"@], no_strs(), no_strs(), no_conds())],
        source: "figcaption"@,
    }
}

fn figcaption_p() -> (r: Pattern)
    ensures
        r@ == figcaption_v(),
{
    pat_1step(false, "figcaption", step_new(false, s1("figcaption"), s0(), s0(), a0()))
}

pub open spec fn figcaption_caption_v() -> PatternV {
    PatternV {
        anchored: false,
        steps: seq![
            stepv(false, seq!["figcaption"@], seq!["caption"@], no_strs(), no_conds()),
        ],
        source: "figcaption.caption"@,
    }
}

fn figcaption_caption_p() -> (r: Pattern)
    ensures
        r@ == figcaption_caption_v(),
{
    pat_1step(
        false,
        "figcaption.caption",
        step_new(false, s1("figcaption"), s1("caption"), s0(), a0()),
    )
}

pub open spec fn figure_video_v() -> PatternV {
    PatternV {
        anchored: true,
        steps: seq![stepv(true, seq!["figure"@], seq!["video"@], no_strs(), no_conds())],
        source: ":scope > figure.video"@,
    }
}

fn figure_video_p() -> (r: Pattern)
    ensures
        r@ == figure_video_v(),
{
    pat_1step(true, ":scope > figure.video", step_new(true, s1("figure"), s1("video"), s0(), a0()))
}

pub open spec fn p_v() -> PatternV {
    PatternV {
        anchored: true,
        steps: seq![stepv(true, seq!["p"@], no_strs(), no_strs(), no_conds())],
        source: ":scope > p"@,
    }
}

fn p_p() -> (r: Pattern)
    ensures
        r@ == p_v(),
{
    pat_1step(true, ":scope > p", step_new(true, s1("p"), s0(), s0(), a0()))
}

pub open spec fn date_updated_v() -> PatternV {
    PatternV {
        anchored: false,
        steps: seq![
            stepv(
                false,
                seq!["meta"@],
                no_strs(),
                no_strs(),
                seq![condv("property"@, Some("article:modified_time"@))],
            ),
        ],
        source: "meta[property=\"article:modified_time\"]"@,
    }
}

fn date_updated_p() -> (r: Pattern)
    ensures
        r@ == date_updated_v(),
{
    pat_1step(
        false,
        "meta[property=\"article:modified_time\"]",
        step_new(false, s1("meta"), s0(), s0(), a1("property", Some("article:modified_time"))),
    )
}

pub open spec fn date_published_v() -> PatternV {
    PatternV {
        anchored: false,
        steps: seq![
            stepv(
                false,
                seq!["meta"@],
                no_strs(),
                no_strs(),
                seq![condv("property"@, Some("article:published_time"@))],
            ),
        ],
        source: "meta[property=\"article:published_time\"]"@,
    }
}

fn date_published_p() -> (r: Pattern)
    ensures
        r@ == date_published_v(),
{
    pat_1step(
        false,
        "meta[property=\"article:published_time\"]",
        step_new(false, s1("meta"), s0(), s0(), a1("property", Some("article:published_time"))),
    )
}

// ---------------------------------------------------------------------------
// The pipeline, spec side.
// ---------------------------------------------------------------------------
/// The sub-headline, entity-decoded; its absence resolves to the empty
/// string, while a decode failure aborts the parse with a decode error
/// carrying the decoder's diagnostic.
pub open spec fn description_of(nodes: Seq<Node>) -> Result<Seq<char>, ErrV> {
    match sel_unique(nodes, sub_headline_v(), Scope::Document) {
        Err(_) => Ok(Seq::<char>::empty()),
        Ok(el) => match html_entity_decode(full_text(nodes, el as int)) {
            Ok(t) => Ok(t),
            Err(d) => Err(ErrV::HtmlDecode(d)),
        },
    }
}

/// The thumbnail: the hero image's player frame (inside its wrapper when one
/// stands there), or the open-graph image as a fallback.
pub open spec fn thumbnail_of(nodes: Seq<Node>) -> Result<ImageV, ErrV> {
    match sel_first(nodes, hero_image_v(), Scope::Document) {
        Ok(hero) => {
            let wrapper = match sel_first(nodes, image_wrapper_v(), Scope::Under(hero)) {
                Ok(w) => w,
                Err(_) => hero,
            };
            match sel_unique(nodes, amp_img_v(), Scope::Under(wrapper)) {
                Err(c) => Err(html_err(amp_img_v(), c)),
                Ok(amp) => Ok(
                    ImageV {
                        alt: attr_or_none(nodes, amp as int, "alt"@),
                        url: attr_or_none(nodes, amp as int, "src"@),
                        caption: attr_or_none(nodes, amp as int, "title"@),
                    },
                ),
            }
        },
        Err(_) => Ok(
            ImageV {
                alt: None,
                url: match sel_unique_attr(nodes, og_image_v(), Scope::Document, "content"@) {
                    Ok(v) => Some(v),
                    Err(_) => None,
                },
                caption: None,
            },
        ),
    }
}

/// An optional metadata attribute.
pub open spec fn meta_opt_of(nodes: Seq<Node>, pat: PatternV) -> Option<Seq<char>> {
    match sel_unique_attr(nodes, pat, Scope::Document, "content"@) {
        Ok(v) => Some(v),
        Err(_) => None,
    }
}

/// Section and subsection tags combined into one flat, comma-split list;
/// either or both may be absent.
pub open spec fn categories_of(nodes: Seq<Node>) -> Seq<Seq<char>> {
    match (meta_opt_of(nodes, section_v()), meta_opt_of(nodes, subsection_v())) {
        (Some(c), Some(s)) => split_comma_space(c + ", "@ + s),
        (Some(c), None) => split_comma_space(c),
        (None, Some(s)) => split_comma_space(s),
        (None, None) => Seq::<Seq<char>>::empty(),
    }
}

/// One in-body figure: its player frame's raw source URL with an optional
/// caption, or nothing when the figure has no single player frame.
pub open spec fn image_opt_of(nodes: Seq<Node>, fig: usize) -> Option<ImageV> {
    match sel_unique(nodes, amp_img_v(), Scope::Under(fig)) {
        Err(_) => None,
        Ok(img) => Some(
            ImageV {
                alt: None,
                url: attr_value_of(elem_attrs(nodes, img as int), "src"@),
                caption: match sel_first(nodes, figcaption_v(), Scope::Under(fig)) {
                    Ok(c) => Some(full_text(nodes, c as int)),
                    Err(_) => None,
                },
            },
        ),
    }
}

/// The in-body images in document order; figures without a usable image are
/// skipped, an accepted lossy behavior.
pub open spec fn images_of(nodes: Seq<Node>, figs: Seq<usize>) -> Seq<ImageV>
    decreases figs.len(),
{
    if figs.len() == 0 {
        Seq::<ImageV>::empty()
    } else {
        (match image_opt_of(nodes, figs[0]) {
            Some(im) => seq![im],
            None => Seq::<ImageV>::empty(),
        }) + images_of(nodes, figs.drop_first())
    }
}

/// One video figure: its mandatory caption.
pub open spec fn video_one_of(nodes: Seq<Node>, fig: usize) -> Result<VideoV, ErrV> {
    match sel_unique(nodes, figcaption_caption_v(), Scope::Under(fig)) {
        Err(c) => Err(html_err(figcaption_caption_v(), c)),
        Ok(cap) => Ok(
            VideoV { alt: None, url: None, caption: Some(full_text(nodes, cap as int)) },
        ),
    }
}

/// The video figures, in document order; the first failure aborts.
pub open spec fn videos_of(nodes: Seq<Node>, figs: Seq<usize>) -> Result<Seq<VideoV>, ErrV>
    decreases figs.len(),
{
    if figs.len() == 0 {
        Ok(Seq::<VideoV>::empty())
    } else {
        match video_one_of(nodes, figs[0]) {
            Err(e) => Err(e),
            Ok(v) => match videos_of(nodes, figs.drop_first()) {
                Err(e) => Err(e),
                Ok(rest) => Ok(seq![v] + rest),
            },
        }
    }
}

/// The whole pipeline: all-or-nothing, in extraction order.
pub open spec fn parse_of(nodes: Seq<Node>) -> Result<NewsArticleContentV, ErrV> {
    match sel_unique(nodes, story_body_v(), Scope::Document) {
        Err(c) => Err(html_err(story_body_v(), c)),
        Ok(story) => match sel_unique(nodes, headline_v(), Scope::Document) {
            Err(c) => Err(html_err(headline_v(), c)),
            Ok(h) => match description_of(nodes) {
                Err(e) => Err(e),
                Ok(description) => match thumbnail_of(nodes) {
                    Err(e) => Err(e),
                    Ok(thumbnail) => match videos_of(
                        nodes,
                        selected(nodes, figure_video_v(), Scope::Under(story)),
                    ) {
                        Err(e) => Err(e),
                        Ok(videos) => match date_fmt_of(
                            nodes,
                            date_updated_v(),
                            "%Y-%m-%dT%H:%M:%S%z"@,
                        ) {
                            Err(e) => Err(e),
                            Ok(date_updated) => match date_fmt_of(
                                nodes,
                                date_published_v(),
                                "%Y-%m-%dT%H:%M:%S%z"@,
                            ) {
                                Err(e) => Err(e),
                                Ok(date_published) => Ok(
                                    NewsArticleContentV {
                                        headline: full_text(nodes, h as int),
                                        twitter_headline: meta_opt_of(nodes, twitter_title_v()),
                                        description,
                                        thumbnail,
                                        categories: categories_of(nodes),
                                        images: images_of(
                                            nodes,
                                            selected(nodes, body_figure_v(), Scope::Under(story)),
                                        ),
                                        videos,
                                        body: blocks_text(
                                            nodes,
                                            selected(nodes, p_v(), Scope::Under(story)),
                                        ),
                                        date_updated,
                                        date_published,
                                    },
                                ),
                            },
                        },
                    },
                },
            },
        },
    }
}

// ---------------------------------------------------------------------------
// Laws.
// ---------------------------------------------------------------------------
/// A document of the shape this pipeline expects: the body container and
/// headline resolve, the sub-headline is present, non-blank and decodes, the
/// thumbnail and every video figure extract, the body is non-blank, and both
/// timestamps parse.
pub open spec fn expected_shape(nodes: Seq<Node>) -> bool {
    let story = sel_unique(nodes, story_body_v(), Scope::Document);
    let h = sel_unique(nodes, headline_v(), Scope::Document);
    &&& story is Ok
    &&& h is Ok
    &&& full_text(nodes, h->Ok_0 as int).len() > 0
    &&& description_of(nodes) is Ok
    &&& description_of(nodes)->Ok_0.len() > 0
    &&& thumbnail_of(nodes) is Ok
    &&& videos_of(nodes, selected(nodes, figure_video_v(), Scope::Under(story->Ok_0))) is Ok
    &&& blocks_text(nodes, selected(nodes, p_v(), Scope::Under(story->Ok_0))).len() > 0
    &&& date_fmt_of(nodes, date_updated_v(), "%Y-%m-%dT%H:%M:%S%z"@) is Ok
    &&& date_fmt_of(nodes, date_published_v(), "%Y-%m-%dT%H:%M:%S%z"@) is Ok
}

/// For a document matching the expected shape, parsing succeeds, and the
/// headline, description and body come back non-empty; the headline is
/// single-line normalized and the body trimmed. (The description passes
/// through entity decoding, which may itself reintroduce whitespace, so no
/// normalization is claimed of it.)
pub proof fn lemma_parse_on_expected_shape(nodes: Seq<Node>)
    requires
        expected_shape(nodes),
    ensures
        parse_of(nodes) is Ok,
        parse_of(nodes)->Ok_0.headline.len() > 0,
        parse_of(nodes)->Ok_0.description.len() > 0,
        parse_of(nodes)->Ok_0.body.len() > 0,
        crate::text::normalized(parse_of(nodes)->Ok_0.headline) == parse_of(nodes)->Ok_0.headline,
        crate::text::trimmed(parse_of(nodes)->Ok_0.body) == parse_of(nodes)->Ok_0.body,
{
    let story = sel_unique(nodes, story_body_v(), Scope::Document)->Ok_0;
    let h = sel_unique(nodes, headline_v(), Scope::Document)->Ok_0;
    crate::text::lemma_normalized_idempotent(
        crate::text::joined_with(
            crate::select::trimmed_all(crate::select::texts_under(nodes, h as int)),
            " "@,
        ),
    );
    crate::text::lemma_trimmed_idempotent(
        crate::text::joined_with(
            crate::select::full_texts_of(nodes, selected(nodes, p_v(), Scope::Under(story))),
            "\n"@,
        ),
    );
}

/// The scenario guarantee, stated generally: under the expected shape the
/// parse succeeds, its headline is exactly the unique headline element's
/// normalized text, its description exactly the decoded sub-headline, and
/// its thumbnail exactly what the shape dispatch yields.
pub proof fn lemma_scenario_fields(nodes: Seq<Node>)
    requires
        expected_shape(nodes),
    ensures
        parse_of(nodes) is Ok,
        parse_of(nodes)->Ok_0.headline == full_text(
            nodes,
            sel_unique(nodes, headline_v(), Scope::Document)->Ok_0 as int,
        ),
        parse_of(nodes)->Ok_0.description == description_of(nodes)->Ok_0,
        parse_of(nodes)->Ok_0.thumbnail == thumbnail_of(nodes)->Ok_0,
{
}

/// Under the hero-image shape, the thumbnail is exactly the single player
/// frame's alt, source and title attributes — with no (or a blank) title
/// there is no caption — and a missing or ambiguous player frame is exactly
/// the structural error the selection yields.
pub proof fn lemma_hero_thumbnail(nodes: Seq<Node>)
    requires
        sel_first(nodes, hero_image_v(), Scope::Document) is Ok,
    ensures
        ({
            let hero = sel_first(nodes, hero_image_v(), Scope::Document)->Ok_0;
            let wrapper = match sel_first(nodes, image_wrapper_v(), Scope::Under(hero)) {
                Ok(w) => w,
                Err(_) => hero,
            };
            match sel_unique(nodes, amp_img_v(), Scope::Under(wrapper)) {
                Ok(amp) => thumbnail_of(nodes) == Ok::<ImageV, ErrV>(
                    ImageV {
                        alt: attr_or_none(nodes, amp as int, "alt"@),
                        url: attr_or_none(nodes, amp as int, "src"@),
                        caption: attr_or_none(nodes, amp as int, "title"@),
                    },
                ),
                Err(c) => thumbnail_of(nodes) == Err::<ImageV, ErrV>(html_err(amp_img_v(), c)),
            }
        }),
{
}

/// With no "updated" timestamp metadata in the document, the parse never
/// succeeds: no timestamp is guessed or defaulted.
pub proof fn lemma_missing_updated_fails(nodes: Seq<Node>)
    requires
        selected(nodes, date_updated_v(), Scope::Document).len() == 0,
    ensures
        parse_of(nodes) is Err,
{
    if parse_of(nodes) is Ok {
        assert(date_fmt_of(nodes, date_updated_v(), "%Y-%m-%dT%H:%M:%S%z"@) is Ok);
        assert(false);
    }
}

// ---------------------------------------------------------------------------
// The pipeline, executable side.
// ---------------------------------------------------------------------------
fn description(doc: &Doc) -> (r: Result<String, InternalParseError>)
    requires
        doc.wf(),
    ensures
        match r {
            Ok(s) => description_of(doc@) == Ok::<Seq<char>, ErrV>(s@),
            Err(e) => description_of(doc@) == Err::<Seq<char>, ErrV>(e@),
        },
{
    match doc.select_unique(&sub_headline_p(), Scope::Document) {
        Err(_) => Ok(String::new()),
        Ok(el) => {
            let raw = doc.full_fixed_html_text(el);
            match crate::entities::decode_entities(raw.as_str()) {
                Ok(t) => Ok(t),
                Err(d) => Err(InternalParseError::decode_html(d)),
            }
        },
    }
}

fn thumbnail(doc: &Doc) -> (r: Result<Image, InternalParseError>)
    requires
        doc.wf(),
    ensures
        match r {
            Ok(im) => thumbnail_of(doc@) == Ok::<ImageV, ErrV>(im@),
            Err(e) => thumbnail_of(doc@) == Err::<ImageV, ErrV>(e@),
        },
{
    match doc.select_first(&hero_image_p(), Scope::Document) {
        Ok(hero) => {
            let wrapper = match doc.select_first(&image_wrapper_p(), Scope::Under(hero)) {
                Ok(w) => w,
                Err(_) => hero,
            };
            let amp = match doc.select_unique(&amp_img_p(), Scope::Under(wrapper)) {
                Ok(i) => i,
                Err(e) => {
                    return Err(e);
                },
            };
            let alt = doc.attr_value_or_none(amp, "alt");
            let url = doc.attr_value_or_none(amp, "src");
            let caption = doc.attr_value_or_none(amp, "title");
            Ok(Image { alt, url, caption })
        },
        Err(_) => {
            let url = match doc.select_unique_attr(&og_image_p(), Scope::Document, "content") {
                Ok(v) => Some(v),
                Err(_) => None,
            };
            Ok(Image { alt: None, url, caption: None })
        },
    }
}

fn categories(doc: &Doc) -> (r: Vec<String>)
    requires
        doc.wf(),
    ensures
        r.deep_view() == categories_of(doc@),
{
    let sec = match doc.select_unique_attr(&section_p(), Scope::Document, "content") {
        Ok(v) => Some(v),
        Err(_) => None,
    };
    let sub = match doc.select_unique_attr(&subsection_p(), Scope::Document, "content") {
        Ok(v) => Some(v),
        Err(_) => None,
    };
    match (sec, sub) {
        (Some(c), Some(s)) => {
            let ghost cv = c@;
            let mut joined = c;
            joined.append(", ");
            joined.append(s.as_str());
            proof {
                assert(joined@ =~= cv + ", "@ + s@);
            }
            split_cs_str(joined.as_str())
        },
        (Some(c), None) => split_cs_str(c.as_str()),
        (None, Some(s)) => split_cs_str(s.as_str()),
        (None, None) => {
            let out: Vec<String> = Vec::new();
            proof {
                assert(out.deep_view() =~= Seq::<Seq<char>>::empty());
            }
            out
        },
    }
}

fn image_opt(doc: &Doc, fig: usize) -> (r: Option<Image>)
    requires
        doc.wf(),
        fig < doc@.len(),
    ensures
        match r {
            Some(im) => image_opt_of(doc@, fig) == Some(im@),
            None => image_opt_of(doc@, fig) is None,
        },
{
    match doc.select_unique(&amp_img_p(), Scope::Under(fig)) {
        Err(_) => None,
        Ok(img) => {
            let url = doc.attr_raw(img, "src");
            let caption = match doc.select_first(&figcaption_p(), Scope::Under(fig)) {
                Ok(c) => Some(doc.full_fixed_html_text(c)),
                Err(_) => None,
            };
            Some(Image { alt: None, url, caption })
        },
    }
}

fn images_from(doc: &Doc, figs: &Vec<usize>, k: usize) -> (r: Vec<Image>)
    requires
        doc.wf(),
        k <= figs@.len(),
        forall|m: int| 0 <= m < figs@.len() ==> #[trigger] figs@[m] < doc@.len(),
    ensures
        images_view(r@) == images_of(doc@, figs@.skip(k as int)),
    decreases figs@.len() - k,
{
    if k == figs.len() {
        let r: Vec<Image> = Vec::new();
        proof {
            assert(figs@.skip(k as int) =~= Seq::<usize>::empty());
            assert(images_view(r@) =~= Seq::<ImageV>::empty());
        }
        r
    } else {
        proof {
            assert(figs@.skip(k as int)[0] == figs@[k as int]);
            assert(figs@.skip(k as int).drop_first() =~= figs@.skip(k + 1));
        }
        match image_opt(doc, figs[k]) {
            Some(im) => {
                let ghost imv = im@;
                let mut rest = images_from(doc, figs, k + 1);
                let ghost restv = images_view(rest@);
                rest.insert(0, im);
                proof {
                    assert(images_view(rest@) =~= seq![imv] + restv);
                }
                rest
            },
            None => {
                let rest = images_from(doc, figs, k + 1);
                proof {
                    assert(Seq::<ImageV>::empty() + images_of(doc@, figs@.skip(k + 1))
                        =~= images_of(doc@, figs@.skip(k + 1)));
                }
                rest
            },
        }
    }
}

fn video_one(doc: &Doc, fig: usize) -> (r: Result<Video, InternalParseError>)
    requires
        doc.wf(),
        fig < doc@.len(),
    ensures
        match r {
            Ok(v) => video_one_of(doc@, fig) == Ok::<VideoV, ErrV>(v@),
            Err(e) => video_one_of(doc@, fig) == Err::<VideoV, ErrV>(e@),
        },
{
    let cap = match doc.select_unique(&figcaption_caption_p(), Scope::Under(fig)) {
        Ok(i) => i,
        Err(e) => {
            return Err(e);
        },
    };
    Ok(Video { alt: None, url: None, caption: Some(doc.full_fixed_html_text(cap)) })
}

fn videos_from(doc: &Doc, figs: &Vec<usize>, k: usize) -> (r: Result<Vec<Video>, InternalParseError>)
    requires
        doc.wf(),
        k <= figs@.len(),
        forall|m: int| 0 <= m < figs@.len() ==> #[trigger] figs@[m] < doc@.len(),
    ensures
        match r {
            Ok(v) => videos_of(doc@, figs@.skip(k as int)) == Ok::<Seq<VideoV>, ErrV>(
                videos_view(v@),
            ),
            Err(e) => videos_of(doc@, figs@.skip(k as int)) == Err::<Seq<VideoV>, ErrV>(e@),
        },
    decreases figs@.len() - k,
{
    if k == figs.len() {
        let r: Vec<Video> = Vec::new();
        proof {
            assert(figs@.skip(k as int) =~= Seq::<usize>::empty());
            assert(videos_view(r@) =~= Seq::<VideoV>::empty());
        }
        Ok(r)
    } else {
        let v = match video_one(doc, figs[k]) {
            Ok(v) => v,
            Err(e) => {
                proof {
                    assert(figs@.skip(k as int)[0] == figs@[k as int]);
                }
                return Err(e);
            },
        };
        let ghost vv = v@;
        match videos_from(doc, figs, k + 1) {
            Ok(mut rest) => {
                let ghost restv = videos_view(rest@);
                rest.insert(0, v);
                proof {
                    assert(figs@.skip(k as int)[0] == figs@[k as int]);
                    assert(figs@.skip(k as int).drop_first() =~= figs@.skip(k + 1));
                    assert(videos_view(rest@) =~= seq![vv] + restv);
                }
                Ok(rest)
            },
            Err(e) => {
                proof {
                    assert(figs@.skip(k as int)[0] == figs@[k as int]);
                    assert(figs@.skip(k as int).drop_first() =~= figs@.skip(k + 1));
                }
                Err(e)
            },
        }
    }
}

/// Parses an Independent document into the canonical record, all-or-nothing.
pub fn parse(doc: &Doc) -> (r: Result<ParsedPageContent, InternalParseError>)
    requires
        doc.wf(),
    ensures
        match r {
            Ok(pc) => parse_of(doc@) is Ok && pc@ == ParsedPageContentV::NewsArticle(
                parse_of(doc@)->Ok_0,
            ),
            Err(e) => parse_of(doc@) == Err::<NewsArticleContentV, ErrV>(e@),
        },
{
    // DOCUMENT CONTAINER
    let story = match doc.select_unique(&story_body_p(), Scope::Document) {
        Ok(i) => i,
        Err(e) => {
            return Err(e);
        },
    };
    // HEADLINE
    let headline = match doc.select_unique(&headline_p(), Scope::Document) {
        Ok(i) => doc.full_fixed_html_text(i),
        Err(e) => {
            return Err(e);
        },
    };
    // TWITTER HEADLINE
    let twitter_headline = match doc.select_unique_attr(
        &twitter_title_p(),
        Scope::Document,
        "content",
    ) {
        Ok(s) => Some(s),
        Err(_) => None,
    };
    // DESCRIPTION
    let description = match description(doc) {
        Ok(s) => s,
        Err(e) => {
            return Err(e);
        },
    };
    // THUMBNAIL
    let thumbnail = match thumbnail(doc) {
        Ok(im) => im,
        Err(e) => {
            return Err(e);
        },
    };
    // CATEGORIES
    let categories = categories(doc);
    // IMAGES: figures without a usable image are skipped.
    let figs = select_list(doc, &body_figure_p(), Scope::Under(story));
    let images = images_from(doc, &figs, 0);
    proof {
        assert(figs@.skip(0) =~= figs@);
    }
    // VIDEOS
    let vfigs = select_list(doc, &figure_video_p(), Scope::Under(story));
    let videos = match videos_from(doc, &vfigs, 0) {
        Ok(v) => v,
        Err(e) => {
            proof {
                assert(vfigs@.skip(0) =~= vfigs@);
            }
            return Err(e);
        },
    };
    proof {
        assert(vfigs@.skip(0) =~= vfigs@);
    }
    // BODY
    let body_ids = select_list(doc, &p_p(), Scope::Under(story));
    let body = doc.formatted_text(&body_ids);
    // DATE UPDATED / DATE PUBLISHED
    let date_updated = match date_fmt(doc, &date_updated_p(), "%Y-%m-%dT%H:%M:%S%z") {
        Ok(v) => v,
        Err(e) => {
            return Err(e);
        },
    };
    let date_published = match date_fmt(doc, &date_published_p(), "%Y-%m-%dT%H:%M:%S%z") {
        Ok(v) => v,
        Err(e) => {
            return Err(e);
        },
    };
    let content_out = NewsArticleContent {
        headline,
        twitter_headline,
        description,
        thumbnail,
        categories,
        images,
        videos,
        body,
        date_updated,
        date_published,
    };
    Ok(ParsedPageContent::NewsArticle(content_out))
}

} // verus!
