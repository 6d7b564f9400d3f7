//! The canonical article record and its building blocks. Timestamps are UTC
//! epoch milliseconds. Entities here are value objects: built once by a
//! pipeline and never mutated.

use vstd::prelude::*;

verus! {

/// An inline or thumbnail image; every field is independently optional.
#[derive(Debug, PartialEq, Eq)]
pub struct Image {
    pub alt: Option<String>,
    pub url: Option<String>,
    pub caption: Option<String>,
}

/// An inline video; every field is independently optional.
#[derive(Debug, PartialEq, Eq)]
pub struct Video {
    pub alt: Option<String>,
    pub url: Option<String>,
    pub caption: Option<String>,
}

/// The closed set of supported publishers.
#[derive(Clone, Copy, Debug, PartialEq, Eq, Structural)]
pub enum Publisher {
    BBC,
    DailyMail,
    Independent,
    Metro,
    Mirror,
    Sky,
    Sun,
    Guardian,
}

/// A full news article record.
#[derive(Debug, PartialEq, Eq)]
pub struct NewsArticleContent {
    pub headline: String,
    pub twitter_headline: Option<String>,
    pub description: String,
    pub thumbnail: Image,
    pub categories: Vec<String>,
    pub images: Vec<Image>,
    pub videos: Vec<Video>,
    pub body: String,
    /// UTC epoch milliseconds.
    pub date_updated: i64,
    /// UTC epoch milliseconds.
    pub date_published: i64,
}

/// Reserved for video-led articles; no pipeline constructs it yet.
#[derive(Debug, PartialEq, Eq)]
pub struct VideoArticleContent {
    pub something: String,
}

/// What a parse produced.
#[derive(Debug, PartialEq, Eq)]
pub enum ParsedPageContent {
    NewsArticle(NewsArticleContent),
    VideoArticle(VideoArticleContent),
}

/// Page-level metadata attached by the orchestrator.
#[derive(Debug, PartialEq, Eq)]
pub struct PageMeta {
    pub publisher: Publisher,
    pub url: String,
    /// UTC epoch milliseconds, captured once per parse call.
    pub date_parsed: i64,
}

/// The full result of one parse call.
#[derive(Debug, PartialEq, Eq)]
pub struct ParsedPage {
    pub meta: PageMeta,
    pub content: ParsedPageContent,
}

pub ghost struct ImageV {
    pub alt: Option<Seq<char>>,
    pub url: Option<Seq<char>>,
    pub caption: Option<Seq<char>>,
}

pub ghost struct VideoV {
    pub alt: Option<Seq<char>>,
    pub url: Option<Seq<char>>,
    pub caption: Option<Seq<char>>,
}

pub ghost struct NewsArticleContentV {
    pub headline: Seq<char>,
    pub twitter_headline: Option<Seq<char>>,
    pub description: Seq<char>,
    pub thumbnail: ImageV,
    pub categories: Seq<Seq<char>>,
    pub images: Seq<ImageV>,
    pub videos: Seq<VideoV>,
    pub body: Seq<char>,
    pub date_updated: i64,
    pub date_published: i64,
}

pub ghost enum ParsedPageContentV {
    NewsArticle(NewsArticleContentV),
    VideoArticle(Seq<char>),
}

pub open spec fn opt_view(o: Option<String>) -> Option<Seq<char>> {
    match o {
        Some(s) => Some(s@),
        None => None,
    }
}

/// The views of an image list, in order.
pub open spec fn images_view(v: Seq<Image>) -> Seq<ImageV> {
    v.map_values(|im: Image| im@)
}

/// The views of a video list, in order.
pub open spec fn videos_view(v: Seq<Video>) -> Seq<VideoV> {
    v.map_values(|vd: Video| vd@)
}

impl View for Image {
    type V = ImageV;

    open spec fn view(&self) -> ImageV {
        ImageV { alt: opt_view(self.alt), url: opt_view(self.url), caption: opt_view(self.caption) }
    }
}

impl View for Video {
    type V = VideoV;

    open spec fn view(&self) -> VideoV {
        VideoV { alt: opt_view(self.alt), url: opt_view(self.url), caption: opt_view(self.caption) }
    }
}

impl View for NewsArticleContent {
    type V = NewsArticleContentV;

    open spec fn view(&self) -> NewsArticleContentV {
        NewsArticleContentV {
            headline: self.headline@,
            twitter_headline: opt_view(self.twitter_headline),
            description: self.description@,
            thumbnail: self.thumbnail@,
            categories: self.categories.deep_view(),
            images: images_view(self.images@),
            videos: videos_view(self.videos@),
            body: self.body@,
            date_updated: self.date_updated,
            date_published: self.date_published,
        }
    }
}

impl View for ParsedPageContent {
    type V = ParsedPageContentV;

    open spec fn view(&self) -> ParsedPageContentV {
        match self {
            ParsedPageContent::NewsArticle(c) => ParsedPageContentV::NewsArticle(c@),
            ParsedPageContent::VideoArticle(v) => ParsedPageContentV::VideoArticle(v.something@),
        }
    }
}

/// Characters equal up to ASCII case.
pub open spec fn same_letter_ci(x: char, y: char) -> bool {
    x == y || ('A' <= x <= 'Z' && y as int == x as int + 32) || ('A' <= y <= 'Z' && x as int == y
        as int + 32)
}

/// Strings equal up to ASCII case.
pub open spec fn eq_ci(a: Seq<char>, b: Seq<char>) -> bool {
    a.len() == b.len() && forall|i: int| 0 <= i < a.len() ==> same_letter_ci(a[i], #[trigger] b[i])
}

/// Which publisher a name denotes, compared without regard to ASCII case.
pub open spec fn publisher_of(s: Seq<char>) -> Option<Publisher> {
    if eq_ci(s, "bbc"@) {
        Some(Publisher::BBC)
    } else if eq_ci(s, "dailymail"@) {
        Some(Publisher::DailyMail)
    } else if eq_ci(s, "independent"@) {
        Some(Publisher::Independent)
    } else if eq_ci(s, "metro"@) {
        Some(Publisher::Metro)
    } else if eq_ci(s, "mirror"@) {
        Some(Publisher::Mirror)
    } else if eq_ci(s, "sky"@) {
        Some(Publisher::Sky)
    } else if eq_ci(s, "sun"@) {
        Some(Publisher::Sun)
    } else if eq_ci(s, "theguardian"@) || eq_ci(s, "guardian"@) {
        Some(Publisher::Guardian)
    } else {
        None
    }
}

/// The closed set of recognized publisher names, compared without regard to
/// ASCII case.
pub open spec fn recognized_name(s: Seq<char>) -> bool {
    ||| eq_ci(s, "bbc"@)
    ||| eq_ci(s, "dailymail"@)
    ||| eq_ci(s, "independent"@)
    ||| eq_ci(s, "metro"@)
    ||| eq_ci(s, "mirror"@)
    ||| eq_ci(s, "sky"@)
    ||| eq_ci(s, "sun"@)
    ||| eq_ci(s, "theguardian"@)
    ||| eq_ci(s, "guardian"@)
}

/// An unrecognized publisher name resolves to no publisher at all: name
/// resolution succeeds exactly on the closed set. It happens before any
/// markup is in play — the parse entry point takes only an already-resolved
/// publisher, so there is never a fallback pipeline to run.
pub proof fn lemma_unrecognized_publisher(s: Seq<char>)
    ensures
        publisher_of(s) is Some <==> recognized_name(s),
{
}

/// Decides `eq_ci` on concrete strings.
pub fn eq_ci_str(a: &str, b: &str) -> (r: bool)
    ensures
        r == eq_ci(a@, b@),
{
    let na = a.unicode_len();
    let nb = b.unicode_len();
    if na != nb {
        return false;
    }
    let mut i: usize = 0;
    while i < na
        invariant
            i <= na,
            na == a@.len(),
            na == b@.len(),
            forall|m: int| 0 <= m < i ==> same_letter_ci(a@[m], #[trigger] b@[m]),
        decreases na - i,
    {
        let x = a.get_char(i);
        let y = b.get_char(i);
        let xc = x as u32;
        let yc = y as u32;
        let same = x == y || (65 <= xc && xc <= 90 && yc == xc + 32) || (65 <= yc && yc <= 90 && xc
            == yc + 32);
        proof {
            assert(('A' <= x <= 'Z') == (65 <= xc && xc <= 90));
            assert(('A' <= y <= 'Z') == (65 <= yc && yc <= 90));
        }
        if !same {
            return false;
        }
        i = i + 1;
    }
    true
}

impl Publisher {
    /// Resolves a publisher name, without regard to ASCII case. Unrecognized
    /// names yield `None` — the rejection happens here, before any markup is
    /// looked at.
    pub fn from_name(name: &str) -> (r: Option<Publisher>)
        ensures
            r == publisher_of(name@),
    {
        if eq_ci_str(name, "bbc") {
            Some(Publisher::BBC)
        } else if eq_ci_str(name, "dailymail") {
            Some(Publisher::DailyMail)
        } else if eq_ci_str(name, "independent") {
            Some(Publisher::Independent)
        } else if eq_ci_str(name, "metro") {
            Some(Publisher::Metro)
        } else if eq_ci_str(name, "mirror") {
            Some(Publisher::Mirror)
        } else if eq_ci_str(name, "sky") {
            Some(Publisher::Sky)
        } else if eq_ci_str(name, "sun") {
            Some(Publisher::Sun)
        } else if eq_ci_str(name, "theguardian") || eq_ci_str(name, "guardian") {
            Some(Publisher::Guardian)
        } else {
            None
        }
    }
}

} // verus!
