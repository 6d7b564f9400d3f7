//! The closed error taxonomy shared by every pipeline. A parse either fully
//! succeeds or fails with exactly one of these kinds; partial results are
//! never exposed.

use vstd::prelude::*;

verus! {

/// Why a selection failed: no match, more than one match, or a match whose
/// required attribute is missing (or blank after trimming).
#[derive(Debug)]
pub enum HtmlErrorCause {
    MissingElement,
    NonUniqueElement,
    MissingAttribute(String),
}

/// A selection failure together with the printable form of the pattern that
/// failed.
#[derive(Debug)]
pub struct HtmlStructureError {
    pub cause: HtmlErrorCause,
    pub selector: String,
}

/// Which kind of embedded JSON failed to parse.
#[derive(Debug)]
pub enum JsonParseErrorCause {
    InvalidLdJson,
    InvalidDataAttrJson,
}

/// An embedded-JSON failure with a diagnostic.
#[derive(Debug)]
pub struct JsonParseError {
    pub cause: JsonParseErrorCause,
    pub diagnostic: String,
}

/// Every failure a pipeline may surface.
#[derive(Debug)]
pub enum InternalParseError {
    UnknownError(&'static str),
    HtmlStructureError(HtmlStructureError),
    JsonParseError(JsonParseError),
    InvalidDateTime(String),
    HtmlDecodeErr(String),
}

/// Mathematical form of `HtmlErrorCause`.
pub ghost enum CauseV {
    MissingElement,
    NonUniqueElement,
    MissingAttribute(Seq<char>),
}

/// Mathematical form of `InternalParseError`.
pub ghost enum ErrV {
    Unknown(Seq<char>),
    Html { cause: CauseV, selector: Seq<char> },
    Json { cause: JsonParseErrorCause, diagnostic: Seq<char> },
    InvalidDateTime(Seq<char>),
    HtmlDecode(Seq<char>),
}

impl View for HtmlErrorCause {
    type V = CauseV;

    open spec fn view(&self) -> CauseV {
        match self {
            HtmlErrorCause::MissingElement => CauseV::MissingElement,
            HtmlErrorCause::NonUniqueElement => CauseV::NonUniqueElement,
            HtmlErrorCause::MissingAttribute(a) => CauseV::MissingAttribute(a@),
        }
    }
}

impl View for InternalParseError {
    type V = ErrV;

    open spec fn view(&self) -> ErrV {
        match self {
            InternalParseError::UnknownError(m) => ErrV::Unknown(m.view()),
            InternalParseError::HtmlStructureError(e) => ErrV::Html {
                cause: e.cause@,
                selector: e.selector@,
            },
            InternalParseError::JsonParseError(e) => ErrV::Json {
                cause: e.cause,
                diagnostic: e.diagnostic@,
            },
            InternalParseError::InvalidDateTime(d) => ErrV::InvalidDateTime(d@),
            InternalParseError::HtmlDecodeErr(d) => ErrV::HtmlDecode(d@),
        }
    }
}

impl InternalParseError {
    pub fn html(error: HtmlStructureError) -> (r: InternalParseError)
        ensures
            r@ == (ErrV::Html { cause: error.cause@, selector: error.selector@ }),
    {
        InternalParseError::HtmlStructureError(error)
    }

    pub fn json(error: JsonParseError) -> (r: InternalParseError)
        ensures
            r@ == (ErrV::Json { cause: error.cause, diagnostic: error.diagnostic@ }),
    {
        InternalParseError::JsonParseError(error)
    }

    pub fn ld_json(diagnostic: String) -> (r: InternalParseError)
        ensures
            r@ == (ErrV::Json {
                cause: JsonParseErrorCause::InvalidLdJson,
                diagnostic: diagnostic@,
            }),
    {
        InternalParseError::JsonParseError(
            JsonParseError { cause: JsonParseErrorCause::InvalidLdJson, diagnostic },
        )
    }

    pub fn json_data_attr(diagnostic: String) -> (r: InternalParseError)
        ensures
            r@ == (ErrV::Json {
                cause: JsonParseErrorCause::InvalidDataAttrJson,
                diagnostic: diagnostic@,
            }),
    {
        InternalParseError::JsonParseError(
            JsonParseError { cause: JsonParseErrorCause::InvalidDataAttrJson, diagnostic },
        )
    }

    pub fn unknown(s: &'static str) -> (r: InternalParseError)
        ensures
            r@ == ErrV::Unknown(s@),
    {
        InternalParseError::UnknownError(s)
    }

    pub fn chrono(diagnostic: String) -> (r: InternalParseError)
        ensures
            r@ == ErrV::InvalidDateTime(diagnostic@),
    {
        InternalParseError::InvalidDateTime(diagnostic)
    }

    pub fn decode_html(diagnostic: String) -> (r: InternalParseError)
        ensures
            r@ == ErrV::HtmlDecode(diagnostic@),
    {
        InternalParseError::HtmlDecodeErr(diagnostic)
    }
}

} // verus!
