//! The trusted boundary to the `scraper` crate.
//!
//! Every page the pipeline reads is plain HTML text; what an element's text
//! or attribute is for a given document and CSS selector is decided entirely
//! by the HTML5 parsing that `scraper` performs, which no short contract can
//! restate. Each such result therefore carries an uninterpreted name, a pure
//! function of the document and the selectors alone, and all parsing logic
//! downstream is verified against those names. An invalid selector yields no
//! matches.

use vstd::prelude::*;

use scraper::Html;
use scraper::Selector;

verus! {

/// How many elements of `html` match `sel`, in the reading of
/// `scraper::Html::select`. All extraction results below have one entry per
/// match of their row selector, which is what this name ties together.
pub uninterp spec fn match_count_of(html: Seq<char>, sel: Seq<char>) -> nat;

/// For each element of `html` matching `outer`: the concatenated text, in
/// UTF-8 bytes, of each of its descendants matching `inner`, in document
/// order. An `inner` that is no valid selector matches nothing, leaving one
/// empty entry per `outer` match.
pub uninterp spec fn grouped_texts_of(html: Seq<char>, outer: Seq<char>, inner: Seq<char>) -> Seq<
    Seq<Seq<u8>>,
>;

/// For each element of `html` matching `outer`: the value of attribute
/// `attr` on its first descendant matching `inner`, when both exist.
pub uninterp spec fn grouped_first_attr_of(
    html: Seq<char>,
    outer: Seq<char>,
    inner: Seq<char>,
    attr: Seq<char>,
) -> Seq<Option<Seq<u8>>>;

/// For each element of `html` matching `outer`: the concatenated text of its
/// first descendant matching `inner`, when one exists.
pub uninterp spec fn grouped_first_text_of(
    html: Seq<char>,
    outer: Seq<char>,
    inner: Seq<char>,
) -> Seq<Option<Seq<u8>>>;

/// For each element of `html` matching `sel`: the value of its attribute
/// `attr`, when present.
pub uninterp spec fn matched_attrs_of(html: Seq<char>, sel: Seq<char>, attr: Seq<char>) -> Seq<
    Option<Seq<u8>>,
>;

/// Relies on scraper's `Html::parse_document`, `Selector::parse`, `select`
/// and `ElementRef::text`: the text of every `inner` descendant of every
/// `outer` match, grouped by match.
#[verifier::external_body]
pub(crate) fn grouped_texts(html: &str, outer: &str, inner: &str) -> (r: Vec<Vec<Vec<u8>>>)
    ensures
        r.deep_view() == grouped_texts_of(html@, outer@, inner@),
        r@.len() == match_count_of(html@, outer@),
{
    let Ok(osel) = Selector::parse(outer) else {
        return Vec::new();
    };
    let isel = Selector::parse(inner).ok();
    Html::parse_document(html)
        .select(&osel)
        .map(|el| match &isel {
            Some(is) => el.select(is).map(|c| c.text().collect::<String>().into_bytes()).collect(),
            None => Vec::new(),
        })
        .collect()
}

/// Relies on scraper's `Html::parse_document`, `Selector::parse`, `select`
/// and `ElementRef::attr`: the `attr` value of the first `inner` descendant
/// of every `outer` match.
#[verifier::external_body]
pub(crate) fn grouped_first_attr(html: &str, outer: &str, inner: &str, attr: &str) -> (r: Vec<
    Option<Vec<u8>>,
>)
    ensures
        r.deep_view() == grouped_first_attr_of(html@, outer@, inner@, attr@),
        r@.len() == match_count_of(html@, outer@),
{
    let Ok(osel) = Selector::parse(outer) else {
        return Vec::new();
    };
    let isel = Selector::parse(inner).ok();
    Html::parse_document(html)
        .select(&osel)
        .map(|el| {
            let is = isel.as_ref()?;
            el.select(is).next().and_then(|c| c.attr(attr)).map(|v| v.as_bytes().to_vec())
        })
        .collect()
}

/// Relies on scraper's `Html::parse_document`, `Selector::parse`, `select`
/// and `ElementRef::text`: the text of the first `inner` descendant of every
/// `outer` match.
#[verifier::external_body]
pub(crate) fn grouped_first_text(html: &str, outer: &str, inner: &str) -> (r: Vec<Option<Vec<u8>>>)
    ensures
        r.deep_view() == grouped_first_text_of(html@, outer@, inner@),
        r@.len() == match_count_of(html@, outer@),
{
    let Ok(osel) = Selector::parse(outer) else {
        return Vec::new();
    };
    let isel = Selector::parse(inner).ok();
    Html::parse_document(html)
        .select(&osel)
        .map(|el| {
            let is = isel.as_ref()?;
            el.select(is).next().map(|c| c.text().collect::<String>().into_bytes())
        })
        .collect()
}

/// Relies on scraper's `Html::parse_document`, `Selector::parse`, `select`
/// and `ElementRef::attr`: the `attr` value of every `sel` match.
#[verifier::external_body]
pub(crate) fn matched_attrs(html: &str, sel: &str, attr: &str) -> (r: Vec<Option<Vec<u8>>>)
    ensures
        r.deep_view() == matched_attrs_of(html@, sel@, attr@),
        r@.len() == match_count_of(html@, sel@),
{
    let Ok(s) = Selector::parse(sel) else {
        return Vec::new();
    };
    Html::parse_document(html)
        .select(&s)
        .map(|el| el.attr(attr).map(|v| v.as_bytes().to_vec()))
        .collect()
}

} // verus!
