use vstd::prelude::*;
use crate::clip::Clip;

verus! {

/// Text longer than this many characters is cut before it is sent.
pub const TRUNCATE_AT: usize = 2000;

/// Category used whenever the model gives no usable answer.
pub const FALLBACK_CATEGORY: &'static str = "other";

/// Category given to image clips without asking the model.
pub const IMAGE_CATEGORY: &'static str = "image";

/// Summary used whenever the summary call fails or says nothing.
pub const NO_SUMMARY: &'static str = "No summary available";

/// Marker appended to a truncated payload.
pub const TRUNCATION_MARKER: &'static str = "...";

pub const CATEGORY_PREFIX: &'static str = "Categorize this content:\n\n";

pub const SUMMARY_PREFIX: &'static str = "Please summarize the following content. If it came from a URL, provide a short overview of the page's main points.\n\n";

/// What `str::trim` returns for a string.
pub uninterp spec fn trimmed_of(s: Seq<char>) -> Seq<char>;

/// What `str::to_lowercase` returns for a string.
pub uninterp spec fn lower_of(s: Seq<char>) -> Seq<char>;

/// The scheme of a string that `url::Url::parse` accepts; `None` where it
/// refuses the string.
pub uninterp spec fn url_scheme_of(s: Seq<char>) -> Option<Seq<char>>;

/// Relies on `str::trim`: leading and trailing white space removed; the result
/// depends on the characters alone.
#[verifier::external_body]
pub(crate) fn trim(s: &str) -> (r: &str)
    ensures
        r@ == trimmed_of(s@),
{
    s.trim()
}

/// Relies on `str::to_lowercase`: the result depends on the characters alone.
#[verifier::external_body]
pub(crate) fn lowercase(s: &str) -> (r: String)
    ensures
        r@ == lower_of(s@),
{
    s.to_lowercase()
}

/// Relies on `url::Url::parse` and `url::Url::scheme`: the scheme of the parsed
/// URL, or `None` where parsing fails.
#[verifier::external_body]
fn parsed_scheme(text: &str) -> (r: Option<String>)
    ensures
        r matches Some(s) ==> url_scheme_of(text@) == Some(s@),
        r is None ==> url_scheme_of(text@) is None,
{
    url::Url::parse(text).ok().map(|u| u.scheme().to_string())
}

pub open spec fn is_web_scheme(scheme: Option<Seq<char>>) -> bool {
    scheme == Some("http"@) || scheme == Some("https"@)
}

/// Whether a parsed scheme is `http` or `https`.
pub fn is_web_scheme_name(scheme: &Option<String>) -> (r: bool)
    ensures
        r == is_web_scheme(match scheme {
            Some(s) => Some(s@),
            None => None,
        }),
{
    match scheme {
        Some(s) => *s == String::from_str("http") || *s == String::from_str("https"),
        None => false,
    }
}

/// Whether the whole text, once trimmed, parses as an `http` or `https` URL.
pub fn is_url(text: &str) -> (r: bool)
    ensures
        r == is_web_scheme(url_scheme_of(trimmed_of(text@))),
{
    let scheme = parsed_scheme(trim(text));
    is_web_scheme_name(&scheme)
}

/// The text sent to the model for a text clip: cut to its first
/// `TRUNCATE_AT` characters, with a marker, when it is longer.
pub open spec fn payload_of(text: Seq<char>) -> Seq<char> {
    if text.len() > TRUNCATE_AT {
        text.subrange(0, TRUNCATE_AT as int) + TRUNCATION_MARKER@
    } else {
        text
    }
}

/// Text over the limit is sent as exactly its first `TRUNCATE_AT` characters
/// and the marker, and nothing more of it; shorter text is sent whole.
pub proof fn lemma_payload_is_cut_at_limit(text: Seq<char>)
    ensures
        text.len() > TRUNCATE_AT ==> {
            &&& payload_of(text).len() == TRUNCATE_AT + TRUNCATION_MARKER@.len()
            &&& payload_of(text).subrange(0, TRUNCATE_AT as int) == text.subrange(0, TRUNCATE_AT as int)
            &&& payload_of(text).subrange(TRUNCATE_AT as int, payload_of(text).len() as int)
                == TRUNCATION_MARKER@
        },
        text.len() <= TRUNCATE_AT ==> payload_of(text) == text,
{
    if text.len() > TRUNCATE_AT {
        let p = payload_of(text);
        assert(p.subrange(0, TRUNCATE_AT as int) =~= text.subrange(0, TRUNCATE_AT as int));
        assert(p.subrange(TRUNCATE_AT as int, p.len() as int) =~= TRUNCATION_MARKER@);
    }
}

pub fn truncated_payload(text: &str) -> (r: String)
    ensures
        r@ == payload_of(text@),
{
    if text.unicode_len() > TRUNCATE_AT {
        let mut r = String::from_str(text.substring_char(0, TRUNCATE_AT));
        r.append(TRUNCATION_MARKER);
        r
    } else {
        String::from_str(text)
    }
}

/// The user message of the category call.
pub fn category_prompt(payload: &str) -> (r: String)
    ensures
        r@ == CATEGORY_PREFIX@ + payload@,
{
    let mut r = String::from_str(CATEGORY_PREFIX);
    r.append(payload);
    r
}

/// The user message of the summary call.
pub fn summary_prompt(payload: &str) -> (r: String)
    ensures
        r@ == SUMMARY_PREFIX@ + payload@,
{
    let mut r = String::from_str(SUMMARY_PREFIX);
    r.append(payload);
    r
}

/// How a clip gets its category.
#[derive(Debug, Clone, PartialEq, Eq)]
pub enum CategoryRequest {
    /// Known without asking the model.
    Known(String),
    /// Ask the model with this user message.
    Ask(String),
}

/// Images are categorised as such on the spot; text is sent, cut if long.
pub fn category_request(clip: &Clip) -> (r: CategoryRequest)
    ensures
        match clip@ {
            crate::clip::ClipView::Text { plain } => r matches CategoryRequest::Ask(p) && p@
                == CATEGORY_PREFIX@ + payload_of(plain),
            crate::clip::ClipView::Image { .. } => r matches CategoryRequest::Known(c) && c@
                == IMAGE_CATEGORY@,
        },
{
    match clip {
        Clip::Text { plain } => {
            let payload = truncated_payload(plain.as_str());
            CategoryRequest::Ask(category_prompt(payload.as_str()))
        },
        Clip::Image { .. } => CategoryRequest::Known(String::from_str(IMAGE_CATEGORY)),
    }
}

/// A summary is asked for only when the clip is text that is a web URL; the
/// result is the user message to send.
pub fn summary_request(clip: &Clip) -> (r: Option<String>)
    ensures
        match clip@ {
            crate::clip::ClipView::Text { plain } => if is_web_scheme(
                url_scheme_of(trimmed_of(plain)),
            ) {
                r matches Some(p) && p@ == SUMMARY_PREFIX@ + payload_of(plain)
            } else {
                r is None
            },
            crate::clip::ClipView::Image { .. } => r is None,
        },
{
    match clip {
        Clip::Text { plain } => {
            if is_url(plain.as_str()) {
                let payload = truncated_payload(plain.as_str());
                Some(summary_prompt(payload.as_str()))
            } else {
                None
            }
        },
        Clip::Image { .. } => None,
    }
}

/// How the summary call went.
#[derive(Debug, Clone, PartialEq, Eq)]
pub enum SummaryOutcome {
    /// No summary was asked for.
    NotAsked,
    /// The call failed.
    Failed,
    /// The summary that came back.
    Answered(String),
}

/// A category, always present, and a summary only where one was asked for.
#[derive(Debug, Clone, PartialEq, Eq)]
pub struct ClassificationResult {
    pub category: String,
    pub summary: Option<String>,
}

/// Merges the outcomes of the two calls; `category` is `None` where the
/// category call failed. A failure in one never affects the other.
pub fn classification_result(category: Option<String>, summary: SummaryOutcome) -> (r: ClassificationResult)
    ensures
        r.category@ == match category {
            Some(c) => c@,
            None => FALLBACK_CATEGORY@,
        },
        match summary {
            SummaryOutcome::NotAsked => r.summary is None,
            SummaryOutcome::Failed => r.summary matches Some(s) && s@ == NO_SUMMARY@,
            SummaryOutcome::Answered(a) => r.summary == Some(a),
        },
{
    let category = match category {
        Some(c) => c,
        None => String::from_str(FALLBACK_CATEGORY),
    };
    let summary = match summary {
        SummaryOutcome::NotAsked => None,
        SummaryOutcome::Failed => Some(String::from_str(NO_SUMMARY)),
        SummaryOutcome::Answered(a) => Some(a),
    };
    ClassificationResult { category, summary }
}

/// The classification when the model cannot be reached at all (no
/// credential): images keep their own category, everything else falls back,
/// and a summary that would have been asked for is the fallback summary.
pub fn classification_without_model(clip: &Clip) -> (r: ClassificationResult)
    ensures
        r.category@ == match clip@ {
            crate::clip::ClipView::Image { .. } => IMAGE_CATEGORY@,
            crate::clip::ClipView::Text { .. } => FALLBACK_CATEGORY@,
        },
        match clip@ {
            crate::clip::ClipView::Text { plain } => if is_web_scheme(
                url_scheme_of(trimmed_of(plain)),
            ) {
                r.summary matches Some(s) && s@ == NO_SUMMARY@
            } else {
                r.summary is None
            },
            crate::clip::ClipView::Image { .. } => r.summary is None,
        },
{
    let category = match category_request(clip) {
        CategoryRequest::Known(c) => Some(c),
        CategoryRequest::Ask(_) => None,
    };
    let summary = match summary_request(clip) {
        Some(_) => SummaryOutcome::Failed,
        None => SummaryOutcome::NotAsked,
    };
    classification_result(category, summary)
}

/// The category stored when the user submits: what the user entered, else
/// the suggestion, else the fallback.
pub fn submitted_category(entered: &str, suggested: &Option<String>) -> (r: String)
    ensures
        entered@.len() > 0 ==> r@ == entered@,
        entered@.len() == 0 ==> r@ == match suggested {
            Some(s) => s@,
            None => FALLBACK_CATEGORY@,
        },
{
    if entered.unicode_len() > 0 {
        String::from_str(entered)
    } else {
        match suggested {
            Some(s) => s.clone(),
            None => String::from_str(FALLBACK_CATEGORY),
        }
    }
}

} // verus!
