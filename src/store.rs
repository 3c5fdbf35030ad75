use vstd::prelude::*;
use base64::Engine;
use crate::clip::{Clip, ClipContext, ClipView};

verus! {

/// The text written for each of the two kinds of clip.
pub const TEXT_KIND: &'static str = "text";

pub const IMAGE_KIND: &'static str = "image";

/// Text given to a stored record whose kind is not recognised.
pub const INVALID_CLIP: &'static str = "Invalid clip type";

/// What `base64::engine::general_purpose::STANDARD.encode` returns for some
/// bytes.
pub uninterp spec fn base64_of(b: Seq<u8>) -> Seq<char>;

/// What `base64::engine::general_purpose::STANDARD.decode` returns for a
/// string: the bytes, or `None` where it refuses the string.
pub uninterp spec fn base64_decoded(s: Seq<char>) -> Option<Seq<u8>>;

pub open spec fn opt_bytes(o: Option<Vec<u8>>) -> Option<Seq<u8>> {
    match o {
        Some(v) => Some(v@),
        None => None,
    }
}

/// Relies on `base64::Engine::encode` with the standard padded alphabet.
#[verifier::external_body]
fn encode_base64(b: &[u8]) -> (r: String)
    ensures
        r@ == base64_of(b@),
{
    base64::engine::general_purpose::STANDARD.encode(b)
}

/// Relies on `base64::Engine::decode` with the standard padded alphabet: the
/// encoding of any bytes decodes back to those bytes.
#[verifier::external_body]
fn decode_base64(s: &str) -> (r: Option<Vec<u8>>)
    ensures
        opt_bytes(r) == base64_decoded(s@),
        forall|b: Seq<u8>| base64_of(b) == s@ ==> opt_bytes(r) == Some(b),
{
    base64::engine::general_purpose::STANDARD.decode(s).ok()
}

/// The self-describing form in which a clip and its classification are
/// stored: a kind tag, the content (the text itself, or the PNG bytes in
/// base64), the classification, and the size of an image.
#[derive(Debug, Clone, PartialEq, Eq)]
pub struct Envelope {
    pub kind: String,
    pub content: String,
    pub category: String,
    pub summary: String,
    pub width: Option<u64>,
    pub height: Option<u64>,
}

pub struct EnvelopeView {
    pub kind: Seq<char>,
    pub content: Seq<char>,
    pub category: Seq<char>,
    pub summary: Seq<char>,
    pub width: Option<u64>,
    pub height: Option<u64>,
}

impl View for Envelope {
    type V = EnvelopeView;

    open spec fn view(&self) -> EnvelopeView {
        EnvelopeView {
            kind: self.kind@,
            content: self.content@,
            category: self.category@,
            summary: self.summary@,
            width: self.width,
            height: self.height,
        }
    }
}

/// The envelope stored for a clip with its category and summary.
pub open spec fn envelope_view_of(c: ClipView, category: Seq<char>, summary: Seq<char>) -> EnvelopeView {
    match c {
        ClipView::Text { plain } => EnvelopeView {
            kind: TEXT_KIND@,
            content: plain,
            category,
            summary,
            width: None,
            height: None,
        },
        ClipView::Image { data, width, height } => EnvelopeView {
            kind: IMAGE_KIND@,
            content: base64_of(data),
            category,
            summary,
            width: Some(width as u64),
            height: Some(height as u64),
        },
    }
}

/// Why a stored record could not be read back.
#[derive(Debug, Clone, Copy, PartialEq, Eq, Structural)]
pub enum ReadError {
    /// An image record whose content is not valid base64.
    InvalidBase64,
}

/// A stored size, 0 where it is missing.
pub open spec fn dimension(d: Option<u64>) -> nat {
    match d {
        Some(v) => (v as usize) as nat,
        None => 0,
    }
}

/// The clip that a stored envelope holds. An unknown kind reads as a text
/// placeholder rather than failing.
pub open spec fn clip_of_envelope(e: EnvelopeView) -> Result<ClipView, ReadError> {
    if e.kind == TEXT_KIND@ {
        Ok(ClipView::Text { plain: e.content })
    } else if e.kind == IMAGE_KIND@ {
        match base64_decoded(e.content) {
            Some(data) => Ok(
                ClipView::Image { data, width: dimension(e.width), height: dimension(e.height) },
            ),
            None => Err(ReadError::InvalidBase64),
        }
    } else {
        Ok(ClipView::Text { plain: INVALID_CLIP@ })
    }
}

pub fn envelope_of(clip: &Clip, category: &str, summary: &str) -> (r: Envelope)
    ensures
        r@ == envelope_view_of(clip@, category@, summary@),
{
    match clip {
        Clip::Text { plain } => Envelope {
            kind: String::from_str(TEXT_KIND),
            content: plain.clone(),
            category: String::from_str(category),
            summary: String::from_str(summary),
            width: None,
            height: None,
        },
        Clip::Image { data, width, height } => Envelope {
            kind: String::from_str(IMAGE_KIND),
            content: encode_base64(data.as_slice()),
            category: String::from_str(category),
            summary: String::from_str(summary),
            width: Some(*width as u64),
            height: Some(*height as u64),
        },
    }
}

fn stored_dimension(d: Option<u64>) -> (r: usize)
    ensures
        r as nat == dimension(d),
{
    match d {
        Some(v) => v as usize,
        None => 0,
    }
}

/// Reads a clip back from its stored envelope. Whatever `envelope_of` wrote
/// for a clip reads back as that same clip.
pub fn clip_from_envelope(e: &Envelope) -> (r: Result<Clip, ReadError>)
    ensures
        match r {
            Ok(c) => clip_of_envelope(e@) == Ok::<ClipView, ReadError>(c@),
            Err(err) => clip_of_envelope(e@) == Err::<ClipView, ReadError>(err),
        },
        forall|c: Clip, category: Seq<char>, summary: Seq<char>|
            #[trigger] envelope_view_of(c@, category, summary) == e@ ==> (r matches Ok(d) && d@
                == c@),
{
    proof {
        reveal_strlit("text");
        reveal_strlit("image");
    }
    if e.kind == String::from_str(TEXT_KIND) {
        let r = Ok(Clip::Text { plain: e.content.clone() });
        proof {
            assert forall|c: Clip, category: Seq<char>, summary: Seq<char>|
                #[trigger] envelope_view_of(c@, category, summary) == e@ implies (r matches Ok(
                d) && d@ == c@) by {
                if c is Image {
                    assert(envelope_view_of(c@, category, summary).kind[0] == 'i');
                }
            }
        }
        r
    } else if e.kind == String::from_str(IMAGE_KIND) {
        match decode_base64(e.content.as_str()) {
            Some(data) => {
                let r = Ok(
                    Clip::Image {
                        data,
                        width: stored_dimension(e.width),
                        height: stored_dimension(e.height),
                    },
                );
                proof {
                    assert forall|c: Clip, category: Seq<char>, summary: Seq<char>|
                        #[trigger] envelope_view_of(c@, category, summary) == e@ implies (r matches Ok(
                        d) && d@ == c@) by {
                        if c is Text {
                            assert(envelope_view_of(c@, category, summary).kind[0] == 't');
                        }
                    }
                }
                r
            },
            None => Err(ReadError::InvalidBase64),
        }
    } else {
        Ok(Clip::Text { plain: String::from_str(INVALID_CLIP) })
    }
}

/// One stored record, as the list shows it.
#[derive(Debug, Clone, PartialEq, Eq)]
pub struct ClipItem {
    pub id: i64,
    pub clip: Clip,
    pub created_at: String,
    pub category: Option<String>,
    pub summary: Option<String>,
}

/// Builds a listed record from the columns of one stored row.
pub fn clip_item_from_row(
    id: i64,
    envelope: &Envelope,
    created_at: String,
    category: Option<String>,
    summary: Option<String>,
) -> (r: Result<ClipItem, ReadError>)
    ensures
        match r {
            Ok(item) => {
                &&& clip_of_envelope(envelope@) == Ok::<ClipView, ReadError>(item.clip@)
                &&& item.id == id
                &&& item.created_at == created_at
                &&& item.category == category
                &&& item.summary == summary
            },
            Err(err) => clip_of_envelope(envelope@) == Err::<ClipView, ReadError>(err),
        },
        forall|c: Clip, category: Seq<char>, summary: Seq<char>|
            #[trigger] envelope_view_of(c@, category, summary) == envelope@ ==> (r matches Ok(item)
                && item.clip@ == c@),
{
    match clip_from_envelope(envelope) {
        Ok(clip) => Ok(ClipItem { id, clip, created_at, category, summary }),
        Err(err) => Err(err),
    }
}

/// Where the record store lives.
#[derive(Debug, Clone, PartialEq, Eq)]
pub struct AppState {
    pub db_path: String,
}

/// What listening views are told.
#[derive(Debug, Clone, PartialEq, Eq)]
pub enum Notification {
    /// A record was stored.
    ClipSaved,
    /// The record with this id was removed.
    ClipDeleted(i64),
    /// A classification suggestion for the open popup.
    ClipData(ClipContext),
}

/// Why a deletion failed.
#[derive(Debug, Clone, Copy, PartialEq, Eq, Structural)]
pub enum DeleteError {
    /// No record has the id.
    NotFound,
}

impl DeleteError {
    pub fn message(&self) -> (r: String)
        ensures
            r@ == "Item not found"@,
    {
        String::from_str("Item not found")
    }
}

/// What a deletion by id comes to, given how many rows the store removed: not
/// found when none was, else one notification that carries the id.
pub fn deletion_outcome(id: i64, rows_affected: usize) -> (r: Result<Notification, DeleteError>)
    ensures
        rows_affected == 0 <==> r == Err::<Notification, DeleteError>(DeleteError::NotFound),
        rows_affected > 0 <==> (r matches Ok(Notification::ClipDeleted(i)) && i == id),
{
    if rows_affected == 0 {
        Err(DeleteError::NotFound)
    } else {
        Ok(Notification::ClipDeleted(id))
    }
}

/// What a save comes to once the row is written.
pub fn save_outcome() -> (r: Notification)
    ensures
        r matches Notification::ClipSaved,
{
    Notification::ClipSaved
}

} // verus!
