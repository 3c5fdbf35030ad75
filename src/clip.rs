use vstd::prelude::*;

verus! {

/// One captured clipboard payload: plain text, or an image held as PNG bytes.
#[derive(Debug, Clone, PartialEq, Eq)]
pub enum Clip {
    Text { plain: String },
    Image { data: Vec<u8>, width: usize, height: usize },
}

/// The mathematical value of a clip.
pub enum ClipView {
    Text { plain: Seq<char> },
    Image { data: Seq<u8>, width: nat, height: nat },
}

impl View for Clip {
    type V = ClipView;

    open spec fn view(&self) -> ClipView {
        match self {
            Clip::Text { plain } => ClipView::Text { plain: plain@ },
            Clip::Image { data, width, height } => ClipView::Image {
                data: data@,
                width: *width as nat,
                height: *height as nat,
            },
        }
    }
}

/// The stability signature of a clip: its length in characters for text, in
/// bytes for an image.
pub open spec fn signature_of(c: ClipView) -> nat {
    match c {
        ClipView::Text { plain } => plain.len(),
        ClipView::Image { data, .. } => data.len(),
    }
}

impl Clip {
    /// A cheap proxy used to tell whether the clipboard changed between two
    /// readings.
    pub fn signature(&self) -> (r: usize)
        ensures
            r as nat == signature_of(self@),
    {
        match self {
            Clip::Text { plain } => plain.as_str().unicode_len(),
            Clip::Image { data, .. } => data.len(),
        }
    }
}

/// What the popup is handed: the raw clip and, once known, a suggested
/// category.
#[derive(Debug, Clone, PartialEq, Eq)]
pub struct ClipContext {
    pub suggested_category: Option<String>,
    pub clip: Clip,
}

} // verus!
