//! The clipboard content model: one snapshot of what the clipboard held.
//!
//! A snapshot is either text or a raw image. A text snapshot carries the full
//! string (used for copy-back) together with its display preview, which is
//! derived from the full text at construction time and never mutated on its
//! own. An image snapshot carries the raw bitmap; any renderable handle is
//! derived from the raw bytes outside this library.

use vstd::prelude::*;
use crate::preview::compact_preview;
use crate::preview::preview_of;

verus! {

/// Mathematical value of a raw bitmap.
pub struct RawImageView {
    pub width: nat,
    pub height: nat,
    pub data: Seq<u8>,
}

impl RawImageView {
    /// A raw bitmap is well formed when its buffer holds exactly four tightly
    /// packed bytes (8-bit RGBA) per pixel.
    pub open spec fn well_formed(&self) -> bool {
        self.data.len() == self.width * self.height * 4
    }
}

/// An owned raw bitmap: width, height, and tightly packed 8-bit RGBA bytes.
#[derive(Debug)]
pub struct ImageDataOwned {
    pub width: usize,
    pub height: usize,
    pub data: Vec<u8>,
}

impl View for ImageDataOwned {
    type V = RawImageView;

    open spec fn view(&self) -> RawImageView {
        RawImageView { width: self.width as nat, height: self.height as nat, data: self.data@ }
    }
}

impl ImageDataOwned {
    /// Wrap a raw bitmap; the buffer must hold four bytes per pixel.
    pub fn new(width: usize, height: usize, data: Vec<u8>) -> (r: Self)
        requires
            data@.len() == width * height * 4,
        ensures
            r@ == (RawImageView {
                width: width as nat,
                height: height as nat,
                data: data@,
            }),
            r@.well_formed(),
    {
        ImageDataOwned { width, height, data }
    }
}

impl Clone for ImageDataOwned {
    fn clone(&self) -> (r: Self)
        ensures
            r@ == self@,
    {
        broadcast use vstd::std_specs::vec::vec_clone_deep_view_proof;

        let data = self.data.clone();
        proof {
            assert(data@ =~= self.data@);
        }
        ImageDataOwned { width: self.width, height: self.height, data }
    }
}

/// Mathematical value of one clipboard snapshot.
pub enum ContentView {
    Text { full: Seq<char>, display: Seq<char> },
    Image { raw: RawImageView },
}

/// The value of a text snapshot of `full`: its display preview is derived
/// from the full text.
pub open spec fn text_view(full: Seq<char>) -> ContentView {
    ContentView::Text { full, display: preview_of(full) }
}

/// The value of an image snapshot of `raw`.
pub open spec fn image_view(raw: RawImageView) -> ContentView {
    ContentView::Image { raw }
}

impl ContentView {
    /// The display preview is exactly the preview of the full text, and an
    /// image buffer holds four bytes per pixel.
    pub open spec fn well_formed(&self) -> bool {
        match *self {
            ContentView::Text { full, display } => display == preview_of(full),
            ContentView::Image { raw } => raw.well_formed(),
        }
    }
}

/// One clipboard snapshot: text with its derived display preview, or a raw
/// image.
#[derive(Debug)]
pub enum ClipboardContent {
    Text { full: String, display: String },
    Image { raw: ImageDataOwned },
}

impl View for ClipboardContent {
    type V = ContentView;

    open spec fn view(&self) -> ContentView {
        match *self {
            ClipboardContent::Text { full, display } => ContentView::Text {
                full: full@,
                display: display@,
            },
            ClipboardContent::Image { raw } => ContentView::Image { raw: raw@ },
        }
    }
}

impl ClipboardContent {
    /// Snapshot new text content; the display preview is computed here, at
    /// construction, and nowhere else.
    pub fn new_text(full: String) -> (r: Self)
        ensures
            r@ == text_view(full@),
            r@.well_formed(),
    {
        let display = compact_preview(full.as_str());
        ClipboardContent::Text { full, display }
    }

    /// Snapshot new image content.
    pub fn new_image(raw: ImageDataOwned) -> (r: Self)
        requires
            raw@.well_formed(),
        ensures
            r@ == image_view(raw@),
            r@.well_formed(),
    {
        ClipboardContent::Image { raw }
    }
}

impl Clone for ClipboardContent {
    fn clone(&self) -> (r: Self)
        ensures
            r@ == self@,
    {
        match self {
            ClipboardContent::Text { full, display } => ClipboardContent::Text {
                full: full.clone(),
                display: display.clone(),
            },
            ClipboardContent::Image { raw } => ClipboardContent::Image { raw: raw.clone() },
        }
    }
}

/// One immutable history entry, wrapping the snapshot it was created from.
/// Entries are addressed by their position in the history store; they carry
/// no stable identifier.
#[derive(Debug)]
pub struct ClipboardEntry {
    pub content: ClipboardContent,
}

impl View for ClipboardEntry {
    type V = ContentView;

    open spec fn view(&self) -> ContentView {
        self.content@
    }
}

impl ClipboardEntry {
    /// Wrap a snapshot into a history entry.
    pub fn init_model(content: ClipboardContent) -> (r: Self)
        ensures
            r@ == content@,
    {
        ClipboardEntry { content }
    }

    /// Which page of the row widget shows this entry.
    pub fn view_mode(&self) -> (r: &str)
        ensures
            self@ is Text ==> r@ == "text_page"@,
            self@ is Image ==> r@ == "image_page"@,
    {
        match &self.content {
            ClipboardContent::Text { .. } => "text_page",
            ClipboardContent::Image { .. } => "image_page",
        }
    }

    /// The text shown for this entry: the display preview for text content,
    /// empty for an image.
    pub fn display_text(&self) -> (r: String)
        ensures
            r@ == match self@ {
                ContentView::Text { display, .. } => display,
                ContentView::Image { .. } => Seq::<char>::empty(),
            },
    {
        match &self.content {
            ClipboardContent::Text { display, .. } => display.clone(),
            ClipboardContent::Image { .. } => String::new(),
        }
    }
}

} // verus!
