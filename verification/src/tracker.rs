//! The change tracker: decides whether what a poll read from the clipboard is
//! genuinely new content, and whether it is externally caused.
//!
//! The tracker remembers the last accepted text, the hash of the last
//! accepted image bytes, and the time of the application's own most recent
//! clipboard write. A poll inside the suppression window after a self-write
//! is ignored entirely; otherwise text is checked before the image, and a
//! tick emits at most one event.

use vstd::prelude::*;
use crate::content::ClipboardContent;
use crate::content::ContentView;
use crate::content::ImageDataOwned;
use crate::content::RawImageView;
use crate::content::image_view;
use crate::content::text_view;
use crate::hashing::calculate_hash;
use crate::hashing::content_hash;

verus! {

/// Milliseconds after a self-write during which poll results are ignored, so
/// that the application's own write is not read back as if external.
pub const SUPPRESSION_WINDOW_MS: u64 = 1500;

/// Mathematical value of the tracker state.
pub struct TrackerView {
    /// The last accepted or self-written text; empty initially.
    pub last_text: Seq<char>,
    /// Hash of the last accepted or self-written image bytes; 0 initially.
    pub last_img_hash: u64,
    /// Time of the most recent self-write, in milliseconds; absent until the
    /// first self-write, so no poll is ever suppressed before one.
    pub last_own_copy: Option<u64>,
}

impl TrackerView {
    /// The tracker state at startup.
    pub open spec fn initial() -> TrackerView {
        TrackerView { last_text: Seq::empty(), last_img_hash: 0, last_own_copy: None }
    }

    /// A poll at `now_ms` falls inside the suppression window of the most
    /// recent self-write.
    pub open spec fn suppressed(self, now_ms: u64) -> bool {
        match self.last_own_copy {
            Some(t) => now_ms < t + SUPPRESSION_WINDOW_MS,
            None => false,
        }
    }

    /// Observed text is new: non-empty and not the last accepted text.
    pub open spec fn text_is_new(self, text: Seq<char>) -> bool {
        text.len() > 0 && text != self.last_text
    }

    /// An observed image is new: non-empty bytes whose hash differs from the
    /// last accepted image hash.
    pub open spec fn image_is_new(self, data: Seq<u8>) -> bool {
        data.len() > 0 && content_hash(data) != self.last_img_hash
    }

    /// The event one poll tick emits, given what was read from the clipboard.
    /// Inside the suppression window nothing is emitted; otherwise new text
    /// wins over a new image, and a tick emits at most one event.
    pub open spec fn tick_event(
        self,
        now_ms: u64,
        text: Option<Seq<char>>,
        image: Option<RawImageView>,
    ) -> Option<ContentView> {
        if self.suppressed(now_ms) {
            None
        } else if text is Some && self.text_is_new(text.unwrap()) {
            Some(text_view(text.unwrap()))
        } else if image is Some && self.image_is_new(image.unwrap().data) {
            Some(image_view(image.unwrap()))
        } else {
            None
        }
    }

    /// The tracker state after one poll tick: the last-seen text or image
    /// hash is updated exactly when the corresponding event is emitted.
    pub open spec fn tick_state(
        self,
        now_ms: u64,
        text: Option<Seq<char>>,
        image: Option<RawImageView>,
    ) -> TrackerView {
        if self.suppressed(now_ms) {
            self
        } else if text is Some && self.text_is_new(text.unwrap()) {
            TrackerView {
                last_text: text.unwrap(),
                last_img_hash: self.last_img_hash,
                last_own_copy: self.last_own_copy,
            }
        } else if image is Some && self.image_is_new(image.unwrap().data) {
            TrackerView {
                last_text: self.last_text,
                last_img_hash: content_hash(image.unwrap().data),
                last_own_copy: self.last_own_copy,
            }
        } else {
            self
        }
    }

    /// The tracker state after recording a self-write of `content` at
    /// `now_ms`: the write time starts the suppression window, and the
    /// written content is primed as last seen, so it is never re-detected as
    /// new even once the window has passed.
    pub open spec fn self_write_state(self, content: ContentView, now_ms: u64) -> TrackerView {
        match content {
            ContentView::Text { full, .. } => TrackerView {
                last_text: full,
                last_img_hash: self.last_img_hash,
                last_own_copy: Some(now_ms),
            },
            ContentView::Image { raw } => TrackerView {
                last_text: self.last_text,
                last_img_hash: content_hash(raw.data),
                last_own_copy: Some(now_ms),
            },
        }
    }
}

/// Maps what a poll read as text to its mathematical value.
pub open spec fn opt_text_view(text: Option<String>) -> Option<Seq<char>> {
    match text {
        Some(t) => Some(t@),
        None => None,
    }
}

/// Maps what a poll read as an image to its mathematical value.
pub open spec fn opt_image_view(image: Option<ImageDataOwned>) -> Option<RawImageView> {
    match image {
        Some(img) => Some(img@),
        None => None,
    }
}

/// Maps an emitted event to its mathematical value.
pub open spec fn opt_content_view(event: Option<ClipboardContent>) -> Option<ContentView> {
    match event {
        Some(c) => Some(c@),
        None => None,
    }
}

/// Process-wide change-tracker state: one instance lives for the whole
/// process, mutated only by poll ticks and by copy-back self-writes.
#[derive(Debug)]
pub struct ClipboardTracker {
    last_text: String,
    last_img_hash: u64,
    last_own_copy: Option<u64>,
}

impl View for ClipboardTracker {
    type V = TrackerView;

    closed spec fn view(&self) -> TrackerView {
        TrackerView {
            last_text: self.last_text@,
            last_img_hash: self.last_img_hash,
            last_own_copy: self.last_own_copy,
        }
    }
}

impl ClipboardTracker {
    /// The tracker at startup: nothing seen, no self-write recorded.
    pub fn new() -> (r: Self)
        ensures
            r@ == TrackerView::initial(),
    {
        let r = ClipboardTracker {
            last_text: String::new(),
            last_img_hash: 0,
            last_own_copy: None,
        };
        r
    }

    /// One poll tick. `text` and `image` are what the clipboard held (absence
    /// and read failure both arrive as `None`). Returns the new-item event,
    /// if any: inside the suppression window none; otherwise new text first,
    /// then a new image.
    pub fn poll_tick(
        &mut self,
        now_ms: u64,
        text: Option<String>,
        image: Option<ImageDataOwned>,
    ) -> (event: Option<ClipboardContent>)
        requires
            (image matches Some(img) ==> img@.well_formed()),
        ensures
            final(self)@ == old(self)@.tick_state(now_ms, opt_text_view(text), opt_image_view(image)),
            opt_content_view(event) == old(self)@.tick_event(
                now_ms,
                opt_text_view(text),
                opt_image_view(image),
            ),
            (event matches Some(c) ==> c@.well_formed()),
    {
        let suppressed = match self.last_own_copy {
            Some(t) => match t.checked_add(SUPPRESSION_WINDOW_MS) {
                Some(limit) => now_ms < limit,
                None => true,
            },
            None => false,
        };
        if suppressed {
            return None;
        }
        let text_new = match &text {
            Some(t) => !t.as_str().is_empty() && !(*t == self.last_text),
            None => false,
        };
        if text_new {
            let t = text.unwrap();
            self.last_text = t.clone();
            return Some(ClipboardContent::new_text(t));
        }
        if let Some(img) = image {
            let h = calculate_hash(img.data.as_slice());
            if img.data.len() > 0 && h != self.last_img_hash {
                self.last_img_hash = h;
                return Some(ClipboardContent::new_image(img));
            }
        }
        None
    }

    /// Record a copy-back before the clipboard is written: start the
    /// suppression window at `now_ms` and prime the written content as last
    /// seen, so the application's own write is never re-detected as new.
    pub fn record_self_write(&mut self, content: &ClipboardContent, now_ms: u64)
        ensures
            final(self)@ == old(self)@.self_write_state(content@, now_ms),
    {
        self.last_own_copy = Some(now_ms);
        match content {
            ClipboardContent::Text { full, .. } => {
                self.last_text = full.clone();
            },
            ClipboardContent::Image { raw } => {
                self.last_img_hash = calculate_hash(raw.data.as_slice());
            },
        }
    }
}

/// Deduplication: observing the same text on two consecutive ticks never
/// produces two events. If the first tick emitted, the second never does; a
/// first tick outside the suppression window consumes the text's novelty even
/// when it emitted nothing; and the first observation of a new, non-empty
/// text outside the window does emit exactly its event.
pub proof fn lemma_text_dedup(tr: TrackerView, t1: u64, t2: u64, text: Seq<char>)
    ensures
        tr.tick_event(t1, Some(text), None) is Some ==> tr.tick_state(t1, Some(text), None)
            .tick_event(t2, Some(text), None) is None,
        !tr.suppressed(t1) ==> tr.tick_state(t1, Some(text), None).tick_event(
            t2,
            Some(text),
            None,
        ) is None,
        !tr.suppressed(t1) && tr.text_is_new(text) ==> tr.tick_event(t1, Some(text), None)
            == Some(text_view(text)),
{
}

/// Self-write suppression: after a self-write of `written` at `t_write`, a
/// poll inside the suppression window observes nothing at all; the written
/// text itself is never re-detected, even once the window has passed; and a
/// different non-empty text observed past the window is an event.
pub proof fn lemma_self_write_suppression(
    tr: TrackerView,
    written: Seq<char>,
    t_write: u64,
    t_poll: u64,
    text: Option<Seq<char>>,
    image: Option<RawImageView>,
)
    ensures
        t_poll < t_write + SUPPRESSION_WINDOW_MS ==> tr.self_write_state(
            text_view(written),
            t_write,
        ).tick_event(t_poll, text, image) is None,
        tr.self_write_state(text_view(written), t_write).tick_event(
            t_poll,
            Some(written),
            None,
        ) is None,
        (t_poll >= t_write + SUPPRESSION_WINDOW_MS && text == Some(written) && image is None)
            ==> tr.self_write_state(text_view(written), t_write).tick_state(t_poll, text, image)
            == tr.self_write_state(text_view(written), t_write),
        (t_poll >= t_write + SUPPRESSION_WINDOW_MS && (text matches Some(t) && t.len() > 0 && t
            != written)) ==> tr.self_write_state(text_view(written), t_write).tick_event(
            t_poll,
            text,
            image,
        ) == Some(text_view(text.unwrap())),
{
}

} // verus!
