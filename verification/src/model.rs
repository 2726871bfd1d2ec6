//! The application model and its update step.
//!
//! All core state — history store, change tracker, page navigation, keybinding
//! setup — lives in one owned model, mutated by a single cooperative loop. The
//! `update` step consumes one message and returns the outward actions the
//! surrounding shell must perform (writing the keybinding file, registering
//! the global hotkey, hiding the window, writing the clipboard). Everything
//! that touches the operating system stays outside; the model only decides.

use vstd::prelude::*;
use vstd::utf8::encode_utf8;
use crate::content::ClipboardContent;
use crate::content::ContentView;
use crate::content::ImageDataOwned;
use crate::history::HistoryStore;
use crate::history::push_front_spec;
use crate::tracker::ClipboardTracker;
use crate::tracker::TrackerView;
use crate::tracker::opt_content_view;
use crate::tracker::opt_image_view;
use crate::tracker::opt_text_view;

verus! {

/// Which page the window shows.
#[derive(Debug, Clone, Copy, PartialEq, Eq, Structural)]
pub enum Page {
    Wizard,
    WizardCustom,
    Clipboard,
    Settings,
}

/// Validation state of the manually entered shortcut string.
#[derive(Debug, Clone, Copy, PartialEq, Eq, Structural)]
pub enum BindingStatus {
    Valid,
    Invalid,
}

/// A manually entered shortcut string is accepted when it is empty (nothing
/// entered yet) or looks like a modifier-plus-key binding: it contains `<`
/// and `>` and is longer than three bytes.
pub open spec fn binding_accepted(s: Seq<char>) -> bool {
    s.len() == 0 || (s.contains('<') && s.contains('>') && encode_utf8(s).len() > 3)
}

/// Whether `s` contains the character `c`.
fn str_contains_char(s: &str, c: char) -> (r: bool)
    ensures
        r == s@.contains(c),
{
    let n = s.unicode_len();
    let mut i: usize = 0;
    while i < n
        invariant
            i <= n,
            n == s@.len(),
            forall|j: int| 0 <= j < i ==> s@[j] != c,
        decreases n - i,
    {
        if s.get_char(i) == c {
            return true;
        }
        i = i + 1;
    }
    false
}

/// Whether the persisted keybinding file content marks first-run setup as
/// complete: it must hold something besides whitespace.
pub fn keybinding_present(contents: &str) -> (r: bool)
    ensures
        r == (crate::gsettings::trimmed(contents@).len() > 0),
{
    let t = crate::gsettings::trim_spaces(contents);
    !t.as_str().is_empty()
}

/// Pre-submission validation of a manually entered shortcut string.
pub fn validate_binding(text: &str) -> (r: BindingStatus)
    ensures
        r == (if binding_accepted(text@) {
            BindingStatus::Valid
        } else {
            BindingStatus::Invalid
        }),
{
    if text.is_empty() {
        BindingStatus::Valid
    } else if str_contains_char(text, '<') && str_contains_char(text, '>') && text.as_bytes().len()
        > 3 {
        BindingStatus::Valid
    } else {
        BindingStatus::Invalid
    }
}

/// One message the model consumes. Positions address history entries by their
/// current index; the value carried by `OpenSettings` is the freshly read
/// autostart state, since only the surrounding shell can look at the disk.
#[derive(Debug)]
pub enum KlipBoredMsg {
    NewItem(ClipboardContent),
    RequestCopy(usize),
    DeleteItem(usize),
    WizardAccept,
    WizardShowCustom,
    WizardApplyBinding(String),
    OpenSettings(bool),
    ToggleAutostart(bool),
    BackToClipboard,
    UpdateManualBinding(String),
    ApplyManualBinding,
}

/// One outward action the surrounding shell performs after an update step, in
/// the order returned.
#[derive(Debug)]
pub enum Action {
    /// Persist the keybinding string to the per-user configuration file.
    SaveKeybinding(String),
    /// Register the global hotkey with the desktop environment, best effort.
    RegisterHotkey(String),
    /// Hide the presentation surface.
    HideWindow,
    /// Write this content back to the operating-system clipboard, on a
    /// separate execution context, followed by the settle delay.
    WriteClipboard(ClipboardContent),
    /// Install or remove the autostart file.
    SetAutostart(bool),
}

/// The default keybinding offered by the first-run wizard.
pub const DEFAULT_BINDING: &'static str = "<Super>v";

/// The whole core state of the application: one instance, owned by the event
/// loop, alive for the process lifetime.
#[derive(Debug)]
pub struct KlipBoredModel {
    /// Bounded most-recent-first clipboard history.
    pub history: HistoryStore,
    /// Change tracker for poll classification and self-write suppression.
    pub tracker: ClipboardTracker,
    /// First-run setup is complete; polling is gated on this.
    pub setup_done: bool,
    /// Page the window currently shows.
    pub current_page: Page,
    /// Whether the autostart file is installed, as last read.
    pub autostart_enabled: bool,
    /// The keybinding currently persisted.
    pub current_binding: String,
    /// The shortcut string being typed into the wizard's manual entry.
    pub manual_binding: String,
    /// Validation state of `manual_binding`.
    pub binding_status: BindingStatus,
}

impl KlipBoredModel {
    /// The model invariant: the history store is within capacity and all its
    /// entries are well formed.
    pub open spec fn wf(self) -> bool {
        self.history.well_formed()
    }

    /// The model at startup. `setup_done` says whether a keybinding is
    /// already persisted; `autostart_enabled` and `current_binding` are what
    /// the shell read from disk. The window starts on the wizard until setup
    /// is complete.
    pub fn init(setup_done: bool, autostart_enabled: bool, current_binding: String) -> (r: Self)
        ensures
            r.wf(),
            r.history@ == Seq::<ContentView>::empty(),
            r.tracker@ == TrackerView::initial(),
            r.setup_done == setup_done,
            r.current_page == (if setup_done {
                Page::Clipboard
            } else {
                Page::Wizard
            }),
            r.autostart_enabled == autostart_enabled,
            r.current_binding@ == current_binding@,
            r.manual_binding@ == Seq::<char>::empty(),
            r.binding_status == BindingStatus::Valid,
    {
        let current_page = if setup_done {
            Page::Clipboard
        } else {
            Page::Wizard
        };
        KlipBoredModel {
            history: HistoryStore::new(),
            tracker: ClipboardTracker::new(),
            setup_done,
            current_page,
            autostart_enabled,
            current_binding,
            manual_binding: String::new(),
            binding_status: BindingStatus::Valid,
        }
    }

    /// One poll tick, at `now_ms`, with what the shell read from the
    /// clipboard. While first-run setup is incomplete the tick is a no-op;
    /// otherwise the reads go through the change tracker, and the returned
    /// event, if any, is the new externally caused content. The history is
    /// not touched here: the event is fed back as `NewItem`.
    pub fn poll(
        &mut self,
        now_ms: u64,
        text: Option<String>,
        image: Option<ImageDataOwned>,
    ) -> (event: Option<ClipboardContent>)
        requires
            old(self).wf(),
            (image matches Some(img) ==> img@.well_formed()),
        ensures
            final(self).wf(),
            !old(self).setup_done ==> *final(self) == *old(self) && event is None,
            old(self).setup_done ==> {
                &&& final(self).tracker@ == old(self).tracker@.tick_state(
                    now_ms,
                    opt_text_view(text),
                    opt_image_view(image),
                )
                &&& opt_content_view(event) == old(self).tracker@.tick_event(
                    now_ms,
                    opt_text_view(text),
                    opt_image_view(image),
                )
                &&& (event matches Some(c) ==> c@.well_formed())
                &&& final(self).history == old(self).history
                &&& final(self).setup_done == old(self).setup_done
                &&& final(self).current_page == old(self).current_page
                &&& final(self).autostart_enabled == old(self).autostart_enabled
                &&& final(self).current_binding == old(self).current_binding
                &&& final(self).manual_binding == old(self).manual_binding
                &&& final(self).binding_status == old(self).binding_status
            },
    {
        if !self.setup_done {
            return None;
        }
        self.tracker.poll_tick(now_ms, text, image)
    }

    /// Apply a chosen keybinding: persist it, remember it as current, mark
    /// setup complete, and register the hotkey. Coming from the custom wizard
    /// page the window moves to the clipboard page and hides; coming from
    /// settings it stays there.
    fn apply_binding(&mut self, binding: String) -> (actions: Vec<Action>)
        requires
            old(self).wf(),
        ensures
            final(self).wf(),
            final(self).history == old(self).history,
            final(self).tracker == old(self).tracker,
            final(self).setup_done,
            final(self).current_binding@ == binding@,
            final(self).autostart_enabled == old(self).autostart_enabled,
            final(self).manual_binding == old(self).manual_binding,
            final(self).binding_status == old(self).binding_status,
            final(self).current_page == (if old(self).current_page == Page::WizardCustom {
                Page::Clipboard
            } else {
                Page::Settings
            }),
            (actions@[0] matches Action::SaveKeybinding(b) && b@ == binding@),
            (actions@[1] matches Action::RegisterHotkey(b) && b@ == binding@),
            old(self).current_page == Page::WizardCustom ==> actions@.len() == 3
                && actions@[2] is HideWindow,
            old(self).current_page != Page::WizardCustom ==> actions@.len() == 2,
    {
        let mut actions: Vec<Action> = Vec::new();
        actions.push(Action::SaveKeybinding(binding.clone()));
        actions.push(Action::RegisterHotkey(binding.clone()));
        self.current_binding = binding;
        self.setup_done = true;
        if self.current_page == Page::WizardCustom {
            self.current_page = Page::Clipboard;
            actions.push(Action::HideWindow);
        } else {
            self.current_page = Page::Settings;
        }
        actions
    }

    /// Consume one message and return the outward actions to perform, in
    /// order. This is the whole decision step of the event loop; everything
    /// it changes is in the model, and everything it asks of the operating
    /// system is in the returned actions.
    pub fn update(&mut self, msg: KlipBoredMsg, now_ms: u64) -> (actions: Vec<Action>)
        requires
            old(self).wf(),
            (msg matches KlipBoredMsg::NewItem(c) ==> c@.well_formed()),
        ensures
            final(self).wf(),
            match msg {
                KlipBoredMsg::NewItem(content) => {
                    &&& final(self).history@ == push_front_spec(old(self).history@, content@)
                    &&& final(self).tracker == old(self).tracker
                    &&& final(self).setup_done == old(self).setup_done
                    &&& final(self).current_page == old(self).current_page
                    &&& final(self).autostart_enabled == old(self).autostart_enabled
                    &&& final(self).current_binding == old(self).current_binding
                    &&& final(self).manual_binding == old(self).manual_binding
                    &&& final(self).binding_status == old(self).binding_status
                    &&& actions@.len() == 0
                },
                KlipBoredMsg::RequestCopy(pos) => {
                    &&& final(self).history == old(self).history
                    &&& final(self).setup_done == old(self).setup_done
                    &&& final(self).current_page == old(self).current_page
                    &&& final(self).autostart_enabled == old(self).autostart_enabled
                    &&& final(self).current_binding == old(self).current_binding
                    &&& final(self).manual_binding == old(self).manual_binding
                    &&& final(self).binding_status == old(self).binding_status
                    &&& if pos < old(self).history@.len() {
                        &&& final(self).tracker@ == old(self).tracker@.self_write_state(
                            old(self).history@[pos as int],
                            now_ms,
                        )
                        &&& actions@.len() == 2
                        &&& actions@[0] is HideWindow
                        &&& (actions@[1] matches Action::WriteClipboard(c) && c@ == old(
                            self,
                        ).history@[pos as int] && c@.well_formed())
                    } else {
                        &&& final(self).tracker == old(self).tracker
                        &&& actions@.len() == 0
                    }
                },
                KlipBoredMsg::DeleteItem(pos) => {
                    &&& final(self).tracker == old(self).tracker
                    &&& final(self).setup_done == old(self).setup_done
                    &&& final(self).current_page == old(self).current_page
                    &&& final(self).autostart_enabled == old(self).autostart_enabled
                    &&& final(self).current_binding == old(self).current_binding
                    &&& final(self).manual_binding == old(self).manual_binding
                    &&& final(self).binding_status == old(self).binding_status
                    &&& actions@.len() == 0
                    &&& if pos < old(self).history@.len() {
                        final(self).history@ == old(self).history@.remove(pos as int)
                    } else {
                        final(self).history@ == old(self).history@
                    }
                },
                KlipBoredMsg::WizardAccept => {
                    &&& final(self).history == old(self).history
                    &&& final(self).tracker == old(self).tracker
                    &&& final(self).setup_done
                    &&& final(self).current_page == Page::Clipboard
                    &&& final(self).autostart_enabled == old(self).autostart_enabled
                    &&& final(self).current_binding == old(self).current_binding
                    &&& final(self).manual_binding == old(self).manual_binding
                    &&& final(self).binding_status == old(self).binding_status
                    &&& actions@.len() == 3
                    &&& (actions@[0] matches Action::SaveKeybinding(b) && b@ == DEFAULT_BINDING@)
                    &&& (actions@[1] matches Action::RegisterHotkey(b) && b@ == DEFAULT_BINDING@)
                    &&& actions@[2] is HideWindow
                },
                KlipBoredMsg::WizardShowCustom => {
                    &&& final(self).history == old(self).history
                    &&& final(self).tracker == old(self).tracker
                    &&& final(self).setup_done == old(self).setup_done
                    &&& final(self).current_page == Page::WizardCustom
                    &&& final(self).autostart_enabled == old(self).autostart_enabled
                    &&& final(self).current_binding == old(self).current_binding
                    &&& final(self).manual_binding == old(self).manual_binding
                    &&& final(self).binding_status == old(self).binding_status
                    &&& actions@.len() == 0
                },
                KlipBoredMsg::WizardApplyBinding(binding) => {
                    &&& final(self).history == old(self).history
                    &&& final(self).tracker == old(self).tracker
                    &&& final(self).setup_done
                    &&& final(self).current_binding@ == binding@
                    &&& final(self).autostart_enabled == old(self).autostart_enabled
                    &&& final(self).manual_binding == old(self).manual_binding
                    &&& final(self).binding_status == old(self).binding_status
                    &&& final(self).current_page == (if old(self).current_page
                        == Page::WizardCustom {
                        Page::Clipboard
                    } else {
                        Page::Settings
                    })
                    &&& (actions@[0] matches Action::SaveKeybinding(b) && b@ == binding@)
                    &&& (actions@[1] matches Action::RegisterHotkey(b) && b@ == binding@)
                    &&& old(self).current_page == Page::WizardCustom ==> actions@.len() == 3
                        && actions@[2] is HideWindow
                    &&& old(self).current_page != Page::WizardCustom ==> actions@.len() == 2
                },
                KlipBoredMsg::OpenSettings(autostart_now) => {
                    &&& final(self).history == old(self).history
                    &&& final(self).tracker == old(self).tracker
                    &&& final(self).setup_done == old(self).setup_done
                    &&& final(self).current_page == Page::Settings
                    &&& final(self).autostart_enabled == autostart_now
                    &&& final(self).current_binding == old(self).current_binding
                    &&& final(self).manual_binding == old(self).manual_binding
                    &&& final(self).binding_status == old(self).binding_status
                    &&& actions@.len() == 0
                },
                KlipBoredMsg::ToggleAutostart(enabled) => {
                    &&& final(self).history == old(self).history
                    &&& final(self).tracker == old(self).tracker
                    &&& final(self).setup_done == old(self).setup_done
                    &&& final(self).current_page == old(self).current_page
                    &&& final(self).autostart_enabled == enabled
                    &&& final(self).current_binding == old(self).current_binding
                    &&& final(self).manual_binding == old(self).manual_binding
                    &&& final(self).binding_status == old(self).binding_status
                    &&& actions@.len() == 1
                    &&& (actions@[0] matches Action::SetAutostart(e) && e == enabled)
                },
                KlipBoredMsg::BackToClipboard => {
                    &&& final(self).history == old(self).history
                    &&& final(self).tracker == old(self).tracker
                    &&& final(self).setup_done == old(self).setup_done
                    &&& final(self).autostart_enabled == old(self).autostart_enabled
                    &&& final(self).current_binding == old(self).current_binding
                    &&& final(self).manual_binding == old(self).manual_binding
                    &&& final(self).binding_status == old(self).binding_status
                    &&& final(self).current_page == (if old(self).current_page
                        == Page::WizardCustom && !old(self).setup_done {
                        Page::Wizard
                    } else {
                        Page::Clipboard
                    })
                    &&& actions@.len() == 0
                },
                KlipBoredMsg::UpdateManualBinding(text) => {
                    &&& final(self).history == old(self).history
                    &&& final(self).tracker == old(self).tracker
                    &&& final(self).setup_done == old(self).setup_done
                    &&& final(self).current_page == old(self).current_page
                    &&& final(self).autostart_enabled == old(self).autostart_enabled
                    &&& final(self).current_binding == old(self).current_binding
                    &&& final(self).manual_binding@ == text@
                    &&& final(self).binding_status == (if binding_accepted(text@) {
                        BindingStatus::Valid
                    } else {
                        BindingStatus::Invalid
                    })
                    &&& actions@.len() == 0
                },
                KlipBoredMsg::ApplyManualBinding => {
                    &&& final(self).history == old(self).history
                    &&& final(self).tracker == old(self).tracker
                    &&& final(self).setup_done
                    &&& final(self).current_binding@ == old(self).manual_binding@
                    &&& final(self).autostart_enabled == old(self).autostart_enabled
                    &&& final(self).manual_binding == old(self).manual_binding
                    &&& final(self).binding_status == old(self).binding_status
                    &&& final(self).current_page == (if old(self).current_page
                        == Page::WizardCustom {
                        Page::Clipboard
                    } else {
                        Page::Settings
                    })
                    &&& (actions@[0] matches Action::SaveKeybinding(b) && b@ == old(
                        self,
                    ).manual_binding@)
                    &&& (actions@[1] matches Action::RegisterHotkey(b) && b@ == old(
                        self,
                    ).manual_binding@)
                    &&& old(self).current_page == Page::WizardCustom ==> actions@.len() == 3
                        && actions@[2] is HideWindow
                    &&& old(self).current_page != Page::WizardCustom ==> actions@.len() == 2
                },
            },
    {
        match msg {
            KlipBoredMsg::NewItem(content) => {
                self.history.push_front(content);
                Vec::new()
            },
            KlipBoredMsg::RequestCopy(pos) => {
                let mut actions: Vec<Action> = Vec::new();
                match self.history.get_at(pos) {
                    Some(entry) => {
                        let content = entry.content.clone();
                        self.tracker.record_self_write(&content, now_ms);
                        actions.push(Action::HideWindow);
                        actions.push(Action::WriteClipboard(content));
                    },
                    None => {},
                }
                actions
            },
            KlipBoredMsg::DeleteItem(pos) => {
                self.history.remove_at(pos);
                Vec::new()
            },
            KlipBoredMsg::WizardAccept => {
                let mut actions: Vec<Action> = Vec::new();
                actions.push(Action::SaveKeybinding(String::from_str(DEFAULT_BINDING)));
                actions.push(Action::RegisterHotkey(String::from_str(DEFAULT_BINDING)));
                self.setup_done = true;
                self.current_page = Page::Clipboard;
                actions.push(Action::HideWindow);
                actions
            },
            KlipBoredMsg::WizardShowCustom => {
                self.current_page = Page::WizardCustom;
                Vec::new()
            },
            KlipBoredMsg::WizardApplyBinding(binding) => self.apply_binding(binding),
            KlipBoredMsg::OpenSettings(autostart_now) => {
                self.current_page = Page::Settings;
                self.autostart_enabled = autostart_now;
                Vec::new()
            },
            KlipBoredMsg::ToggleAutostart(enabled) => {
                let mut actions: Vec<Action> = Vec::new();
                actions.push(Action::SetAutostart(enabled));
                self.autostart_enabled = enabled;
                actions
            },
            KlipBoredMsg::BackToClipboard => {
                if self.current_page == Page::WizardCustom && !self.setup_done {
                    self.current_page = Page::Wizard;
                } else {
                    self.current_page = Page::Clipboard;
                }
                Vec::new()
            },
            KlipBoredMsg::UpdateManualBinding(text) => {
                self.binding_status = validate_binding(text.as_str());
                self.manual_binding = text;
                Vec::new()
            },
            KlipBoredMsg::ApplyManualBinding => {
                let binding = self.manual_binding.clone();
                self.apply_binding(binding)
            },
        }
    }
}

} // verus!
