use klipbored::content::ClipboardContent;
use klipbored::model::Action;
use klipbored::model::BindingStatus;
use klipbored::model::KlipBoredModel;
use klipbored::model::KlipBoredMsg;
use klipbored::model::Page;
use klipbored::model::validate_binding;

fn fresh_after_setup() -> KlipBoredModel {
    KlipBoredModel::init(true, false, "<Super>v".to_string())
}

fn front_display(model: &KlipBoredModel) -> String {
    model.history.get_at(0).expect("front entry missing").display_text()
}

#[test]
fn init_before_setup_starts_on_the_wizard() {
    let model = KlipBoredModel::init(false, false, "<Super>v".to_string());
    assert!(!model.setup_done);
    assert_eq!(model.current_page, Page::Wizard);
    assert_eq!(model.history.len(), 0);
    assert_eq!(model.manual_binding, "");
    assert_eq!(model.binding_status, BindingStatus::Valid);
}

#[test]
fn init_after_setup_starts_on_the_clipboard() {
    let model = fresh_after_setup();
    assert!(model.setup_done);
    assert_eq!(model.current_page, Page::Clipboard);
}

#[test]
fn poll_is_a_no_op_until_setup_is_complete() {
    let mut model = KlipBoredModel::init(false, false, "<Super>v".to_string());
    let event = model.poll(0, Some("copied".to_string()), None);
    assert!(event.is_none());
    // The tracker saw nothing: the same text is still new once setup is done.
    model.setup_done = true;
    let event = model.poll(800, Some("copied".to_string()), None);
    assert!(event.is_some());
}

#[test]
fn end_to_end_scenario() {
    // Empty store; push "hello": length 1, front displays "hello"; observing
    // "hello" again produces no event, length stays 1; push "world": length
    // 2, front "world", back "hello"; remove position 1: length 1, "world"
    // remains.
    let mut model = fresh_after_setup();
    assert_eq!(model.history.len(), 0);

    let event = model.poll(0, Some("hello".to_string()), None);
    let content = event.expect("first observation must be an event");
    let actions = model.update(KlipBoredMsg::NewItem(content), 0);
    assert!(actions.is_empty());
    assert_eq!(model.history.len(), 1);
    assert_eq!(front_display(&model), "hello");

    let event = model.poll(800, Some("hello".to_string()), None);
    assert!(event.is_none());
    assert_eq!(model.history.len(), 1);

    let event = model.poll(1600, Some("world".to_string()), None);
    let content = event.expect("changed text must be an event");
    model.update(KlipBoredMsg::NewItem(content), 1600);
    assert_eq!(model.history.len(), 2);
    assert_eq!(front_display(&model), "world");
    assert_eq!(model.history.get_at(1).unwrap().display_text(), "hello");

    model.update(KlipBoredMsg::DeleteItem(1), 2400);
    assert_eq!(model.history.len(), 1);
    assert_eq!(front_display(&model), "world");
}

#[test]
fn request_copy_hides_and_writes_and_primes_the_tracker() {
    let mut model = fresh_after_setup();
    let content = ClipboardContent::new_text("snippet".to_string());
    model.update(KlipBoredMsg::NewItem(content), 0);

    let actions = model.update(KlipBoredMsg::RequestCopy(0), 10_000);
    assert_eq!(actions.len(), 2);
    assert!(matches!(actions[0], Action::HideWindow));
    match &actions[1] {
        Action::WriteClipboard(ClipboardContent::Text { full, .. }) => {
            assert_eq!(full, "snippet");
        }
        other => panic!("expected a clipboard write, got {:?}", other),
    }
    // The self-write is recorded: a poll shortly after sees nothing, and the
    // written text is never re-detected.
    assert!(model.poll(10_800, Some("snippet".to_string()), None).is_none());
    assert!(model.poll(20_000, Some("snippet".to_string()), None).is_none());
}

#[test]
fn request_copy_out_of_range_does_nothing() {
    let mut model = fresh_after_setup();
    let actions = model.update(KlipBoredMsg::RequestCopy(3), 0);
    assert!(actions.is_empty());
    assert_eq!(model.history.len(), 0);
    // No self-write was recorded: the next poll is not suppressed.
    assert!(model.poll(100, Some("live".to_string()), None).is_some());
}

#[test]
fn wizard_accept_saves_registers_and_hides() {
    let mut model = KlipBoredModel::init(false, false, "<Super>v".to_string());
    let actions = model.update(KlipBoredMsg::WizardAccept, 0);
    assert!(model.setup_done);
    assert_eq!(model.current_page, Page::Clipboard);
    assert_eq!(actions.len(), 3);
    assert!(matches!(&actions[0], Action::SaveKeybinding(b) if b == "<Super>v"));
    assert!(matches!(&actions[1], Action::RegisterHotkey(b) if b == "<Super>v"));
    assert!(matches!(actions[2], Action::HideWindow));
}

#[test]
fn custom_binding_from_the_wizard_goes_to_the_clipboard_page() {
    let mut model = KlipBoredModel::init(false, false, "<Super>v".to_string());
    model.update(KlipBoredMsg::WizardShowCustom, 0);
    assert_eq!(model.current_page, Page::WizardCustom);
    let actions = model.update(
        KlipBoredMsg::WizardApplyBinding("<Control><Shift>v".to_string()),
        0,
    );
    assert!(model.setup_done);
    assert_eq!(model.current_binding, "<Control><Shift>v");
    assert_eq!(model.current_page, Page::Clipboard);
    assert_eq!(actions.len(), 3);
    assert!(matches!(&actions[0], Action::SaveKeybinding(b) if b == "<Control><Shift>v"));
    assert!(matches!(&actions[1], Action::RegisterHotkey(b) if b == "<Control><Shift>v"));
    assert!(matches!(actions[2], Action::HideWindow));
}

#[test]
fn rebinding_from_settings_stays_in_settings() {
    let mut model = fresh_after_setup();
    model.update(KlipBoredMsg::OpenSettings(false), 0);
    let actions = model.update(KlipBoredMsg::WizardApplyBinding("<Super>x".to_string()), 0);
    assert_eq!(model.current_page, Page::Settings);
    assert_eq!(model.current_binding, "<Super>x");
    assert_eq!(actions.len(), 2);
}

#[test]
fn open_settings_adopts_the_fresh_autostart_state() {
    let mut model = fresh_after_setup();
    assert!(!model.autostart_enabled);
    model.update(KlipBoredMsg::OpenSettings(true), 0);
    assert_eq!(model.current_page, Page::Settings);
    assert!(model.autostart_enabled);
}

#[test]
fn toggle_autostart_emits_the_action() {
    let mut model = fresh_after_setup();
    let actions = model.update(KlipBoredMsg::ToggleAutostart(true), 0);
    assert!(model.autostart_enabled);
    assert_eq!(actions.len(), 1);
    assert!(matches!(actions[0], Action::SetAutostart(true)));
    let actions = model.update(KlipBoredMsg::ToggleAutostart(false), 0);
    assert!(!model.autostart_enabled);
    assert!(matches!(actions[0], Action::SetAutostart(false)));
}

#[test]
fn back_from_custom_wizard_before_setup_returns_to_the_wizard() {
    let mut model = KlipBoredModel::init(false, false, "<Super>v".to_string());
    model.update(KlipBoredMsg::WizardShowCustom, 0);
    model.update(KlipBoredMsg::BackToClipboard, 0);
    assert_eq!(model.current_page, Page::Wizard);
}

#[test]
fn back_after_setup_returns_to_the_clipboard() {
    let mut model = fresh_after_setup();
    model.update(KlipBoredMsg::OpenSettings(false), 0);
    model.update(KlipBoredMsg::BackToClipboard, 0);
    assert_eq!(model.current_page, Page::Clipboard);
}

#[test]
fn manual_binding_is_validated_as_typed() {
    let mut model = KlipBoredModel::init(false, false, "<Super>v".to_string());
    model.update(KlipBoredMsg::UpdateManualBinding("abc".to_string()), 0);
    assert_eq!(model.manual_binding, "abc");
    assert_eq!(model.binding_status, BindingStatus::Invalid);
    model.update(KlipBoredMsg::UpdateManualBinding("<Super>x".to_string()), 0);
    assert_eq!(model.binding_status, BindingStatus::Valid);
    model.update(KlipBoredMsg::UpdateManualBinding(String::new()), 0);
    assert_eq!(model.binding_status, BindingStatus::Valid);
}

#[test]
fn apply_manual_binding_uses_the_typed_binding() {
    let mut model = KlipBoredModel::init(false, false, "<Super>v".to_string());
    model.update(KlipBoredMsg::WizardShowCustom, 0);
    model.update(KlipBoredMsg::UpdateManualBinding("<Alt>c".to_string()), 0);
    let actions = model.update(KlipBoredMsg::ApplyManualBinding, 0);
    assert!(model.setup_done);
    assert_eq!(model.current_binding, "<Alt>c");
    assert!(matches!(&actions[0], Action::SaveKeybinding(b) if b == "<Alt>c"));
}

#[test]
fn validate_binding_checks_shape_and_length() {
    assert_eq!(validate_binding(""), BindingStatus::Valid);
    assert_eq!(validate_binding("<Super>v"), BindingStatus::Valid);
    assert_eq!(validate_binding("<a>"), BindingStatus::Invalid);
    assert_eq!(validate_binding("abcdef"), BindingStatus::Invalid);
    assert_eq!(validate_binding("<abc"), BindingStatus::Invalid);
    assert_eq!(validate_binding("abc>"), BindingStatus::Invalid);
}

#[test]
fn new_items_cap_at_fifty_through_the_model() {
    let mut model = fresh_after_setup();
    for i in 0..60u32 {
        let content = ClipboardContent::new_text(format!("item {}", i));
        model.update(KlipBoredMsg::NewItem(content), u64::from(i) * 800);
    }
    assert_eq!(model.history.len(), 50);
    assert_eq!(front_display(&model), "item 59");
    assert_eq!(model.history.get_at(49).unwrap().display_text(), "item 10");
}
