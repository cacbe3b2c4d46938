use copylot::config::{hotkey_applies, unregister_old_hotkey, AppConfig, ConfigPatch};
use copylot::history::TranslationHistory;
use copylot::selection::{
    after_automation, after_clipboard, copied_text, poll_copy, restore_plan, Attempt,
    ClipboardFailure, ClipboardRestore, CopyPoll, ProbeStep, COPY_TIMEOUT_MS,
};
use copylot::shortcut::{shortcut_accepted, trigger_action, TriggerAction};
use copylot::store::{
    after_default_stored, after_lookup, settle_read, settle_reset, settle_write, LoadStep, Lookup,
    StoreFailure,
};
use copylot::text::{clean_selected_text, text_contains, text_eq, trim_whitespace};
use copylot::translation::{
    after_emit, failure_text, plan_request, Role, StreamStep, TranslationFailure,
    TranslationOutcome, TranslationStream, DEFAULT_MODEL, SYSTEM_PROMPT,
};
use copylot::tray::{menu_action, tray_shows_main_window, MenuAction, MouseButton, TrayEvent};
use copylot::{run, Platform};

fn s(x: &str) -> Option<String> {
    Some(x.to_string())
}

fn no_patch() -> ConfigPatch {
    ConfigPatch {
        translation_api_key: None,
        translation_model: None,
        translation_base_url: None,
        hotkey: None,
    }
}

fn fields(c: &AppConfig) -> [Option<String>; 4] {
    [
        c.translation_api_key.clone(),
        c.translation_model.clone(),
        c.translation_base_url.clone(),
        c.hotkey.clone(),
    ]
}

#[test]
fn normalize_trims_white_space_then_quotes() {
    assert_eq!(AppConfig::normalize_opt_str(Some("  \"sk-123\"  ")), s("sk-123"));
    assert_eq!(AppConfig::normalize_opt_str(Some("\"\"\"")), s(""));
    assert_eq!(AppConfig::normalize_opt_str(Some(" \" x \" ")), s(" x "));
    assert_eq!(AppConfig::normalize_opt_str(Some("\t\n")), s(""));
    assert_eq!(AppConfig::normalize_opt_str(None), None);
}

#[test]
fn default_config_values() {
    let c = AppConfig::default();
    assert_eq!(
        fields(&c),
        [
            None,
            s("deepseek-v4-flash"),
            s("https://api.deepseek.com/v1"),
            s("Ctrl+Alt+Q")
        ]
    );
    assert_eq!(AppConfig::store_key(), "copylot_config");
}

#[test]
fn patch_replaces_only_carried_fields() {
    let mut p = no_patch();
    p.hotkey = s(" Ctrl+Shift+T ");
    p.translation_api_key = s("\"key\"");
    let c = AppConfig::default().patch(p);
    assert_eq!(
        fields(&c),
        [
            s("key"),
            s("deepseek-v4-flash"),
            s("https://api.deepseek.com/v1"),
            s("Ctrl+Shift+T")
        ]
    );
}

#[test]
fn empty_patch_keeps_config() {
    let c = AppConfig::default().patch(no_patch());
    assert_eq!(fields(&c), fields(&AppConfig::default()));
}

#[test]
fn patch_twice_is_patch_once() {
    let mut p = no_patch();
    p.translation_model = s("  gpt-4o ");
    let once = AppConfig::default().patch(p.clone());
    let twice = once.clone().patch(p);
    assert_eq!(fields(&once), fields(&twice));
    assert_eq!(once.translation_model, s("gpt-4o"));
}

#[test]
fn later_patch_wins() {
    let mut p1 = no_patch();
    p1.translation_model = s("a");
    p1.hotkey = s("Alt+X");
    let mut p2 = no_patch();
    p2.translation_model = s("b");
    let c = AppConfig::default().patch(p1).patch(p2);
    assert_eq!(c.translation_model, s("b"));
    assert_eq!(c.hotkey, s("Alt+X"));
}

#[test]
fn update_reports_hotkey_change() {
    let base = AppConfig::default();
    let mut p = no_patch();
    p.hotkey = s("\"Ctrl+Alt+Q\"");
    let u = base.update(p);
    assert!(!u.hotkey_changed);
    let mut p = no_patch();
    p.hotkey = s("Ctrl+Alt+W");
    let u = base.update(p);
    assert!(u.hotkey_changed);
    assert_eq!(u.next.hotkey, s("Ctrl+Alt+W"));
    let u = base.update(no_patch());
    assert!(!u.hotkey_changed);
    assert_eq!(fields(&base.duplicate()), fields(&base));
}

#[test]
fn hotkey_plan_cases() {
    assert!(!hotkey_applies(false, false));
    assert!(!hotkey_applies(true, false));
    assert!(hotkey_applies(true, true));
    assert!(unregister_old_hotkey(true, true));
    assert!(!unregister_old_hotkey(true, false));
    assert!(!unregister_old_hotkey(false, true));
}

#[test]
fn history_add_and_delete() {
    let mut h = TranslationHistory::default();
    assert_eq!(h.len(), 0);
    h.add_record("one".to_string());
    h.add_record("two".to_string());
    h.add_record("three".to_string());
    assert_eq!(h.entries(), &vec!["one".to_string(), "two".to_string(), "three".to_string()]);
    assert!(h.delete_record(1));
    assert_eq!(h.entries(), &vec!["one".to_string(), "three".to_string()]);
    assert!(!h.delete_record(2));
    assert_eq!(h.len(), 2);
    assert_eq!(TranslationHistory::store_key(), "translation_history");
}

#[test]
fn history_add_then_delete_last_restores() {
    let mut h = TranslationHistory::from_entries(vec!["a".to_string()]);
    h.add_record("b".to_string());
    assert!(h.delete_record(1));
    assert_eq!(h.entries(), &vec!["a".to_string()]);
}

#[test]
fn store_outcomes() {
    assert!(matches!(after_lookup(Lookup::Parsed(3u8), 0), LoadStep::Done(Ok(3))));
    assert!(matches!(
        after_lookup(Lookup::<u8>::Unparsable, 0),
        LoadStep::Done(Err(StoreFailure::Parse))
    ));
    assert!(matches!(after_lookup(Lookup::<u8>::Missing, 7), LoadStep::StoreDefault(7)));
    assert_eq!(after_default_stored(7u8, true), Ok(7));
    assert_eq!(after_default_stored(7u8, false), Err(StoreFailure::Serialize));
    assert_eq!(settle_read(Ok(5u8), 1), 5);
    assert_eq!(settle_read(Err(StoreFailure::Open), 1u8), 1);
    assert_eq!(settle_write(Ok(5u8), 9), 5);
    assert_eq!(settle_write(Err(StoreFailure::Save), 9u8), 9);
    assert_eq!(settle_reset(Some(Ok(4u8)), 0), 4);
    assert_eq!(settle_reset(Some(Err(StoreFailure::Save)), 0u8), 0);
    assert_eq!(settle_reset(None, 0u8), 0);
}

#[test]
fn clean_selection_replaces_crlf_and_trims() {
    assert_eq!(clean_selected_text("  hello\r\nworld \r\n"), "hello\nworld");
    assert_eq!(clean_selected_text("a\r\r\nb"), "a\r\nb");
    assert_eq!(clean_selected_text("\u{3000}文本\u{a0}"), "文本");
    assert_eq!(clean_selected_text("\r\n\r\n"), "");
    assert_eq!(clean_selected_text(""), "");
}

#[test]
fn trim_matches_std() {
    for t in ["", "  ", " a b ", "\u{2009}x\u{85}", "\u{200b}y", "z\u{2028}"] {
        assert_eq!(trim_whitespace(t), t.trim());
    }
}

#[test]
fn text_equality() {
    assert!(text_eq("quit", "quit"));
    assert!(!text_eq("quit", "quits"));
    assert!(!text_eq("abc", "abd"));
}

#[test]
fn request_without_key_is_refused() {
    let c = AppConfig::default();
    assert_eq!(plan_request(&c, "hi").err(), Some(TranslationFailure::MissingApiKey));
    let mut c = AppConfig::default();
    c.translation_api_key = s("");
    assert_eq!(plan_request(&c, "hi").err(), Some(TranslationFailure::MissingApiKey));
    assert_eq!(failure_text(TranslationFailure::MissingApiKey), "（未配置 API Key）");
    assert_eq!(failure_text(TranslationFailure::StreamFailed), "（翻译失败）");
}

#[test]
fn request_chooses_model_and_endpoint() {
    let c = AppConfig {
        translation_api_key: s("k"),
        translation_model: None,
        translation_base_url: None,
        hotkey: None,
    };
    let q = plan_request(&c, "hello").unwrap();
    assert_eq!(q.model, DEFAULT_MODEL);
    assert_eq!(q.base_url, "https://api.deepseek.com/v1");
    assert_eq!(q.api_key, "k");
    assert_eq!(q.messages.len(), 2);
    assert_eq!(q.messages[0].role, Role::System);
    assert_eq!(q.messages[0].content, SYSTEM_PROMPT);
    assert_eq!(q.messages[1].role, Role::User);
    assert_eq!(q.messages[1].content, "hello");
    assert!(q.disable_thinking);

    let c = AppConfig {
        translation_api_key: s("k"),
        translation_model: s("gpt-4o"),
        translation_base_url: s(""),
        hotkey: None,
    };
    let q = plan_request(&c, "x").unwrap();
    assert_eq!(q.base_url, "https://api.openai.com/v1");
    assert!(!q.disable_thinking);

    let c = AppConfig {
        translation_api_key: s("k"),
        translation_model: s("deepseek-chat"),
        translation_base_url: s("https://example.test/v1"),
        hotkey: None,
    };
    let q = plan_request(&c, "x").unwrap();
    assert_eq!(q.model, "deepseek-chat");
    assert_eq!(q.base_url, "https://example.test/v1");
    assert!(q.disable_thinking);
}

#[test]
fn stream_collects_and_trims() {
    let mut st = TranslationStream::new();
    st.push_delta("  你好");
    st.push_delta("");
    st.push_delta("世界 \n");
    assert_eq!(st.received(), "  你好世界 \n");
    match st.finish() {
        TranslationOutcome::Translated(t) => assert_eq!(t, "你好世界"),
        TranslationOutcome::Failed(_) => panic!("a finished stream is a translation"),
    }
    assert_eq!(after_emit(true), StreamStep::Continue);
    assert_eq!(after_emit(false), StreamStep::Stop);
}

#[test]
fn outcomes_shown_and_recorded() {
    let ok = TranslationOutcome::Translated("译文".to_string());
    let empty = TranslationOutcome::Translated(String::new());
    let failed = TranslationOutcome::Failed(TranslationFailure::StreamFailed);
    let no_key = TranslationOutcome::Failed(TranslationFailure::MissingApiKey);
    assert_eq!(ok.shown_text(), "译文");
    assert_eq!(failed.shown_text(), "（翻译失败）");
    assert_eq!(no_key.shown_text(), "（未配置 API Key）");
    assert_eq!(ok.history_entry(), Some("译文".to_string()));
    assert_eq!(empty.history_entry(), None);
    assert_eq!(failed.history_entry(), None);

    let mut h = TranslationHistory::default();
    assert!(h.record_outcome(&ok));
    assert!(!h.record_outcome(&failed));
    assert!(!h.record_outcome(&empty));
    assert_eq!(h.entries(), &vec!["译文".to_string()]);
}

#[test]
fn contains_finds_runs() {
    assert!(text_contains("deepseek-v4-flash", "deepseek"));
    assert!(text_contains("my-deepseek", "deepseek"));
    assert!(!text_contains("DeepSeek-chat", "deepseek"));
    assert!(!text_contains("deep", "deepseek"));
    assert!(text_contains("abc", ""));
}

#[test]
fn selection_probe_order() {
    assert!(matches!(after_automation(Attempt::Text("x".into())), ProbeStep::Found(t) if t == "x"));
    assert!(matches!(after_automation(Attempt::Text(String::new())), ProbeStep::TryClipboard));
    assert!(matches!(after_automation(Attempt::Failed), ProbeStep::TryClipboard));
    assert_eq!(after_clipboard(Attempt::Text("y".into())), "y");
    assert_eq!(after_clipboard(Attempt::Text(String::new())), "");
    assert_eq!(after_clipboard(Attempt::Failed), "");
}

#[test]
fn clipboard_decisions() {
    assert_eq!(restore_plan(true, true), ClipboardRestore::Text);
    assert_eq!(restore_plan(false, true), ClipboardRestore::Image);
    assert_eq!(restore_plan(false, false), ClipboardRestore::Clear);
    assert_eq!(copied_text(Some("  copied \n")), Ok("copied".to_string()));
    assert_eq!(copied_text(None), Err(ClipboardFailure::NotText));
    assert_eq!(ClipboardFailure::CopyFailed.message(), "Copy Failed");
    assert_eq!(ClipboardFailure::NotText.message(), "New clipboard is not Text");
    assert_eq!(poll_copy(1, 2, 900, COPY_TIMEOUT_MS), CopyPoll::Copied);
    assert_eq!(poll_copy(1, 1, 500, COPY_TIMEOUT_MS), CopyPoll::TimedOut);
    assert_eq!(poll_copy(1, 1, 499, COPY_TIMEOUT_MS), CopyPoll::Wait);
}

#[test]
fn shortcut_gate() {
    assert!(shortcut_accepted(None, true));
    assert!(shortcut_accepted(Some(true), true));
    assert!(!shortcut_accepted(Some(false), true));
    assert!(!shortcut_accepted(Some(true), false));
    assert!(!shortcut_accepted(None, false));
}

#[test]
fn trigger_translates_non_empty_selection() {
    assert!(matches!(trigger_action(" \r\n "), TriggerAction::ShowPrevious));
    assert!(matches!(trigger_action(" hi\r\nthere "), TriggerAction::Translate(t) if t == "hi\nthere"));
}

#[test]
fn tray_decisions() {
    assert_eq!(menu_action("quit"), MenuAction::Quit);
    assert_eq!(menu_action("other"), MenuAction::Ignore);
    assert!(tray_shows_main_window(TrayEvent::Click { button: MouseButton::Left, released: true }));
    assert!(!tray_shows_main_window(TrayEvent::Click { button: MouseButton::Left, released: false }));
    assert!(!tray_shows_main_window(TrayEvent::Click { button: MouseButton::Right, released: true }));
    assert!(!tray_shows_main_window(TrayEvent::Other));
}

#[test]
fn run_only_on_windows_desktop() {
    assert!(run(Platform { windows: true, mobile: false }).is_ok());
    let e = run(Platform { windows: false, mobile: false }).unwrap_err();
    assert_eq!(e.message(), "Copylot 当前仅支持 Windows 桌面端（windows desktop）。");
    assert!(run(Platform { windows: true, mobile: true }).is_err());
}

#[test]
fn trim_twice_is_trim_once() {
    for t in ["  a  ", "\u{3000}\u{3000}", "x", " \u{2028} y z \t"] {
        let once = trim_whitespace(t);
        assert_eq!(trim_whitespace(&once), once);
        assert!(!once.starts_with(char::is_whitespace));
        assert!(!once.ends_with(char::is_whitespace));
    }
}

#[test]
fn clean_selection_is_not_always_stable() {
    let once = clean_selected_text("a\r\r\nb");
    assert_eq!(once, "a\r\nb");
    assert_eq!(clean_selected_text(&once), "a\nb");
}
