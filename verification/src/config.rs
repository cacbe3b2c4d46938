//! The application configuration: its fields, its defaults, and how a patch
//! sent by the settings window is applied to it.

use vstd::prelude::*;
use vstd::string::StringExecFns;
use crate::text::{
    chars_of, is_white_space, strip, strip_bounds, strip_end, strip_start, string_from_chars, trim_ws,
    TrimSet,
};

verus! {

broadcast use vstd::string::group_string_axioms;

/// The key under which the configuration is kept in the store.
pub const CONFIG_STORE_KEY: &'static str = "copylot_config";

/// The translator's configuration.
#[derive(Clone, Debug)]
pub struct AppConfig {
    pub translation_api_key: Option<String>,
    pub translation_model: Option<String>,
    pub translation_base_url: Option<String>,
    pub hotkey: Option<String>,
}

/// What a configuration holds, as text.
pub struct ConfigModel {
    pub api_key: Option<Seq<char>>,
    pub model: Option<Seq<char>>,
    pub base_url: Option<Seq<char>>,
    pub hotkey: Option<Seq<char>>,
}

pub open spec fn opt_text(o: Option<String>) -> Option<Seq<char>> {
    match o {
        Some(s) => Some(s@),
        None => None,
    }
}

impl View for AppConfig {
    type V = ConfigModel;

    open spec fn view(&self) -> ConfigModel {
        ConfigModel {
            api_key: opt_text(self.translation_api_key),
            model: opt_text(self.translation_model),
            base_url: opt_text(self.translation_base_url),
            hotkey: opt_text(self.hotkey),
        }
    }
}

/// The string values that a configuration patch carries for each field: a
/// field is `Some` where the patch holds that key with a string value.
#[derive(Clone, Debug)]
pub struct ConfigPatch {
    pub translation_api_key: Option<String>,
    pub translation_model: Option<String>,
    pub translation_base_url: Option<String>,
    pub hotkey: Option<String>,
}

impl View for ConfigPatch {
    type V = ConfigModel;

    open spec fn view(&self) -> ConfigModel {
        ConfigModel {
            api_key: opt_text(self.translation_api_key),
            model: opt_text(self.translation_model),
            base_url: opt_text(self.translation_base_url),
            hotkey: opt_text(self.hotkey),
        }
    }
}

/// A configuration value as it is stored: white space trimmed at both ends,
/// then double quotes trimmed at both ends.
pub open spec fn normalized(s: Seq<char>) -> Seq<char> {
    strip(trim_ws(s), TrimSet::Quote)
}

pub open spec fn normalized_opt(o: Option<Seq<char>>) -> Option<Seq<char>> {
    match o {
        Some(s) => Some(normalized(s)),
        None => None,
    }
}

/// A field after a patch: the patch's value, normalised, where it has one;
/// the current value otherwise.
pub open spec fn patched_field(current: Option<Seq<char>>, incoming: Option<Seq<char>>) -> Option<
    Seq<char>,
> {
    match incoming {
        Some(s) => Some(normalized(s)),
        None => current,
    }
}

pub open spec fn patched(c: ConfigModel, p: ConfigModel) -> ConfigModel {
    ConfigModel {
        api_key: patched_field(c.api_key, p.api_key),
        model: patched_field(c.model, p.model),
        base_url: patched_field(c.base_url, p.base_url),
        hotkey: patched_field(c.hotkey, p.hotkey),
    }
}

/// The configuration that a fresh installation starts from.
pub open spec fn default_config() -> ConfigModel {
    ConfigModel {
        api_key: None,
        model: Some("deepseek-v4-flash"@),
        base_url: Some("https://api.deepseek.com/v1"@),
        hotkey: Some("Ctrl+Alt+Q"@),
    }
}

fn normalize_str(s: &str) -> (r: String)
    ensures
        r@ == normalized(s@),
{
    let v = chars_of(s);
    let (a, b) = strip_bounds(&v, 0, v.len(), TrimSet::WhiteSpace);
    assert(v@.subrange(0, v@.len() as int) =~= v@);
    let (c, d) = strip_bounds(&v, a, b, TrimSet::Quote);
    string_from_chars(&v, c, d)
}

fn patch_field(current: Option<String>, incoming: &Option<String>) -> (r: Option<String>)
    ensures
        opt_text(r) == patched_field(opt_text(current), opt_text(*incoming)),
{
    match AppConfig::normalize_opt_str(
        match incoming {
            Some(s) => Some(s.as_str()),
            None => None,
        },
    ) {
        Some(v) => Some(v),
        None => current,
    }
}

/// Whether two optional texts are equal.
pub fn same_opt_text(a: &Option<String>, b: &Option<String>) -> (r: bool)
    ensures
        r == (opt_text(*a) == opt_text(*b)),
{
    match (a, b) {
        (Some(x), Some(y)) => x.eq(y),
        (None, None) => true,
        _ => false,
    }
}

impl AppConfig {
    /// Trims white space, then double quotes, at both ends of a value.
    pub fn normalize_opt_str(v: Option<&str>) -> (r: Option<String>)
        ensures
            match v {
                Some(s) => r is Some && r->0@ == normalized(s@),
                None => r is None,
            },
    {
        match v {
            Some(s) => Some(normalize_str(s)),
            None => None,
        }
    }

    /// The configuration with each field that the patch carries replaced by
    /// the patch's value, normalised; the other fields are kept.
    pub fn patch(self, p: ConfigPatch) -> (r: AppConfig)
        ensures
            r@ == patched(self@, p@),
    {
        AppConfig {
            translation_api_key: patch_field(self.translation_api_key, &p.translation_api_key),
            translation_model: patch_field(self.translation_model, &p.translation_model),
            translation_base_url: patch_field(self.translation_base_url, &p.translation_base_url),
            hotkey: patch_field(self.hotkey, &p.hotkey),
        }
    }

    /// The key under which the configuration is stored.
    pub fn store_key() -> (r: &'static str)
        ensures
            r@ == CONFIG_STORE_KEY@,
    {
        CONFIG_STORE_KEY
    }
}

/// The patch that carries, for each field, the second patch's value where
/// it has one and the first patch's value otherwise.
pub open spec fn merged(first: ConfigModel, second: ConfigModel) -> ConfigModel {
    ConfigModel {
        api_key: if second.api_key is Some { second.api_key } else { first.api_key },
        model: if second.model is Some { second.model } else { first.model },
        base_url: if second.base_url is Some { second.base_url } else { first.base_url },
        hotkey: if second.hotkey is Some { second.hotkey } else { first.hotkey },
    }
}

/// The patch that carries no field.
pub open spec fn empty_patch() -> ConfigModel {
    ConfigModel { api_key: None, model: None, base_url: None, hotkey: None }
}

/// Each field that a patch carries is replaced by the carried text with
/// white space and then double quotes trimmed at both ends; each field it
/// does not carry keeps its value.
pub proof fn lemma_patch_fields(c: ConfigModel, p: ConfigModel)
    ensures
        p.api_key matches Some(s) ==> patched(c, p).api_key == Some(
            strip(trim_ws(s), TrimSet::Quote),
        ),
        p.model matches Some(s) ==> patched(c, p).model == Some(strip(trim_ws(s), TrimSet::Quote)),
        p.base_url matches Some(s) ==> patched(c, p).base_url == Some(
            strip(trim_ws(s), TrimSet::Quote),
        ),
        p.hotkey matches Some(s) ==> patched(c, p).hotkey == Some(
            strip(trim_ws(s), TrimSet::Quote),
        ),
        p.api_key is None ==> patched(c, p).api_key == c.api_key,
        p.model is None ==> patched(c, p).model == c.model,
        p.base_url is None ==> patched(c, p).base_url == c.base_url,
        p.hotkey is None ==> patched(c, p).hotkey == c.hotkey,
{
}

/// A fresh configuration has no API key, asks `deepseek-v4-flash` at
/// `https://api.deepseek.com/v1`, and translates on `Ctrl+Alt+Q`.
pub proof fn lemma_default_config()
    ensures
        default_config().api_key is None,
        default_config().model == Some("deepseek-v4-flash"@),
        default_config().base_url == Some("https://api.deepseek.com/v1"@),
        default_config().hotkey == Some("Ctrl+Alt+Q"@),
{
}

/// A carried value without white space or double quotes at its ends is
/// stored exactly as it was sent.
pub proof fn lemma_normalized_keeps_clean_text(s: Seq<char>)
    requires
        s.len() > 0,
        s[0] != '"' && s.last() != '"',
        !is_white_space(s[0]) && !is_white_space(s.last()),
    ensures
        normalized(s) == s,
{
    assert(strip_start(s, TrimSet::WhiteSpace) == s);
    assert(strip_end(s, TrimSet::WhiteSpace) == s);
    assert(strip_start(s, TrimSet::Quote) == s);
    assert(strip_end(s, TrimSet::Quote) == s);
}

/// Applying the same patch a second time changes nothing.
pub proof fn lemma_patch_idempotent(c: ConfigModel, p: ConfigModel)
    ensures
        patched(patched(c, p), p) == patched(c, p),
{
}

/// A patch that carries no field leaves the configuration as it was.
pub proof fn lemma_patch_empty(c: ConfigModel)
    ensures
        patched(c, empty_patch()) == c,
{
}

/// Two patches in a row act as one patch in which the later patch's fields
/// win.
pub proof fn lemma_patch_sequence(c: ConfigModel, first: ConfigModel, second: ConfigModel)
    ensures
        patched(patched(c, first), second) == patched(c, merged(first, second)),
{
}

fn copy_opt_text(o: &Option<String>) -> (r: Option<String>)
    ensures
        opt_text(r) == opt_text(*o),
{
    match o {
        Some(s) => Some(s.clone()),
        None => None,
    }
}

/// A configuration after an update from the settings window.
#[derive(Debug)]
pub struct ConfigUpdate {
    /// The configuration to store.
    pub next: AppConfig,
    /// Whether the hotkey differs from the one before, so that the new one
    /// must be applied at once.
    pub hotkey_changed: bool,
}

impl AppConfig {
    /// A configuration with the same fields.
    pub fn duplicate(&self) -> (r: AppConfig)
        ensures
            r@ == self@,
    {
        AppConfig {
            translation_api_key: copy_opt_text(&self.translation_api_key),
            translation_model: copy_opt_text(&self.translation_model),
            translation_base_url: copy_opt_text(&self.translation_base_url),
            hotkey: copy_opt_text(&self.hotkey),
        }
    }

    /// The configuration patched with `p`, and whether its hotkey changed.
    pub fn update(&self, p: ConfigPatch) -> (r: ConfigUpdate)
        ensures
            r.next@ == patched(self@, p@),
            r.hotkey_changed == (patched(self@, p@).hotkey != self@.hotkey),
    {
        let next = self.duplicate().patch(p);
        let hotkey_changed = !same_opt_text(&self.hotkey, &next.hotkey);
        ConfigUpdate { next, hotkey_changed }
    }
}

/// Whether applying a hotkey goes on at all: only when a new hotkey is given
/// and it parses as a shortcut. Nothing else is looked at before this.
pub fn hotkey_applies(new_given: bool, new_parses: bool) -> (r: bool)
    ensures
        r == (new_given && new_parses),
{
    new_given && new_parses
}

/// Once a new hotkey applies: the stored hotkey is unregistered first when it
/// parses as a shortcut and is registered; the new one is then registered.
pub fn unregister_old_hotkey(old_parses: bool, old_registered: bool) -> (r: bool)
    ensures
        r == (old_parses && old_registered),
{
    old_parses && old_registered
}

impl Default for AppConfig {
    fn default() -> (r: AppConfig)
        ensures
            r@ == default_config(),
    {
        AppConfig {
            translation_api_key: None,
            translation_model: Some(String::from_str("deepseek-v4-flash")),
            translation_base_url: Some(String::from_str("https://api.deepseek.com/v1")),
            hotkey: Some(String::from_str("Ctrl+Alt+Q")),
        }
    }
}

} // verus!
