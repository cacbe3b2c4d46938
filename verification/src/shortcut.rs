//! What happens when a global shortcut fires: whether it is the configured
//! translation hotkey, and what is done with the selected text.

use vstd::prelude::*;
use crate::text::{clean_selected_text, clean_selection};

verus! {

/// Whether a shortcut event starts a translation. `configured` is `None`
/// when no hotkey is configured or the configured text does not parse as a
/// shortcut; otherwise it says whether the configured hotkey is the one that
/// fired. `pressed` says whether the event is a key press (not a release).
pub fn shortcut_accepted(configured: Option<bool>, pressed: bool) -> (r: bool)
    ensures
        r == (configured != Some(false) && pressed),
{
    match configured {
        Some(false) => false,
        _ => pressed,
    }
}

/// What follows the reading of the selection.
#[derive(Debug)]
pub enum TriggerAction {
    /// Show the translator window and translate this text into it.
    Translate(String),
    /// Show the translator window with its previous translation.
    ShowPrevious,
}

/// The selection, cleaned, is translated unless it is empty.
pub fn trigger_action(selection: &str) -> (r: TriggerAction)
    ensures
        clean_selection(selection@).len() == 0 ==> r is ShowPrevious,
        clean_selection(selection@).len() > 0 ==> (r matches TriggerAction::Translate(t) && t@
            == clean_selection(selection@)),
{
    let text = clean_selected_text(selection);
    if text.as_str().is_empty() {
        TriggerAction::ShowPrevious
    } else {
        TriggerAction::Translate(text)
    }
}

} // verus!
