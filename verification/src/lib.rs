//! Core logic of Copylot, a desktop selection translator: configuration
//! patching, translation history, text normalisation, translation request
//! planning and the decisions taken around the clipboard, the store, the
//! global shortcut and the tray.

pub mod config;
pub mod history;
pub mod selection;
pub mod shortcut;
pub mod store;
pub mod text;
pub mod translation;
pub mod tray;

use vstd::prelude::*;
use vstd::string::StringExecFns;

verus! {

/// The platform the application is built for.
#[derive(Clone, Copy, Debug, PartialEq, Eq)]
pub struct Platform {
    pub windows: bool,
    pub mobile: bool,
}

/// The application only runs on Windows desktops.
pub open spec fn supported(p: Platform) -> bool {
    p.windows && !p.mobile
}

/// The application starts on a Windows build that is not a mobile one, and
/// on nothing else: not on any platform other than Windows, and not on any
/// mobile platform.
pub proof fn lemma_supported_platforms(p: Platform)
    ensures
        supported(p) ==> p.windows,
        supported(p) ==> !p.mobile,
        p.windows && !p.mobile ==> supported(p),
{
}

/// The refusal to run on a platform other than a Windows desktop.
#[derive(Clone, Copy, Debug, PartialEq, Eq)]
pub struct UnsupportedPlatform;

/// The message of that refusal.
pub const UNSUPPORTED_PLATFORM_MESSAGE: &'static str =
    "Copylot 当前仅支持 Windows 桌面端（windows desktop）。";

impl UnsupportedPlatform {
    /// The message of the refusal.
    pub fn message(&self) -> (r: String)
        ensures
            r@ == UNSUPPORTED_PLATFORM_MESSAGE@,
    {
        String::from_str(UNSUPPORTED_PLATFORM_MESSAGE)
    }
}

/// Whether the application may start on `platform`: it may on a Windows
/// desktop, and is refused anywhere else.
pub fn run(platform: Platform) -> (r: Result<(), UnsupportedPlatform>)
    ensures
        r is Ok <==> supported(platform),
{
    if platform.windows && !platform.mobile {
        Ok(())
    } else {
        Err(UnsupportedPlatform)
    }
}

} // verus!
