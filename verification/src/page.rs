//! What the pages share: the active-page marker, the loading status of remote
//! data, and the window title.

pub mod home;
pub mod settings;

use crate::route::Route;
use vstd::prelude::*;
use vstd::string::StringExecFns;

verus! {

/// The page a model currently shows, as far as the navigation bar cares.
#[derive(Clone, Copy, Debug, PartialEq, Eq, Structural)]
pub enum Page {
    Other,
    Home,
    Settings,
}

impl Page {
    /// Whether the navigation link for `route` points at this page.
    pub fn is_active(&self, route: &Route) -> (b: bool)
        ensures
            b == ((self is Home && route is Home) || (self is Settings && route is Settings)),
    {
        match (self, route) {
            (Page::Home, Route::Home) | (Page::Settings, Route::Settings) => true,
            _ => false,
        }
    }
}

/// Remote data while it is fetched: loading (briefly or noticeably slowly),
/// arrived, or given up on.
#[derive(Debug, PartialEq)]
pub enum Status<T> {
    Loading,
    LoadingSlowly,
    Loaded(T),
    Failed,
}

impl<T> Default for Status<T> {
    fn default() -> (s: Self)
        ensures
            s is Loading,
    {
        Status::Loading
    }
}

/// The window title for a page: its prefix followed by the application name.
pub fn page_title(title_prefix: &str) -> (t: String)
    ensures
        t@ == title_prefix@ + " - Caliaconf"@,
{
    let mut t = String::from_str(title_prefix);
    t.append(" - Caliaconf");
    t
}

} // verus!
