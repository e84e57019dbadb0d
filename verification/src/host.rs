//! The host's window system as this library sees it: whether the main window
//! exists, which badge it shows, and whether the host refuses label changes.

use vstd::prelude::*;
use vstd::string::*;
use crate::badge::text_view;

verus! {

/// The main window as plain values.
#[derive(Debug, Clone, PartialEq, Eq)]
pub struct Window {
    /// The label that the badge shows, if any.
    pub badge: Option<String>,
    /// `Some(diagnostic)` while the host refuses every change of the label.
    pub refusal: Option<String>,
}

/// The window registry: it holds the main window or nothing.
#[derive(Debug, Clone, PartialEq, Eq)]
pub struct Host {
    pub main_window: Option<Window>,
}

/// The mathematical model of a window.
pub struct WindowModel {
    pub badge: Option<Seq<char>>,
    pub refusal: Option<Seq<char>>,
}

impl View for Window {
    type V = WindowModel;

    open spec fn view(&self) -> WindowModel {
        WindowModel { badge: text_view(self.badge), refusal: text_view(self.refusal) }
    }
}

impl View for Host {
    type V = Option<WindowModel>;

    open spec fn view(&self) -> Option<WindowModel> {
        match self.main_window {
            Some(w) => Some(w@),
            None => None,
        }
    }
}

/// What the host does with a label: nothing while it refuses, else it shows it.
pub open spec fn apply_spec(w: WindowModel, label: Option<Seq<char>>) -> (
    WindowModel,
    Result<(), Seq<char>>,
) {
    match w.refusal {
        Some(diagnostic) => (w, Err(diagnostic)),
        None => (WindowModel { badge: label, refusal: None }, Ok(())),
    }
}

/// The label that the badge of the main window shows: none without a window.
pub open spec fn shown_badge(host: Option<WindowModel>) -> Option<Seq<char>> {
    match host {
        Some(w) => w.badge,
        None => None,
    }
}

/// The host once it refuses label changes with `diagnostic`: the badge stays,
/// and a host without a window stays as it is.
pub open spec fn refusing(host: Option<WindowModel>, diagnostic: Seq<char>) -> Option<WindowModel> {
    match host {
        Some(w) => Some(WindowModel { badge: w.badge, refusal: Some(diagnostic) }),
        None => None,
    }
}

/// What a reply holds, as sequences of characters.
pub open spec fn reply_view(reply: Result<(), String>) -> Result<(), Seq<char>> {
    match reply {
        Ok(_) => Ok(()),
        Err(text) => Err(text@),
    }
}

/// The name under which the window registry knows the main window.
pub fn main_window_name() -> (name: &'static str)
    ensures
        name@ == "main"@,
{
    "main"
}

impl Window {
    /// A window without a badge, on a host that accepts label changes.
    pub fn new() -> (window: Window)
        ensures
            window@ == (WindowModel { badge: None, refusal: None }),
    {
        Window { badge: None, refusal: None }
    }

    /// Hands a label to the window. A host that refuses answers with its
    /// diagnostic and leaves the badge as it was; else the badge shows the
    /// label, or nothing for `None`.
    pub fn set_badge_label(&mut self, label: Option<String>) -> (outcome: Result<(), String>)
        ensures
            (final(self)@, reply_view(outcome)) == apply_spec(old(self)@, text_view(label)),
    {
        match &self.refusal {
            Some(diagnostic) => Err(diagnostic.clone()),
            None => {
                self.badge = label;
                Ok(())
            },
        }
    }
}

impl Host {
    /// A host whose main window has not been created yet.
    pub fn new() -> (host: Host)
        ensures
            host@ is None,
    {
        Host { main_window: None }
    }

    /// Creates the main window anew: no badge, and label changes are accepted.
    pub fn open_main_window(&mut self)
        ensures
            final(self)@ == Some(WindowModel { badge: None, refusal: None }),
    {
        self.main_window = Some(Window::new());
    }

    /// Destroys the main window, if there is one.
    pub fn close_main_window(&mut self)
        ensures
            final(self)@ is None,
    {
        self.main_window = None;
    }

    /// Makes the host refuse every later label change with `diagnostic`.
    /// Without a main window nothing changes.
    pub fn refuse_labels(&mut self, diagnostic: String)
        ensures
            final(self)@ == refusing(old(self)@, diagnostic@),
    {
        match &mut self.main_window {
            Some(window) => {
                window.refusal = Some(diagnostic);
            },
            None => {},
        }
    }

    /// Whether a window is registered under `name`: the main window under its
    /// own name, and nothing under any other.
    pub fn has_window(&self, name: &str) -> (found: bool)
        ensures
            found == (name@ == "main"@ && self@ is Some),
    {
        let asked = String::from_str(name);
        let known = String::from_str(main_window_name());
        asked == known && self.main_window.is_some()
    }

    /// Whether the main window exists.
    pub fn has_main_window(&self) -> (found: bool)
        ensures
            found == (self@ is Some),
    {
        self.has_window(main_window_name())
    }

    /// The label that the badge shows: none without a window or without a badge.
    pub fn badge(&self) -> (label: Option<String>)
        ensures
            text_view(label) == shown_badge(self@),
    {
        match &self.main_window {
            Some(window) => match &window.badge {
                Some(text) => Some(text.clone()),
                None => None,
            },
            None => None,
        }
    }
}

} // verus!
