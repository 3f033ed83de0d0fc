//! The action intermediate representation: a view answers one
//! keystroke with one `Action`; the controller interprets it and asks
//! the surrounding program for side effects through `Cmd` values.

use vstd::prelude::*;

verus! {

/// A single key event, as the views understand it.
#[derive(Copy, Clone, PartialEq, Eq, Structural, Debug)]
pub enum Key {
    /// Arrow up
    Up,
    /// Arrow down
    Down,
    /// Arrow left
    Left,
    /// Arrow right
    Right,
    /// Page up
    PageUp,
    /// Page down
    PageDown,
    /// Backspace
    Backspace,
    /// Delete
    Delete,
    /// Escape
    Esc,
    /// A printable character; Enter arrives as `Char('\n')`
    Char(char),
    /// A character with the control modifier held
    Ctrl(char),
}

/// What a captured prompt answer is for: the continuation that turns
/// the entered text into the next navigation step.
#[derive(Debug)]
pub enum PromptKind {
    /// "Go to URL": open whatever was entered.
    GoUrl,
    /// "Current URL": open the entered text only if it differs from
    /// the URL it was prefilled with.
    CurrentUrl(String),
}

/// What a view asks the controller to do in response to one keystroke.
#[derive(Debug)]
pub enum Action {
    /// Nothing.
    NoOp,
    /// Open a resource: title and url.
    Open(String, String),
    /// A key the view does not consume; the controller's shortcuts see it.
    Keypress(Key),
    /// Redraw the whole screen.
    Redraw,
    /// Write these bytes to the terminal as they stand.
    Draw(String),
    /// Show this text on the status line.
    Status(String),
    /// A recoverable error to surface on the status line.
    Error(String),
    /// Ask the user a question and feed the answer to the continuation.
    Prompt(String, PromptKind),
    /// Several actions, processed strictly in order.
    List(Vec<Action>),
}

impl Action {
    /// Is this the do-nothing action?
    pub fn is_none(&self) -> (r: bool)
        ensures
            r == (self is NoOp),
    {
        matches!(self, Action::NoOp)
    }
}

/// A side effect the controller asks the surrounding program to
/// perform. The controller itself never touches the network, the
/// terminal, subprocesses or the file system.
#[derive(Debug)]
pub enum Cmd {
    /// Run an interactive telnet session against this host and port.
    Telnet {
        /// Remote host.
        host: String,
        /// Remote port.
        port: u16,
    },
    /// Ask the user to confirm opening a non-Gopher URL, then resolve
    /// through `Ui::confirm_external`.
    ConfirmExternal {
        /// The URL to open on confirmation.
        url: String,
    },
    /// Ask the user to confirm a download, then resolve through
    /// `Ui::confirm_download`.
    ConfirmDownload {
        /// The URL to download on confirmation.
        url: String,
    },
    /// Hand this URL to the operating system's opener.
    OpenExternal {
        /// The URL to open.
        url: String,
    },
    /// Stream this resource to a local file.
    Download {
        /// The URL to download.
        url: String,
    },
    /// Fetch this resource; report back through `Ui::handle_fetch` or
    /// `Ui::set_status`.
    Fetch {
        /// Title of the link being followed.
        title: String,
        /// The URL to fetch.
        url: String,
    },
    /// Build the visited-history menu and hand its raw text to
    /// `Ui::push_menu_source`.
    FetchHistory {
        /// The internal URL being resolved.
        url: String,
    },
    /// Build the bookmarks menu and hand its raw text to
    /// `Ui::push_menu_source`.
    FetchBookmarks {
        /// The internal URL being resolved.
        url: String,
    },
    /// Record a visited URL, fire-and-forget.
    SaveHistory {
        /// Title of the page.
        title: String,
        /// Its URL.
        url: String,
    },
    /// Save a bookmark; failure is surfaced.
    SaveBookmark {
        /// Title of the page.
        title: String,
        /// Its URL.
        url: String,
    },
    /// Copy this text to the system clipboard.
    CopyClipboard {
        /// The text to copy.
        text: String,
    },
    /// Write these bytes to the terminal as they stand.
    Draw {
        /// The bytes.
        text: String,
    },
    /// Ask the user for one line of input; feed the answer to
    /// `Ui::handle_prompt`.
    Prompt {
        /// The question shown.
        prompt: String,
        /// What the answer is for.
        kind: PromptKind,
    },
    /// Suspend the process (terminal handed back to the shell).
    Suspend,
}

} // verus!
