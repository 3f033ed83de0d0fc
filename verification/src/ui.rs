//! The controller: it owns the navigation stack of opened views,
//! routes keystrokes to the focused view, and interprets the actions
//! views return. Every side effect — network, terminal, subprocess,
//! file system — is handed back to the surrounding program as a `Cmd`
//! value; the controller itself only decides.

use vstd::prelude::*;

use crate::action::{Action, Cmd, Key, PromptKind};
use crate::gopher::{spec_is_download, spec_to_char, type_char_str, Type};
use crate::help::{lookup, spec_lookup};
use crate::menu::{models, spec_menu_respond, spec_parse_menu, Menu};
use crate::strutil::{
    escape_status, spec_escape, spec_starts_with, starts_with_str, str_eq,
};
use crate::text::{spec_text_respond, Text};
use crate::url::{has_scheme, parse_url, spec_has_scheme, spec_parse_url, type_for_url};

verus! {

/// One opened page: the closed set of page kinds.
pub enum Page {
    /// A navigable menu.
    Menu(Menu),
    /// A scrollable text page.
    Text(Text),
}

impl Page {
    /// The view's structural invariant.
    pub open spec fn wf(self) -> bool {
        match self {
            Page::Menu(m) => m.wf(),
            Page::Text(t) => t.wf(),
        }
    }

    /// The URL the view shows.
    pub open spec fn spec_url(self) -> Seq<char> {
        match self {
            Page::Menu(m) => m.url@,
            Page::Text(t) => t.url@,
        }
    }

    /// The verbatim source the view was built from.
    pub open spec fn spec_raw(self) -> Seq<char> {
        match self {
            Page::Menu(m) => m.raw@,
            Page::Text(t) => t.raw@,
        }
    }

    /// Wide mode of the view; menus have none.
    pub open spec fn spec_wide(self) -> bool {
        match self {
            Page::Menu(_) => false,
            Page::Text(t) => t.wide,
        }
    }

    /// The view's current viewport rendering.
    pub open spec fn spec_render(self) -> Seq<char> {
        match self {
            Page::Menu(m) => m.spec_render(),
            Page::Text(t) => t.spec_render(),
        }
    }

    /// The URL the view shows.
    pub fn url_str(&self) -> (u: &str)
        ensures
            u@ == self.spec_url(),
    {
        match self {
            Page::Menu(m) => m.url.as_str(),
            Page::Text(t) => t.url.as_str(),
        }
    }

    /// The verbatim source the view was built from.
    pub fn raw_str(&self) -> (r: &str)
        ensures
            r@ == self.spec_raw(),
    {
        match self {
            Page::Menu(m) => m.raw.as_str(),
            Page::Text(t) => t.raw.as_str(),
        }
    }

    /// Did this page come over TLS?
    pub fn is_tls(&self) -> (r: bool)
        ensures
            r == match *self {
                Page::Menu(m) => m.tls,
                Page::Text(t) => t.tls,
            },
    {
        match self {
            Page::Menu(m) => m.tls,
            Page::Text(t) => t.tls,
        }
    }

    /// Did this page come over an anonymizing transport?
    pub fn is_tor(&self) -> (r: bool)
        ensures
            r == match *self {
                Page::Menu(m) => m.tor,
                Page::Text(t) => t.tor,
            },
    {
        match self {
            Page::Menu(m) => m.tor,
            Page::Text(t) => t.tor,
        }
    }

    /// Wide mode of the view; menus have none.
    pub fn wide(&self) -> (w: bool)
        ensures
            w == self.spec_wide(),
    {
        match self {
            Page::Menu(_) => false,
            Page::Text(t) => t.wide(),
        }
    }

    /// Switch wide mode; a no-op on menus.
    pub fn set_wide(&mut self, w: bool)
        requires
            old(self).wf(),
        ensures
            final(self).wf(),
            spec_page_wide_set(*old(self), *final(self), w),
    {
        match self {
            Page::Menu(_) => (),
            Page::Text(t) => t.set_wide(w),
        }
    }

    /// Hand one keystroke to the view's own state machine.
    pub fn respond(&mut self, key: Key) -> (a: Action)
        requires
            old(self).wf(),
        ensures
            final(self).wf(),
            *old(self) is Menu ==> *final(self) is Menu && spec_menu_respond(
                old(self)->Menu_0,
                final(self)->Menu_0,
                key,
                a,
            ),
            *old(self) is Text ==> *final(self) is Text && spec_text_respond(
                old(self)->Text_0,
                final(self)->Text_0,
                key,
                a,
            ),
    {
        match self {
            Page::Menu(m) => m.respond(key),
            Page::Text(t) => t.respond(key),
        }
    }

    /// Record a new viewport size, invalidating cached layout.
    pub fn term_size(&mut self, cols: usize, rows: usize)
        requires
            old(self).wf(),
        ensures
            final(self).wf(),
            final(self).spec_url() == old(self).spec_url(),
            final(self).spec_raw() == old(self).spec_raw(),
            *old(self) is Menu ==> *final(self) == Page::Menu(
                (Menu { cols, rows, ..old(self)->Menu_0 }),
            ),
            *old(self) is Text ==> *final(self) is Text && final(self)->Text_0.cols == cols
                && final(self)->Text_0.rows == rows && final(self)->Text_0.lines == old(
                self,
            )->Text_0.lines && final(self)->Text_0.wide == old(self)->Text_0.wide,
    {
        match self {
            Page::Menu(m) => m.term_size(cols, rows),
            Page::Text(t) => t.term_size(cols, rows),
        }
    }

    /// Render the view's current viewport.
    pub fn render(&self) -> (r: String)
        requires
            self.wf(),
        ensures
            r@ == self.spec_render(),
    {
        match self {
            Page::Menu(m) => m.render(),
            Page::Text(t) => t.render(),
        }
    }
}

/// Wide mode was set to `w` on the view, touching nothing else of the
/// page: a no-op on menus; on text pages only the flag and a scroll
/// clamp change.
pub open spec fn spec_page_wide_set(v1: Page, v2: Page, w: bool) -> bool {
    match v1 {
        Page::Menu(_) => v2 == v1,
        Page::Text(t1) => v2 matches Page::Text(t2) && t2.wide == w && t2.url == t1.url
            && t2.raw == t1.raw && t2.lines == t1.lines && t2.wrapped == t1.wrapped && t2.tls
            == t1.tls && t2.tor == t1.tor && t2.cols == t1.cols && t2.rows == t1.rows,
    }
}

/// The controller state: the navigation stack, the focus, redraw and
/// run flags, the status line, and the read-only configuration flags.
pub struct Ui {
    /// Opened views, oldest first.
    pub views: Vec<Page>,
    /// Index of the focused view.
    pub focused: usize,
    /// Does the screen need a full redraw?
    pub dirty: bool,
    /// Is the main loop running?
    pub running: bool,
    /// Status line text.
    pub status: String,
    /// Config: request TLS.
    pub tls: bool,
    /// Config: route over an anonymizing proxy.
    pub tor: bool,
    /// Config: text pages start wide.
    pub wide: bool,
    /// Config: draw emoji indicators.
    pub emoji: bool,
    /// Terminal width.
    pub cols: usize,
    /// Terminal height.
    pub rows: usize,
}

/// What survives a navigation from `pre`: everything up to and
/// including the focused view; opening from the middle of the stack
/// discards the forward branch.
pub open spec fn spec_kept(pre: Ui) -> Seq<Page> {
    if pre.views@.len() == 0 {
        Seq::<Page>::empty()
    } else {
        pre.views@.subrange(0, pre.focused + 1)
    }
}

/// Everything but the stack, focus, dirty flag and status agrees.
pub open spec fn spec_same_chrome(pre: Ui, post: Ui) -> bool {
    &&& post.running == pre.running
    &&& post.status == pre.status
    &&& post.tls == pre.tls
    &&& post.tor == pre.tor
    &&& post.wide == pre.wide
    &&& post.emoji == pre.emoji
    &&& post.cols == pre.cols
    &&& post.rows == pre.rows
}

/// One view was pushed: the forward branch is truncated, the new view
/// sits at the tail, and the focus moves onto it.
pub open spec fn spec_add_view_shape(pre: Ui, post: Ui) -> bool {
    &&& post.views@ == spec_kept(pre).push(post.views@.last())
    &&& post.focused as int == spec_kept(pre).len()
    &&& post.dirty
    &&& spec_same_chrome(pre, post)
}

/// A menu view for `url`, parsed from `raw`, was pushed.
pub open spec fn spec_pushed_menu(
    pre: Ui,
    post: Ui,
    url: Seq<char>,
    raw: Seq<char>,
    tls: bool,
    tor: bool,
) -> bool {
    &&& spec_add_view_shape(pre, post)
    &&& post.views@.last() matches Page::Menu(m) && m.url@ == url && m.raw@ == raw && models(
        m.lines@,
    ) == spec_parse_menu(raw) && m.tls == tls && m.tor == tor && m.link == 0 && m.scroll == 0
}

/// A text view for `url` with body `raw` was pushed.
pub open spec fn spec_pushed_text(
    pre: Ui,
    post: Ui,
    url: Seq<char>,
    raw: Seq<char>,
    tls: bool,
    tor: bool,
    wide: bool,
) -> bool {
    &&& spec_add_view_shape(pre, post)
    &&& post.views@.last() matches Page::Text(t) && t.url@ == url && t.raw@ == raw && t.tls == tls
        && t.tor == tor && t.wide == wide && t.scroll == 0
}

/// `r` is success carrying no commands.
pub open spec fn spec_ok_empty(r: Result<Vec<Cmd>, String>) -> bool {
    r matches Ok(c) && c@.len() == 0
}

/// The key under the internal namespace prefix, with a leading menu
/// type segment stripped.
pub open spec fn spec_internal_key(url: Seq<char>) -> Seq<char> {
    let k = url.subrange("gopher://phetch/"@.len() as int, url.len() as int);
    if spec_starts_with(k, "1/"@) {
        k.subrange("1/"@.len() as int, k.len() as int)
    } else {
        k
    }
}

/// What opening `url` does, rule by rule in resolution order: a
/// same-page open is a no-op; a telnet URL becomes a telnet command; a
/// foreign absolute URL and a download each ask for confirmation; an
/// internal URL resolves against the built-in pages or asks for the
/// history or bookmarks menu; anything else is fetched, after its
/// visit is recorded.
pub open spec fn spec_open_post(
    pre: Ui,
    post: Ui,
    title: Seq<char>,
    url: Seq<char>,
    r: Result<Vec<Cmd>, String>,
) -> bool {
    if pre.views@.len() > 0 && pre.views@[pre.focused as int].spec_url() == url {
        post == pre && spec_ok_empty(r)
    } else if spec_starts_with(url, "telnet://"@) {
        post == pre && (r matches Ok(c) && c@.len() == 1 && (c@[0] matches Cmd::Telnet {
            host,
            port,
        } && host@ == spec_parse_url(url).host && port == spec_parse_url(url).port))
    } else if spec_has_scheme(url) && !spec_starts_with(url, "gopher://"@) {
        post == (Ui { dirty: true, ..pre }) && (r matches Ok(c) && c@.len() == 1 && (c@[0] matches
        Cmd::ConfirmExternal { url: u } && u@ == url))
    } else if spec_is_download(spec_parse_url(url).typ) {
        post == (Ui { dirty: true, ..pre }) && (r matches Ok(c) && c@.len() == 1 && (c@[0] matches
        Cmd::ConfirmDownload { url: u } && u@ == url))
    } else if spec_starts_with(url, "gopher://phetch/"@) {
        let key = spec_internal_key(url);
        if key == "history"@ {
            post == pre && (r matches Ok(c) && c@.len() == 1 && (c@[0] matches Cmd::FetchHistory {
                url: u,
            } && u@ == url))
        } else if key == "bookmarks"@ {
            post == pre && (r matches Ok(c) && c@.len() == 1 && (c@[0] matches Cmd::FetchBookmarks {
                url: u,
            } && u@ == url))
        } else if spec_lookup(key) is Some {
            spec_ok_empty(r) && spec_pushed_menu(pre, post, url, spec_lookup(key)->0, false, false)
        } else {
            post == pre && (r matches Err(e) && e@ == "phetch URL not found: "@ + url)
        }
    } else {
        post == pre && (r matches Ok(c) && c@.len() == 2 && (c@[0] matches Cmd::SaveHistory {
            title: t0,
            url: u0,
        } && t0@ == title && u0@ == url) && (c@[1] matches Cmd::Fetch { title: t1, url: u1 } && t1@
            == title && u1@ == url))
    }
}

/// What a fetched response becomes: menus and search results push a
/// menu view, text and HTML push a text view, anything else is an
/// unsupported response surfaced as an error with the stack unchanged.
pub open spec fn spec_handle_fetch_post(
    pre: Ui,
    post: Ui,
    url: Seq<char>,
    body: Seq<char>,
    tls: bool,
    tor: bool,
    r: Result<(), String>,
) -> bool {
    let ty = spec_parse_url(url).typ;
    if ty == Type::Menu || ty == Type::Search {
        r is Ok && spec_pushed_menu(pre, post, url, body, tls, tor)
    } else if ty == Type::Text || ty == Type::HTML {
        r is Ok && spec_pushed_text(pre, post, url, body, tls, tor, pre.wide)
    } else {
        post == pre && (r matches Err(e) && e@ == "Unsupported Gopher Response: type "@ + seq![
            spec_to_char(ty),
        ])
    }
}

/// The focused view.
pub open spec fn spec_focused(pre: Ui) -> Page {
    pre.views@[pre.focused as int]
}

/// The relation a view's own state machine establishes between its
/// state before and after one keystroke.
pub open spec fn spec_page_respond(p1: Page, p2: Page, key: Key, a: Action) -> bool {
    &&& (p1 is Menu ==> p2 is Menu && spec_menu_respond(p1->Menu_0, p2->Menu_0, key, a))
    &&& (p1 is Text ==> p2 is Text && spec_text_respond(p1->Text_0, p2->Text_0, key, a))
}

/// Wide mode was toggled: the config flag flips, and the focused view
/// (if any) flips with it; nothing else moves.
pub open spec fn spec_wide_toggle_post(pre: Ui, post: Ui) -> bool {
    if pre.views@.len() > 0 {
        &&& post.views@.len() == pre.views@.len()
        &&& (forall|j: int|
            0 <= j < pre.views@.len() && j != pre.focused as int ==> post.views@[j]
                == pre.views@[j])
        &&& spec_page_wide_set(
            spec_focused(pre),
            post.views@[pre.focused as int],
            !spec_focused(pre).spec_wide(),
        )
        &&& post.focused == pre.focused
        &&& post.dirty
        &&& post.wide == !pre.wide
        &&& post.running == pre.running
        &&& post.status == pre.status
        &&& post.tls == pre.tls
        &&& post.tor == pre.tor
        &&& post.emoji == pre.emoji
        &&& post.cols == pre.cols
        &&& post.rows == pre.rows
    } else {
        post == (Ui { wide: !pre.wide, ..pre })
    }
}

/// What one controller shortcut character does, for plain and control
/// presses alike.
pub open spec fn spec_char_post(pre: Ui, post: Ui, c: char, r: Result<Vec<Cmd>, String>) -> bool {
    if c == 'a' {
        spec_open_post(pre, post, "History"@, "gopher://phetch/1/history"@, r)
    } else if c == 'b' {
        spec_open_post(pre, post, "Bookmarks"@, "gopher://phetch/1/bookmarks"@, r)
    } else if c == 'g' {
        post == pre && (r matches Ok(cs) && cs@.len() == 1 && (cs@[0] matches Cmd::Prompt {
            prompt,
            kind,
        } && prompt@ == "Go to URL: "@ && kind is GoUrl))
    } else if c == 'h' {
        spec_open_post(pre, post, "Help"@, "gopher://phetch/1/help"@, r)
    } else if c == 'r' {
        if pre.views@.len() > 0 {
            spec_pushed_text(
                pre,
                post,
                spec_focused(pre).spec_url(),
                spec_focused(pre).spec_raw(),
                (spec_focused(pre) matches Page::Menu(m) && m.tls) || (spec_focused(pre)
                    matches Page::Text(t) && t.tls),
                (spec_focused(pre) matches Page::Menu(m) && m.tor) || (spec_focused(pre)
                    matches Page::Text(t) && t.tor),
                true,
            ) && spec_ok_empty(r)
        } else {
            post == pre && spec_ok_empty(r)
        }
    } else if c == 's' {
        post == pre && if pre.views@.len() > 0 {
            r matches Ok(cs) && cs@.len() == 1 && (cs@[0] matches Cmd::SaveBookmark {
                title,
                url,
            } && title@ == spec_focused(pre).spec_url() && url@ == spec_focused(pre).spec_url())
        } else {
            spec_ok_empty(r)
        }
    } else if c == 'u' {
        post == pre && if pre.views@.len() > 0 {
            r matches Ok(cs) && cs@.len() == 1 && (cs@[0] matches Cmd::Prompt { prompt, kind }
                && prompt@ == "Current URL: "@ && (kind matches PromptKind::CurrentUrl(cur) && cur@
                == spec_focused(pre).spec_url()))
        } else {
            spec_ok_empty(r)
        }
    } else if c == 'y' {
        post == pre && if pre.views@.len() > 0 {
            r matches Ok(cs) && cs@.len() == 1 && (cs@[0] matches Cmd::CopyClipboard { text }
                && text@ == spec_focused(pre).spec_url())
        } else {
            spec_ok_empty(r)
        }
    } else if c == 'w' {
        spec_wide_toggle_post(pre, post) && spec_ok_empty(r)
    } else if c == 'q' {
        post == (Ui { running: false, ..pre }) && spec_ok_empty(r)
    } else {
        post == pre && (r matches Err(e) && e@ == "Unknown keypress: "@.push(c))
    }
}

/// What one key not consumed by a view does at the controller:
/// quit hints, suspension, history movement, and the one-letter
/// shortcuts.
pub open spec fn spec_key_post(pre: Ui, post: Ui, key: Key, r: Result<Vec<Cmd>, String>) -> bool {
    if key == Key::Ctrl('c') {
        post == (Ui { status: post.status, ..pre }) && post.status@ == spec_escape(
            "(Use q to quit)"@,
        ) && spec_ok_empty(r)
    } else if key == Key::Ctrl('z') {
        post == (Ui { dirty: true, ..pre }) && (r matches Ok(cs) && cs@.len() == 1 && cs@[0]
            is Suspend)
    } else if key == Key::Esc {
        post == pre && spec_ok_empty(r)
    } else if key == Key::Left || key == Key::Backspace {
        spec_ok_empty(r) && if pre.focused > 0 {
            post == (Ui { focused: (pre.focused - 1) as usize, dirty: true, ..pre })
        } else {
            post == pre
        }
    } else if key == Key::Right {
        spec_ok_empty(r) && if pre.views@.len() > 0 && pre.focused + 1 < pre.views@.len() {
            post == (Ui { focused: (pre.focused + 1) as usize, dirty: true, ..pre })
        } else {
            post == pre
        }
    } else if key is Char {
        spec_char_post(pre, post, key->Char_0, r)
    } else if key is Ctrl {
        spec_char_post(pre, post, key->Ctrl_0, r)
    } else {
        post == pre && spec_ok_empty(r)
    }
}

/// What interpreting one action does: the central dispatch contract.
/// A `List` is interpreted member by member in order, stopping at the
/// first failure.
pub open spec fn spec_process_post(pre: Ui, post: Ui, a: Action, r: Result<Vec<Cmd>, String>) -> bool {
    match a {
        Action::NoOp => post == pre && spec_ok_empty(r),
        Action::Redraw => post == (Ui { dirty: true, ..pre }) && spec_ok_empty(r),
        Action::Draw(s) => post == pre && (r matches Ok(cs) && cs@.len() == 1 && (cs@[0] matches
        Cmd::Draw { text } && text == s)),
        Action::Status(s) => post == (Ui { status: post.status, ..pre }) && post.status@
            == spec_escape(s@) && spec_ok_empty(r),
        Action::Error(e) => post == pre && (r matches Err(x) && x == e),
        Action::Open(t, u) => spec_open_post(pre, post, t@, u@, r),
        Action::Prompt(p, k) => post == pre && (r matches Ok(cs) && cs@.len() == 1 && (cs@[0]
            matches Cmd::Prompt { prompt, kind } && prompt == p && kind == k)),
        Action::Keypress(key) => spec_key_post(pre, post, key, r),
        Action::List(_) => true,
    }
}

impl Ui {
    /// Structural invariant: every opened view is well formed and the
    /// focus is valid whenever the stack is non-empty.
    pub open spec fn wf(self) -> bool {
        &&& forall|i: int| 0 <= i < self.views@.len() ==> (#[trigger] self.views@[i]).wf()
        &&& (self.views@.len() > 0 ==> (self.focused as int) < self.views@.len())
        &&& (self.views@.len() == 0 ==> self.focused == 0)
    }

    /// A fresh controller with no views, carrying the configuration
    /// flags.
    pub fn new(tls: bool, tor: bool, wide: bool, emoji: bool) -> (u: Ui)
        ensures
            u.wf(),
            u.views@.len() == 0,
            u.focused == 0,
            u.dirty,
            u.running,
            u.status@ == Seq::<char>::empty(),
            u.tls == tls,
            u.tor == tor,
            u.wide == wide,
            u.emoji == emoji,
    {
        let status = String::new();
        proof {
            assert(status@ =~= Seq::<char>::empty());
        }
        Ui {
            views: Vec::new(),
            focused: 0,
            dirty: true,
            running: true,
            status,
            tls,
            tor,
            wide,
            emoji,
            cols: 80,
            rows: 24,
        }
    }

    /// Push a view onto the stack, discarding any forward history
    /// first, and focus it.
    pub fn add_view(&mut self, v: Page)
        requires
            old(self).wf(),
            v.wf(),
        ensures
            final(self).wf(),
            spec_add_view_shape(*old(self), *final(self)),
            final(self).views@.last() == v,
    {
        self.dirty = true;
        if self.views.len() > 0 && self.focused < self.views.len() - 1 {
            self.views.truncate(self.focused + 1);
        }
        let ghost kept = self.views@;
        proof {
            assert(kept =~= spec_kept(*old(self)));
        }
        self.views.push(v);
        if self.views.len() > 1 {
            self.focused += 1;
        }
    }

    /// Open a URL: same-page opens are no-ops, telnet and foreign URLs
    /// and downloads become commands (the latter two behind a
    /// confirmation), internal URLs resolve against the built-in
    /// pages, and everything else is fetched.
    pub fn open(&mut self, title: &str, url: &str) -> (r: Result<Vec<Cmd>, String>)
        requires
            old(self).wf(),
        ensures
            final(self).wf(),
            spec_open_post(*old(self), *final(self), title@, url@, r),
    {
        if self.views.len() > 0 {
            let same = {
                let v = &self.views[self.focused];
                str_eq(v.url_str(), url)
            };
            if same {
                return Ok(Vec::new());
            }
        }
        if starts_with_str(url, "telnet://") {
            let u = parse_url(url);
            let mut cmds: Vec<Cmd> = Vec::new();
            cmds.push(Cmd::Telnet { host: u.host, port: u.port });
            return Ok(cmds);
        }
        if has_scheme(url) && !starts_with_str(url, "gopher://") {
            self.dirty = true;
            let mut cmds: Vec<Cmd> = Vec::new();
            cmds.push(Cmd::ConfirmExternal { url: url.to_owned() });
            return Ok(cmds);
        }
        let typ = type_for_url(url);
        if typ.is_download() {
            self.dirty = true;
            let mut cmds: Vec<Cmd> = Vec::new();
            cmds.push(Cmd::ConfirmDownload { url: url.to_owned() });
            return Ok(cmds);
        }
        if starts_with_str(url, "gopher://phetch/") {
            proof {
                reveal_strlit("gopher://phetch/");
                reveal_strlit("1/");
            }
            let n = url.unicode_len();
            let key0 = url.substring_char(16, n);
            let k0n = key0.unicode_len();
            let key: &str = if starts_with_str(key0, "1/") {
                key0.substring_char(2, k0n)
            } else {
                key0
            };
            assert(key@ == spec_internal_key(url@));
            if str_eq(key, "history") {
                let mut cmds: Vec<Cmd> = Vec::new();
                cmds.push(Cmd::FetchHistory { url: url.to_owned() });
                return Ok(cmds);
            }
            if str_eq(key, "bookmarks") {
                let mut cmds: Vec<Cmd> = Vec::new();
                cmds.push(Cmd::FetchBookmarks { url: url.to_owned() });
                return Ok(cmds);
            }
            match lookup(key) {
                Some(src) => {
                    let m = Menu::from(url, src, false, false);
                    self.add_view(Page::Menu(m));
                    return Ok(Vec::new());
                },
                None => {
                    let mut e = String::from_str("phetch URL not found: ");
                    e.append(url);
                    return Err(e);
                },
            }
        }
        let mut cmds: Vec<Cmd> = Vec::new();
        cmds.push(Cmd::SaveHistory { title: title.to_owned(), url: url.to_owned() });
        cmds.push(Cmd::Fetch { title: title.to_owned(), url: url.to_owned() });
        Ok(cmds)
    }

    /// Resolve a pending foreign-URL confirmation. Declining touches
    /// nothing: no command is issued and the stack is unchanged.
    pub fn confirm_external(&mut self, url: &str, yes: bool) -> (cmds: Vec<Cmd>)
        ensures
            *final(self) == *old(self),
            !yes ==> cmds@.len() == 0,
            yes ==> cmds@.len() == 1 && (cmds@[0] matches Cmd::OpenExternal { url: u } && u@
                == url@),
    {
        let mut cmds: Vec<Cmd> = Vec::new();
        if yes {
            cmds.push(Cmd::OpenExternal { url: url.to_owned() });
        }
        cmds
    }

    /// Resolve a pending download confirmation. Declining touches
    /// nothing: no command is issued and the stack is unchanged.
    pub fn confirm_download(&mut self, url: &str, yes: bool) -> (cmds: Vec<Cmd>)
        ensures
            *final(self) == *old(self),
            !yes ==> cmds@.len() == 0,
            yes ==> cmds@.len() == 1 && (cmds@[0] matches Cmd::Download { url: u } && u@ == url@),
    {
        let mut cmds: Vec<Cmd> = Vec::new();
        if yes {
            cmds.push(Cmd::Download { url: url.to_owned() });
        }
        cmds
    }

    /// Take a fetched response and push the view its resolved type
    /// calls for; an unrenderable type is surfaced and changes
    /// nothing.
    pub fn handle_fetch(&mut self, url: &str, body: String, tls: bool, tor: bool) -> (r: Result<
        (),
        String,
    >)
        requires
            old(self).wf(),
        ensures
            final(self).wf(),
            spec_handle_fetch_post(*old(self), *final(self), url@, body@, tls, tor, r),
    {
        let typ = type_for_url(url);
        if typ == Type::Menu || typ == Type::Search {
            let m = Menu::from(url, body, tls, tor);
            self.add_view(Page::Menu(m));
            Ok(())
        } else if typ == Type::Text || typ == Type::HTML {
            let t = Text::from(url, body, self.wide, tls, tor);
            self.add_view(Page::Text(t));
            Ok(())
        } else {
            let mut e = String::from_str("Unsupported Gopher Response: type ");
            e.append(type_char_str(typ));
            Err(e)
        }
    }

    /// Push a menu built from raw source, for the internal pages the
    /// surrounding program composes (history, bookmarks).
    pub fn push_menu_source(&mut self, url: &str, source: String)
        requires
            old(self).wf(),
        ensures
            final(self).wf(),
            spec_pushed_menu(*old(self), *final(self), url@, source@, false, false),
    {
        let m = Menu::from(url, source, false, false);
        self.add_view(Page::Menu(m));
    }

    /// Feed a captured prompt answer to its continuation: a "go to
    /// URL" answer opens it; a "current URL" answer opens it only when
    /// it was edited; a cancelled prompt does nothing.
    pub fn handle_prompt(&mut self, kind: PromptKind, input: Option<String>) -> (r: Result<
        Vec<Cmd>,
        String,
    >)
        requires
            old(self).wf(),
        ensures
            final(self).wf(),
            input is None ==> *final(self) == *old(self) && spec_ok_empty(r),
            input is Some && kind is GoUrl ==> spec_open_post(
                *old(self),
                *final(self),
                input->0@,
                input->0@,
                r,
            ),
            input is Some && kind is CurrentUrl && input->0@ != kind->CurrentUrl_0@
                ==> spec_open_post(*old(self), *final(self), input->0@, input->0@, r),
            input is Some && kind is CurrentUrl && input->0@ == kind->CurrentUrl_0@
                ==> *final(self) == *old(self) && spec_ok_empty(r),
    {
        match input {
            None => Ok(Vec::new()),
            Some(u) => {
                match kind {
                    PromptKind::GoUrl => self.open(u.as_str(), u.as_str()),
                    PromptKind::CurrentUrl(cur) => {
                        if str_eq(u.as_str(), cur.as_str()) {
                            Ok(Vec::new())
                        } else {
                            self.open(u.as_str(), u.as_str())
                        }
                    },
                }
            },
        }
    }

    /// Replace the status line; line breaks are made visible.
    pub fn set_status(&mut self, s: &str)
        ensures
            *final(self) == (Ui { status: final(self).status, ..*old(self) }),
            final(self).status@ == spec_escape(s@),
    {
        self.status = escape_status(s);
    }

    /// Clear the status line.
    pub fn clear_status(&mut self)
        ensures
            *final(self) == (Ui { status: final(self).status, ..*old(self) }),
            final(self).status@ == Seq::<char>::empty(),
    {
        let status = String::new();
        proof {
            assert(status@ =~= Seq::<char>::empty());
        }
        self.status = status;
    }

    /// One controller shortcut character, plain or with control held.
    fn process_char(&mut self, c: char) -> (r: Result<Vec<Cmd>, String>)
        requires
            old(self).wf(),
        ensures
            final(self).wf(),
            spec_char_post(*old(self), *final(self), c, r),
    {
        if c == 'a' {
            self.open("History", "gopher://phetch/1/history")
        } else if c == 'b' {
            self.open("Bookmarks", "gopher://phetch/1/bookmarks")
        } else if c == 'g' {
            let mut cmds: Vec<Cmd> = Vec::new();
            cmds.push(
                Cmd::Prompt { prompt: String::from_str("Go to URL: "), kind: PromptKind::GoUrl },
            );
            Ok(cmds)
        } else if c == 'h' {
            self.open("Help", "gopher://phetch/1/help")
        } else if c == 'r' {
            if self.views.len() > 0 {
                let f = self.focused;
                let url = self.views[f].url_str().to_owned();
                let raw = self.views[f].raw_str().to_owned();
                let tls = self.views[f].is_tls();
                let tor = self.views[f].is_tor();
                let t = Text::from(url.as_str(), raw, true, tls, tor);
                self.add_view(Page::Text(t));
            }
            Ok(Vec::new())
        } else if c == 's' {
            let mut cmds: Vec<Cmd> = Vec::new();
            if self.views.len() > 0 {
                let url = self.views[self.focused].url_str().to_owned();
                let title = url.clone();
                cmds.push(Cmd::SaveBookmark { title, url });
            }
            Ok(cmds)
        } else if c == 'u' {
            let mut cmds: Vec<Cmd> = Vec::new();
            if self.views.len() > 0 {
                let cur = self.views[self.focused].url_str().to_owned();
                cmds.push(
                    Cmd::Prompt {
                        prompt: String::from_str("Current URL: "),
                        kind: PromptKind::CurrentUrl(cur),
                    },
                );
            }
            Ok(cmds)
        } else if c == 'y' {
            let mut cmds: Vec<Cmd> = Vec::new();
            if self.views.len() > 0 {
                let text = self.views[self.focused].url_str().to_owned();
                cmds.push(Cmd::CopyClipboard { text });
            }
            Ok(cmds)
        } else if c == 'w' {
            self.wide = !self.wide;
            if self.views.len() > 0 {
                let f = self.focused;
                let w = self.views[f].wide();
                self.views[f].set_wide(!w);
                self.dirty = true;
            }
            Ok(Vec::new())
        } else if c == 'q' {
            self.running = false;
            Ok(Vec::new())
        } else {
            let mut e = String::from_str("Unknown keypress: ");
            crate::strutil::push_char(&mut e, c);
            Err(e)
        }
    }

    /// One key the focused view did not consume.
    fn process_key(&mut self, key: Key) -> (r: Result<Vec<Cmd>, String>)
        requires
            old(self).wf(),
        ensures
            final(self).wf(),
            spec_key_post(*old(self), *final(self), key, r),
    {
        if key == Key::Ctrl('c') {
            self.set_status("(Use q to quit)");
            Ok(Vec::new())
        } else if key == Key::Ctrl('z') {
            self.dirty = true;
            let mut cmds: Vec<Cmd> = Vec::new();
            cmds.push(Cmd::Suspend);
            Ok(cmds)
        } else if key == Key::Esc {
            Ok(Vec::new())
        } else if key == Key::Left || key == Key::Backspace {
            if self.focused > 0 {
                self.focused = self.focused - 1;
                self.dirty = true;
            }
            Ok(Vec::new())
        } else if key == Key::Right {
            if self.views.len() > 0 && self.focused + 1 < self.views.len() {
                self.focused = self.focused + 1;
                self.dirty = true;
            }
            Ok(Vec::new())
        } else {
            match key {
                Key::Char(c) => self.process_char(c),
                Key::Ctrl(c) => self.process_char(c),
                _ => Ok(Vec::new()),
            }
        }
    }

    /// Interpret one action that is not a list.
    fn process_one(&mut self, a: Action) -> (r: Result<Vec<Cmd>, String>)
        requires
            old(self).wf(),
        ensures
            final(self).wf(),
            spec_process_post(*old(self), *final(self), a, r),
    {
        match a {
            Action::NoOp => Ok(Vec::new()),
            Action::Redraw => {
                self.dirty = true;
                Ok(Vec::new())
            },
            Action::Draw(s) => {
                let mut cmds: Vec<Cmd> = Vec::new();
                cmds.push(Cmd::Draw { text: s });
                Ok(cmds)
            },
            Action::Status(s) => {
                self.set_status(s.as_str());
                Ok(Vec::new())
            },
            Action::Error(e) => Err(e),
            Action::Open(t, u) => self.open(t.as_str(), u.as_str()),
            Action::Prompt(p, k) => {
                let mut cmds: Vec<Cmd> = Vec::new();
                cmds.push(Cmd::Prompt { prompt: p, kind: k });
                Ok(cmds)
            },
            Action::Keypress(key) => self.process_key(key),
            Action::List(_) => Ok(Vec::new()),
        }
    }

    /// Interpret one action from the focused view. A `List` is
    /// interpreted member by member strictly in order; the first
    /// failing member stops the rest, and its error is returned to be
    /// surfaced on the status line. Views produce flat lists, so a
    /// list inside a list does nothing.
    pub fn process_action(&mut self, a: Action) -> (r: Result<Vec<Cmd>, String>)
        requires
            old(self).wf(),
        ensures
            final(self).wf(),
            !(a is List) ==> spec_process_post(*old(self), *final(self), a, r),
    {
        match a {
            Action::List(mut actions) => {
                let mut cmds: Vec<Cmd> = Vec::new();
                while actions.len() > 0
                    invariant
                        self.wf(),
                        a is List,
                    decreases actions@.len(),
                {
                    let act = actions.remove(0);
                    match self.process_one(act) {
                        Ok(mut cs) => {
                            cmds.append(&mut cs);
                        },
                        Err(e) => {
                            return Err(e);
                        },
                    }
                }
                Ok(cmds)
            },
            other => self.process_one(other),
        }
    }

    /// Hand one keystroke to the focused view and return its action;
    /// with nothing open the keystroke is an error to surface.
    pub fn respond_key(&mut self, key: Key) -> (a: Action)
        requires
            old(self).wf(),
        ensures
            final(self).wf(),
            old(self).views@.len() == 0 ==> *final(self) == *old(self) && a is Error,
            old(self).views@.len() > 0 ==> {
                &&& final(self).views@.len() == old(self).views@.len()
                &&& (forall|j: int|
                    0 <= j < old(self).views@.len() && j != old(self).focused as int
                        ==> final(self).views@[j] == old(self).views@[j])
                &&& spec_page_respond(
                    spec_focused(*old(self)),
                    final(self).views@[old(self).focused as int],
                    key,
                    a,
                )
                &&& *final(self) == (Ui { views: final(self).views, ..*old(self) })
            },
    {
        if self.views.len() == 0 {
            return Action::Error(String::from_str("No Gopher page loaded."));
        }
        let f = self.focused;
        self.views[f].respond(key)
    }

    /// Record the terminal size, pass it to the focused view, and
    /// render that view; with nothing open this is the fatal
    /// no-focused-view condition.
    pub fn render_view(&mut self, cols: usize, rows: usize) -> (r: Result<String, String>)
        requires
            old(self).wf(),
        ensures
            final(self).wf(),
            old(self).views@.len() == 0 ==> r is Err,
            old(self).views@.len() > 0 ==> (r matches Ok(s) && s@ == final(self).views@[final(self).focused as int].spec_render()),
            final(self).views@.len() == old(self).views@.len(),
            final(self).focused == old(self).focused,
            final(self).running == old(self).running,
            final(self).status == old(self).status,
    {
        self.cols = cols;
        self.rows = rows;
        if self.views.len() == 0 {
            return Err(String::from_str("fatal: no focused view"));
        }
        let f = self.focused;
        self.views[f].term_size(cols, rows);
        let s = self.views[f].render();
        Ok(s)
    }

    /// Is the main loop still running?
    pub fn is_running(&self) -> (r: bool)
        ensures
            r == self.running,
    {
        self.running
    }

    /// Does the screen need a full redraw?
    pub fn is_dirty(&self) -> (r: bool)
        ensures
            r == self.dirty,
    {
        self.dirty
    }

    /// Note that the screen was fully redrawn.
    pub fn mark_drawn(&mut self)
        ensures
            *final(self) == (Ui { dirty: false, ..*old(self) }),
    {
        self.dirty = false;
    }

    /// Ask for a full redraw.
    pub fn set_dirty(&mut self)
        ensures
            *final(self) == (Ui { dirty: true, ..*old(self) }),
    {
        self.dirty = true;
    }

    /// The status line's current text.
    pub fn status_str(&self) -> (s: &str)
        ensures
            s@ == self.status@,
    {
        self.status.as_str()
    }

    /// How many views are open.
    pub fn views_count(&self) -> (n: usize)
        ensures
            n == self.views@.len(),
    {
        self.views.len()
    }

    /// Did the focused page come over TLS? False with nothing open.
    pub fn focused_tls(&self) -> (r: bool)
        requires
            self.wf(),
        ensures
            self.views@.len() > 0 ==> r == match spec_focused(*self) {
                Page::Menu(m) => m.tls,
                Page::Text(t) => t.tls,
            },
            self.views@.len() == 0 ==> r == false,
    {
        if self.views.len() > 0 {
            self.views[self.focused].is_tls()
        } else {
            false
        }
    }

    /// Did the focused page come over an anonymizing transport?
    pub fn focused_tor(&self) -> (r: bool)
        requires
            self.wf(),
        ensures
            self.views@.len() > 0 ==> r == match spec_focused(*self) {
                Page::Menu(m) => m.tor,
                Page::Text(t) => t.tor,
            },
            self.views@.len() == 0 ==> r == false,
    {
        if self.views.len() > 0 {
            self.views[self.focused].is_tor()
        } else {
            false
        }
    }
}

} // verus!
