//! Gopher menu parsing and the menu view. Parsing is total and
//! line-local: any byte sequence yields an ordered list of `MenuLine`
//! records, one malformed line never affecting the rest.

use vstd::prelude::*;

use crate::action::{Action, Key};
use crate::gopher::{spec_from, spec_is_link, spec_to_char, type_char_str, Type};
use crate::strutil::{
    clone_chars, contains_chars_ci, digit_val, find_char, join_lines, lemma_find_char,
    spec_contains_ci, spec_digit_val, spec_find_char, spec_first_eol, spec_is_digit, spec_join,
    spec_split_lines, spec_starts_with, starts_with_str, substr_copy, views_of,
};
use crate::SCROLL_LINES;

verus! {

/// One line of a parsed menu: a typed link, or an informational line.
pub struct MenuLine {
    /// Decoded item type; Info for unparseable lines.
    pub typ: Type,
    /// Display text, without the leading type character.
    pub text: String,
    /// Selector field; empty on info lines.
    pub sel: String,
    /// Host field; empty on info lines.
    pub host: String,
    /// Port field, verbatim; "70" when a link line omits it.
    pub port: String,
}

/// Mathematical model of a `MenuLine`.
pub ghost struct LineModel {
    /// Item type.
    pub typ: Type,
    /// Display text characters.
    pub text: Seq<char>,
    /// Selector characters.
    pub sel: Seq<char>,
    /// Host characters.
    pub host: Seq<char>,
    /// Port characters.
    pub port: Seq<char>,
}

impl View for MenuLine {
    type V = LineModel;

    open spec fn view(&self) -> LineModel {
        LineModel {
            typ: self.typ,
            text: self.text@,
            sel: self.sel@,
            host: self.host@,
            port: self.port@,
        }
    }
}

/// An informational line: display text only, no destination.
pub open spec fn spec_info_line(text: Seq<char>) -> LineModel {
    LineModel {
        typ: Type::Info,
        text,
        sel: Seq::<char>::empty(),
        host: Seq::<char>::empty(),
        port: Seq::<char>::empty(),
    }
}

/// The model that lenient parsing assigns to one raw menu line: tab
/// separated `{typechar}{text}`, selector, host, port. A line whose
/// first character is no known type code (the `.` terminator included)
/// folds into an info line carrying the raw text; a typed line with no
/// selector field folds into an info line too; a missing host is empty
/// and a missing port is the default 70.
pub open spec fn spec_parse_line(l: Seq<char>) -> LineModel {
    if l.len() == 0 {
        spec_info_line(l)
    } else if spec_from(l[0]) is None {
        spec_info_line(l)
    } else {
        let t = spec_from(l[0])->Some_0;
        let t1 = spec_find_char(l, '\t');
        if t == Type::Info {
            spec_info_line(l.subrange(1, t1))
        } else if t1 >= l.len() {
            spec_info_line(l)
        } else {
            let text = l.subrange(1, t1);
            let r1 = l.subrange(t1 + 1, l.len() as int);
            let t2 = spec_find_char(r1, '\t');
            let sel = r1.subrange(0, t2);
            if t2 >= r1.len() {
                LineModel { typ: t, text, sel, host: Seq::<char>::empty(), port: "70"@ }
            } else {
                let r2 = r1.subrange(t2 + 1, r1.len() as int);
                let t3 = spec_find_char(r2, '\t');
                let host = r2.subrange(0, t3);
                if t3 >= r2.len() {
                    LineModel { typ: t, text, sel, host, port: "70"@ }
                } else {
                    let r3 = r2.subrange(t3 + 1, r2.len() as int);
                    let t4 = spec_find_char(r3, '\t');
                    LineModel { typ: t, text, sel, host, port: r3.subrange(0, t4) }
                }
            }
        }
    }
}

/// Build an informational `MenuLine`.
fn info_line(text: String) -> (r: MenuLine)
    ensures
        r@ == spec_info_line(text@),
{
    let sel = String::new();
    let host = String::new();
    let port = String::new();
    proof {
        assert(sel@ =~= Seq::<char>::empty());
        assert(host@ =~= Seq::<char>::empty());
        assert(port@ =~= Seq::<char>::empty());
    }
    MenuLine { typ: Type::Info, text, sel, host, port }
}

/// Parse one raw menu line, leniently and totally.
pub fn parse_line(l: &str) -> (r: MenuLine)
    ensures
        r@ == spec_parse_line(l@),
{
    let n = l.unicode_len();
    if n == 0 {
        let text = substr_copy(l, 0, 0);
        proof {
            assert(text@ =~= l@);
        }
        return info_line(text);
    }
    let c0 = l.get_char(0);
    match Type::from(c0) {
        None => {
            let text = substr_copy(l, 0, n);
            proof {
                assert(text@ =~= l@);
            }
            info_line(text)
        },
        Some(t) => {
            let t1 = find_char(l, '\t');
            proof {
                lemma_find_char(l@, '\t');
                assert(t1 >= 1) by {
                    if t1 == 0 {
                        assert(l@[0] == '\t');
                    }
                }
            }
            if t == Type::Info {
                info_line(substr_copy(l, 1, t1))
            } else if t1 >= n {
                let text = substr_copy(l, 0, n);
                proof {
                    assert(text@ =~= l@);
                }
                info_line(text)
            } else {
                let text = substr_copy(l, 1, t1);
                let r1 = l.substring_char(t1 + 1, n);
                let r1n = r1.unicode_len();
                let t2 = find_char(r1, '\t');
                proof {
                    lemma_find_char(r1@, '\t');
                }
                let sel = substr_copy(r1, 0, t2);
                if t2 >= r1n {
                    let host = String::new();
                    let port = String::from_str("70");
                    proof {
                        assert(host@ =~= Seq::<char>::empty());
                    }
                    MenuLine { typ: t, text, sel, host, port }
                } else {
                    let r2 = r1.substring_char(t2 + 1, r1n);
                    let r2n = r2.unicode_len();
                    let t3 = find_char(r2, '\t');
                    proof {
                        lemma_find_char(r2@, '\t');
                    }
                    let host = substr_copy(r2, 0, t3);
                    if t3 >= r2n {
                        let port = String::from_str("70");
                        MenuLine { typ: t, text, sel, host, port }
                    } else {
                        let r3 = r2.substring_char(t3 + 1, r2n);
                        let r3n = r3.unicode_len();
                        let t4 = find_char(r3, '\t');
                        proof {
                            lemma_find_char(r3@, '\t');
                        }
                        let port = substr_copy(r3, 0, t4);
                        MenuLine { typ: t, text, sel, host, port }
                    }
                }
            }
        },
    }
}

/// The models of a sequence of parsed lines.
pub open spec fn models(s: Seq<MenuLine>) -> Seq<LineModel> {
    s.map_values(|ml: MenuLine| ml@)
}

/// The model of a whole parsed menu: each raw line parsed in order.
pub open spec fn spec_parse_menu(s: Seq<char>) -> Seq<LineModel> {
    spec_split_lines(s).map_values(|l: Seq<char>| spec_parse_line(l))
}

/// Parse a raw menu response. Total: any input, with or without a
/// terminator line, yields zero or more records, in received order.
pub fn parse_menu(raw: &str) -> (r: Vec<MenuLine>)
    ensures
        models(r@) == spec_parse_menu(raw@),
{
    let mut out: Vec<MenuLine> = Vec::new();
    parse_menu_into(raw, &mut out);
    proof {
        assert(models(out@) =~= Seq::<LineModel>::empty() + spec_parse_menu(raw@));
    }
    out
}

/// Append the parsed lines of `s` to `out`.
fn parse_menu_into(s: &str, out: &mut Vec<MenuLine>)
    ensures
        models(final(out)@) == models(old(out)@) + spec_parse_menu(s@),
    decreases s@.len(),
{
    let n = s.unicode_len();
    if n == 0 {
        proof {
            assert(spec_parse_menu(s@) =~= Seq::<LineModel>::empty());
            assert(models(out@) =~= models(out@) + spec_parse_menu(s@));
        }
        return ;
    }
    let er = find_char(s, '\r');
    let en = find_char(s, '\n');
    proof {
        lemma_find_char(s@, '\r');
        lemma_find_char(s@, '\n');
    }
    let e = if er < en {
        er
    } else {
        en
    };
    assert(e == spec_first_eol(s@));
    let line = s.substring_char(0, e);
    let ml = parse_line(line);
    out.push(ml);
    if e >= n {
        proof {
            assert(spec_split_lines(s@) =~= seq![s@.subrange(0, e as int)]);
            assert(models(out@) =~= models(old(out)@) + spec_parse_menu(s@));
        }
        return ;
    }
    let next = if s.get_char(e) == '\r' && e + 1 < n && s.get_char(e + 1) == '\n' {
        e + 2
    } else {
        e + 1
    };
    let rest = s.substring_char(next, n);
    parse_menu_into(rest, out);
    proof {
        assert(spec_split_lines(s@) == seq![s@.subrange(0, e as int)] + spec_split_lines(
            rest@,
        ));
        assert(models(out@) =~= models(old(out)@) + spec_parse_menu(s@));
    }
}

/// The URL a menu link leads to. A selector of the form `URL:target`
/// carries the target itself; a telnet line addresses its host and
/// port; any other link is a Gopher URL built from host, port, type
/// code and selector.
pub open spec fn spec_link_url(l: LineModel) -> Seq<char> {
    if spec_starts_with(l.sel, "URL:"@) {
        l.sel.subrange("URL:"@.len() as int, l.sel.len() as int)
    } else if l.typ == Type::Telnet {
        "telnet://"@ + l.host + ":"@ + l.port
    } else {
        "gopher://"@ + l.host + ":"@ + l.port + "/"@ + seq![spec_to_char(l.typ)] + l.sel
    }
}

/// Build the URL a menu line links to.
pub fn link_url(ml: &MenuLine) -> (u: String)
    ensures
        u@ == spec_link_url(ml@),
{
    let n = ml.sel.as_str().unicode_len();
    if starts_with_str(ml.sel.as_str(), "URL:") {
        proof {
            reveal_strlit("URL:");
        }
        substr_copy(ml.sel.as_str(), 4, n)
    } else if ml.typ.is_telnet() {
        let mut u = String::from_str("telnet://");
        u.append(ml.host.as_str());
        u.append(":");
        u.append(ml.port.as_str());
        u
    } else {
        let mut u = String::from_str("gopher://");
        u.append(ml.host.as_str());
        u.append(":");
        u.append(ml.port.as_str());
        u.append("/");
        u.append(type_char_str(ml.typ));
        u.append(ml.sel.as_str());
        u
    }
}

/// Indices of the link lines of a menu, in display order.
pub open spec fn spec_link_indices(ls: Seq<LineModel>) -> Seq<int>
    decreases ls.len(),
{
    if ls.len() == 0 {
        Seq::<int>::empty()
    } else {
        let pre = spec_link_indices(ls.drop_last());
        if spec_is_link(ls.last().typ) {
            pre.push(ls.len() - 1)
        } else {
            pre
        }
    }
}

/// Every link index is in range and names a link line.
pub proof fn lemma_link_indices(ls: Seq<LineModel>)
    ensures
        forall|j: int|
            0 <= j < spec_link_indices(ls).len() ==> 0 <= #[trigger] spec_link_indices(ls)[j]
                < ls.len() && spec_is_link(ls[spec_link_indices(ls)[j]].typ),
    decreases ls.len(),
{
    if ls.len() > 0 {
        let pre = spec_link_indices(ls.drop_last());
        lemma_link_indices(ls.drop_last());
        assert forall|j: int|
            0 <= j < spec_link_indices(ls).len() implies 0 <= #[trigger] spec_link_indices(ls)[j]
            < ls.len() && spec_is_link(ls[spec_link_indices(ls)[j]].typ) by {
            if j < pre.len() {
                assert(ls.drop_last()[pre[j]] == ls[pre[j]]);
            }
        }
    }
}

/// A navigable menu view: parsed lines, the ordered link index, the
/// current selection among the links, a scroll offset, an incremental
/// search buffer, and the page's identity and connection flags.
pub struct Menu {
    /// The URL this menu came from.
    pub url: String,
    /// The verbatim response this menu was parsed from.
    pub raw: String,
    /// Parsed lines, in received order.
    pub lines: Vec<MenuLine>,
    /// Indices into `lines` of the link lines, in display order.
    pub links: Vec<usize>,
    /// Selection: an index into `links`; 0 when there are no links.
    pub link: usize,
    /// Index into `lines` of the first visible row.
    pub scroll: usize,
    /// Pending incremental-search query.
    pub query: Vec<char>,
    /// Came over TLS.
    pub tls: bool,
    /// Came over an anonymizing transport.
    pub tor: bool,
    /// Viewport width.
    pub cols: usize,
    /// Viewport height.
    pub rows: usize,
}

/// Number of links of a menu.
pub open spec fn spec_count(m: Menu) -> int {
    m.links@.len() as int
}

/// Line index of the selected link.
pub open spec fn spec_sel_line(m: Menu) -> int {
    m.links@[m.link as int] as int
}

/// Rows available to content: the viewport height less the status
/// line, at least one.
pub open spec fn spec_view_rows(m: Menu) -> int {
    if m.rows > 1 {
        m.rows - 1
    } else {
        1
    }
}

/// Minimal scroll adjustment that keeps line `li` inside a window of
/// `h` rows starting at `scroll`.
pub open spec fn spec_adjust(scroll: int, li: int, h: int) -> int {
    if li < scroll {
        li
    } else if li >= scroll + h {
        li - h + 1
    } else {
        scroll
    }
}

/// Selection moved by `amount` among the links, clamped to the ends.
pub open spec fn spec_move_target(link: int, count: int, down: bool, amount: int) -> int {
    if down {
        if link + amount >= count - 1 {
            count - 1
        } else {
            link + amount
        }
    } else {
        if amount >= link {
            0
        } else {
            link - amount
        }
    }
}

/// Two menus show the same page: everything but selection, scroll and
/// search state agrees.
pub open spec fn spec_same_page(a: Menu, b: Menu) -> bool {
    &&& a.url == b.url
    &&& a.raw == b.raw
    &&& a.lines == b.lines
    &&& a.links == b.links
    &&& a.tls == b.tls
    &&& a.tor == b.tor
    &&& a.cols == b.cols
    &&& a.rows == b.rows
}

/// A navigation keystroke moved the selection: the query clears, the
/// selection moves with clamping, and the scroll follows minimally.
pub open spec fn spec_moved(pre: Menu, post: Menu, down: bool, amount: int, a: Action) -> bool {
    &&& spec_same_page(pre, post)
    &&& post.query@ == Seq::<char>::empty()
    &&& if spec_count(pre) == 0 {
        post.link == pre.link && post.scroll == pre.scroll && a is NoOp
    } else {
        &&& post.link as int == spec_move_target(pre.link as int, spec_count(pre), down, amount)
        &&& post.scroll as int == spec_adjust(pre.scroll as int, spec_sel_line(post), spec_view_rows(pre))
        &&& a is Redraw
    }
}

/// `a` opens the selected link of `m`: its display text as title, its
/// link URL as destination.
pub open spec fn spec_open_action(m: Menu, a: Action) -> bool {
    &&& a is Open
    &&& a->Open_0@ == models(m.lines@)[spec_sel_line(m)].text
    &&& a->Open_1@ == spec_link_url(models(m.lines@)[spec_sel_line(m)])
}

/// Enter: the query clears and the selected link opens, if any.
pub open spec fn spec_opened(pre: Menu, post: Menu, a: Action) -> bool {
    &&& spec_same_page(pre, post)
    &&& post.query@ == Seq::<char>::empty()
    &&& post.link == pre.link
    &&& post.scroll == pre.scroll
    &&& if spec_count(pre) == 0 {
        a is NoOp
    } else {
        spec_open_action(pre, a)
    }
}

/// A digit keystroke addresses the link at that one-based position:
/// it opens directly when at most nine links exist (digits address
/// them unambiguously), and only selects when there are more.
pub open spec fn spec_digit(pre: Menu, post: Menu, d: int, a: Action) -> bool {
    &&& spec_same_page(pre, post)
    &&& post.query@ == Seq::<char>::empty()
    &&& if 1 <= d <= spec_count(pre) {
        &&& post.link as int == d - 1
        &&& post.scroll as int == spec_adjust(pre.scroll as int, spec_sel_line(post), spec_view_rows(pre))
        &&& if spec_count(pre) <= 9 {
            spec_open_action(post, a)
        } else {
            a is Redraw
        }
    } else {
        post.link == pre.link && post.scroll == pre.scroll && a is NoOp
    }
}

/// Link number `i` of `m` matches query `q`: its display text contains
/// `q`, ASCII-case-insensitively.
pub open spec fn spec_link_matches(m: Menu, i: int, q: Seq<char>) -> bool {
    spec_contains_ci(models(m.lines@)[m.links@[i] as int].text, q)
}

/// Position `k` steps after `link` in the cyclic order of `count`
/// links.
pub open spec fn spec_cyc(link: int, k: int, count: int) -> int {
    if link + k < count {
        link + k
    } else {
        link + k - count
    }
}

/// `k` is the distance to the first match of `q` strictly after the
/// selection of `m`, wrapping past the end.
pub open spec fn spec_first_match(m: Menu, q: Seq<char>, k: int) -> bool {
    &&& 1 <= k <= spec_count(m)
    &&& spec_link_matches(m, spec_cyc(m.link as int, k, spec_count(m)), q)
    &&& forall|j: int|
        1 <= j < k ==> !spec_link_matches(m, spec_cyc(m.link as int, j, spec_count(m)), q)
}

/// Some link matches `q` at a positive cyclic distance.
pub open spec fn spec_any_match(m: Menu, q: Seq<char>) -> bool {
    exists|k: int|
        1 <= k <= spec_count(m) && spec_link_matches(
            m,
            spec_cyc(m.link as int, k, spec_count(m)),
            q,
        )
}

/// A printable keystroke extends the pending query and jumps to the
/// first match after the selection, wrapping; with no match the query
/// and the selection stay as they were.
pub open spec fn spec_searched(pre: Menu, post: Menu, c: char, a: Action) -> bool {
    let q2 = pre.query@.push(c);
    &&& spec_same_page(pre, post)
    &&& if spec_count(pre) > 0 && spec_any_match(pre, q2) {
        &&& post.query@ == q2
        &&& (exists|k: int|
            #[trigger] spec_first_match(pre, q2, k) && post.link as int == spec_cyc(
                pre.link as int,
                k,
                spec_count(pre),
            ))
        &&& post.scroll as int == spec_adjust(pre.scroll as int, spec_sel_line(post), spec_view_rows(pre))
        &&& a is Redraw
    } else {
        post.query == pre.query && post.link == pre.link && post.scroll == pre.scroll && a is NoOp
    }
}

/// Backspace shortens a pending query; with no query pending the key
/// falls through to the controller.
pub open spec fn spec_query_back(pre: Menu, post: Menu, key: Key, a: Action) -> bool {
    &&& spec_same_page(pre, post)
    &&& post.link == pre.link
    &&& post.scroll == pre.scroll
    &&& if pre.query@.len() > 0 {
        post.query@ == pre.query@.drop_last() && a is Redraw
    } else {
        post.query == pre.query && a == Action::Keypress(key)
    }
}

/// Escape abandons a pending query; with none pending the key falls
/// through to the controller.
pub open spec fn spec_query_cancel(pre: Menu, post: Menu, a: Action) -> bool {
    &&& spec_same_page(pre, post)
    &&& post.link == pre.link
    &&& post.scroll == pre.scroll
    &&& if pre.query@.len() > 0 {
        post.query@ == Seq::<char>::empty() && a is Redraw
    } else {
        post.query == pre.query && a == Action::Keypress(Key::Esc)
    }
}

/// What one keystroke does to a menu: the whole input state machine,
/// by key.
pub open spec fn spec_menu_respond(pre: Menu, post: Menu, key: Key, a: Action) -> bool {
    if key == Key::Up || key == Key::Ctrl('p') {
        spec_moved(pre, post, false, 1, a)
    } else if key == Key::Down || key == Key::Ctrl('n') {
        spec_moved(pre, post, true, 1, a)
    } else if key == Key::PageUp || key == Key::Char('-') {
        spec_moved(pre, post, false, SCROLL_LINES as int, a)
    } else if key == Key::PageDown || key == Key::Char(' ') {
        spec_moved(pre, post, true, SCROLL_LINES as int, a)
    } else if key == Key::Char('\n') {
        spec_opened(pre, post, a)
    } else if key == Key::Backspace || key == Key::Delete {
        spec_query_back(pre, post, key, a)
    } else if key == Key::Esc {
        spec_query_cancel(pre, post, a)
    } else if key is Char && spec_is_digit(key->Char_0) {
        spec_digit(pre, post, spec_digit_val(key->Char_0) as int, a)
    } else if key is Char {
        spec_searched(pre, post, key->Char_0, a)
    } else {
        post == pre && a == Action::Keypress(key)
    }
}

impl Menu {
    /// Structural invariant: the link index is exactly the indices of
    /// the link lines, the selection is valid whenever links exist,
    /// and the scroll offset never passes the end.
    pub open spec fn wf(self) -> bool {
        &&& self.links@.map_values(|u: usize| u as int) == spec_link_indices(models(self.lines@))
        &&& forall|j: int|
            0 <= j < self.links@.len() ==> (#[trigger] self.links@[j] as int) < self.lines@.len()
                && spec_is_link(models(self.lines@)[self.links@[j] as int].typ)
        &&& (self.links@.len() > 0 ==> (self.link as int) < self.links@.len())
        &&& (self.links@.len() == 0 ==> self.link == 0)
        &&& self.scroll <= self.lines@.len()
    }

    /// Parse a raw response into a menu view for `url`.
    pub fn from(url: &str, raw: String, tls: bool, tor: bool) -> (m: Menu)
        ensures
            m.wf(),
            m.url@ == url@,
            m.raw == raw,
            models(m.lines@) == spec_parse_menu(raw@),
            m.link == 0,
            m.scroll == 0,
            m.query@ == Seq::<char>::empty(),
            m.tls == tls,
            m.tor == tor,
    {
        let lines = parse_menu(raw.as_str());
        let mut links: Vec<usize> = Vec::new();
        let mut i: usize = 0;
        proof {
            assert(links@.map_values(|u: usize| u as int) =~= spec_link_indices(
                models(lines@).subrange(0, 0),
            ));
        }
        while i < lines.len()
            invariant
                0 <= i <= lines@.len(),
                links@.map_values(|u: usize| u as int) == spec_link_indices(
                    models(lines@).subrange(0, i as int),
                ),
            decreases lines@.len() - i,
        {
            let ghost pre = models(lines@).subrange(0, i as int);
            let ghost ext = models(lines@).subrange(0, i + 1 as int);
            proof {
                assert(ext.drop_last() =~= pre);
                assert(ext.last() == lines@[i as int]@);
            }
            if lines[i].typ.is_link() {
                links.push(i);
                proof {
                    assert(links@.map_values(|u: usize| u as int) =~= spec_link_indices(ext));
                }
            }
            i += 1;
        }
        proof {
            assert(models(lines@).subrange(0, lines@.len() as int) =~= models(lines@));
            lemma_link_indices(models(lines@));
            assert forall|j: int| 0 <= j < links@.len() implies (#[trigger] links@[j] as int)
                < lines@.len() && spec_is_link(models(lines@)[links@[j] as int].typ) by {
                assert(links@.map_values(|u: usize| u as int)[j] == links@[j] as int);
            }
        }
        let query: Vec<char> = Vec::new();
        proof {
            assert(query@ =~= Seq::<char>::empty());
        }
        Menu {
            url: url.to_owned(),
            raw,
            lines,
            links,
            link: 0,
            scroll: 0,
            query,
            tls,
            tor,
            cols: 80,
            rows: 24,
        }
    }

    /// Rows available to menu content.
    pub fn view_rows(&self) -> (h: usize)
        ensures
            h as int == spec_view_rows(*self),
            h >= 1,
    {
        if self.rows > 1 {
            self.rows - 1
        } else {
            1
        }
    }

    /// Scroll just far enough to bring the selected link into view.
    fn adjust_scroll(&mut self)
        requires
            old(self).wf(),
            old(self).links@.len() > 0,
        ensures
            final(self).wf(),
            spec_same_page(*old(self), *final(self)),
            final(self).link == old(self).link,
            final(self).query == old(self).query,
            final(self).scroll as int == spec_adjust(
                old(self).scroll as int,
                spec_sel_line(*old(self)),
                spec_view_rows(*old(self)),
            ),
    {
        let li = self.links[self.link];
        let h = self.view_rows();
        if li < self.scroll {
            self.scroll = li;
        } else if li - self.scroll >= h {
            self.scroll = li - (h - 1);
        }
    }

    /// Move the selection up or down by `amount` links, clamped, and
    /// keep it visible. A navigation keystroke abandons any pending
    /// search query.
    pub fn move_sel(&mut self, down: bool, amount: usize) -> (a: Action)
        requires
            old(self).wf(),
        ensures
            final(self).wf(),
            spec_moved(*old(self), *final(self), down, amount as int, a),
    {
        self.query.clear();
        let count = self.links.len();
        if count == 0 {
            return Action::NoOp;
        }
        let target: usize = if down {
            let room = count - 1 - self.link;
            if amount >= room {
                count - 1
            } else {
                self.link + amount
            }
        } else {
            if amount >= self.link {
                0
            } else {
                self.link - amount
            }
        };
        self.link = target;
        self.adjust_scroll();
        Action::Redraw
    }

    /// The action that opens the currently selected link, if any.
    pub fn open_selected(&self) -> (a: Action)
        requires
            self.wf(),
        ensures
            spec_count(*self) == 0 ==> a is NoOp,
            spec_count(*self) > 0 ==> spec_open_action(*self, a),
    {
        if self.links.len() == 0 {
            return Action::NoOp;
        }
        let li = self.links[self.link];
        let title = self.lines[li].text.clone();
        let url = link_url(&self.lines[li]);
        Action::Open(title, url)
    }

    /// A digit keystroke: open the link at that one-based position
    /// directly when at most nine links exist, select it otherwise.
    pub fn handle_digit(&mut self, d: usize) -> (a: Action)
        requires
            old(self).wf(),
            d <= 9,
        ensures
            final(self).wf(),
            spec_digit(*old(self), *final(self), d as int, a),
    {
        self.query.clear();
        let count = self.links.len();
        if 1 <= d && d <= count {
            self.link = d - 1;
            self.adjust_scroll();
            if count <= 9 {
                self.open_selected()
            } else {
                Action::Redraw
            }
        } else {
            Action::NoOp
        }
    }

    /// A printable keystroke: extend the pending query and jump to the
    /// first link after the selection whose text contains it,
    /// wrapping past the end; keep everything when nothing matches.
    pub fn search_char(&mut self, c: char) -> (a: Action)
        requires
            old(self).wf(),
        ensures
            final(self).wf(),
            spec_searched(*old(self), *final(self), c, a),
    {
        let count = self.links.len();
        let mut q2 = clone_chars(&self.query);
        q2.push(c);
        if count == 0 {
            return Action::NoOp;
        }
        let mut cur = self.link;
        let mut steps = count;
        while steps > 0
            invariant
                old(self) == self,
                self.wf(),
                count == self.links@.len(),
                count > 0,
                q2@ == self.query@.push(c),
                0 <= steps <= count,
                cur as int == spec_cyc(self.link as int, count - steps, count as int),
                0 <= cur < count,
                forall|j: int|
                    1 <= j <= count - steps ==> !spec_link_matches(
                        *self,
                        spec_cyc(self.link as int, j, count as int),
                        q2@,
                    ),
            decreases steps,
        {
            let ghost k: int = count - steps + 1;
            cur = if cur + 1 >= count {
                0
            } else {
                cur + 1
            };
            assert(cur as int == spec_cyc(self.link as int, k, count as int));
            let li = self.links[cur];
            if contains_chars_ci(self.lines[li].text.as_str(), &q2) {
                assert(spec_first_match(*self, q2@, k));
                self.query = q2;
                self.link = cur;
                self.adjust_scroll();
                return Action::Redraw;
            }
            steps -= 1;
        }
        assert(!spec_any_match(*self, q2@));
        Action::NoOp
    }

    /// One rendered row: a selection marker and the line's text.
    pub open spec fn spec_render_line(self, i: int) -> Seq<char> {
        (if self.links@.len() > 0 && self.links@[self.link as int] as int == i {
            "> "@
        } else {
            "  "@
        }) + models(self.lines@)[i].text
    }

    /// The visible viewport: the rows from the scroll offset on, as
    /// many as fit, joined with newlines.
    pub open spec fn spec_render(self) -> Seq<char> {
        let lo = self.scroll as int;
        let hi = if self.scroll + spec_view_rows(self) <= self.lines@.len() {
            self.scroll as int + spec_view_rows(self)
        } else {
            self.lines@.len() as int
        };
        spec_join(Seq::new((hi - lo) as nat, |r: int| self.spec_render_line(lo + r)))
    }

    /// Render the current viewport as text.
    pub fn render(&self) -> (r: String)
        requires
            self.wf(),
        ensures
            r@ == self.spec_render(),
    {
        let h = self.view_rows();
        let lo = self.scroll;
        let hi = if self.lines.len() - self.scroll >= h {
            self.scroll + h
        } else {
            self.lines.len()
        };
        let mut rows: Vec<String> = Vec::new();
        let mut i = lo;
        while i < hi
            invariant
                self.wf(),
                lo == self.scroll,
                lo <= i <= hi <= self.lines@.len(),
                rows@.len() == i - lo,
                forall|r: int|
                    0 <= r < rows@.len() ==> #[trigger] rows@[r]@ == self.spec_render_line(lo + r),
            decreases hi - i,
        {
            let selected = self.links.len() > 0 && self.links[self.link] == i;
            let mut row = String::from_str(if selected {
                "> "
            } else {
                "  "
            });
            row.append(self.lines[i].text.as_str());
            proof {
                assert(row@ == self.spec_render_line(i as int));
            }
            let ghost rows0 = rows@;
            rows.push(row);
            proof {
                assert forall|r: int| 0 <= r < rows@.len() implies #[trigger] rows@[r]@
                    == self.spec_render_line(lo + r) by {
                    if r < rows0.len() {
                        assert(rows@[r] == rows0[r]);
                    } else {
                        assert(rows@[r] == row);
                    }
                }
            }
            i += 1;
        }
        let out = join_lines(&rows, 0, rows.len());
        proof {
            assert(rows@.subrange(0, rows@.len() as int) =~= rows@);
            assert(views_of(rows@) =~= Seq::new(
                (hi - lo) as nat,
                |r: int| self.spec_render_line(lo + r),
            ));
        }
        out
    }

    /// Respond to one keystroke: the menu's whole input state machine.
    /// Arrows and their control twins move the selection; paging keys
    /// move it by a page; Enter opens; digits address links by
    /// position; printable characters search incrementally; anything
    /// else falls through to the controller.
    pub fn respond(&mut self, key: Key) -> (a: Action)
        requires
            old(self).wf(),
        ensures
            final(self).wf(),
            spec_menu_respond(*old(self), *final(self), key, a),
    {
        if key == Key::Up || key == Key::Ctrl('p') {
            self.move_sel(false, 1)
        } else if key == Key::Down || key == Key::Ctrl('n') {
            self.move_sel(true, 1)
        } else if key == Key::PageUp || key == Key::Char('-') {
            self.move_sel(false, SCROLL_LINES)
        } else if key == Key::PageDown || key == Key::Char(' ') {
            self.move_sel(true, SCROLL_LINES)
        } else if key == Key::Char('\n') {
            self.query.clear();
            self.open_selected()
        } else if key == Key::Backspace || key == Key::Delete {
            if self.query.len() > 0 {
                self.query.pop();
                Action::Redraw
            } else {
                Action::Keypress(key)
            }
        } else if key == Key::Esc {
            if self.query.len() > 0 {
                self.query.clear();
                Action::Redraw
            } else {
                Action::Keypress(Key::Esc)
            }
        } else {
            match key {
                Key::Char(c) => {
                    match digit_val(c) {
                        Some(d) => self.handle_digit(d as usize),
                        None => self.search_char(c),
                    }
                },
                _ => Action::Keypress(key),
            }
        }
    }

    /// Record a new viewport size.
    pub fn term_size(&mut self, cols: usize, rows: usize)
        requires
            old(self).wf(),
        ensures
            final(self).wf(),
            *final(self) == (Menu { cols, rows, ..*old(self) }),
    {
        self.cols = cols;
        self.rows = rows;
    }
}

} // verus!
