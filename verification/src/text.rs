//! The text view: a scrollable page of plain text with a line-wrap
//! cache, rebuilt whenever the viewport width changes, and a wide mode
//! that shows raw lines unwrapped.

use vstd::prelude::*;

use crate::action::{Action, Key};
use crate::strutil::{join_lines, spec_join, spec_split_lines, split_lines, substr_copy, views_of};
use crate::{MAX_COLS, SCROLL_LINES};

verus! {

/// A line hard-wrapped into pieces of at most `w` characters. A line
/// that fits (the empty line included) is a single piece; a
/// non-positive width disables wrapping.
pub open spec fn spec_wrap_line(l: Seq<char>, w: int) -> Seq<Seq<char>>
    decreases l.len(),
{
    if w < 1 || l.len() <= w {
        seq![l]
    } else {
        seq![l.subrange(0, w)] + spec_wrap_line(l.subrange(w, l.len() as int), w)
    }
}

/// All lines wrapped in order.
pub open spec fn spec_wrap_all(ls: Seq<Seq<char>>, w: int) -> Seq<Seq<char>>
    decreases ls.len(),
{
    if ls.len() == 0 {
        Seq::<Seq<char>>::empty()
    } else {
        spec_wrap_all(ls.drop_last(), w) + spec_wrap_line(ls.last(), w)
    }
}

/// Concatenation of a sequence of character sequences.
pub open spec fn spec_concat(ls: Seq<Seq<char>>) -> Seq<char>
    decreases ls.len(),
{
    if ls.len() == 0 {
        Seq::<char>::empty()
    } else {
        spec_concat(ls.drop_last()) + ls.last()
    }
}

proof fn lemma_concat_cons(x: Seq<char>, rest: Seq<Seq<char>>)
    ensures
        spec_concat(seq![x] + rest) == x + spec_concat(rest),
    decreases rest.len(),
{
    let s = seq![x] + rest;
    if rest.len() == 0 {
        assert(s.len() == 1);
        assert(s.drop_last() =~= Seq::<Seq<char>>::empty());
        assert(s.last() == x);
        assert(spec_concat(s.drop_last()) =~= Seq::<char>::empty());
        assert(spec_concat(s) =~= x);
        assert(x + spec_concat(rest) =~= x);
    } else {
        assert(s.drop_last() =~= seq![x] + rest.drop_last());
        assert(s.last() == rest.last());
        lemma_concat_cons(x, rest.drop_last());
        assert(spec_concat(s) == spec_concat(s.drop_last()) + s.last());
        assert(spec_concat(s.drop_last()) == x + spec_concat(rest.drop_last()));
        assert(spec_concat(s) =~= x + spec_concat(rest));
    }
}

/// Wrapping never loses or reorders characters and never makes an
/// over-wide row: the pieces of a wrapped line concatenate back to the
/// line, each piece fits the width, there is always at least one
/// piece, and a line wider than the width takes at least two.
pub proof fn lemma_wrap_line(l: Seq<char>, w: int)
    requires
        w >= 1,
    ensures
        spec_concat(spec_wrap_line(l, w)) == l,
        forall|i: int|
            0 <= i < spec_wrap_line(l, w).len() ==> #[trigger] spec_wrap_line(l, w)[i].len() <= w,
        spec_wrap_line(l, w).len() >= 1,
        l.len() > w ==> spec_wrap_line(l, w).len() >= 2,
    decreases l.len(),
{
    if l.len() <= w {
        assert(seq![l].drop_last() =~= Seq::<Seq<char>>::empty());
        assert(spec_concat(seq![l].drop_last()) =~= Seq::<char>::empty());
        assert(spec_wrap_line(l, w) == seq![l]);
        assert(spec_concat(seq![l]) == spec_concat(seq![l].drop_last()) + seq![l].last());
        assert(spec_concat(spec_wrap_line(l, w)) =~= l);
    } else {
        let head = l.subrange(0, w);
        let tail = l.subrange(w, l.len() as int);
        lemma_wrap_line(tail, w);
        lemma_concat_cons(head, spec_wrap_line(tail, w));
        assert(spec_wrap_line(l, w) == seq![head] + spec_wrap_line(tail, w));
        assert(spec_concat(spec_wrap_line(l, w)) == head + spec_concat(spec_wrap_line(tail, w)));
        assert(head + tail =~= l);
        assert(spec_concat(spec_wrap_line(l, w)) =~= l);
        assert forall|i: int| 0 <= i < spec_wrap_line(l, w).len() implies #[trigger] spec_wrap_line(
            l,
            w,
        )[i].len() <= w by {
            if i > 0 {
                assert(spec_wrap_line(l, w)[i] == spec_wrap_line(tail, w)[i - 1]);
            }
        }
    }
}

/// Hard-wrap one line into pieces of at most `w` characters.
pub fn wrap_line(s: &str, w: usize) -> (r: Vec<String>)
    requires
        w >= 1,
    ensures
        views_of(r@) == spec_wrap_line(s@, w as int),
    decreases s@.len(),
{
    let n = s.unicode_len();
    let mut out: Vec<String> = Vec::new();
    if n <= w {
        out.push(substr_copy(s, 0, n));
        proof {
            assert(s@.subrange(0, n as int) =~= s@);
            assert(views_of(out@) =~= spec_wrap_line(s@, w as int));
        }
        return out;
    }
    let head = substr_copy(s, 0, w);
    let tail = s.substring_char(w, n);
    let mut rest = wrap_line(tail, w);
    let ghost rest0 = rest@;
    out.push(head);
    let ghost one = out@;
    out.append(&mut rest);
    proof {
        assert(out@ =~= one + rest0);
        assert forall|i: int| 0 <= i < out@.len() implies #[trigger] views_of(out@)[i]
            == spec_wrap_line(s@, w as int)[i] by {
            if i > 0 {
                assert(out@[i] == rest0[i - 1]);
                assert(views_of(rest0)[i - 1] == rest0[i - 1]@);
                assert(spec_wrap_line(s@, w as int)[i] == spec_wrap_line(tail@, w as int)[i - 1]);
            }
        }
        assert(views_of(out@) =~= spec_wrap_line(s@, w as int));
    }
    out
}

/// Wrap every line at width `w`, keeping order.
pub fn wrap_all(lines: &Vec<String>, w: usize) -> (r: Vec<String>)
    requires
        w >= 1,
    ensures
        views_of(r@) == spec_wrap_all(views_of(lines@), w as int),
{
    let mut out: Vec<String> = Vec::new();
    let mut i: usize = 0;
    proof {
        assert(views_of(lines@).subrange(0, 0) =~= Seq::<Seq<char>>::empty());
        assert(views_of(out@) =~= spec_wrap_all(views_of(lines@).subrange(0, 0), w as int));
    }
    while i < lines.len()
        invariant
            w >= 1,
            0 <= i <= lines@.len(),
            views_of(out@) == spec_wrap_all(views_of(lines@).subrange(0, i as int), w as int),
        decreases lines@.len() - i,
    {
        let mut pieces = wrap_line(lines[i].as_str(), w);
        let ghost pieces0 = pieces@;
        let ghost pre = out@;
        out.append(&mut pieces);
        proof {
            let ghost sub1 = views_of(lines@).subrange(0, i + 1 as int);
            assert(sub1.drop_last() =~= views_of(lines@).subrange(0, i as int));
            assert(sub1.last() == lines@[i as int]@);
            assert(out@ =~= pre + pieces0);
            assert forall|j: int| 0 <= j < out@.len() implies #[trigger] views_of(out@)[j]
                == spec_wrap_all(sub1, w as int)[j] by {
                if j < pre.len() {
                    assert(out@[j] == pre[j]);
                    assert(views_of(pre)[j] == pre[j]@);
                } else {
                    assert(out@[j] == pieces0[j - pre.len()]);
                    assert(views_of(pieces0)[j - pre.len()] == pieces0[j - pre.len()]@);
                }
            }
            assert(views_of(out@) =~= spec_wrap_all(sub1, w as int));
        }
        i += 1;
    }
    proof {
        assert(views_of(lines@).subrange(0, lines@.len() as int) =~= views_of(lines@));
    }
    out
}

/// The wrap width for a viewport: the configured maximum, or the
/// viewport width when it is narrower (a zero width falls back to the
/// maximum).
pub open spec fn spec_wrap_width(cols: int) -> int {
    if cols == 0 || cols > MAX_COLS as int {
        MAX_COLS as int
    } else {
        cols
    }
}

/// A scrollable text page: the raw body, its lines, a wrap cache for
/// the current width, a scroll offset and a wide-mode flag.
pub struct Text {
    /// The URL this page came from.
    pub url: String,
    /// The verbatim body.
    pub raw: String,
    /// The body split into raw lines.
    pub lines: Vec<String>,
    /// The raw lines wrapped at the current wrap width.
    pub wrapped: Vec<String>,
    /// Index of the first visible row.
    pub scroll: usize,
    /// Wide mode: show raw lines unwrapped.
    pub wide: bool,
    /// Came over TLS.
    pub tls: bool,
    /// Came over an anonymizing transport.
    pub tor: bool,
    /// Viewport width.
    pub cols: usize,
    /// Viewport height.
    pub rows: usize,
}

/// The rows a text view shows: raw lines in wide mode, wrapped rows
/// otherwise.
pub open spec fn spec_display(t: Text) -> Seq<Seq<char>> {
    if t.wide {
        views_of(t.lines@)
    } else {
        views_of(t.wrapped@)
    }
}

/// Rows available to content.
pub open spec fn spec_text_view_rows(t: Text) -> int {
    if t.rows > 1 {
        t.rows - 1
    } else {
        1
    }
}

/// The largest admissible scroll offset: content length less the
/// viewport, or zero when everything fits.
pub open spec fn spec_max_scroll(t: Text) -> int {
    if spec_display(t).len() > spec_text_view_rows(t) {
        spec_display(t).len() - spec_text_view_rows(t)
    } else {
        0
    }
}

/// The scroll offset moved by `amount`, clamped to the valid range.
pub open spec fn spec_text_scroll_to(t: Text, down: bool, amount: int) -> int {
    if down {
        if t.scroll + amount >= spec_max_scroll(t) {
            spec_max_scroll(t)
        } else {
            t.scroll + amount
        }
    } else {
        if amount >= t.scroll {
            0
        } else {
            t.scroll - amount
        }
    }
}

/// Two text views show the same page in the same mode.
pub open spec fn spec_text_same_page(a: Text, b: Text) -> bool {
    &&& a.url == b.url
    &&& a.raw == b.raw
    &&& a.lines == b.lines
    &&& a.wrapped == b.wrapped
    &&& a.wide == b.wide
    &&& a.tls == b.tls
    &&& a.tor == b.tor
    &&& a.cols == b.cols
    &&& a.rows == b.rows
}

/// What one keystroke does to a text view: arrows scroll by one row,
/// paging keys by a page, everything else falls through.
pub open spec fn spec_text_respond(pre: Text, post: Text, key: Key, a: Action) -> bool {
    if key == Key::Up || key == Key::Ctrl('p') {
        spec_text_same_page(pre, post) && post.scroll as int == spec_text_scroll_to(pre, false, 1)
            && a is Redraw
    } else if key == Key::Down || key == Key::Ctrl('n') {
        spec_text_same_page(pre, post) && post.scroll as int == spec_text_scroll_to(pre, true, 1)
            && a is Redraw
    } else if key == Key::PageUp || key == Key::Char('-') {
        spec_text_same_page(pre, post) && post.scroll as int == spec_text_scroll_to(
            pre,
            false,
            SCROLL_LINES as int,
        ) && a is Redraw
    } else if key == Key::PageDown || key == Key::Char(' ') {
        spec_text_same_page(pre, post) && post.scroll as int == spec_text_scroll_to(
            pre,
            true,
            SCROLL_LINES as int,
        ) && a is Redraw
    } else {
        post == pre && a == Action::Keypress(key)
    }
}

impl Text {
    /// Structural invariant: the wrap cache is exactly the lines
    /// wrapped at the current width, and the scroll offset is in
    /// range.
    pub open spec fn wf(self) -> bool {
        &&& views_of(self.lines@) == spec_split_lines(self.raw@)
        &&& views_of(self.wrapped@) == spec_wrap_all(
            views_of(self.lines@),
            spec_wrap_width(self.cols as int),
        )
        &&& self.scroll as int <= spec_max_scroll(self)
    }

    /// Build a text view for `url` from a raw body.
    pub fn from(url: &str, raw: String, wide: bool, tls: bool, tor: bool) -> (t: Text)
        ensures
            t.wf(),
            t.url@ == url@,
            t.raw == raw,
            t.wide == wide,
            t.tls == tls,
            t.tor == tor,
            t.scroll == 0,
            t.cols == 80,
            t.rows == 24,
    {
        let lines = split_lines(raw.as_str());
        let wrapped = wrap_all(&lines, wrap_width(80));
        Text {
            url: url.to_owned(),
            raw,
            lines,
            wrapped,
            scroll: 0,
            wide,
            tls,
            tor,
            cols: 80,
            rows: 24,
        }
    }

    /// Rows available to content.
    pub fn view_rows(&self) -> (h: usize)
        ensures
            h as int == spec_text_view_rows(*self),
            h >= 1,
    {
        if self.rows > 1 {
            self.rows - 1
        } else {
            1
        }
    }

    /// How many rows the view currently shows in total.
    pub fn display_len(&self) -> (n: usize)
        ensures
            n == spec_display(*self).len(),
    {
        if self.wide {
            self.lines.len()
        } else {
            self.wrapped.len()
        }
    }

    /// The largest admissible scroll offset.
    pub fn max_scroll(&self) -> (m: usize)
        ensures
            m as int == spec_max_scroll(*self),
    {
        let n = self.display_len();
        let h = self.view_rows();
        if n > h {
            n - h
        } else {
            0
        }
    }

    /// Scroll by `amount` rows, clamped to the content.
    pub fn scroll_by(&mut self, down: bool, amount: usize) -> (a: Action)
        requires
            old(self).wf(),
        ensures
            final(self).wf(),
            spec_text_same_page(*old(self), *final(self)),
            final(self).scroll as int == spec_text_scroll_to(*old(self), down, amount as int),
            a is Redraw,
    {
        let m = self.max_scroll();
        if down {
            let room = m - self.scroll;
            self.scroll = if amount >= room {
                m
            } else {
                self.scroll + amount
            };
        } else {
            self.scroll = if amount >= self.scroll {
                0
            } else {
                self.scroll - amount
            };
        }
        Action::Redraw
    }

    /// Respond to one keystroke: arrows scroll by a row, paging keys
    /// by a page, anything else falls through to the controller.
    pub fn respond(&mut self, key: Key) -> (a: Action)
        requires
            old(self).wf(),
        ensures
            final(self).wf(),
            spec_text_respond(*old(self), *final(self), key, a),
    {
        if key == Key::Up || key == Key::Ctrl('p') {
            self.scroll_by(false, 1)
        } else if key == Key::Down || key == Key::Ctrl('n') {
            self.scroll_by(true, 1)
        } else if key == Key::PageUp || key == Key::Char('-') {
            self.scroll_by(false, SCROLL_LINES)
        } else if key == Key::PageDown || key == Key::Char(' ') {
            self.scroll_by(true, SCROLL_LINES)
        } else {
            Action::Keypress(key)
        }
    }

    /// The visible viewport: rows from the scroll offset on, joined
    /// with newlines.
    pub open spec fn spec_render(self) -> Seq<char> {
        let d = spec_display(self);
        let lo = self.scroll as int;
        let hi = if self.scroll + spec_text_view_rows(self) <= d.len() {
            self.scroll as int + spec_text_view_rows(self)
        } else {
            d.len() as int
        };
        spec_join(d.subrange(lo, hi))
    }

    /// Render the current viewport as text.
    pub fn render(&self) -> (r: String)
        requires
            self.wf(),
        ensures
            r@ == self.spec_render(),
    {
        let n = self.display_len();
        let h = self.view_rows();
        proof {
            if spec_display(*self).len() > spec_text_view_rows(*self) {
                assert(self.scroll as int <= spec_display(*self).len() - spec_text_view_rows(
                    *self,
                ));
            }
        }
        let hi = if n - self.scroll >= h {
            self.scroll + h
        } else {
            n
        };
        let src: &Vec<String> = if self.wide {
            &self.lines
        } else {
            &self.wrapped
        };
        let out = join_lines(src, self.scroll, hi);
        proof {
            assert(views_of(src@.subrange(self.scroll as int, hi as int)) =~= spec_display(
                *self,
            ).subrange(self.scroll as int, hi as int));
        }
        out
    }

    /// Switch wide mode on or off, keeping the scroll offset in range
    /// for the newly shown rows.
    pub fn set_wide(&mut self, wide: bool)
        requires
            old(self).wf(),
        ensures
            final(self).wf(),
            final(self).wide == wide,
            final(self).url == old(self).url,
            final(self).raw == old(self).raw,
            final(self).lines == old(self).lines,
            final(self).wrapped == old(self).wrapped,
            final(self).tls == old(self).tls,
            final(self).tor == old(self).tor,
            final(self).cols == old(self).cols,
            final(self).rows == old(self).rows,
    {
        self.wide = wide;
        self.clamp_scroll();
    }

    /// Is wide mode on?
    pub fn wide(&self) -> (w: bool)
        ensures
            w == self.wide,
    {
        self.wide
    }

    /// Pull the scroll offset back into range.
    fn clamp_scroll(&mut self)
        ensures
            *final(self) == (Text { scroll: final(self).scroll, ..*old(self) }),
            final(self).scroll as int <= spec_max_scroll(*final(self)),
            old(self).scroll as int <= spec_max_scroll(*old(self)) ==> final(self).scroll == old(
                self,
            ).scroll,
    {
        let m = self.max_scroll();
        if self.scroll > m {
            self.scroll = m;
        }
    }

    /// Record a new viewport size and rebuild the wrap cache for the
    /// new width.
    pub fn term_size(&mut self, cols: usize, rows: usize)
        requires
            old(self).wf(),
        ensures
            final(self).wf(),
            final(self).cols == cols,
            final(self).rows == rows,
            final(self).url == old(self).url,
            final(self).raw == old(self).raw,
            final(self).lines == old(self).lines,
            final(self).wide == old(self).wide,
            final(self).tls == old(self).tls,
            final(self).tor == old(self).tor,
    {
        self.cols = cols;
        self.rows = rows;
        self.wrapped = wrap_all(&self.lines, wrap_width(cols));
        self.clamp_scroll();
    }
}

/// The wrap width for a viewport of `cols` columns.
pub fn wrap_width(cols: usize) -> (w: usize)
    ensures
        w as int == spec_wrap_width(cols as int),
        w >= 1,
{
    if cols == 0 || cols > MAX_COLS {
        MAX_COLS
    } else {
        cols
    }
}

} // verus!
