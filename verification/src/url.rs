//! Lenient Gopher URL parsing. Every input string maps to some `Url`:
//! malformed input degrades to defaults (port 70, Menu type) rather
//! than failing.

use vstd::prelude::*;

use crate::gopher::{spec_from, Type};
use crate::strutil::{
    find_char, lemma_find_char, parse_port, spec_find_char, spec_parse_port, substr_copy,
};

verus! {

/// A parsed Gopher URL: host, port, item type and selector.
pub struct Url {
    /// The decoded item type, Menu when absent.
    pub typ: Type,
    /// Host name, possibly empty.
    pub host: String,
    /// Port, 70 when absent or unreadable.
    pub port: u16,
    /// Selector string, without the leading type character.
    pub sel: String,
}

/// Mathematical model of a `Url`.
pub ghost struct UrlModel {
    /// Item type.
    pub typ: Type,
    /// Host characters.
    pub host: Seq<char>,
    /// Port number.
    pub port: u16,
    /// Selector characters.
    pub sel: Seq<char>,
}

impl View for Url {
    type V = UrlModel;

    open spec fn view(&self) -> UrlModel {
        UrlModel { typ: self.typ, host: self.host@, port: self.port, sel: self.sel@ }
    }
}

/// The string begins with a scheme: its first `:` is followed by `//`.
pub open spec fn spec_has_scheme(s: Seq<char>) -> bool {
    let k = spec_find_char(s, ':');
    k + 2 < s.len() && s[k + 1] == '/' && s[k + 2] == '/'
}

/// What remains of the string once a leading scheme is stripped.
pub open spec fn spec_after_scheme(s: Seq<char>) -> Seq<char> {
    if spec_has_scheme(s) {
        s.subrange(spec_find_char(s, ':') + 3, s.len() as int)
    } else {
        s
    }
}

/// The model that lenient URL parsing assigns to any input: strip a
/// scheme if present, split `host[:port]` from the path at the first
/// slash, and decode a leading type character of the path, defaulting
/// to Menu.
pub open spec fn spec_parse_url(s: Seq<char>) -> UrlModel {
    let body = spec_after_scheme(s);
    let sl = spec_find_char(body, '/');
    let hp = body.subrange(0, sl);
    let path = if sl < body.len() {
        body.subrange(sl + 1, body.len() as int)
    } else {
        Seq::<char>::empty()
    };
    let ci = spec_find_char(hp, ':');
    let host = hp.subrange(0, ci);
    let port = if ci < hp.len() {
        spec_parse_port(hp.subrange(ci + 1, hp.len() as int))
    } else {
        70u16
    };
    if path.len() > 0 && spec_from(path[0]) is Some {
        UrlModel { typ: spec_from(path[0])->Some_0, host, port, sel: path.subrange(1, path.len() as int) }
    } else {
        UrlModel { typ: Type::Menu, host, port, sel: path }
    }
}

/// Does the string begin with a scheme (`name://`)?
pub fn has_scheme(s: &str) -> (r: bool)
    ensures
        r == spec_has_scheme(s@),
{
    let n = s.unicode_len();
    let k = find_char(s, ':');
    proof {
        lemma_find_char(s@, ':');
    }
    k < n && n - k > 2 && s.get_char(k + 1) == '/' && s.get_char(k + 2) == '/'
}

/// Parse any string into a best-effort `Url`. Total: there is no
/// failure case, only degradation to defaults.
pub fn parse_url(s: &str) -> (u: Url)
    ensures
        u@ == spec_parse_url(s@),
{
    let n = s.unicode_len();
    let k = find_char(s, ':');
    proof {
        lemma_find_char(s@, ':');
    }
    let body: &str = if k < n && n - k > 2 && s.get_char(k + 1) == '/' && s.get_char(k + 2) == '/' {
        s.substring_char(k + 3, n)
    } else {
        s
    };
    assert(body@ == spec_after_scheme(s@));
    let bn = body.unicode_len();
    let sl = find_char(body, '/');
    proof {
        lemma_find_char(body@, '/');
    }
    let hp = body.substring_char(0, sl);
    let path: &str = if sl < bn {
        body.substring_char(sl + 1, bn)
    } else {
        ""
    };
    proof {
        reveal_strlit("");
        if sl >= bn {
            assert(path@ =~= Seq::<char>::empty());
        }
    }
    let hn = hp.unicode_len();
    let ci = find_char(hp, ':');
    proof {
        lemma_find_char(hp@, ':');
    }
    let host = substr_copy(hp, 0, ci);
    let port: u16 = if ci < hn {
        parse_port(hp.substring_char(ci + 1, hn))
    } else {
        70
    };
    let pn = path.unicode_len();
    if pn > 0 {
        match Type::from(path.get_char(0)) {
            Some(t) => {
                let u = Url { typ: t, host, port, sel: substr_copy(path, 1, pn) };
                u
            },
            None => {
                let sel = substr_copy(path, 0, pn);
                proof {
                    assert(sel@ =~= path@);
                }
                let u = Url { typ: Type::Menu, host, port, sel };
                u
            },
        }
    } else {
        let sel = String::new();
        proof {
            assert(sel@ =~= path@);
        }
        let u = Url { typ: Type::Menu, host, port, sel };
        u
    }
}

/// The item type a URL resolves to: the decoded type character, or
/// Menu when there is none.
pub fn type_for_url(s: &str) -> (t: Type)
    ensures
        t == spec_parse_url(s@).typ,
{
    let u = parse_url(s);
    u.typ
}

} // verus!
