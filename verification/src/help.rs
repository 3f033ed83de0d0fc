//! Built-in pages served under the internal `gopher://phetch/`
//! namespace: the start screen and the help menus, as raw Gopher menu
//! text. The visited-history and bookmarks pages are built by the
//! surrounding program, not here.

use vstd::prelude::*;

use crate::strutil::str_eq;

verus! {

/// Banner shown on top of every built-in page.
pub const HEADER: &'static str = "
i
i      /         /         /
i ___ (___  ___ (___  ___ (___
i|   )|   )|___)|    |    |   )
i|__/ |  / |__  |__  |__  |  /
i|
i
";

/// The start screen.
pub const START: &'static str = "
i            ~ * ~
i
7search gopher\t/v2/vs\tgopher.floodgap.com
1welcome to gopherspace\t/gopher\tgopher.floodgap.com
1the gopher project\t/\tgopherproject.org
1gopher lawn\t/lawn\tbitreich.org
i
i            ~ * ~
i
1show help          (ctrl-h)\t/help\tphetch
1show history       (ctrl-a)\t/history\tphetch
1show bookmarks     (ctrl-b)\t/bookmarks\tphetch
i
";

/// The help index.
pub const HELP: &'static str = "
i      ** help topics **
i
1keyboard shortcuts\t/help/keys\tphetch
1menu navigation\t/help/nav\tphetch
1gopher types\t/help/types\tphetch
1bookmarks\t/help/bookmarks\tphetch
1history\t/help/history\tphetch
i
i            ~ * ~
i
1start screen\t/home\tphetch
hphetch webpage\tURL:https://github.com/dvkt/phetch\tphetch
i
";

/// Keyboard shortcuts.
pub const KEYS: &'static str = "
i   ** keyboard shortcuts **
i
ileft       back in history
iright      next in history
iup         select prev link
idown       select next link
ipg up/down scroll by many lines
i- or space same as pg up/down
i
inum key    open/select link
ienter      open current link
iescape     cancel
ictrl-c     cancel/quit
i
if or /     find link in page
ip          select prev link
in          select next link
i
ig          go to gopher url
iu          show gopher url
iy          copy url
i
ib          show bookmarks
is          save bookmark
ia          show history
i
ir          view raw source
iw          toggle wide mode
iq          quit phetch
ih          show help
i
iall single letter commands also
iwork with the ctrl key.
i
";

/// Menu navigation help.
pub const NAV: &'static str = "
i    ** menu navigation **
i
ithere are three ways to
inavigate menus in phetch:
i
1up & down arrows\t/help/nav\tphetch
i
iuse the up and down arrows or
ithe ctrl-p/ctrl-n combos to
iselect menu items. phetch will
iscroll for you, or you can use
ipage up & page down (or - and
ispacebar) to scroll by many
ilines at once.
i
1number keys\t/help/nav\tphetch
i
iif there are few enough menu
iitems, pressing a number key
iwill open a link. otherwise,
ithe first matching number will
ibe selected. use enter to open
ithe selected link.
i
1incremental search\t/help/nav\tphetch
i
ijust start typing. phetch will
ilook for the first case-
iinsensitive match and try to
iselect it. use arrow keys or
ictrl-p/n to cycle matches.
i
";

/// Bookmarks help.
pub const BOOKMARKS: &'static str = "
i       ** bookmarks **
i
iphetch has two ways to save
ithe url of the current page:
i
ictrl-y   copy url
ictrl-s   save bookmark
i
iif ~/.config/phetch/ exists,
ibookmarks will be saved to
i~/.config/phetch/bookmarks.gph
i
iuse ctrl-b to view them.
i
ithe clipboard function uses:
i
i- `pbcopy` on macos
i- `xclip -sel clip` on linux
i";

/// History help.
pub const HISTORY: &'static str = "
i        ** history **
i
iif you create a history.gph
ifile in ~/.config/phetch/,
ieach gopher url you open will
ibe stored there.
i
inew urls are appended to the
ibottom, but loaded in reverse
iorder, so you'll see the most
irecently visited pages first
iwhen you use ctrl-a.
i
ifeel free to edit your history
ifile directly, or share it
iwith your friends!
";

/// Gopher type reference.
pub const TYPES: &'static str = "
i     ** gopher types **
i
iphetch supports these links:
i
0text files\t/Mirrors/RFC/rfc1436.txt\tfnord.one\t65446
1menu items\t/lawn/ascii\tbitreich.org
3errors\t/help/types\tphetch
7search servers\t/\tforthworks.com\t7001
8telnet links\t/help/types\tphetch
hexternal urls\tURL:https://en.wikipedia.org/wiki/Phetch\tphetch
i
iand these download types:
i
4binhex\t/help/types\tphetch
5dosfiles\t/help/types\tphetch
6uuencoded files\t/help/types\tphetch
9binaries\t/help/types\tphetch
gGIFs\t/help/types\tphetch
Iimages downloads\t/help/types\tphetch
ssound files\t/help/types\tphetch
ddocuments\t/help/types\tphetch
i
iphetch does not support:
i
2CSO Entries \t/help/types\tphetch
+Mirrors\t/help/types\tphetch
TTelnet3270\t/help/types\tphetch
i
";

/// The page a name resolves to: the banner followed by the page body,
/// or nothing for an unknown name.
pub open spec fn spec_lookup(name: Seq<char>) -> Option<Seq<char>> {
    if name == ""@ || name == "/"@ || name == "home"@ || name == "home/"@ {
        Some(HEADER@ + START@)
    } else if name == "help"@ || name == "help/"@ {
        Some(HEADER@ + HELP@)
    } else if name == "help/keys"@ {
        Some(HEADER@ + KEYS@)
    } else if name == "help/nav"@ {
        Some(HEADER@ + NAV@)
    } else if name == "help/types"@ {
        Some(HEADER@ + TYPES@)
    } else if name == "help/bookmarks"@ {
        Some(HEADER@ + BOOKMARKS@)
    } else if name == "help/history"@ {
        Some(HEADER@ + HISTORY@)
    } else {
        None
    }
}

/// Resolve a built-in page name to its raw menu text.
pub fn lookup(name: &str) -> (r: Option<String>)
    ensures
        r is Some <==> spec_lookup(name@) is Some,
        r is Some ==> r->0@ == spec_lookup(name@)->0,
{
    let body: &str = if str_eq(name, "") || str_eq(name, "/") || str_eq(name, "home") || str_eq(
        name,
        "home/",
    ) {
        START
    } else if str_eq(name, "help") || str_eq(name, "help/") {
        HELP
    } else if str_eq(name, "help/keys") {
        KEYS
    } else if str_eq(name, "help/nav") {
        NAV
    } else if str_eq(name, "help/types") {
        TYPES
    } else if str_eq(name, "help/bookmarks") {
        BOOKMARKS
    } else if str_eq(name, "help/history") {
        HISTORY
    } else {
        return None;
    };
    let mut page = String::from_str(HEADER);
    page.append(body);
    Some(page)
}

} // verus!
