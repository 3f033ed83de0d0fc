//! Gopher item types as defined by RFC 1436, with the classification
//! predicates that drive navigation and confirmation policy.

use vstd::prelude::*;

verus! {

/// A Gopher item type. Each variant corresponds to a single RFC 1436
/// (or de-facto standard) type code character.
#[derive(Copy, Clone, PartialEq, Eq, Structural, Debug)]
pub enum Type {
    /// `0`: plain text file
    Text,
    /// `1`: menu (directory)
    Menu,
    /// `2`: CSO phone-book entity (unsupported)
    CSOEntity,
    /// `3`: error line
    Error,
    /// `4`: BinHex file (download)
    Binhex,
    /// `5`: DOS file (download)
    DOSFile,
    /// `6`: uuencoded file (download)
    UUEncoded,
    /// `7`: search server
    Search,
    /// `8`: telnet session
    Telnet,
    /// `9`: binary file (download)
    Binary,
    /// `+`: mirror server (unsupported)
    Mirror,
    /// `g`: GIF image (download)
    GIF,
    /// `T`: telnet 3270 session (unsupported)
    Telnet3270,
    /// `h`: HTML document
    HTML,
    /// `I`: image file (download)
    Image,
    /// `p`: PNG image (download)
    PNG,
    /// `i`: informational line, no destination
    Info,
    /// `s`: sound file (download)
    Sound,
    /// `d`: document file (download)
    Document,
}

/// The informational type: a menu line with no destination.
pub open spec fn spec_is_info(t: Type) -> bool {
    t == Type::Info
}

/// An HTML link.
pub open spec fn spec_is_html(t: Type) -> bool {
    t == Type::HTML
}

/// A telnet link.
pub open spec fn spec_is_telnet(t: Type) -> bool {
    t == Type::Telnet
}

/// The download-classified types: opening one streams it to a file
/// rather than pushing a view.
pub open spec fn spec_is_download(t: Type) -> bool {
    ||| t == Type::Binhex
    ||| t == Type::DOSFile
    ||| t == Type::UUEncoded
    ||| t == Type::Binary
    ||| t == Type::GIF
    ||| t == Type::Image
    ||| t == Type::PNG
    ||| t == Type::Sound
    ||| t == Type::Document
}

/// A link: something the client can navigate to or open.
pub open spec fn spec_is_link(t: Type) -> bool {
    ||| t == Type::Menu
    ||| t == Type::Search
    ||| t == Type::Telnet
    ||| t == Type::HTML
    ||| spec_is_download(t)
}

/// Types the client knows how to handle at all.
pub open spec fn spec_is_supported(t: Type) -> bool {
    t != Type::CSOEntity && t != Type::Mirror && t != Type::Telnet3270
}

/// The RFC code character of a type.
pub open spec fn spec_to_char(t: Type) -> char {
    match t {
        Type::Text => '0',
        Type::Menu => '1',
        Type::CSOEntity => '2',
        Type::Error => '3',
        Type::Binhex => '4',
        Type::DOSFile => '5',
        Type::UUEncoded => '6',
        Type::Search => '7',
        Type::Telnet => '8',
        Type::Binary => '9',
        Type::Mirror => '+',
        Type::GIF => 'g',
        Type::Telnet3270 => 'T',
        Type::HTML => 'h',
        Type::Image => 'I',
        Type::PNG => 'p',
        Type::Info => 'i',
        Type::Sound => 's',
        Type::Document => 'd',
    }
}

/// Decode an RFC code character, if it denotes a known type.
pub open spec fn spec_from(c: char) -> Option<Type> {
    if c == '0' {
        Some(Type::Text)
    } else if c == '1' {
        Some(Type::Menu)
    } else if c == '2' {
        Some(Type::CSOEntity)
    } else if c == '3' {
        Some(Type::Error)
    } else if c == '4' {
        Some(Type::Binhex)
    } else if c == '5' {
        Some(Type::DOSFile)
    } else if c == '6' {
        Some(Type::UUEncoded)
    } else if c == '7' {
        Some(Type::Search)
    } else if c == '8' {
        Some(Type::Telnet)
    } else if c == '9' {
        Some(Type::Binary)
    } else if c == '+' {
        Some(Type::Mirror)
    } else if c == 'g' {
        Some(Type::GIF)
    } else if c == 'T' {
        Some(Type::Telnet3270)
    } else if c == 'h' {
        Some(Type::HTML)
    } else if c == 'I' {
        Some(Type::Image)
    } else if c == 'p' {
        Some(Type::PNG)
    } else if c == 'i' {
        Some(Type::Info)
    } else if c == 's' {
        Some(Type::Sound)
    } else if c == 'd' {
        Some(Type::Document)
    } else {
        None
    }
}

impl Type {
    /// Is this an info line?
    pub fn is_info(self) -> (r: bool)
        ensures
            r == spec_is_info(self),
    {
        self == Type::Info
    }

    /// HTML link?
    pub fn is_html(self) -> (r: bool)
        ensures
            r == spec_is_html(self),
    {
        self == Type::HTML
    }

    /// Telnet link?
    pub fn is_telnet(self) -> (r: bool)
        ensures
            r == spec_is_telnet(self),
    {
        self == Type::Telnet
    }

    /// Is this a link, i.e. something we can navigate to or open?
    pub fn is_link(self) -> (r: bool)
        ensures
            r == spec_is_link(self),
    {
        match self {
            Type::Menu | Type::Search | Type::Telnet | Type::HTML => true,
            e => e.is_download(),
        }
    }

    /// Is this something we can download?
    pub fn is_download(self) -> (r: bool)
        ensures
            r == spec_is_download(self),
    {
        match self {
            Type::Binhex
            | Type::DOSFile
            | Type::UUEncoded
            | Type::Binary
            | Type::GIF
            | Type::Image
            | Type::PNG
            | Type::Sound
            | Type::Document => true,
            _ => false,
        }
    }

    /// Is this a type the client supports?
    pub fn is_supported(self) -> (r: bool)
        ensures
            r == spec_is_supported(self),
    {
        match self {
            Type::CSOEntity | Type::Mirror | Type::Telnet3270 => false,
            _ => true,
        }
    }

    /// Gopher item type to its RFC code character.
    pub fn to_char(self) -> (r: Option<char>)
        ensures
            r == Some(spec_to_char(self)),
    {
        Some(
            match self {
                Type::Text => '0',
                Type::Menu => '1',
                Type::CSOEntity => '2',
                Type::Error => '3',
                Type::Binhex => '4',
                Type::DOSFile => '5',
                Type::UUEncoded => '6',
                Type::Search => '7',
                Type::Telnet => '8',
                Type::Binary => '9',
                Type::Mirror => '+',
                Type::GIF => 'g',
                Type::Telnet3270 => 'T',
                Type::HTML => 'h',
                Type::Image => 'I',
                Type::PNG => 'p',
                Type::Info => 'i',
                Type::Sound => 's',
                Type::Document => 'd',
            },
        )
    }

    /// Create a Gopher item type from its RFC code character.
    pub fn from(c: char) -> (r: Option<Type>)
        ensures
            r == spec_from(c),
    {
        if c == '0' {
            Some(Type::Text)
        } else if c == '1' {
            Some(Type::Menu)
        } else if c == '2' {
            Some(Type::CSOEntity)
        } else if c == '3' {
            Some(Type::Error)
        } else if c == '4' {
            Some(Type::Binhex)
        } else if c == '5' {
            Some(Type::DOSFile)
        } else if c == '6' {
            Some(Type::UUEncoded)
        } else if c == '7' {
            Some(Type::Search)
        } else if c == '8' {
            Some(Type::Telnet)
        } else if c == '9' {
            Some(Type::Binary)
        } else if c == '+' {
            Some(Type::Mirror)
        } else if c == 'g' {
            Some(Type::GIF)
        } else if c == 'T' {
            Some(Type::Telnet3270)
        } else if c == 'h' {
            Some(Type::HTML)
        } else if c == 'I' {
            Some(Type::Image)
        } else if c == 'p' {
            Some(Type::PNG)
        } else if c == 'i' {
            Some(Type::Info)
        } else if c == 's' {
            Some(Type::Sound)
        } else if c == 'd' {
            Some(Type::Document)
        } else {
            None
        }
    }
}

/// The RFC code character of a type, as a one-character string slice.
pub fn type_char_str(t: Type) -> (r: &'static str)
    ensures
        r@ == seq![spec_to_char(t)],
{
    match t {
        Type::Text => {
            proof {
                reveal_strlit("0");
                assert("0"@ =~= seq!['0']);
            }
            "0"
        },
        Type::Menu => {
            proof {
                reveal_strlit("1");
                assert("1"@ =~= seq!['1']);
            }
            "1"
        },
        Type::CSOEntity => {
            proof {
                reveal_strlit("2");
                assert("2"@ =~= seq!['2']);
            }
            "2"
        },
        Type::Error => {
            proof {
                reveal_strlit("3");
                assert("3"@ =~= seq!['3']);
            }
            "3"
        },
        Type::Binhex => {
            proof {
                reveal_strlit("4");
                assert("4"@ =~= seq!['4']);
            }
            "4"
        },
        Type::DOSFile => {
            proof {
                reveal_strlit("5");
                assert("5"@ =~= seq!['5']);
            }
            "5"
        },
        Type::UUEncoded => {
            proof {
                reveal_strlit("6");
                assert("6"@ =~= seq!['6']);
            }
            "6"
        },
        Type::Search => {
            proof {
                reveal_strlit("7");
                assert("7"@ =~= seq!['7']);
            }
            "7"
        },
        Type::Telnet => {
            proof {
                reveal_strlit("8");
                assert("8"@ =~= seq!['8']);
            }
            "8"
        },
        Type::Binary => {
            proof {
                reveal_strlit("9");
                assert("9"@ =~= seq!['9']);
            }
            "9"
        },
        Type::Mirror => {
            proof {
                reveal_strlit("+");
                assert("+"@ =~= seq!['+']);
            }
            "+"
        },
        Type::GIF => {
            proof {
                reveal_strlit("g");
                assert("g"@ =~= seq!['g']);
            }
            "g"
        },
        Type::Telnet3270 => {
            proof {
                reveal_strlit("T");
                assert("T"@ =~= seq!['T']);
            }
            "T"
        },
        Type::HTML => {
            proof {
                reveal_strlit("h");
                assert("h"@ =~= seq!['h']);
            }
            "h"
        },
        Type::Image => {
            proof {
                reveal_strlit("I");
                assert("I"@ =~= seq!['I']);
            }
            "I"
        },
        Type::PNG => {
            proof {
                reveal_strlit("p");
                assert("p"@ =~= seq!['p']);
            }
            "p"
        },
        Type::Info => {
            proof {
                reveal_strlit("i");
                assert("i"@ =~= seq!['i']);
            }
            "i"
        },
        Type::Sound => {
            proof {
                reveal_strlit("s");
                assert("s"@ =~= seq!['s']);
            }
            "s"
        },
        Type::Document => {
            proof {
                reveal_strlit("d");
                assert("d"@ =~= seq!['d']);
            }
            "d"
        },
    }
}

/// Decoding a recognised RFC code character and re-encoding the
/// resulting type yields the same character; and encoding any type and
/// decoding the code recovers the type.
pub proof fn lemma_code_round_trip(c: char, t: Type)
    ensures
        spec_from(c) is Some ==> spec_to_char(spec_from(c)->Some_0) == c,
        spec_from(spec_to_char(t)) == Some(t),
{
}

/// The classification predicates partition the types exactly as the
/// navigation policy requires: every download is a link, info lines are
/// neither links nor downloads, and the three sets are precisely the
/// enumerations given in the protocol design.
pub proof fn lemma_classification_partition(t: Type)
    ensures
        spec_is_download(t) ==> spec_is_link(t),
        spec_is_info(t) ==> !spec_is_link(t) && !spec_is_download(t),
        spec_is_link(t) <==> (t == Type::Menu || t == Type::Search || t == Type::Telnet
            || t == Type::HTML || spec_is_download(t)),
        spec_is_download(t) <==> (t == Type::Binhex || t == Type::DOSFile || t == Type::UUEncoded
            || t == Type::Binary || t == Type::GIF || t == Type::Image || t == Type::PNG
            || t == Type::Sound || t == Type::Document),
        spec_is_info(t) <==> t == Type::Info,
        spec_is_supported(t) <==> !(t == Type::CSOEntity || t == Type::Mirror
            || t == Type::Telnet3270),
{
}

} // verus!
