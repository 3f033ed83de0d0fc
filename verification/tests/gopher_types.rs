use phetch::gopher::Type;

const ALL_TYPES: [Type; 19] = [
    Type::Text,
    Type::Menu,
    Type::CSOEntity,
    Type::Error,
    Type::Binhex,
    Type::DOSFile,
    Type::UUEncoded,
    Type::Search,
    Type::Telnet,
    Type::Binary,
    Type::Mirror,
    Type::GIF,
    Type::Telnet3270,
    Type::HTML,
    Type::Image,
    Type::PNG,
    Type::Info,
    Type::Sound,
    Type::Document,
];

const ALL_CODES: [char; 19] = [
    '0', '1', '2', '3', '4', '5', '6', '7', '8', '9', '+', 'g', 'T', 'h', 'I', 'p', 'i', 's', 'd',
];

#[test]
fn code_decode_then_encode_round_trips() {
    for &c in ALL_CODES.iter() {
        let t = Type::from(c).expect("every RFC code decodes");
        assert_eq!(t.to_char(), Some(c));
    }
}

#[test]
fn type_encode_then_decode_round_trips() {
    for &t in ALL_TYPES.iter() {
        let c = t.to_char().unwrap();
        assert_eq!(Type::from(c), Some(t));
    }
}

#[test]
fn unknown_codes_do_not_decode() {
    for c in ['x', '.', ' ', '\t', 'G', 'P', 'Z'] {
        assert!(Type::from(c).is_none());
    }
}

#[test]
fn downloads_are_exactly_the_listed_set() {
    for &t in ALL_TYPES.iter() {
        let expected = matches!(
            t,
            Type::Binhex
                | Type::DOSFile
                | Type::UUEncoded
                | Type::Binary
                | Type::GIF
                | Type::Image
                | Type::PNG
                | Type::Sound
                | Type::Document
        );
        assert_eq!(t.is_download(), expected);
    }
}

#[test]
fn links_are_menu_search_telnet_html_and_downloads() {
    for &t in ALL_TYPES.iter() {
        let expected = matches!(t, Type::Menu | Type::Search | Type::Telnet | Type::HTML)
            || t.is_download();
        assert_eq!(t.is_link(), expected);
    }
}

#[test]
fn info_is_neither_link_nor_download() {
    for &t in ALL_TYPES.iter() {
        assert_eq!(t.is_info(), t == Type::Info);
        if t.is_info() {
            assert!(!t.is_link());
            assert!(!t.is_download());
        }
        if t.is_download() {
            assert!(t.is_link());
        }
    }
}

#[test]
fn unsupported_types_are_cso_mirror_telnet3270() {
    for &t in ALL_TYPES.iter() {
        let expected = !matches!(t, Type::CSOEntity | Type::Mirror | Type::Telnet3270);
        assert_eq!(t.is_supported(), expected);
    }
}

#[test]
fn html_and_telnet_predicates() {
    for &t in ALL_TYPES.iter() {
        assert_eq!(t.is_html(), t == Type::HTML);
        assert_eq!(t.is_telnet(), t == Type::Telnet);
    }
}
