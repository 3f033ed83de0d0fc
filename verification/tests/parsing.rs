use phetch::gopher::Type;
use phetch::menu::{link_url, parse_menu};
use phetch::url::{parse_url, type_for_url};

#[test]
fn url_with_scheme_host_port_type_and_selector() {
    let u = parse_url("gopher://bitreich.org:7070/1/lawn");
    assert_eq!(u.host, "bitreich.org");
    assert_eq!(u.port, 7070);
    assert_eq!(u.typ, Type::Menu);
    assert_eq!(u.sel, "/lawn");
}

#[test]
fn url_port_defaults_to_70() {
    let u = parse_url("gopher://gopherproject.org/");
    assert_eq!(u.host, "gopherproject.org");
    assert_eq!(u.port, 70);
    assert_eq!(u.typ, Type::Menu);
    assert_eq!(u.sel, "");
}

#[test]
fn url_without_scheme_or_path() {
    let u = parse_url("gopher.floodgap.com");
    assert_eq!(u.host, "gopher.floodgap.com");
    assert_eq!(u.port, 70);
    assert_eq!(u.typ, Type::Menu);
    assert_eq!(u.sel, "");
}

#[test]
fn url_with_type_character() {
    let u = parse_url("gopher://fnord.one:65446/0Mirrors/RFC/rfc1436.txt");
    assert_eq!(u.typ, Type::Text);
    assert_eq!(u.sel, "Mirrors/RFC/rfc1436.txt");
    assert_eq!(u.port, 65446);
}

#[test]
fn url_unknown_type_character_degrades_to_menu() {
    let u = parse_url("gopher://example.org/lawn");
    assert_eq!(u.typ, Type::Menu);
    assert_eq!(u.sel, "lawn");
}

#[test]
fn url_bad_port_degrades_to_70() {
    assert_eq!(parse_url("gopher://h:port/1/x").port, 70);
    assert_eq!(parse_url("gopher://h:99999/1/x").port, 70);
    assert_eq!(parse_url("gopher://h:/1/x").port, 70);
}

#[test]
fn telnet_url_keeps_host_and_port() {
    let u = parse_url("telnet://bbs.example.net:2323");
    assert_eq!(u.host, "bbs.example.net");
    assert_eq!(u.port, 2323);
}

#[test]
fn type_for_url_decodes_or_defaults() {
    assert_eq!(type_for_url("gopher://h/9/file.bin"), Type::Binary);
    assert_eq!(type_for_url("gopher://h/hsome.html"), Type::HTML);
    assert_eq!(type_for_url("gopher://h"), Type::Menu);
}

#[test]
fn empty_menu_parses_to_no_lines() {
    assert_eq!(parse_menu("").len(), 0);
}

#[test]
fn arbitrary_bytes_parse_without_failure() {
    let junk = "\u{1}\u{2}\u{3}\twhat\never\r\r\n\t\t\t\t....";
    let lines = parse_menu(junk);
    assert!(lines.len() > 0);
}

#[test]
fn menu_without_terminator_parses() {
    let lines = parse_menu("1gopher lawn\t/lawn\tbitreich.org\t70");
    assert_eq!(lines.len(), 1);
    assert_eq!(lines[0].typ, Type::Menu);
    assert_eq!(lines[0].text, "gopher lawn");
    assert_eq!(lines[0].sel, "/lawn");
    assert_eq!(lines[0].host, "bitreich.org");
    assert_eq!(lines[0].port, "70");
}

#[test]
fn menu_lines_split_on_cr_lf_and_crlf() {
    let lines = parse_menu("ione\r\nitwo\nithree\rifour");
    assert_eq!(lines.len(), 4);
    assert_eq!(lines[0].text, "one");
    assert_eq!(lines[1].text, "two");
    assert_eq!(lines[2].text, "three");
    assert_eq!(lines[3].text, "four");
}

#[test]
fn menu_line_without_port_defaults_to_70() {
    let lines = parse_menu("7search gopher\t/v2/vs\tgopher.floodgap.com");
    assert_eq!(lines[0].typ, Type::Search);
    assert_eq!(lines[0].host, "gopher.floodgap.com");
    assert_eq!(lines[0].port, "70");
}

#[test]
fn dot_terminator_becomes_info_line() {
    let lines = parse_menu("1a\t/a\th\t70\r\n.\r\n");
    assert_eq!(lines.len(), 2);
    assert_eq!(lines[1].typ, Type::Info);
    assert_eq!(lines[1].text, ".");
}

#[test]
fn malformed_line_is_local_to_itself() {
    let lines = parse_menu("1good\t/g\th\t70\n\u{7}garbage\n1also good\t/a\th\t70");
    assert_eq!(lines.len(), 3);
    assert_eq!(lines[0].typ, Type::Menu);
    assert_eq!(lines[1].typ, Type::Info);
    assert_eq!(lines[2].typ, Type::Menu);
    assert_eq!(lines[2].text, "also good");
}

#[test]
fn info_line_keeps_only_display_text() {
    let lines = parse_menu("ihello world\tfake\t(NULL)\t0");
    assert_eq!(lines[0].typ, Type::Info);
    assert_eq!(lines[0].text, "hello world");
    assert_eq!(lines[0].sel, "");
    assert_eq!(lines[0].host, "");
}

#[test]
fn typed_line_without_selector_folds_to_info() {
    let lines = parse_menu("1just a label");
    assert_eq!(lines[0].typ, Type::Info);
    assert_eq!(lines[0].text, "1just a label");
}

#[test]
fn link_url_builds_gopher_url() {
    let lines = parse_menu("1gopher lawn\t/lawn\tbitreich.org\t70");
    assert_eq!(link_url(&lines[0]), "gopher://bitreich.org:70/1/lawn");
}

#[test]
fn link_url_unwraps_url_selectors() {
    let lines = parse_menu("hphetch webpage\tURL:https://example.org/p\tphetch");
    assert_eq!(link_url(&lines[0]), "https://example.org/p");
}

#[test]
fn link_url_for_telnet_lines() {
    let lines = parse_menu("8a bbs\t\tbbs.example.net\t2323");
    assert_eq!(link_url(&lines[0]), "telnet://bbs.example.net:2323");
}
