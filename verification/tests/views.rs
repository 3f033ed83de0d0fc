use phetch::action::{Action, Key};
use phetch::menu::Menu;
use phetch::text::Text;

fn menu_with_links(n: usize) -> Menu {
    let mut raw = String::new();
    for i in 1..=n {
        raw.push_str(&format!("1Link{}\t/l{}\texample.org\t70\n", i, i));
    }
    Menu::from("gopher://example.org/1/", raw, false, false)
}

#[test]
fn nine_links_digit_opens_directly() {
    let mut m = menu_with_links(9);
    match m.respond(Key::Char('5')) {
        Action::Open(title, url) => {
            assert_eq!(title, "Link5");
            assert_eq!(url, "gopher://example.org:70/1/l5");
        }
        _ => panic!("digit should open directly with nine links"),
    }
    assert_eq!(m.link, 4);
}

#[test]
fn ten_links_digit_only_selects() {
    let mut m = menu_with_links(10);
    match m.respond(Key::Char('5')) {
        Action::Redraw => {}
        _ => panic!("digit should only select with ten links"),
    }
    assert_eq!(m.link, 4);
    match m.respond(Key::Char('\n')) {
        Action::Open(title, url) => {
            assert_eq!(title, "Link5");
            assert_eq!(url, "gopher://example.org:70/1/l5");
        }
        _ => panic!("enter should open the selected link"),
    }
}

#[test]
fn digit_beyond_link_count_does_nothing() {
    let mut m = menu_with_links(3);
    match m.respond(Key::Char('7')) {
        Action::NoOp => {}
        _ => panic!("digit past the link count should do nothing"),
    }
    assert_eq!(m.link, 0);
}

#[test]
fn search_wraps_past_the_end() {
    let raw = "1Apple\t/a\th\t70\n1Banana\t/b\th\t70\n1Cherry\t/c\th\t70\n";
    let mut m = Menu::from("gopher://h/1/", raw.to_string(), false, false);
    m.respond(Key::Down);
    m.respond(Key::Down);
    assert_eq!(m.link, 2);
    match m.respond(Key::Char('a')) {
        Action::Redraw => {}
        _ => panic!("a matching search keystroke redraws"),
    }
    assert_eq!(m.link, 0, "search should wrap to Apple");
}

#[test]
fn search_non_matching_character_changes_nothing() {
    let raw = "1Apple\t/a\th\t70\n1Banana\t/b\th\t70\n";
    let mut m = Menu::from("gopher://h/1/", raw.to_string(), false, false);
    match m.respond(Key::Char('z')) {
        Action::NoOp => {}
        _ => panic!("a non-matching search fails silently"),
    }
    assert_eq!(m.link, 0);
    assert_eq!(m.query.len(), 0, "the buffer keeps its old value");
}

#[test]
fn search_is_case_insensitive() {
    let raw = "1alpha\t/a\th\t70\n1BETA\t/b\th\t70\n";
    let mut m = Menu::from("gopher://h/1/", raw.to_string(), false, false);
    m.respond(Key::Char('b'));
    assert_eq!(m.link, 1);
}

#[test]
fn navigation_skips_info_lines() {
    let raw = "iheading\n1First\t/1\th\t70\ninote\n1Second\t/2\th\t70\n";
    let mut m = Menu::from("gopher://h/1/", raw.to_string(), false, false);
    assert_eq!(m.links.len(), 2);
    m.respond(Key::Down);
    assert_eq!(m.link, 1);
    match m.respond(Key::Char('\n')) {
        Action::Open(title, _) => assert_eq!(title, "Second"),
        _ => panic!("enter opens the selected link"),
    }
}

#[test]
fn selection_clamps_at_the_ends() {
    let mut m = menu_with_links(3);
    m.respond(Key::Up);
    assert_eq!(m.link, 0);
    m.respond(Key::PageDown);
    assert_eq!(m.link, 2, "paging clamps to the last link");
    m.respond(Key::PageUp);
    assert_eq!(m.link, 0);
}

#[test]
fn menu_render_marks_the_selection() {
    let mut m = menu_with_links(2);
    let r = m.render();
    assert!(r.starts_with("> Link1"));
    m.respond(Key::Down);
    let r2 = m.render();
    assert!(r2.contains("> Link2"));
    assert!(r2.starts_with("  Link1"));
}

#[test]
fn hundred_chars_wrap_to_at_least_two_lines() {
    let line: String = std::iter::repeat('x').take(100).collect();
    let t = Text::from("gopher://h/0/f", line.clone(), false, false, false);
    assert!(t.wrapped.len() >= 2, "100 chars at width 77 need two rows");
    assert_eq!(t.wrapped[0].len(), 77);
    assert_eq!(t.wrapped[1].len(), 23);
    let rendered = t.render();
    assert!(rendered.contains('\n'));
    let joined: String = rendered.split('\n').collect::<Vec<_>>().concat();
    assert_eq!(joined, line, "wrapping loses no characters");
}

#[test]
fn wide_mode_shows_the_line_unbroken() {
    let line: String = std::iter::repeat('x').take(100).collect();
    let mut t = Text::from("gopher://h/0/f", line.clone(), false, false, false);
    t.set_wide(true);
    assert!(t.wide());
    assert_eq!(t.render(), line, "wide mode renders the raw line");
}

#[test]
fn text_scrolls_and_clamps() {
    let mut raw = String::new();
    for i in 0..50 {
        raw.push_str(&format!("line {}\n", i));
    }
    let mut t = Text::from("gopher://h/0/f", raw, false, false, false);
    t.respond(Key::Down);
    assert_eq!(t.scroll, 1);
    t.respond(Key::PageDown);
    assert_eq!(t.scroll, 16);
    t.respond(Key::Up);
    assert_eq!(t.scroll, 15);
    for _ in 0..20 {
        t.respond(Key::PageDown);
    }
    let max = t.max_scroll();
    assert_eq!(t.scroll, max, "scrolling clamps to the end");
    for _ in 0..40 {
        t.respond(Key::PageUp);
    }
    assert_eq!(t.scroll, 0, "scrolling clamps at the top");
}

#[test]
fn text_passes_other_keys_through() {
    let mut t = Text::from("gopher://h/0/f", "body".to_string(), false, false, false);
    match t.respond(Key::Char('q')) {
        Action::Keypress(Key::Char('q')) => {}
        _ => panic!("unhandled keys fall through"),
    }
}

#[test]
fn resize_changes_the_viewport_and_rewraps() {
    let mut m = menu_with_links(30);
    m.term_size(80, 5);
    let r = m.render();
    assert_eq!(r.lines().count(), 4, "a five-row terminal shows four content rows");
    m.respond(Key::PageDown);
    assert_eq!(m.link, 15);
    let r2 = m.render();
    assert!(r2.contains("> Link16"), "the selection scrolled into view");

    let line: String = std::iter::repeat('y').take(60).collect();
    let mut t = Text::from("gopher://h/0/f", line, false, false, false);
    assert_eq!(t.wrapped.len(), 1);
    t.term_size(40, 24);
    assert_eq!(t.wrapped.len(), 2, "a narrower terminal rewraps the cache");
    assert_eq!(t.wrapped[0].len(), 40);
}
