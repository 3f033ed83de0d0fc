use phetch::action::{Action, Cmd, Key, PromptKind};
use phetch::help::lookup;
use phetch::ui::Ui;

fn ui_with_pages(urls: &[&str]) -> Ui {
    let mut ui = Ui::new(false, false, false, false);
    for u in urls {
        ui.push_menu_source(u, "isome page\n".to_string());
    }
    ui
}

#[test]
fn branch_truncation_on_new_navigation() {
    let mut ui = ui_with_pages(&["gopher://a/1/", "gopher://b/1/", "gopher://c/1/"]);
    assert_eq!(ui.views.len(), 3);
    assert_eq!(ui.focused, 2);
    ui.process_action(Action::Keypress(Key::Left)).unwrap();
    ui.process_action(Action::Keypress(Key::Left)).unwrap();
    assert_eq!(ui.focused, 0, "focus is back on the first page");
    ui.push_menu_source("gopher://d/1/", "inew page\n".to_string());
    assert_eq!(ui.views.len(), 2, "the forward branch is discarded");
    assert_eq!(ui.views[0].url_str(), "gopher://a/1/");
    assert_eq!(ui.views[1].url_str(), "gopher://d/1/");
    assert_eq!(ui.focused, 1, "focus is on the new page");
}

#[test]
fn reopening_the_focused_url_is_a_noop() {
    let mut ui = ui_with_pages(&["gopher://a/1/", "gopher://b/1/"]);
    let before_len = ui.views.len();
    let before_focus = ui.focused;
    let before_raw = ui.views[ui.focused].raw_str().to_string();
    let cmds = ui.open("b", "gopher://b/1/").unwrap();
    assert_eq!(cmds.len(), 0, "no command is issued");
    assert_eq!(ui.views.len(), before_len);
    assert_eq!(ui.focused, before_focus);
    assert_eq!(ui.views[ui.focused].raw_str(), before_raw, "the view itself is untouched");
}

#[test]
fn declined_download_changes_nothing() {
    let mut ui = ui_with_pages(&["gopher://a/1/"]);
    let cmds = ui.open("bin", "gopher://host/9/file.bin").unwrap();
    assert_eq!(cmds.len(), 1);
    match &cmds[0] {
        Cmd::ConfirmDownload { url } => assert_eq!(url, "gopher://host/9/file.bin"),
        _ => panic!("a download-typed open asks for confirmation"),
    }
    assert_eq!(ui.views.len(), 1, "confirmation alone pushes nothing");
    let after = ui.confirm_download("gopher://host/9/file.bin", false);
    assert_eq!(after.len(), 0, "declining issues no command");
    assert_eq!(ui.views.len(), 1);
    assert_eq!(ui.focused, 0);
}

#[test]
fn accepted_download_yields_the_download_command() {
    let mut ui = ui_with_pages(&["gopher://a/1/"]);
    let cmds = ui.confirm_download("gopher://host/9/file.bin", true);
    assert_eq!(cmds.len(), 1);
    assert!(matches!(&cmds[0], Cmd::Download { url } if url == "gopher://host/9/file.bin"));
}

#[test]
fn declined_external_url_changes_nothing() {
    let mut ui = ui_with_pages(&["gopher://a/1/"]);
    let cmds = ui.open("web", "https://example.org/x").unwrap();
    assert!(matches!(&cmds[0], Cmd::ConfirmExternal { url } if url == "https://example.org/x"));
    let after = ui.confirm_external("https://example.org/x", false);
    assert_eq!(after.len(), 0);
    assert_eq!(ui.views.len(), 1);
}

#[test]
fn telnet_url_becomes_a_telnet_command() {
    let mut ui = Ui::new(false, false, false, false);
    let cmds = ui.open("bbs", "telnet://bbs.example.net:2323").unwrap();
    assert_eq!(cmds.len(), 1);
    match &cmds[0] {
        Cmd::Telnet { host, port } => {
            assert_eq!(host, "bbs.example.net");
            assert_eq!(*port, 2323);
        }
        _ => panic!("telnet urls launch a telnet session"),
    }
    assert_eq!(ui.views.len(), 0);
}

#[test]
fn plain_gopher_open_fetches_and_records_history() {
    let mut ui = Ui::new(false, false, false, false);
    let cmds = ui.open("lawn", "gopher://bitreich.org/1/lawn").unwrap();
    assert_eq!(cmds.len(), 2);
    assert!(matches!(&cmds[0], Cmd::SaveHistory { title, url }
        if title == "lawn" && url == "gopher://bitreich.org/1/lawn"));
    assert!(matches!(&cmds[1], Cmd::Fetch { title, url }
        if title == "lawn" && url == "gopher://bitreich.org/1/lawn"));
}

#[test]
fn internal_help_url_pushes_a_builtin_menu() {
    let mut ui = Ui::new(false, false, false, false);
    let cmds = ui.open("Help", "gopher://phetch/1/help").unwrap();
    assert_eq!(cmds.len(), 0);
    assert_eq!(ui.views.len(), 1);
    assert_eq!(ui.views[0].url_str(), "gopher://phetch/1/help");
    assert!(ui.views[0].raw_str().contains("help topics"));
}

#[test]
fn internal_history_url_asks_the_program() {
    let mut ui = Ui::new(false, false, false, false);
    let cmds = ui.open("History", "gopher://phetch/1/history").unwrap();
    assert_eq!(cmds.len(), 1);
    assert!(matches!(&cmds[0], Cmd::FetchHistory { url } if url == "gopher://phetch/1/history"));
    assert_eq!(ui.views.len(), 0);
}

#[test]
fn unknown_internal_url_is_an_error() {
    let mut ui = Ui::new(false, false, false, false);
    let e = ui.open("x", "gopher://phetch/1/nonsense").unwrap_err();
    assert_eq!(e, "phetch URL not found: gopher://phetch/1/nonsense");
}

#[test]
fn fetched_menu_becomes_a_menu_view() {
    let mut ui = Ui::new(false, false, false, false);
    ui.handle_fetch("gopher://h/1/", "1a\t/a\th\t70\n".to_string(), true, false).unwrap();
    assert_eq!(ui.views.len(), 1);
    assert!(ui.focused_tls());
}

#[test]
fn fetched_text_becomes_a_text_view() {
    let mut ui = Ui::new(false, false, false, false);
    ui.handle_fetch("gopher://h/0/readme", "hello".to_string(), false, true).unwrap();
    assert_eq!(ui.views.len(), 1);
    assert!(ui.focused_tor());
}

#[test]
fn unsupported_response_type_is_surfaced() {
    let mut ui = Ui::new(false, false, false, false);
    let e = ui.handle_fetch("gopher://h/2/cso", "x".to_string(), false, false).unwrap_err();
    assert_eq!(e, "Unsupported Gopher Response: type 2");
    assert_eq!(ui.views.len(), 0, "no view is pushed");
}

#[test]
fn quit_key_stops_the_loop() {
    let mut ui = ui_with_pages(&["gopher://a/1/"]);
    assert!(ui.is_running());
    ui.process_action(Action::Keypress(Key::Char('q'))).unwrap();
    assert!(!ui.is_running());
}

#[test]
fn left_and_right_move_through_history() {
    let mut ui = ui_with_pages(&["gopher://a/1/", "gopher://b/1/"]);
    assert_eq!(ui.focused, 1);
    ui.process_action(Action::Keypress(Key::Left)).unwrap();
    assert_eq!(ui.focused, 0);
    ui.process_action(Action::Keypress(Key::Left)).unwrap();
    assert_eq!(ui.focused, 0, "back stops at the oldest page");
    ui.process_action(Action::Keypress(Key::Right)).unwrap();
    assert_eq!(ui.focused, 1);
    ui.process_action(Action::Keypress(Key::Right)).unwrap();
    assert_eq!(ui.focused, 1, "forward stops at the newest page");
}

#[test]
fn unknown_keypress_is_an_error() {
    let mut ui = ui_with_pages(&["gopher://a/1/"]);
    let e = ui.process_action(Action::Keypress(Key::Char('!'))).unwrap_err();
    assert_eq!(e, "Unknown keypress: !");
}

#[test]
fn ctrl_c_only_hints_at_quitting() {
    let mut ui = ui_with_pages(&["gopher://a/1/"]);
    ui.process_action(Action::Keypress(Key::Ctrl('c'))).unwrap();
    assert!(ui.is_running());
    assert_eq!(ui.status_str(), "(Use q to quit)");
}

#[test]
fn status_text_escapes_line_breaks() {
    let mut ui = Ui::new(false, false, false, false);
    ui.set_status("a\nb\rc");
    assert_eq!(ui.status_str(), "a\\nb\\rc");
}

#[test]
fn go_to_url_key_prompts() {
    let mut ui = ui_with_pages(&["gopher://a/1/"]);
    let cmds = ui.process_action(Action::Keypress(Key::Char('g'))).unwrap();
    assert!(matches!(&cmds[0], Cmd::Prompt { prompt, kind: PromptKind::GoUrl } if prompt == "Go to URL: "));
    let opened = ui.handle_prompt(PromptKind::GoUrl, Some("gopher://x/1/".to_string())).unwrap();
    assert!(matches!(&opened[1], Cmd::Fetch { url, .. } if url == "gopher://x/1/"));
}

#[test]
fn current_url_prompt_opens_only_edited_urls() {
    let mut ui = ui_with_pages(&["gopher://a/1/"]);
    let same = ui
        .handle_prompt(
            PromptKind::CurrentUrl("gopher://a/1/".to_string()),
            Some("gopher://a/1/".to_string()),
        )
        .unwrap();
    assert_eq!(same.len(), 0, "an unedited url does nothing");
    let edited = ui
        .handle_prompt(
            PromptKind::CurrentUrl("gopher://a/1/".to_string()),
            Some("gopher://b/1/".to_string()),
        )
        .unwrap();
    assert_eq!(edited.len(), 2, "an edited url is opened");
}

#[test]
fn raw_source_key_pushes_a_wide_text_view() {
    let mut ui = ui_with_pages(&["gopher://a/1/"]);
    ui.process_action(Action::Keypress(Key::Ctrl('r'))).unwrap();
    assert_eq!(ui.views.len(), 2);
    assert!(ui.views[1].wide(), "the raw view starts wide");
    assert_eq!(ui.views[1].raw_str(), "isome page\n");
}

#[test]
fn list_actions_run_in_order_and_stop_at_errors() {
    let mut ui = ui_with_pages(&["gopher://a/1/"]);
    let acts = vec![
        Action::Status("first".to_string()),
        Action::Error("boom".to_string()),
        Action::Status("never".to_string()),
    ];
    let e = ui.process_action(Action::List(acts)).unwrap_err();
    assert_eq!(e, "boom");
    assert_eq!(ui.status_str(), "first", "members before the failure ran");
}

#[test]
fn respond_key_with_nothing_open_is_an_error() {
    let mut ui = Ui::new(false, false, false, false);
    match ui.respond_key(Key::Down) {
        Action::Error(e) => assert_eq!(e, "No Gopher page loaded."),
        _ => panic!("without views every key is an error"),
    }
}

#[test]
fn render_view_renders_the_focused_page() {
    let mut ui = ui_with_pages(&["gopher://a/1/"]);
    let s = ui.render_view(80, 24).unwrap();
    assert!(s.contains("some page"));
    let mut empty = Ui::new(false, false, false, false);
    assert!(empty.render_view(80, 24).is_err());
}

#[test]
fn wide_toggle_flips_config_and_focused_view() {
    let mut ui = Ui::new(false, false, false, false);
    ui.handle_fetch("gopher://h/0/f", "text body".to_string(), false, false).unwrap();
    assert!(!ui.views[0].wide());
    ui.process_action(Action::Keypress(Key::Ctrl('w'))).unwrap();
    assert!(ui.wide);
    assert!(ui.views[0].wide());
}

#[test]
fn lookup_serves_the_builtin_pages() {
    let home = lookup("home").expect("home exists");
    assert!(home.contains("gopher.floodgap.com"));
    assert_eq!(lookup(""), lookup("home"));
    assert!(lookup("help").unwrap().contains("help topics"));
    assert!(lookup("help/types").unwrap().contains("gopher types"));
    assert!(lookup("help/keys").is_some());
    assert!(lookup("help/nav").is_some());
    assert!(lookup("help/bookmarks").is_some());
    assert!(lookup("help/history").is_some());
    assert!(lookup("nonsense").is_none());
    assert!(lookup("history").is_none(), "history is built by the program");
    assert!(lookup("bookmarks").is_none(), "bookmarks are built by the program");
}

#[test]
fn suspend_key_becomes_a_command() {
    let mut ui = ui_with_pages(&["gopher://a/1/"]);
    let cmds = ui.process_action(Action::Keypress(Key::Ctrl('z'))).unwrap();
    assert!(matches!(cmds[0], Cmd::Suspend));
}
