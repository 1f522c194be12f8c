use std::sync::Arc;

use paws::attachment::{
    classify, directory_listing, file_attachment, image_attachment, image_mime_type, read_range,
    resolve_range, sort_entries, AttachmentContent, AttachmentKind, DirectoryEntry, FileInfo,
    PawsChatRequest,
};
use paws::domain::{Environment, Image};
use paws::env_service::{EnvironmentInfra, EnvironmentService, PawsEnvironmentService};
use paws::ipc::{
    answer, error_line, error_reply, handle_requests, is_space_char, parse_method,
    parse_response, reply_error, request_line, Dialect, Method, ResponseError,
};
use paws::prompt::{next_step, PromptStep, ReadResult};
use paws::release_matrix::ReleaseMatrix;
use paws::server::Server;
use paws::spinner::{
    is_interrupt, normalize, spinner_line, status_text, words, Action, Cmd, SpinnerManager,
    SpinnerState,
};
use paws::state::UIState;
use paws::text_order::text_before_or_same;

fn environment(cwd: &str) -> Environment {
    Environment {
        cwd: cwd.to_string(),
        max_search_lines: 25,
        max_search_result_bytes: 256000,
        fetch_truncation_limit: 55,
        stdout_max_prefix_length: 10,
        stdout_max_suffix_length: 10,
        stdout_max_line_length: 2000,
        max_read_size: 2000,
        max_file_size: 256 << 10,
    }
}

#[test]
fn image_types_go_by_extension() {
    assert_eq!(image_mime_type(Some("jpeg")), Some("image/jpeg".to_string()));
    assert_eq!(image_mime_type(Some("jpg")), Some("image/jpeg".to_string()));
    assert_eq!(image_mime_type(Some("png")), Some("image/png".to_string()));
    assert_eq!(image_mime_type(Some("webp")), Some("image/webp".to_string()));
    assert_eq!(image_mime_type(Some("PNG")), None);
    assert_eq!(image_mime_type(Some("txt")), None);
    assert_eq!(image_mime_type(None), None);
}

#[test]
fn a_path_is_a_directory_an_image_or_text() {
    assert!(matches!(classify(true, false, Some("png")), AttachmentKind::Directory));
    assert!(matches!(classify(true, true, Some("png")), AttachmentKind::Image(m) if m == "image/png"));
    assert!(matches!(classify(false, false, Some("jpg")), AttachmentKind::Image(m) if m == "image/jpeg"));
    assert!(matches!(classify(true, true, Some("rs")), AttachmentKind::Text));
    assert!(matches!(classify(false, true, None), AttachmentKind::Text));
}

fn entry(path: &str, is_dir: bool) -> DirectoryEntry {
    DirectoryEntry { path: path.to_string(), is_dir }
}

#[test]
fn directories_come_first_then_paths_in_order() {
    let sorted = sort_entries(vec![
        entry("b.txt", false),
        entry("src", true),
        entry("a.txt", false),
        entry("Zeta", false),
        entry("docs", true),
        entry("a.txt", false),
        entry("é", false),
        entry("", true),
    ]);
    let seen: Vec<(&str, bool)> = sorted.iter().map(|e| (e.path.as_str(), e.is_dir)).collect();
    assert_eq!(
        seen,
        vec![
            ("", true),
            ("docs", true),
            ("src", true),
            ("Zeta", false),
            ("a.txt", false),
            ("a.txt", false),
            ("b.txt", false),
            ("é", false),
        ]
    );
    assert!(sort_entries(Vec::new()).is_empty());
}

#[test]
fn text_order_is_the_order_of_strings() {
    let words = ["", "a", "ab", "b", "B", "é", "e", "z", "日本", "a\u{10ffff}", "aa"];
    for a in words {
        for b in words {
            assert_eq!(text_before_or_same(a, b), a <= b, "{:?} {:?}", a, b);
        }
    }
}

#[test]
fn a_listing_shows_paths_from_the_directory() {
    let listing = directory_listing(
        "/work/project",
        &vec![
            ("/work/project/z.rs".to_string(), false),
            ("/work/project/src".to_string(), true),
            ("/elsewhere/a.rs".to_string(), false),
        ],
    );
    assert_eq!(listing.path, "/work/project");
    match listing.content {
        AttachmentContent::DirectoryListing { entries } => {
            let seen: Vec<(&str, bool)> = entries.iter().map(|e| (e.path.as_str(), e.is_dir)).collect();
            assert_eq!(seen, vec![("src", true), ("/elsewhere/a.rs", false), ("z.rs", false)]);
        }
        other => panic!("unexpected {:?}", other),
    }
}

#[test]
fn file_content_is_numbered_from_the_first_line_read() {
    let info = FileInfo { start_line: 7, end_line: 8, total_lines: 40 };
    let attached = file_attachment("/f.rs", "fn a() {}\nfn b() {}", &info);
    assert_eq!(attached.path, "/f.rs");
    match attached.content {
        AttachmentContent::FileContent { content, start_line, end_line, total_lines } => {
            assert_eq!(content, "7:fn a() {}\n8:fn b() {}");
            assert_eq!((start_line, end_line, total_lines), (7, 8, 40));
        }
        other => panic!("unexpected {:?}", other),
    }
    let image = Image { url: "data:".to_string(), mime_type: "image/png".to_string() };
    let attached = image_attachment("/i.png", image);
    assert!(matches!(attached.content, AttachmentContent::Image(i) if i.mime_type == "image/png"));
}

#[test]
fn request_services_keep_their_infrastructure() {
    let infra = Arc::new(5u8);
    let service = PawsChatRequest::new(infra.clone());
    assert!(Arc::ptr_eq(&service.infra, &infra));
}

struct FixedEnvironment;

impl EnvironmentInfra for FixedEnvironment {
    fn get_environment(&self) -> Environment {
        environment("/test")
    }
}

#[test]
fn environment_service_hands_out_what_the_infrastructure_knows() {
    let service = PawsEnvironmentService::new(Arc::new(FixedEnvironment));
    assert_eq!(service.get_environment().cwd, "/test");
    assert_eq!(service.get_environment().max_read_size, 2000);
}

#[test]
fn state_starts_in_the_working_directory() {
    let state = UIState::new(environment("/work"));
    assert_eq!(state.cwd, "/work");
    assert_eq!(state.conversation_id, None);
    let moved = state.cwd("/other".to_string()).conversation_id("c1".to_string());
    assert_eq!(moved.cwd, "/other");
    assert_eq!(moved.conversation_id, Some("c1".to_string()));
    assert_eq!(UIState::default().cwd, "");
}

#[test]
fn server_keeps_its_socket_path() {
    let server = Server::new("/tmp/paws.sock".to_string());
    assert_eq!(server.socket_path(), "/tmp/paws.sock");
}

#[test]
fn release_matrix_lists_nine_targets() {
    let entries = ReleaseMatrix::default().entries();
    assert_eq!(entries.len(), 9);
    assert_eq!(entries[0].os, "ubuntu-latest");
    assert_eq!(entries[0].target, "x86_64-unknown-linux-musl");
    assert_eq!(entries[0].binary_name, "paws-x86_64-unknown-linux-musl");
    assert_eq!(entries[0].binary_path, "target/x86_64-unknown-linux-musl/release/paws");
    assert_eq!(entries[0].cross, "true");
    assert_eq!(entries[6].binary_name, "paws-x86_64-pc-windows-msvc.exe");
    assert_eq!(entries[6].binary_path, "target/x86_64-pc-windows-msvc/release/paws.exe");
    assert_eq!(entries[8].target, "aarch64-linux-android");
    for e in &entries {
        let suffix = if e.os == "windows-latest" { ".exe" } else { "" };
        assert_eq!(e.binary_name, format!("paws-{}{}", e.target, suffix));
        assert_eq!(e.binary_path, format!("target/{}/release/paws{}", e.target, suffix));
        assert!(e.cross == "true" || e.cross == "false");
    }
    let crossed: Vec<&str> = entries.iter().filter(|e| e.cross == "true").map(|e| e.target).collect();
    assert_eq!(
        crossed,
        vec![
            "x86_64-unknown-linux-musl",
            "aarch64-unknown-linux-musl",
            "aarch64-unknown-linux-gnu",
            "aarch64-linux-android"
        ]
    );
}

#[test]
fn prompt_goes_on_until_text_or_exit() {
    assert!(matches!(next_step(ReadResult::Continue), PromptStep::Again));
    assert!(matches!(next_step(ReadResult::Empty), PromptStep::Again));
    assert!(matches!(next_step(ReadResult::Exit), PromptStep::Exit));
    assert!(matches!(next_step(ReadResult::Success("/help".to_string())), PromptStep::Parse(t) if t == "/help"));
}

#[test]
fn white_space_is_what_std_takes_for_it() {
    for v in 0..=0x10ffffu32 {
        if let Some(c) = char::from_u32(v) {
            assert_eq!(is_space_char(c), c.is_whitespace(), "U+{:04X}", v);
        }
    }
}

#[test]
fn responses_are_answers_errors_or_nothing() {
    assert_eq!(request_line("ping"), "REQUEST:ping\n");
    assert!(matches!(parse_response("OK:pong\n"), Ok(a) if a == "pong"));
    assert!(matches!(parse_response("OK:  two words \u{a0}\r\n"), Ok(a) if a == "two words"));
    assert!(matches!(parse_response("OK:"), Ok(a) if a.is_empty()));
    assert!(matches!(parse_response("OK: \n "), Ok(a) if a.is_empty()));
    assert!(matches!(parse_response("ERROR: disk full\n"), Err(ResponseError::Server(s)) if s == "disk full"));
    assert!(matches!(parse_response("ok:pong"), Err(ResponseError::Invalid)));
    assert!(matches!(parse_response(""), Err(ResponseError::Invalid)));
    assert!(matches!(parse_response("ERROR"), Err(ResponseError::Invalid)));
    assert_eq!(ResponseError::Server("disk full".to_string()).message(), "Server error: disk full");
    assert_eq!(ResponseError::Invalid.message(), "Invalid response format");
    for text in ["OK:a", "OK: a b ", "ERROR:\tx\n", "OK:\u{3000}é\u{2028}"] {
        let rest = if text.starts_with("OK:") { &text[3..] } else { &text[6..] };
        match parse_response(text) {
            Ok(a) => assert_eq!(a, rest.trim()),
            Err(ResponseError::Server(s)) => assert_eq!(s, rest.trim()),
            Err(ResponseError::Invalid) => panic!("no response for {:?}", text),
        }
    }
}

#[test]
fn requests_are_answered_line_by_line() {
    let served = handle_requests(Dialect::Embedded, "REQUEST:ping\n");
    assert_eq!(served.responses, vec!["OK:pong\n".to_string()]);
    assert!(!served.shutdown);
    let served = handle_requests(Dialect::Embedded, "REQUEST:status\nnoise\nREQUEST:dance\r\nREQUEST:");
    assert_eq!(
        served.responses,
        vec!["OK:ok\n".to_string(), "OK:unknown_command\n".to_string(), "OK:unknown_command\n".to_string()]
    );
    assert!(!served.shutdown);
    let served = handle_requests(Dialect::Embedded, "REQUEST:ping\nREQUEST:shutdown\nREQUEST:ping\n");
    assert_eq!(served.responses, vec!["OK:pong\n".to_string(), "OK:shutting_down\n".to_string()]);
    assert!(served.shutdown);
    let served = handle_requests(Dialect::Program, "");
    assert!(served.responses.is_empty() && !served.shutdown);
    let served = handle_requests(Dialect::Program, "request:ping\n REQUEST:ping");
    assert!(served.responses.is_empty() && !served.shutdown);
}

#[test]
fn each_server_has_its_answers() {
    for dialect in [Dialect::Embedded, Dialect::Program, Dialect::Standalone] {
        assert_eq!(answer(dialect, "ping"), "pong");
        assert_eq!(answer(dialect, "shutdown"), "shutting_down");
    }
    assert_eq!(answer(Dialect::Embedded, "status"), "ok");
    assert_eq!(answer(Dialect::Program, "status"), "server_running");
    assert_eq!(answer(Dialect::Standalone, "status"), "server_running");
    assert_eq!(answer(Dialect::Embedded, "version"), "unknown_command");
    assert_eq!(answer(Dialect::Program, "version"), "unknown_command: version");
    assert_eq!(answer(Dialect::Standalone, "version"), "paws_client_server_demo");
    assert_eq!(answer(Dialect::Standalone, "dance"), "unknown_command: dance");
    let served = handle_requests(Dialect::Standalone, "REQUEST:version\nREQUEST:x y\n");
    assert_eq!(
        served.responses,
        vec!["OK:paws_client_server_demo\n".to_string(), "OK:unknown_command: x y\n".to_string()]
    );
    assert_eq!(error_line("broken pipe"), "ERROR:broken pipe\n");
}

#[test]
fn methods_go_by_name() {
    assert_eq!(parse_method("discover"), Ok(Method::Discover));
    assert_eq!(parse_method("get_tools"), Ok(Method::GetTools));
    assert_eq!(parse_method("get_models"), Ok(Method::GetModels));
    assert_eq!(parse_method("get_agents"), Ok(Method::GetAgents));
    assert_eq!(parse_method("get_providers"), Ok(Method::GetProviders));
    assert_eq!(parse_method("chat"), Ok(Method::Chat));
    assert_eq!(parse_method("fly"), Err("Unknown method: fly".to_string()));
    assert_eq!(error_reply("Unknown method: fly"), "Error: Unknown method: fly");
    assert_eq!(
        reply_error("Error: Unknown method: fly"),
        Some("Server error: Error: Unknown method: fly".to_string())
    );
    assert_eq!(reply_error("chat_started"), None);
    assert_eq!(reply_error("error: lower case"), None);
    assert_eq!(reply_error("Error:"), None);
}

fn names(actions: &[Action]) -> Vec<String> {
    actions.iter().map(|a| format!("{:?}", a)).collect()
}

#[test]
fn spinner_thread_follows_its_commands() {
    let mut state = SpinnerState::new();
    assert!(!state.is_drawn());
    assert_eq!(names(&state.on_command(Cmd::Write("early".to_string()))), vec!["Print(\"early\")"]);
    assert_eq!(names(&state.on_command(Cmd::Hide)), Vec::<String>::new());
    assert_eq!(names(&state.on_command(Cmd::Show)), Vec::<String>::new());
    assert_eq!(names(&state.on_command(Cmd::Stop)), vec!["Acknowledge"]);
    assert_eq!(
        names(&state.on_command(Cmd::Start("Thinking".to_string()))),
        vec!["RestartTimer", "RestartTick", "EnterRawMode", "HideCursor", "Draw { fresh: true }"]
    );
    assert!(state.is_drawn());
    assert_eq!((state.status_text.as_str(), state.idx), ("Thinking", 0));
    for expected in [1, 2, 3, 4, 5, 6, 7, 8, 9, 0, 1] {
        state.on_tick();
        assert_eq!(state.idx, expected);
    }
    assert_eq!(
        names(&state.on_command(Cmd::Write("line".to_string()))),
        vec!["ClearLine", "Print(\"line\")", "Draw { fresh: false }"]
    );
    assert_eq!(
        names(&state.on_command(Cmd::Hide)),
        vec!["ClearLine", "ShowCursor", "Flush", "LeaveRawMode"]
    );
    assert!(!state.is_drawn() && state.active && state.hidden);
    assert_eq!(names(&state.on_command(Cmd::Hide)), Vec::<String>::new());
    assert_eq!(
        names(&state.on_command(Cmd::Write("hidden".to_string()))),
        vec!["ClearLine", "Print(\"hidden\")", "Flush"]
    );
    assert_eq!(
        names(&state.on_command(Cmd::Show)),
        vec!["EnterRawMode", "HideCursorBelow", "Draw { fresh: false }"]
    );
    assert_eq!(state.idx, 1);
    assert_eq!(
        names(&state.on_command(Cmd::Stop)),
        vec!["ClearLine", "ShowCursor", "Flush", "LeaveRawMode", "Acknowledge"]
    );
    assert!(!state.active && !state.hidden);
    state.on_command(Cmd::Start("Again".to_string()));
    assert_eq!((state.status_text.as_str(), state.idx), ("Again", 0));
}

#[test]
fn spinner_line_and_written_text() {
    assert_eq!(
        spinner_line("⠋", "Thinking", 12),
        "\r\x1b[32m⠋\x1b[0m  \x1b[1;32mThinking\x1b[0m 12s · \x1b[2;37mCtrl+C to interrupt\x1b[0m"
    );
    assert_eq!(normalize("a\nb\n"), "a\n\x1b[0Gb\n\x1b[0G");
    assert_eq!(normalize("plain"), "plain");
    assert_eq!(normalize("a\nb\n"), "a\nb\n".replace('\n', "\n\x1b[0G"));
    assert!(is_interrupt(true, 'c') && is_interrupt(true, 'C'));
    assert!(!is_interrupt(false, 'c') && !is_interrupt(true, 'd'));
}

#[test]
fn spinner_manager_sends_what_changed() {
    let expected =
        ["Thinking", "Processing", "Analyzing", "Forging", "Researching", "Synthesizing", "Reasoning", "Contemplating"];
    assert_eq!(words(), expected.iter().map(|w| w.to_string()).collect::<Vec<_>>());
    assert_eq!(status_text(None, Some("Forging".to_string())), "Forging");
    assert_eq!(status_text(None, None), "Thinking");
    assert_eq!(status_text(Some("Compiling"), Some("Forging".to_string())), "Compiling");
    let mut manager = SpinnerManager::new();
    assert!(manager.hide_spinner().is_none());
    assert!(manager.show_spinner().is_none());
    assert!(matches!(manager.start_with(None, Some("Forging".to_string())), Cmd::Start(t) if t == "Forging"));
    assert_eq!(manager.message, Some("Forging".to_string()));
    assert!(manager.running && !manager.hidden);
    assert!(manager.show_spinner().is_none());
    assert!(matches!(manager.hide_spinner(), Some(Cmd::Hide)));
    assert!(manager.hidden);
    assert!(manager.hide_spinner().is_none());
    assert!(matches!(manager.show_spinner(), Some(Cmd::Show)));
    assert!(!manager.hidden);
    assert!(matches!(manager.write_ln("a\nb"), Cmd::Write(t) if t == "a\n\x1b[0Gb"));
    assert!(matches!(manager.stop(), Cmd::Stop));
    assert!(!manager.running && !manager.hidden && manager.message.is_none());
}

#[test]
fn a_spinner_without_message_takes_one_of_the_words() {
    let mut seen = std::collections::BTreeSet::new();
    for _ in 0..400 {
        let mut manager = SpinnerManager::new();
        match manager.start(None) {
            Cmd::Start(word) => {
                assert!(words().contains(&word), "{:?}", word);
                assert_eq!(manager.message, Some(word.clone()));
                seen.insert(word);
            }
            other => panic!("unexpected {:?}", other),
        }
    }
    assert!(seen.len() > 1);
    let mut manager = SpinnerManager::new();
    assert!(matches!(manager.start(Some("Compiling")), Cmd::Start(t) if t == "Compiling"));
}

#[test]
fn ranges_are_held_to_what_may_be_read() {
    assert_eq!(resolve_range(None, None, 2000), (1, 2000));
    assert_eq!(resolve_range(Some(10), None, 50), (10, 59));
    assert_eq!(resolve_range(Some(0), Some(5), 50), (1, 5));
    assert_eq!(resolve_range(Some(20), Some(5), 50), (5, 20));
    assert_eq!(resolve_range(Some(1), Some(500), 100), (1, 100));
    assert_eq!(resolve_range(Some(7), Some(7), 100), (7, 7));
    assert_eq!(resolve_range(Some(3), Some(9), 0), (3, 3));
    assert_eq!(resolve_range(Some(u64::MAX), None, 10), (u64::MAX, u64::MAX));
    assert_eq!(resolve_range(None, Some(0), 10), (1, 1));
}

#[test]
fn a_range_of_lines_is_cut_out_of_a_text() {
    let text = "one\ntwo\nthree\nfour";
    let (content, info) = read_range(text, 2, 3);
    assert_eq!(content, "two\nthree");
    assert_eq!((info.start_line, info.end_line, info.total_lines), (2, 3, 4));
    let (content, info) = read_range(text, 1, 0);
    assert_eq!(content, text);
    assert_eq!((info.start_line, info.end_line, info.total_lines), (1, 4, 4));
    let (content, info) = read_range(text, 3, 99);
    assert_eq!(content, "three\nfour");
    assert_eq!((info.start_line, info.end_line, info.total_lines), (3, 4, 4));
    let (content, info) = read_range(text, 5, 9);
    assert_eq!(content, "");
    assert_eq!((info.start_line, info.end_line, info.total_lines), (0, 0, 4));
    let (content, info) = read_range(text, 0, 1);
    assert_eq!(content, "one");
    assert_eq!((info.start_line, info.end_line, info.total_lines), (0, 1, 4));
    let (content, info) = read_range("", 1, 10);
    assert_eq!(content, "");
    assert_eq!((info.start_line, info.end_line, info.total_lines), (0, 0, 0));
}
