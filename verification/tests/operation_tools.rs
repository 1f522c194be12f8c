use paws::domain::{
    CommandOutput, Environment, FSSearch, HttpResponse, Image, Match, MatchResult, NetFetch,
    PlanCreate, PlanCreateOutput, ResponseContext, SearchResult, ShellOutput, Skill, SkillFetch,
    ToolOutput, ToolValue,
};
use paws::metrics::{Metrics, ToolKind};
use paws::operation::{Answers, TempContentFiles, ToolOperation};

fn environment() -> Environment {
    Environment {
        cwd: "/home/user".to_string(),
        max_search_lines: 25,
        max_search_result_bytes: 256000,
        fetch_truncation_limit: 55,
        stdout_max_prefix_length: 10,
        stdout_max_suffix_length: 10,
        stdout_max_line_length: 2000,
        max_read_size: 10,
        max_file_size: 256 << 10,
    }
}

fn value_text(output: ToolOutput) -> String {
    let mut result = String::new();
    for value in output.values {
        match value {
            ToolValue::Text(txt) => result.push_str(&format!("{}\n", txt)),
            ToolValue::Image(image) => {
                result.push_str(&format!("Image with mime type: {}\n", image.mime_type))
            }
            ToolValue::Empty => result.push_str("Empty value\n"),
            ToolValue::AI { value, .. } => result.push_str(&format!("{}\n", value)),
        }
    }
    result
}

fn render(op: ToolOperation, kind: ToolKind, files: TempContentFiles, env: &Environment) -> String {
    let mut metrics = Metrics::new();
    let out = value_text(op.into_tool_output(kind, files, env, Answers::none(), &mut metrics));
    assert_eq!(metrics.len(), 0);
    out
}

fn numbered(prefix: &str, from: usize, to: usize) -> String {
    (from..=to).map(|i| format!("{} {}", prefix, i)).collect::<Vec<_>>().join("\n")
}

fn shell(command: &str, stdout: String, stderr: String, exit_code: Option<i32>) -> ToolOperation {
    ToolOperation::Shell {
        output: ShellOutput {
            output: CommandOutput { command: command.to_string(), stdout, stderr, exit_code },
            shell: "/bin/bash".to_string(),
        },
    }
}

fn shell_open(command: &str, code: &str) -> String {
    format!("<shell_output\n  command=\"{}\"\n  shell=\"/bin/bash\"\n  exit_code=\"{}\"\n>", command, code)
}

fn whole(name: &str, total: usize, path: Option<&str>, body: &str) -> String {
    let full = match path {
        Some(p) => format!("\n  full_output=\"{}\"", p),
        None => String::new(),
    };
    format!("\n<{n}\n  total_lines=\"{t}\"{full}\n><![CDATA[{body}]]>\n</{n}>", n = name, t = total)
}

fn split(name: &str, total: usize, path: Option<&str>, head: (usize, &str), tail: (usize, usize, &str)) -> String {
    let full = match path {
        Some(p) => format!("\n  full_output=\"{}\"", p),
        None => String::new(),
    };
    format!(
        "\n<{n}\n  total_lines=\"{t}\"{full}\n>\n<head\n  display_lines=\"1-{he}\"\n><![CDATA[{h}]]>\n</head>\n<tail\n  display_lines=\"{ts}-{te}\"\n><![CDATA[{tl}]]>\n</tail>\n</{n}>",
        n = name,
        t = total,
        he = head.0,
        h = head.1,
        ts = tail.0,
        te = tail.1,
        tl = tail.2
    )
}

#[test]
fn test_shell_output_no_truncation() {
    let fixture = shell("echo hello", "hello\nworld".to_string(), "".to_string(), Some(0));
    let actual = render(fixture, ToolKind::Write, TempContentFiles::default(), &environment());
    let expected = format!(
        "{}{}\n</shell_output>\n",
        shell_open("echo hello", "0"),
        whole("stdout", 2, None, "hello\nworld")
    );
    assert_eq!(actual, expected);
}

#[test]
fn test_shell_output_stdout_truncation_only() {
    let fixture = shell("long_command", numbered("stdout line", 1, 25), "".to_string(), Some(0));
    let files = TempContentFiles::default().stdout("/tmp/stdout_content.txt");
    let actual = render(fixture, ToolKind::Shell, files, &environment());
    let expected = format!(
        "{}{}\n</shell_output>\n",
        shell_open("long_command", "0"),
        split(
            "stdout",
            25,
            Some("/tmp/stdout_content.txt"),
            (10, &numbered("stdout line", 1, 10)),
            (16, 25, &numbered("stdout line", 16, 25))
        )
    );
    assert_eq!(actual, expected);
}

#[test]
fn test_shell_output_stderr_truncation_only() {
    let fixture = shell("error_command", "".to_string(), numbered("stderr line", 1, 25), Some(1));
    let files = TempContentFiles::default().stderr("/tmp/stderr_content.txt");
    let actual = render(fixture, ToolKind::Shell, files, &environment());
    let expected = format!(
        "{}{}\n</shell_output>\n",
        shell_open("error_command", "1"),
        split(
            "stderr",
            25,
            Some("/tmp/stderr_content.txt"),
            (10, &numbered("stderr line", 1, 10)),
            (16, 25, &numbered("stderr line", 16, 25))
        )
    );
    assert_eq!(actual, expected);
}

#[test]
fn test_shell_output_both_stdout_stderr_truncation() {
    let fixture = shell(
        "complex_command",
        numbered("stdout line", 1, 25),
        numbered("stderr line", 1, 30),
        Some(0),
    );
    let files = TempContentFiles::default()
        .stdout("/tmp/stdout_content.txt")
        .stderr("/tmp/stderr_content.txt");
    let actual = render(fixture, ToolKind::Shell, files, &environment());
    let expected = format!(
        "{}{}{}\n</shell_output>\n",
        shell_open("complex_command", "0"),
        split(
            "stdout",
            25,
            Some("/tmp/stdout_content.txt"),
            (10, &numbered("stdout line", 1, 10)),
            (16, 25, &numbered("stdout line", 16, 25))
        ),
        split(
            "stderr",
            30,
            Some("/tmp/stderr_content.txt"),
            (10, &numbered("stderr line", 1, 10)),
            (21, 30, &numbered("stderr line", 21, 30))
        )
    );
    assert_eq!(actual, expected);
}

#[test]
fn test_shell_output_exact_boundary_stdout() {
    let fixture = shell("boundary_command", numbered("stdout line", 1, 20), "".to_string(), Some(0));
    let actual = render(fixture, ToolKind::Shell, TempContentFiles::default(), &environment());
    let expected = format!(
        "{}{}\n</shell_output>\n",
        shell_open("boundary_command", "0"),
        whole("stdout", 20, None, &numbered("stdout line", 1, 20))
    );
    assert_eq!(actual, expected);
}

#[test]
fn test_shell_output_single_line_each() {
    let fixture = shell(
        "simple_command",
        "single stdout line".to_string(),
        "single stderr line".to_string(),
        Some(0),
    );
    let actual = render(fixture, ToolKind::Shell, TempContentFiles::default(), &environment());
    let expected = format!(
        "{}{}{}\n</shell_output>\n",
        shell_open("simple_command", "0"),
        whole("stdout", 1, None, "single stdout line"),
        whole("stderr", 1, None, "single stderr line")
    );
    assert_eq!(actual, expected);
}

#[test]
fn test_shell_output_empty_streams() {
    let fixture = shell("silent_command", "".to_string(), "".to_string(), Some(0));
    let actual = render(fixture, ToolKind::Shell, TempContentFiles::default(), &environment());
    let expected = format!("{}\n</shell_output>\n", shell_open("silent_command", "0"));
    assert_eq!(actual, expected);
}

#[test]
fn test_shell_output_line_number_calculation() {
    let fixture = shell("line_test_command", numbered("stdout", 1, 15), numbered("stderr", 1, 12), Some(0));
    let files = TempContentFiles::default()
        .stdout("/tmp/stdout_content.txt")
        .stderr("/tmp/stderr_content.txt");
    let actual = render(fixture, ToolKind::Shell, files, &environment());
    let expected = format!(
        "{}{}{}\n</shell_output>\n",
        shell_open("line_test_command", "0"),
        whole("stdout", 15, Some("/tmp/stdout_content.txt"), &numbered("stdout", 1, 15)),
        whole("stderr", 12, Some("/tmp/stderr_content.txt"), &numbered("stderr", 1, 12))
    );
    assert_eq!(actual, expected);
}

#[test]
fn test_shell_success() {
    let stdout = "total 8\ndrwxr-xr-x  2 user user 4096 Jan  1 12:00 .\ndrwxr-xr-x 10 user user 4096 Jan  1 12:00 ..";
    let fixture = shell("ls -la", stdout.to_string(), "".to_string(), Some(0));
    let actual = render(fixture, ToolKind::Shell, TempContentFiles::default(), &environment());
    let expected =
        format!("{}{}\n</shell_output>\n", shell_open("ls -la", "0"), whole("stdout", 3, None, stdout));
    assert_eq!(actual, expected);
}

#[test]
fn shell_without_exit_code_and_with_a_negative_one() {
    let killed = shell("sleep 9", "x".to_string(), "".to_string(), None);
    let actual = render(killed, ToolKind::Shell, TempContentFiles::default(), &environment());
    let expected = format!(
        "<shell_output\n  command=\"sleep 9\"\n  shell=\"/bin/bash\"\n>{}\n</shell_output>\n",
        whole("stdout", 1, None, "x")
    );
    assert_eq!(actual, expected);
    let failed = shell("false", "".to_string(), "".to_string(), Some(-2147483648));
    let actual = render(failed, ToolKind::Shell, TempContentFiles::default(), &environment());
    assert_eq!(actual, format!("{}\n</shell_output>\n", shell_open("false", "-2147483648")));
}

#[test]
fn shell_with_one_line_over_the_limit_skips_the_line_after_the_head() {
    let fixture = shell("seq", numbered("n", 1, 21), "".to_string(), Some(0));
    let actual = render(fixture, ToolKind::Shell, TempContentFiles::default(), &environment());
    let expected = format!(
        "{}{}\n</shell_output>\n",
        shell_open("seq", "0"),
        split("stdout", 21, None, (10, &numbered("n", 1, 10)), (12, 21, &numbered("n", 12, 21)))
    );
    assert_eq!(actual, expected);
}

fn found(n: usize, line: impl Fn(usize) -> String) -> Vec<Match> {
    (1..=n)
        .map(|i| Match {
            path: "/home/user/project/foo.txt".to_string(),
            result: Some(MatchResult::Found { line: line(i), line_number: i }),
        })
        .collect()
}

fn search(matches: Vec<Match>) -> ToolOperation {
    ToolOperation::FsSearch {
        input: FSSearch {
            path: "/home/user/project".to_string(),
            regex: Some("search".to_string()),
            start_index: Some(6),
            max_search_lines: Some(30),
            file_pattern: Some("*.txt".to_string()),
        },
        output: Some(SearchResult { matches }),
    }
}

fn results(budget: usize, total: usize, range: &str, reason: Option<&str>, body: &str) -> String {
    let why = match reason {
        Some(r) => format!("\n  reason=\"{}\"", r),
        None => String::new(),
    };
    format!(
        "<search_results\n  path=\"/home/user/project\"\n  max_bytes_allowed=\"{}\"\n  total_lines=\"{}\"\n  display_lines=\"{}\"\n  regex=\"search\"\n  file_pattern=\"*.txt\"{}\n><![CDATA[{}]]>\n</search_results>\n",
        budget, total, range, why, body
    )
}

#[test]
fn test_fs_search_output() {
    let fixture = search(found(50, |i| format!("Match line {}: Test", i)));
    let actual = render(fixture, ToolKind::Search, TempContentFiles::default(), &environment());
    let body: Vec<String> = (6..=30).map(|i| format!("foo.txt:{}:Match line {}: Test", i, i)).collect();
    let expected = results(
        256000,
        50,
        "6-30",
        Some("Results truncated due to exceeding the 25 lines limit. Please use a more specific search pattern"),
        &body.join("\n"),
    );
    assert_eq!(actual, expected);
}

#[test]
fn test_fs_search_max_output() {
    let fixture = search(found(50, |i| format!("Match line {}: Test", i)));
    let mut env = environment();
    env.max_search_lines = 10;
    let actual = render(fixture, ToolKind::Search, TempContentFiles::default(), &env);
    let body: Vec<String> = (6..=15).map(|i| format!("foo.txt:{}:Match line {}: Test", i, i)).collect();
    let expected = results(
        256000,
        50,
        "6-15",
        Some("Results truncated due to exceeding the 10 lines limit. Please use a more specific search pattern"),
        &body.join("\n"),
    );
    assert_eq!(actual, expected);
}

#[test]
fn test_fs_search_min_lines_but_max_line_length() {
    let fixture = search(found(50, |i| format!("Match line {}: {}", i, "AB".repeat(50))));
    let mut env = environment();
    env.max_search_lines = 20;
    env.max_search_result_bytes = 1049;
    let actual = render(fixture, ToolKind::Search, TempContentFiles::default(), &env);
    let body: Vec<String> =
        (6..=13).map(|i| format!("foo.txt:{}:Match line {}: {}", i, i, "AB".repeat(50))).collect();
    assert_eq!(body.iter().map(|l| l.len()).sum::<usize>(), 1000);
    let expected = results(
        1049,
        50,
        "6-13",
        Some("Results truncated due to exceeding the 1049 bytes size limit. Please use a more specific search pattern"),
        &body.join("\n"),
    );
    assert_eq!(actual, expected);
}

#[test]
fn test_fs_search_very_lengthy_one_line_match() {
    let fixture =
        search(found(1, |i| format!("Match line {}: {}", i, "abcdefghijklmnopqrstuvwxyz".repeat(40))));
    let mut env = environment();
    env.max_search_lines = 20;
    env.max_search_result_bytes = 1049;
    let actual = render(fixture, ToolKind::Search, TempContentFiles::default(), &env);
    let expected = results(1049, 1, "1-1", None, "");
    assert_eq!(actual, expected);
}

#[test]
fn test_fs_search_no_matches() {
    let fixture = ToolOperation::FsSearch {
        input: FSSearch {
            path: "/home/user/empty_project".to_string(),
            regex: Some("nonexistent".to_string()),
            start_index: None,
            max_search_lines: None,
            file_pattern: None,
        },
        output: None,
    };
    let actual = render(fixture, ToolKind::Search, TempContentFiles::default(), &environment());
    let expected =
        "<search_results\n  path=\"/home/user/empty_project\"\n  regex=\"nonexistent\"\n>\n</search_results>\n";
    assert_eq!(actual, expected);
    assert!(!actual.contains("total_lines"));
    assert!(!actual.contains("display_lines"));
    assert!(!actual.contains("reason"));
    assert!(!actual.contains("CDATA"));
}

#[test]
fn test_fs_search_with_results() {
    let fixture = ToolOperation::FsSearch {
        input: FSSearch {
            path: "/home/user/project".to_string(),
            regex: Some("Hello".to_string()),
            start_index: None,
            max_search_lines: None,
            file_pattern: Some("*.txt".to_string()),
        },
        output: Some(SearchResult {
            matches: vec![
                Match {
                    path: "file1.txt".to_string(),
                    result: Some(MatchResult::Found { line_number: 1, line: "Hello world".to_string() }),
                },
                Match {
                    path: "file2.txt".to_string(),
                    result: Some(MatchResult::Found {
                        line_number: 3,
                        line: "Hello universe".to_string(),
                    }),
                },
            ],
        }),
    };
    let actual = render(fixture, ToolKind::Search, TempContentFiles::default(), &environment());
    let expected = "<search_results\n  path=\"/home/user/project\"\n  max_bytes_allowed=\"256000\"\n  total_lines=\"2\"\n  display_lines=\"1-2\"\n  regex=\"Hello\"\n  file_pattern=\"*.txt\"\n><![CDATA[file1.txt:1:Hello world\nfile2.txt:3:Hello universe]]>\n</search_results>\n";
    assert_eq!(actual, expected);
}

#[test]
fn test_fs_search_no_results() {
    let fixture = ToolOperation::FsSearch {
        input: FSSearch {
            path: "/home/user/project".to_string(),
            regex: Some("NonExistentPattern".to_string()),
            start_index: None,
            max_search_lines: None,
            file_pattern: None,
        },
        output: None,
    };
    let actual = render(fixture, ToolKind::Search, TempContentFiles::default(), &environment());
    let expected =
        "<search_results\n  path=\"/home/user/project\"\n  regex=\"NonExistentPattern\"\n>\n</search_results>\n";
    assert_eq!(actual, expected);
}

#[test]
fn search_with_no_room_for_lines_is_empty_but_whole() {
    let fixture = ToolOperation::FsSearch {
        input: FSSearch {
            path: "/p".to_string(),
            regex: None,
            start_index: Some(0),
            max_search_lines: Some(-4),
            file_pattern: None,
        },
        output: Some(SearchResult {
            matches: vec![
                Match { path: "/p/a".to_string(), result: None },
                Match { path: "/q/b".to_string(), result: Some(MatchResult::Error("denied".to_string())) },
                Match { path: "/p".to_string(), result: None },
            ],
        }),
    };
    let mut env = environment();
    let all = render(fixture, ToolKind::Search, TempContentFiles::default(), &env);
    let expected = "<search_results\n  path=\"/p\"\n  max_bytes_allowed=\"256000\"\n  total_lines=\"3\"\n  display_lines=\"1-3\"\n><![CDATA[a\nError reading /q/b: denied\n.]]>\n</search_results>\n";
    assert_eq!(all, expected);
    env.max_search_lines = 0;
    let none = ToolOperation::FsSearch {
        input: FSSearch {
            path: "/p".to_string(),
            regex: None,
            start_index: None,
            max_search_lines: None,
            file_pattern: None,
        },
        output: Some(SearchResult { matches: vec![Match { path: "/p/a".to_string(), result: None }] }),
    };
    let actual = render(none, ToolKind::Search, TempContentFiles::default(), &env);
    let expected = "<search_results\n  path=\"/p\"\n  max_bytes_allowed=\"256000\"\n  total_lines=\"1\"\n  display_lines=\"0-0\"\n  reason=\"Results truncated due to exceeding the 0 lines limit. Please use a more specific search pattern\"\n><![CDATA[]]>\n</search_results>\n";
    assert_eq!(actual, expected);
}

fn fetch(url: &str, content: String, context: ResponseContext, content_type: &str) -> ToolOperation {
    ToolOperation::NetFetch {
        input: NetFetch { url: url.to_string(), raw: Some(false) },
        output: HttpResponse { content, code: 200, context, content_type: content_type.to_string() },
    }
}

#[test]
fn test_net_fetch_success() {
    let content = "# Example Website\n\nThis is some content from a website.";
    let fixture = fetch("https://example.com", content.to_string(), ResponseContext::Raw, "text/plain");
    let actual = render(fixture, ToolKind::Fetch, TempContentFiles::default(), &environment());
    let expected = format!(
        "<http_response\n  url=\"https://example.com\"\n  status_code=\"200\"\n  start_char=\"0\"\n  end_char=\"55\"\n  total_chars=\"55\"\n  content_type=\"text/plain\"\n>\n<body><![CDATA[{}]]></body>\n</http_response>\n",
        content
    );
    assert_eq!(actual, expected);
}

#[test]
fn test_net_fetch_truncated() {
    let env = environment();
    let truncated_content = "Truncated Content".to_string();
    let long_content = format!("{}{}", "A".repeat(env.fetch_truncation_limit), &truncated_content);
    let fixture =
        fetch("https://example.com/large-page", long_content, ResponseContext::Parsed, "text/html");
    let files = TempContentFiles::default().stdout("/tmp/paws_fetch_abc123.txt");
    let mut metrics = Metrics::new();
    let actual = fixture.into_tool_output(ToolKind::Fetch, files, &env, Answers::none(), &mut metrics);
    match actual.values.first().unwrap() {
        ToolValue::Text(text) => assert!(!text.ends_with(&truncated_content)),
        other => panic!("unexpected {:?}", other),
    }
    let expected = format!(
        "<http_response\n  url=\"https://example.com/large-page\"\n  status_code=\"200\"\n  start_char=\"0\"\n  end_char=\"55\"\n  total_chars=\"72\"\n  content_type=\"text/markdown\"\n>\n<body><![CDATA[{}]]></body>\n<truncated>Content is truncated to 55 chars, remaining content can be read from path: /tmp/paws_fetch_abc123.txt</truncated>\n</http_response>\n",
        "A".repeat(55)
    );
    assert_eq!(value_text(actual), expected);
}

#[test]
fn fetch_that_fits_has_no_note_even_with_a_path() {
    let fixture = fetch("u", "short".to_string(), ResponseContext::Raw, "text/x");
    let files = TempContentFiles::default().stdout("/tmp/whole.txt");
    let actual = render(fixture, ToolKind::Fetch, files, &environment());
    assert!(!actual.contains("<truncated>"));
    let cut = fetch("u", "x".repeat(56), ResponseContext::Raw, "text/x");
    let actual = render(cut, ToolKind::Fetch, TempContentFiles::default(), &environment());
    assert!(!actual.contains("<truncated>"));
    assert!(actual.contains(&format!("<![CDATA[{}]]>", "x".repeat(55))));
}

#[test]
fn fetch_cut_keeps_characters_whole() {
    let content = format!("{}é", "a".repeat(54));
    let fixture = fetch("u", content, ResponseContext::Raw, "t");
    let actual = render(fixture, ToolKind::Fetch, TempContentFiles::default(), &environment());
    assert!(actual.contains(&format!("<![CDATA[{}]]>", "a".repeat(54))));
    assert!(actual.contains("end_char=\"55\""));
    assert!(actual.contains("total_chars=\"56\""));
}

#[test]
fn test_follow_up_with_question() {
    let fixture = ToolOperation::FollowUp { output: Some("Which file would you like to edit?".to_string()) };
    let actual = render(fixture, ToolKind::Followup, TempContentFiles::default(), &environment());
    assert_eq!(actual, "<feedback>Which file would you like to edit?</feedback>\n");
}

#[test]
fn test_follow_up_no_question() {
    let fixture = ToolOperation::FollowUp { output: None };
    let actual = render(fixture, ToolKind::Followup, TempContentFiles::default(), &environment());
    assert_eq!(actual, "<interrupted>No feedback provided</interrupted>\n");
}

#[test]
fn test_skill_operation() {
    let fixture = ToolOperation::Skill {
        input: SkillFetch { name: "test-skill".to_string() },
        output: Skill::new(
            "test-skill",
            "This is a test skill command with instructions",
            "A test skill for demonstration",
        )
        .path("/home/user/.paws/skills/test-skill")
        .resources(vec![
            "/home/user/.paws/skills/test-skill/resource1.txt".to_string(),
            "/home/user/.paws/skills/test-skill/resource2.md".to_string(),
        ]),
    };
    let actual = render(fixture, ToolKind::Skill, TempContentFiles::default(), &environment());
    let expected = "<skill_details>\n<command\n  location=\"/home/user/.paws/skills/test-skill\"\n><![CDATA[This is a test skill command with instructions]]>\n</command>\n<resource>/home/user/.paws/skills/test-skill/resource1.txt</resource>\n<resource>/home/user/.paws/skills/test-skill/resource2.md</resource>\n</skill_details>\n";
    assert_eq!(actual, expected);
}

#[test]
fn skill_without_place_and_resources() {
    let fixture = ToolOperation::Skill {
        input: SkillFetch { name: "s".to_string() },
        output: Skill {
            name: "s".to_string(),
            path: None,
            command: "do <it>".to_string(),
            description: "d".to_string(),
            resources: vec![],
        },
    };
    let actual = render(fixture, ToolKind::Skill, TempContentFiles::default(), &environment());
    assert_eq!(actual, "<skill_details>\n<command><![CDATA[do <it>]]></command>\n</skill_details>\n");
}

#[test]
fn plan_created_names_path_name_and_version() {
    let fixture = ToolOperation::PlanCreate {
        input: PlanCreate {
            plan_name: "release".to_string(),
            version: "v2".to_string(),
            content: "steps".to_string(),
        },
        output: PlanCreateOutput { path: "/plans/release-v2.md".to_string(), before: None },
    };
    let actual = render(fixture, ToolKind::Plan, TempContentFiles::default(), &environment());
    let expected = "<plan_created\n  path=\"/plans/release-v2.md\"\n  plan_name=\"release\"\n  version=\"v2\"\n>\n</plan_created>\n";
    assert_eq!(actual, expected);
}

#[test]
fn image_is_handed_on() {
    let fixture = ToolOperation::ImageRead {
        output: Image { url: "data:image/png;base64,AAAA".to_string(), mime_type: "image/png".to_string() },
    };
    let actual = render(fixture, ToolKind::ReadImage, TempContentFiles::default(), &environment());
    assert_eq!(actual, "Image with mime type: image/png\n");
}
