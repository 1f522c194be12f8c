use paws::domain::{
    Content, DiffResult, Environment, FSPatch, FSRead, FSRemove, FSUndo, FSWrite, FsCreateOutput,
    FsRemoveOutput, FsUndoOutput, PatchOperation, PatchOutput, ReadOutput, ToolOutput, ToolValue,
};
use paws::metrics::{Metrics, ToolKind};
use paws::operation::{Answers, DiffRequest, TempContentFiles, ToolOperation};

fn fixture_environment() -> Environment {
    let max_bytes: f64 = 250.0 * 1024.0; // 250 KB
    let fixture = Environment {
        cwd: "/home/user".to_string(),
        max_search_lines: 1,
        max_search_result_bytes: 1,
        fetch_truncation_limit: 1,
        stdout_max_prefix_length: 1,
        stdout_max_suffix_length: 1,
        stdout_max_line_length: 2000,
        max_read_size: 1,
        max_file_size: 1,
    };
    fixture
        .max_search_lines(25)
        .max_search_result_bytes(max_bytes.ceil() as usize)
        .fetch_truncation_limit(55)
        .max_read_size(10)
        .stdout_max_prefix_length(10)
        .stdout_max_suffix_length(10)
        .max_file_size(256 << 10) // 256 KiB
}

fn to_value(output: ToolOutput) -> String {
    let mut result = String::new();
    for value in output.values {
        match value {
            ToolValue::Text(txt) => result.push_str(&format!("{}\n", txt)),
            ToolValue::Image(image) => {
                result.push_str(&format!("Image with mime type: {}\n", image.mime_type))
            }
            ToolValue::Empty => result.push_str("Empty value\n"),
            ToolValue::AI { value, .. } => result.push_str(&format!("{}\n", value)),
        }
    }
    result
}

fn compute_hash(content: &str) -> String {
    format!("hash-of-{}-bytes", content.len())
}

/// A stand-in for the diff engine: every line of `before` in red with a minus,
/// every line of `after` in green with a plus.
fn diff(request: &DiffRequest) -> DiffResult {
    let mut text = Vec::new();
    for line in request.before.lines() {
        text.push(format!("\u{1b}[31m-{}\u{1b}[0m", line));
    }
    for line in request.after.lines() {
        text.push(format!("\u{1b}[32m+{}\u{1b}[0m", line));
    }
    DiffResult {
        diff: text.join("\n"),
        lines_added: request.after.lines().count() as u64,
        lines_removed: request.before.lines().count() as u64,
    }
}

fn answers(op: &ToolOperation) -> Answers {
    let requests = op.requests();
    Answers {
        change: requests.change.as_ref().map(diff),
        shown: requests.shown.as_ref().map(diff),
        hash: requests.hash.as_deref().map(compute_hash),
    }
}

fn run(op: ToolOperation, kind: ToolKind, files: TempContentFiles, metrics: &mut Metrics) -> String {
    let env = fixture_environment();
    let found = answers(&op);
    to_value(op.into_tool_output(kind, files, &env, found, metrics))
}

fn read(content: &str, path: &str, numbers: bool, start: u64, end: u64, total: u64) -> ToolOperation {
    ToolOperation::FsRead {
        input: FSRead {
            path: path.to_string(),
            start_line: None,
            end_line: None,
            show_line_numbers: numbers,
        },
        output: ReadOutput {
            content: Content::file(content),
            start_line: start,
            end_line: end,
            total_lines: total,
            content_hash: compute_hash(content),
        },
    }
}

#[test]
fn test_fs_read_basic() {
    let fixture = read("Hello, world!\nThis is a test file.", "/home/user/test.txt", true, 1, 2, 2);
    let actual = run(fixture, ToolKind::Read, TempContentFiles::default(), &mut Metrics::default());
    let expected = "<file\n  path=\"/home/user/test.txt\"\n  display_lines=\"1-2\"\n  total_lines=\"2\"\n><![CDATA[1:Hello, world!\n2:This is a test file.]]>\n</file>\n";
    assert_eq!(actual, expected);
}

#[test]
fn test_fs_read_basic_special_chars() {
    let fixture = read("struct Foo<T>{ name: T }", "/home/user/test.txt", true, 1, 1, 1);
    let actual = run(fixture, ToolKind::Read, TempContentFiles::default(), &mut Metrics::new());
    let expected = "<file\n  path=\"/home/user/test.txt\"\n  display_lines=\"1-1\"\n  total_lines=\"1\"\n><![CDATA[1:struct Foo<T>{ name: T }]]>\n</file>\n";
    assert_eq!(actual, expected);
}

#[test]
fn test_fs_read_with_explicit_range() {
    let content = "Line 1\nLine 2\nLine 3";
    let fixture = ToolOperation::FsRead {
        input: FSRead {
            path: "/home/user/test.txt".to_string(),
            start_line: Some(2),
            end_line: Some(3),
            show_line_numbers: true,
        },
        output: ReadOutput {
            content: Content::file(content),
            start_line: 2,
            end_line: 3,
            total_lines: 5,
            content_hash: compute_hash(content),
        },
    };
    let actual = run(fixture, ToolKind::Read, TempContentFiles::default(), &mut Metrics::new());
    let expected = "<file\n  path=\"/home/user/test.txt\"\n  display_lines=\"2-3\"\n  total_lines=\"3\"\n><![CDATA[2:Line 1\n3:Line 2\n4:Line 3]]>\n</file>\n";
    assert_eq!(actual, expected);
}

#[test]
fn test_fs_read_with_truncation_path() {
    let fixture = read("Truncated content", "/home/user/large_file.txt", true, 1, 100, 200);
    let truncation_path = TempContentFiles::default().stdout("/tmp/truncated_content.txt");
    let actual = run(fixture, ToolKind::Read, truncation_path, &mut Metrics::new());
    let expected = "<file\n  path=\"/home/user/large_file.txt\"\n  display_lines=\"1-100\"\n  total_lines=\"1\"\n><![CDATA[1:Truncated content]]>\n</file>\n";
    assert_eq!(actual, expected);
}

#[test]
fn read_without_line_numbers_shows_the_content_as_it_is() {
    let fixture = read("x\ny", "/a.txt", false, 1, 2, 2);
    let actual = run(fixture, ToolKind::Read, TempContentFiles::default(), &mut Metrics::new());
    let expected = "<file\n  path=\"/a.txt\"\n  display_lines=\"1-2\"\n  total_lines=\"2\"\n><![CDATA[x\ny]]>\n</file>\n";
    assert_eq!(actual, expected);
}

#[test]
fn read_scenario_numbers_each_line() {
    let fixture = read("x\ny", "/a.txt", true, 1, 2, 2);
    let mut metrics = Metrics::new();
    let actual = run(fixture, ToolKind::Read, TempContentFiles::default(), &mut metrics);
    assert!(actual.starts_with("<file\n"));
    assert!(actual.contains("display_lines=\"1-2\""));
    assert!(actual.contains("total_lines=\"2\""));
    assert!(actual.contains("<![CDATA[1:x\n2:y]]>"));
    let recorded = metrics.get("/a.txt").unwrap();
    assert_eq!(recorded.lines_added, 0);
    assert_eq!(recorded.lines_removed, 0);
    assert_eq!(recorded.content_hash, Some(compute_hash("x\ny")));
    assert_eq!(recorded.tool, ToolKind::Read);
}

fn create(path: &str, content: &str, before: Option<&str>) -> ToolOperation {
    ToolOperation::FsCreate {
        input: FSWrite {
            path: path.to_string(),
            content: content.to_string(),
            overwrite: before.is_some(),
        },
        output: FsCreateOutput {
            path: path.to_string(),
            before: before.map(|b| b.to_string()),
            content_hash: compute_hash(content),
        },
    }
}

#[test]
fn test_fs_create_basic() {
    let fixture = create("/home/user/new_file.txt", "Hello, world!", None);
    let mut metrics = Metrics::new();
    let actual = run(fixture, ToolKind::Write, TempContentFiles::default(), &mut metrics);
    let expected =
        "<file_created\n  path=\"/home/user/new_file.txt\"\n  total_lines=\"1\"\n>\n</file_created>\n";
    assert_eq!(actual, expected);
    let recorded = metrics.get("/home/user/new_file.txt").unwrap();
    assert_eq!((recorded.lines_added, recorded.lines_removed), (1, 0));
    assert_eq!(recorded.content_hash, Some(compute_hash("Hello, world!")));
}

#[test]
fn test_fs_create_overwrite() {
    let fixture = create("/home/user/existing_file.txt", "New content for the file", Some("Old content"));
    let mut metrics = Metrics::new();
    let actual = run(fixture, ToolKind::Write, TempContentFiles::default(), &mut metrics);
    let expected = "<file_overwritten\n  path=\"/home/user/existing_file.txt\"\n  total_lines=\"1\"\n>\n<file_diff><![CDATA[-Old content\n+New content for the file]]></file_diff>\n</file_overwritten>\n";
    assert_eq!(actual, expected);
    let recorded = metrics.get("/home/user/existing_file.txt").unwrap();
    assert_eq!((recorded.lines_added, recorded.lines_removed), (1, 1));
    assert_eq!(recorded.tool, ToolKind::Write);
}

#[test]
fn test_fs_create_with_warning() {
    let fixture = create("/home/user/file_with_warning.txt", "Content with warning", None);
    let actual = run(fixture, ToolKind::Write, TempContentFiles::default(), &mut Metrics::new());
    let expected = "<file_created\n  path=\"/home/user/file_with_warning.txt\"\n  total_lines=\"1\"\n>\n</file_created>\n";
    assert_eq!(actual, expected);
}

#[test]
fn test_fs_remove_success() {
    let fixture = ToolOperation::FsRemove {
        input: FSRemove { path: "/home/user/file_to_delete.txt".to_string() },
        output: FsRemoveOutput { content: "content".to_string() },
    };
    let mut metrics = Metrics::new();
    let actual = run(fixture, ToolKind::Remove, TempContentFiles::default(), &mut metrics);
    let expected =
        "<file_removed\n  path=\"file_to_delete.txt\"\n  status=\"completed\"\n>\n</file_removed>\n";
    assert_eq!(actual, expected);
    let recorded = metrics.get("/home/user/file_to_delete.txt").unwrap();
    assert_eq!((recorded.lines_added, recorded.lines_removed), (0, 1));
    assert_eq!(recorded.content_hash, None);
    assert_eq!(recorded.tool, ToolKind::Remove);
}

#[test]
fn removed_file_outside_the_working_directory_keeps_its_path() {
    let fixture = ToolOperation::FsRemove {
        input: FSRemove { path: "/home/username/a.txt".to_string() },
        output: FsRemoveOutput { content: "a\nb\nc\n".to_string() },
    };
    let mut metrics = Metrics::new();
    let actual = run(fixture, ToolKind::Remove, TempContentFiles::default(), &mut metrics);
    let expected =
        "<file_removed\n  path=\"/home/username/a.txt\"\n  status=\"completed\"\n>\n</file_removed>\n";
    assert_eq!(actual, expected);
    assert_eq!(metrics.get("/home/username/a.txt").unwrap().lines_removed, 3);
}

fn patch(path: &str, before: &str, after: &str, operation: PatchOperation) -> ToolOperation {
    ToolOperation::FsPatch {
        input: FSPatch {
            path: path.to_string(),
            search: Some("world".to_string()),
            operation,
            content: "universe".to_string(),
        },
        output: PatchOutput {
            before: before.to_string(),
            after: after.to_string(),
            content_hash: compute_hash(after),
        },
    }
}

#[test]
fn test_fs_patch_basic() {
    let fixture = patch(
        "/home/user/test.txt",
        "Hello world\nThis is a test",
        "Hello universe\nThis is a test",
        PatchOperation::Replace,
    );
    let mut metrics = Metrics::new();
    let actual = run(fixture, ToolKind::Patch, TempContentFiles::default(), &mut metrics);
    let expected = "<file_diff\n  path=\"/home/user/test.txt\"\n  total_lines=\"2\"\n><![CDATA[-Hello world\n-This is a test\n+Hello universe\n+This is a test]]>\n</file_diff>\n";
    assert_eq!(actual, expected);
    let recorded = metrics.get("/home/user/test.txt").unwrap();
    assert_eq!((recorded.lines_added, recorded.lines_removed), (2, 2));
    assert_eq!(recorded.content_hash, Some(compute_hash("Hello universe\nThis is a test")));
}

#[test]
fn test_fs_patch_with_warning() {
    let fixture = patch(
        "/home/user/large_file.txt",
        "line1\nline2",
        "line1\nnew line\nline2",
        PatchOperation::Append,
    );
    let actual = run(fixture, ToolKind::Patch, TempContentFiles::default(), &mut Metrics::new());
    let expected = "<file_diff\n  path=\"/home/user/large_file.txt\"\n  total_lines=\"3\"\n><![CDATA[-line1\n-line2\n+line1\n+new line\n+line2]]>\n</file_diff>\n";
    assert_eq!(actual, expected);
}

fn undo(path: &str, before: Option<&str>, after: Option<&str>) -> ToolOperation {
    ToolOperation::FsUndo {
        input: FSUndo { path: path.to_string() },
        output: FsUndoOutput {
            before_undo: before.map(|s| s.to_string()),
            after_undo: after.map(|s| s.to_string()),
        },
    }
}

#[test]
fn test_fs_undo_no_changes() {
    let fixture = undo("/home/user/unchanged_file.txt", None, None);
    let mut metrics = Metrics::new();
    let actual = run(fixture, ToolKind::Undo, TempContentFiles::default(), &mut metrics);
    let expected =
        "<file_undo\n  path=\"/home/user/unchanged_file.txt\"\n  status=\"no_changes\"\n>\n</file_undo>\n";
    assert_eq!(actual, expected);
    let recorded = metrics.get("/home/user/unchanged_file.txt").unwrap();
    assert_eq!((recorded.lines_added, recorded.lines_removed), (0, 0));
    assert_eq!(recorded.content_hash, None);
}

#[test]
fn test_fs_undo_file_created() {
    let fixture = undo("/home/user/new_file.txt", None, Some("New file content\nLine 2\nLine 3"));
    let mut metrics = Metrics::new();
    let actual = run(fixture, ToolKind::Undo, TempContentFiles::default(), &mut metrics);
    let expected = "<file_undo\n  path=\"/home/user/new_file.txt\"\n  status=\"created\"\n  total_lines=\"3\"\n><![CDATA[1:New file content\n2:Line 2\n3:Line 3]]>\n</file_undo>\n";
    assert_eq!(actual, expected);
    let recorded = metrics.get("/home/user/new_file.txt").unwrap();
    assert_eq!((recorded.lines_added, recorded.lines_removed), (0, 3));
    assert_eq!(recorded.content_hash, Some(compute_hash("New file content\nLine 2\nLine 3")));
}

#[test]
fn test_fs_undo_file_removed() {
    let fixture = undo(
        "/home/user/deleted_file.txt",
        Some("Original file content\nThat was deleted\nDuring undo"),
        None,
    );
    let mut metrics = Metrics::new();
    let actual = run(fixture, ToolKind::Undo, TempContentFiles::default(), &mut metrics);
    let expected = "<file_undo\n  path=\"/home/user/deleted_file.txt\"\n  status=\"removed\"\n  total_lines=\"3\"\n><![CDATA[Original file content\nThat was deleted\nDuring undo]]>\n</file_undo>\n";
    assert_eq!(actual, expected);
    let recorded = metrics.get("/home/user/deleted_file.txt").unwrap();
    assert_eq!((recorded.lines_added, recorded.lines_removed), (3, 0));
    assert_eq!(recorded.content_hash, None);
}

#[test]
fn test_fs_undo_file_restored() {
    let fixture = undo(
        "/home/user/restored_file.txt",
        Some("Original content\nBefore changes"),
        Some("Modified content\nAfter restoration"),
    );
    let actual = run(fixture, ToolKind::Undo, TempContentFiles::default(), &mut Metrics::new());
    let expected = "<file_undo\n  path=\"/home/user/restored_file.txt\"\n  status=\"restored\"\n><![CDATA[-Original content\n-Before changes\n+Modified content\n+After restoration]]>\n</file_undo>\n";
    assert_eq!(actual, expected);
}

#[test]
fn test_fs_undo_success() {
    let fixture = undo("/home/user/test.txt", Some("ABC"), Some("PQR"));
    let requests = fixture.requests();
    let shown = requests.shown.as_ref().unwrap();
    assert_eq!((shown.before.as_str(), shown.after.as_str()), ("ABC", "PQR"));
    let change = requests.change.as_ref().unwrap();
    assert_eq!((change.before.as_str(), change.after.as_str()), ("PQR", "ABC"));
    assert_eq!(requests.hash.as_deref(), Some("PQR"));
    let mut metrics = Metrics::new();
    let actual = run(fixture, ToolKind::Undo, TempContentFiles::default(), &mut metrics);
    let expected = "<file_undo\n  path=\"/home/user/test.txt\"\n  status=\"restored\"\n><![CDATA[-ABC\n+PQR]]>\n</file_undo>\n";
    assert_eq!(actual, expected);
    let recorded = metrics.get("/home/user/test.txt").unwrap();
    assert_eq!((recorded.lines_added, recorded.lines_removed), (1, 1));
    assert_eq!(recorded.content_hash, Some(compute_hash("PQR")));
    assert_eq!(recorded.tool, ToolKind::Undo);
}

#[test]
fn requests_name_what_each_operation_needs() {
    let created = create("/n.txt", "new", None).requests();
    let change = created.change.unwrap();
    assert_eq!((change.before.as_str(), change.after.as_str()), ("", "new"));
    assert!(created.shown.is_none() && created.hash.is_none());
    let overwritten = create("/n.txt", "new", Some("old")).requests();
    let change = overwritten.change.unwrap();
    assert_eq!((change.before.as_str(), change.after.as_str()), ("old", "new"));
    let patched = patch("/p.txt", "a", "b", PatchOperation::Replace).requests();
    let change = patched.change.unwrap();
    assert_eq!((change.before.as_str(), change.after.as_str()), ("a", "b"));
    let undone = undo("/u.txt", Some("gone"), None).requests();
    let change = undone.change.unwrap();
    assert_eq!((change.before.as_str(), change.after.as_str()), ("", "gone"));
    assert!(undone.shown.is_none() && undone.hash.is_none());
    let none = read("x", "/r.txt", false, 1, 1, 1).requests();
    assert!(none.change.is_none() && none.shown.is_none() && none.hash.is_none());
}

#[test]
fn a_second_write_to_a_path_replaces_what_was_recorded() {
    let mut metrics = Metrics::new();
    run(create("/f.txt", "a\nb\nc", None), ToolKind::Write, TempContentFiles::default(), &mut metrics);
    run(read("q", "/other.txt", false, 1, 1, 1), ToolKind::Read, TempContentFiles::default(), &mut metrics);
    run(create("/f.txt", "z", Some("a\nb\nc")), ToolKind::Write, TempContentFiles::default(), &mut metrics);
    assert_eq!(metrics.len(), 2);
    let recorded = metrics.get("/f.txt").unwrap();
    assert_eq!((recorded.lines_added, recorded.lines_removed), (1, 3));
    assert_eq!(recorded.content_hash, Some(compute_hash("z")));
    assert_eq!(metrics.get("/other.txt").unwrap().content_hash, Some(compute_hash("q")));
    assert!(metrics.get("/missing.txt").is_none());
}

#[test]
fn environment_setters_change_one_limit_each() {
    let env = fixture_environment();
    assert_eq!(env.max_search_lines, 25);
    assert_eq!(env.max_search_result_bytes, 256000);
    assert_eq!(env.fetch_truncation_limit, 55);
    assert_eq!(env.max_read_size, 10);
    assert_eq!(env.stdout_max_prefix_length, 10);
    assert_eq!(env.stdout_max_suffix_length, 10);
    assert_eq!(env.stdout_max_line_length, 2000);
    assert_eq!(env.max_file_size, 262144);
    let moved = env.cwd("/elsewhere".to_string()).stdout_max_line_length(80);
    assert_eq!(moved.cwd, "/elsewhere");
    assert_eq!(moved.stdout_max_line_length, 80);
    assert_eq!(moved.max_search_lines, 25);
}

#[test]
fn a_read_range_lies_within_the_file() {
    let within = |start: u64, end: u64, total: u64| ReadOutput {
        content: Content::file(""),
        start_line: start,
        end_line: end,
        total_lines: total,
        content_hash: String::new(),
    }
    .is_in_range();
    assert!(within(1, 2, 2));
    assert!(within(2, 3, 5));
    assert!(within(3, 3, 3));
    assert!(within(0, 0, 0));
    assert!(within(9, 1, 0));
    assert!(!within(0, 2, 2));
    assert!(!within(3, 2, 5));
    assert!(!within(1, 6, 5));
}
