use vstd::prelude::*;
use crate::decimal::{decimal, format_i64, format_u64, format_usize, push_decimal, signed_decimal};
use crate::domain::{
    Environment, HttpResponse, NetFetch, PlanCreate, PlanCreateOutput, ResponseContext,
    ShellOutput, Skill,
};
use crate::element::{bare, cdata_wrap, escape, CanAppend, Element, Markup};
use crate::render_search::with_attr;
use crate::stream::{create_stream_element, stream_markup, text_view_str};
use crate::truncate_fetch::{fetch_prefix, truncate_fetch_content};
use crate::truncate_shell::{cut_stream, truncate_shell_output};
use crate::width::{byte_len, byte_length};

verus! {

/// The content type that is reported for fetched content: markdown for
/// content that was converted, else the type that was sent.
pub open spec fn content_type_label(output: HttpResponse) -> Seq<char> {
    match output.context {
        ResponseContext::Parsed => "text/markdown"@,
        ResponseContext::Raw => output.content_type@,
    }
}

/// The note that tells where the whole of cut content can be read.
pub open spec fn fetch_note(limit: nat, path: Seq<char>) -> Seq<char> {
    "Content is truncated to "@ + decimal(limit)
        + " chars, remaining content can be read from path: "@ + path
}

/// Fetched content as an element: the URL, the status code, the range that
/// is shown and the size of the whole, both in bytes, the content type, and
/// a `body` child with the content cut to `limit` bytes. Where content was
/// left out and the whole was stored at `spill`, a `truncated` child says so.
pub open spec fn fetch_markup(
    input: NetFetch,
    output: HttpResponse,
    limit: nat,
    spill: Option<Seq<char>>,
) -> Markup {
    let size = byte_len(output.content@);
    let body = Markup {
        text: Some(cdata_wrap(fetch_prefix(output.content@, limit))),
        ..bare("body"@)
    };
    Markup {
        name: "http_response"@,
        attrs: seq![
            ("url"@, input.url@),
            ("status_code"@, decimal(output.code as nat)),
            ("start_char"@, decimal(0)),
            ("end_char"@, decimal(if limit < size { limit } else { size })),
            ("total_chars"@, decimal(size)),
            ("content_type"@, content_type_label(output)),
        ],
        children: if size > limit && spill is Some {
            seq![
                body,
                Markup { text: Some(escape(fetch_note(limit, spill->0))), ..bare("truncated"@) },
            ]
        } else {
            seq![body]
        },
        text: None,
    }
}

/// Writes fetched content as an element: see [`fetch_markup`].
pub fn fetch_element(input: &NetFetch, output: &HttpResponse, limit: usize, spill: Option<&str>)
    -> (out: Element)
    ensures
        out@ == fetch_markup(*input, *output, limit as nat, text_view_str(spill)),
{
    let size = byte_length(output.content.as_str());
    let label = match output.context {
        ResponseContext::Parsed => "text/markdown".to_owned(),
        ResponseContext::Raw => output.content_type.clone(),
    };
    let shown = truncate_fetch_content(output.content.as_str(), limit);
    let code = format_u64(output.code as u64);
    let first = format_u64(0);
    let last = format_usize(if limit < size { limit } else { size });
    let whole = format_usize(size);
    let head = Element::new("http_response").attr("url", input.url.as_str()).attr(
        "status_code",
        code.as_str(),
    ).attr("start_char", first.as_str()).attr("end_char", last.as_str()).attr(
        "total_chars",
        whole.as_str(),
    ).attr("content_type", label.as_str());
    assert(head@.attrs =~= fetch_markup(*input, *output, limit as nat, text_view_str(spill)).attrs);
    let body = Element::new("body").cdata(shown.content.as_str());
    let with_body = head.append(body);
    assert(with_body@.children =~= seq![body@]);
    match spill {
        Some(path) => {
            if size > limit {
                let mut note = "Content is truncated to ".to_owned();
                push_decimal(&mut note, limit as u64);
                note.append(" chars, remaining content can be read from path: ");
                note.append(path);
                assert(note@ =~= fetch_note(limit as nat, path@));
                let told = Element::new("truncated").text(note.as_str());
                let out = with_body.append(told);
                assert(out@.children =~= seq![body@, told@]);
                assert(out@.children == fetch_markup(
                    *input,
                    *output,
                    limit as nat,
                    text_view_str(spill),
                ).children);
                out
            } else {
                with_body
            }
        },
        None => with_body,
    }
}

/// The elements of an optional element.
pub open spec fn present(m: Option<Markup>) -> Seq<Markup> {
    match m {
        Some(m) => seq![m],
        None => Seq::empty(),
    }
}

/// The output of a command as an element: the command, the shell, the exit
/// code where there is one, and a child for each stream of which something
/// is shown, standard output first. Each stream is cut by the limits of
/// `env` and bears the path of its whole output where there is one.
pub open spec fn shell_markup(
    output: ShellOutput,
    stdout_path: Option<Seq<char>>,
    stderr_path: Option<Seq<char>>,
    env: Environment,
) -> Markup {
    let prefix = env.stdout_max_prefix_length as nat;
    let suffix = env.stdout_max_suffix_length as nat;
    let width = env.stdout_max_line_length as nat;
    Markup {
        name: "shell_output"@,
        attrs: with_attr(
            seq![("command"@, output.output.command@), ("shell"@, output.shell@)],
            "exit_code"@,
            match output.output.exit_code {
                Some(code) => Some(signed_decimal(code as int)),
                None => None,
            },
        ),
        children: present(
            stream_markup(
                "stdout"@,
                cut_stream(output.output.stdout@, prefix, suffix, width),
                stdout_path,
            ),
        ) + present(
            stream_markup(
                "stderr"@,
                cut_stream(output.output.stderr@, prefix, suffix, width),
                stderr_path,
            ),
        ),
        text: None,
    }
}

/// Writes the output of a command as an element: see [`shell_markup`].
pub fn shell_element(
    output: &ShellOutput,
    stdout_path: Option<&str>,
    stderr_path: Option<&str>,
    env: &Environment,
) -> (out: Element)
    requires
        byte_len(output.output.stdout@) < usize::MAX,
        byte_len(output.output.stderr@) < usize::MAX,
    ensures
        out@ == shell_markup(
            *output,
            text_view_str(stdout_path),
            text_view_str(stderr_path),
            *env,
        ),
{
    let start = Element::new("shell_output").attr("command", output.output.command.as_str()).attr(
        "shell",
        output.shell.as_str(),
    );
    assert(start@.attrs =~= seq![("command"@, output.output.command@), ("shell"@, output.shell@)]);
    let coded = match output.output.exit_code {
        Some(code) => {
            let text = format_i64(code as i64);
            start.attr("exit_code", text.as_str())
        },
        None => start,
    };
    let cut = truncate_shell_output(
        output.output.stdout.as_str(),
        output.output.stderr.as_str(),
        env.stdout_max_prefix_length,
        env.stdout_max_suffix_length,
        env.stdout_max_line_length,
    );
    let first = create_stream_element(&cut.stdout, stdout_path);
    let second = create_stream_element(&cut.stderr, stderr_path);
    let ghost kids = first.items() + second.items();
    let with_first = coded.append(first);
    let out = with_first.append(second);
    assert(out@.children =~= kids);
    out
}

/// Feedback as an element: the text that was given, or a note that none was.
pub open spec fn follow_up_markup(output: Option<String>) -> Markup {
    match output {
        Some(text) => Markup { text: Some(escape(text@)), ..bare("feedback"@) },
        None => Markup { text: Some(escape("No feedback provided"@)), ..bare("interrupted"@) },
    }
}

/// Writes feedback as an element: see [`follow_up_markup`].
pub fn follow_up_element(output: &Option<String>) -> (out: Element)
    ensures
        out@ == follow_up_markup(*output),
{
    match output {
        Some(text) => Element::new("feedback").text(text.as_str()),
        None => Element::new("interrupted").text("No feedback provided"),
    }
}

/// A stored plan as an element: where it is stored, its name and its
/// version.
pub open spec fn plan_markup(input: PlanCreate, output: PlanCreateOutput) -> Markup {
    Markup {
        attrs: seq![
            ("path"@, output.path@),
            ("plan_name"@, input.plan_name@),
            ("version"@, input.version@),
        ],
        ..bare("plan_created"@)
    }
}

/// Writes a stored plan as an element: see [`plan_markup`].
pub fn plan_element(input: &PlanCreate, output: &PlanCreateOutput) -> (out: Element)
    ensures
        out@ == plan_markup(*input, *output),
{
    let out = Element::new("plan_created").attr("path", output.path.as_str()).attr(
        "plan_name",
        input.plan_name.as_str(),
    ).attr("version", input.version.as_str());
    assert(out@.attrs =~= plan_markup(*input, *output).attrs);
    out
}

/// A resource of a skill as an element.
pub open spec fn resource_markup(path: Seq<char>) -> Markup {
    Markup { text: Some(escape(path)), ..bare("resource"@) }
}

/// A skill as an element: a `command` child with the command text, which
/// bears the place of the skill where it is known, and a `resource` child for
/// each resource, in order.
pub open spec fn skill_markup(output: Skill) -> Markup {
    let command = Markup {
        name: "command"@,
        attrs: with_attr(
            Seq::empty(),
            "location"@,
            match output.path {
                Some(p) => Some(p@),
                None => None,
            },
        ),
        children: Seq::empty(),
        text: Some(cdata_wrap(output.command@)),
    };
    Markup {
        children: seq![command] + output.resources@.map_values(
            |r: String| resource_markup(r@),
        ),
        ..bare("skill_details"@)
    }
}

/// Writes a skill as an element: see [`skill_markup`].
pub fn skill_element(output: &Skill) -> (out: Element)
    ensures
        out@ == skill_markup(*output),
{
    let named = match &output.path {
        Some(p) => Element::new("command").attr("location", p.as_str()),
        None => Element::new("command"),
    };
    let command = named.cdata(output.command.as_str());
    let mut resources: Vec<Element> = Vec::new();
    let mut i: usize = 0;
    let ghost want = output.resources@.map_values(|r: String| resource_markup(r@));
    assert(resources.items() =~= want.take(0));
    while i < output.resources.len()
        invariant
            i <= output.resources@.len(),
            want == output.resources@.map_values(|r: String| resource_markup(r@)),
            resources@.len() == i,
            resources.items() == want.take(i as int),
        decreases output.resources@.len() - i,
    {
        let resource = Element::new("resource").text(output.resources[i].as_str());
        proof {
            assert(resource@ == want[i as int]);
            assert(resources@.push(resource).map_values(|e: Element| e@) =~= want.take(i + 1));
        }
        resources.push(resource);
        i += 1;
    }
    assert(want.take(output.resources@.len() as int) =~= want);
    let with_command = Element::new("skill_details").append(command);
    let out = with_command.append(resources);
    assert(out@.children =~= seq![command@] + want);
    out
}

} // verus!
