use vstd::prelude::*;
use crate::lines::{lines, split_lines, string_of_range, text_eq, to_chars, views};

verus! {

/// A character that counts as white space when a text is trimmed.
pub open spec fn is_space(c: char) -> bool {
    let v = c as u32;
    (0x09 <= v <= 0x0D) || v == 0x20 || v == 0x85 || v == 0xA0 || v == 0x1680 || (0x2000 <= v
        <= 0x200A) || v == 0x2028 || v == 0x2029 || v == 0x202F || v == 0x205F || v == 0x3000
}

/// The first position at or after `i` that holds no white space, or the end
/// of the text.
pub open spec fn after_spaces(s: Seq<char>, i: int) -> int
    decreases s.len() - i,
{
    if i < 0 || i >= s.len() {
        s.len() as int
    } else if !is_space(s[i]) {
        i
    } else {
        after_spaces(s, i + 1)
    }
}

/// The position after the last character before `j` that is no white
/// space, or 0 where there is none.
pub open spec fn before_spaces(s: Seq<char>, j: int) -> int
    decreases j,
{
    if j <= 0 || j > s.len() {
        0
    } else if !is_space(s[j - 1]) {
        j
    } else {
        before_spaces(s, j - 1)
    }
}

/// A text without the white space at its start and at its end.
pub open spec fn trimmed(s: Seq<char>) -> Seq<char> {
    let from = after_spaces(s, 0);
    let to = before_spaces(s, s.len() as int);
    if from < to {
        s.subrange(from, to)
    } else {
        Seq::empty()
    }
}

/// `s` starts with `p`.
pub open spec fn has_prefix(s: Seq<char>, p: Seq<char>) -> bool {
    p.len() <= s.len() && s.take(p.len() as int) == p
}

/// Whether a character counts as white space: see [`is_space`].
pub fn is_space_char(c: char) -> (out: bool)
    ensures
        out == is_space(c),
{
    let v: u32 = c as u32;
    (0x09 <= v && v <= 0x0D) || v == 0x20 || v == 0x85 || v == 0xA0 || v == 0x1680 || (0x2000 <= v
        && v <= 0x200A) || v == 0x2028 || v == 0x2029 || v == 0x202F || v == 0x205F || v == 0x3000
}

/// The characters `chars[from..]` without the white space at their start and
/// at their end: see [`trimmed`].
pub fn trim_from(chars: &Vec<char>, from: usize) -> (out: String)
    requires
        from <= chars@.len(),
    ensures
        out@ == trimmed(chars@.skip(from as int)),
{
    let n: usize = chars.len();
    let ghost s = chars@.skip(from as int);
    let mut a: usize = from;
    while a < n && is_space_char(chars[a])
        invariant
            from <= a <= n,
            n == chars@.len(),
            s == chars@.skip(from as int),
            after_spaces(s, 0) == after_spaces(s, a - from),
        decreases n - a,
    {
        assert(s[a - from] == chars@[a as int]);
        a += 1;
    }
    proof {
        if a < n {
            assert(s[a - from] == chars@[a as int]);
        }
    }
    let mut b: usize = n;
    while b > from && is_space_char(chars[b - 1])
        invariant
            from <= b <= n,
            n == chars@.len(),
            s == chars@.skip(from as int),
            before_spaces(s, s.len() as int) == before_spaces(s, b - from),
        decreases b,
    {
        assert(s[b - from - 1] == chars@[b - 1]);
        b -= 1;
    }
    proof {
        if b > from {
            assert(s[b - from - 1] == chars@[b - 1]);
        }
    }
    if a < b {
        let out = string_of_range(chars, a, b);
        assert(chars@.subrange(a as int, b as int) =~= s.subrange(a - from, b - from));
        out
    } else {
        String::new()
    }
}

/// Whether the characters start with a text: see [`has_prefix`].
pub fn starts_with(chars: &Vec<char>, prefix: &str) -> (out: bool)
    ensures
        out == has_prefix(chars@, prefix@),
{
    let p = to_chars(prefix);
    if p.len() > chars.len() {
        return false;
    }
    let mut i: usize = 0;
    while i < p.len()
        invariant
            i <= p@.len() <= chars@.len(),
            p@ == prefix@,
            forall|k: int| 0 <= k < i ==> chars@[k] == p@[k],
        decreases p@.len() - i,
    {
        if chars[i] != p[i] {
            assert(chars@.take(p@.len() as int)[i as int] != p@[i as int]);
            return false;
        }
        i += 1;
    }
    assert(chars@.take(p@.len() as int) =~= p@);
    true
}

/// The line that asks the server for a method.
pub open spec fn request_text(method: Seq<char>) -> Seq<char> {
    "REQUEST:"@ + method + "\n"@
}

/// Writes the line that asks the server for a method.
pub fn request_line(method: &str) -> (out: String)
    ensures
        out@ == request_text(method@),
{
    let mut out = "REQUEST:".to_owned();
    out.append(method);
    out.append("\n");
    out
}

/// Why a response of the server is no answer.
#[derive(Debug)]
pub enum ResponseError {
    /// The server reports an error; this is what it says.
    Server(String),
    /// The response starts neither as an answer nor as an error.
    Invalid,
}

/// What a response of the server means: after `OK:` comes the answer, after
/// `ERROR:` what went wrong, both taken without the white space around
/// them. All else is no response.
pub open spec fn response_meaning(response: Seq<char>) -> Result<Seq<char>, Option<Seq<char>>> {
    if has_prefix(response, "OK:"@) {
        Ok(trimmed(response.skip(3)))
    } else if has_prefix(response, "ERROR:"@) {
        Err(Some(trimmed(response.skip(6))))
    } else {
        Err(None)
    }
}

/// Reads a response of the server: see [`response_meaning`].
pub fn parse_response(response: &str) -> (out: Result<String, ResponseError>)
    ensures
        match out {
            Ok(answer) => response_meaning(response@) == Ok::<Seq<char>, Option<Seq<char>>>(
                answer@,
            ),
            Err(ResponseError::Server(said)) => response_meaning(response@) == Err::<
                Seq<char>,
                Option<Seq<char>>,
            >(Some(said@)),
            Err(ResponseError::Invalid) => response_meaning(response@) == Err::<
                Seq<char>,
                Option<Seq<char>>,
            >(None),
        },
{
    let chars = to_chars(response);
    proof {
        reveal_strlit("OK:");
        reveal_strlit("ERROR:");
    }
    if starts_with(&chars, "OK:") {
        Ok(trim_from(&chars, 3))
    } else if starts_with(&chars, "ERROR:") {
        Err(ResponseError::Server(trim_from(&chars, 6)))
    } else {
        Err(ResponseError::Invalid)
    }
}

impl ResponseError {
    /// The error in words.
    pub fn message(&self) -> (out: String)
        ensures
            out@ == match self {
                ResponseError::Server(said) => "Server error: "@ + said@,
                ResponseError::Invalid => "Invalid response format"@,
            },
    {
        match self {
            ResponseError::Server(said) => {
                let mut out = "Server error: ".to_owned();
                out.append(said.as_str());
                out
            },
            ResponseError::Invalid => "Invalid response format".to_owned(),
        }
    }
}

/// The servers that speak the line protocol. They differ in what they
/// answer.
#[derive(Debug, Clone, Copy, PartialEq, Eq)]
pub enum Dialect {
    /// The server that a program holds as a value.
    Embedded,
    /// The server mode of the program.
    Program,
    /// The server that is a program of its own.
    Standalone,
}

/// What a server answers to a method.
pub open spec fn answer_to(dialect: Dialect, method: Seq<char>) -> Seq<char> {
    if method == "ping"@ {
        "pong"@
    } else if method == "status"@ {
        if dialect == Dialect::Embedded {
            "ok"@
        } else {
            "server_running"@
        }
    } else if method == "version"@ && dialect == Dialect::Standalone {
        "paws_client_server_demo"@
    } else if method == "shutdown"@ {
        "shutting_down"@
    } else if dialect == Dialect::Embedded {
        "unknown_command"@
    } else {
        "unknown_command: "@ + method
    }
}

/// The responses to lines that a client sent, and whether the client asked
/// to shut down.
pub struct Exchange {
    pub responses: Seq<Seq<char>>,
    pub shutdown: bool,
}

/// The responses to the lines that a client sent, in order. Only a line
/// that starts with `REQUEST:` is a request, and what follows is its
/// method. Each response is `OK:`, the answer, and a line feed. After a
/// request to shut down no further line is answered.
pub open spec fn exchange(dialect: Dialect, ls: Seq<Seq<char>>) -> Exchange
    decreases ls.len(),
{
    if ls.len() == 0 {
        Exchange { responses: Seq::empty(), shutdown: false }
    } else if !has_prefix(ls[0], "REQUEST:"@) {
        exchange(dialect, ls.drop_first())
    } else {
        let method = ls[0].skip(8);
        let response = "OK:"@ + answer_to(dialect, method) + "\n"@;
        if method == "shutdown"@ {
            Exchange { responses: seq![response], shutdown: true }
        } else {
            let later = exchange(dialect, ls.drop_first());
            Exchange { responses: seq![response] + later.responses, shutdown: later.shutdown }
        }
    }
}

/// What a server sends back for what a client sent.
#[derive(Debug)]
pub struct Served {
    /// The responses, in order.
    pub responses: Vec<String>,
    /// Whether the client asked to shut down.
    pub shutdown: bool,
}

impl View for Served {
    type V = Exchange;

    open spec fn view(&self) -> Exchange {
        Exchange { responses: views(self.responses@), shutdown: self.shutdown }
    }
}

/// Writes what a server answers to a method: see [`answer_to`].
pub fn answer(dialect: Dialect, method: &str) -> (out: String)
    ensures
        out@ == answer_to(dialect, method@),
{
    let embedded = matches!(dialect, Dialect::Embedded);
    let standalone = matches!(dialect, Dialect::Standalone);
    if text_eq(method, "ping") {
        "pong".to_owned()
    } else if text_eq(method, "status") {
        if embedded {
            "ok".to_owned()
        } else {
            "server_running".to_owned()
        }
    } else if text_eq(method, "version") && standalone {
        "paws_client_server_demo".to_owned()
    } else if text_eq(method, "shutdown") {
        "shutting_down".to_owned()
    } else if embedded {
        "unknown_command".to_owned()
    } else {
        let mut out = "unknown_command: ".to_owned();
        out.append(method);
        out
    }
}

/// Answers what a client sent: see [`exchange`].
pub fn handle_requests(dialect: Dialect, buffer: &str) -> (out: Served)
    ensures
        out@ == exchange(dialect, split_lines(buffer@)),
{
    let ls = lines(buffer);
    let ghost all = views(ls@);
    let mut responses: Vec<String> = Vec::new();
    let mut i: usize = 0;
    let mut stopped = false;
    proof {
        reveal_strlit("REQUEST:");
        assert(all.skip(0) =~= all);
        assert(views(responses@) + exchange(dialect, all).responses =~= exchange(
            dialect,
            all,
        ).responses);
    }
    while i < ls.len() && !stopped
        invariant
            all == views(ls@),
            i <= ls@.len(),
            "REQUEST:"@.len() == 8,
            !stopped ==> exchange(dialect, all).responses == views(responses@) + exchange(
                dialect,
                all.skip(i as int),
            ).responses,
            !stopped ==> exchange(dialect, all).shutdown == exchange(
                dialect,
                all.skip(i as int),
            ).shutdown,
            stopped ==> exchange(dialect, all).responses == views(responses@),
            stopped ==> exchange(dialect, all).shutdown,
        decreases ls@.len() - i + if stopped { 0int } else { 1int },
    {
        let chars = to_chars(ls[i].as_str());
        let ghost rest = all.skip(i as int);
        proof {
            assert(rest[0] == ls@[i as int]@);
            assert(rest.drop_first() =~= all.skip(i + 1));
        }
        if starts_with(&chars, "REQUEST:") {
            let method = string_of_range(&chars, 8, chars.len());
            assert(method@ =~= rest[0].skip(8));
            let mut response = "OK:".to_owned();
            response.append(answer(dialect, method.as_str()).as_str());
            response.append("\n");
            if text_eq(method.as_str(), "shutdown") {
                stopped = true;
            }
            proof {
                assert(views(responses@.push(response)) =~= views(responses@) + seq![response@]);
            }
            responses.push(response);
        }
        if !stopped {
            i += 1;
        }
    }
    proof {
        if !stopped {
            assert(all.skip(ls@.len() as int) =~= Seq::<Seq<char>>::empty());
            assert(views(responses@) + Seq::<Seq<char>>::empty() =~= views(responses@));
        }
    }
    Served { responses, shutdown: stopped }
}

/// The line that tells a client that its request failed.
pub fn error_line(error: &str) -> (out: String)
    ensures
        out@ == "ERROR:"@ + error@ + "\n"@,
{
    let mut out = "ERROR:".to_owned();
    out.append(error);
    out.append("\n");
    out
}

/// The methods that the server knows.
#[derive(Debug, Clone, Copy, PartialEq, Eq)]
pub enum Method {
    Discover,
    GetTools,
    GetModels,
    GetAgents,
    GetProviders,
    Chat,
}

/// The method that a name stands for, if it stands for one.
pub open spec fn method_named(name: Seq<char>) -> Option<Method> {
    if name == "discover"@ {
        Some(Method::Discover)
    } else if name == "get_tools"@ {
        Some(Method::GetTools)
    } else if name == "get_models"@ {
        Some(Method::GetModels)
    } else if name == "get_agents"@ {
        Some(Method::GetAgents)
    } else if name == "get_providers"@ {
        Some(Method::GetProviders)
    } else if name == "chat"@ {
        Some(Method::Chat)
    } else {
        None
    }
}

/// The method that a name stands for, or a note that the name is unknown.
pub fn parse_method(name: &str) -> (out: Result<Method, String>)
    ensures
        match out {
            Ok(method) => method_named(name@) == Some(method),
            Err(note) => method_named(name@) is None && note@ == "Unknown method: "@ + name@,
        },
{
    if text_eq(name, "discover") {
        Ok(Method::Discover)
    } else if text_eq(name, "get_tools") {
        Ok(Method::GetTools)
    } else if text_eq(name, "get_models") {
        Ok(Method::GetModels)
    } else if text_eq(name, "get_agents") {
        Ok(Method::GetAgents)
    } else if text_eq(name, "get_providers") {
        Ok(Method::GetProviders)
    } else if text_eq(name, "chat") {
        Ok(Method::Chat)
    } else {
        let mut note = "Unknown method: ".to_owned();
        note.append(name);
        Err(note)
    }
}

/// What is sent back where a method failed: the error with `Error: ` in
/// front of it.
pub fn error_reply(error: &str) -> (out: String)
    ensures
        out@ == "Error: "@ + error@,
{
    let mut out = "Error: ".to_owned();
    out.append(error);
    out
}

/// What a result that came as text means for the client: a text that starts
/// with `Error: ` reports an error of the server, and all else is a result.
pub open spec fn reported_error(result: Seq<char>) -> Option<Seq<char>> {
    if has_prefix(result, "Error: "@) {
        Some("Server error: "@ + result)
    } else {
        None
    }
}

/// The error that a result reports, if it reports one: see
/// [`reported_error`].
pub fn reply_error(result: &str) -> (out: Option<String>)
    ensures
        match out {
            Some(e) => reported_error(result@) == Some(e@),
            None => reported_error(result@) is None,
        },
{
    let chars = to_chars(result);
    if starts_with(&chars, "Error: ") {
        let mut out = "Server error: ".to_owned();
        out.append(result);
        Some(out)
    } else {
        None
    }
}

} // verus!
