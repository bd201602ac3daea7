use vstd::prelude::*;
use vstd::string::StringExecFns;
use vstd::utf8::decode_utf8;
use vstd::utf8::valid_utf8;

use crate::error::Error;
use crate::json;
use crate::style;
use crate::style::spec_paint;
use crate::text;

verus! {

/// The class of an HTTP status code.
#[derive(Debug, Copy, Clone, PartialEq, Eq, Structural)]
pub enum StatusClass {
    Informational,
    Success,
    Redirection,
    ClientError,
    ServerError,
    Other,
}

pub open spec fn spec_status_class(code: u16) -> StatusClass {
    if 100 <= code < 200 {
        StatusClass::Informational
    } else if 200 <= code < 300 {
        StatusClass::Success
    } else if 300 <= code < 400 {
        StatusClass::Redirection
    } else if 400 <= code < 500 {
        StatusClass::ClientError
    } else if 500 <= code < 600 {
        StatusClass::ServerError
    } else {
        StatusClass::Other
    }
}

pub fn status_class(code: u16) -> (r: StatusClass)
    ensures
        r == spec_status_class(code),
{
    if 100 <= code && code < 200 {
        StatusClass::Informational
    } else if 200 <= code && code < 300 {
        StatusClass::Success
    } else if 300 <= code && code < 400 {
        StatusClass::Redirection
    } else if 400 <= code && code < 500 {
        StatusClass::ClientError
    } else if 500 <= code && code < 600 {
        StatusClass::ServerError
    } else {
        StatusClass::Other
    }
}

/// The ANSI color for a status class: informational blue, success green,
/// redirection yellow, client and server errors red, anything else
/// uncolored.
pub open spec fn spec_status_color(class: StatusClass) -> Seq<char> {
    match class {
        StatusClass::Informational => style::BLUE@,
        StatusClass::Success => style::GREEN@,
        StatusClass::Redirection => style::YELLOW@,
        StatusClass::ClientError => style::RED@,
        StatusClass::ServerError => style::RED@,
        StatusClass::Other => Seq::empty(),
    }
}

pub fn status_color(class: StatusClass) -> (r: &'static str)
    ensures
        r@ == spec_status_color(class),
{
    match class {
        StatusClass::Informational => style::BLUE,
        StatusClass::Success => style::GREEN,
        StatusClass::Redirection => style::YELLOW,
        StatusClass::ClientError => style::RED,
        StatusClass::ServerError => style::RED,
        StatusClass::Other => {
            proof {
                reveal_strlit("");
                assert(""@ =~= Seq::<char>::empty());
            }
            ""
        },
    }
}

/// Every status code's color comes from its class alone: informational
/// codes render blue, successes green, redirections yellow, client and
/// server errors red, and codes outside every class stay uncolored.
pub proof fn lemma_status_color_classes(code: u16)
    ensures
        100 <= code < 200 ==> spec_status_color(spec_status_class(code)) == style::BLUE@,
        200 <= code < 300 ==> spec_status_color(spec_status_class(code)) == style::GREEN@,
        300 <= code < 400 ==> spec_status_color(spec_status_class(code)) == style::YELLOW@,
        400 <= code < 600 ==> spec_status_color(spec_status_class(code)) == style::RED@,
        code < 100 || code >= 600 ==> spec_status_color(spec_status_class(code))
            == Seq::<char>::empty(),
{
}

/// The status line as printed: bold and colored by the code's class when
/// colorizing, the bare status text otherwise.
pub open spec fn spec_status_line(status: Seq<char>, code: u16, colorize: bool) -> Seq<char> {
    if colorize {
        style::BOLD@ + spec_status_color(spec_status_class(code)) + status + style::RESET@
    } else {
        status
    }
}

pub fn render_status_line(status: &str, code: u16, colorize: bool) -> (r: String)
    ensures
        r@ == spec_status_line(status@, code, colorize),
{
    if colorize {
        let mut out = String::from_str(style::BOLD);
        out.append(status_color(status_class(code)));
        out.append(status);
        out.append(style::RESET);
        out
    } else {
        String::from_str(status)
    }
}

/// One response header line as printed: the name bold yellow, the `=`
/// dimmed, the value bare.
pub open spec fn spec_header_line(name: Seq<char>, value: Seq<char>, colorize: bool) -> Seq<char> {
    spec_paint(style::BOLD_YELLOW@, name, colorize) + spec_paint(style::DIM@, "="@, colorize)
        + value
}

pub fn render_header_line(name: &str, value: &str, colorize: bool) -> (r: String)
    ensures
        r@ == spec_header_line(name@, value@, colorize),
{
    let mut out = String::new();
    style::paint_into(&mut out, style::BOLD_YELLOW, name, colorize);
    style::paint_into(&mut out, style::DIM, "=", colorize);
    out.append(value);
    out
}

/// The response header lines in declaration order.
pub fn render_header_lines(headers: &Vec<(String, String)>, colorize: bool) -> (r: Vec<String>)
    ensures
        r@.len() == headers@.len(),
        forall|i: int|
            0 <= i < headers@.len() ==> #[trigger] r@[i]@ == spec_header_line(
                headers@[i].0@,
                headers@[i].1@,
                colorize,
            ),
{
    let mut lines: Vec<String> = Vec::new();
    let mut i: usize = 0;
    while i < headers.len()
        invariant
            0 <= i <= headers@.len(),
            lines@.len() == i,
            forall|j: int|
                0 <= j < i ==> #[trigger] lines@[j]@ == spec_header_line(
                    headers@[j].0@,
                    headers@[j].1@,
                    colorize,
                ),
        decreases headers@.len() - i,
    {
        lines.push(render_header_line(headers[i].0.as_str(), headers[i].1.as_str(), colorize));
        i = i + 1;
    }
    lines
}

/// Whether one header marks the body as JSON: its name is `content-type`
/// up to ASCII case and its value holds the text `application/json`.
pub open spec fn spec_json_header(name: Seq<char>, value: Seq<char>) -> bool {
    text::eq_ignore_ascii_case_seq(name, "content-type"@) && text::contains_seq(
        value,
        "application/json"@,
    )
}

/// Whether the response headers mark the body as JSON.
pub open spec fn spec_response_is_json(headers: Seq<(String, String)>) -> bool {
    exists|i: int|
        0 <= i < headers.len() && #[trigger] spec_json_header(headers[i].0@, headers[i].1@)
}

pub fn response_is_json(headers: &Vec<(String, String)>) -> (r: bool)
    ensures
        r == spec_response_is_json(headers@),
{
    let mut i: usize = 0;
    while i < headers.len()
        invariant
            0 <= i <= headers@.len(),
            forall|j: int| 0 <= j < i ==> !#[trigger] spec_json_header(headers@[j].0@, headers@[j].1@),
        decreases headers@.len() - i,
    {
        if text::str_eq_ignore_ascii_case(headers[i].0.as_str(), "content-type")
            && text::str_contains_str(headers[i].1.as_str(), "application/json") {
            proof {
                assert(spec_json_header(headers@[i as int].0@, headers@[i as int].1@));
            }
            return true;
        }
        i = i + 1;
    }
    false
}

/// What is written for the response body: raw bytes, or a pretty-printed
/// JSON rendering.
#[derive(Debug, PartialEq, Eq)]
pub enum RenderedBody {
    Raw(Vec<u8>),
    Pretty(String),
}

/// Routes the response body.  A body the headers do not mark as JSON
/// passes through byte for byte.  A JSON body is decoded as UTF-8 (failing
/// with `Utf8DecodeError` on other bytes), parsed JSON5-tolerantly
/// (failing with `InvalidJson` and the diagnostic when malformed), and
/// pretty-printed at depth zero with a final newline.
pub fn render_body(headers: &Vec<(String, String)>, body: Vec<u8>, colorize: bool) -> (r: Result<
    RenderedBody,
    Error,
>)
    ensures
        !spec_response_is_json(headers@) ==> (r matches Ok(b) && b matches RenderedBody::Raw(bytes)
            && bytes@ == body@),
        spec_response_is_json(headers@) ==> (r is Ok <==> (valid_utf8(body@) && json::json5_parsed(
            decode_utf8(body@),
        ) is Some)),
        spec_response_is_json(headers@) ==> match r {
            Ok(b) => b matches RenderedBody::Pretty(t) && t@ == json::spec_render(
                json::json5_parsed(decode_utf8(body@))->Some_0,
                Seq::empty(),
                colorize,
            ) + "\n"@,
            Err(e) => {
                if !valid_utf8(body@) {
                    e == Error::Utf8DecodeError
                } else {
                    e is InvalidJson
                }
            },
        },
{
    if response_is_json(headers) {
        let decoded = match text::string_from_utf8(body) {
            Ok(s) => s,
            Err(e) => {
                return Err(e);
            },
        };
        match json::parse_json5(decoded.as_str()) {
            Ok(v) => {
                let mut t = json::render_json(&v, 0, colorize);
                t.append("\n");
                proof {
                    assert(json::spec_indent(0) =~= Seq::<char>::empty());
                    assert(t@ == json::spec_render(v, Seq::empty(), colorize) + "\n"@);
                }
                Ok(RenderedBody::Pretty(t))
            },
            Err(diagnostic) => Err(Error::InvalidJson(diagnostic)),
        }
    } else {
        Ok(RenderedBody::Raw(body))
    }
}

} // verus!
