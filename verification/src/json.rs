use vstd::prelude::*;
use vstd::string::StringExecFns;

use crate::style;
use crate::style::spec_paint;

verus! {

/// A parsed JSON value.  Numbers keep the textual form they were parsed
/// into: the renderer only ever shows them.  Object fields keep their
/// insertion order; keys are neither reordered nor deduplicated.
#[derive(Debug, PartialEq, Eq)]
pub enum JsonValue {
    Null,
    Bool(bool),
    Number(String),
    Text(String),
    Array(Vec<JsonValue>),
    Object(Vec<(String, JsonValue)>),
}

/// Two spaces per nesting level.
pub open spec fn spec_indent(depth: nat) -> Seq<char>
    decreases depth,
{
    if depth == 0 {
        Seq::empty()
    } else {
        spec_indent((depth - 1) as nat) + "  "@
    }
}

/// What the pretty-printer emits for `v` when the current nesting is
/// indented by `ind`.  Each leaf kind has its own fixed color; empty
/// containers stay inline; a non-empty container puts each child on its
/// own line, indented two spaces deeper, children separated by commas with
/// none after the last.
pub open spec fn spec_render(v: JsonValue, ind: Seq<char>, colorize: bool) -> Seq<char>
    decreases v, 0int,
{
    match v {
        JsonValue::Null => spec_paint(style::BRIGHT_MAGENTA@, "null"@, colorize),
        JsonValue::Bool(b) => spec_paint(
            style::BRIGHT_BLUE@,
            if b {
                "true"@
            } else {
                "false"@
            },
            colorize,
        ),
        JsonValue::Number(n) => spec_paint(style::BRIGHT_CYAN@, n@, colorize),
        JsonValue::Text(s) => spec_paint(style::BRIGHT_GREEN@, "\""@ + s@ + "\""@, colorize),
        JsonValue::Array(items) => {
            if items@.len() == 0 {
                spec_paint(style::BRIGHT_BLACK@, "[]"@, colorize)
            } else {
                spec_paint(style::BRIGHT_BLACK@, "["@, colorize) + "\n"@ + spec_render_items_from(
                    items@,
                    0,
                    ind + "  "@,
                    colorize,
                ) + ind + spec_paint(style::BRIGHT_BLACK@, "]"@, colorize)
            }
        },
        JsonValue::Object(fields) => {
            if fields@.len() == 0 {
                spec_paint(style::BRIGHT_BLACK@, "{}"@, colorize)
            } else {
                spec_paint(style::BRIGHT_BLACK@, "{"@, colorize) + "\n"@ + spec_render_fields_from(
                    fields@,
                    0,
                    ind + "  "@,
                    colorize,
                ) + ind + spec_paint(style::BRIGHT_BLACK@, "}"@, colorize)
            }
        },
    }
}

/// The lines for the array elements from position `k` on, one element per
/// line at indentation `ind`, a comma after each but the last.
pub open spec fn spec_render_items_from(
    items: Seq<JsonValue>,
    k: int,
    ind: Seq<char>,
    colorize: bool,
) -> Seq<char>
    decreases items, items.len() - k,
{
    if k < 0 || k >= items.len() {
        Seq::empty()
    } else {
        ind + spec_render(items[k], ind, colorize) + (if k + 1 < items.len() {
            spec_paint(style::BRIGHT_BLACK@, ","@, colorize)
        } else {
            Seq::empty()
        }) + "\n"@ + spec_render_items_from(items, k + 1, ind, colorize)
    }
}

/// One object field: the quoted key in bold, a colon, a space, the value.
pub open spec fn spec_render_field(key: Seq<char>, v: JsonValue, ind: Seq<char>, colorize: bool) -> Seq<char>
    decreases v, 1int,
{
    spec_paint(style::BRIGHT_BLACK@, "\""@, colorize) + spec_paint(
        style::BOLD_BRIGHT_YELLOW@,
        key,
        colorize,
    ) + spec_paint(style::BRIGHT_BLACK@, "\":"@, colorize) + " "@ + spec_render(v, ind, colorize)
}

/// The lines for the object fields from position `k` on.
pub open spec fn spec_render_fields_from(
    fields: Seq<(String, JsonValue)>,
    k: int,
    ind: Seq<char>,
    colorize: bool,
) -> Seq<char>
    decreases fields, fields.len() - k,
{
    if k < 0 || k >= fields.len() {
        Seq::empty()
    } else {
        ind + spec_render_field(fields[k].0@, fields[k].1, ind, colorize) + (if k + 1
            < fields.len() {
            spec_paint(style::BRIGHT_BLACK@, ","@, colorize)
        } else {
            Seq::empty()
        }) + "\n"@ + spec_render_fields_from(fields, k + 1, ind, colorize)
    }
}

/// Renders `v` at the given nesting depth.  The output is a function of
/// the value, the depth and the color switch alone.
pub fn render_json(v: &JsonValue, depth: usize, colorize: bool) -> (r: String)
    ensures
        r@ == spec_render(*v, spec_indent(depth as nat), colorize),
{
    let mut indent = String::new();
    let mut d: usize = 0;
    while d < depth
        invariant
            d <= depth,
            indent@ == spec_indent(d as nat),
        decreases depth - d,
    {
        indent.append("  ");
        d = d + 1;
    }
    let mut out = String::new();
    render_value(v, indent.as_str(), colorize, &mut out);
    out
}

fn render_value(v: &JsonValue, ind: &str, colorize: bool, out: &mut String)
    ensures
        final (out)@ == old(out)@ + spec_render(*v, ind@, colorize),
    decreases *v, 0int,
{
    match v {
        JsonValue::Null => style::paint_into(out, style::BRIGHT_MAGENTA, "null", colorize),
        JsonValue::Bool(b) => {
            let text = if *b {
                "true"
            } else {
                "false"
            };
            style::paint_into(out, style::BRIGHT_BLUE, text, colorize);
        },
        JsonValue::Number(n) => style::paint_into(out, style::BRIGHT_CYAN, n.as_str(), colorize),
        JsonValue::Text(s) => {
            let mut quoted = String::from_str("\"");
            quoted.append(s.as_str());
            quoted.append("\"");
            style::paint_into(out, style::BRIGHT_GREEN, quoted.as_str(), colorize);
        },
        JsonValue::Array(items) => {
            if items.len() == 0 {
                style::paint_into(out, style::BRIGHT_BLACK, "[]", colorize);
            } else {
                style::paint_into(out, style::BRIGHT_BLACK, "[", colorize);
                out.append("\n");
                let mut child_ind = String::from_str(ind);
                child_ind.append("  ");
                render_items(items, child_ind.as_str(), colorize, out);
                out.append(ind);
                style::paint_into(out, style::BRIGHT_BLACK, "]", colorize);
            }
        },
        JsonValue::Object(fields) => {
            if fields.len() == 0 {
                style::paint_into(out, style::BRIGHT_BLACK, "{}", colorize);
            } else {
                style::paint_into(out, style::BRIGHT_BLACK, "{", colorize);
                out.append("\n");
                let mut child_ind = String::from_str(ind);
                child_ind.append("  ");
                render_fields(fields, child_ind.as_str(), colorize, out);
                out.append(ind);
                style::paint_into(out, style::BRIGHT_BLACK, "}", colorize);
            }
        },
    }
}

fn render_items(items: &Vec<JsonValue>, ind: &str, colorize: bool, out: &mut String)
    ensures
        final (out)@ == old(out)@ + spec_render_items_from(items@, 0, ind@, colorize),
    decreases items@, items@.len(),
{
    let ghost base = out@;
    let n = items.len();
    let mut k: usize = 0;
    while k < n
        invariant
            n == items@.len(),
            0 <= k <= n,
            base + spec_render_items_from(items@, 0, ind@, colorize) == out@
                + spec_render_items_from(items@, k as int, ind@, colorize),
        decreases n - k,
    {
        let ghost before = out@;
        out.append(ind);
        render_value(&items[k], ind, colorize, out);
        if k + 1 < n {
            style::paint_into(out, style::BRIGHT_BLACK, ",", colorize);
        }
        out.append("\n");
        proof {
            let sep: Seq<char> = if k + 1 < items@.len() {
                spec_paint(style::BRIGHT_BLACK@, ","@, colorize)
            } else {
                Seq::empty()
            };
            assert(out@ =~= before + (ind@ + spec_render(items@[k as int], ind@, colorize) + sep
                + "\n"@));
            assert(spec_render_items_from(items@, k as int, ind@, colorize) == (ind@ + spec_render(
                items@[k as int],
                ind@,
                colorize,
            ) + sep + "\n"@) + spec_render_items_from(items@, k + 1, ind@, colorize));
            assert(before + ((ind@ + spec_render(items@[k as int], ind@, colorize) + sep + "\n"@)
                + spec_render_items_from(items@, k + 1, ind@, colorize)) =~= out@
                + spec_render_items_from(items@, k + 1, ind@, colorize));
        }
        k = k + 1;
    }
}

fn render_fields(fields: &Vec<(String, JsonValue)>, ind: &str, colorize: bool, out: &mut String)
    ensures
        final (out)@ == old(out)@ + spec_render_fields_from(fields@, 0, ind@, colorize),
    decreases fields@, fields@.len(),
{
    let ghost base = out@;
    let n = fields.len();
    let mut k: usize = 0;
    while k < n
        invariant
            n == fields@.len(),
            0 <= k <= n,
            base + spec_render_fields_from(fields@, 0, ind@, colorize) == out@
                + spec_render_fields_from(fields@, k as int, ind@, colorize),
        decreases n - k,
    {
        let ghost before = out@;
        out.append(ind);
        style::paint_into(out, style::BRIGHT_BLACK, "\"", colorize);
        style::paint_into(out, style::BOLD_BRIGHT_YELLOW, fields[k].0.as_str(), colorize);
        style::paint_into(out, style::BRIGHT_BLACK, "\":", colorize);
        out.append(" ");
        render_value(&fields[k].1, ind, colorize, out);
        if k + 1 < n {
            style::paint_into(out, style::BRIGHT_BLACK, ",", colorize);
        }
        out.append("\n");
        proof {
            let sep: Seq<char> = if k + 1 < fields@.len() {
                spec_paint(style::BRIGHT_BLACK@, ","@, colorize)
            } else {
                Seq::empty()
            };
            let line = ind@ + spec_render_field(
                fields@[k as int].0@,
                fields@[k as int].1,
                ind@,
                colorize,
            ) + sep + "\n"@;
            assert(out@ =~= before + line);
            assert(spec_render_fields_from(fields@, k as int, ind@, colorize) == line
                + spec_render_fields_from(fields@, k + 1, ind@, colorize));
            assert(before + (line + spec_render_fields_from(fields@, k + 1, ind@, colorize)) =~= out@
                + spec_render_fields_from(fields@, k + 1, ind@, colorize));
        }
        k = k + 1;
    }
}

/// Declares serde_json's `Value` so the conversion below can take it; its
/// values stay opaque here.
#[verifier::external_type_specification]
#[verifier::external_body]
pub struct ExValue(serde_json::Value);

/// What serde_json5's parse yields for `s`: `None` when the text is not
/// syntactically valid JSON-tolerant (JSON5) text, otherwise the parsed
/// value in the library's model, converted variant for variant by
/// [`json_value_of_serde`].  Both are a function of the text alone.
pub uninterp spec fn json5_parsed(s: Seq<char>) -> Option<JsonValue>;

/// Relies on serde_json's `Value` having exactly the shape of
/// [`JsonValue`]: each variant is moved across one-to-one, in order,
/// numbers into the textual form their display renders.
#[verifier::external_body]
fn json_value_of_serde(v: serde_json::Value) -> JsonValue {
    match v {
        serde_json::Value::Null => JsonValue::Null,
        serde_json::Value::Bool(b) => JsonValue::Bool(b),
        serde_json::Value::Number(n) => JsonValue::Number(n.to_string()),
        serde_json::Value::String(s) => JsonValue::Text(s),
        serde_json::Value::Array(items) => JsonValue::Array(
            items.into_iter().map(json_value_of_serde).collect(),
        ),
        serde_json::Value::Object(fields) => JsonValue::Object(
            fields.into_iter().map(|(k, inner)| (k, json_value_of_serde(inner))).collect(),
        ),
    }
}

/// Relies on serde_json5's `from_str` into a serde_json `Value`: it
/// accepts exactly the syntactically valid JSON5 texts,
/// deterministically.  An accepted text is handed over as the converted
/// value, a rejected one as the parser's diagnostic.  Deeply nested input
/// can exhaust the stack inside the parser and the conversion.
#[verifier::external_body]
pub fn parse_json5(s: &str) -> (r: Result<JsonValue, String>)
    ensures
        r is Ok <==> json5_parsed(s@) is Some,
        r matches Ok(v) ==> json5_parsed(s@) == Some(v),
{
    match serde_json5::from_str::<serde_json::Value>(s) {
        Ok(v) => Ok(json_value_of_serde(v)),
        Err(e) => Err(e.to_string()),
    }
}

} // verus!
