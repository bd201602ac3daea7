use vstd::prelude::*;
use vstd::slice::slice_to_vec;
use vstd::string::StrSliceExecFns;
use vstd::utf8::decode_utf8;
use vstd::utf8::encode_utf8;
use vstd::utf8::valid_utf8;

use crate::cli::BodySource;
use crate::error::Error;
use crate::json;
use crate::text;
use crate::text::eq_split;

verus! {

/// One resolved piece of request body: literal text, or raw bytes read
/// from a file or standard input.
#[derive(Debug, PartialEq, Eq)]
pub enum BodyContent {
    Text(String),
    Binary(Vec<u8>),
}

impl BodyContent {
    /// The bytes this content contributes to the request body.
    pub open spec fn spec_bytes(self) -> Seq<u8> {
        match self {
            BodyContent::Text(s) => encode_utf8(s@),
            BodyContent::Binary(b) => b@,
        }
    }

    /// Whether this content can be interpreted as text at all.
    pub open spec fn spec_is_text(self) -> bool {
        match self {
            BodyContent::Text(_) => true,
            BodyContent::Binary(b) => valid_utf8(b@),
        }
    }

    /// This content as text, assuming it is text.
    pub open spec fn spec_text(self) -> Seq<char> {
        match self {
            BodyContent::Text(s) => s@,
            BodyContent::Binary(b) => decode_utf8(b@),
        }
    }

    /// Whether this content is text holding syntactically valid
    /// JSON-tolerant syntax.
    pub open spec fn spec_is_valid_json(self) -> bool {
        self.spec_is_text() && json::json5_parsed(self.spec_text()) is Some
    }

    /// This content as text; fails on bytes that are not valid UTF-8.
    pub fn to_text(self) -> (r: Result<String, Error>)
        ensures
            r is Ok <==> self.spec_is_text(),
            r matches Ok(s) ==> s@ == self.spec_text(),
            r matches Err(e) ==> e == Error::Utf8DecodeError,
    {
        match self {
            BodyContent::Text(s) => Ok(s),
            BodyContent::Binary(b) => text::string_from_utf8(b),
        }
    }

    /// The bytes of this content: text is encoded as UTF-8, bytes pass
    /// through unchanged.
    pub fn to_bytes(self) -> (r: Vec<u8>)
        ensures
            r@ == self.spec_bytes(),
    {
        match self {
            BodyContent::Text(s) => s.as_str().as_bytes_vec(),
            BodyContent::Binary(b) => b,
        }
    }
}

/// Where one body fragment comes from: literal text, a file path, or
/// standard input.
#[derive(Debug, PartialEq, Eq)]
pub enum FragmentSource {
    Literal(String),
    FilePath(String),
    StandardInput,
}

/// Whether `r` is the source that the path `p` names: `-` names standard
/// input, anything else a file.
pub open spec fn spec_path_source(r: FragmentSource, p: Seq<char>) -> bool {
    if p == "-"@ {
        r is StandardInput
    } else {
        r matches FragmentSource::FilePath(q) && q@ == p
    }
}

/// Whether `r` is the source that the raw fragment `s` denotes: an
/// `@`-prefixed fragment names a path, anything else is literal text.
pub open spec fn spec_fragment_source(r: FragmentSource, s: Seq<char>) -> bool {
    if s.len() > 0 && s[0] == '@' {
        spec_path_source(r, s.drop_first())
    } else {
        r matches FragmentSource::Literal(t) && t@ == s
    }
}

/// The source that the path `p` names.
pub fn path_source(p: &str) -> (r: FragmentSource)
    ensures
        spec_path_source(r, p@),
{
    proof {
        reveal_strlit("-");
    }
    let n = p.unicode_len();
    if n == 1 && p.get_char(0) == '-' {
        proof {
            assert(p@ =~= "-"@);
        }
        FragmentSource::StandardInput
    } else {
        proof {
            assert(p@ != "-"@);
        }
        FragmentSource::FilePath(p.to_owned())
    }
}

/// The source that the raw body fragment `s` denotes.
pub fn classify_fragment(s: &str) -> (r: FragmentSource)
    ensures
        spec_fragment_source(r, s@),
{
    let n = s.unicode_len();
    if n > 0 && s.get_char(0) == '@' {
        let tail = s.substring_char(1, n);
        proof {
            assert(tail@ =~= s@.drop_first());
        }
        path_source(tail)
    } else {
        FragmentSource::Literal(s.to_owned())
    }
}

/// The fragment sources selected by the body-source flags, in argument
/// order: the inline fragment first, classified by its syntax, then the
/// file path, `-` meaning standard input.  Multipart fields are not body
/// fragments and are not planned here.
pub fn plan_from_source(src: &BodySource) -> (r: Vec<FragmentSource>)
    ensures
        src.string matches Some(s) ==> r@.len() == 1 && spec_fragment_source(r@[0], s@),
        src.string is None ==> match src.path {
            Some(p) => r@.len() == 1 && spec_path_source(r@[0], p@),
            None => r@.len() == 0,
        },
        src.string is None && src.path is None ==> r@.len() == 0,
{
    let mut plan: Vec<FragmentSource> = Vec::new();
    if let Some(s) = &src.string {
        plan.push(classify_fragment(s.as_str()));
    } else if let Some(p) = &src.path {
        plan.push(path_source(p.as_str()));
    }
    plan
}

/// Which of the mutually exclusive body kinds is requested.  At most one
/// may be set; the invariant is established at construction.
#[derive(Debug, Copy, Clone, PartialEq, Eq, Structural)]
pub struct BodyFlags {
    pub is_json: bool,
    pub is_url_encoded: bool,
    pub is_multipart: bool,
}

impl BodyFlags {
    pub open spec fn wf(self) -> bool {
        &&& !(self.is_json && self.is_url_encoded)
        &&& !(self.is_json && self.is_multipart)
        &&& !(self.is_url_encoded && self.is_multipart)
    }

    /// Builds the flag set; refused when more than one kind is requested.
    pub fn new(is_json: bool, is_url_encoded: bool, is_multipart: bool) -> (r: Option<BodyFlags>)
        ensures
            r matches Some(f) ==> {
                &&& f.wf()
                &&& f.is_json == is_json
                &&& f.is_url_encoded == is_url_encoded
                &&& f.is_multipart == is_multipart
            },
            r is None <==> (is_json && is_url_encoded) || (is_json && is_multipart) || (
            is_url_encoded && is_multipart),
    {
        if (is_json && is_url_encoded) || (is_json && is_multipart) || (is_url_encoded
            && is_multipart) {
            None
        } else {
            Some(BodyFlags { is_json, is_url_encoded, is_multipart })
        }
    }
}

/// The assembled body from the contents at position `k` on: each
/// fragment's bytes in order, a `&` byte inserted before every fragment —
/// the first included — when the body is URL encoded.
pub open spec fn spec_assembled_from(contents: Seq<BodyContent>, k: int, url_encoded: bool) -> Seq<
    u8,
>
    decreases contents.len() - k,
{
    if k < 0 || k >= contents.len() {
        Seq::empty()
    } else {
        (if url_encoded {
            seq![38u8]
        } else {
            Seq::empty()
        }) + contents[k].spec_bytes() + spec_assembled_from(contents, k + 1, url_encoded)
    }
}

/// Concatenates the body fragments into one byte sequence, in argument
/// order.  When the body is URL encoded, a literal `&` is inserted before
/// each fragment, the first included.  When the body is JSON, every
/// fragment must independently be syntactically valid JSON-tolerant text:
/// the first fragment that is not text fails with `Utf8DecodeError`, the
/// first that does not parse fails with `InvalidJson` carrying the
/// diagnostic, and nothing is assembled.
pub fn assemble_body(contents: &Vec<BodyContent>, flags: &BodyFlags) -> (r: Result<Vec<u8>, Error>)
    requires
        flags.wf(),
        !flags.is_multipart,
    ensures
        r is Ok <==> (flags.is_json ==> forall|i: int|
            0 <= i < contents@.len() ==> #[trigger] contents@[i].spec_is_valid_json()),
        r matches Ok(b) ==> b@ == spec_assembled_from(contents@, 0, flags.is_url_encoded),
        r matches Err(e) ==> flags.is_json && exists|i: int|
            {
                &&& 0 <= i < contents@.len()
                &&& !(#[trigger] contents@[i].spec_is_valid_json())
                &&& forall|j: int| 0 <= j < i ==> #[trigger] contents@[j].spec_is_valid_json()
                &&& if !contents@[i].spec_is_text() {
                    e == Error::Utf8DecodeError
                } else {
                    e is InvalidJson
                }
            },
{
    if flags.is_json {
        let mut i: usize = 0;
        while i < contents.len()
            invariant
                flags.is_json,
                0 <= i <= contents@.len(),
                forall|j: int| 0 <= j < i ==> #[trigger] contents@[j].spec_is_valid_json(),
            decreases contents@.len() - i,
        {
            let fragment_text = match &contents[i] {
                BodyContent::Text(s) => s.clone(),
                BodyContent::Binary(b) => {
                    match text::string_from_utf8(slice_to_vec(b.as_slice())) {
                        Ok(s) => s,
                        Err(e) => {
                            proof {
                                assert(!contents@[i as int].spec_is_text());
                                assert(!contents@[i as int].spec_is_valid_json());
                                assert(!(forall|q: int|
                                    0 <= q < contents@.len()
                                        ==> #[trigger] contents@[q].spec_is_valid_json()));
                            }
                            return Err(e);
                        },
                    }
                },
            };
            proof {
                assert(contents@[i as int].spec_is_text());
                assert(fragment_text@ == contents@[i as int].spec_text());
            }
            if let Err(diagnostic) = json::parse_json5(fragment_text.as_str()) {
                proof {
                    assert(!contents@[i as int].spec_is_valid_json());
                    assert(!(forall|q: int|
                        0 <= q < contents@.len()
                            ==> #[trigger] contents@[q].spec_is_valid_json()));
                }
                return Err(Error::InvalidJson(diagnostic));
            }
            proof {
                assert(contents@[i as int].spec_is_valid_json());
            }
            i = i + 1;
        }
    }
    let mut bytes: Vec<u8> = Vec::new();
    let mut k: usize = 0;
    while k < contents.len()
        invariant
            0 <= k <= contents@.len(),
            bytes@ + spec_assembled_from(contents@, k as int, flags.is_url_encoded)
                == spec_assembled_from(contents@, 0, flags.is_url_encoded),
            flags.is_json ==> forall|j: int|
                0 <= j < contents@.len() ==> #[trigger] contents@[j].spec_is_valid_json(),
        decreases contents@.len() - k,
    {
        let ghost before = bytes@;
        if flags.is_url_encoded {
            bytes.push(38u8);
        }
        let mut fragment = match &contents[k] {
            BodyContent::Text(s) => s.as_str().as_bytes_vec(),
            BodyContent::Binary(b) => slice_to_vec(b.as_slice()),
        };
        bytes.append(&mut fragment);
        proof {
            let sep: Seq<u8> = if flags.is_url_encoded {
                seq![38u8]
            } else {
                Seq::empty()
            };
            assert(bytes@ =~= before + (sep + contents@[k as int].spec_bytes()));
            assert(before + ((sep + contents@[k as int].spec_bytes()) + spec_assembled_from(
                contents@,
                k + 1,
                flags.is_url_encoded,
            )) =~= bytes@ + spec_assembled_from(contents@, k + 1, flags.is_url_encoded));
        }
        k = k + 1;
    }
    Ok(bytes)
}

/// Splits each `name=value` form field at its first `=` into one multipart
/// text field, in argument order.  Fails with `InvalidFormField` naming
/// the first field without `=`.
pub fn parse_form_fields(fields: &Vec<String>) -> (r: Result<Vec<(String, String)>, Error>)
    ensures
        r is Ok <==> (forall|i: int|
            0 <= i < fields@.len() ==> #[trigger] eq_split(fields@[i]@) is Some),
        r matches Ok(pairs) ==> pairs@.len() == fields@.len() && forall|i: int|
            0 <= i < fields@.len() ==> (#[trigger] pairs@[i].0@, pairs@[i].1@) == eq_split(
                fields@[i]@,
            )->Some_0,
        r matches Err(e) ==> exists|i: int|
            {
                &&& 0 <= i < fields@.len()
                &&& #[trigger] eq_split(fields@[i]@) is None
                &&& forall|j: int| 0 <= j < i ==> #[trigger] eq_split(fields@[j]@) is Some
                &&& e == Error::InvalidFormField(fields@[i])
            },
{
    let mut pairs: Vec<(String, String)> = Vec::new();
    let mut i: usize = 0;
    while i < fields.len()
        invariant
            0 <= i <= fields@.len(),
            pairs@.len() == i,
            forall|j: int| 0 <= j < i ==> #[trigger] eq_split(fields@[j]@) is Some,
            forall|j: int|
                0 <= j < i ==> (#[trigger] pairs@[j].0@, pairs@[j].1@) == eq_split(
                    fields@[j]@,
                )->Some_0,
        decreases fields@.len() - i,
    {
        match text::split_key_value(fields[i].as_str()) {
            Some(kv) => {
                pairs.push(kv);
            },
            None => {
                return Err(Error::InvalidFormField(fields[i].clone()));
            },
        }
        i = i + 1;
    }
    Ok(pairs)
}

/// The content type the body kind implies, if any.  Multipart bodies get
/// none here: the transport sets its own boundary-bearing content type.
pub fn content_type_for(flags: &BodyFlags) -> (r: Option<&'static str>)
    ensures
        flags.is_json ==> (r matches Some(s) && s@ == "application/json"@),
        !flags.is_json && flags.is_url_encoded ==> (r matches Some(s) && s@
            == "application/x-www-form-urlencoded"@),
        !flags.is_json && !flags.is_url_encoded ==> r is None,
{
    if flags.is_json {
        Some("application/json")
    } else if flags.is_url_encoded {
        Some("application/x-www-form-urlencoded")
    } else {
        None
    }
}

} // verus!
