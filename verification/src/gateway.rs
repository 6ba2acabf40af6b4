use vstd::prelude::*;
use vstd::string::StrSliceExecFns;
use vstd::string::StringExecFns;

verus! {

/// The hexadecimal digit for a value below sixteen.
pub open spec fn hex_digit(n: int) -> char {
    if n == 0 {
        '0'
    } else if n == 1 {
        '1'
    } else if n == 2 {
        '2'
    } else if n == 3 {
        '3'
    } else if n == 4 {
        '4'
    } else if n == 5 {
        '5'
    } else if n == 6 {
        '6'
    } else if n == 7 {
        '7'
    } else if n == 8 {
        '8'
    } else if n == 9 {
        '9'
    } else if n == 10 {
        'a'
    } else if n == 11 {
        'b'
    } else if n == 12 {
        'c'
    } else if n == 13 {
        'd'
    } else if n == 14 {
        'e'
    } else {
        'f'
    }
}

/// How one character appears inside a JSON string literal.
pub open spec fn json_escape_char(c: char) -> Seq<char> {
    if c == '"' {
        "\\\""@
    } else if c == '\\' {
        "\\\\"@
    } else if c == '\n' {
        "\\n"@
    } else if c == '\r' {
        "\\r"@
    } else if c == '\t' {
        "\\t"@
    } else if (c as u32) < 32 {
        "\\u00"@ + seq![hex_digit((c as u32) as int / 16), hex_digit((c as u32) as int % 16)]
    } else {
        seq![c]
    }
}

/// A whole string escaped for use inside a JSON string literal.
pub open spec fn json_escaped(s: Seq<char>) -> Seq<char>
    decreases s.len(),
{
    if s.len() == 0 {
        Seq::<char>::empty()
    } else {
        json_escaped(s.drop_last()) + json_escape_char(s.last())
    }
}

/// Relies on String::push: appends exactly one character to the end.
#[verifier::external_body]
fn push_char(s: &mut String, c: char)
    ensures
        final(s)@ == old(s)@.push(c),
{
    s.push(c);
}

fn hex_digit_char(d: u32) -> (r: char)
    requires
        d < 16,
    ensures
        r == hex_digit(d as int),
{
    if d == 0 {
        '0'
    } else if d == 1 {
        '1'
    } else if d == 2 {
        '2'
    } else if d == 3 {
        '3'
    } else if d == 4 {
        '4'
    } else if d == 5 {
        '5'
    } else if d == 6 {
        '6'
    } else if d == 7 {
        '7'
    } else if d == 8 {
        '8'
    } else if d == 9 {
        '9'
    } else if d == 10 {
        'a'
    } else if d == 11 {
        'b'
    } else if d == 12 {
        'c'
    } else if d == 13 {
        'd'
    } else if d == 14 {
        'e'
    } else {
        'f'
    }
}

fn push_json_escaped(out: &mut String, s: &str)
    ensures
        final(out)@ == old(out)@ + json_escaped(s@),
{
    let n = s.unicode_len();
    for i in 0..n
        invariant
            n == s@.len(),
            out@ == old(out)@ + json_escaped(s@.take(i as int)),
    {
        let ghost pre = out@;
        let c = s.get_char(i);
        if c == '"' {
            out.append("\\\"");
        } else if c == '\\' {
            out.append("\\\\");
        } else if c == '\n' {
            out.append("\\n");
        } else if c == '\r' {
            out.append("\\r");
        } else if c == '\t' {
            out.append("\\t");
        } else if (c as u32) < 32 {
            out.append("\\u00");
            let v = c as u32;
            push_char(out, hex_digit_char(v / 16));
            push_char(out, hex_digit_char(v % 16));
            proof {
                assert(out@ =~= pre + json_escape_char(c));
            }
        } else {
            push_char(out, c);
            proof {
                assert(out@ =~= pre + json_escape_char(c));
            }
        }
        proof {
            assert(s@.take(i + 1).drop_last() =~= s@.take(i as int));
            assert(s@.take(i + 1).last() == s@[i as int]);
            assert(out@ =~= old(out)@ + json_escaped(s@.take(i + 1)));
        }
    }
    proof {
        assert(s@.take(n as int) =~= s@);
    }
}

/// The prompt handed to the local backend: the system prompt immediately
/// followed by the user prompt, with nothing in between.
pub fn combined_prompt(system: &str, user: &str) -> (r: String)
    ensures
        r@ == system@ + user@,
{
    String::from_str(system).concat(user)
}

/// The request document sent to the local backend: the model name, a
/// single user message holding the combined prompt, and streaming
/// switched off.
pub open spec fn spec_ollama_body(model: Seq<char>, full_prompt: Seq<char>) -> Seq<char> {
    "{\"model\":\""@ + json_escaped(model)
        + "\",\"messages\":[{\"role\":\"user\",\"content\":\""@ + json_escaped(full_prompt)
        + "\"}],\"stream\":false}"@
}

pub fn ollama_request_body(model: &str, full_prompt: &str) -> (r: String)
    ensures
        r@ == spec_ollama_body(model@, full_prompt@),
{
    let mut out = String::new();
    out.append("{\"model\":\"");
    push_json_escaped(&mut out, model);
    out.append("\",\"messages\":[{\"role\":\"user\",\"content\":\"");
    push_json_escaped(&mut out, full_prompt);
    out.append("\"}],\"stream\":false}");
    proof {
        assert(out@ =~= spec_ollama_body(model@, full_prompt@));
    }
    out
}

/// The extraction's result as a function of the response body text alone:
/// serde_json's parsing and field lookup depend on nothing but their
/// input, so the composite outcome can be given a name. `Ok(Some(s))`
/// stands for a body that parses as JSON with a "message" object whose
/// "content" field is the string s; `Ok(None)` for a document that parses
/// but lacks that field; `Err` for a body that is not JSON, carrying the
/// parser's report.
pub uninterp spec fn ollama_content_of(body: Seq<char>) -> Result<Option<Seq<char>>, Seq<char>>;

/// The view of an extraction result, for stating contracts over it.
pub open spec fn content_result_view(r: Result<Option<String>, String>) -> Result<
    Option<Seq<char>>,
    Seq<char>,
> {
    match r {
        Ok(Some(s)) => Ok(Some(s@)),
        Ok(None) => Ok(None),
        Err(e) => Err(e@),
    }
}

/// Relies on serde_json::from_str, serde_json::Value::get and
/// serde_json::Value::as_str: all deterministic in the body text, so the
/// composite result is exactly the named `ollama_content_of`. The Err
/// report comes from serde_json::Error's Display impl.
#[verifier::external_body]
fn ollama_content_raw(body: &str) -> (r: Result<Option<String>, String>)
    ensures
        content_result_view(r) == ollama_content_of(body@),
{
    match serde_json::from_str::<serde_json::Value>(body) {
        Err(e) => Err(e.to_string()),
        Ok(v) => match v.get("message").and_then(|m| m.get("content")).and_then(|c| c.as_str()) {
            Some(s) => Ok(Some(s.to_string())),
            None => Ok(None),
        },
    }
}

/// The `message.content` field of a local-backend chat response body:
/// `Ok(Some)` when the field is present as a string, `Ok(None)` when the
/// document parses but the field is missing or not a string, `Err` with
/// the parser's report when the body is not JSON at all.
pub fn extract_ollama_content(body: &str) -> (r: Result<Option<String>, String>)
    ensures
        content_result_view(r) == ollama_content_of(body@),
{
    ollama_content_raw(body)
}

} // verus!
