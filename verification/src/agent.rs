use vstd::prelude::*;
use vstd::string::StringExecFns;
use vstd::string::StringSliceAdditionalSpecFns;

use crate::json::Json;
use crate::json::json_lookup;
use crate::json::parse_json;
use crate::json::spec_lookup;
use crate::json::spec_parse_json;

verus! {

/// Request payload of the `agent_respond` command.
pub struct AgentReq {
    pub persona: String,
    pub task: String,
    pub user_msg: String,
}

/// The fixed two-line instruction block with `persona` and `task` substituted.
pub open spec fn spec_instructions(persona: Seq<char>, task: Seq<char>) -> Seq<char> {
    "You are an on-device assistant.\nPersonality: "@ + persona + "\nTask: "@ + task
        + "\n- Be concise.\n"@
}

/// The full prompt: the instruction block, a blank line, the user's message
/// between the literal `User: ` prefix and `\nAssistant:` suffix.  No
/// escaping is performed, so the inputs can inject the literal markers.
pub open spec fn spec_prompt(persona: Seq<char>, task: Seq<char>, user_msg: Seq<char>) -> Seq<
    char,
> {
    spec_instructions(persona, task) + "\n\nUser: "@ + user_msg + "\nAssistant:"@
}

/// Builds the instruction block by template substitution, exactly as
/// `spec_instructions` states, for every input string.
pub fn build_instructions(persona: &str, task: &str) -> (r: String)
    ensures
        r@ == spec_instructions(persona@, task@),
{
    let mut s = String::from_str("You are an on-device assistant.\nPersonality: ");
    s.append(persona);
    s.append("\nTask: ");
    s.append(task);
    s.append("\n- Be concise.\n");
    proof {
        assert(s@ =~= spec_instructions(persona@, task@));
    }
    s
}

/// Builds the full prompt for a request, exactly as `spec_prompt` states.
pub fn build_prompt(req: &AgentReq) -> (r: String)
    ensures
        r@ == spec_prompt(req.persona@, req.task@, req.user_msg@),
{
    let mut s = build_instructions(req.persona.as_str(), req.task.as_str());
    s.append("\n\nUser: ");
    s.append(req.user_msg.as_str());
    s.append("\nAssistant:");
    proof {
        assert(s@ =~= spec_prompt(req.persona@, req.task@, req.user_msg@));
    }
    s
}

/// The byte of the lowercase hexadecimal digit for `n` (`n < 16`).
pub open spec fn spec_hex_char(n: u8) -> u8 {
    if n < 10 {
        (48 + n) as u8
    } else {
        (87 + n) as u8
    }
}

/// How a single byte of a string appears inside a JSON string literal:
/// quote and backslash get a backslash escape, the named control characters
/// their short escapes, the remaining control characters a `\u00..` escape,
/// and every other byte stands for itself.
pub open spec fn spec_escape_byte(b: u8) -> Seq<u8> {
    if b == 0x22 {
        seq![0x5cu8, 0x22u8]
    } else if b == 0x5c {
        seq![0x5cu8, 0x5cu8]
    } else if b == 0x08 {
        seq![0x5cu8, 0x62u8]
    } else if b == 0x09 {
        seq![0x5cu8, 0x74u8]
    } else if b == 0x0a {
        seq![0x5cu8, 0x6eu8]
    } else if b == 0x0c {
        seq![0x5cu8, 0x66u8]
    } else if b == 0x0d {
        seq![0x5cu8, 0x72u8]
    } else if b < 0x20 {
        seq![0x5cu8, 0x75u8, 0x30u8, 0x30u8, spec_hex_char(b / 16), spec_hex_char(b % 16)]
    } else {
        seq![b]
    }
}

/// The bytes of `s` escaped for a JSON string literal, in order.
pub open spec fn spec_escape(s: Seq<u8>) -> Seq<u8>
    decreases s.len(),
{
    if s.len() == 0 {
        Seq::<u8>::empty()
    } else {
        spec_escape_byte(s[0]) + spec_escape(s.drop_first())
    }
}

proof fn lemma_escape_snoc(s: Seq<u8>, b: u8)
    ensures
        spec_escape(s.push(b)) == spec_escape(s) + spec_escape_byte(b),
    decreases s.len(),
{
    if s.len() == 0 {
        assert(spec_escape(Seq::<u8>::empty()) == Seq::<u8>::empty());
        assert(s.push(b)[0] == b);
        assert(s.push(b).drop_first() =~= Seq::<u8>::empty());
        assert(spec_escape(s.push(b)) == spec_escape_byte(b) + spec_escape(Seq::<u8>::empty()));
        assert(s =~= Seq::<u8>::empty());
        assert(spec_escape(s.push(b)) =~= spec_escape(s) + spec_escape_byte(b));
    } else {
        lemma_escape_snoc(s.drop_first(), b);
        assert(s.push(b)[0] == s[0]);
        assert(s.push(b).drop_first() =~= s.drop_first().push(b));
        assert(spec_escape(s.push(b)) == spec_escape_byte(s[0]) + spec_escape(
            s.drop_first().push(b),
        ));
        assert(spec_escape(s) == spec_escape_byte(s[0]) + spec_escape(s.drop_first()));
        assert(spec_escape(s.push(b)) =~= spec_escape(s) + spec_escape_byte(b));
    }
}

/// Appends every byte of `s` to `out`, in order.
pub fn append_bytes(out: &mut Vec<u8>, s: &[u8])
    ensures
        final(out)@ == old(out)@ + s@,
{
    let mut i: usize = 0;
    proof {
        assert(s@.subrange(0, 0) =~= Seq::<u8>::empty());
        assert(old(out)@ + s@.subrange(0, 0) =~= old(out)@);
    }
    while i < s.len()
        invariant
            i <= s@.len(),
            out@ == old(out)@ + s@.subrange(0, i as int),
        decreases s@.len() - i,
    {
        out.push(s[i]);
        proof {
            assert(s@.subrange(0, i + 1) =~= s@.subrange(0, i as int).push(s@[i as int]));
            assert(out@ =~= old(out)@ + s@.subrange(0, i + 1));
        }
        i = i + 1;
    }
    proof {
        assert(s@.subrange(0, s@.len() as int) =~= s@);
    }
}

/// Appends the escape of one byte to `out`, as `spec_escape_byte` states.
fn push_escaped(out: &mut Vec<u8>, b: u8)
    ensures
        final(out)@ == old(out)@ + spec_escape_byte(b),
{
    if b == 0x22 {
        out.push(0x5c);
        out.push(0x22);
    } else if b == 0x5c {
        out.push(0x5c);
        out.push(0x5c);
    } else if b == 0x08 {
        out.push(0x5c);
        out.push(0x62);
    } else if b == 0x09 {
        out.push(0x5c);
        out.push(0x74);
    } else if b == 0x0a {
        out.push(0x5c);
        out.push(0x6e);
    } else if b == 0x0c {
        out.push(0x5c);
        out.push(0x66);
    } else if b == 0x0d {
        out.push(0x5c);
        out.push(0x72);
    } else if b < 0x20 {
        out.push(0x5c);
        out.push(0x75);
        out.push(0x30);
        out.push(0x30);
        let hi = b / 16;
        let lo = b % 16;
        let hic = if hi < 10 {
            48 + hi
        } else {
            87 + hi
        };
        let loc = if lo < 10 {
            48 + lo
        } else {
            87 + lo
        };
        out.push(hic);
        out.push(loc);
    } else {
        out.push(b);
    }
    proof {
        assert(final(out)@ =~= old(out)@ + spec_escape_byte(b));
    }
}

/// The request body sent to the local generate endpoint: fixed model name,
/// options, and flags, with the prompt embedded as an escaped JSON string.
pub open spec fn spec_generate_body(prompt: Seq<u8>) -> Seq<u8> {
    (
    "{\"model\":\"llama3.2:3b-instruct\",\"options\":{\"num_predict\":256,\"temperature\":0.3},\"prompt\":\"").spec_bytes()
        + spec_escape(prompt) + ("\",\"stream\":false}").spec_bytes()
}

/// Builds the generate-endpoint request body around the given prompt,
/// exactly as `spec_generate_body` states.
pub fn generate_request_body(prompt: &str) -> (r: Vec<u8>)
    ensures
        r@ == spec_generate_body(prompt.spec_bytes()),
{
    let mut out: Vec<u8> = Vec::new();
    let prefix =
        "{\"model\":\"llama3.2:3b-instruct\",\"options\":{\"num_predict\":256,\"temperature\":0.3},\"prompt\":\"";
    append_bytes(&mut out, prefix.as_bytes());
    let ghost pre = out@;
    let b = prompt.as_bytes();
    proof {
        assert(b@.subrange(0, 0) =~= Seq::<u8>::empty());
        assert(pre + b@.subrange(0, 0) =~= pre);
    }
    let mut i: usize = 0;
    while i < b.len()
        invariant
            i <= b@.len(),
            b@ == prompt.spec_bytes(),
            out@ == pre + spec_escape(b@.subrange(0, i as int)),
            pre == Seq::<u8>::empty() + (
            "{\"model\":\"llama3.2:3b-instruct\",\"options\":{\"num_predict\":256,\"temperature\":0.3},\"prompt\":\"").spec_bytes(),
        decreases b@.len() - i,
    {
        let c = b[i];
        push_escaped(&mut out, c);
        proof {
            lemma_escape_snoc(b@.subrange(0, i as int), c);
            assert(b@.subrange(0, i + 1) =~= b@.subrange(0, i as int).push(b@[i as int]));
            assert(out@ =~= pre + spec_escape(b@.subrange(0, i + 1)));
        }
        i = i + 1;
    }
    proof {
        assert(b@.subrange(0, b@.len() as int) =~= b@);
    }
    append_bytes(&mut out, "\",\"stream\":false}".as_bytes());
    proof {
        assert(out@ =~= spec_generate_body(prompt.spec_bytes()));
    }
    out
}

/// Builds the generate-endpoint request body for a request in one step:
/// the prompt from `spec_prompt`, embedded as `spec_generate_body` states.
pub fn agent_request_body(req: &AgentReq) -> (r: Vec<u8>)
    ensures
        r@ == spec_generate_body(
            vstd::utf8::encode_utf8(spec_prompt(req.persona@, req.task@, req.user_msg@)),
        ),
{
    let prompt = build_prompt(req);
    generate_request_body(prompt.as_str())
}

/// The reply text inside a decoded generate-endpoint response: the string
/// under the `response` field, or the empty string where the document is not
/// an object, the field is absent, or it is not a string.
pub open spec fn spec_reply(j: Json) -> Seq<char> {
    match j {
        Json::Obj(fields) => match spec_lookup(fields@, "response"@) {
            Some(Json::Str(s)) => s@,
            _ => Seq::<char>::empty(),
        },
        _ => Seq::<char>::empty(),
    }
}

/// Extracts the reply text from a decoded response, exactly as `spec_reply`
/// states: missing or non-string `response` fields yield `""` rather than
/// an error.
pub fn agent_reply(j: &Json) -> (r: String)
    ensures
        r@ == spec_reply(*j),
{
    match j {
        Json::Obj(fields) => {
            let key = String::from_str("response");
            match json_lookup(fields, &key) {
                Some(v) => match v {
                    Json::Str(s) => s.clone(),
                    _ => String::new(),
                },
                None => String::new(),
            }
        },
        _ => String::new(),
    }
}

/// Decodes a generate-endpoint response body and extracts the reply text.
/// Invalid JSON is the one error; an absent or non-string `response` field
/// yields `Ok` with the empty string.
pub fn agent_reply_from_body(body: &str) -> (r: Result<String, String>)
    ensures
        (match spec_parse_json(body@) {
            Some(j) => r matches Ok(s) && s@ == spec_reply(j),
            None => r matches Err(e) && e@ == "invalid JSON in model response"@,
        }),
{
    match parse_json(body) {
        Some(j) => Ok(agent_reply(&j)),
        None => Err("invalid JSON in model response".to_owned()),
    }
}

} // verus!
