//! Guardrail processing: content extraction from inference request
//! bodies and the policy that turns a guardrail agent's answer into a
//! check result.

use vstd::prelude::*;
use vstd::string::StringExecFns;
use crate::protocol::{GuardrailDetection, GuardrailResponse};
use crate::strutil::str_eq;

verus! {

/// A JSON value as this library reads it: numbers it does not use are
/// carried as text.
#[derive(Debug)]
pub enum JsonVal {
    /// JSON null
    Null,
    /// JSON boolean
    Bool(bool),
    /// JSON integer
    Int(i64),
    /// JSON number that is not an integer, as text
    Num(String),
    /// JSON string
    Str(String),
    /// JSON array
    Arr(Vec<JsonVal>),
    /// JSON object, fields as serde_json's map stores them: names in
    /// sorted order, a name repeated in the document keeping its last
    /// value
    Obj(Vec<(String, JsonVal)>),
}

/// serde_json's parsed document type, declared so that the trusted
/// conversion below can take it; the library never reads it directly.
#[verifier::external_type_specification]
#[verifier::external_body]
pub struct ExValue(serde_json::Value);

/// Relies on serde_json: convert a parsed `Value` into the library's
/// own JSON model, one variant to one variant, fields in order.
#[verifier::external_body]
fn json_to_val(v: &serde_json::Value) -> JsonVal {
    match v {
        serde_json::Value::Null => JsonVal::Null,
        serde_json::Value::Bool(b) => JsonVal::Bool(*b),
        serde_json::Value::Number(n) => match n.as_i64() {
            Some(i) => JsonVal::Int(i),
            None => JsonVal::Num(n.to_string()),
        },
        serde_json::Value::String(s) => JsonVal::Str(s.clone()),
        serde_json::Value::Array(a) => JsonVal::Arr(a.iter().map(json_to_val).collect()),
        serde_json::Value::Object(o) => JsonVal::Obj(
            o.iter().map(|(k, w)| (k.clone(), json_to_val(w))).collect()),
    }
}

/// The JSON document a byte sequence parses to, if any, as
/// serde_json and the conversion above read it: a function of the
/// bytes alone.
pub uninterp spec fn spec_parse_json(bytes: Seq<u8>) -> Option<JsonVal>;

/// Relies on serde_json's `from_slice`: parse bytes as one JSON
/// document; `None` when the bytes are not valid JSON, and in
/// particular when they are empty.
#[verifier::external_body]
pub fn parse_json(bytes: &[u8]) -> (r: Option<JsonVal>)
    ensures
        r == spec_parse_json(bytes@),
        bytes@.len() == 0 ==> r is None,
{
    serde_json::from_slice::<serde_json::Value>(bytes).ok().map(|v| json_to_val(&v))
}

/// Index of the first object field named `key`, or `-1`.
pub open spec fn spec_field_idx(fields: Seq<(String, JsonVal)>, key: Seq<char>) -> int
    decreases fields.len(),
{
    if fields.len() == 0 {
        -1
    } else if fields[0].0@ == key {
        0
    } else {
        let r = spec_field_idx(fields.subrange(1, fields.len() as int), key);
        if r < 0 { -1 } else { r + 1 }
    }
}

/// The field the search finds is the first with that name.
pub proof fn lemma_field_idx(fields: Seq<(String, JsonVal)>, key: Seq<char>)
    ensures
        spec_field_idx(fields, key) >= 0 ==> 0 <= spec_field_idx(fields, key) < fields.len()
            && fields[spec_field_idx(fields, key)].0@ == key
            && (forall|k: int| 0 <= k < spec_field_idx(fields, key) ==> fields[k].0@ != key),
        spec_field_idx(fields, key) < 0 ==> (forall|k: int| 0 <= k < fields.len()
            ==> fields[k].0@ != key),
    decreases fields.len(),
{
    if fields.len() > 0 && fields[0].0@ != key {
        let t = fields.subrange(1, fields.len() as int);
        lemma_field_idx(t, key);
        assert(forall|k: int| 0 <= k < t.len() ==> t[k] == fields[k + 1]);
        let r = spec_field_idx(t, key);
        if r >= 0 {
            assert forall|k: int| 0 <= k < r + 1 implies fields[k].0@ != key by {
                if k > 0 {
                    assert(fields[k] == t[k - 1]);
                }
            }
        } else {
            assert forall|k: int| 0 <= k < fields.len() implies fields[k].0@ != key by {
                if k > 0 {
                    assert(fields[k] == t[k - 1]);
                }
            }
        }
    }
}

/// The value of an object's first field named `key`, when the value
/// is an object and the field exists.
pub open spec fn spec_json_get(v: JsonVal, key: Seq<char>) -> Option<JsonVal> {
    match v {
        JsonVal::Obj(fields) => {
            if spec_field_idx(fields@, key) >= 0 {
                Some(fields@[spec_field_idx(fields@, key)].1)
            } else {
                None
            }
        },
        _ => None,
    }
}

/// Look a field up in a JSON object value.
pub fn json_get<'a>(v: &'a JsonVal, key: &str) -> (r: Option<&'a JsonVal>)
    ensures
        match r {
            Some(w) => spec_json_get(*v, key@) == Some(*w),
            None => spec_json_get(*v, key@) is None,
        },
{
    match v {
        JsonVal::Obj(fields) => {
            let n = fields.len();
            let mut i: usize = 0;
            while i < n
                invariant
                    *v == JsonVal::Obj(*fields),
                    i <= n,
                    n == fields@.len(),
                    forall|k: int| 0 <= k < i ==> fields@[k].0@ != key@,
                decreases n - i,
            {
                if str_eq(fields[i].0.as_str(), key) {
                    proof {
                        lemma_field_idx(fields@, key@);
                        let r = spec_field_idx(fields@, key@);
                        if r < 0 {
                            assert(fields@[i as int].0@ != key@);
                        } else if r < i {
                            assert(fields@[r].0@ != key@);
                        } else if r > i {
                            assert(fields@[i as int].0@ != key@);
                        }
                        assert(r == i);
                        assert(*v == JsonVal::Obj(*fields));
                        assert(spec_json_get(*v, key@) == Some(fields@[i as int].1));
                    }
                    return Some(&fields[i].1);
                }
                i = i + 1;
            }
            proof {
                lemma_field_idx(fields@, key@);
                if spec_field_idx(fields@, key@) >= 0 {
                    assert(fields@[spec_field_idx(fields@, key@)].0@ != key@);
                }
            }
            None
        },
        _ => None,
    }
}

/// The content string a chat message contributes: its `content`
/// field, when that is a string.
pub open spec fn spec_msg_content(m: JsonVal) -> Option<String> {
    match spec_json_get(m, "content"@) {
        Some(JsonVal::Str(s)) => Some(s),
        _ => None,
    }
}

/// The content strings of a message list, in order.
pub open spec fn spec_contents(arr: Seq<JsonVal>) -> Seq<String>
    decreases arr.len(),
{
    if arr.len() == 0 {
        Seq::empty()
    } else {
        spec_contents(arr.drop_last()) + (match spec_msg_content(arr.last()) {
            Some(s) => seq![s],
            None => Seq::empty(),
        })
    }
}

/// Strings joined with a newline between each pair.
pub open spec fn spec_join(xs: Seq<String>) -> Seq<char>
    decreases xs.len(),
{
    if xs.len() == 0 {
        Seq::empty()
    } else if xs.len() == 1 {
        xs[0]@
    } else {
        spec_join(xs.drop_last()) + "\n"@ + xs.last()@
    }
}

/// Join strings with newlines.
pub fn join_lines(xs: &Vec<String>) -> (r: String)
    ensures
        r@ == spec_join(xs@),
{
    let n = xs.len();
    let mut out = String::new();
    let mut i: usize = 0;
    while i < n
        invariant
            i <= n,
            n == xs@.len(),
            out@ == spec_join(xs@.subrange(0, i as int)),
        decreases n - i,
    {
        if i > 0 {
            out.append("\n");
        }
        out.append(xs[i].as_str());
        proof {
            assert(xs@.subrange(0, (i + 1) as int).drop_last() =~= xs@.subrange(0, i as int));
            assert(xs@.subrange(0, (i + 1) as int).last() == xs@[i as int]);
            if i == 0 {
                assert(xs@.subrange(0, 1).len() == 1);
            }
        }
        i = i + 1;
    }
    proof {
        assert(xs@.subrange(0, n as int) =~= xs@);
    }
    out
}

/// What `extract_content_from_value` finds in a parsed inference
/// request: the chat messages' contents joined with newlines when any
/// exist, else the `prompt` string, else the first string among
/// `input`, `text`, `query` and `question`.
pub open spec fn spec_extract(v: JsonVal) -> Option<Seq<char>> {
    let from_msgs = match spec_json_get(v, "messages"@) {
        Some(JsonVal::Arr(a)) => if spec_contents(a@).len() > 0 {
            Some(spec_join(spec_contents(a@)))
        } else {
            None
        },
        _ => None,
    };
    if from_msgs is Some {
        from_msgs
    } else {
        let rest = seq!["prompt"@, "input"@, "text"@, "query"@, "question"@];
        spec_first_string_field(v, rest)
    }
}

/// The first of the given fields whose value is a string.
pub open spec fn spec_first_string_field(v: JsonVal, keys: Seq<Seq<char>>) -> Option<Seq<char>>
    decreases keys.len(),
{
    if keys.len() == 0 {
        None
    } else {
        match spec_json_get(v, keys[0]) {
            Some(JsonVal::Str(s)) => Some(s@),
            _ => spec_first_string_field(v, keys.subrange(1, keys.len() as int)),
        }
    }
}

/// Extract message content from a parsed inference request body.
pub fn extract_content_from_value(v: &JsonVal) -> (r: Option<String>)
    ensures
        match r {
            Some(s) => spec_extract(*v) == Some(s@),
            None => spec_extract(*v) is None,
        },
{
    if let Some(msgs) = json_get(v, "messages") {
        if let JsonVal::Arr(a) = msgs {
            let n = a.len();
            let mut contents: Vec<String> = Vec::new();
            let mut i: usize = 0;
            while i < n
                invariant
                    i <= n,
                    n == a@.len(),
                    contents@ == spec_contents(a@.subrange(0, i as int)),
                decreases n - i,
            {
                proof {
                    assert(a@.subrange(0, (i + 1) as int).drop_last()
                        =~= a@.subrange(0, i as int));
                    assert(a@.subrange(0, (i + 1) as int).last() == a@[i as int]);
                }
                if let Some(c) = json_get(&a[i], "content") {
                    if let JsonVal::Str(s) = c {
                        contents.push(s.clone());
                    }
                }
                i = i + 1;
            }
            proof {
                assert(a@.subrange(0, n as int) =~= a@);
            }
            if contents.len() > 0 {
                return Some(join_lines(&contents));
            }
        }
    }
    let keys: Vec<&'static str> = vec!["prompt", "input", "text", "query", "question"];
    let ghost gkeys = keys@.map_values(|k: &str| k@);
    proof {
        assert(gkeys =~= seq!["prompt"@, "input"@, "text"@, "query"@, "question"@]);
        assert(gkeys.subrange(0, 5) =~= gkeys);
    }
    let n = keys.len();
    let mut i: usize = 0;
    while i < n
        invariant
            i <= n,
            n == 5,
            gkeys.len() == 5,
            gkeys == keys@.map_values(|k: &str| k@),
            spec_extract(*v) == spec_first_string_field(*v,
                gkeys.subrange(i as int, 5)),
        decreases n - i,
    {
        proof {
            assert(gkeys.subrange(i as int, 5)[0] == gkeys[i as int]);
            assert(gkeys.subrange(i as int, 5).subrange(1, (5 - i) as int)
                =~= gkeys.subrange((i + 1) as int, 5));
        }
        if let Some(p) = json_get(v, keys[i]) {
            if let JsonVal::Str(s) = p {
                return Some(s.clone());
            }
        }
        i = i + 1;
    }
    None
}

/// Extract message content from an inference request body: what
/// `extract_content_from_value` finds in the document the bytes parse
/// to.  Bytes that are not JSON give `None`.
pub fn extract_inference_content(body: &[u8]) -> (r: Option<String>)
    ensures
        match spec_parse_json(body@) {
            Some(v) => match r {
                Some(s) => spec_extract(v) == Some(s@),
                None => spec_extract(v) is None,
            },
            None => r is None,
        },
{
    match parse_json(body) {
        Some(v) => extract_content_from_value(&v),
        None => None,
    }
}

/// What a guardrail check's action does on detection.
#[derive(Debug, Clone, Copy, PartialEq, Eq, Structural)]
pub enum GuardrailAction {
    /// Block the request
    Block,
    /// Log only
    Log,
    /// Add a warning header
    Warn,
}

/// Failure policy for guardrail checks.
#[derive(Debug, Clone, Copy, PartialEq, Eq, Structural)]
pub enum GuardrailFailureMode {
    /// Treat an error or timeout as clean
    Open,
    /// Synthesize a block on error or timeout
    Closed,
}

/// Prompt-injection check configuration.
#[derive(Debug, Clone)]
pub struct PromptInjectionConfig {
    /// Whether the check runs at all
    pub enabled: bool,
    /// Agent to consult
    pub agent: String,
    /// What to do on detection
    pub action: GuardrailAction,
    /// Status of the synthesized block on detection
    pub block_status: u16,
    /// Body of the synthesized block, or a default message
    pub block_message: Option<String>,
    /// Per-call timeout in milliseconds
    pub timeout_ms: u64,
    /// Failure policy
    pub failure_mode: GuardrailFailureMode,
}

/// PII check configuration.
#[derive(Debug, Clone)]
pub struct PiiDetectionConfig {
    /// Whether the check runs at all
    pub enabled: bool,
    /// Agent to consult
    pub agent: String,
    /// PII categories to check
    pub categories: Vec<String>,
    /// Per-call timeout in milliseconds
    pub timeout_ms: u64,
    /// Failure policy
    pub failure_mode: GuardrailFailureMode,
}

/// How one guardrail call ended.
#[derive(Debug)]
pub enum GuardrailCallOutcome {
    /// The agent answered
    Answered(GuardrailResponse),
    /// The call failed with a message
    CallError(String),
    /// The call exceeded the configured timeout
    CallTimeout,
}

/// Result of a prompt-injection check.
#[derive(Debug)]
pub enum PromptInjectionResult {
    /// Nothing detected
    Clean,
    /// Detected and the request should be blocked
    Blocked { status: u16, message: String, detections: Vec<GuardrailDetection> },
    /// Detected but only logged
    Detected { detections: Vec<GuardrailDetection> },
    /// Detected; a warning header is added
    Warning { detections: Vec<GuardrailDetection> },
    /// Agent error under the fail-open policy
    Error { message: String },
}

/// Result of a PII check.
#[derive(Debug)]
pub enum PiiCheckResult {
    /// Nothing detected
    Clean,
    /// PII found
    Detected { detections: Vec<GuardrailDetection>, redacted_content: Option<String> },
    /// The check could not run and the response should be blocked
    Blocked { status: u16, message: String, detections: Vec<GuardrailDetection> },
    /// Agent error surfaced to the caller
    Error { message: String },
}

/// Turn the outcome of a prompt-injection call into a check result.
///
/// A disabled check is always clean.  On detection the configured
/// action decides: block with the configured status and message (or
/// the default message), log, or warn.  On error or timeout the
/// failure mode decides: open is clean, closed blocks with 503 or 504.
pub fn evaluate_prompt_injection(config: &PromptInjectionConfig, outcome: GuardrailCallOutcome)
    -> (r: PromptInjectionResult)
    ensures
        !config.enabled ==> r is Clean,
        config.enabled ==> match outcome {
            GuardrailCallOutcome::Answered(resp) => {
                if !resp.detected {
                    r is Clean
                } else {
                    match config.action {
                        GuardrailAction::Block => r matches PromptInjectionResult::Blocked {
                            status, message, detections }
                            && status == config.block_status
                            && (match config.block_message {
                                Some(m) => message == m,
                                None => message@ ==
                                    "Request blocked: potential prompt injection detected"@,
                            })
                            && detections == resp.detections,
                        GuardrailAction::Log => r matches PromptInjectionResult::Detected {
                            detections } && detections == resp.detections,
                        GuardrailAction::Warn => r matches PromptInjectionResult::Warning {
                            detections } && detections == resp.detections,
                    }
                }
            },
            GuardrailCallOutcome::CallError(..) => match config.failure_mode {
                GuardrailFailureMode::Open => r is Clean,
                GuardrailFailureMode::Closed => r matches PromptInjectionResult::Blocked {
                    status, message, detections }
                    && status == 503
                    && message@ == "Guardrail check unavailable"@
                    && detections.len() == 0,
            },
            GuardrailCallOutcome::CallTimeout => match config.failure_mode {
                GuardrailFailureMode::Open => r is Clean,
                GuardrailFailureMode::Closed => r matches PromptInjectionResult::Blocked {
                    status, message, detections }
                    && status == 504
                    && message@ == "Guardrail check timed out"@
                    && detections.len() == 0,
            },
        },
{
    if !config.enabled {
        return PromptInjectionResult::Clean;
    }
    match outcome {
        GuardrailCallOutcome::Answered(resp) => {
            if !resp.detected {
                PromptInjectionResult::Clean
            } else {
                match config.action {
                    GuardrailAction::Block => {
                        let message = match &config.block_message {
                            Some(m) => m.clone(),
                            None => String::from_str(
                                "Request blocked: potential prompt injection detected"),
                        };
                        PromptInjectionResult::Blocked {
                            status: config.block_status,
                            message,
                            detections: resp.detections,
                        }
                    },
                    GuardrailAction::Log => PromptInjectionResult::Detected {
                        detections: resp.detections,
                    },
                    GuardrailAction::Warn => PromptInjectionResult::Warning {
                        detections: resp.detections,
                    },
                }
            }
        },
        GuardrailCallOutcome::CallError(..) => match config.failure_mode {
            GuardrailFailureMode::Open => PromptInjectionResult::Clean,
            GuardrailFailureMode::Closed => PromptInjectionResult::Blocked {
                status: 503,
                message: String::from_str("Guardrail check unavailable"),
                detections: Vec::new(),
            },
        },
        GuardrailCallOutcome::CallTimeout => match config.failure_mode {
            GuardrailFailureMode::Open => PromptInjectionResult::Clean,
            GuardrailFailureMode::Closed => PromptInjectionResult::Blocked {
                status: 504,
                message: String::from_str("Guardrail check timed out"),
                detections: Vec::new(),
            },
        },
    }
}

/// Turn the outcome of a PII call into a check result.
///
/// A disabled check is always clean; a detection carries the agent's
/// detections and optional redacted content.  On an error or timeout
/// the configured failure mode decides, as for every guardrail check:
/// open treats the response as clean, closed blocks it with 503 or
/// 504.
pub fn evaluate_pii(config: &PiiDetectionConfig, outcome: GuardrailCallOutcome)
    -> (r: PiiCheckResult)
    ensures
        !config.enabled ==> r is Clean,
        config.enabled ==> match outcome {
            GuardrailCallOutcome::Answered(resp) => {
                if !resp.detected {
                    r is Clean
                } else {
                    r matches PiiCheckResult::Detected { detections, redacted_content }
                        && detections == resp.detections
                        && redacted_content == resp.redacted_content
                }
            },
            GuardrailCallOutcome::CallError(..) => match config.failure_mode {
                GuardrailFailureMode::Open => r is Clean,
                GuardrailFailureMode::Closed => r matches PiiCheckResult::Blocked {
                    status, message, detections }
                    && status == 503
                    && message@ == "Guardrail check unavailable"@
                    && detections.len() == 0,
            },
            GuardrailCallOutcome::CallTimeout => match config.failure_mode {
                GuardrailFailureMode::Open => r is Clean,
                GuardrailFailureMode::Closed => r matches PiiCheckResult::Blocked {
                    status, message, detections }
                    && status == 504
                    && message@ == "Guardrail check timed out"@
                    && detections.len() == 0,
            },
        },
{
    if !config.enabled {
        return PiiCheckResult::Clean;
    }
    match outcome {
        GuardrailCallOutcome::Answered(resp) => {
            if !resp.detected {
                PiiCheckResult::Clean
            } else {
                PiiCheckResult::Detected {
                    detections: resp.detections,
                    redacted_content: resp.redacted_content,
                }
            }
        },
        GuardrailCallOutcome::CallError(..) => match config.failure_mode {
            GuardrailFailureMode::Open => PiiCheckResult::Clean,
            GuardrailFailureMode::Closed => PiiCheckResult::Blocked {
                status: 503,
                message: String::from_str("Guardrail check unavailable"),
                detections: Vec::new(),
            },
        },
        GuardrailCallOutcome::CallTimeout => match config.failure_mode {
            GuardrailFailureMode::Open => PiiCheckResult::Clean,
            GuardrailFailureMode::Closed => PiiCheckResult::Blocked {
                status: 504,
                message: String::from_str("Guardrail check timed out"),
                detections: Vec::new(),
            },
        },
    }
}

} // verus!
