//! The LLM decision client: the client port, the deterministic in-library
//! client, the network client's configuration, resilient response parsing
//! (strict structured parsing with a keyword fallback), and the bounded
//! retry/backoff bookkeeping for transport and parse failures.

use vstd::prelude::*;
use vstd::string::*;
use crate::domain::{Region, LLMPromptResponse, ResponseView};
use crate::textutil::{
    str_chars, chars_to_string, contains_ci, matches_at, found_at, find_ci, find_first,
    first_line, take_line, trimmed, trim_window, dec_digits, decimal_string,
};
use crate::jsonwrap::{
    json_accepts, json_well_formed, json_bool_member, json_text_member, json_number_member,
    json_member_bool, json_member_text, json_member_number, parse_risk_token, spec_parse_risk,
};

verus! {

/// The decision oracle port: given the captured region images, an optional
/// system prompt, and the risk-assessment guidance, produce a structured
/// decision or a transport error.
pub trait LLMClient {
    fn generate_prompt(
        &self,
        regions: &[Region],
        region_images: Vec<Vec<u8>>,
        system_prompt: Option<&str>,
        risk_guidance: &str,
    ) -> (r: Result<LLMPromptResponse, String>);
}

/// A deterministic client that always returns one configured decision.
pub struct MockLLMClient {
    pub mock_response: LLMPromptResponse,
}

impl MockLLMClient {
    /// A client that always asks to continue with low risk.
    pub fn new() -> (r: Self)
        ensures
            r.mock_response@ == (ResponseView::Continuation { prompt: "continue"@, risk: 10 }),
    {
        MockLLMClient { mock_response: LLMPromptResponse::continuation("continue".to_owned(), 10) }
    }

    /// A client that always returns this continuation.
    pub fn with_response(prompt: String, risk: u32) -> (r: Self)
        ensures
            r.mock_response@ == (ResponseView::Continuation { prompt: prompt@, risk }),
    {
        MockLLMClient { mock_response: LLMPromptResponse::continuation(prompt, risk) }
    }

    /// A client that always reports completion.
    pub fn with_completion(reason: String) -> (r: Self)
        ensures
            r.mock_response@ == (ResponseView::Completed { reason: reason@ }),
    {
        MockLLMClient { mock_response: LLMPromptResponse::completed(reason) }
    }
}

impl LLMClient for MockLLMClient {
    fn generate_prompt(
        &self,
        regions: &[Region],
        region_images: Vec<Vec<u8>>,
        system_prompt: Option<&str>,
        risk_guidance: &str,
    ) -> (r: Result<LLMPromptResponse, String>)
        ensures
            r is Ok,
            r.unwrap() == self.mock_response,
    {
        Ok(self.mock_response.duplicate())
    }
}

/// The fixed risk-assessment guidance sent verbatim with every decision
/// request; its wording is part of the oracle contract.
pub open spec fn risk_guidance_text() -> Seq<char> {
    "Risk Assessment Guidelines:\n- Low risk (0.0-0.33): Safe code changes inside workspace, no deletions, no external communication\n- Medium risk (0.34-0.66): Git pushes, tag deletions, file operations inside workspace\n- High risk (0.67-1.0): Operations outside workspace, elevated privileges, installing software, data transfer outside workspace\n\nConsider the user's risk threshold when choosing the safest viable prompt."@
}

/// Generate the risk guidance prompt for the LLM.
pub fn build_risk_guidance() -> (r: String)
    ensures
        r@ == risk_guidance_text(),
{
    "Risk Assessment Guidelines:\n- Low risk (0.0-0.33): Safe code changes inside workspace, no deletions, no external communication\n- Medium risk (0.34-0.66): Git pushes, tag deletions, file operations inside workspace\n- High risk (0.67-1.0): Operations outside workspace, elevated privileges, installing software, data transfer outside workspace\n\nConsider the user's risk threshold when choosing the safest viable prompt.".to_owned()
}

// ---------------------------------------------------------------------------
// Keyword fallback parsing
// ---------------------------------------------------------------------------

/// The raw text claims completion.
pub open spec fn completion_kw(c: Seq<char>) -> bool {
    ||| contains_ci(c, "DONE"@)
    ||| contains_ci(c, "COMPLETE"@)
    ||| contains_ci(c, "FINISHED"@)
    ||| contains_ci(c, "TASK_COMPLETE"@)
}

/// The raw text asks to continue. The mere presence of NEXT or MORE
/// anywhere in free text counts, even inside a sentence that means the
/// opposite ("nothing more to do"): a known false-positive source of this
/// heuristic, kept for compatibility and a candidate for tuning rather than
/// a load-bearing rule.
pub open spec fn continuation_kw(c: Seq<char>) -> bool {
    ||| contains_ci(c, "CONTINUE"@)
    ||| contains_ci(c, "NEXT"@)
    ||| contains_ci(c, "MORE"@)
}

/// The completion reason inferred from secondary keywords.
pub open spec fn completion_reason(c: Seq<char>) -> Seq<char> {
    if contains_ci(c, "SUCCESS"@) || contains_ci(c, "PASSED"@) {
        "Task completed successfully"@
    } else if contains_ci(c, "FAIL"@) || contains_ci(c, "ERROR"@) {
        "Task completed with errors"@
    } else {
        "Task completed"@
    }
}

/// The best-effort prompt for a continuation keyword: the line starting at
/// the first literal "continue", or "continue" itself.
pub open spec fn kw_prompt(c: Seq<char>) -> Seq<char> {
    if exists|i: int| matches_at(c, "continue"@, i) {
        first_line(c.skip(choose|i: int| found_at(c, "continue"@, i)))
    } else {
        "continue"@
    }
}

/// The prompt when no keyword matched: the first line of the text.
pub open spec fn default_prompt(c: Seq<char>) -> Seq<char> {
    if c.len() == 0 {
        "continue"@
    } else {
        first_line(c)
    }
}

/// What the keyword fallback makes of a raw oracle text. Keyword matching is
/// ASCII-case-insensitive; the fixed moderate risk is 30 hundredths.
pub open spec fn fallback_view(c: Seq<char>) -> ResponseView {
    if completion_kw(c) {
        ResponseView::Completed { reason: completion_reason(c) }
    } else if continuation_kw(c) {
        ResponseView::Continuation { prompt: kw_prompt(c), risk: 30 }
    } else {
        ResponseView::Continuation { prompt: default_prompt(c), risk: 30 }
    }
}

proof fn lemma_found_at_unique(c: Seq<char>, n: Seq<char>, i: int, j: int)
    requires
        found_at(c, n, i),
        found_at(c, n, j),
    ensures
        i == j,
{
}

/// Classify a raw oracle text by keywords.
fn fallback_parse(content: &Vec<char>) -> (r: LLMPromptResponse)
    ensures
        r@ == fallback_view(content@),
{
    let kw_done = str_chars("DONE");
    let kw_complete = str_chars("COMPLETE");
    let kw_finished = str_chars("FINISHED");
    let kw_task_complete = str_chars("TASK_COMPLETE");
    if find_ci(content, &kw_done) || find_ci(content, &kw_complete) || find_ci(
        content,
        &kw_finished,
    ) || find_ci(content, &kw_task_complete) {
        let kw_success = str_chars("SUCCESS");
        let kw_passed = str_chars("PASSED");
        let kw_fail = str_chars("FAIL");
        let kw_error = str_chars("ERROR");
        let reason: String = if find_ci(content, &kw_success) || find_ci(content, &kw_passed) {
            "Task completed successfully".to_owned()
        } else if find_ci(content, &kw_fail) || find_ci(content, &kw_error) {
            "Task completed with errors".to_owned()
        } else {
            "Task completed".to_owned()
        };
        return LLMPromptResponse::completed(reason);
    }
    let kw_continue_uc = str_chars("CONTINUE");
    let kw_next = str_chars("NEXT");
    let kw_more = str_chars("MORE");
    if find_ci(content, &kw_continue_uc) || find_ci(content, &kw_next) || find_ci(
        content,
        &kw_more,
    ) {
        let needle = str_chars("continue");
        let prompt: String = match find_first(content, &needle) {
            Some(idx) => {
                proof {
                    let ghost w = choose|i: int| found_at(content@, "continue"@, i);
                    lemma_found_at_unique(content@, "continue"@, idx as int, w);
                }
                let line = take_line(content, idx);
                chars_to_string(&line)
            },
            None => "continue".to_owned(),
        };
        return LLMPromptResponse::continuation(prompt, 30);
    }
    if content.len() == 0 {
        LLMPromptResponse::continuation("continue".to_owned(), 30)
    } else {
        let line = take_line(content, 0);
        proof {
            assert(content@.skip(0) =~= content@);
        }
        LLMPromptResponse::continuation(chars_to_string(&line), 30)
    }
}

// ---------------------------------------------------------------------------
// Code-fence stripping
// ---------------------------------------------------------------------------

/// The start of the payload after every leading repetition of the fence
/// marker is removed.
pub open spec fn fence_start(s: Seq<char>, p: Seq<char>, a: int) -> int
    decreases s.len() - a when p.len() >= 1 && 0 <= a
{
    if matches_at(s, p, a) {
        fence_start(s, p, a + p.len())
    } else {
        a
    }
}

/// The end of the payload after every trailing "```" above `floor` is
/// removed.
pub open spec fn fence_end(s: Seq<char>, floor: int, b: int) -> int
    decreases b when 0 <= floor
{
    if b - 3 >= floor && matches_at(s, "```"@, b - 3) {
        fence_end(s, floor, b - 3)
    } else {
        b
    }
}

/// The fenced window of a text, trimmed.
pub open spec fn fence_window(s: Seq<char>, p: Seq<char>) -> Seq<char> {
    let a = fence_start(s, p, 0);
    let b = fence_end(s, a, s.len() as int);
    trimmed(s, a, b)
}

/// A text with optional surrounding code-fence markers removed: a payload
/// opening with "```json" or "```" has those markers stripped from the start,
/// "```" stripped from the end, and the rest trimmed; any other text is kept
/// as it is.
pub open spec fn strip_fences(s: Seq<char>) -> Seq<char> {
    if matches_at(s, "```json"@, 0) {
        fence_window(s, "```json"@)
    } else if matches_at(s, "```"@, 0) {
        fence_window(s, "```"@)
    } else {
        s
    }
}

/// Whether the needle matches at offset `i`.
fn match_at_exec(v: &Vec<char>, n: &Vec<char>, i: usize) -> (r: bool)
    ensures
        r == matches_at(v@, n@, i as int),
{
    let vlen = v.len();
    let nlen = n.len();
    if i > vlen || nlen > vlen - i {
        return false;
    }
    let mut j: usize = 0;
    while j < nlen
        invariant
            vlen == v@.len(),
            nlen == n@.len(),
            i + nlen <= vlen,
            j <= nlen,
            forall|q: int| 0 <= q < j ==> v@[i + q] == n@[q],
        decreases nlen - j,
    {
        if v[i + j] != n[j] {
            return false;
        }
        j += 1;
    }
    true
}

/// Strip the fence window for marker `p` and trim it.
fn fence_window_exec(v: &Vec<char>, p: &Vec<char>) -> (r: Vec<char>)
    requires
        p@.len() >= 1,
    ensures
        r@ == fence_window(v@, p@),
{
    let vlen = v.len();
    let plen = p.len();
    let mut a: usize = 0;
    while match_at_exec(v, p, a)
        invariant
            vlen == v@.len(),
            plen == p@.len(),
            plen >= 1,
            a <= vlen,
            fence_start(v@, p@, 0) == fence_start(v@, p@, a as int),
        decreases vlen - a,
    {
        a = a + plen;
    }
    let close = str_chars("```");
    let mut b: usize = vlen;
    while b - a >= 3 && match_at_exec(v, &close, b - 3)
        invariant
            vlen == v@.len(),
            a <= b <= vlen,
            close@ == "```"@,
            fence_end(v@, a as int, v@.len() as int) == fence_end(v@, a as int, b as int),
        decreases b,
    {
        b = b - 3;
    }
    trim_window(v, a, b)
}

/// Apply the fence-stripping rule to a payload.
fn strip_fences_exec(v: &Vec<char>) -> (r: Vec<char>)
    ensures
        r@ == strip_fences(v@),
{
    let fence_json = str_chars("```json");
    let fence_plain = str_chars("```");
    proof {
        reveal_strlit("```json");
        reveal_strlit("```");
    }
    if match_at_exec(v, &fence_json, 0) {
        fence_window_exec(v, &fence_json)
    } else if match_at_exec(v, &fence_plain, 0) {
        fence_window_exec(v, &fence_plain)
    } else {
        let mut out: Vec<char> = Vec::new();
        let mut k: usize = 0;
        while k < v.len()
            invariant
                k <= v@.len(),
                out@ == v@.take(k as int),
            decreases v@.len() - k,
        {
            out.push(v[k]);
            k += 1;
        }
        proof {
            assert(out@ =~= v@);
        }
        out
    }
}

// ---------------------------------------------------------------------------
// Structured parsing
// ---------------------------------------------------------------------------

/// The view of an optional owned string.
pub open spec fn opt_text(o: Option<String>) -> Option<Seq<char>> {
    match o {
        Some(s) => Some(s@),
        None => None,
    }
}

/// What the structured branch makes of the schema members it extracted:
/// a reported completion keeps its reason (or a generic one); a reported
/// continuation needs a prompt and a risk; any other shape falls back to
/// keyword classification of the raw text.
pub open spec fn interpret_view(
    complete: Option<bool>,
    prompt: Option<Seq<char>>,
    risk: Option<u32>,
    reason: Option<Seq<char>>,
    raw: Seq<char>,
) -> ResponseView {
    if complete == Some(true) {
        ResponseView::Completed {
            reason: match reason {
                Some(t) => t,
                None => "Task completed"@,
            },
        }
    } else if complete == Some(false) && prompt is Some && risk is Some {
        ResponseView::Continuation { prompt: prompt.unwrap(), risk: risk.unwrap() }
    } else {
        fallback_view(raw)
    }
}

/// The risk, in hundredths, the schema's number member stands for.
pub open spec fn schema_risk(stripped: Seq<char>) -> Option<u32> {
    match json_member_number(stripped, "continuation_prompt_risk"@) {
        Some(t) => spec_parse_risk(t),
        None => None,
    }
}

/// What strict structured parsing makes of an accepted JSON payload: the
/// interpretation of exactly the four schema members of the fence-stripped
/// document.
pub open spec fn structured_view(stripped: Seq<char>, raw: Seq<char>) -> ResponseView {
    interpret_view(
        json_member_bool(stripped, "task_complete"@),
        json_member_text(stripped, "continuation_prompt"@),
        schema_risk(stripped),
        json_member_text(stripped, "task_complete_reason"@),
        raw,
    )
}

/// What a parsed response is for a raw payload: the structured reading of
/// the fence-stripped document when it is accepted JSON, the keyword
/// fallback otherwise.
pub open spec fn parse_outcome(raw: Seq<char>, v: ResponseView) -> bool {
    if json_accepts(strip_fences(raw)) {
        v == structured_view(strip_fences(raw), raw)
    } else {
        v == fallback_view(raw)
    }
}

/// Interpret the extracted schema members for a raw payload.
pub fn interpret_fields(
    complete: Option<bool>,
    prompt: Option<String>,
    risk: Option<u32>,
    reason: Option<String>,
    raw: &Vec<char>,
) -> (r: LLMPromptResponse)
    ensures
        r@ == interpret_view(complete, opt_text(prompt), risk, opt_text(reason), raw@),
{
    match complete {
        Some(true) => {
            let text: String = match reason {
                Some(t) => t,
                None => "Task completed".to_owned(),
            };
            LLMPromptResponse::completed(text)
        },
        Some(false) => {
            match (prompt, risk) {
                (Some(p), Some(k)) => LLMPromptResponse::continuation(p, k),
                _ => fallback_parse(raw),
            }
        },
        None => fallback_parse(raw),
    }
}

// ---------------------------------------------------------------------------
// The network client's configuration
// ---------------------------------------------------------------------------

/// Configuration of the network-backed oracle client: credentials, endpoint
/// and model. The network call itself lives outside the library; response
/// parsing and retry bookkeeping live here.
#[derive(Debug)]
pub struct OpenAIClient {
    api_key: String,
    api_endpoint: String,
    model: String,
}

impl OpenAIClient {
    /// The configured API key.
    pub closed spec fn spec_api_key(&self) -> Seq<char> {
        self.api_key@
    }

    /// The configured endpoint.
    pub closed spec fn spec_endpoint(&self) -> Seq<char> {
        self.api_endpoint@
    }

    /// The configured model name.
    pub closed spec fn spec_model(&self) -> Seq<char> {
        self.model@
    }

    /// Build a client configuration. The key is required; endpoint and model
    /// have fixed defaults. Reading them from the process environment is the
    /// caller's concern.
    pub fn new(api_key: Option<String>, api_endpoint: Option<String>, model: Option<String>) -> (r:
        Result<Self, String>)
        ensures
            r is Ok <==> api_key is Some,
            r is Ok ==> r.unwrap().spec_api_key() == api_key.unwrap()@,
            r is Ok ==> r.unwrap().spec_endpoint() == (match api_endpoint {
                Some(e) => e@,
                None => "https://api.openai.com/v1/chat/completions"@,
            }),
            r is Ok ==> r.unwrap().spec_model() == (match model {
                Some(m) => m@,
                None => "gpt-4o"@,
            }),
            r is Err ==> r.unwrap_err()@ == "OpenAI API key not provided"@,
    {
        let key = match api_key {
            Some(k) => k,
            None => {
                return Err("OpenAI API key not provided".to_owned());
            },
        };
        let endpoint = match api_endpoint {
            Some(e) => e,
            None => "https://api.openai.com/v1/chat/completions".to_owned(),
        };
        let model_name = match model {
            Some(m) => m,
            None => "gpt-4o".to_owned(),
        };
        Ok(OpenAIClient { api_key: key, api_endpoint: endpoint, model: model_name })
    }

    /// The configured API key.
    pub fn key(&self) -> (r: &String)
        ensures
            r@ == self.spec_api_key(),
    {
        &self.api_key
    }

    /// The configured endpoint.
    pub fn endpoint(&self) -> (r: &String)
        ensures
            r@ == self.spec_endpoint(),
    {
        &self.api_endpoint
    }

    /// The configured model name.
    pub fn model_name(&self) -> (r: &String)
        ensures
            r@ == self.spec_model(),
    {
        &self.model
    }

    /// Parse an oracle payload: strict structured parsing of the (optionally
    /// code-fenced) JSON schema first, the keyword fallback otherwise. Never
    /// fails: the fallback has a default branch.
    pub fn parse_response(&self, content: &str) -> (r: Result<LLMPromptResponse, String>)
        ensures
            r is Ok,
            parse_outcome(content@, r.unwrap()@),
    {
        let chars = str_chars(content);
        let stripped = strip_fences_exec(&chars);
        let stripped_str = chars_to_string(&stripped);
        if !json_well_formed(stripped_str.as_str()) {
            return Ok(fallback_parse(&chars));
        }
        let complete: Option<bool> = json_bool_member(stripped_str.as_str(), "task_complete");
        let prompt: Option<String> = json_text_member(
            stripped_str.as_str(),
            "continuation_prompt",
        );
        let risk: Option<u32> = match json_number_member(
            stripped_str.as_str(),
            "continuation_prompt_risk",
        ) {
            Some(tok) => {
                let tok_chars = str_chars(tok.as_str());
                parse_risk_token(&tok_chars)
            },
            None => None,
        };
        let reason: Option<String> = json_text_member(
            stripped_str.as_str(),
            "task_complete_reason",
        );
        let ghost pv = opt_text(prompt);
        let ghost nv = opt_text(reason);
        let result = interpret_fields(complete, prompt, risk, reason, &chars);
        proof {
            assert(pv == json_member_text(strip_fences(content@), "continuation_prompt"@));
            assert(nv == json_member_text(strip_fences(content@), "task_complete_reason"@));
            assert(risk == schema_risk(strip_fences(content@)));
            assert(result@ == structured_view(strip_fences(content@), content@));
        }
        Ok(result)
    }

    /// The system message sent with every decision request: the base prompt
    /// (or its default), the risk guidance, and the response-format
    /// instructions.
    pub fn build_system_message(&self, system_prompt: Option<&str>, risk_guidance: &str) -> (r:
        String)
        ensures
            r@ == system_message_text(
                match system_prompt {
                    Some(p) => Some(p@),
                    None => None,
                },
                risk_guidance@,
            ),
    {
        let mut s: String = match system_prompt {
            Some(p) => p.to_owned(),
            None => "You are an AI assistant helping with desktop automation. Analyze the screen content and determine if the task is complete.".to_owned(),
        };
        s.append("\n\n");
        s.append(risk_guidance);
        s.append("\n\n");
        s.append(
            "Return ONLY a JSON object with this exact structure:\n{\n  \"continuation_prompt\": \"<text for next action, or null if complete>\",\n  \"continuation_prompt_risk\": <risk level 0.0-1.0>,\n  \"task_complete\": <true|false>,\n  \"task_complete_reason\": \"<explanation if complete, or null>\"\n}\n\nExamples:\n- Task complete: {\"continuation_prompt\": null, \"continuation_prompt_risk\": 0.0, \"task_complete\": true, \"task_complete_reason\": \"All tests passed\"}\n- Task continuing: {\"continuation_prompt\": \"click Run button\", \"continuation_prompt_risk\": 0.2, \"task_complete\": false, \"task_complete_reason\": null}\n\nDo not include any explanation or additional text outside the JSON.",
        );
        s
    }
}

/// The default base prompt of the system message.
pub open spec fn default_base_prompt() -> Seq<char> {
    "You are an AI assistant helping with desktop automation. Analyze the screen content and determine if the task is complete."@
}

/// The response-format instructions of the system message.
pub open spec fn format_instructions() -> Seq<char> {
    "Return ONLY a JSON object with this exact structure:\n{\n  \"continuation_prompt\": \"<text for next action, or null if complete>\",\n  \"continuation_prompt_risk\": <risk level 0.0-1.0>,\n  \"task_complete\": <true|false>,\n  \"task_complete_reason\": \"<explanation if complete, or null>\"\n}\n\nExamples:\n- Task complete: {\"continuation_prompt\": null, \"continuation_prompt_risk\": 0.0, \"task_complete\": true, \"task_complete_reason\": \"All tests passed\"}\n- Task continuing: {\"continuation_prompt\": \"click Run button\", \"continuation_prompt_risk\": 0.2, \"task_complete\": false, \"task_complete_reason\": null}\n\nDo not include any explanation or additional text outside the JSON."@
}

/// The full system message for a base prompt and the risk guidance.
pub open spec fn system_message_text(sp: Option<Seq<char>>, rg: Seq<char>) -> Seq<char> {
    (match sp {
        Some(s) => s,
        None => default_base_prompt(),
    }) + "\n\n"@ + rg + "\n\n"@ + format_instructions()
}

/// Factory for the decision client where no network backend is configured:
/// the deterministic client, always.
pub fn create_llm_client(api_key: Option<String>, model: Option<String>) -> (r: Result<
    MockLLMClient,
    String,
>)
    ensures
        r is Ok,
        r.unwrap().mock_response@ == (ResponseView::Continuation {
            prompt: "continue"@,
            risk: 10,
        }),
{
    Ok(MockLLMClient::new())
}

// ---------------------------------------------------------------------------
// Retry bookkeeping
// ---------------------------------------------------------------------------

/// The backoff delay, in milliseconds, after the given 1-based failed
/// attempt: strictly longer for later attempts.
pub open spec fn backoff_delay_ms(attempt: u32) -> int {
    500 * attempt
}

/// Later attempts wait strictly longer than earlier ones.
pub proof fn lemma_backoff_strictly_increases(a: u32, b: u32)
    requires
        a < b,
    ensures
        backoff_delay_ms(a) < backoff_delay_ms(b),
{
}

/// The aggregated error after all attempts failed.
pub open spec fn aggregated_error(max_attempts: u32, last_error: Seq<char>) -> Seq<char> {
    "Failed after "@ + dec_digits(max_attempts as nat) + " attempts. Last error: "@ + last_error
}

/// The corrective instruction prepended to the request after a structured
/// parse failure, so the next attempt is self-correcting.
pub open spec fn correction_text(parse_error: Seq<char>) -> Seq<char> {
    "Previous response was invalid JSON. Error: "@ + parse_error
        + ". Please return ONLY valid JSON with the exact structure specified."@
}

/// What the caller must do after recording a failure.
pub enum RetryStep {
    /// Retry at once, prepending this corrective instruction to the request.
    RetryNow { correction: String },
    /// Wait this long, then retry.
    Wait { delay_ms: u64 },
    /// All attempts are exhausted: surface this aggregated error.
    GiveUp { message: String },
}

/// Bounded retry bookkeeping for one oracle request: a fixed number of
/// attempts, a backoff that grows strictly with the attempt number for
/// transport failures, an immediate corrective retry for parse failures,
/// and one aggregated error once the attempts are exhausted.
pub struct RetrySession {
    max_attempts: u32,
    attempts: u32,
}

impl RetrySession {
    /// How many attempts may be made in all.
    pub closed spec fn spec_max_attempts(&self) -> u32 {
        self.max_attempts
    }

    /// How many attempts have failed so far.
    pub closed spec fn spec_attempts(&self) -> u32 {
        self.attempts
    }

    /// A session allowing `max_attempts` attempts.
    pub fn new(max_attempts: u32) -> (r: Self)
        requires
            max_attempts >= 1,
        ensures
            r.spec_max_attempts() == max_attempts,
            r.spec_attempts() == 0,
    {
        RetrySession { max_attempts, attempts: 0 }
    }

    /// How many attempts have failed so far.
    pub fn attempts_made(&self) -> (r: u32)
        ensures
            r == self.spec_attempts(),
    {
        self.attempts
    }

    /// Whether another attempt may be made.
    pub fn may_attempt(&self) -> (r: bool)
        ensures
            r == (self.spec_attempts() < self.spec_max_attempts()),
    {
        self.attempts < self.max_attempts
    }

    /// Record a transport failure of the current attempt. Short of the bound
    /// the caller waits with a strictly growing backoff; at the bound the
    /// aggregated error is surfaced and no further attempt is made.
    pub fn record_transport_failure(&mut self, error: String) -> (r: RetryStep)
        requires
            old(self).spec_attempts() < old(self).spec_max_attempts(),
        ensures
            final(self).spec_attempts() == old(self).spec_attempts() + 1,
            final(self).spec_max_attempts() == old(self).spec_max_attempts(),
            final(self).spec_attempts() < final(self).spec_max_attempts() ==> (r matches
                RetryStep::Wait { delay_ms } && delay_ms == backoff_delay_ms(
                final(self).spec_attempts(),
            )),
            final(self).spec_attempts() == final(self).spec_max_attempts() ==> (r matches
                RetryStep::GiveUp { message } && message@ == aggregated_error(
                final(self).spec_max_attempts(),
                error@,
            )),
    {
        self.attempts = self.attempts + 1;
        if self.attempts < self.max_attempts {
            RetryStep::Wait { delay_ms: 500 * (self.attempts as u64) }
        } else {
            RetryStep::GiveUp { message: build_aggregated_error(self.max_attempts, error) }
        }
    }

    /// Record a structured-parse failure of the current attempt. Short of
    /// the bound the caller retries at once with a corrective instruction
    /// prepended; at the bound the aggregated error is surfaced.
    pub fn record_parse_failure(&mut self, error: String) -> (r: RetryStep)
        requires
            old(self).spec_attempts() < old(self).spec_max_attempts(),
        ensures
            final(self).spec_attempts() == old(self).spec_attempts() + 1,
            final(self).spec_max_attempts() == old(self).spec_max_attempts(),
            final(self).spec_attempts() < final(self).spec_max_attempts() ==> (r matches
                RetryStep::RetryNow { correction } && correction@ == correction_text(error@)),
            final(self).spec_attempts() == final(self).spec_max_attempts() ==> (r matches
                RetryStep::GiveUp { message } && message@ == aggregated_error(
                final(self).spec_max_attempts(),
                error@,
            )),
    {
        self.attempts = self.attempts + 1;
        if self.attempts < self.max_attempts {
            let mut c: String = "Previous response was invalid JSON. Error: ".to_owned();
            c.append(error.as_str());
            c.append(". Please return ONLY valid JSON with the exact structure specified.");
            RetryStep::RetryNow { correction: c }
        } else {
            RetryStep::GiveUp { message: build_aggregated_error(self.max_attempts, error) }
        }
    }
}

fn build_aggregated_error(max_attempts: u32, last_error: String) -> (r: String)
    ensures
        r@ == aggregated_error(max_attempts, last_error@),
{
    let mut s: String = "Failed after ".to_owned();
    let num = decimal_string(max_attempts as u64);
    s.append(num.as_str());
    s.append(" attempts. Last error: ");
    s.append(last_error.as_str());
    s
}

} // verus!
