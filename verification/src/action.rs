//! The action execution model: a closed set of executable action variants
//! operating against the automation port and the action context, among them
//! the risk-gated LLM-continuation action that ties perception to decision
//! to actuation.

use vstd::prelude::*;
use vstd::string::*;
use crate::domain::{Region, LLMPromptResponse, ResponseView};
use crate::context::{ActionContext, expand_spec};
use crate::ports::{Automation, AutoEvent, AutoCall, call_outcome, ScreenCapture, AudioNotifier};
use crate::llm::{LLMClient, build_risk_guidance};
use crate::imaging::capture_region_images;
use crate::textutil::{str_eq, decimal_string, dec_digits};

verus! {

/// Why an action failed. Each variant carries the values its message
/// reports, so a terminal failure stays auditable.
#[derive(Debug)]
pub enum ActionError {
    /// A region id could not be resolved against the known regions.
    RegionNotFound { id: String },
    /// The oracle's risk estimate exceeded the configured threshold; the
    /// alarm has already fired. Risk and threshold are in hundredths.
    RiskBreach { risk: u32, threshold: u32, prompt: String },
    /// The oracle returned an empty continuation prompt.
    EmptyPrompt,
    /// The oracle's continuation prompt exceeds 200 characters.
    PromptTooLong { length: usize },
    /// Capturing or encoding a region image failed.
    CaptureFailed { message: String },
    /// The oracle itself failed (transport, exhausted retries).
    LlmFailed { message: String },
}

/// The audit text of a failure, with the values its variant carries. Risk
/// values are rendered in hundredths of the risk scale.
pub open spec fn error_message_text(e: ActionError) -> Seq<char> {
    match e {
        ActionError::RegionNotFound { id } => "Region '"@ + id@ + "' not found"@,
        ActionError::RiskBreach { risk, threshold, prompt } => "Risk threshold exceeded: "@
            + dec_digits(risk as nat) + "/100 > "@ + dec_digits(threshold as nat)
            + "/100 (generated prompt: '"@ + prompt@ + "')"@,
        ActionError::EmptyPrompt => "LLM returned empty prompt"@,
        ActionError::PromptTooLong { length } => "LLM prompt too long: "@ + dec_digits(
            length as nat,
        ) + " characters (max 200)"@,
        ActionError::CaptureFailed { message } => message@,
        ActionError::LlmFailed { message } => message@,
    }
}

impl ActionError {
    /// A structurally equal copy.
    pub fn duplicate(&self) -> (r: Self)
        ensures
            r == *self,
    {
        match self {
            ActionError::RegionNotFound { id } => ActionError::RegionNotFound {
                id: id.clone(),
            },
            ActionError::RiskBreach { risk, threshold, prompt } => ActionError::RiskBreach {
                risk: *risk,
                threshold: *threshold,
                prompt: prompt.clone(),
            },
            ActionError::EmptyPrompt => ActionError::EmptyPrompt,
            ActionError::PromptTooLong { length } => ActionError::PromptTooLong {
                length: *length,
            },
            ActionError::CaptureFailed { message } => ActionError::CaptureFailed {
                message: message.clone(),
            },
            ActionError::LlmFailed { message } => ActionError::LlmFailed {
                message: message.clone(),
            },
        }
    }

    /// A human-readable report of the failure, exactly the audit text.
    pub fn message(self) -> (r: String)
        ensures
            r@ == error_message_text(self),
    {
        match self {
            ActionError::RegionNotFound { id } => {
                let mut s: String = "Region '".to_owned();
                s.append(id.as_str());
                s.append("' not found");
                proof {
                    assert(s@ =~= error_message_text(self));
                }
                s
            },
            ActionError::RiskBreach { risk, threshold, prompt } => {
                let mut s: String = "Risk threshold exceeded: ".to_owned();
                let rv = decimal_string(risk as u64);
                s.append(rv.as_str());
                s.append("/100 > ");
                let tv = decimal_string(threshold as u64);
                s.append(tv.as_str());
                s.append("/100 (generated prompt: '");
                s.append(prompt.as_str());
                s.append("')");
                proof {
                    assert(s@ =~= error_message_text(self));
                }
                s
            },
            ActionError::EmptyPrompt => "LLM returned empty prompt".to_owned(),
            ActionError::PromptTooLong { length } => {
                let mut s: String = "LLM prompt too long: ".to_owned();
                let lv = decimal_string(length as u64);
                s.append(lv.as_str());
                s.append(" characters (max 200)");
                proof {
                    assert(s@ =~= error_message_text(self));
                }
                s
            },
            ActionError::CaptureFailed { message } => message,
            ActionError::LlmFailed { message } => message,
        }
    }
}

/// What a successful action reports to the enclosing loop.
#[derive(Debug)]
pub enum ActionOutcome {
    /// The action ran; watching may resume.
    Done,
    /// The oracle declared the task complete: the terminal signal for the
    /// run, which must propagate up rather than bind a variable.
    Completed { reason: String },
}

impl ActionOutcome {
    /// A structurally equal copy.
    pub fn duplicate(&self) -> (r: Self)
        ensures
            r == *self,
    {
        match self {
            ActionOutcome::Done => ActionOutcome::Done,
            ActionOutcome::Completed { reason } => ActionOutcome::Completed {
                reason: reason.clone(),
            },
        }
    }
}

/// Move the cursor to absolute coordinates.
pub struct MoveCursor {
    pub x: u32,
    pub y: u32,
}

impl MoveCursor {
    pub fn name(&self) -> (r: &'static str)
        ensures
            r@ == "MoveCursor"@,
    {
        "MoveCursor"
    }

    /// Delegates directly to the automation port; no context interaction.
    pub fn execute<A: Automation>(&self, automation: &mut A, context: &mut ActionContext) -> (r:
        Result<(), String>)
        ensures
            final(automation).events() == old(automation).events().push(
                AutoCall { event: AutoEvent::MoveTo { x: self.x, y: self.y }, outcome: call_outcome(r) },
            ),
            final(context)@ == old(context)@,
    {
        automation.move_cursor(self.x, self.y)
    }
}

/// Click one mouse button.
pub struct Click {
    pub button: crate::domain::MouseButton,
}

impl Click {
    pub fn name(&self) -> (r: &'static str)
        ensures
            r@ == "Click"@,
    {
        "Click"
    }

    /// Delegates directly to the automation port; no context interaction.
    pub fn execute<A: Automation>(&self, automation: &mut A, context: &mut ActionContext) -> (r:
        Result<(), String>)
        ensures
            final(automation).events() == old(automation).events().push(
                AutoCall { event: AutoEvent::ClickAt { button: self.button }, outcome: call_outcome(r) },
            ),
            final(context)@ == old(context)@,
    {
        automation.click(self.button)
    }
}

/// Type a text template, expanding `$name` variables through the context
/// first: the injection point for oracle-produced continuation prompts.
pub struct TypeText {
    pub text: String,
}

impl TypeText {
    pub fn name(&self) -> (r: &'static str)
        ensures
            r@ == "Type"@,
    {
        "Type"
    }

    /// Expands the template, then delegates the expanded text to the port.
    pub fn execute<A: Automation>(&self, automation: &mut A, context: &mut ActionContext) -> (r:
        Result<(), String>)
        ensures
            final(automation).events() == old(automation).events().push(
                AutoCall {
                    event: AutoEvent::TypedText {
                        text: expand_spec(self.text@, old(context)@),
                    },
                    outcome: call_outcome(r),
                },
            ),
            final(context)@ == old(context)@,
    {
        let expanded = context.expand(self.text.as_str());
        automation.type_text(expanded.as_str())
    }
}

/// Tap one key by its platform-neutral symbolic name. Unrecognized names
/// are accepted by the ports as no-ops by policy.
pub struct Key {
    pub key: String,
}

impl Key {
    pub fn name(&self) -> (r: &'static str)
        ensures
            r@ == "Key"@,
    {
        "Key"
    }

    /// Delegates directly to the automation port; no context interaction.
    pub fn execute<A: Automation>(&self, automation: &mut A, context: &mut ActionContext) -> (r:
        Result<(), String>)
        ensures
            final(automation).events() == old(automation).events().push(
                AutoCall { event: AutoEvent::KeyTap { key: self.key@ }, outcome: call_outcome(r) },
            ),
            final(context)@ == old(context)@,
    {
        automation.key(self.key.as_str())
    }
}

/// What the risk gate does with a decision, for every outcome: a completion
/// propagates; a continuation above the threshold fails loudly after the
/// alarm; an empty or over-length prompt fails validation independent of
/// risk; a valid prompt is bound in the context.
pub open spec fn gate_post(
    resp: ResponseView,
    threshold: u32,
    var: Seq<char>,
    ctx_old: Map<Seq<char>, Seq<char>>,
    ctx_new: Map<Seq<char>, Seq<char>>,
    alarms_old: nat,
    alarms_new: nat,
    r: Result<ActionOutcome, ActionError>,
) -> bool {
    match resp {
        ResponseView::Completed { reason } => {
            &&& (r matches Ok(ActionOutcome::Completed { reason: out }) && out@ == reason)
            &&& ctx_new == ctx_old
            &&& alarms_new == alarms_old
        },
        ResponseView::Continuation { prompt, risk } => {
            if risk > threshold {
                &&& (r matches Err(ActionError::RiskBreach { risk: rk, threshold: th, prompt: pp })
                    && rk == risk && th == threshold && pp@ == prompt)
                &&& ctx_new == ctx_old
                &&& alarms_new == alarms_old + 1
            } else if prompt.len() == 0 {
                &&& (r matches Err(ActionError::EmptyPrompt))
                &&& ctx_new == ctx_old
                &&& alarms_new == alarms_old
            } else if prompt.len() > 200 {
                &&& (r matches Err(ActionError::PromptTooLong { length }) && length == prompt.len())
                &&& ctx_new == ctx_old
                &&& alarms_new == alarms_old
            } else {
                &&& (r matches Ok(ActionOutcome::Done))
                &&& ctx_new == ctx_old.insert(var, prompt)
                &&& alarms_new == alarms_old
            }
        },
    }
}

/// The risk gate: validate a decision against the threshold and the prompt
/// rules, fire the alarm on a breach (even though the action then fails),
/// and bind the validated prompt into the context.
pub fn gate_and_bind<N: AudioNotifier>(
    response: LLMPromptResponse,
    risk_threshold: u32,
    variable_name: &str,
    context: &mut ActionContext,
    audio: &mut N,
) -> (r: Result<ActionOutcome, ActionError>)
    ensures
        gate_post(
            response@,
            risk_threshold,
            variable_name@,
            old(context)@,
            final(context)@,
            old(audio).alarm_count(),
            final(audio).alarm_count(),
            r,
        ),
{
    match response {
        LLMPromptResponse::Completed { reason } => Ok(ActionOutcome::Completed { reason }),
        LLMPromptResponse::Continuation { prompt, risk } => {
            if risk > risk_threshold {
                // Fail-loud: the alarm fires first, and must not block the
                // error path, so its own result is not allowed to matter.
                let _ = audio.play_intervention_needed();
                return Err(ActionError::RiskBreach { risk, threshold: risk_threshold, prompt });
            }
            let length = prompt.as_str().unicode_len();
            if length == 0 {
                return Err(ActionError::EmptyPrompt);
            }
            if length > 200 {
                return Err(ActionError::PromptTooLong { length });
            }
            context.set(variable_name, prompt);
            Ok(ActionOutcome::Done)
        },
    }
}

/// Prompts with a length in 1 ..= 200 characters pass validation when the
/// risk gate clears; a length of 0 or above 200 always fails, whatever the
/// risk, and never touches the context.
pub proof fn lemma_prompt_validation(
    resp: ResponseView,
    threshold: u32,
    var: Seq<char>,
    ctx_old: Map<Seq<char>, Seq<char>>,
    ctx_new: Map<Seq<char>, Seq<char>>,
    alarms_old: nat,
    alarms_new: nat,
    r: Result<ActionOutcome, ActionError>,
    prompt: Seq<char>,
    risk: u32,
)
    requires
        resp == (ResponseView::Continuation { prompt, risk }),
        gate_post(resp, threshold, var, ctx_old, ctx_new, alarms_old, alarms_new, r),
    ensures
        prompt.len() == 0 || prompt.len() > 200 ==> r is Err && ctx_new == ctx_old,
        risk <= threshold && 0 < prompt.len() <= 200 ==> (r matches Ok(ActionOutcome::Done)
            && ctx_new == ctx_old.insert(var, prompt)),
{
}

/// A risk breach fails with an error carrying the risk, the threshold and
/// the generated prompt, and the alarm fires exactly once.
pub proof fn lemma_risk_breach_fails_loud(
    resp: ResponseView,
    threshold: u32,
    var: Seq<char>,
    ctx_old: Map<Seq<char>, Seq<char>>,
    ctx_new: Map<Seq<char>, Seq<char>>,
    alarms_old: nat,
    alarms_new: nat,
    r: Result<ActionOutcome, ActionError>,
    prompt: Seq<char>,
    risk: u32,
)
    requires
        resp == (ResponseView::Continuation { prompt, risk }),
        risk > threshold,
        gate_post(resp, threshold, var, ctx_old, ctx_new, alarms_old, alarms_new, r),
    ensures
        r matches Err(ActionError::RiskBreach { risk: rk, threshold: th, prompt: pp }) && rk
            == risk && th == threshold && pp@ == prompt,
        alarms_new == alarms_old + 1,
        ctx_new == ctx_old,
{
}

/// The LLM prompt-generation action: capture the named regions, consult the
/// oracle, gate the decision on risk, validate the prompt, and bind it into
/// the context under the variable name.
pub struct LLMPromptGenerationAction {
    pub region_ids: Vec<String>,
    pub risk_threshold: u32,
    pub system_prompt: Option<String>,
    pub variable_name: String,
    pub all_regions: Vec<Region>,
}

/// The id can be resolved against the known regions.
pub open spec fn resolvable(all: Seq<Region>, id: Seq<char>) -> bool {
    exists|j: int| 0 <= j < all.len() && (#[trigger] all[j]).id@ == id
}

/// `id` is one of the requested region ids.
pub open spec fn requested_id(region_ids: Seq<String>, id: Seq<char>) -> bool {
    exists|i: int| 0 <= i < region_ids.len() && (#[trigger] region_ids[i])@ == id
}

/// Some requested id has no region with that id among the known regions.
pub open spec fn some_unresolved(region_ids: Seq<String>, all: Seq<Region>) -> bool {
    exists|i: int| 0 <= i < region_ids.len() && !resolvable(all, (#[trigger] region_ids[i])@)
}

/// `resolved` carries the requested id and the geometry of a known region
/// under that id.
pub open spec fn region_resolved(all: Seq<Region>, id: Seq<char>, resolved: Region) -> bool {
    resolved.id@ == id && exists|j: int|
        0 <= j < all.len() && (#[trigger] all[j]).id@ == id && all[j].rect == resolved.rect
}

/// Neither the context nor the alarm counter changed.
pub open spec fn untouched(
    ctx_old: Map<Seq<char>, Seq<char>>,
    ctx_new: Map<Seq<char>, Seq<char>>,
    alarms_old: nat,
    alarms_new: nat,
) -> bool {
    ctx_new == ctx_old && alarms_new == alarms_old
}

/// Everything the decision step promises of its result, whatever the ports
/// answered: an unresolved requested id always yields exactly the
/// region-not-found error for a requested id, before any capture, oracle
/// call or alarm; every other outcome is reached only with all ids
/// resolved, and fixes how the context and the alarm counter moved — in
/// particular a risk breach names the configured threshold, exceeds it,
/// and fires the alarm exactly once, and a successful decision binds a
/// validated prompt of 1 ..= 200 characters under the variable name.
pub open spec fn execute_post(
    region_ids: Seq<String>,
    all: Seq<Region>,
    threshold: u32,
    var: Seq<char>,
    ctx_old: Map<Seq<char>, Seq<char>>,
    ctx_new: Map<Seq<char>, Seq<char>>,
    alarms_old: nat,
    alarms_new: nat,
    r: Result<ActionOutcome, ActionError>,
) -> bool {
    &&& (some_unresolved(region_ids, all) ==> r matches Err(
        ActionError::RegionNotFound { id: _ },
    ))
    &&& (r matches Err(ActionError::RegionNotFound { id }) ==> !resolvable(all, id@)
        && requested_id(region_ids, id@) && untouched(ctx_old, ctx_new, alarms_old, alarms_new))
    &&& (r matches Err(ActionError::CaptureFailed { message }) ==> !some_unresolved(
        region_ids,
        all,
    ) && untouched(ctx_old, ctx_new, alarms_old, alarms_new))
    &&& (r matches Err(ActionError::LlmFailed { message }) ==> !some_unresolved(region_ids, all)
        && untouched(ctx_old, ctx_new, alarms_old, alarms_new))
    &&& (r matches Err(ActionError::RiskBreach { risk, threshold: th, prompt }) ==> (
    !some_unresolved(region_ids, all)) && th == threshold && risk > th && ctx_new == ctx_old
        && alarms_new == alarms_old + 1)
    &&& (r matches Err(ActionError::EmptyPrompt) ==> !some_unresolved(region_ids, all)
        && untouched(ctx_old, ctx_new, alarms_old, alarms_new))
    &&& (r matches Err(ActionError::PromptTooLong { length }) ==> !some_unresolved(
        region_ids,
        all,
    ) && length > 200 && untouched(ctx_old, ctx_new, alarms_old, alarms_new))
    &&& (r matches Ok(ActionOutcome::Done) ==> !some_unresolved(region_ids, all)
        && ctx_new.contains_key(var) && 0 < ctx_new[var].len() <= 200 && ctx_new
        == ctx_old.insert(var, ctx_new[var]) && alarms_new == alarms_old)
    &&& (r matches Ok(ActionOutcome::Completed { reason }) ==> !some_unresolved(region_ids, all)
        && untouched(ctx_old, ctx_new, alarms_old, alarms_new))
}

impl LLMPromptGenerationAction {
    pub fn name(&self) -> (r: &'static str)
        ensures
            r@ == "LLMPromptGeneration"@,
    {
        "LLMPromptGeneration"
    }

    /// Resolve every requested id, in order: each resolved entry carries
    /// the requested id and a known region's geometry under it. The first
    /// unresolved id is a hard error, since a missing region would change
    /// what the oracle sees.
    fn resolve_regions(&self) -> (r: Result<Vec<Region>, ActionError>)
        ensures
            r is Ok ==> r.unwrap()@.len() == self.region_ids@.len(),
            r is Ok ==> forall|i: int|
                0 <= i < self.region_ids@.len() ==> region_resolved(
                    self.all_regions@,
                    (#[trigger] self.region_ids@[i])@,
                    r.unwrap()@[i],
                ),
            (r matches Err(e) ==> (e matches ActionError::RegionNotFound { id } && !resolvable(
                self.all_regions@,
                id@,
            ) && requested_id(self.region_ids@, id@))),
            some_unresolved(self.region_ids@, self.all_regions@) <==> r is Err,
    {
        let mut resolved: Vec<Region> = Vec::new();
        let mut i: usize = 0;
        while i < self.region_ids.len()
            invariant
                i <= self.region_ids@.len(),
                resolved@.len() == i,
                forall|q: int|
                    0 <= q < i ==> region_resolved(
                        self.all_regions@,
                        (#[trigger] self.region_ids@[q])@,
                        resolved@[q],
                    ),
            decreases self.region_ids@.len() - i,
        {
            let id = &self.region_ids[i];
            let mut found = false;
            let mut j: usize = 0;
            while j < self.all_regions.len() && !found
                invariant
                    j <= self.all_regions@.len(),
                    found ==> j >= 1 && 0 <= j - 1 < self.all_regions@.len()
                        && self.all_regions@[j - 1].id@ == id@,
                    !found ==> forall|q: int|
                        0 <= q < j ==> (#[trigger] self.all_regions@[q]).id@ != id@,
                decreases self.all_regions@.len() - j + (if found { 0int } else { 1int }),
            {
                if str_eq(self.all_regions[j].id.as_str(), id.as_str()) {
                    found = true;
                }
                j += 1;
            }
            if found {
                let ghost before = resolved@;
                resolved.push(self.all_regions[j - 1].duplicate());
                proof {
                    assert(region_resolved(
                        self.all_regions@,
                        self.region_ids@[i as int]@,
                        resolved@[i as int],
                    ));
                    assert(forall|q: int| 0 <= q < i ==> resolved@[q] == before[q]);
                }
            } else {
                proof {
                    assert(!resolvable(self.all_regions@, id@));
                    assert(requested_id(self.region_ids@, id@)) by {
                        assert(self.region_ids@[i as int]@ == id@);
                    }
                    assert(some_unresolved(self.region_ids@, self.all_regions@)) by {
                        assert(!resolvable(self.all_regions@, self.region_ids@[i as int]@));
                    }
                }
                return Err(ActionError::RegionNotFound { id: id.clone() });
            }
            i += 1;
        }
        proof {
            assert forall|q: int|
                0 <= q < self.region_ids@.len() implies resolvable(
                self.all_regions@,
                (#[trigger] self.region_ids@[q])@,
            ) by {
                assert(region_resolved(
                    self.all_regions@,
                    self.region_ids@[q]@,
                    resolved@[q],
                ));
            }
        }
        Ok(resolved)
    }

    /// Run the full decision step: resolve, capture, consult the oracle,
    /// gate. The whole promise is `execute_post`.
    pub fn execute<C: ScreenCapture, L: LLMClient, N: AudioNotifier>(
        &self,
        capture: &C,
        llm: &L,
        audio: &mut N,
        context: &mut ActionContext,
    ) -> (r: Result<ActionOutcome, ActionError>)
        ensures
            execute_post(
                self.region_ids@,
                self.all_regions@,
                self.risk_threshold,
                self.variable_name@,
                old(context)@,
                final(context)@,
                old(audio).alarm_count(),
                final(audio).alarm_count(),
                r,
            ),
    {
        let captured_regions = match self.resolve_regions() {
            Ok(v) => v,
            Err(e) => {
                return Err(e);
            },
        };
        let images = match capture_region_images(&captured_regions, capture) {
            Ok(v) => v,
            Err(message) => {
                return Err(ActionError::CaptureFailed { message });
            },
        };
        let guidance = build_risk_guidance();
        let system_prompt: Option<&str> = match &self.system_prompt {
            Some(p) => Some(p.as_str()),
            None => None,
        };
        let response = match llm.generate_prompt(
            captured_regions.as_slice(),
            images,
            system_prompt,
            guidance.as_str(),
        ) {
            Ok(resp) => resp,
            Err(message) => {
                return Err(ActionError::LlmFailed { message });
            },
        };
        let ghost rv = response@;
        let result = gate_and_bind(
            response,
            self.risk_threshold,
            self.variable_name.as_str(),
            context,
            audio,
        );
        proof {
            match rv {
                ResponseView::Continuation { prompt, risk } => {
                    if risk <= self.risk_threshold && 0 < prompt.len() <= 200 {
                        assert(context@ == old(context)@.insert(self.variable_name@, prompt));
                        assert(context@[self.variable_name@] == prompt);
                        assert(context@.contains_key(self.variable_name@));
                        assert(context@ == old(context)@.insert(
                            self.variable_name@,
                            context@[self.variable_name@],
                        ));
                    }
                },
                _ => {},
            }
        }
        result
    }
}

} // verus!
