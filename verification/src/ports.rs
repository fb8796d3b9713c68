//! The capability ports the automation core is written against: screen
//! capture with change-detection hashing, input automation, and audio
//! notification. OS backends implement these outside the library; the
//! in-library mocks implement them for tests and verification.

use vstd::prelude::*;
use crate::domain::{Region, Rect, ScreenFrame, DisplayInfo, BackendError, MouseButton};

verus! {

/// One observable input-automation effect, in the order it was requested.
pub enum AutoEvent {
    MoveTo { x: u32, y: u32 },
    ClickAt { button: MouseButton },
    ButtonDown { button: MouseButton },
    ButtonUp { button: MouseButton },
    TypedText { text: Seq<char> },
    KeyTap { key: Seq<char> },
    KeyDown { key: Seq<char> },
    KeyUp { key: Seq<char> },
}

/// One call into the automation port: the requested effect and the
/// backend's answer (`None` for success, the message for a failure).
pub struct AutoCall {
    pub event: AutoEvent,
    pub outcome: Option<Seq<char>>,
}

/// The outcome a port call reports, as the trace records it.
pub open spec fn call_outcome(r: Result<(), String>) -> Option<Seq<char>> {
    match r {
        Ok(u) => None,
        Err(e) => Some(e@),
    }
}

/// One change-detection query answered by the capture port.
pub struct HashProbe {
    pub id: Seq<char>,
    pub rect: Rect,
    pub downscale: u32,
    pub result: u64,
}

/// Screen capture for named regions, with a cheap change-detection hash.
///
/// The hash must be a pure function of the region's pixel content and the
/// downscale factor; a zero-area region hashes to the sentinel 0 and cannot
/// be captured. Every hash query is appended to the port's abstract probe
/// trace, so a caller's contract can tie its state to the port's answers.
pub trait ScreenCapture {
    /// The hash queries answered so far. The default keeps no history and
    /// makes `hash_region`'s contract unsatisfiable: a verified
    /// implementation must override it; only host backends outside the
    /// verifier may leave it.
    open spec fn probes(&self) -> Seq<HashProbe> {
        Seq::empty()
    }

    fn hash_region(&mut self, region: &Region, downscale: u32) -> (r: u64)
        ensures
            region.rect.spec_zero_area() ==> r == 0,
            final(self).probes() == old(self).probes().push(
                HashProbe { id: region.id@, rect: region.rect, downscale, result: r },
            ),
    ;

    fn capture_region(&self, region: &Region) -> (r: Result<ScreenFrame, BackendError>)
        ensures
            region.rect.spec_zero_area() ==> r is Err,
            r is Ok ==> r.unwrap().well_formed(),
            r is Ok ==> r.unwrap().width == region.rect.width && r.unwrap().height
                == region.rect.height,
    ;

    fn displays(&self) -> (r: Result<Vec<DisplayInfo>, BackendError>);
}

/// Cursor, mouse-button, key and text injection. Each call appends the
/// requested effect, paired with the backend's own answer, to the port's
/// abstract trace: a caller that forwards the port's result is thereby
/// held to it.
pub trait Automation {
    /// The calls made so far. The default keeps no history and makes the
    /// method contracts unsatisfiable: a verified implementation must
    /// override it; only host backends outside the verifier may leave it.
    open spec fn events(&self) -> Seq<AutoCall> {
        Seq::empty()
    }

    fn move_cursor(&mut self, x: u32, y: u32) -> (r: Result<(), String>)
        ensures
            final(self).events() == old(self).events().push(
                AutoCall { event: AutoEvent::MoveTo { x, y }, outcome: call_outcome(r) },
            ),
    ;

    fn click(&mut self, button: MouseButton) -> (r: Result<(), String>)
        ensures
            final(self).events() == old(self).events().push(
                AutoCall { event: AutoEvent::ClickAt { button }, outcome: call_outcome(r) },
            ),
    ;

    fn mouse_down(&mut self, button: MouseButton) -> (r: Result<(), String>)
        ensures
            final(self).events() == old(self).events().push(
                AutoCall { event: AutoEvent::ButtonDown { button }, outcome: call_outcome(r) },
            ),
    ;

    fn mouse_up(&mut self, button: MouseButton) -> (r: Result<(), String>)
        ensures
            final(self).events() == old(self).events().push(
                AutoCall { event: AutoEvent::ButtonUp { button }, outcome: call_outcome(r) },
            ),
    ;

    fn type_text(&mut self, text: &str) -> (r: Result<(), String>)
        ensures
            final(self).events() == old(self).events().push(
                AutoCall {
                    event: AutoEvent::TypedText { text: text@ },
                    outcome: call_outcome(r),
                },
            ),
    ;

    fn key(&mut self, key: &str) -> (r: Result<(), String>)
        ensures
            final(self).events() == old(self).events().push(
                AutoCall { event: AutoEvent::KeyTap { key: key@ }, outcome: call_outcome(r) },
            ),
    ;

    fn key_down(&mut self, key: &str) -> (r: Result<(), String>)
        ensures
            final(self).events() == old(self).events().push(
                AutoCall { event: AutoEvent::KeyDown { key: key@ }, outcome: call_outcome(r) },
            ),
    ;

    fn key_up(&mut self, key: &str) -> (r: Result<(), String>)
        ensures
            final(self).events() == old(self).events().push(
                AutoCall { event: AutoEvent::KeyUp { key: key@ }, outcome: call_outcome(r) },
            ),
    ;
}

/// Audio alerts for intervention and completion. Volume is in hundredths
/// (0 ..= 100); a value above 100 is rejected with an error, never clamped.
/// The abstract counters record how often each alert was requested, whether
/// or not a backend audibly played it.
pub trait AudioNotifier {
    /// How many intervention alerts were requested so far.
    open spec fn alarm_count(&self) -> nat {
        0
    }

    /// How many completion alerts were requested so far.
    open spec fn completion_count(&self) -> nat {
        0
    }

    /// Whether alerts are enabled.
    open spec fn enabled_state(&self) -> bool {
        true
    }

    fn play_intervention_needed(&mut self) -> (r: Result<(), String>)
        ensures
            final(self).alarm_count() == old(self).alarm_count() + 1,
            final(self).completion_count() == old(self).completion_count(),
            final(self).enabled_state() == old(self).enabled_state(),
    ;

    fn play_profile_ended(&mut self) -> (r: Result<(), String>)
        ensures
            final(self).completion_count() == old(self).completion_count() + 1,
            final(self).alarm_count() == old(self).alarm_count(),
            final(self).enabled_state() == old(self).enabled_state(),
    ;

    fn set_volume(&mut self, volume: u32) -> (r: Result<(), String>)
        ensures
            r is Ok <==> volume <= 100,
            final(self).alarm_count() == old(self).alarm_count(),
            final(self).completion_count() == old(self).completion_count(),
            final(self).enabled_state() == old(self).enabled_state(),
    ;

    fn set_enabled(&mut self, enabled: bool)
        ensures
            final(self).enabled_state() == enabled,
            final(self).alarm_count() == old(self).alarm_count(),
            final(self).completion_count() == old(self).completion_count(),
    ;

    fn is_enabled(&self) -> (r: bool)
        ensures
            r == self.enabled_state(),
    ;
}

} // verus!
