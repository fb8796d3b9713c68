//! Core data model: screen regions, captured frames, display descriptors,
//! mouse buttons, and the structured decision returned by the LLM oracle.
//!
//! Risk scores and risk thresholds are carried as integer hundredths: the
//! value `r` stands for the fraction `r / 100`, so the full risk scale
//! `0.0 ..= 1.0` is `0 ..= 100`.

use vstd::prelude::*;

verus! {

/// A rectangle in pixel coordinates.
#[derive(Clone, Copy, PartialEq, Eq, Structural, Debug)]
pub struct Rect {
    pub x: u32,
    pub y: u32,
    pub width: u32,
    pub height: u32,
}

impl Rect {
    /// A region with no pixels: capture must fail on it and the change hash
    /// short-circuits to the sentinel value 0.
    pub open spec fn spec_zero_area(&self) -> bool {
        self.width == 0 || self.height == 0
    }

    pub fn zero_area(&self) -> (r: bool)
        ensures
            r == self.spec_zero_area(),
    {
        self.width == 0 || self.height == 0
    }
}

/// A named rectangular screen area of interest.
#[derive(Clone, Debug)]
pub struct Region {
    pub id: String,
    pub rect: Rect,
}

impl Region {
    /// A structurally equal copy.
    pub fn duplicate(&self) -> (r: Self)
        ensures
            r.id@ == self.id@,
            r.rect == self.rect,
    {
        Region { id: self.id.clone(), rect: self.rect }
    }
}

/// A mouse button for click and press actions.
#[derive(Clone, Copy, PartialEq, Eq, Structural, Debug)]
pub enum MouseButton {
    Left,
    Right,
    Middle,
}

/// A read-only snapshot of one display, rebuilt on every enumeration.
/// The scale factor is carried in hundredths (150 stands for 1.5x).
#[derive(Clone, Debug)]
pub struct DisplayInfo {
    pub id: u32,
    pub name: Option<String>,
    pub x: i32,
    pub y: i32,
    pub width: u32,
    pub height: u32,
    pub scale_percent: u32,
    pub is_primary: bool,
}

/// Raw pixel data captured for one region: 4 bytes per pixel, RGBA.
#[derive(Clone, Debug)]
pub struct ScreenFrame {
    pub display: DisplayInfo,
    pub width: u32,
    pub height: u32,
    pub stride: u32,
    pub bytes: Vec<u8>,
    pub timestamp_ms: u64,
}

impl ScreenFrame {
    /// A frame is well formed when it holds exactly its pixels: a positive
    /// area, a stride of four bytes per pixel, and a matching buffer length.
    pub open spec fn well_formed(&self) -> bool {
        &&& self.width > 0
        &&& self.height > 0
        &&& self.stride == self.width * 4
        &&& self.bytes@.len() == self.width * self.height * 4
    }
}

/// The structured decision returned by the LLM oracle: either an instruction
/// to continue with a generated prompt and an estimated risk (in hundredths),
/// or the signal that the task is complete.
#[derive(Clone, Debug)]
pub enum LLMPromptResponse {
    Continuation { prompt: String, risk: u32 },
    Completed { reason: String },
}

/// The mathematical value of an LLM decision.
pub enum ResponseView {
    Continuation { prompt: Seq<char>, risk: u32 },
    Completed { reason: Seq<char> },
}

impl View for LLMPromptResponse {
    type V = ResponseView;

    open spec fn view(&self) -> ResponseView {
        match self {
            LLMPromptResponse::Continuation { prompt, risk } => ResponseView::Continuation {
                prompt: prompt@,
                risk: *risk,
            },
            LLMPromptResponse::Completed { reason } => ResponseView::Completed {
                reason: reason@,
            },
        }
    }
}

impl LLMPromptResponse {
    /// A structurally equal copy.
    pub fn duplicate(&self) -> (r: Self)
        ensures
            r == *self,
    {
        match self {
            LLMPromptResponse::Continuation { prompt, risk } => LLMPromptResponse::Continuation {
                prompt: prompt.clone(),
                risk: *risk,
            },
            LLMPromptResponse::Completed { reason } => LLMPromptResponse::Completed {
                reason: reason.clone(),
            },
        }
    }
}

impl LLMPromptResponse {
    /// Build a continuation decision.
    pub fn continuation(prompt: String, risk: u32) -> (r: Self)
        ensures
            r == (LLMPromptResponse::Continuation { prompt, risk }),
    {
        LLMPromptResponse::Continuation { prompt, risk }
    }

    /// Build a completion decision.
    pub fn completed(reason: String) -> (r: Self)
        ensures
            r == (LLMPromptResponse::Completed { reason }),
    {
        LLMPromptResponse::Completed { reason }
    }
}

/// A capture backend failure, with a stable code and a human-readable detail.
#[derive(Clone, Debug)]
pub struct BackendError {
    pub code: String,
    pub detail: String,
}

impl BackendError {
    pub fn new(code: String, detail: String) -> (r: Self)
        ensures
            r.code == code,
            r.detail == detail,
    {
        BackendError { code, detail }
    }
}

} // verus!
