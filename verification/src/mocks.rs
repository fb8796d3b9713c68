//! In-library port backends: a screen-capture mock over stored pixel
//! buffers and an automation recorder. They give tests deterministic
//! behaviour and show that the port contracts are implementable.

use vstd::prelude::*;
use crate::domain::{Region, ScreenFrame, DisplayInfo, BackendError, MouseButton};
use crate::ports::{ScreenCapture, Automation, AutoEvent, AutoCall, HashProbe};
use crate::hashing::{hash_region_bytes, spec_region_hash};
use crate::textutil::str_eq;

verus! {

/// The buffers a sequence of `(id, bytes)` pairs stands for: later pairs
/// shadow earlier ones.
pub open spec fn buffers_of(pairs: Seq<(String, Vec<u8>)>) -> Map<Seq<char>, Seq<u8>>
    decreases pairs.len(),
{
    if pairs.len() == 0 {
        Map::empty()
    } else {
        buffers_of(pairs.drop_last()).insert(pairs.last().0@, pairs.last().1@)
    }
}

/// The pixel bytes the mock hashes for an id: the stored buffer, or an
/// empty buffer when nothing is stored.
pub open spec fn stored_or_empty(m: Map<Seq<char>, Seq<u8>>, id: Seq<char>) -> Seq<u8> {
    if m.contains_key(id) {
        m[id]
    } else {
        Seq::empty()
    }
}

/// Looks an id up in a pair sequence, later pairs first.
spec fn buffer_lookup(pairs: Seq<(String, Vec<u8>)>, id: Seq<char>) -> Option<Seq<u8>>
    decreases pairs.len(),
{
    if pairs.len() == 0 {
        None
    } else if pairs.last().0@ == id {
        Some(pairs.last().1@)
    } else {
        buffer_lookup(pairs.drop_last(), id)
    }
}

proof fn lemma_buffer_lookup_is_buffers(pairs: Seq<(String, Vec<u8>)>, id: Seq<char>)
    ensures
        buffer_lookup(pairs, id) == (if buffers_of(pairs).contains_key(id) {
            Some(buffers_of(pairs)[id])
        } else {
            None::<Seq<u8>>
        }),
    decreases pairs.len(),
{
    if pairs.len() > 0 {
        lemma_buffer_lookup_is_buffers(pairs.drop_last(), id);
    }
}

/// A screen-capture backend over in-memory pixel buffers, one per region id.
pub struct MockCapture {
    buffers: Vec<(String, Vec<u8>)>,
    probe_log: Ghost<Seq<HashProbe>>,
}

impl MockCapture {
    /// The stored buffers, by region id.
    pub closed spec fn spec_buffers(&self) -> Map<Seq<char>, Seq<u8>> {
        buffers_of(self.buffers@)
    }

    pub fn new() -> (r: Self)
        ensures
            r.spec_buffers() == Map::<Seq<char>, Seq<u8>>::empty(),
            r.probes() == Seq::<HashProbe>::empty(),
    {
        MockCapture { buffers: Vec::new(), probe_log: Ghost(Seq::empty()) }
    }

    /// Store (or replace, by shadowing) the pixel buffer for a region id.
    pub fn set_buffer(&mut self, id: String, bytes: Vec<u8>)
        ensures
            final(self).spec_buffers() == old(self).spec_buffers().insert(id@, bytes@),
            final(self).probes() == old(self).probes(),
    {
        self.buffers.push((id, bytes));
        proof {
            assert(self.buffers@.drop_last() =~= old(self).buffers@);
        }
    }

    /// The most recently stored buffer for an id.
    fn find_buffer(&self, id: &str) -> (r: Option<&Vec<u8>>)
        ensures
            match r {
                Some(b) => self.spec_buffers().contains_key(id@) && b@ == self.spec_buffers()[
                    id@
                ],
                None => !self.spec_buffers().contains_key(id@),
            },
    {
        proof {
            assert(self.buffers@.take(self.buffers@.len() as int) =~= self.buffers@);
        }
        let mut j: usize = self.buffers.len();
        while j > 0
            invariant
                j <= self.buffers@.len(),
                buffer_lookup(self.buffers@, id@) == buffer_lookup(
                    self.buffers@.take(j as int),
                    id@,
                ),
            decreases j,
        {
            proof {
                assert(self.buffers@.take(j as int).last() == self.buffers@[j - 1]);
                assert(self.buffers@.take(j as int).drop_last() =~= self.buffers@.take(j - 1));
            }
            if str_eq(self.buffers[j - 1].0.as_str(), id) {
                proof {
                    assert(buffer_lookup(self.buffers@.take(j as int), id@) == Some(
                        self.buffers@[j - 1].1@,
                    ));
                    lemma_buffer_lookup_is_buffers(self.buffers@, id@);
                }
                return Some(&self.buffers[j - 1].1);
            }
            j -= 1;
        }
        proof {
            assert(self.buffers@.take(0) =~= Seq::<(String, Vec<u8>)>::empty());
            lemma_buffer_lookup_is_buffers(self.buffers@, id@);
        }
        None
    }
}

/// The display descriptor the mock reports for every frame.
fn mock_display() -> (r: DisplayInfo) {
    DisplayInfo {
        id: 0,
        name: None,
        x: 0,
        y: 0,
        width: 1920,
        height: 1080,
        scale_percent: 100,
        is_primary: true,
    }
}

impl ScreenCapture for MockCapture {
    closed spec fn probes(&self) -> Seq<HashProbe> {
        self.probe_log@
    }

    /// The change hash of the stored pixels: exactly `spec_region_hash` of
    /// the region's geometry over the stored buffer (empty when none is
    /// stored), so identical stored pixels always hash alike.
    fn hash_region(&mut self, region: &Region, downscale: u32) -> (r: u64)
        ensures
            r == spec_region_hash(
                region.rect.width,
                region.rect.height,
                downscale,
                stored_or_empty(old(self).spec_buffers(), region.id@),
            ),
            final(self).spec_buffers() == old(self).spec_buffers(),
    {
        let result: u64 = if region.rect.zero_area() {
            0
        } else {
            match self.find_buffer(region.id.as_str()) {
                Some(buf) => hash_region_bytes(
                    region.rect.width,
                    region.rect.height,
                    downscale,
                    buf,
                ),
                None => {
                    let empty: Vec<u8> = Vec::new();
                    hash_region_bytes(region.rect.width, region.rect.height, downscale, &empty)
                },
            }
        };
        proof {
            self.probe_log@ = self.probe_log@.push(
                HashProbe {
                    id: region.id@,
                    rect: region.rect,
                    downscale,
                    result,
                },
            );
        }
        result
    }

    /// Capture succeeds exactly when the region has area, its stride fits,
    /// and a buffer of exactly the region's pixel count is stored; the
    /// frame then holds that buffer.
    fn capture_region(&self, region: &Region) -> (r: Result<ScreenFrame, BackendError>)
        ensures
            r is Ok <==> !region.rect.spec_zero_area() && region.rect.width <= u32::MAX / 4
                && self.spec_buffers().contains_key(region.id@) && self.spec_buffers()[
                region.id@
            ].len() == region.rect.width * region.rect.height * 4,
            r is Ok ==> r.unwrap().bytes@ == self.spec_buffers()[region.id@],
    {
        let w = region.rect.width;
        let h = region.rect.height;
        if region.rect.zero_area() {
            return Err(BackendError::new(
                "invalid_region".to_owned(),
                "region has zero area".to_owned(),
            ));
        }
        let buf = match self.find_buffer(region.id.as_str()) {
            Some(b) => b,
            None => {
                return Err(BackendError::new(
                    "capture_failed".to_owned(),
                    "no buffer stored for region".to_owned(),
                ));
            },
        };
        // The stored buffer must hold exactly the region's pixels.
        if w > u32::MAX / 4 {
            return Err(BackendError::new(
                "invalid_region".to_owned(),
                "region too wide".to_owned(),
            ));
        }
        proof {
            assert((w as u128) * (h as u128) * 4 <= 0xFFFF_FFFFu128 * 0xFFFF_FFFFu128
                * 4) by (nonlinear_arith)
                requires
                    w as u128 <= 0xFFFF_FFFFu128,
                    h as u128 <= 0xFFFF_FFFFu128,
            ;
        }
        let wh: u128 = (w as u128) * (h as u128) * 4;
        if (buf.len() as u128) != wh {
            return Err(BackendError::new(
                "capture_failed".to_owned(),
                "stored buffer does not match region size".to_owned(),
            ));
        }
        let mut bytes: Vec<u8> = Vec::new();
        let mut k: usize = 0;
        while k < buf.len()
            invariant
                k <= buf@.len(),
                bytes@ == buf@.take(k as int),
            decreases buf@.len() - k,
        {
            bytes.push(buf[k]);
            k += 1;
        }
        proof {
            assert(bytes@ =~= buf@);
        }
        Ok(ScreenFrame {
            display: mock_display(),
            width: w,
            height: h,
            stride: w * 4,
            bytes,
            timestamp_ms: 0,
        })
    }

    fn displays(&self) -> (r: Result<Vec<DisplayInfo>, BackendError>) {
        let mut v: Vec<DisplayInfo> = Vec::new();
        v.push(mock_display());
        Ok(v)
    }
}

/// One recorded automation request.
#[derive(Clone, Debug)]
pub enum RecordedEvent {
    MoveTo(u32, u32),
    ClickAt(MouseButton),
    ButtonDown(MouseButton),
    ButtonUp(MouseButton),
    TypedText(String),
    KeyTap(String),
    KeyDown(String),
    KeyUp(String),
}

impl View for RecordedEvent {
    type V = AutoEvent;

    open spec fn view(&self) -> AutoEvent {
        match self {
            RecordedEvent::MoveTo(x, y) => AutoEvent::MoveTo { x: *x, y: *y },
            RecordedEvent::ClickAt(b) => AutoEvent::ClickAt { button: *b },
            RecordedEvent::ButtonDown(b) => AutoEvent::ButtonDown { button: *b },
            RecordedEvent::ButtonUp(b) => AutoEvent::ButtonUp { button: *b },
            RecordedEvent::TypedText(s) => AutoEvent::TypedText { text: s@ },
            RecordedEvent::KeyTap(s) => AutoEvent::KeyTap { key: s@ },
            RecordedEvent::KeyDown(s) => AutoEvent::KeyDown { key: s@ },
            RecordedEvent::KeyUp(s) => AutoEvent::KeyUp { key: s@ },
        }
    }
}

/// An automation backend that records every request and accepts it.
pub struct MockAutomation {
    log: Vec<RecordedEvent>,
}

impl MockAutomation {
    pub fn new() -> (r: Self)
        ensures
            r.events() == Seq::<AutoCall>::empty(),
    {
        let m = MockAutomation { log: Vec::new() };
        proof {
            assert(m.events() =~= Seq::<AutoCall>::empty());
        }
        m
    }

    /// The recorded requests, oldest first. The mock accepts every call,
    /// so the trace pairs each with a successful outcome.
    pub fn recorded(&self) -> (r: &Vec<RecordedEvent>)
        ensures
            r@.map_values(|e: RecordedEvent| AutoCall { event: e@, outcome: None })
                == self.events(),
    {
        &self.log
    }

    fn push_event(&mut self, e: RecordedEvent)
        ensures
            final(self).events() == old(self).events().push(
                AutoCall { event: e@, outcome: None },
            ),
    {
        self.log.push(e);
        proof {
            assert(self.events() =~= old(self).events().push(
                AutoCall { event: e@, outcome: None },
            ));
        }
    }
}

impl Automation for MockAutomation {
    closed spec fn events(&self) -> Seq<AutoCall> {
        self.log@.map_values(|e: RecordedEvent| AutoCall { event: e@, outcome: None })
    }

    fn move_cursor(&mut self, x: u32, y: u32) -> (r: Result<(), String>) {
        self.push_event(RecordedEvent::MoveTo(x, y));
        Ok(())
    }

    fn click(&mut self, button: MouseButton) -> (r: Result<(), String>) {
        self.push_event(RecordedEvent::ClickAt(button));
        Ok(())
    }

    fn mouse_down(&mut self, button: MouseButton) -> (r: Result<(), String>) {
        self.push_event(RecordedEvent::ButtonDown(button));
        Ok(())
    }

    fn mouse_up(&mut self, button: MouseButton) -> (r: Result<(), String>) {
        self.push_event(RecordedEvent::ButtonUp(button));
        Ok(())
    }

    fn type_text(&mut self, text: &str) -> (r: Result<(), String>) {
        self.push_event(RecordedEvent::TypedText(text.to_owned()));
        Ok(())
    }

    fn key(&mut self, key: &str) -> (r: Result<(), String>) {
        self.push_event(RecordedEvent::KeyTap(key.to_owned()));
        Ok(())
    }

    fn key_down(&mut self, key: &str) -> (r: Result<(), String>) {
        self.push_event(RecordedEvent::KeyDown(key.to_owned()));
        Ok(())
    }

    fn key_up(&mut self, key: &str) -> (r: Result<(), String>) {
        self.push_event(RecordedEvent::KeyUp(key.to_owned()));
        Ok(())
    }
}

} // verus!
