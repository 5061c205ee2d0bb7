//! The fps hint: rolling frame-rate measurement state. The widget samples
//! the shared draw counter at a fixed cadence; the number of frames since
//! the previous sample is the counter delta, corrected for wraparound.
//! Dividing by the elapsed wall-clock time is the caller's job, since
//! only the caller has a clock.

use vstd::prelude::*;

use crate::events::TerminalEvent;
use crate::ui_entities::{TerminalEventResult, UiId, UiMetaData, UiTag};

verus! {

/// How many draws happened between two draw-counter samples, given that
/// the counter wraps to zero on overflow: when the current reading is
/// behind the last one, the counter has wrapped exactly once.
pub open spec fn spec_draw_delta(last: u64, current: u64) -> u64 {
    if current < last {
        ((u64::MAX - last) + current) as u64
    } else {
        (current - last) as u64
    }
}

pub struct FpsHint {
    pub id: UiId,
    pub tag: Option<UiTag>,
    pub last_draw_counter: u64,
}

impl FpsHint {
    pub fn new() -> (r: FpsHint)
        ensures
            r.id == 0u16,
            r.tag is None,
            r.last_draw_counter == 0,
    {
        FpsHint { id: 0, tag: None, last_draw_counter: 0 }
    }

    /// Attach to the shared metadata: obtain this widget's id.
    pub fn with_metadata(self, meta: &mut UiMetaData) -> (r: FpsHint)
        requires
            old(meta).spec_id_counter() < u16::MAX,
        ensures
            r.id == old(meta).spec_id_counter(),
            final(meta).spec_id_counter() == old(meta).spec_id_counter() + 1,
            final(meta).spec_should_draw() == old(meta).spec_should_draw(),
            final(meta).spec_active() == old(meta).spec_active(),
            final(meta).spec_draw_counter() == old(meta).spec_draw_counter(),
            forall|t: UiTag| final(meta).spec_tag(t) == old(meta).spec_tag(t),
            r.tag == self.tag,
            r.last_draw_counter == self.last_draw_counter,
    {
        let mut ret = self;
        ret.id = meta.next_id();
        ret
    }

    /// Register this widget's id under `tag`.
    pub fn with_tag(self, tag: UiTag, meta: &mut UiMetaData) -> (r: FpsHint)
        ensures
            r.tag == Some(tag),
            final(meta).spec_tag(tag) == Some(self.id),
            forall|t: UiTag| t != tag ==> final(meta).spec_tag(t) == old(meta).spec_tag(t),
            final(meta).spec_should_draw() == old(meta).spec_should_draw(),
            final(meta).spec_active() == old(meta).spec_active(),
            final(meta).spec_id_counter() == old(meta).spec_id_counter(),
            final(meta).spec_draw_counter() == old(meta).spec_draw_counter(),
            r.id == self.id,
            r.last_draw_counter == self.last_draw_counter,
    {
        let mut ret = self;
        ret.tag = Some(tag);
        meta.set_tag(tag, ret.id);
        ret
    }

    /// Take one sample of the draw counter: the result is the number of
    /// draws since the previous sample, wraparound-corrected, and the
    /// sample point advances to the current reading.
    pub fn sample_draw_delta(&mut self, current_draw_counter: u64) -> (delta: u64)
        ensures
            delta == spec_draw_delta(old(self).last_draw_counter, current_draw_counter),
            final(self).last_draw_counter == current_draw_counter,
            final(self).id == old(self).id,
            final(self).tag == old(self).tag,
    {
        let delta = if current_draw_counter < self.last_draw_counter {
            (u64::MAX - self.last_draw_counter) + current_draw_counter
        } else {
            current_draw_counter - self.last_draw_counter
        };
        self.last_draw_counter = current_draw_counter;
        delta
    }

    /// The fps hint binds no keys: every event is handed back unhandled.
    pub fn handle_terminal_event(&mut self, event: TerminalEvent) -> (r: TerminalEventResult)
        ensures
            r == TerminalEventResult::NotHandled(event),
            *final(self) == *old(self),
    {
        TerminalEventResult::NotHandled(event)
    }
}

impl Default for FpsHint {
    fn default() -> (r: FpsHint)
        ensures
            r.id == 0u16,
            r.tag is None,
            r.last_draw_counter == 0,
    {
        FpsHint::new()
    }
}

} // verus!
