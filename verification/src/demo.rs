//! State of the state-sync demonstration windows (debug builds only).
use vstd::prelude::*;

use crate::text::u64_to_string;

verus! {

/// The shared state that the demonstration windows edit.
#[derive(Debug, Clone)]
pub struct DemoState {
    pub counter: i64,
    pub color: String,
    pub slider_value: u32,
    pub text: String,
}

impl Default for DemoState {
    fn default() -> (s: Self)
        ensures
            s.counter == 0,
            s.color@ == "#3b82f6"@,
            s.slider_value == 50,
            s.text@ == Seq::<char>::empty(),
    {
        DemoState { counter: 0, color: "#3b82f6".to_owned(), slider_value: 50, text: String::new() }
    }
}

/// Highest value of the slider.
pub const MAX_SLIDER_VALUE: u32 = 100;

/// Applies an edit from one window: each given field is taken (the slider
/// clamped to 0-100), the others stay; the revision grows (saturating) and
/// its text is returned for the invalidation event.
pub fn update_demo_state(
    state: &mut DemoState,
    revision: &mut u64,
    counter: Option<i64>,
    color: Option<String>,
    slider_value: Option<u32>,
    text: Option<String>,
) -> (rev: String)
    ensures
        final(state).counter == match counter {
            Some(v) => v,
            None => old(state).counter,
        },
        final(state).color == match color {
            Some(v) => v,
            None => old(state).color,
        },
        final(state).slider_value == match slider_value {
            Some(v) => if v < 100 { v } else { 100u32 },
            None => old(state).slider_value,
        },
        final(state).text == match text {
            Some(v) => v,
            None => old(state).text,
        },
        *final(revision) == (if *old(revision) < u64::MAX {
            (*old(revision) + 1) as u64
        } else {
            *old(revision)
        }),
        rev@ == crate::text::decimal(*final(revision) as nat),
{
    if let Some(v) = counter {
        state.counter = v;
    }
    if let Some(v) = color {
        state.color = v;
    }
    if let Some(v) = slider_value {
        state.slider_value = if v < MAX_SLIDER_VALUE {
            v
        } else {
            MAX_SLIDER_VALUE
        };
    }
    if let Some(v) = text {
        state.text = v;
    }
    *revision = revision.saturating_add(1);
    u64_to_string(*revision)
}

} // verus!
