//! The intensity-to-frequency mapping and the tone task's per-iteration
//! decision.
//!
//! An intensity at or below the lower bound is silent.  Above it, the
//! intensity is clamped to the configured bounds and mapped linearly onto
//! the audible band from 100 Hz to 2000 Hz, rounding to the nearest
//! integer frequency.  Equal bounds degenerate to the bottom of the band
//! instead of dividing by zero.

use vstd::arithmetic::div_mod::lemma_fundamental_div_mod_converse_div;
use vstd::prelude::*;

verus! {

/// Bottom of the audible band commanded to the tone peripheral.
pub const MIN_FREQUENCY_HZ: u32 = 100;

/// Top of the audible band commanded to the tone peripheral.
pub const MAX_FREQUENCY_HZ: u32 = 2000;

/// Lower intensity bound assumed before any client configuration.
pub const DEFAULT_MIN_BUZZ_VALUE: u32 = 300;

/// Upper intensity bound assumed before any client configuration.
pub const DEFAULT_MAX_BUZZ_VALUE: u32 = 10000;

/// Linear map of a clamped intensity onto the audible band, rounded to
/// the nearest integer frequency.
pub open spec fn spec_map_to_frequency(value: u32, min_value: u32, max_value: u32) -> int
    recommends
        min_value <= max_value,
{
    let range = if max_value > min_value {
        max_value - min_value
    } else {
        1
    };
    let clamped = if value < min_value {
        min_value
    } else if value > max_value {
        max_value
    } else {
        value
    };
    ((clamped - min_value) * 1900 + range / 2) / range + 100
}

/// The frequency the tone task commands for one intensity value: silent
/// at or below the lower bound, otherwise the linear map.
pub open spec fn spec_buzz_frequency_for(value: u32, min_value: u32, max_value: u32) -> int
    recommends
        min_value <= max_value,
{
    if value > min_value {
        spec_map_to_frequency(value, min_value, max_value)
    } else {
        0
    }
}

/// Maps an intensity onto the audible band.
///
/// The bounds must be ordered: inverted bounds would break the clamp,
/// so such inputs are excluded here.
pub fn map_to_frequency(value: u32, min_value: u32, max_value: u32) -> (r: u32)
    requires
        min_value <= max_value,
    ensures
        r == spec_map_to_frequency(value, min_value, max_value),
        MIN_FREQUENCY_HZ <= r <= MAX_FREQUENCY_HZ,
{
    let range: u64 = if max_value > min_value {
        (max_value - min_value) as u64
    } else {
        1
    };
    let clamped: u64 = if value < min_value {
        min_value as u64
    } else if value > max_value {
        max_value as u64
    } else {
        value as u64
    };
    let offset: u64 = clamped - min_value as u64;
    let scaled: u64 = offset * 1900 + range / 2;
    let quotient: u64 = scaled / range;
    proof {
        assert(offset <= range);
        assert(scaled <= range * 1900 + range / 2 && quotient <= 1900) by (nonlinear_arith)
            requires
                range >= 1,
                offset <= range,
                scaled == offset * 1900 + range / 2,
                quotient == scaled / range,
        ;
    }
    (quotient as u32) + 100
}

/// A silent command for an intensity at or below the lower bound, the
/// linear map above it.
pub fn buzz_frequency_for(value: u32, min_value: u32, max_value: u32) -> (r: u32)
    requires
        min_value <= max_value,
    ensures
        r == spec_buzz_frequency_for(value, min_value, max_value),
{
    if value > min_value {
        map_to_frequency(value, min_value, max_value)
    } else {
        0
    }
}

/// The stated behaviour of the frequency mapping at its anchor points:
/// silence at or below the lower bound; the top of the band at the upper
/// bound; the middle of the band at the exact midpoint of an even-width
/// range; and a well-defined bottom-of-band value when the bounds
/// coincide.
pub proof fn lemma_frequency_mapping(value: u32, min_value: u32, max_value: u32)
    requires
        min_value <= max_value,
    ensures
        value <= min_value ==> spec_buzz_frequency_for(value, min_value, max_value) == 0,
        min_value < max_value && value == max_value
            ==> spec_buzz_frequency_for(value, min_value, max_value) == 2000,
        min_value < max_value && (max_value - min_value) % 2 == 0 && value == min_value + (
        max_value - min_value) / 2 && value > min_value
            ==> spec_buzz_frequency_for(value, min_value, max_value) == 1050,
        min_value == max_value && value > min_value
            ==> spec_buzz_frequency_for(value, min_value, max_value) == 100,
{
    if min_value < max_value && value == max_value {
        let range = max_value - min_value;
        assert(range * 1900 + range / 2 == 1900 * (range as int) + range / 2);
        lemma_fundamental_div_mod_converse_div(
            range * 1900 + range / 2,
            range as int,
            1900,
            range as int / 2,
        );
    }
    if min_value < max_value && (max_value - min_value) % 2 == 0 && value == min_value + (
    max_value - min_value) / 2 && value > min_value {
        let range = (max_value - min_value) as int;
        let half = range / 2;
        assert(range == 2 * half);
        assert(half * 1900 + half == 950 * (2 * half) + half) by (nonlinear_arith);
        lemma_fundamental_div_mod_converse_div(half * 1900 + half, range, 950, half);
        assert(spec_map_to_frequency(value, min_value, max_value) == 950 + 100);
    }
}

/// The tone task's live bounds and enable flag, between iterations.
#[derive(Clone, Copy, Debug, PartialEq, Eq, Structural)]
pub struct ToneState {
    pub min_value: u32,
    pub max_value: u32,
    pub play_sound: bool,
}

impl ToneState {
    /// The state assumed before any client configuration: default bounds,
    /// playback disabled.
    pub fn initial() -> (r: ToneState)
        ensures
            r == (ToneState {
                min_value: DEFAULT_MIN_BUZZ_VALUE,
                max_value: DEFAULT_MAX_BUZZ_VALUE,
                play_sound: false,
            }),
    {
        ToneState {
            min_value: DEFAULT_MIN_BUZZ_VALUE,
            max_value: DEFAULT_MAX_BUZZ_VALUE,
            play_sound: false,
        }
    }
}

/// One iteration of the tone task: adopt any pending bound intents, then
/// command a frequency for the new intensity while playback is enabled,
/// and finally adopt a pending playback intent.
///
/// The adopted bounds must stay ordered: inverted bounds would break
/// the clamp, so such updates are excluded here.
pub fn tone_step(
    state: &mut ToneState,
    intensity: u32,
    min_update: Option<u32>,
    max_update: Option<u32>,
    play_update: Option<bool>,
) -> (cmd: Option<u32>)
    requires
        (match min_update {
            Some(v) => v,
            None => old(state).min_value,
        }) <= (match max_update {
            Some(v) => v,
            None => old(state).max_value,
        }),
    ensures
        final(state).min_value == match min_update {
            Some(v) => v,
            None => old(state).min_value,
        },
        final(state).max_value == match max_update {
            Some(v) => v,
            None => old(state).max_value,
        },
        final(state).play_sound == match play_update {
            Some(v) => v,
            None => old(state).play_sound,
        },
        cmd == if old(state).play_sound {
            Some(
                spec_buzz_frequency_for(
                    intensity,
                    final(state).min_value,
                    final(state).max_value,
                ) as u32,
            )
        } else {
            None::<u32>
        },
{
    if let Some(v) = min_update {
        state.min_value = v;
    }
    if let Some(v) = max_update {
        state.max_value = v;
    }
    let cmd = if state.play_sound {
        Some(buzz_frequency_for(intensity, state.min_value, state.max_value))
    } else {
        None
    };
    if let Some(v) = play_update {
        state.play_sound = v;
    }
    cmd
}

} // verus!
