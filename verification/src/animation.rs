//! Scheduling and glyph choice of the shell's ambient animation; every frame is a
//! pure function of a monotonically increasing tick.

use vstd::prelude::*;
use std::time::Duration;
use crate::text::{ascii_lower_char, spec_ascii_lower_char};

verus! {

pub const TICK_INTERVAL_MS: u64 = 80;
pub const REDUCED_TICK_INTERVAL_MS: u64 = 240;

#[derive(Debug, Clone, Copy, PartialEq, Eq, Structural)]
pub enum MotionMode {
    Full,
    Reduced,
    Off,
}

/// `a` equals `b` ignoring ASCII case.
pub open spec fn spec_eq_ignore_ascii_case(a: Seq<char>, b: Seq<char>) -> bool {
    a.len() == b.len() && forall|i: int| 0 <= i < a.len() ==> spec_ascii_lower_char(#[trigger] a[i]) == spec_ascii_lower_char(b[i])
}

fn eq_ignore_ascii_case(a: &str, b: &str) -> (r: bool)
    ensures
        r == spec_eq_ignore_ascii_case(a@, b@),
{
    let va = crate::text::chars_of(a);
    let vb = crate::text::chars_of(b);
    if va.len() != vb.len() {
        return false;
    }
    let mut i: usize = 0;
    while i < va.len()
        invariant
            i <= va@.len(),
            va@ == a@,
            vb@ == b@,
            va@.len() == vb@.len(),
            forall|j: int| 0 <= j < i ==> spec_ascii_lower_char(#[trigger] va@[j]) == spec_ascii_lower_char(vb@[j]),
        decreases va@.len() - i,
    {
        if ascii_lower_char(va[i]) != ascii_lower_char(vb[i]) {
            return false;
        }
        i = i + 1;
    }
    true
}

/// The motion setting named by the animation variable: `off` or `reduced` in any
/// ASCII case; anything else, or no value, means full motion.
pub open spec fn spec_motion_from(value: Option<Seq<char>>) -> MotionMode {
    match value {
        Some(v) => if spec_eq_ignore_ascii_case(v, "off"@) {
            MotionMode::Off
        } else if spec_eq_ignore_ascii_case(v, "reduced"@) {
            MotionMode::Reduced
        } else {
            MotionMode::Full
        },
        None => MotionMode::Full,
    }
}

/// The `Duration` that `Duration::from_millis` makes of `ms` milliseconds.
pub uninterp spec fn spec_duration_from_millis(ms: u64) -> Duration;

/// `Duration::from_millis`: the duration of `ms` milliseconds, a function of `ms`
/// alone; it cannot panic.
#[verifier::external_body]
fn duration_from_millis(ms: u64) -> (r: Duration)
    ensures
        r == spec_duration_from_millis(ms),
{
    Duration::from_millis(ms)
}

impl MotionMode {
    /// The motion mode for the value of the animation setting, if it is set.
    pub fn from_setting(value: Option<&str>) -> (r: Self)
        ensures
            r == spec_motion_from(
                match value {
                    Some(v) => Some(v@),
                    None => None,
                },
            ),
    {
        match value {
            Some(v) => if eq_ignore_ascii_case(v, "off") {
                MotionMode::Off
            } else if eq_ignore_ascii_case(v, "reduced") {
                MotionMode::Reduced
            } else {
                MotionMode::Full
            },
            None => MotionMode::Full,
        }
    }

    /// Milliseconds between animation frames; no frames at all when motion is off.
    pub fn tick_interval_ms(self) -> (r: Option<u64>)
        ensures
            r == match self {
                MotionMode::Full => Some(TICK_INTERVAL_MS),
                MotionMode::Reduced => Some(REDUCED_TICK_INTERVAL_MS),
                MotionMode::Off => None::<u64>,
            },
    {
        match self {
            MotionMode::Full => Some(TICK_INTERVAL_MS),
            MotionMode::Reduced => Some(REDUCED_TICK_INTERVAL_MS),
            MotionMode::Off => None,
        }
    }

    /// The interval between frames as a `Duration` of `tick_interval_ms` milliseconds.
    pub fn tick_interval(self) -> (r: Option<Duration>)
        ensures
            r == match self {
                MotionMode::Full => Some(spec_duration_from_millis(TICK_INTERVAL_MS)),
                MotionMode::Reduced => Some(spec_duration_from_millis(REDUCED_TICK_INTERVAL_MS)),
                MotionMode::Off => None::<Duration>,
            },
    {
        match self.tick_interval_ms() {
            Some(ms) => Some(duration_from_millis(ms)),
            None => None,
        }
    }
}

#[derive(Debug, Clone, Copy, PartialEq, Eq, Structural)]
pub enum CoreMode {
    Stable,
    Busy,
    Guard,
}

pub open spec fn spec_core_label(m: CoreMode) -> Seq<char> {
    match m {
        CoreMode::Stable => "STABLE"@,
        CoreMode::Busy => "ACTIVE"@,
        CoreMode::Guard => "GUARDED"@,
    }
}

impl CoreMode {
    pub fn label(self) -> (r: &'static str)
        ensures
            r@ == spec_core_label(self),
    {
        match self {
            CoreMode::Stable => "STABLE",
            CoreMode::Busy => "ACTIVE",
            CoreMode::Guard => "GUARDED",
        }
    }
}

/// The intensity of one cell of the animation grid, weakest first.
#[derive(Debug, Clone, Copy, PartialEq, Eq, Structural, PartialOrd, Ord)]
pub enum Dot {
    Empty,
    Dim,
    Accent,
    Hot,
    Core,
}

pub open spec fn spec_dot_glyph(d: Dot, tick: u64, x: usize, y: usize) -> Seq<char> {
    match d {
        Dot::Empty => " "@,
        Dot::Dim => if ((tick as usize) + x + y) % 4 == 0 {
            "⠂"@
        } else {
            "·"@
        },
        Dot::Accent => if ((tick as usize) / 2 + x * 3 + y) % 7 == 0 {
            "○"@
        } else {
            "∙"@
        },
        Dot::Hot => "◆"@,
        Dot::Core => if (tick / 3 + (x + y)) % 2 == 0 {
            "▓"@
        } else {
            "▒"@
        },
    }
}

impl Dot {
    /// The glyph of a cell at (`x`, `y`) on frame `tick`; dim, accent and core
    /// cells shimmer as the tick advances.
    pub fn glyph(self, tick: u64, x: usize, y: usize) -> (r: &'static str)
        requires
            (tick as usize) + x + y <= usize::MAX,
            (tick as usize) / 2 + x * 3 + y <= usize::MAX,
            tick / 3 + x + y <= u64::MAX,
        ensures
            r@ == spec_dot_glyph(self, tick, x, y),
    {
        match self {
            Dot::Empty => " ",
            Dot::Dim => if ((tick as usize) + x + y) % 4 == 0 {
                "⠂"
            } else {
                "·"
            },
            Dot::Accent => if ((tick as usize) / 2 + x * 3 + y) % 7 == 0 {
                "○"
            } else {
                "∙"
            },
            Dot::Hot => "◆",
            Dot::Core => if (tick / 3 + (x + y) as u64) % 2 == 0 {
                "▓"
            } else {
                "▒"
            },
        }
    }
}

pub open spec fn spec_indicator_frame(i: nat) -> Seq<char> {
    if i == 0 || i == 4 {
        "◇"@
    } else if i == 1 || i == 3 {
        "◈"@
    } else if i == 2 {
        "◆"@
    } else if i == 5 || i == 7 {
        "◌"@
    } else {
        "○"@
    }
}

/// `  CORE <glyph> <MODE>`: the glyph cycles through eight frames as the tick advances.
pub open spec fn spec_compact_indicator(tick: u64, mode: CoreMode) -> Seq<char> {
    "  CORE "@ + spec_indicator_frame(((tick as usize) % 8) as nat) + " "@ + spec_core_label(mode)
}

pub fn compact_indicator_text(tick: u64, mode: CoreMode) -> (r: String)
    ensures
        r@ == spec_compact_indicator(tick, mode),
{
    let i = (tick as usize) % 8;
    let glyph = if i == 0 || i == 4 {
        "◇"
    } else if i == 1 || i == 3 {
        "◈"
    } else if i == 2 {
        "◆"
    } else if i == 5 || i == 7 {
        "◌"
    } else {
        "○"
    };
    let a = crate::text::concat("  CORE ", glyph);
    let b = crate::text::concat(a.as_str(), " ");
    crate::text::concat(b.as_str(), mode.label())
}

/// The indicator repeats every eight ticks.
pub proof fn lemma_indicator_period(tick: u64, mode: CoreMode)
    requires
        tick + 8 <= u64::MAX,
        (tick + 8) as usize == (tick as usize) + 8,
    ensures
        spec_compact_indicator(tick, mode) == spec_compact_indicator((tick + 8) as u64, mode),
{
}

} // verus!
