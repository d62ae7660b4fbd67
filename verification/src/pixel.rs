//! Physical pixel states and the per-sweep animation math.
//!
//! Brightness is an integer count of microseconds of "on" time inside the
//! fixed 1000 us row slot, so the duty fraction is `brightness / 1000`.
//! Each animated pixel advances by one fixed step per full matrix sweep:
//! `Blinking` runs a cyclic triangle wave, `Fading` decays once to zero and
//! holds, `FlareUp` rises once to the maximum and holds.

use vstd::prelude::*;

verus! {

/// Length of one row slot in microseconds, and the largest brightness.
pub const BRIGHTNESS_MAX: u16 = 1000;

/// Lower bound of the blinking triangle wave.
pub const BLINK_MIN: u16 = 0;

/// Brightness change of a blinking pixel per sweep.
pub const BLINK_STEP: u16 = 100;

/// Brightness change of a fading pixel per sweep.
pub const FADE_STEP: u16 = 50;

/// Brightness change of a flaring pixel per sweep.
pub const FLARE_STEP: u16 = 50;

/// Sweeps in one full blink cycle: down from the maximum to the minimum and
/// back up.
pub const BLINK_CYCLE: u16 = 20;

/// A pixel oscillating between `BLINK_MIN` and `BRIGHTNESS_MAX`: while
/// `fading` it steps down, at the bottom it turns around, and so on forever.
#[derive(Clone, Copy, Debug, PartialEq, Eq, Structural)]
pub struct BlinkingPixel {
    /// Direction of travel: `true` while the brightness is falling.
    pub fading: bool,
    /// Current duty-cycle level.
    pub brightness: u16,
}

/// A pixel decaying monotonically to zero, where it stays.
#[derive(Clone, Copy, Debug, PartialEq, Eq, Structural)]
pub struct FadingPixel {
    /// Current duty-cycle level.
    pub brightness: u16,
}

/// A pixel rising monotonically to the maximum, where it stays.
#[derive(Clone, Copy, Debug, PartialEq, Eq, Structural)]
pub struct FlareUpPixel {
    /// Current duty-cycle level.
    pub brightness: u16,
}

/// One step of the blinking triangle wave: step down while falling, clamp
/// and turn at the bottom; step up while rising, clamp and turn at the top.
pub open spec fn blink_step_spec(p: BlinkingPixel) -> BlinkingPixel {
    if p.fading {
        if p.brightness > BLINK_MIN + BLINK_STEP {
            BlinkingPixel { fading: true, brightness: (p.brightness - BLINK_STEP) as u16 }
        } else {
            BlinkingPixel { fading: false, brightness: BLINK_MIN }
        }
    } else {
        if p.brightness + BLINK_STEP < BRIGHTNESS_MAX {
            BlinkingPixel { fading: false, brightness: (p.brightness + BLINK_STEP) as u16 }
        } else {
            BlinkingPixel { fading: true, brightness: BRIGHTNESS_MAX }
        }
    }
}

/// One step of the one-shot decay: down by `FADE_STEP`, clamped at zero.
pub open spec fn fade_step_spec(p: FadingPixel) -> FadingPixel {
    if p.brightness > FADE_STEP {
        FadingPixel { brightness: (p.brightness - FADE_STEP) as u16 }
    } else {
        FadingPixel { brightness: 0 }
    }
}

/// One step of the one-shot rise: up by `FLARE_STEP`, clamped at the maximum.
pub open spec fn flare_step_spec(p: FlareUpPixel) -> FlareUpPixel {
    if p.brightness + FLARE_STEP < BRIGHTNESS_MAX {
        FlareUpPixel { brightness: (p.brightness + FLARE_STEP) as u16 }
    } else {
        FlareUpPixel { brightness: BRIGHTNESS_MAX }
    }
}

impl BlinkingPixel {
    /// The canonical start of a blink: full brightness, falling phase.
    pub fn new() -> (r: Self)
        ensures
            r == (BlinkingPixel { fading: true, brightness: BRIGHTNESS_MAX }),
    {
        BlinkingPixel { fading: true, brightness: BRIGHTNESS_MAX }
    }

    /// Advance the triangle wave by one sweep.
    pub fn process(&mut self)
        ensures
            *final(self) == blink_step_spec(*old(self)),
    {
        if self.fading {
            if self.brightness > BLINK_MIN + BLINK_STEP {
                self.brightness = self.brightness - BLINK_STEP;
            } else {
                self.brightness = BLINK_MIN;
                self.fading = false;
            }
        } else {
            if self.brightness < BRIGHTNESS_MAX - BLINK_STEP {
                self.brightness = self.brightness + BLINK_STEP;
            } else {
                self.brightness = BRIGHTNESS_MAX;
                self.fading = true;
            }
        }
    }
}

impl FadingPixel {
    /// The canonical start of a fade: full brightness.
    pub fn new() -> (r: Self)
        ensures
            r == (FadingPixel { brightness: BRIGHTNESS_MAX }),
    {
        FadingPixel { brightness: BRIGHTNESS_MAX }
    }

    /// Advance the decay by one sweep.
    pub fn process(&mut self)
        ensures
            *final(self) == fade_step_spec(*old(self)),
    {
        if self.brightness > FADE_STEP {
            self.brightness = self.brightness - FADE_STEP;
        } else {
            self.brightness = 0;
        }
    }
}

impl FlareUpPixel {
    /// The canonical start of a flare: dark.
    pub fn new() -> (r: Self)
        ensures
            r == (FlareUpPixel { brightness: 0 }),
    {
        FlareUpPixel { brightness: 0 }
    }

    /// Advance the rise by one sweep.
    pub fn process(&mut self)
        ensures
            *final(self) == flare_step_spec(*old(self)),
    {
        if self.brightness < BRIGHTNESS_MAX - FLARE_STEP {
            self.brightness = self.brightness + FLARE_STEP;
        } else {
            self.brightness = BRIGHTNESS_MAX;
        }
    }
}

/// What the driver holds per LED: dark, a constant duty level, or one of the
/// three animations with its evolving progress.
#[derive(Clone, Copy, Debug, PartialEq, Eq, Structural)]
pub enum PixelState {
    /// The LED stays dark for the whole slot.
    Off,
    /// A constant duty-cycle level.
    Solid(u16),
    /// The cyclic triangle wave.
    Blinking(BlinkingPixel),
    /// The one-shot decay.
    Fading(FadingPixel),
    /// The one-shot rise.
    FlareUp(FlareUpPixel),
}

/// A pixel is well formed when its level fits in the 1000 us slot.
pub open spec fn pixel_wf(p: PixelState) -> bool {
    match p {
        PixelState::Off => true,
        PixelState::Solid(b) => b <= BRIGHTNESS_MAX,
        PixelState::Blinking(s) => s.brightness <= BRIGHTNESS_MAX,
        PixelState::Fading(s) => s.brightness <= BRIGHTNESS_MAX,
        PixelState::FlareUp(s) => s.brightness <= BRIGHTNESS_MAX,
    }
}

/// The duty-cycle level a pixel asks for in the coming slot.
pub open spec fn pixel_level(p: PixelState) -> u16 {
    match p {
        PixelState::Off => 0,
        PixelState::Solid(b) => b,
        PixelState::Blinking(s) => s.brightness,
        PixelState::Fading(s) => s.brightness,
        PixelState::FlareUp(s) => s.brightness,
    }
}

/// One sweep's worth of progress: animations advance one step, `Off` and
/// `Solid` stay as they are.
pub open spec fn evolve_spec(p: PixelState) -> PixelState {
    match p {
        PixelState::Off => PixelState::Off,
        PixelState::Solid(b) => PixelState::Solid(b),
        PixelState::Blinking(s) => PixelState::Blinking(blink_step_spec(s)),
        PixelState::Fading(s) => PixelState::Fading(fade_step_spec(s)),
        PixelState::FlareUp(s) => PixelState::FlareUp(flare_step_spec(s)),
    }
}

/// Evolution keeps a pixel well formed.
pub proof fn lemma_evolve_wf(p: PixelState)
    ensures
        pixel_wf(p) ==> pixel_wf(evolve_spec(p)),
{
}

/// Exec counterpart of `evolve_spec`.
pub fn evolve_pixel(p: PixelState) -> (r: PixelState)
    ensures
        r == evolve_spec(p),
{
    match p {
        PixelState::Off => PixelState::Off,
        PixelState::Solid(b) => PixelState::Solid(b),
        PixelState::Blinking(s) => {
            let mut s = s;
            s.process();
            PixelState::Blinking(s)
        },
        PixelState::Fading(s) => {
            let mut s = s;
            s.process();
            PixelState::Fading(s)
        },
        PixelState::FlareUp(s) => {
            let mut s = s;
            s.process();
            PixelState::FlareUp(s)
        },
    }
}

/// The triangle wave after `k` sweeps.
pub open spec fn blink_iter(p: BlinkingPixel, k: nat) -> BlinkingPixel
    decreases k,
{
    if k == 0 {
        p
    } else {
        blink_step_spec(blink_iter(p, (k - 1) as nat))
    }
}

/// The decay after `k` sweeps.
pub open spec fn fade_iter(p: FadingPixel, k: nat) -> FadingPixel
    decreases k,
{
    if k == 0 {
        p
    } else {
        fade_step_spec(fade_iter(p, (k - 1) as nat))
    }
}

/// The rise after `k` sweeps.
pub open spec fn flare_iter(p: FlareUpPixel, k: nat) -> FlareUpPixel
    decreases k,
{
    if k == 0 {
        p
    } else {
        flare_step_spec(flare_iter(p, (k - 1) as nat))
    }
}

/// The states the triangle wave actually cycles through: levels aligned to
/// the step, away from the bottom while falling and away from the top while
/// rising. The canonical start (full brightness, falling) is one of them.
pub open spec fn blink_in_cycle(p: BlinkingPixel) -> bool {
    &&& p.brightness <= BRIGHTNESS_MAX
    &&& p.brightness % BLINK_STEP == 0
    &&& (p.fading ==> p.brightness >= BLINK_MIN + BLINK_STEP)
    &&& (!p.fading ==> p.brightness + BLINK_STEP <= BRIGHTNESS_MAX)
}

/// Where in the cycle a state stands: 0 at the falling top, counting up to
/// `BLINK_CYCLE - 1` just below the rising top.
pub open spec fn blink_pos(p: BlinkingPixel) -> int {
    if p.fading {
        (BRIGHTNESS_MAX - p.brightness) / (BLINK_STEP as int)
    } else {
        (BRIGHTNESS_MAX - BLINK_MIN) / (BLINK_STEP as int) + (p.brightness - BLINK_MIN) / (
        BLINK_STEP as int)
    }
}

proof fn lemma_blink_pos_bounds(p: BlinkingPixel)
    requires
        blink_in_cycle(p),
    ensures
        0 <= blink_pos(p) < BLINK_CYCLE,
{
}

proof fn lemma_blink_pos_inj(a: BlinkingPixel, b: BlinkingPixel)
    requires
        blink_in_cycle(a),
        blink_in_cycle(b),
        blink_pos(a) == blink_pos(b),
    ensures
        a == b,
{
    assert(a.brightness == BLINK_STEP * ((a.brightness as int) / (BLINK_STEP as int)));
    assert(b.brightness == BLINK_STEP * ((b.brightness as int) / (BLINK_STEP as int)));
}

proof fn lemma_blink_step_in_cycle(p: BlinkingPixel)
    requires
        blink_in_cycle(p),
    ensures
        blink_in_cycle(blink_step_spec(p)),
        blink_pos(blink_step_spec(p)) == (blink_pos(p) + 1) % (BLINK_CYCLE as int),
{
    assert(p.brightness == BLINK_STEP * ((p.brightness as int) / (BLINK_STEP as int)));
}

proof fn lemma_blink_iter_pos(p: BlinkingPixel, k: nat)
    requires
        blink_in_cycle(p),
    ensures
        blink_in_cycle(blink_iter(p, k)),
        blink_pos(blink_iter(p, k)) == (blink_pos(p) + k) % (BLINK_CYCLE as int),
    decreases k,
{
    lemma_blink_pos_bounds(p);
    if k == 0 {
    } else {
        let prev = blink_iter(p, (k - 1) as nat);
        lemma_blink_iter_pos(p, (k - 1) as nat);
        lemma_blink_step_in_cycle(prev);
        vstd::arithmetic::div_mod::lemma_add_mod_noop(
            blink_pos(p) + (k - 1),
            1,
            BLINK_CYCLE as int,
        );
    }
}

/// Triangle-wave round trip: from any state of the cycle, one full cycle of
/// sweeps returns the exact `(brightness, fading)` pair it started from.
pub proof fn lemma_blink_round_trip(p: BlinkingPixel)
    requires
        blink_in_cycle(p),
    ensures
        blink_iter(p, BLINK_CYCLE as nat) == p,
{
    lemma_blink_iter_pos(p, BLINK_CYCLE as nat);
    lemma_blink_pos_bounds(p);
    vstd::arithmetic::div_mod::lemma_add_mod_noop(blink_pos(p), BLINK_CYCLE as int, BLINK_CYCLE as int);
    vstd::arithmetic::div_mod::lemma_small_mod(blink_pos(p) as nat, BLINK_CYCLE as nat);
    lemma_blink_pos_inj(blink_iter(p, BLINK_CYCLE as nat), p);
}

/// The decay in closed form: down by one step per sweep until it reaches
/// zero, zero from then on.
pub proof fn lemma_fade_exact(p: FadingPixel, k: nat)
    ensures
        fade_iter(p, k).brightness == if p.brightness > k * FADE_STEP {
            p.brightness - k * FADE_STEP
        } else {
            0
        },
    decreases k,
{
    if k > 0 {
        lemma_fade_exact(p, (k - 1) as nat);
    }
}

/// Fading brightness never increases from one sweep to the next.
pub proof fn lemma_fade_monotonic(p: FadingPixel, k: nat)
    ensures
        fade_iter(p, k + 1).brightness <= fade_iter(p, k).brightness,
{
    lemma_fade_exact(p, k);
    lemma_fade_exact(p, k + 1);
}

/// Fading halts at zero: once enough sweeps have passed, the level is zero
/// and stays there.
pub proof fn lemma_fade_terminal(p: FadingPixel, k: nat)
    requires
        k * FADE_STEP >= p.brightness,
    ensures
        fade_iter(p, k).brightness == 0,
{
    lemma_fade_exact(p, k);
}

/// The rise in closed form: up by one step per sweep until it reaches the
/// maximum, the maximum from then on.
pub proof fn lemma_flare_exact(p: FlareUpPixel, k: nat)
    requires
        p.brightness <= BRIGHTNESS_MAX,
    ensures
        flare_iter(p, k).brightness == if p.brightness + k * FLARE_STEP < BRIGHTNESS_MAX {
            p.brightness + k * FLARE_STEP
        } else {
            BRIGHTNESS_MAX as int
        },
    decreases k,
{
    if k > 0 {
        lemma_flare_exact(p, (k - 1) as nat);
    }
}

/// FlareUp brightness never decreases from one sweep to the next.
pub proof fn lemma_flare_monotonic(p: FlareUpPixel, k: nat)
    requires
        p.brightness <= BRIGHTNESS_MAX,
    ensures
        flare_iter(p, k + 1).brightness >= flare_iter(p, k).brightness,
{
    lemma_flare_exact(p, k);
    lemma_flare_exact(p, k + 1);
}

/// FlareUp halts at the maximum: once enough sweeps have passed, the level
/// is the maximum and stays there.
pub proof fn lemma_flare_terminal(p: FlareUpPixel, k: nat)
    requires
        p.brightness <= BRIGHTNESS_MAX,
        p.brightness + k * FLARE_STEP >= BRIGHTNESS_MAX,
    ensures
        flare_iter(p, k).brightness == BRIGHTNESS_MAX,
{
    lemma_flare_exact(p, k);
}

} // verus!
