use vstd::prelude::*;

verus! {

/// The led strip. Its methods decide what the strip shows; the caller drives the
/// hardware and the clock.
pub struct LightControl;

/// How long one step of the light may stay on.
#[derive(Debug, Clone, Copy, PartialEq, Eq)]
pub enum LimitMinutes {
    Five,
    Fifteen,
}

impl LimitMinutes {
    /// The length of the limit in minutes.
    pub open spec fn spec_minutes(self) -> nat {
        match self {
            LimitMinutes::Five => 5,
            LimitMinutes::Fifteen => 15,
        }
    }

    /// The length of the limit in seconds.
    pub open spec fn spec_seconds(self) -> nat {
        self.spec_minutes() * 60
    }

    /// The text that displays the limit: its number of minutes in decimal.
    pub open spec fn spec_text(self) -> Seq<char> {
        match self {
            LimitMinutes::Five => seq!['5'],
            LimitMinutes::Fifteen => seq!['1', '5'],
        }
    }

    /// The length of the limit in seconds.
    pub fn seconds(&self) -> (res: u64)
        ensures
            res == self.spec_seconds(),
    {
        match self {
            LimitMinutes::Five => 60 * 5,
            LimitMinutes::Fifteen => 60 * 15,
        }
    }

    /// The limit as displayed: "5" or "15".
    pub fn to_text(&self) -> (res: String)
        ensures
            res@ == self.spec_text(),
    {
        match self {
            LimitMinutes::Five => {
                proof {
                    reveal_strlit("5");
                }
                String::from_str("5")
            },
            LimitMinutes::Fifteen => {
                proof {
                    reveal_strlit("15");
                }
                String::from_str("15")
            },
        }
    }
}

/// What the `turn_on` loop does on one tick.
#[derive(Debug, Clone, Copy, PartialEq, Eq)]
pub enum TurnOnStep {
    /// The light status is off: the loop ends.
    Finished,
    /// The light stays on; wait for the next tick.
    KeepOn,
    /// The light has been on longer than its limit: set the light status off.
    SwitchOff,
}

/// What the alarm illumination does on one tick.
#[derive(Debug, Clone, Copy, PartialEq, Eq)]
pub enum IlluminateStep {
    /// The light status was turned off elsewhere: the sequence ends and the
    /// light-off message is sent.
    Stopped,
    /// The current step has not run its limit yet.
    Hold,
    /// The current step ran its limit: restart the timer and show the brightness,
    /// in tenths of full brightness.
    Brighten { brightness_tenths: u64 },
    /// The last step ran its limit: show the brightness, set the light status off
    /// and clear the strip.
    Finish { brightness_tenths: u64 },
}

/// The progress of the alarm illumination: the step reached, and the brightness,
/// in tenths of full brightness, that the strip shows.
#[derive(Debug)]
pub struct Illumination {
    step: u64,
    brightness: u64,
}

/// The abstract state of an [`Illumination`].
pub struct IlluminationView {
    pub step: nat,
    pub brightness: nat,
}

/// Number of five-minute steps before the last, fifteen-minute, step.
pub const SHORT_STEPS: u64 = 9;

/// The limit of step `step` of the alarm illumination.
pub open spec fn step_limit(step: nat) -> LimitMinutes {
    if step < SHORT_STEPS {
        LimitMinutes::Five
    } else {
        LimitMinutes::Fifteen
    }
}

/// The seconds that the first `n` steps of the illumination last together.
pub open spec fn steps_duration(n: nat) -> nat
    decreases n,
{
    if n == 0 {
        0
    } else {
        steps_duration((n - 1) as nat) + step_limit((n - 1) as nat).spec_seconds()
    }
}

/// The alarm sequence lasts one hour: nine steps of five minutes and a last step of
/// fifteen minutes, during which the brightness climbs by a tenth per step to full
/// brightness on the last step.
pub proof fn lemma_sequence_lasts_one_hour()
    ensures
        steps_duration(SHORT_STEPS as nat + 1) == 3600,
        forall|v: IlluminationView| #[trigger] v.well_formed() && v.step == SHORT_STEPS ==> v.brightness == 10,
{
    reveal_with_fuel(steps_duration, 11);
}

/// The text of each limit is the decimal notation of its minutes.
pub proof fn lemma_limit_text_is_decimal(limit: LimitMinutes)
    ensures
        limit.spec_text() == crate::text::decimal(limit.spec_minutes()),
{
    reveal_with_fuel(crate::text::decimal, 2);
}

/// The rainbow comes back the way it went: frame `i` from the end lights the pixel
/// of frame `i`, and the first half lights every pixel once, in order.
pub proof fn lemma_rainbow_mirrors()
    ensures
        forall|i: int|
            0 <= i < 2 * RAINBOW_PIXELS ==> #[trigger] rainbow_frame_pixel(2 * RAINBOW_PIXELS - 1 - i)
                == rainbow_frame_pixel(i),
        forall|i: int| 0 <= i < RAINBOW_PIXELS ==> #[trigger] rainbow_frame_pixel(i) == i,
{
}

impl View for Illumination {
    type V = IlluminationView;

    closed spec fn view(&self) -> IlluminationView {
        IlluminationView { step: self.step as nat, brightness: self.brightness as nat }
    }
}

impl IlluminationView {
    /// The brightness is always one tenth above the step: the strip starts at 10%
    /// and each step adds 10%.
    pub open spec fn well_formed(self) -> bool {
        self.brightness == self.step + 1
    }
}

impl Illumination {
    /// The brightness is always one tenth above the step.
    #[verifier::type_invariant]
    spec fn brightness_follows_step(self) -> bool {
        self.brightness == self.step + 1
    }

    /// The start of the sequence: step 0 at 10% brightness.
    pub fn new() -> (res: Self)
        ensures
            res@.step == 0,
            res@.brightness == 1,
            res@.well_formed(),
    {
        Illumination { step: 0, brightness: 1 }
    }

    /// The step reached.
    pub fn step(&self) -> (res: u64)
        ensures
            res == self@.step,
    {
        self.step
    }

    /// The brightness shown, in tenths of full brightness.
    pub fn brightness_tenths(&self) -> (res: u64)
        ensures
            res == self@.brightness,
    {
        self.brightness
    }

    /// The limit of the current step: five minutes for the first nine steps,
    /// fifteen for the rest.
    pub fn limit(&self) -> (res: LimitMinutes)
        ensures
            res == step_limit(self@.step),
    {
        if self.step < SHORT_STEPS {
            LimitMinutes::Five
        } else {
            LimitMinutes::Fifteen
        }
    }

}

/// The colour of pixel `pixel` of the rainbow.
pub open spec fn rainbow_color(pixel: int) -> (u8, u8, u8) {
    if pixel == 0 {
        (255, 0, 0)
    } else if pixel == 1 {
        (255, 127, 0)
    } else if pixel == 2 {
        (255, 255, 0)
    } else if pixel == 3 {
        (0, 255, 0)
    } else if pixel == 4 {
        (0, 0, 255)
    } else if pixel == 5 {
        (39, 0, 51)
    } else if pixel == 6 {
        (139, 0, 255)
    } else {
        (255, 255, 255)
    }
}

/// The rainbow, pixel by pixel: red, orange, yellow, green, blue, indigo, violet and
/// white; the eight colours are all different.
pub proof fn lemma_rainbow_colours()
    ensures
        rainbow_color(0) == (255u8, 0u8, 0u8),
        rainbow_color(1) == (255u8, 127u8, 0u8),
        rainbow_color(2) == (255u8, 255u8, 0u8),
        rainbow_color(3) == (0u8, 255u8, 0u8),
        rainbow_color(4) == (0u8, 0u8, 255u8),
        rainbow_color(5) == (39u8, 0u8, 51u8),
        rainbow_color(6) == (139u8, 0u8, 255u8),
        rainbow_color(7) == (255u8, 255u8, 255u8),
        forall|i: int, j: int|
            0 <= i < 8 && 0 <= j < 8 && i != j ==> #[trigger] rainbow_color(i) != #[trigger] rainbow_color(j),
{
}

/// Number of pixels of the strip, and of colours of the rainbow.
pub const RAINBOW_PIXELS: usize = 8;

/// The pixel that frame `i` of the rainbow lights: the pixels in order, then back.
pub open spec fn rainbow_frame_pixel(i: int) -> int {
    if i < RAINBOW_PIXELS {
        i
    } else {
        2 * RAINBOW_PIXELS - 1 - i
    }
}

impl LightControl {
    /// Return true if the time since start, `elapsed_secs`, is longer than the given limit
    pub fn light_limit(elapsed_secs: u64, limit: &LimitMinutes) -> (res: bool)
        ensures
            res == (elapsed_secs > limit.spec_seconds()),
    {
        elapsed_secs > limit.seconds()
    }

    /// One tick of the light being on, `elapsed_secs` after it was switched on:
    /// whilst the light status is on the light stays on, and it is switched off once
    /// it has been on longer than five minutes.
    pub fn turn_on(light_on: bool, elapsed_secs: u64) -> (res: TurnOnStep)
        ensures
            res == if !light_on {
                TurnOnStep::Finished
            } else if elapsed_secs > LimitMinutes::Five.spec_seconds() {
                TurnOnStep::SwitchOff
            } else {
                TurnOnStep::KeepOn
            },
    {
        if !light_on {
            TurnOnStep::Finished
        } else if Self::light_limit(elapsed_secs, &LimitMinutes::Five) {
            TurnOnStep::SwitchOff
        } else {
            TurnOnStep::KeepOn
        }
    }

    /// One tick of the alarm illumination, `elapsed_secs` after the current step of
    /// `progress` began. Turn light on in steps of 10% brightness, 5 minutes for each
    /// step, except last step which stays on for 15 minutes. Will stop if the light
    /// status is changed elsewhere during the execution.
    pub fn alarm_illuminate(
        progress: &mut Illumination,
        light_on: bool,
        elapsed_secs: u64,
    ) -> (res: IlluminateStep)
        requires
            old(progress)@.step + 2 <= u64::MAX,
        ensures
            final(progress)@.well_formed(),
            !light_on ==> res == IlluminateStep::Stopped && final(progress)@ == old(progress)@,
            light_on && elapsed_secs <= step_limit(old(progress)@.step).spec_seconds() ==> res
                == IlluminateStep::Hold && final(progress)@ == old(progress)@,
            light_on && elapsed_secs > step_limit(old(progress)@.step).spec_seconds() ==> {
                &&& final(progress)@.step == old(progress)@.step + 1
                &&& res == if old(progress)@.step < SHORT_STEPS {
                    IlluminateStep::Brighten { brightness_tenths: final(progress)@.brightness as u64 }
                } else {
                    IlluminateStep::Finish { brightness_tenths: final(progress)@.brightness as u64 }
                }
            },
    {
        proof {
            use_type_invariant(&*progress);
        }
        if !light_on {
            return IlluminateStep::Stopped;
        }
        let limit = progress.limit();
        if Self::light_limit(elapsed_secs, &limit) {
            *progress = Illumination { step: progress.step + 1, brightness: progress.brightness + 1 };
            proof {
                use_type_invariant(&*progress);
            }
            match limit {
                LimitMinutes::Fifteen => IlluminateStep::Finish { brightness_tenths: progress.brightness },
                LimitMinutes::Five => IlluminateStep::Brighten { brightness_tenths: progress.brightness },
            }
        } else {
            IlluminateStep::Hold
        }
    }

    /// The start of the alarm illumination: the progress at its first step, the light
    /// status to set (on, so that the alarm loop fires no second alarm and a request
    /// to switch the light off ends the sequence), and the brightness to show, in
    /// tenths of full brightness.
    pub fn start_alarm_illumination() -> (res: (Illumination, bool, u64))
        ensures
            res.0@.step == 0,
            res.0@.brightness == 1,
            res.0@.well_formed(),
            res.1,
            res.2 == res.0@.brightness,
    {
        let progress = Illumination::new();
        let brightness = progress.brightness_tenths();
        (progress, true, brightness)
    }

    /// The colour of pixel `pixel` of the rainbow.
    pub fn rainbow_color(pixel: usize) -> (res: (u8, u8, u8))
        ensures
            res == rainbow_color(pixel as int),
    {
        if pixel == 0 {
            (255, 0, 0)
        } else if pixel == 1 {
            (255, 127, 0)
        } else if pixel == 2 {
            (255, 255, 0)
        } else if pixel == 3 {
            (0, 255, 0)
        } else if pixel == 4 {
            (0, 0, 255)
        } else if pixel == 5 {
            (39, 0, 51)
        } else if pixel == 6 {
            (139, 0, 255)
        } else {
            (255, 255, 255)
        }
    }

    /// The frames that `rainbow` shows, each a pixel and its colour: when the light
    /// is off, each colour of the rainbow on its own pixel, one at a time, along the
    /// strip and then back; nothing when the light is on.
    pub fn rainbow(light_on: bool) -> (res: Vec<(usize, (u8, u8, u8))>)
        ensures
            light_on ==> res@.len() == 0,
            !light_on ==> res@.len() == 2 * RAINBOW_PIXELS,
            !light_on ==> forall|i: int|
                0 <= i < res@.len() ==> (#[trigger] res@[i]).0 == rainbow_frame_pixel(i)
                    && res@[i].1 == rainbow_color(rainbow_frame_pixel(i)),
    {
        let mut frames: Vec<(usize, (u8, u8, u8))> = Vec::new();
        if light_on {
            return frames;
        }
        let mut i: usize = 0;
        while i < 2 * RAINBOW_PIXELS
            invariant
                i <= 2 * RAINBOW_PIXELS,
                frames@.len() == i,
                forall|k: int|
                    0 <= k < i ==> (#[trigger] frames@[k]).0 == rainbow_frame_pixel(k)
                        && frames@[k].1 == rainbow_color(rainbow_frame_pixel(k)),
            decreases 2 * RAINBOW_PIXELS - i,
        {
            let pixel = if i < RAINBOW_PIXELS {
                i
            } else {
                2 * RAINBOW_PIXELS - 1 - i
            };
            frames.push((pixel, Self::rainbow_color(pixel)));
            i = i + 1;
        }
        frames
    }
}

} // verus!
