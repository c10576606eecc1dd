//! The controller's loop: keys, trials, and what to do on each tick.
//!
//! The controller passes the movement keys on as they stand, raises a
//! trigger once per press, starts the game over with the current trial when
//! asked to, and moves on to the next trial a while after a win.

use vstd::prelude::*;
use crate::commands::CommandInput;
use crate::game_structure::GameConfig;

verus! {

/// Remembers whether a key was down on the last tick, so that a trigger is
/// raised once per press and not once per tick.
#[derive(Clone, Copy, Debug, PartialEq, Eq)]
pub struct EdgeDetector {
    /// Whether the key was down on the last tick.
    pub was_pressed: bool,
}

impl EdgeDetector {
    /// A detector for a key that was up.
    pub fn new() -> (detector: EdgeDetector)
        ensures
            !detector.was_pressed,
    {
        EdgeDetector { was_pressed: false }
    }

    /// Takes note of the key's state on this tick. Fires exactly when the
    /// key is down now and was up on the last tick.
    pub fn update(&mut self, pressed: bool) -> (fire: bool)
        ensures
            fire == (pressed && !old(self).was_pressed),
            final(self).was_pressed == pressed,
    {
        let fire = pressed && !self.was_pressed;
        self.was_pressed = pressed;
        fire
    }
}

/// The number of times a detector fires over some ticks, given the key's
/// state on each and on the tick before them.
pub open spec fn spec_fire_count(was_pressed: bool, pressed: Seq<bool>) -> nat
    decreases pressed.len(),
{
    if pressed.len() == 0 {
        0
    } else {
        let rest = spec_fire_count(pressed[0], pressed.skip(1));
        if pressed[0] && !was_pressed {
            rest + 1
        } else {
            rest
        }
    }
}

/// A key that is held fires once: over ticks on all of which the key is
/// down, a detector fires on the first of them if the key was up before,
/// and on no other.
pub proof fn lemma_held_key_fires_once(was_pressed: bool, pressed: Seq<bool>)
    requires
        pressed.len() > 0,
        forall|k: int| 0 <= k < pressed.len() ==> pressed[k],
    ensures
        spec_fire_count(was_pressed, pressed) == (if was_pressed {
            0nat
        } else {
            1nat
        }),
    decreases pressed.len(),
{
    let rest = pressed.skip(1);
    if rest.len() > 0 {
        assert forall|k: int| 0 <= k < rest.len() implies rest[k] by {
            assert(rest[k] == pressed[k + 1]);
        }
        lemma_held_key_fires_once(true, rest);
    } else {
        assert(spec_fire_count(pressed[0], rest) == 0);
    }
}

/// Milliseconds between a win and the start of the next trial.
pub const WIN_DELAY_MS: u64 = 2000;

/// The keys of the controller, as they stand on one tick.
#[derive(Clone, Copy, Debug, PartialEq, Eq)]
pub struct Keys {
    pub rotate_left: bool,
    pub rotate_right: bool,
    pub zoom_in: bool,
    pub zoom_out: bool,
    pub check: bool,
    pub reset: bool,
    pub blank_screen: bool,
    pub stop_rendering: bool,
    pub resume_rendering: bool,
}

/// What the controller does on one tick.
#[derive(Clone, Copy, Debug, PartialEq, Eq)]
pub struct ControllerTick {
    /// Whether the game was found won on this tick and not on the last.
    pub newly_won: bool,
    /// Whether the next trial became the current one on this tick.
    pub advanced: bool,
    /// The trial to start the game over with, if it is to start over.
    pub reset_trial: Option<usize>,
    /// The commands to write. `reset` is never set here: a reset goes with
    /// its configuration.
    pub input: CommandInput,
}

/// Which of the trials is being played. There is at least one trial, and
/// the current one is one of them.
#[derive(Clone, Copy, Debug, PartialEq, Eq)]
pub struct TrialCursor {
    count: usize,
    current: usize,
}

impl TrialCursor {
    /// The current trial is one of the trials.
    #[verifier::type_invariant]
    spec fn current_is_a_trial(self) -> bool {
        self.current < self.count
    }

    /// Number of trials.
    pub closed spec fn spec_count(self) -> usize {
        self.count
    }

    /// The trial that is being played.
    pub closed spec fn spec_current(self) -> usize {
        self.current
    }

    /// The trial after the current one, going round after the last.
    pub open spec fn spec_next(self) -> int {
        if self.spec_current() + 1 == self.spec_count() {
            0
        } else {
            self.spec_current() + 1
        }
    }

    /// A cursor at the first of `count` trials. Hands out nothing where
    /// there is no trial.
    pub fn new(count: usize) -> (cursor: Option<TrialCursor>)
        ensures
            cursor is Some <==> count > 0,
            cursor matches Some(c) ==> c.spec_count() == count && c.spec_current() == 0,
    {
        if count == 0 {
            None
        } else {
            Some(TrialCursor { count, current: 0 })
        }
    }

    /// Number of trials; at least one.
    pub fn count(&self) -> (n: usize)
        ensures
            n == self.spec_count(),
            n > 0,
    {
        proof {
            use_type_invariant(self);
        }
        self.count
    }

    /// The trial that is being played; one of the trials.
    pub fn current(&self) -> (n: usize)
        ensures
            n == self.spec_current(),
            n < self.spec_count(),
    {
        proof {
            use_type_invariant(self);
        }
        self.current
    }

    /// Moves on to the next trial, going round after the last.
    pub fn advance(&mut self)
        ensures
            final(self).spec_count() == old(self).spec_count(),
            final(self).spec_current() == old(self).spec_next(),
            final(self).spec_current() < final(self).spec_count(),
    {
        proof {
            use_type_invariant(&*self);
        }
        if self.current + 1 == self.count {
            self.current = 0;
        } else {
            self.current = self.current + 1;
        }
    }
}

/// What the controller remembers from tick to tick.
#[derive(Clone, Copy, Debug, PartialEq, Eq)]
pub struct ControllerState {
    /// The trial that is being played.
    pub trials: TrialCursor,
    /// Whether the game had been won on the last tick.
    pub previous_has_won: bool,
    /// When the win was noticed, in milliseconds, while the next trial is
    /// still to start.
    pub won_at_ms: Option<u64>,
    pub check: EdgeDetector,
    pub reset: EdgeDetector,
    pub blank_screen: EdgeDetector,
    pub stop_rendering: EdgeDetector,
    pub resume_rendering: EdgeDetector,
}

impl ControllerState {
    /// Whether the next trial is due: a win was noticed and the delay has
    /// passed since.
    pub open spec fn spec_advance_due(self, has_won: bool, now_ms: u64) -> bool {
        let won_at = if has_won && !self.previous_has_won {
            Some(now_ms)
        } else {
            self.won_at_ms
        };
        match won_at {
            Some(at) => now_ms >= at && now_ms - at >= WIN_DELAY_MS,
            None => false,
        }
    }

    /// The trial that is played after this tick: the next one, going round,
    /// if the next trial is due.
    pub open spec fn spec_trial_after(self, has_won: bool, now_ms: u64) -> int {
        if self.spec_advance_due(has_won, now_ms) {
            self.trials.spec_next()
        } else {
            self.trials.spec_current() as int
        }
    }

    /// A controller at the first of `trial_count` trials, with every key
    /// up. Hands out nothing where there is no trial.
    pub fn new(trial_count: usize) -> (state: Option<ControllerState>)
        ensures
            state is Some <==> trial_count > 0,
            state matches Some(s) ==> s.trials.spec_count() == trial_count
                && s.trials.spec_current() == 0 && !s.previous_has_won && s.won_at_ms is None && !s.check.was_pressed
                && !s.reset.was_pressed && !s.blank_screen.was_pressed
                && !s.stop_rendering.was_pressed && !s.resume_rendering.was_pressed,
    {
        let trials = match TrialCursor::new(trial_count) {
            Some(trials) => trials,
            None => {
                return None;
            },
        };
        Some(
            ControllerState {
                trials,
                previous_has_won: false,
                won_at_ms: None,
                check: EdgeDetector::new(),
                reset: EdgeDetector::new(),
                blank_screen: EdgeDetector::new(),
                stop_rendering: EdgeDetector::new(),
                resume_rendering: EdgeDetector::new(),
            },
        )
    }

    /// One tick of the controller. A win that is newly seen starts the
    /// delay; when the delay has passed, the next trial becomes current,
    /// going round after the last, and the game is started over with it.
    /// The reset key, newly pressed, starts the game over with the current
    /// trial. The movement keys are passed on as they stand; the other keys
    /// raise their trigger when newly pressed.
    pub fn tick(&mut self, keys: &Keys, has_won: bool, now_ms: u64) -> (actions: ControllerTick)
        ensures
            final(self).trials.spec_count() == old(self).trials.spec_count(),
            final(self).trials.spec_current() == old(self).spec_trial_after(has_won, now_ms),
            final(self).trials.spec_current() < final(self).trials.spec_count(),
            final(self).previous_has_won == has_won,
            final(self).won_at_ms == (if old(self).spec_advance_due(has_won, now_ms) {
                None
            } else if has_won && !old(self).previous_has_won {
                Some(now_ms)
            } else {
                old(self).won_at_ms
            }),
            final(self).check.was_pressed == keys.check,
            final(self).reset.was_pressed == keys.reset,
            final(self).blank_screen.was_pressed == keys.blank_screen,
            final(self).stop_rendering.was_pressed == keys.stop_rendering,
            final(self).resume_rendering.was_pressed == keys.resume_rendering,
            actions.newly_won == (has_won && !old(self).previous_has_won),
            actions.advanced == old(self).spec_advance_due(has_won, now_ms),
            actions.reset_trial == (if old(self).spec_advance_due(has_won, now_ms) || (keys.reset
                && !old(self).reset.was_pressed) {
                Some(final(self).trials.spec_current())
            } else {
                None
            }),
            actions.input == (CommandInput {
                rotate_left: keys.rotate_left,
                rotate_right: keys.rotate_right,
                zoom_in: keys.zoom_in,
                zoom_out: keys.zoom_out,
                check: keys.check && !old(self).check.was_pressed,
                reset: false,
                blank_screen: keys.blank_screen && !old(self).blank_screen.was_pressed,
                stop_rendering: keys.stop_rendering && !old(self).stop_rendering.was_pressed,
                resume_rendering: keys.resume_rendering && !old(self).resume_rendering.was_pressed,
            }),
    {
        proof {
            use_type_invariant(&self.trials);
        }
        let newly_won = has_won && !self.previous_has_won;
        if newly_won {
            self.won_at_ms = Some(now_ms);
        }
        self.previous_has_won = has_won;
        let mut reset_trial: Option<usize> = None;
        let mut advanced = false;
        match self.won_at_ms {
            Some(at) => {
                if now_ms >= at && now_ms - at >= WIN_DELAY_MS {
                    self.trials.advance();
                    reset_trial = Some(self.trials.current());
                    advanced = true;
                    self.won_at_ms = None;
                }
            },
            None => {},
        }
        let check = self.check.update(keys.check);
        if self.reset.update(keys.reset) {
            reset_trial = Some(self.trials.current());
        }
        let blank_screen = self.blank_screen.update(keys.blank_screen);
        let stop_rendering = self.stop_rendering.update(keys.stop_rendering);
        let resume_rendering = self.resume_rendering.update(keys.resume_rendering);
        ControllerTick {
            newly_won,
            advanced,
            reset_trial,
            input: CommandInput {
                rotate_left: keys.rotate_left,
                rotate_right: keys.rotate_right,
                zoom_in: keys.zoom_in,
                zoom_out: keys.zoom_out,
                check,
                reset: false,
                blank_screen,
                stop_rendering,
                resume_rendering,
            },
        }
    }
}

/// The configurations among the first `n` lines of the trial file, in
/// their order, given what each line gave.
pub open spec fn spec_found_trials(parsed: Seq<Option<GameConfig>>, n: nat) -> Seq<GameConfig>
    decreases n,
{
    if n == 0 {
        Seq::empty()
    } else {
        let before = spec_found_trials(parsed, (n - 1) as nat);
        match parsed[n - 1] {
            Some(config) => before.push(config),
            None => before,
        }
    }
}

/// The trials to play, given what each line of the trial file gave: the
/// lines that hold a configuration, in their order; where no line holds
/// one, the single default trial.
pub open spec fn spec_select_trials(parsed: Seq<Option<GameConfig>>) -> Seq<GameConfig> {
    let found = spec_found_trials(parsed, parsed.len());
    if found.len() == 0 {
        seq![GameConfig::spec_default_trial()]
    } else {
        found
    }
}

/// Picks the trials to play out of what each line of the trial file gave.
pub fn select_trials(parsed: &Vec<Option<GameConfig>>) -> (trials: Vec<GameConfig>)
    ensures
        trials@ == spec_select_trials(parsed@),
        trials@.len() > 0,
{
    let mut trials: Vec<GameConfig> = Vec::new();
    let mut k: usize = 0;
    while k < parsed.len()
        invariant
            k <= parsed@.len(),
            trials@ == spec_found_trials(parsed@, k as nat),
        decreases parsed@.len() - k,
    {
        match parsed[k] {
            Some(config) => {
                trials.push(config);
            },
            None => {},
        }
        k += 1;
    }
    if trials.len() == 0 {
        trials.push(GameConfig::default_trial());
        assert(trials@ =~= seq![GameConfig::spec_default_trial()]);
    }
    trials
}

} // verus!
