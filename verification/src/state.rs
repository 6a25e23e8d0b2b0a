//! The application state machine.
//!
//! The state owns the exit flag, the gauge's accent colour, and the current
//! progress. Every event that the consumer loop dequeues is folded into the
//! state by [`App::handle_event`]; [`App::run`] folds a whole batch, stopping
//! as soon as the exit flag is raised, exactly like the interactive loop.

use crate::events::{clamped, CustomEvents, KeyCode, KeyEvent, KeyEventKind, PROGRESS_SCALE};
use vstd::prelude::*;

verus! {

/// Pressing this key asks the application to exit.
pub const QUIT_KEY: char = 'q';

/// Pressing this key toggles the gauge's accent colour.
pub const TOGGLE_KEY: char = 'c';

/// The gauge's colour scheme: the normal colour or its alternate.
#[derive(Clone, Copy, Debug, PartialEq, Eq, Structural)]
pub enum AccentColor {
    Primary,
    Alternate,
}

/// The other accent colour.
pub open spec fn flipped(c: AccentColor) -> AccentColor {
    match c {
        AccentColor::Primary => AccentColor::Alternate,
        AccentColor::Alternate => AccentColor::Primary,
    }
}

/// The whole mutable state of the application.
#[derive(Clone, Copy, Debug, PartialEq, Eq, Structural)]
pub struct App {
    /// Raised by a press of the quit key; once raised it never falls again.
    pub should_exit: bool,
    /// Colour scheme of the gauge, toggled by the toggle key.
    pub accent_color: AccentColor,
    /// Current progress in progress units, always within the scale.
    pub progress: u32,
}

/// Effect of one key event on the state.
pub open spec fn key_step(s: App, key: KeyEvent) -> App {
    if key.kind == KeyEventKind::Press && key.code == KeyCode::Char(QUIT_KEY) {
        App { should_exit: true, ..s }
    } else if key.kind == KeyEventKind::Press && key.code == KeyCode::Char(TOGGLE_KEY) {
        App { accent_color: flipped(s.accent_color), ..s }
    } else {
        s
    }
}

/// Effect of one dequeued event on the state.
pub open spec fn step(s: App, e: CustomEvents) -> App {
    match e {
        CustomEvents::Input(key) => key_step(s, key),
        CustomEvents::Progress(v) => App { progress: clamped(v), ..s },
    }
}

/// The state after folding a whole sequence of events, first to last.
pub open spec fn apply_all(s: App, es: Seq<CustomEvents>) -> App
    decreases es.len(),
{
    if es.len() == 0 {
        s
    } else {
        step(apply_all(s, es.drop_last()), es.last())
    }
}

impl App {
    /// The progress value never leaves the unit interval.
    pub open spec fn wf(self) -> bool {
        self.progress <= PROGRESS_SCALE
    }

    /// The state the application starts in: running, primary colour, no
    /// progress yet.
    pub open spec fn initial() -> App {
        App { should_exit: false, accent_color: AccentColor::Primary, progress: 0 }
    }

    /// Create the start state.
    pub fn new() -> (app: App)
        ensures
            app == App::initial(),
            app.wf(),
    {
        App { should_exit: false, accent_color: AccentColor::Primary, progress: 0 }
    }

    /// Apply one key event: a press of the quit key raises the exit flag, a
    /// press of the toggle key flips the accent colour, and every other key
    /// event leaves the state alone.
    pub fn handle_key_event(&mut self, key: KeyEvent)
        ensures
            *final(self) == key_step(*old(self), key),
    {
        if key.kind == KeyEventKind::Press && key.code == KeyCode::Char(QUIT_KEY) {
            self.should_exit = true;
        } else if key.kind == KeyEventKind::Press && key.code == KeyCode::Char(TOGGLE_KEY) {
            if self.accent_color == AccentColor::Primary {
                self.accent_color = AccentColor::Alternate;
            } else {
                self.accent_color = AccentColor::Primary;
            }
        }
    }

    /// Apply one dequeued event: key events go through
    /// [`App::handle_key_event`]; a progress snapshot replaces the stored
    /// progress with the carried value, clamped to the scale.
    pub fn handle_event(&mut self, event: CustomEvents)
        ensures
            *final(self) == step(*old(self), event),
            old(self).wf() ==> final(self).wf(),
    {
        match event {
            CustomEvents::Input(key) => self.handle_key_event(key),
            CustomEvents::Progress(v) => {
                self.progress = if v > PROGRESS_SCALE {
                    PROGRESS_SCALE
                } else {
                    v
                };
            },
        }
    }

    /// Fold a batch of events into the state in order, exactly as the
    /// interactive loop does: stop consuming as soon as the exit flag is
    /// raised. Returns how many events were consumed, which is also how many
    /// redraws the loop would have performed.
    pub fn run(&mut self, events: &Vec<CustomEvents>) -> (drawn: usize)
        ensures
            drawn <= events@.len(),
            *final(self) == apply_all(*old(self), events@.take(drawn as int)),
            forall|j: int|
                0 <= j < drawn ==> !apply_all(*old(self), events@.take(j)).should_exit,
            drawn < events@.len() ==> apply_all(
                *old(self),
                events@.take(drawn as int),
            ).should_exit,
            old(self).should_exit ==> drawn == 0,
    {
        let ghost s0: App = *self;
        let n = events.len();
        let mut i: usize = 0;
        proof {
            assert(events@.take(0) =~= Seq::<CustomEvents>::empty());
        }
        while i < n && !self.should_exit
            invariant
                0 <= i <= n,
                n == events@.len(),
                *self == apply_all(s0, events@.take(i as int)),
                forall|j: int| 0 <= j < i ==> !apply_all(s0, events@.take(j)).should_exit,
            decreases n - i,
        {
            let e = events[i];
            proof {
                assert(events@.take(i as int + 1).drop_last() =~= events@.take(i as int));
                assert(events@.take(i as int + 1).last() == events@[i as int]);
            }
            self.handle_event(e);
            i = i + 1;
        }
        i
    }
}

/// After any event sequence that ends in a progress update, the stored
/// progress is exactly the updated value, clamped to the scale. In
/// particular, for a sequence made of progress updates alone, the last value
/// seen wins.
pub proof fn lemma_progress_tracks_last_update(s: App, es: Seq<CustomEvents>, v: u32)
    requires
        es.len() > 0,
        es.last() == CustomEvents::Progress(v),
    ensures
        apply_all(s, es).progress == clamped(v),
{
}

/// A sequence made only of progress updates leaves the exit flag and the
/// accent colour alone.
pub proof fn lemma_progress_updates_touch_progress_only(s: App, es: Seq<CustomEvents>)
    requires
        forall|i: int| 0 <= i < es.len() ==> es[i] is Progress,
    ensures
        apply_all(s, es).should_exit == s.should_exit,
        apply_all(s, es).accent_color == s.accent_color,
    decreases es.len(),
{
    if es.len() > 0 {
        lemma_progress_updates_touch_progress_only(s, es.drop_last());
    }
}

/// Pressing the toggle key an even number of times returns the accent colour
/// to its original value; an odd number of times flips it exactly once. The
/// rest of the state is untouched.
pub proof fn lemma_toggle_parity(s: App, es: Seq<CustomEvents>)
    requires
        forall|i: int|
            0 <= i < es.len() ==> es[i] == CustomEvents::Input(
                KeyEvent { code: KeyCode::Char(TOGGLE_KEY), kind: KeyEventKind::Press },
            ),
    ensures
        apply_all(s, es).accent_color == if es.len() % 2 == 0 {
            s.accent_color
        } else {
            flipped(s.accent_color)
        },
        apply_all(s, es).should_exit == s.should_exit,
        apply_all(s, es).progress == s.progress,
    decreases es.len(),
{
    if es.len() > 0 {
        lemma_toggle_parity(s, es.drop_last());
    }
}

/// Once the exit flag is raised, no further event processing lowers it.
pub proof fn lemma_exit_is_monotonic(s: App, es: Seq<CustomEvents>)
    requires
        s.should_exit,
    ensures
        apply_all(s, es).should_exit,
    decreases es.len(),
{
    if es.len() > 0 {
        lemma_exit_is_monotonic(s, es.drop_last());
    }
}

/// Event processing keeps the progress value within the scale: from a
/// well-formed state, every reachable state is well-formed.
pub proof fn lemma_progress_stays_bounded(s: App, es: Seq<CustomEvents>)
    requires
        s.wf(),
    ensures
        apply_all(s, es).wf(),
    decreases es.len(),
{
    if es.len() > 0 {
        lemma_progress_stays_bounded(s, es.drop_last());
    }
}

} // verus!
