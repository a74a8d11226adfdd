use vstd::prelude::*;

verus! {

/// Presses of one and the same button, beyond the first, that end the
/// gesture loop.
pub const DEFAULT_EXIT_REPEAT_THRESHOLD: u8 = 6;

/// How many seconds one event read blocks before yielding control.
pub const DEFAULT_POLL_TIMEOUT_SECONDS: u64 = 200;

/// The recognized configuration of the gesture loop.
pub struct GestureConfig {
    /// How long one event read blocks before yielding control, in seconds.
    pub poll_timeout_seconds: u64,
    /// Presses of one and the same button, beyond the first, that end the
    /// gesture loop.
    pub exit_repeat_threshold: u8,
}

impl Default for GestureConfig {
    /// The reference behaviour: a 200 second read bound and a repeat
    /// threshold of 6.
    fn default() -> (c: GestureConfig)
        ensures
            c.poll_timeout_seconds == DEFAULT_POLL_TIMEOUT_SECONDS,
            c.exit_repeat_threshold == DEFAULT_EXIT_REPEAT_THRESHOLD,
    {
        GestureConfig {
            poll_timeout_seconds: DEFAULT_POLL_TIMEOUT_SECONDS,
            exit_repeat_threshold: DEFAULT_EXIT_REPEAT_THRESHOLD,
        }
    }
}

/// A discrete hardware notification. The index is the device's button
/// ordinal, unique within one batch ordering but not over time.
#[derive(Clone, Copy, Debug, PartialEq, Eq, Structural)]
pub enum ButtonEvent {
    /// A button went down.
    Pressed(u8),
    /// A button came back up.
    Released(u8),
    /// Any other state change the device reports (encoders, touch, ...).
    OtherChange,
}

/// Transient state of the repeated-press gesture: the button last seen down,
/// and how many times in a row it has been seen down again since.
#[derive(Clone, Copy, Debug)]
pub struct RepeatCounter {
    /// The button of the most recent press, if any press was seen yet.
    pub last_button: Option<u8>,
    /// Consecutive repeats of `last_button`. A freshly seen button starts at
    /// 0 and the count grows only on the next press of the same button, so a
    /// threshold of `t` demands `t + 1` presses in one unbroken run.
    pub streak: u8,
}

/// One more repeat, saturating at the top of the counter's range.
pub open spec fn spec_saturating_inc(s: u8) -> u8 {
    if s == 255 {
        255
    } else {
        (s + 1) as u8
    }
}

/// The counter after one press of button `b`: a repeat of the last button
/// deepens the streak, any other button starts a fresh run.
pub open spec fn spec_press(c: RepeatCounter, b: u8) -> RepeatCounter {
    if c.last_button == Some(b) {
        RepeatCounter { last_button: c.last_button, streak: spec_saturating_inc(c.streak) }
    } else {
        RepeatCounter { last_button: Some(b), streak: 0 }
    }
}

/// The counter after one event: only presses touch it.
pub open spec fn spec_event_step(c: RepeatCounter, e: ButtonEvent) -> RepeatCounter {
    match e {
        ButtonEvent::Pressed(b) => spec_press(c, b),
        _ => c,
    }
}

/// Whether processing `e` in state `c` reaches the exit gesture: only a
/// repeat press can fire, exactly when the deepened streak reaches the
/// threshold.
pub open spec fn spec_event_fires(c: RepeatCounter, e: ButtonEvent, threshold: u8) -> bool {
    match e {
        ButtonEvent::Pressed(b) => c.last_button == Some(b) && spec_saturating_inc(c.streak)
            >= threshold,
        _ => false,
    }
}

/// Runs the counter over an ordered batch, stopping at the first firing
/// event. Returns the final counter and whether the gesture fired.
pub open spec fn spec_run(c: RepeatCounter, events: Seq<ButtonEvent>, threshold: u8) -> (
    RepeatCounter,
    bool,
)
    decreases events.len(),
{
    if events.len() == 0 {
        (c, false)
    } else {
        let c1 = spec_event_step(c, events[0]);
        if spec_event_fires(c, events[0], threshold) {
            (c1, true)
        } else {
            spec_run(c1, events.subrange(1, events.len() as int), threshold)
        }
    }
}

/// The counter at the start of a gesture loop: no press seen yet.
pub open spec fn spec_initial_counter() -> RepeatCounter {
    RepeatCounter { last_button: None, streak: 0 }
}

/// The subsequence of a batch that the counter reacts to: its presses, in
/// emission order.
pub open spec fn spec_presses_only(events: Seq<ButtonEvent>) -> Seq<ButtonEvent>
    decreases events.len(),
{
    if events.len() == 0 {
        Seq::empty()
    } else {
        let rest = spec_presses_only(events.subrange(1, events.len() as int));
        if events[0] is Pressed {
            seq![events[0]] + rest
        } else {
            rest
        }
    }
}

impl RepeatCounter {
    /// A counter that has seen no press yet.
    pub fn new() -> (c: RepeatCounter)
        ensures
            c == spec_initial_counter(),
            c.last_button is None,
            c.streak == 0,
    {
        RepeatCounter { last_button: None, streak: 0 }
    }

    /// Feeds one event to the counter; returns whether the exit gesture was
    /// just completed. Released and other events leave the counter alone.
    pub fn observe(&mut self, event: &ButtonEvent, threshold: u8) -> (fired: bool)
        ensures
            *final(self) == spec_event_step(*old(self), *event),
            fired == spec_event_fires(*old(self), *event, threshold),
    {
        match event {
            ButtonEvent::Pressed(b) => {
                let same = match self.last_button {
                    Some(l) => l == *b,
                    None => false,
                };
                if same {
                    self.streak = if self.streak == 255 {
                        255
                    } else {
                        self.streak + 1
                    };
                    self.streak >= threshold
                } else {
                    self.last_button = Some(*b);
                    self.streak = 0;
                    false
                }
            },
            _ => false,
        }
    }

    /// Feeds one ordered batch of events to the counter, in emission order,
    /// stopping at the first event that completes the exit gesture.
    pub fn process_batch(&mut self, events: &Vec<ButtonEvent>, threshold: u8) -> (fired: bool)
        ensures
            *final(self) == spec_run(*old(self), events@, threshold).0,
            fired == spec_run(*old(self), events@, threshold).1,
    {
        let ghost c0 = *self;
        let mut i: usize = 0;
        proof {
            assert(events@.subrange(0, events@.len() as int) =~= events@);
        }
        while i < events.len()
            invariant
                i <= events@.len(),
                c0 == *old(self),
                spec_run(c0, events@, threshold) == spec_run(
                    *self,
                    events@.subrange(i as int, events@.len() as int),
                    threshold,
                ),
            decreases events@.len() - i,
        {
            let ghost cur = *self;
            let ghost rest = events@.subrange(i as int, events@.len() as int);
            proof {
                assert(rest.len() > 0);
                assert(rest[0] == events@[i as int]);
                assert(rest.subrange(1, rest.len() as int) =~= events@.subrange(
                    i + 1,
                    events@.len() as int,
                ));
            }
            let fired = self.observe(&events[i], threshold);
            proof {
                if spec_event_fires(cur, rest[0], threshold) {
                    assert(spec_run(cur, rest, threshold) == (
                        spec_event_step(cur, rest[0]),
                        true,
                    ));
                } else {
                    assert(spec_run(cur, rest, threshold) == spec_run(
                        spec_event_step(cur, rest[0]),
                        rest.subrange(1, rest.len() as int),
                        threshold,
                    ));
                }
            }
            if fired {
                return true;
            }
            i = i + 1;
        }
        proof {
            assert(events@.subrange(i as int, events@.len() as int) =~= Seq::<
                ButtonEvent,
            >::empty());
        }
        false
    }
}

/// From a state already counting button `i`, with a streak still short of
/// the threshold, a run of presses of `i` fires exactly when it carries the
/// streak to the threshold, and otherwise just lengthens the streak.
proof fn lemma_counting_run(c: RepeatCounter, events: Seq<ButtonEvent>, i: u8, t: u8, s: u8)
    requires
        c.last_button == Some(i),
        c.streak == s,
        s < t,
        forall|k: int| 0 <= k < events.len() ==> events[k] == ButtonEvent::Pressed(i),
    ensures
        spec_run(c, events, t).1 <==> s + events.len() >= t,
        s + events.len() < t ==> spec_run(c, events, t).0 == (RepeatCounter {
            last_button: Some(i),
            streak: (s + events.len()) as u8,
        }),
    decreases events.len(),
{
    if events.len() > 0 {
        assert(events[0] == ButtonEvent::Pressed(i));
        let c1 = spec_event_step(c, events[0]);
        assert(c1 == RepeatCounter { last_button: Some(i), streak: (s + 1) as u8 });
        if !spec_event_fires(c, events[0], t) {
            assert(s + 1 < t);
            lemma_counting_run(
                c1,
                events.subrange(1, events.len() as int),
                i,
                t,
                (s + 1) as u8,
            );
        }
    }
}

/// From a state not currently counting button `i`, a run of presses of `i`
/// needs one press more than the threshold to fire: the first press starts
/// a fresh streak at zero and only the following repeats count.
pub proof fn lemma_fresh_run(c: RepeatCounter, events: Seq<ButtonEvent>, i: u8, t: u8)
    requires
        1 <= t,
        c.last_button != Some(i),
        forall|k: int| 0 <= k < events.len() ==> events[k] == ButtonEvent::Pressed(i),
    ensures
        spec_run(c, events, t).1 <==> events.len() >= t + 1,
        events.len() == 0 ==> spec_run(c, events, t).0 == c,
        1 <= events.len() < t + 1 ==> spec_run(c, events, t).0 == (RepeatCounter {
            last_button: Some(i),
            streak: (events.len() - 1) as u8,
        }),
{
    if events.len() > 0 {
        assert(events[0] == ButtonEvent::Pressed(i));
        let c1 = spec_event_step(c, events[0]);
        assert(c1 == RepeatCounter { last_button: Some(i), streak: 0 });
        assert(!spec_event_fires(c, events[0], t));
        lemma_counting_run(c1, events.subrange(1, events.len() as int), i, t, 0);
    }
}

/// The exit gesture on a fresh counter: a batch of presses of one and the
/// same button fires exactly once the press after the threshold-th repeat
/// is processed — one unbroken run of threshold-plus-one presses, never
/// fewer.
pub proof fn lemma_unbroken_run_fires_exactly(events: Seq<ButtonEvent>, i: u8, t: u8)
    requires
        1 <= t,
        forall|k: int| 0 <= k < events.len() ==> events[k] == ButtonEvent::Pressed(i),
    ensures
        spec_run(spec_initial_counter(), events, t).1 <==> events.len() >= t + 1,
{
    lemma_fresh_run(spec_initial_counter(), events, i, t);
}

/// Processing a concatenation of batches equals processing them in turn,
/// as long as the first did not already fire.
pub proof fn lemma_run_append(c: RepeatCounter, a: Seq<ButtonEvent>, b: Seq<ButtonEvent>, t: u8)
    requires
        !spec_run(c, a, t).1,
    ensures
        spec_run(c, a + b, t) == spec_run(spec_run(c, a, t).0, b, t),
    decreases a.len(),
{
    if a.len() == 0 {
        assert(a + b =~= b);
    } else {
        assert((a + b)[0] == a[0]);
        assert(!spec_event_fires(c, a[0], t));
        let c1 = spec_event_step(c, a[0]);
        assert((a + b).subrange(1, (a + b).len() as int) =~= a.subrange(1, a.len() as int) + b);
        lemma_run_append(c1, a.subrange(1, a.len() as int), b, t);
    }
}

/// An intervening press of a different button resets the streak: two runs
/// of one button, each no longer than the threshold, never fire when a
/// press of another button stands between them, however many presses the
/// two runs hold together.
pub proof fn lemma_intervening_press_prevents_fire(
    first_run: Seq<ButtonEvent>,
    second_run: Seq<ButtonEvent>,
    i: u8,
    j: u8,
    t: u8,
)
    requires
        1 <= t,
        i != j,
        first_run.len() <= t,
        second_run.len() <= t,
        forall|k: int| 0 <= k < first_run.len() ==> first_run[k] == ButtonEvent::Pressed(i),
        forall|k: int| 0 <= k < second_run.len() ==> second_run[k] == ButtonEvent::Pressed(i),
    ensures
        !spec_run(
            spec_initial_counter(),
            first_run + seq![ButtonEvent::Pressed(j)] + second_run,
            t,
        ).1,
{
    let c0 = spec_initial_counter();
    let mid = seq![ButtonEvent::Pressed(j)];
    assert(mid[0] == ButtonEvent::Pressed(j));
    lemma_fresh_run(c0, first_run, i, t);
    let c1 = spec_run(c0, first_run, t).0;
    assert(c1.last_button != Some(j));
    assert(first_run + mid + second_run =~= first_run + (mid + second_run));
    lemma_run_append(c0, first_run, mid + second_run, t);
    lemma_fresh_run(c1, mid, j, t);
    let c2 = spec_run(c1, mid, t).0;
    assert(c2 == RepeatCounter { last_button: Some(j), streak: 0 });
    lemma_run_append(c1, mid, second_run, t);
    lemma_fresh_run(c2, second_run, i, t);
}

/// Only pressed events matter: dropping every released and other state
/// change from a batch changes neither the final counter nor whether the
/// gesture fires.
pub proof fn lemma_only_presses_matter(c: RepeatCounter, events: Seq<ButtonEvent>, t: u8)
    ensures
        spec_run(c, spec_presses_only(events), t) == spec_run(c, events, t),
    decreases events.len(),
{
    if events.len() > 0 {
        let e = events[0];
        let rest = events.subrange(1, events.len() as int);
        let filtered_rest = spec_presses_only(rest);
        if e is Pressed {
            let filtered = seq![e] + filtered_rest;
            assert(spec_presses_only(events) == filtered);
            assert(filtered[0] == e);
            assert(filtered.subrange(1, filtered.len() as int) =~= filtered_rest);
            let c1 = spec_event_step(c, e);
            if !spec_event_fires(c, e, t) {
                lemma_only_presses_matter(c1, rest, t);
            }
        } else {
            assert(spec_presses_only(events) == filtered_rest);
            assert(spec_event_step(c, e) == c);
            assert(!spec_event_fires(c, e, t));
            lemma_only_presses_matter(c, rest, t);
        }
    }
}

} // verus!
