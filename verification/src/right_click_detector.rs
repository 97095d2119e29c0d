//! Watches for presses of the right mouse button over poker tables.
//!
//! A background loop samples the button and the window under the pointer at
//! a short interval. What it does with each sample is decided here:
//! `RightClickDetector` holds the two flags that the loop and its owner
//! share, `Watch` what the loop remembers from one sample to the next.

use vstd::prelude::*;
use crate::classifier::{is_poker_table, names_poker_table};

verus! {

/// The flags of the detector. `running` says whether the loop is alive,
/// `active` whether it reacts while it is; neither changes the other.
pub struct RightClickDetector {
    active: bool,
    running: bool,
}

impl RightClickDetector {
    /// Whether the loop reacts to the button.
    pub closed spec fn active(self) -> bool {
        self.active
    }

    /// Whether the loop is alive.
    pub closed spec fn running(self) -> bool {
        self.running
    }

    /// A detector that is neither running nor active.
    pub fn new() -> (detector: Self)
        ensures
            !detector.active(),
            !detector.running(),
    {
        RightClickDetector { active: false, running: false }
    }

    /// Marks the loop as alive. The answer says whether the caller has to
    /// start it: it has, unless the loop was alive already, in which case
    /// nothing changes.
    pub fn start(&mut self) -> (spawn: bool)
        ensures
            final(self).running(),
            final(self).active() == old(self).active(),
            spawn == !old(self).running(),
    {
        if self.running {
            false
        } else {
            self.running = true;
            true
        }
    }

    /// Tells the loop to end. The answer says whether it was alive, so that
    /// the caller knows to wait for it.
    pub fn stop(&mut self) -> (was_running: bool)
        ensures
            !final(self).running(),
            final(self).active() == old(self).active(),
            was_running == old(self).running(),
    {
        let was_running = self.running;
        self.running = false;
        was_running
    }

    /// Switches the reaction to the button on or off; the loop lives on.
    pub fn set_active(&mut self, active: bool)
        ensures
            final(self).active() == active,
            final(self).running() == old(self).running(),
    {
        self.active = active;
    }

    /// Whether the loop reacts to the button.
    pub fn is_active(&self) -> (active: bool)
        ensures
            active == self.active(),
    {
        self.active
    }

    /// Whether the loop is alive.
    pub fn is_running(&self) -> (running: bool)
        ensures
            running == self.running(),
    {
        self.running
    }
}

/// The window under the pointer.
pub struct PointerTarget {
    /// Its handle; zero where there is no window.
    pub hwnd: u32,
    /// Its title; empty where it has none.
    pub title: String,
    /// The name of its class; empty where it could not be read.
    pub class_name: String,
    /// The pointer, relative to the window's client area.
    pub x: i32,
    pub y: i32,
    /// The pointer on the screen.
    pub screen_x: i32,
    pub screen_y: i32,
}

/// One look at the mouse.
pub struct Sample {
    /// When, in milliseconds of a clock that does not go back.
    pub now_ms: u64,
    /// Whether the right button is down.
    pub pressed: bool,
    /// The window under the pointer, if the pointer could be located. It is
    /// read only for a sample in which the button is down.
    pub target: Option<PointerTarget>,
}

/// A press of the right button over a poker table.
pub struct ClickEvent {
    pub hwnd: u32,
    pub title: String,
    pub class_name: String,
    pub x: i32,
    pub y: i32,
    pub screen_x: i32,
    pub screen_y: i32,
}

/// How long the loop waits between two samples, in milliseconds.
pub const POLL_INTERVAL_MS: u64 = 50;

/// For how long a handled window is remembered, in milliseconds: five seconds.
pub const MEMORY_MS: u64 = 5000;

/// What the loop remembers between samples.
#[derive(Clone, Copy, Debug, PartialEq, Eq, Structural)]
pub struct Watch {
    /// The window for which an event was last emitted; zero for none.
    pub last_hwnd: u32,
    /// When that was; for a fresh watch, when it was made.
    pub last_emit_ms: u64,
    /// Whether the button was down in the last sample taken while active.
    pub right_button_down: bool,
}

/// The memory of an event at `since_ms` has lapsed at `now_ms`: the time for
/// which a window is remembered has passed in full.
pub open spec fn has_lapsed(since_ms: u64, now_ms: u64) -> bool {
    now_ms - since_ms >= MEMORY_MS
}

/// The window that counts as last handled at `now_ms`: the one that the
/// watch holds, and none once its memory has lapsed.
pub open spec fn remembered(watch: Watch, now_ms: u64) -> u32 {
    if has_lapsed(watch.last_emit_ms, now_ms) {
        0
    } else {
        watch.last_hwnd
    }
}

/// The window can be the subject of an event: it exists, its title names a
/// poker table, and its class could be read.
pub open spec fn is_table_target(target: PointerTarget) -> bool {
    target.hwnd != 0 && names_poker_table(target.title@) && target.class_name@.len() > 0
}

/// The sample makes the loop emit an event: the loop is active, the button
/// went down since the last sample, and the window under the pointer is a
/// table other than the one that counts as last handled at the sample's time.
pub open spec fn emits(watch: Watch, active: bool, sample: Sample) -> bool {
    active && sample.pressed && !watch.right_button_down && (match sample.target {
        Some(target) => is_table_target(target) && target.hwnd != remembered(
            watch,
            sample.now_ms,
        ),
        None => false,
    })
}

/// What the loop remembers after the sample.
///
/// The window last handled is forgotten once `MEMORY_MS` have passed
/// since its event; that is settled before the sample is looked at. An event
/// makes its window the one last handled, at the sample's time. The state of
/// the button is taken from the sample only while the loop is active.
pub open spec fn watch_after(watch: Watch, active: bool, sample: Sample) -> Watch {
    let emitted = emits(watch, active, sample);
    Watch {
        last_hwnd: if emitted {
            sample.target->0.hwnd
        } else {
            remembered(watch, sample.now_ms)
        },
        last_emit_ms: if emitted {
            sample.now_ms
        } else {
            watch.last_emit_ms
        },
        right_button_down: if active {
            sample.pressed
        } else {
            watch.right_button_down
        },
    }
}

impl Watch {
    /// What a loop remembers when it starts at `now_ms`: no window, a button
    /// that is up.
    pub fn new(now_ms: u64) -> (watch: Self)
        ensures
            watch == (Watch { last_hwnd: 0, last_emit_ms: now_ms, right_button_down: false }),
    {
        Watch { last_hwnd: 0, last_emit_ms: now_ms, right_button_down: false }
    }

    /// Takes one sample. The answer is the event to emit, if there is one;
    /// it describes the window under the pointer.
    pub fn poll(&mut self, active: bool, sample: &Sample) -> (event: Option<ClickEvent>)
        ensures
            event is Some == emits(*old(self), active, *sample),
            event matches Some(click) ==> sample.target matches Some(target) && {
                &&& click.hwnd == target.hwnd
                &&& click.title@ == target.title@
                &&& click.class_name@ == target.class_name@
                &&& click.x == target.x
                &&& click.y == target.y
                &&& click.screen_x == target.screen_x
                &&& click.screen_y == target.screen_y
            },
            *final(self) == watch_after(*old(self), active, *sample),
    {
        let mut event: Option<ClickEvent> = None;
        if sample.now_ms >= self.last_emit_ms && sample.now_ms - self.last_emit_ms >= MEMORY_MS {
            self.last_hwnd = 0;
        }
        if active {
            if sample.pressed && !self.right_button_down {
                match &sample.target {
                    Some(target) => {
                        if target.hwnd != 0 && target.hwnd != self.last_hwnd && is_poker_table(
                            target.title.as_str(),
                        ) && !target.class_name.as_str().is_empty() {
                            event = Some(
                                ClickEvent {
                                    hwnd: target.hwnd,
                                    title: target.title.clone(),
                                    class_name: target.class_name.clone(),
                                    x: target.x,
                                    y: target.y,
                                    screen_x: target.screen_x,
                                    screen_y: target.screen_y,
                                },
                            );
                            self.last_hwnd = target.hwnd;
                            self.last_emit_ms = sample.now_ms;
                        }
                    },
                    None => {},
                }
            }
            self.right_button_down = sample.pressed;
        }
        event
    }
}

/// One turn of the loop: whether it was active, and what it sampled.
pub struct Turn {
    pub active: bool,
    pub sample: Sample,
}

/// What the loop remembers after the turns.
pub open spec fn watch_after_turns(watch: Watch, turns: Seq<Turn>) -> Watch
    decreases turns.len(),
{
    if turns.len() == 0 {
        watch
    } else {
        watch_after(
            watch_after_turns(watch, turns.drop_last()),
            turns.last().active,
            turns.last().sample,
        )
    }
}

/// The turn numbered `index` emits an event.
pub open spec fn turn_emits(watch: Watch, turns: Seq<Turn>, index: int) -> bool {
    emits(watch_after_turns(watch, turns.take(index)), turns[index].active, turns[index].sample)
}

/// While the loop is not active it emits nothing, whatever it samples, and
/// does not take note of the button.
pub proof fn lemma_inactive_emits_nothing(watch: Watch, sample: Sample)
    ensures
        !emits(watch, false, sample),
        watch_after(watch, false, sample).right_button_down == watch.right_button_down,
{
}

/// A button that is held down emits once at most: only a sample in which
/// the button is down after one in which it was up can emit.
pub proof fn lemma_held_button_emits_nothing(watch: Watch, active: bool, sample: Sample)
    requires
        watch.right_button_down,
    ensures
        !emits(watch, active, sample),
{
}

/// After an event for a window, no further event for that window comes as
/// long as no event for another window has come and less than five seconds
/// have passed: whatever the turns in between, as long as none of them emits
/// and the clock does not go back, a turn within that time does not emit an
/// event for the window.
pub proof fn lemma_one_event_per_window(
    watch: Watch,
    active: bool,
    first: Sample,
    turns: Seq<Turn>,
    index: int,
)
    requires
        emits(watch, active, first),
        0 <= index < turns.len(),
        forall|k: int| 0 <= k < index ==> !turn_emits(watch_after(watch, active, first), turns, k),
        forall|k: int| 0 <= k <= index ==> first.now_ms <= #[trigger] turns[k].sample.now_ms,
        turns[index].sample.now_ms - first.now_ms < MEMORY_MS,
        forall|j: int, k: int|
            0 <= j <= k <= index ==> turns[j].sample.now_ms <= turns[k].sample.now_ms,
    ensures
        !(turn_emits(watch_after(watch, active, first), turns, index)
            && turns[index].sample.target->0.hwnd == first.target->0.hwnd),
{
    let start = watch_after(watch, active, first);
    let hwnd = first.target->0.hwnd;
    assert(start.last_hwnd == hwnd && start.last_emit_ms == first.now_ms);
    lemma_quiet_turns_remember(start, turns, index);
}

/// The suppression of a window does not outlast its time: once five seconds
/// have passed since the event for the window last handled, a press of the
/// button over a table emits an event, be it for that same window.
pub proof fn lemma_memory_lapses(watch: Watch, sample: Sample)
    requires
        sample.now_ms - watch.last_emit_ms >= MEMORY_MS,
        sample.pressed,
        !watch.right_button_down,
        sample.target is Some,
        is_table_target(sample.target->0),
    ensures
        emits(watch, true, sample),
        watch_after(watch, true, sample).last_hwnd == sample.target->0.hwnd,
        watch_after(watch, true, sample).last_emit_ms == sample.now_ms,
{
}

/// Turns that emit nothing, within the time for which a window is
/// remembered, leave the memory of the window last handled as it is.
proof fn lemma_quiet_turns_remember(start: Watch, turns: Seq<Turn>, count: int)
    requires
        0 <= count <= turns.len(),
        count < turns.len() ==> turns[count].sample.now_ms - start.last_emit_ms < MEMORY_MS,
        count == turns.len() ==> count > 0 ==> turns[count - 1].sample.now_ms - start.last_emit_ms
            < MEMORY_MS,
        forall|k: int| 0 <= k < count ==> !turn_emits(start, turns, k),
        forall|k: int|
            0 <= k < turns.len() && k <= count ==> start.last_emit_ms
                <= #[trigger] turns[k].sample.now_ms,
        forall|j: int, k: int|
            0 <= j <= k < turns.len() && k <= count ==> turns[j].sample.now_ms
                <= turns[k].sample.now_ms,
    ensures
        watch_after_turns(start, turns.take(count)).last_hwnd == start.last_hwnd,
        watch_after_turns(start, turns.take(count)).last_emit_ms == start.last_emit_ms,
    decreases count,
{
    if count > 0 {
        let before = turns.take(count - 1);
        assert(turns.take(count).drop_last() =~= before);
        assert(turns.take(count).last() == turns[count - 1]);
        assert(turns[count - 1].sample.now_ms - start.last_emit_ms < MEMORY_MS)
            by {
            if count < turns.len() {
                assert(turns[count - 1].sample.now_ms <= turns[count].sample.now_ms);
            }
        }
        lemma_quiet_turns_remember(start, turns, count - 1);
        assert(!turn_emits(start, turns, count - 1));
    } else {
        assert(turns.take(0) =~= Seq::<Turn>::empty());
    }
}

} // verus!
