//! Where the moving parts of a switch on the settings page are headed, and how long they take.
use vstd::prelude::*;

verus! {

/// How far the thumb of a switch travels, in steps.
pub const THUMB_TRAVEL: u8 = 24;

/// How far the thumb of a switch that is on stands while it is held down: the stretched
/// thumb would leave its track otherwise.
pub const THUMB_HELD: u8 = 16;

/// Where the four motions of a switch are headed: the thumb along its track, and whether
/// it is stretched, colored and lit.
#[derive(Clone, Copy, Debug, PartialEq, Eq, Structural)]
pub struct ToggleGoal {
    pub thumb: u8,
    pub stretched: bool,
    pub colored: bool,
    pub lit: bool,
}

/// Where a switch is headed.
pub open spec fn toggle_goal(on: bool, pressed: bool, hovered: bool) -> ToggleGoal {
    ToggleGoal {
        thumb: if !on {
            0
        } else if pressed {
            THUMB_HELD
        } else {
            THUMB_TRAVEL
        },
        stretched: pressed,
        colored: on,
        lit: hovered,
    }
}

/// Where a switch is headed.
pub fn toggle_goal_for(on: bool, pressed: bool, hovered: bool) -> (g: ToggleGoal)
    ensures
        g == toggle_goal(on, pressed, hovered),
{
    ToggleGoal {
        thumb: if !on {
            0
        } else if pressed {
            THUMB_HELD
        } else {
            THUMB_TRAVEL
        },
        stretched: pressed,
        colored: on,
        lit: hovered,
    }
}

/// Holding a switch down changes the form of its thumb only: neither its color nor the
/// side that it stands on.
pub proof fn holding_keeps_the_state(on: bool, hovered: bool)
    ensures
        toggle_goal(on, true, hovered).colored == toggle_goal(on, false, hovered).colored,
        toggle_goal(on, true, hovered).thumb > 0 <==> on,
        toggle_goal(on, false, hovered).thumb > 0 <==> on,
        2 * toggle_goal(on, true, hovered).thumb > THUMB_TRAVEL <==> on,
{
}

/// Times of the four motions of a switch, in milliseconds.
pub const THUMB_MS: u64 = 400;

pub const STRETCH_MS: u64 = 250;

pub const COLOR_MS: u64 = 300;

pub const LIGHT_MS: u64 = 300;

/// The motions of a switch that start anew, with the time that each takes.
#[derive(Clone, Copy, Debug, PartialEq, Eq, Structural)]
pub struct ToggleStart {
    pub thumb: Option<u64>,
    pub stretch: Option<u64>,
    pub color: Option<u64>,
    pub light: Option<u64>,
}

/// A motion that lasts `ms` where it is headed elsewhere, and none that runs on otherwise.
pub open spec fn started(elsewhere: bool, ms: u64) -> Option<u64> {
    if elsewhere {
        Some(ms)
    } else {
        None
    }
}

/// What starts anew when a switch that was headed for `from` is headed for `to`: each of
/// its motions only where it is headed elsewhere than before.
pub fn toggle_step(from: ToggleGoal, to: ToggleGoal) -> (s: ToggleStart)
    ensures
        s == (ToggleStart {
            thumb: started(from.thumb != to.thumb, THUMB_MS),
            stretch: started(from.stretched != to.stretched, STRETCH_MS),
            color: started(from.colored != to.colored, COLOR_MS),
            light: started(from.lit != to.lit, LIGHT_MS),
        }),
{
    ToggleStart {
        thumb: if from.thumb != to.thumb {
            Some(THUMB_MS)
        } else {
            None
        },
        stretch: if from.stretched != to.stretched {
            Some(STRETCH_MS)
        } else {
            None
        },
        color: if from.colored != to.colored {
            Some(COLOR_MS)
        } else {
            None
        },
        light: if from.lit != to.lit {
            Some(LIGHT_MS)
        } else {
            None
        },
    }
}

/// Where every switch of the page is headed. `pressed` and `hovered` are the places of the
/// switches that are held down and under the pointer.
pub fn settings_toggle_goals(
    targets: &Vec<bool>,
    pressed: Option<usize>,
    hovered: Option<usize>,
) -> (goals: Vec<ToggleGoal>)
    ensures
        goals@.len() == targets@.len(),
        forall|i: int|
            0 <= i < targets@.len() ==> #[trigger] goals@[i] == toggle_goal(
                targets@[i],
                pressed == Some(i as usize),
                hovered == Some(i as usize),
            ),
{
    let mut goals: Vec<ToggleGoal> = Vec::new();
    let mut i: usize = 0;
    while i < targets.len()
        invariant
            i <= targets@.len(),
            goals@.len() == i,
            forall|k: int|
                0 <= k < i ==> #[trigger] goals@[k] == toggle_goal(
                    targets@[k],
                    pressed == Some(k as usize),
                    hovered == Some(k as usize),
                ),
        decreases targets@.len() - i,
    {
        let held: bool = match pressed {
            Some(k) => k == i,
            None => false,
        };
        let lit: bool = match hovered {
            Some(k) => k == i,
            None => false,
        };
        goals.push(toggle_goal_for(targets[i], held, lit));
        i += 1;
    }
    goals
}

/// A switch that is off has its thumb at the left end and one that is on at the right end,
/// eight short of it while it is held. Only holding stretches it, only its state colors it
/// and only the pointer lights it.
pub proof fn switch_shows_its_state(on: bool, pressed: bool, hovered: bool)
    ensures
        ({
            let g = toggle_goal(on, pressed, hovered);
            &&& g.thumb == 0 <==> !on
            &&& on && !pressed ==> g.thumb == 24
            &&& on && pressed ==> g.thumb == 24 - 8
            &&& g.stretched <==> pressed
            &&& g.colored <==> on
            &&& g.lit <==> hovered
        }),
        forall|ms: u64| #[trigger] started(true, ms) == Some(ms) && started(false, ms) is None,
{
}

/// Each motion of a switch starts exactly where its goal changed, and takes its own time.
pub proof fn changed_goals_start_motions(from: ToggleGoal, to: ToggleGoal, s: ToggleStart)
    requires
        call_ensures(toggle_step, (from, to), s),
    ensures
        s.thumb is Some <==> from.thumb != to.thumb,
        s.stretch is Some <==> from.stretched != to.stretched,
        s.color is Some <==> from.colored != to.colored,
        s.light is Some <==> from.lit != to.lit,
        s.thumb matches Some(ms) ==> ms == 400,
        s.stretch matches Some(ms) ==> ms == 250,
        s.color matches Some(ms) ==> ms == 300,
        s.light matches Some(ms) ==> ms == 300,
{
}

/// Every switch of the page has its own goal: its state, and whether it is the one that is
/// held or pointed at.
pub proof fn switches_have_their_own_goals(
    targets: Vec<bool>,
    pressed: Option<usize>,
    hovered: Option<usize>,
    goals: Vec<ToggleGoal>,
    i: usize,
)
    requires
        call_ensures(settings_toggle_goals, (&targets, pressed, hovered), goals),
        i < targets@.len(),
    ensures
        goals@.len() == targets@.len(),
        goals@[i as int].colored == targets@[i as int],
        goals@[i as int].thumb > 0 <==> targets@[i as int],
        goals@[i as int].stretched <==> pressed == Some(i),
        goals@[i as int].lit <==> hovered == Some(i),
{
}

} // verus!
