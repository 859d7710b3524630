//! The animation-state machine: logical animation states, facing directions,
//! the per-(state, direction) frame tables, and the frame-advance step that
//! runs for every actor each tick.

use vstd::prelude::*;

verus! {

/// Logical animation state of an actor. `Dead` is terminal for the
/// state machine itself: frame advance holds the last frame and never
/// leaves `Dead`; only an external respawn resets it.
#[derive(Clone, Copy, Debug, PartialEq, Eq, Structural)]
pub enum AnimState {
    Idle,
    IdleInjured,
    Walk,
    Run,
    Attack,
    AttackInjured,
    Dead,
}

impl Default for AnimState {
    fn default() -> (s: AnimState)
        ensures
            s == AnimState::Idle,
    {
        AnimState::Idle
    }
}

/// One of the four cardinal facing directions.
#[derive(Clone, Copy, Debug, PartialEq, Eq, Structural)]
pub enum MoveDir {
    Up,
    Left,
    Down,
    Right,
}

impl Default for MoveDir {
    fn default() -> (d: MoveDir)
        ensures
            d == MoveDir::Right,
    {
        MoveDir::Right
    }
}

/// Index of the current frame within the active frame sequence.
#[derive(Clone, Copy, Debug, PartialEq, Eq, Structural)]
pub struct AnimFrame(pub usize);

/// The frame sequence for one (state, direction) pair: sprite-sheet cell
/// indices in playback order, flip flags, and whether playback loops.
#[derive(Clone, Debug)]
pub struct AnimationDirection {
    pub frames: Vec<usize>,
    pub flip_x: bool,
    pub flip_y: bool,
    pub looping: bool,
}

impl AnimationDirection {
    pub open spec fn wf(self) -> bool {
        self.frames@.len() >= 1
    }
}

pub open spec fn spec_state_index(s: AnimState) -> int {
    match s {
        AnimState::Idle => 0,
        AnimState::IdleInjured => 1,
        AnimState::Walk => 2,
        AnimState::Run => 3,
        AnimState::Attack => 4,
        AnimState::AttackInjured => 5,
        AnimState::Dead => 6,
    }
}

pub open spec fn spec_dir_index(d: MoveDir) -> int {
    match d {
        MoveDir::Up => 0,
        MoveDir::Left => 1,
        MoveDir::Down => 2,
        MoveDir::Right => 3,
    }
}

pub const STATE_COUNT: usize = 7;

pub const DIR_COUNT: usize = 4;

fn state_index(s: AnimState) -> (i: usize)
    ensures
        i == spec_state_index(s),
        i < STATE_COUNT,
{
    match s {
        AnimState::Idle => 0,
        AnimState::IdleInjured => 1,
        AnimState::Walk => 2,
        AnimState::Run => 3,
        AnimState::Attack => 4,
        AnimState::AttackInjured => 5,
        AnimState::Dead => 6,
    }
}

fn dir_index(d: MoveDir) -> (i: usize)
    ensures
        i == spec_dir_index(d),
        i < DIR_COUNT,
{
    match d {
        MoveDir::Up => 0,
        MoveDir::Left => 1,
        MoveDir::Down => 2,
        MoveDir::Right => 3,
    }
}

/// The read-only animation lookup table of one actor type, built once at
/// setup. Rows are indexed by animation state (sheet handle index and frame
/// timer duration per state) and by (state, direction) for the frame
/// sequences. A pair with no entry is a fatal configuration error; lookups
/// surface it as `None` so that setup-time tests can catch it.
#[derive(Clone, Debug)]
pub struct AnimationIndices {
    pub sheet_index: Vec<usize>,
    pub timer_duration: Vec<u32>,
    pub animations: Vec<Option<AnimationDirection>>,
}

impl AnimationIndices {
    pub open spec fn wf(self) -> bool {
        &&& self.sheet_index@.len() == STATE_COUNT
        &&& self.timer_duration@.len() == STATE_COUNT
        &&& self.animations@.len() == STATE_COUNT * DIR_COUNT
        &&& forall|i: int|
            0 <= i < STATE_COUNT ==> #[trigger] self.timer_duration@[i] >= 1
        &&& forall|i: int|
            0 <= i < STATE_COUNT * DIR_COUNT ==> (#[trigger] self.animations@[i] matches Some(a)
                ==> a.wf())
    }

    /// The table entry for a (state, direction) pair, if it was configured.
    pub open spec fn spec_anim(self, s: AnimState, d: MoveDir) -> Option<AnimationDirection> {
        self.animations@[spec_state_index(s) * (DIR_COUNT as int) + spec_dir_index(d)]
    }

    pub fn empty() -> (t: AnimationIndices)
        ensures
            t.wf(),
            forall|k: int|
                0 <= k < STATE_COUNT * DIR_COUNT ==> (#[trigger] t.animations@[k]) is None,
    {
        let mut sheet_index: Vec<usize> = Vec::new();
        let mut timer_duration: Vec<u32> = Vec::new();
        let mut animations: Vec<Option<AnimationDirection>> = Vec::new();
        let mut i: usize = 0;
        while i < STATE_COUNT
            invariant
                i <= STATE_COUNT,
                sheet_index@.len() == i,
                timer_duration@.len() == i,
                forall|j: int| 0 <= j < i ==> #[trigger] timer_duration@[j] >= 1,
            decreases STATE_COUNT - i,
        {
            sheet_index.push(0);
            timer_duration.push(1);
            i = i + 1;
        }
        let mut j: usize = 0;
        while j < STATE_COUNT * DIR_COUNT
            invariant
                j <= STATE_COUNT * DIR_COUNT,
                animations@.len() == j,
                forall|k: int| 0 <= k < j ==> #[trigger] animations@[k] is None,
            decreases STATE_COUNT * DIR_COUNT - j,
        {
            animations.push(None);
            j = j + 1;
        }
        AnimationIndices { sheet_index, timer_duration, animations }
    }

    /// Set the sheet handle index and frame timer duration for a state.
    pub fn set_state_row(&mut self, s: AnimState, sheet: usize, duration_ms: u32)
        requires
            old(self).wf(),
            duration_ms >= 1,
        ensures
            final(self).wf(),
            final(self).sheet_index@ == old(self).sheet_index@.update(
                spec_state_index(s),
                sheet,
            ),
            final(self).timer_duration@ == old(self).timer_duration@.update(
                spec_state_index(s),
                duration_ms,
            ),
            final(self).animations == old(self).animations,
    {
        let i: usize = state_index(s);
        self.sheet_index.set(i, sheet);
        self.timer_duration.set(i, duration_ms);
    }

    /// Install the frame sequence for one (state, direction) pair.
    pub fn set_anim(&mut self, s: AnimState, d: MoveDir, a: AnimationDirection)
        requires
            old(self).wf(),
            a.wf(),
        ensures
            final(self).wf(),
            final(self).animations@ == old(self).animations@.update(
                spec_state_index(s) * (DIR_COUNT as int) + spec_dir_index(d),
                Some(a),
            ),
            final(self).sheet_index == old(self).sheet_index,
            final(self).timer_duration == old(self).timer_duration,
    {
        let i: usize = state_index(s) * DIR_COUNT + dir_index(d);
        assert(i < STATE_COUNT * DIR_COUNT);
        self.animations.set(i, Some(a));
    }

    /// Look the (state, direction) pair up in the table.
    pub fn get_anim(&self, s: AnimState, d: MoveDir) -> (r: Option<&AnimationDirection>)
        requires
            self.wf(),
        ensures
            match r {
                Some(a) => self.spec_anim(s, d) == Some(*a),
                None => self.spec_anim(s, d) is None,
            },
    {
        let i: usize = state_index(s) * DIR_COUNT + dir_index(d);
        assert(i < STATE_COUNT * DIR_COUNT);
        match &self.animations[i] {
            Some(a) => Some(a),
            None => None,
        }
    }

    pub fn get_sheet(&self, s: AnimState) -> (r: usize)
        requires
            self.wf(),
        ensures
            r == self.sheet_index@[spec_state_index(s)],
    {
        let i: usize = state_index(s);
        self.sheet_index[i]
    }

    pub fn get_duration(&self, s: AnimState) -> (r: u32)
        requires
            self.wf(),
        ensures
            r == self.timer_duration@[spec_state_index(s)],
            r >= 1,
    {
        let i: usize = state_index(s);
        self.timer_duration[i]
    }
}

/// What the frame-advance step decides: the next frame index and the next
/// animation state.
pub open spec fn spec_next_frame(
    looping: bool,
    len: int,
    frame: int,
    state: AnimState,
    injured: bool,
) -> (int, AnimState) {
    if looping {
        ((frame + 1) % len, state)
    } else if frame + 1 < len {
        (frame + 1, state)
    } else if state is Dead {
        (len - 1, AnimState::Dead)
    } else if injured {
        (0, AnimState::IdleInjured)
    } else {
        (0, AnimState::Idle)
    }
}

/// One frame-advance decision for an actor whose frame timer has elapsed.
///
/// Looping sequences wrap. A non-looping sequence advances until its last
/// frame; when the last frame has been played out, a `Dead` actor holds that
/// frame forever, and any other actor falls back to `Idle`, or `IdleInjured`
/// when its health is below its maximum, at frame 0. That fallback is the only
/// transition the animation machine makes on its own.
pub fn next_frame(looping: bool, len: usize, frame: usize, state: AnimState, injured: bool) -> (r:
    (usize, AnimState))
    requires
        len >= 1,
        frame < usize::MAX,
    ensures
        (r.0 as int, r.1) == spec_next_frame(looping, len as int, frame as int, state, injured),
        r.0 < len,
{
    if looping {
        ((frame + 1) % len, state)
    } else if frame + 1 < len {
        (frame + 1, state)
    } else if matches!(state, AnimState::Dead) {
        (len - 1, AnimState::Dead)
    } else if injured {
        (0, AnimState::IdleInjured)
    } else {
        (0, AnimState::Idle)
    }
}

/// Once a non-looping sequence has reached its last frame and the actor is
/// not `Dead`, the next observed state is exactly `Idle` or `IdleInjured`,
/// chosen by comparing health to max health at that instant, restarting at
/// frame 0.
pub proof fn lemma_nonlooping_fallback(len: int, frame: int, state: AnimState, injured: bool)
    requires
        len >= 1,
        frame == len - 1,
        !(state is Dead),
    ensures
        spec_next_frame(false, len, frame, state, injured) == (
            0int,
            if injured {
                AnimState::IdleInjured
            } else {
                AnimState::Idle
            },
        ),
{
}

/// A `Dead` actor whose non-looping death sequence has run out holds the
/// last frame and stays `Dead`.
pub proof fn lemma_dead_holds_last_frame(len: int, frame: int, injured: bool)
    requires
        len >= 1,
        frame == len - 1,
    ensures
        spec_next_frame(false, len, frame, AnimState::Dead, injured) == (
            len - 1,
            AnimState::Dead,
        ),
{
}

/// One pinned row of an animation table: the pair is configured with
/// exactly these frames, flip flags and playback policy (sheets are never
/// flipped vertically).
pub open spec fn spec_row(
    a: Option<AnimationDirection>,
    frames: Seq<usize>,
    flip_x: bool,
    looping: bool,
) -> bool {
    a matches Some(r) && r.frames@ == frames && r.flip_x == flip_x && !r.flip_y && r.looping
        == looping
}

/// How many sprite sheets the game uses: the warrior idle, walk/run,
/// sword-attack and death sheets, and the alien sheet.
pub const SHEET_COUNT: usize = 5;

/// The grid geometry of one sprite sheet, for the host that cuts the
/// loaded textures into cells: tile width and height in pixels, then the
/// number of columns and of rows.
pub fn sheet_layout(sheet: usize) -> (r: (u32, u32, u32, u32))
    requires
        sheet < SHEET_COUNT,
    ensures
        sheet == 0 ==> r == (80u32, 80u32, 10u32, 8u32),
        sheet == 1 ==> r == (80u32, 80u32, 12u32, 4u32),
        sheet == 2 ==> r == (80u32, 80u32, 10u32, 5u32),
        sheet == 3 ==> r == (80u32, 80u32, 4u32, 2u32),
        sheet == 4 ==> r == (128u32, 64u32, 5u32, 5u32),
{
    match sheet {
        0 => (80, 80, 10, 8),
        1 => (80, 80, 12, 4),
        2 => (80, 80, 10, 5),
        3 => (80, 80, 4, 2),
        _ => (128, 64, 5, 5),
    }
}

/// What the renderer is to show after a frame advance: which sprite sheet,
/// which cell of it, and the flip flags.
#[derive(Clone, Copy, Debug, PartialEq, Eq, Structural)]
pub struct SpriteOutput {
    pub sheet: usize,
    pub cell: usize,
    pub flip_x: bool,
    pub flip_y: bool,
}

} // verus!
