//! The robot's state machine: position, facing and placement state on a
//! bounded grid, and the rules for applying movement deltas under the
//! grid-boundary checks.

use vstd::prelude::*;

use crate::input_utils::{Arg, Instruction, InstructionType, ParseError, spec_delta, spec_parse};

verus! {

/// One of the four compass directions the robot can face.
///
/// Each direction corresponds to a fixed angle in degrees (`NORTH` = 0,
/// `EAST` = 90, `SOUTH` = 180, `WEST` = 270) and to a unit position delta.
#[allow(non_camel_case_types)]
#[derive(Clone, Copy, PartialEq, Eq, Structural, Debug)]
pub enum Direction {
    NORTH,
    EAST,
    SOUTH,
    WEST,
}

/// A 2D integer vector: either a grid cell or a position delta.
#[derive(Clone, Copy, PartialEq, Eq, Structural, Debug)]
pub struct PosVector {
    pub x: i8,
    pub y: i8,
}

impl PosVector {
    /// The origin / zero delta.
    pub fn new() -> (p: Self)
        ensures
            p == (PosVector { x: 0, y: 0 }),
    {
        PosVector { x: 0, y: 0 }
    }
}

/// Where the robot is and which way it faces.
#[derive(Clone, Copy, PartialEq, Eq, Structural, Debug)]
pub struct Orientation {
    pub position: PosVector,
    pub direction: Direction,
}

impl Orientation {
    /// The default pose: the origin, facing `NORTH`.  Only meaningful once
    /// the robot has been placed.
    pub fn new() -> (o: Self)
        ensures
            o == (Orientation { position: PosVector { x: 0, y: 0 }, direction: Direction::NORTH }),
    {
        Orientation { position: PosVector { x: 0, y: 0 }, direction: Direction::NORTH }
    }
}

/// The change a single instruction asks for: a position delta and an angle
/// delta in degrees.  For any one instruction at most one of the two fields
/// is non-zero.
#[derive(Clone, Copy, PartialEq, Eq, Structural, Debug)]
pub struct Movement {
    pub delta_pos: PosVector,
    pub delta_angle: i16,
}

/// The all-zero movement: no position change, no rotation.
pub open spec fn zero_movement() -> Movement {
    Movement { delta_pos: PosVector { x: 0, y: 0 }, delta_angle: 0 }
}

impl Movement {
    /// The all-zero movement.
    pub fn new() -> (m: Self)
        ensures
            m == zero_movement(),
    {
        Movement { delta_pos: PosVector { x: 0, y: 0 }, delta_angle: 0 }
    }
}

impl Direction {
    /// The fixed angle of this direction, in degrees.
    pub open spec fn spec_angle(self) -> int {
        match self {
            Direction::NORTH => 0,
            Direction::EAST => 90,
            Direction::SOUTH => 180,
            Direction::WEST => 270,
        }
    }

    /// The fixed angle of this direction, in degrees.
    pub fn angle_degrees(self) -> (a: u16)
        ensures
            a == self.spec_angle(),
    {
        match self {
            Direction::NORTH => 0,
            Direction::EAST => 90,
            Direction::SOUTH => 180,
            Direction::WEST => 270,
        }
    }

    /// The direction whose angle is `a` degrees, if `a` is one of the four
    /// canonical angles.
    pub open spec fn spec_from_angle(a: int) -> Option<Direction> {
        if a == 0 {
            Some(Direction::NORTH)
        } else if a == 90 {
            Some(Direction::EAST)
        } else if a == 180 {
            Some(Direction::SOUTH)
        } else if a == 270 {
            Some(Direction::WEST)
        } else {
            None
        }
    }

    /// The direction whose angle is `a` degrees, if `a` is one of the four
    /// canonical angles.
    pub fn from_angle(a: u16) -> (d: Option<Direction>)
        ensures
            d == Direction::spec_from_angle(a as int),
    {
        if a == 0 {
            Some(Direction::NORTH)
        } else if a == 90 {
            Some(Direction::EAST)
        } else if a == 180 {
            Some(Direction::SOUTH)
        } else if a == 270 {
            Some(Direction::WEST)
        } else {
            None
        }
    }

    /// The unit position delta of one step in this direction:
    /// `NORTH` is (0,1), `EAST` is (1,0), `SOUTH` is (0,-1), `WEST` is (-1,0).
    pub open spec fn spec_unit_delta(self) -> PosVector {
        match self {
            Direction::NORTH => PosVector { x: 0, y: 1 },
            Direction::EAST => PosVector { x: 1, y: 0 },
            Direction::SOUTH => PosVector { x: 0, y: -1i8 },
            Direction::WEST => PosVector { x: -1i8, y: 0 },
        }
    }

    /// The direction reached from `self` after turning by `delta` degrees
    /// (`delta` non-negative, taken modulo 360).  For deltas that land on a
    /// canonical angle this is the matching direction; any other delta
    /// leaves the direction unchanged.
    pub open spec fn spec_rotated(self, delta: int) -> Direction {
        match Direction::spec_from_angle((self.spec_angle() + delta) % 360) {
            Some(d) => d,
            None => self,
        }
    }

    /// The canonical name of this direction, as it appears in `PLACE`
    /// arguments and in formatted `REPORT` output.
    pub fn name(self) -> (s: &'static str)
        ensures
            self == Direction::NORTH ==> s@ == "NORTH"@,
            self == Direction::EAST ==> s@ == "EAST"@,
            self == Direction::SOUTH ==> s@ == "SOUTH"@,
            self == Direction::WEST ==> s@ == "WEST"@,
    {
        match self {
            Direction::NORTH => "NORTH",
            Direction::EAST => "EAST",
            Direction::SOUTH => "SOUTH",
            Direction::WEST => "WEST",
        }
    }
}

/// The inclusive rectangle of valid grid cells, configurable per robot.
#[derive(Clone, Copy, PartialEq, Eq, Structural, Debug)]
pub struct GridBounds {
    pub min_x: i8,
    pub max_x: i8,
    pub min_y: i8,
    pub max_y: i8,
}

impl GridBounds {
    /// A bounds rectangle is well-formed when it holds at least one cell.
    pub open spec fn wf(self) -> bool {
        self.min_x <= self.max_x && self.min_y <= self.max_y
    }

    /// Whether the cell `(x, y)` lies inside these bounds.
    pub open spec fn contains(self, x: int, y: int) -> bool {
        self.min_x <= x <= self.max_x && self.min_y <= y <= self.max_y
    }

    /// The bounds rectangle spanning `min_x..=max_x` by `min_y..=max_y`.
    pub fn new(min_x: i8, max_x: i8, min_y: i8, max_y: i8) -> (b: Self)
        ensures
            b == (GridBounds { min_x, max_x, min_y, max_y }),
    {
        GridBounds { min_x, max_x, min_y, max_y }
    }

    /// Boundary check on widened coordinates, so that a candidate cell one
    /// step outside the `i8` range is still compared exactly.
    pub fn contains_wide(&self, x: i16, y: i16) -> (r: bool)
        ensures
            r == self.contains(x as int, y as int),
    {
        self.min_x as i16 <= x && x <= self.max_x as i16 && self.min_y as i16 <= y && y
            <= self.max_y as i16
    }
}

/// The default grid: the classic 5-by-5 table, cells (0,0) through (4,4).
pub open spec fn default_bounds() -> GridBounds {
    GridBounds { min_x: 0, max_x: 4, min_y: 0, max_y: 4 }
}

/// The robot state machine: its pose, whether it has been placed yet, and
/// the grid it is confined to.
#[derive(Clone, Copy, PartialEq, Eq, Structural, Debug)]
pub struct ToyRobot {
    pub orientation: Orientation,
    pub placed: bool,
    pub bounds: GridBounds,
}

/// The state after `PLACE x,y,facing`: if `(x, y)` is on the grid the robot
/// is (re)placed there facing `facing`; otherwise the command is ignored.
pub open spec fn spec_place(s: ToyRobot, x: i8, y: i8, facing: Direction) -> ToyRobot {
    if s.bounds.contains(x as int, y as int) {
        ToyRobot {
            orientation: Orientation { position: PosVector { x, y }, direction: facing },
            placed: true,
            bounds: s.bounds,
        }
    } else {
        s
    }
}

/// The state after applying movement `m` to a placed robot: the position
/// delta is committed only if the candidate cell stays on the grid
/// (boundary rejection), and the angle delta always turns the robot.
pub open spec fn spec_apply(s: ToyRobot, m: Movement) -> ToyRobot {
    let tx = s.orientation.position.x + m.delta_pos.x;
    let ty = s.orientation.position.y + m.delta_pos.y;
    let new_position = if s.bounds.contains(tx, ty) {
        PosVector { x: tx as i8, y: ty as i8 }
    } else {
        s.orientation.position
    };
    ToyRobot {
        orientation: Orientation {
            position: new_position,
            direction: s.orientation.direction.spec_rotated(m.delta_angle as int),
        },
        placed: s.placed,
        bounds: s.bounds,
    }
}

/// The `PLACE` payload carried by a well-formed argument list: exactly two
/// coordinates followed by a direction.  Any other shape carries nothing.
pub open spec fn place_args(args: Seq<Arg>) -> Option<(i8, i8, Direction)> {
    if args.len() == 3 {
        match (args[0], args[1], args[2]) {
            (Arg::Coordinate(x), Arg::Coordinate(y), Arg::Facing(facing)) => Some((x, y, facing)),
            _ => None,
        }
    } else {
        None
    }
}

/// The state machine's transition function: the state after one instruction
/// of kind `kind` with arguments `args`.
///
/// `PLACE` goes through [`spec_place`]; `MOVE`, `LEFT` and `RIGHT` are
/// no-ops while unplaced and otherwise apply the delta of [`spec_delta`]
/// through [`spec_apply`]; `REPORT`, a missing kind, and a `PLACE` whose
/// argument list is not two coordinates and a direction leave the state
/// unchanged.
pub open spec fn spec_step(s: ToyRobot, kind: Option<InstructionType>, args: Seq<Arg>) -> ToyRobot {
    match kind {
        Some(InstructionType::PLACE) => match place_args(args) {
            Some((x, y, facing)) => spec_place(s, x, y, facing),
            None => s,
        },
        Some(InstructionType::MOVE) | Some(InstructionType::LEFT) | Some(InstructionType::RIGHT) => if s.placed {
            spec_apply(s, spec_delta(kind, s.orientation.direction))
        } else {
            s
        },
        Some(InstructionType::REPORT) => s,
        None => s,
    }
}

/// What a `REPORT` observes: the robot's `(x, y, facing)` triple once
/// placed, and nothing while unplaced.
pub open spec fn spec_report(s: ToyRobot) -> Option<(i8, i8, Direction)> {
    if s.placed {
        Some((s.orientation.position.x, s.orientation.position.y, s.orientation.direction))
    } else {
        None
    }
}

/// What executing one instruction outputs: only `REPORT` produces
/// anything, namely [`spec_report`] of the state it runs in.
pub open spec fn spec_output(s: ToyRobot, kind: Option<InstructionType>) -> Option<
    (i8, i8, Direction),
> {
    if kind == Some(InstructionType::REPORT) {
        spec_report(s)
    } else {
        None
    }
}

impl ToyRobot {
    /// The state machine's invariant: the grid is well-formed, and whenever
    /// the robot is placed its position lies on the grid.
    pub open spec fn wf(self) -> bool {
        self.bounds.wf() && (self.placed ==> self.bounds.contains(
            self.orientation.position.x as int,
            self.orientation.position.y as int,
        ))
    }

    /// A fresh, unplaced robot on the default 5-by-5 grid.
    pub fn new() -> (r: Self)
        ensures
            r.wf(),
            !r.placed,
            r.bounds == default_bounds(),
            r.orientation == (Orientation {
                position: PosVector { x: 0, y: 0 },
                direction: Direction::NORTH,
            }),
    {
        ToyRobot {
            orientation: Orientation::new(),
            placed: false,
            bounds: GridBounds { min_x: 0, max_x: 4, min_y: 0, max_y: 4 },
        }
    }

    /// A fresh, unplaced robot confined to `bounds`.
    pub fn with_bounds(bounds: GridBounds) -> (r: Self)
        requires
            bounds.wf(),
        ensures
            r.wf(),
            !r.placed,
            r.bounds == bounds,
            r.orientation == (Orientation {
                position: PosVector { x: 0, y: 0 },
                direction: Direction::NORTH,
            }),
    {
        ToyRobot { orientation: Orientation::new(), placed: false, bounds }
    }

    /// Apply `PLACE x,y,facing`: commit the new pose if `(x, y)` is on the
    /// grid, otherwise ignore the command.
    pub fn place(&mut self, x: i8, y: i8, facing: Direction)
        requires
            old(self).wf(),
        ensures
            final(self).wf(),
            *final(self) == spec_place(*old(self), x, y, facing),
    {
        if self.bounds.contains_wide(x as i16, y as i16) {
            self.orientation = Orientation { position: PosVector { x, y }, direction: facing };
            self.placed = true;
        }
    }

    /// The robot's `(x, y, facing)` triple, or `None` while unplaced.
    pub fn report(&self) -> (r: Option<(i8, i8, Direction)>)
        ensures
            r == spec_report(*self),
    {
        if self.placed {
            Some((self.orientation.position.x, self.orientation.position.y, self.orientation.direction))
        } else {
            None
        }
    }

    /// Apply a movement delta to a placed robot, under boundary rejection.
    fn apply(&mut self, m: Movement)
        requires
            old(self).wf(),
            old(self).placed,
            -1 <= m.delta_pos.x <= 1,
            -1 <= m.delta_pos.y <= 1,
            m.delta_angle == 0 || m.delta_angle == 90 || m.delta_angle == 270,
        ensures
            final(self).wf(),
            *final(self) == spec_apply(*old(self), m),
    {
        let tx: i16 = self.orientation.position.x as i16 + m.delta_pos.x as i16;
        let ty: i16 = self.orientation.position.y as i16 + m.delta_pos.y as i16;
        if self.bounds.contains_wide(tx, ty) {
            self.orientation.position = PosVector { x: tx as i8, y: ty as i8 };
        }
        let angle: u16 = (self.orientation.direction.angle_degrees() + m.delta_angle as u16) % 360;
        match Direction::from_angle(angle) {
            Some(d) => {
                self.orientation.direction = d;
            },
            None => {},
        }
    }

    /// Run one typed instruction: transition as [`spec_step`] says and
    /// return what `REPORT` observes (see [`spec_output`]).
    pub fn execute(&mut self, instruction: Instruction) -> (output: Option<(i8, i8, Direction)>)
        requires
            old(self).wf(),
        ensures
            final(self).wf(),
            *final(self) == spec_step(*old(self), instruction.instruction_type, instruction.args@),
            output == spec_output(*old(self), instruction.instruction_type),
    {
        match instruction.instruction_type {
            Some(InstructionType::PLACE) => {
                if instruction.args.len() == 3 {
                    let a0 = instruction.args[0];
                    let a1 = instruction.args[1];
                    let a2 = instruction.args[2];
                    match (a0, a1, a2) {
                        (Arg::Coordinate(x), Arg::Coordinate(y), Arg::Facing(facing)) => {
                            self.place(x, y, facing);
                        },
                        _ => {},
                    }
                }
                None
            },
            Some(InstructionType::MOVE) | Some(InstructionType::LEFT) | Some(InstructionType::RIGHT) => {
                if self.placed {
                    let m = instruction.to_delta(&self.orientation);
                    self.apply(m);
                }
                None
            },
            Some(InstructionType::REPORT) => self.report(),
            None => None,
        }
    }

    /// Process one raw input line: parse it and, when it parses, run it.
    ///
    /// A line that fails to parse is surfaced as the typed parse error and
    /// changes nothing: the robot's state after the call is exactly the
    /// state before it.  A line that parses transitions the state machine
    /// as [`spec_step`] says and returns what `REPORT` observed, if
    /// anything.  Never panics, whatever the line holds.
    pub fn process_line(&mut self, line: &str) -> (r: Result<
        Option<(i8, i8, Direction)>,
        ParseError,
    >)
        requires
            old(self).wf(),
        ensures
            final(self).wf(),
            match spec_parse(line@) {
                Ok(p) => *final(self) == spec_step(*old(self), Some(p.0), p.1) && r == Ok::<
                    _,
                    ParseError,
                >(spec_output(*old(self), Some(p.0))),
                Err(e) => *final(self) == *old(self) && r == Err::<
                    Option<(i8, i8, Direction)>,
                    ParseError,
                >(e),
            },
    {
        match Instruction::parse(line) {
            Ok(instruction) => Ok(self.execute(instruction)),
            Err(e) => Err(e),
        }
    }
}

/// The state after `n` consecutive `MOVE` instructions from `s`.
pub open spec fn spec_repeat_move(s: ToyRobot, n: nat) -> ToyRobot
    decreases n,
{
    if n == 0 {
        s
    } else {
        spec_step(spec_repeat_move(s, (n - 1) as nat), Some(InstructionType::MOVE), Seq::empty())
    }
}

/// Four `LEFT` turns are the identity: they return the robot to the exact
/// state it started in, whatever that state is — in particular, facing the
/// direction it started with.  The same holds for four `RIGHT` turns.
pub proof fn lemma_four_turns_identity(s: ToyRobot, kind: InstructionType)
    requires
        s.wf(),
        kind == InstructionType::LEFT || kind == InstructionType::RIGHT,
    ensures
        spec_step(
            spec_step(
                spec_step(spec_step(s, Some(kind), Seq::empty()), Some(kind), Seq::empty()),
                Some(kind),
                Seq::empty(),
            ),
            Some(kind),
            Seq::empty(),
        ) == s,
{
}

/// `LEFT` and `RIGHT` are inverse operations: one of each, in either
/// order, returns the robot to the exact state it started in.
pub proof fn lemma_left_right_inverse(s: ToyRobot)
    requires
        s.wf(),
    ensures
        spec_step(
            spec_step(s, Some(InstructionType::LEFT), Seq::empty()),
            Some(InstructionType::RIGHT),
            Seq::empty(),
        ) == s,
        spec_step(
            spec_step(s, Some(InstructionType::RIGHT), Seq::empty()),
            Some(InstructionType::LEFT),
            Seq::empty(),
        ) == s,
{
}

/// An accepted `MOVE` steps exactly one cell in the current facing —
/// `NORTH` to (x, y+1), `EAST` to (x+1, y), `SOUTH` to (x, y-1), `WEST` to
/// (x-1, y) — and leaves the facing (and everything else) unchanged.
pub proof fn lemma_move_one_cell(s: ToyRobot)
    requires
        s.wf(),
        s.placed,
        s.bounds.contains(
            s.orientation.position.x + s.orientation.direction.spec_unit_delta().x,
            s.orientation.position.y + s.orientation.direction.spec_unit_delta().y,
        ),
    ensures
        ({
            let t = spec_step(s, Some(InstructionType::MOVE), Seq::empty());
            &&& t.orientation.direction == s.orientation.direction
            &&& t.placed
            &&& t.bounds == s.bounds
            &&& s.orientation.direction == Direction::NORTH ==> t.orientation.position
                == (PosVector {
                x: s.orientation.position.x,
                y: (s.orientation.position.y + 1) as i8,
            })
            &&& s.orientation.direction == Direction::EAST ==> t.orientation.position
                == (PosVector {
                x: (s.orientation.position.x + 1) as i8,
                y: s.orientation.position.y,
            })
            &&& s.orientation.direction == Direction::SOUTH ==> t.orientation.position
                == (PosVector {
                x: s.orientation.position.x,
                y: (s.orientation.position.y - 1) as i8,
            })
            &&& s.orientation.direction == Direction::WEST ==> t.orientation.position
                == (PosVector {
                x: (s.orientation.position.x - 1) as i8,
                y: s.orientation.position.y,
            })
        }),
{
}

/// Boundary rejection is idempotent: a `MOVE` that would leave the grid
/// changes nothing, so any number of repeated `MOVE`s from a boundary cell
/// facing outward leaves the robot in the exact state it started in.
pub proof fn lemma_rejected_move_idempotent(s: ToyRobot, n: nat)
    requires
        s.wf(),
        s.placed,
        !s.bounds.contains(
            s.orientation.position.x + s.orientation.direction.spec_unit_delta().x,
            s.orientation.position.y + s.orientation.direction.spec_unit_delta().y,
        ),
    ensures
        spec_repeat_move(s, n) == s,
    decreases n,
{
    if n > 0 {
        lemma_rejected_move_idempotent(s, (n - 1) as nat);
    }
}

} // verus!
