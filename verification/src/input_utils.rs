//! Parsing of raw command lines into typed instructions, and the movement
//! calculator that turns an instruction into a position/angle delta.
//!
//! Grammar (keywords and direction names are case-sensitive):
//!
//! ```text
//! PLACE <x>,<y>,<DIRECTION>
//! MOVE
//! LEFT
//! RIGHT
//! REPORT
//! ```
//!
//! Tokens are separated by spaces, tabs or commas (so `PLACE 1 2 EAST` is
//! accepted as well); empty tokens between consecutive separators are
//! skipped.  Coordinates must fit in an `i8`; whether they lie on the grid
//! is checked later by the state machine, not by the parser.  For the four
//! argument-less keywords any extra token is rejected.

use vstd::prelude::*;

use crate::robot::{Direction, Movement, Orientation, PosVector, zero_movement};

verus! {

/// The keyword of one instruction.
#[allow(non_camel_case_types)]
#[derive(Clone, Copy, PartialEq, Eq, Structural, Debug)]
pub enum InstructionType {
    PLACE,
    MOVE,
    LEFT,
    RIGHT,
    REPORT,
}

/// One typed `PLACE` argument: either an integer coordinate or a direction
/// name.  The two payload shapes are distinct values and never compare
/// equal to each other.
#[derive(Clone, Copy, PartialEq, Eq, Structural, Debug)]
pub enum Arg {
    Coordinate(i8),
    Facing(Direction),
}

/// Why a line failed to parse.
#[derive(Clone, Copy, PartialEq, Eq, Structural, Debug)]
pub enum ParseError {
    /// The first token is not one of the five recognized keywords (or the
    /// line holds no token at all).
    UnknownInstruction,
    /// The keyword was recognized but its argument list is wrong: missing,
    /// extra, or malformed arguments.
    InvalidArgument,
}

/// The parsed form of one input line: an instruction kind (`None` for a
/// freshly built, empty instruction) plus its typed arguments.  Only
/// `PLACE` carries arguments: two coordinates followed by a direction.
#[derive(PartialEq, Eq, Debug)]
pub struct Instruction {
    pub instruction_type: Option<InstructionType>,
    pub args: Vec<Arg>,
}

/// The movement delta an instruction asks for, given the current facing:
/// `MOVE` is one step in the current direction, `LEFT`/`RIGHT` are quarter
/// turns (270 and 90 degrees), everything else is the zero movement.
pub open spec fn spec_delta(kind: Option<InstructionType>, direction: Direction) -> Movement {
    match kind {
        Some(InstructionType::MOVE) => Movement {
            delta_pos: direction.spec_unit_delta(),
            delta_angle: 0,
        },
        Some(InstructionType::LEFT) => Movement { delta_pos: PosVector { x: 0, y: 0 }, delta_angle: 270 },
        Some(InstructionType::RIGHT) => Movement { delta_pos: PosVector { x: 0, y: 0 }, delta_angle: 90 },
        _ => zero_movement(),
    }
}

impl Instruction {
    /// An empty instruction: no kind, no arguments.
    pub fn new() -> (r: Self)
        ensures
            r.instruction_type is None,
            r.args@ == Seq::<Arg>::empty(),
    {
        Instruction { instruction_type: None, args: Vec::new() }
    }

    /// The movement this instruction asks for, given the robot's current
    /// orientation (see [`spec_delta`]).
    pub fn to_delta(self, current_orientation: &Orientation) -> (m: Movement)
        ensures
            m == spec_delta(self.instruction_type, current_orientation.direction),
    {
        let mut movement = Movement::new();
        match self.instruction_type {
            Some(InstructionType::MOVE) => {
                movement.delta_pos = self.calculate_move_vector(&current_orientation.direction);
            },
            Some(InstructionType::LEFT) => {
                movement.delta_angle = 270;
            },
            Some(InstructionType::RIGHT) => {
                movement.delta_angle = 90;
            },
            _ => {},
        }
        movement
    }

    /// The unit step for `MOVE` while facing `current_direction`.
    pub fn calculate_move_vector(&self, current_direction: &Direction) -> (v: PosVector)
        ensures
            v == current_direction.spec_unit_delta(),
    {
        match current_direction {
            Direction::NORTH => PosVector { x: 0, y: 1 },
            Direction::EAST => PosVector { x: 1, y: 0 },
            Direction::SOUTH => PosVector { x: 0, y: -1 },
            Direction::WEST => PosVector { x: -1, y: 0 },
        }
    }
}

/// Whether `c` separates tokens: space, tab or comma.
pub open spec fn is_separator(c: char) -> bool {
    c == ' ' || c == '\t' || c == ','
}

/// The tokens of `s`: its maximal runs of non-separator characters, in
/// order.  Empty runs (consecutive separators) contribute nothing.
pub open spec fn spec_tokenize(s: Seq<char>) -> Seq<Seq<char>>
    decreases s.len(),
{
    if s.len() == 0 {
        Seq::empty()
    } else if is_separator(s[0]) {
        spec_tokenize(s.drop_first())
    } else {
        let rest = spec_tokenize(s.drop_first());
        if s.len() == 1 || is_separator(s[1]) {
            seq![seq![s[0]]] + rest
        } else {
            seq![seq![s[0]] + rest[0]] + rest.drop_first()
        }
    }
}

/// The views of a list of tokens.
pub open spec fn views_of(tokens: Seq<Vec<char>>) -> Seq<Seq<char>> {
    Seq::new(tokens.len(), |j: int| tokens[j]@)
}

/// The tokens still to be produced while scanning: `cur` is the (possibly
/// empty) partial token read so far and `t` the unscanned tail.  When `cur`
/// is non-empty and `t` continues the run, the two glue into one token.
spec fn pending_tokens(cur: Seq<char>, t: Seq<char>) -> Seq<Seq<char>> {
    if cur.len() == 0 {
        spec_tokenize(t)
    } else if t.len() == 0 || is_separator(t[0]) {
        seq![cur] + spec_tokenize(t)
    } else {
        let rest = spec_tokenize(t);
        seq![cur + rest[0]] + rest.drop_first()
    }
}

/// How [`pending_tokens`] evolves when one character is consumed.
proof fn lemma_pending_step(cur: Seq<char>, t: Seq<char>)
    requires
        t.len() > 0,
    ensures
        is_separator(t[0]) && cur.len() == 0 ==> pending_tokens(cur, t) == pending_tokens(
            cur,
            t.drop_first(),
        ),
        is_separator(t[0]) && cur.len() > 0 ==> pending_tokens(cur, t) == seq![cur]
            + pending_tokens(Seq::empty(), t.drop_first()),
        !is_separator(t[0]) ==> pending_tokens(cur, t) == pending_tokens(
            cur.push(t[0]),
            t.drop_first(),
        ),
{
    let t1 = t.drop_first();
    if is_separator(t[0]) {
        assert(spec_tokenize(t) == spec_tokenize(t1));
    } else {
        let rest = spec_tokenize(t1);
        if t.len() == 1 || is_separator(t[1]) {
            assert(t1.len() == 0 || is_separator(t1[0]));
            assert(spec_tokenize(t) == seq![seq![t[0]]] + rest);
            if cur.len() == 0 {
                assert(cur.push(t[0]) =~= seq![t[0]]);
                assert(pending_tokens(cur.push(t[0]), t1) == seq![cur.push(t[0])]
                    + spec_tokenize(t1));
                assert(pending_tokens(cur, t) =~= pending_tokens(cur.push(t[0]), t1));
            } else {
                assert(pending_tokens(cur, t) == seq![cur + spec_tokenize(t)[0]] + spec_tokenize(
                    t,
                ).drop_first());
                assert(spec_tokenize(t)[0] == seq![t[0]]);
                assert(spec_tokenize(t).drop_first() =~= rest);
                assert(cur + seq![t[0]] =~= cur.push(t[0]));
                assert(pending_tokens(cur.push(t[0]), t1) == seq![cur.push(t[0])] + rest);
                assert(pending_tokens(cur, t) =~= pending_tokens(cur.push(t[0]), t1));
            }
        } else {
            assert(t1.len() > 0 && !is_separator(t1[0]));
            assert(rest.len() > 0);
            assert(spec_tokenize(t) == seq![seq![t[0]] + rest[0]] + rest.drop_first());
            if cur.len() == 0 {
                assert(cur.push(t[0]) =~= seq![t[0]]);
                assert(pending_tokens(cur.push(t[0]), t1) == seq![cur.push(t[0]) + rest[0]]
                    + rest.drop_first());
                assert(cur.push(t[0]) + rest[0] =~= seq![t[0]] + rest[0]);
                assert(pending_tokens(cur, t) =~= pending_tokens(cur.push(t[0]), t1));
            } else {
                assert(spec_tokenize(t)[0] == seq![t[0]] + rest[0]);
                assert(spec_tokenize(t).drop_first() =~= rest.drop_first());
                assert(pending_tokens(cur, t) == seq![cur + (seq![t[0]] + rest[0])]
                    + rest.drop_first());
                assert(cur + (seq![t[0]] + rest[0]) =~= cur.push(t[0]) + rest[0]);
                assert(pending_tokens(cur.push(t[0]), t1) == seq![cur.push(t[0]) + rest[0]]
                    + rest.drop_first());
                assert(pending_tokens(cur, t) =~= pending_tokens(cur.push(t[0]), t1));
            }
        }
    }
}

/// Appending a token keeps [`views_of`] pointwise.
proof fn lemma_views_push(tokens: Seq<Vec<char>>, v: Vec<char>)
    ensures
        views_of(tokens.push(v)) =~= views_of(tokens) + seq![v@],
{
}

/// Split one line into its tokens (see [`spec_tokenize`]).
pub fn tokenize(line: &str) -> (tokens: Vec<Vec<char>>)
    ensures
        views_of(tokens@) == spec_tokenize(line@),
        tokens@.len() == spec_tokenize(line@).len(),
        forall|j: int| 0 <= j < tokens@.len() ==> tokens@[j]@ == spec_tokenize(line@)[j],
{
    let n = line.unicode_len();
    let mut tokens: Vec<Vec<char>> = Vec::new();
    let mut cur: Vec<char> = Vec::new();
    let mut i: usize = 0;
    proof {
        assert(line@.skip(0) =~= line@);
        assert(views_of(tokens@) + spec_tokenize(line@) =~= spec_tokenize(line@));
    }
    while i < n
        invariant
            n == line@.len(),
            i <= n,
            spec_tokenize(line@) == views_of(tokens@) + pending_tokens(
                cur@,
                line@.skip(i as int),
            ),
        decreases n - i,
    {
        let c = line.get_char(i);
        proof {
            let t = line@.skip(i as int);
            assert(t[0] == line@[i as int]);
            assert(t.drop_first() =~= line@.skip(i as int + 1));
            lemma_pending_step(cur@, t);
        }
        if c == ' ' || c == '\t' || c == ',' {
            if cur.len() > 0 {
                proof {
                    lemma_views_push(tokens@, cur);
                    assert(views_of(tokens@) + (seq![cur@] + pending_tokens(
                        Seq::empty(),
                        line@.skip(i as int + 1),
                    )) =~= views_of(tokens@.push(cur)) + pending_tokens(
                        Seq::empty(),
                        line@.skip(i as int + 1),
                    ));
                }
                tokens.push(cur);
                cur = Vec::new();
            }
        } else {
            cur.push(c);
        }
        i += 1;
    }
    proof {
        assert(line@.skip(n as int) =~= Seq::<char>::empty());
    }
    if cur.len() > 0 {
        proof {
            assert(pending_tokens(cur@, Seq::empty()) =~= seq![cur@]);
            lemma_views_push(tokens@, cur);
        }
        tokens.push(cur);
    }
    proof {
        assert(spec_tokenize(line@) =~= views_of(tokens@));
    }
    tokens
}

/// Whether token `tok` is exactly the string `s`.
fn token_eq_str(tok: &Vec<char>, s: &str) -> (r: bool)
    ensures
        r == (tok@ == s@),
{
    let n = s.unicode_len();
    if tok.len() != n {
        return false;
    }
    let mut i: usize = 0;
    while i < n
        invariant
            n == s@.len(),
            tok@.len() == n,
            i <= n,
            forall|j: int| 0 <= j < i ==> tok@[j] == s@[j],
        decreases n - i,
    {
        let c = s.get_char(i);
        if tok[i] != c {
            return false;
        }
        i += 1;
    }
    proof {
        assert(tok@ =~= s@);
    }
    true
}

/// The instruction keyword a token names, if any (case-sensitive).
pub open spec fn spec_keyword(tok: Seq<char>) -> Option<InstructionType> {
    if tok == "PLACE"@ {
        Some(InstructionType::PLACE)
    } else if tok == "MOVE"@ {
        Some(InstructionType::MOVE)
    } else if tok == "LEFT"@ {
        Some(InstructionType::LEFT)
    } else if tok == "RIGHT"@ {
        Some(InstructionType::RIGHT)
    } else if tok == "REPORT"@ {
        Some(InstructionType::REPORT)
    } else {
        None
    }
}

/// The direction a token names, if any (case-sensitive).
pub open spec fn spec_direction_token(tok: Seq<char>) -> Option<Direction> {
    if tok == "NORTH"@ {
        Some(Direction::NORTH)
    } else if tok == "EAST"@ {
        Some(Direction::EAST)
    } else if tok == "SOUTH"@ {
        Some(Direction::SOUTH)
    } else if tok == "WEST"@ {
        Some(Direction::WEST)
    } else {
        None
    }
}

impl InstructionType {
    /// The instruction keyword `tok` names, if any (see [`spec_keyword`]).
    pub fn from_token(tok: &Vec<char>) -> (r: Option<InstructionType>)
        ensures
            r == spec_keyword(tok@),
    {
        if token_eq_str(tok, "PLACE") {
            Some(InstructionType::PLACE)
        } else if token_eq_str(tok, "MOVE") {
            Some(InstructionType::MOVE)
        } else if token_eq_str(tok, "LEFT") {
            Some(InstructionType::LEFT)
        } else if token_eq_str(tok, "RIGHT") {
            Some(InstructionType::RIGHT)
        } else if token_eq_str(tok, "REPORT") {
            Some(InstructionType::REPORT)
        } else {
            None
        }
    }
}

/// The direction `tok` names, if any (see [`spec_direction_token`]);
/// anything else is an `InvalidArgument`.
pub fn parse_direction(tok: &Vec<char>) -> (r: Result<Direction, ParseError>)
    ensures
        match spec_direction_token(tok@) {
            Some(d) => r == Ok::<Direction, ParseError>(d),
            None => r == Err::<Direction, ParseError>(ParseError::InvalidArgument),
        },
{
    if token_eq_str(tok, "NORTH") {
        Ok(Direction::NORTH)
    } else if token_eq_str(tok, "EAST") {
        Ok(Direction::EAST)
    } else if token_eq_str(tok, "SOUTH") {
        Ok(Direction::SOUTH)
    } else if token_eq_str(tok, "WEST") {
        Ok(Direction::WEST)
    } else {
        Err(ParseError::InvalidArgument)
    }
}

/// Whether `c` is a decimal digit.
pub open spec fn is_digit(c: char) -> bool {
    '0' as u32 <= c as u32 <= '9' as u32
}

/// The value of a decimal digit.
pub open spec fn digit_val(c: char) -> int {
    c as u32 - '0' as u32
}

/// Whether every character of `s` is a decimal digit.
pub open spec fn all_digits(s: Seq<char>) -> bool {
    forall|j: int| 0 <= j < s.len() ==> is_digit(s[j])
}

/// The number the digit string `s` denotes (most significant digit first;
/// the empty string denotes 0).
pub open spec fn digits_val(s: Seq<char>) -> int
    decreases s.len(),
{
    if s.len() == 0 {
        0
    } else {
        digits_val(s.drop_last()) * 10 + digit_val(s.last())
    }
}

/// Whether `s` is a well-formed integer token: one or more digits, with an
/// optional leading minus sign.
pub open spec fn is_int_token(s: Seq<char>) -> bool {
    if s.len() > 0 && s[0] == '-' {
        s.len() >= 2 && all_digits(s.drop_first())
    } else {
        s.len() >= 1 && all_digits(s)
    }
}

/// The integer a well-formed integer token denotes.
pub open spec fn int_token_val(s: Seq<char>) -> int {
    if s.len() > 0 && s[0] == '-' {
        -digits_val(s.drop_first())
    } else {
        digits_val(s)
    }
}

/// The coordinate a token denotes: its integer value when the token is
/// well-formed and the value fits in an `i8`, and nothing otherwise.
pub open spec fn spec_coordinate(s: Seq<char>) -> Option<i8> {
    if is_int_token(s) && i8::MIN <= int_token_val(s) <= i8::MAX {
        Some(int_token_val(s) as i8)
    } else {
        None
    }
}

/// A digit string denotes a non-negative number.
proof fn lemma_digits_val_nonneg(s: Seq<char>)
    requires
        all_digits(s),
    ensures
        digits_val(s) >= 0,
    decreases s.len(),
{
    if s.len() > 0 {
        lemma_digits_val_nonneg(s.drop_last());
    }
}

/// Dropping trailing digits never increases the value: the value of a
/// prefix of a digit string is at most the value of the whole string.
proof fn lemma_digits_val_prefix_le(s: Seq<char>, m: int)
    requires
        0 <= m <= s.len(),
        all_digits(s),
    ensures
        digits_val(s.take(m)) <= digits_val(s),
    decreases s.len() - m,
{
    if m == s.len() {
        assert(s.take(m) =~= s);
    } else {
        lemma_digits_val_nonneg(s.take(m));
        assert(s.take(m + 1).drop_last() =~= s.take(m));
        assert(digits_val(s.take(m + 1)) == digits_val(s.take(m)) * 10 + digit_val(s[m]));
        lemma_digits_val_prefix_le(s, m + 1);
    }
}

/// The coordinate `tok` denotes (see [`spec_coordinate`]); a malformed or
/// out-of-range token is an `InvalidArgument`.
pub fn parse_coordinate(tok: &Vec<char>) -> (r: Result<i8, ParseError>)
    ensures
        match spec_coordinate(tok@) {
            Some(v) => r == Ok::<i8, ParseError>(v),
            None => r == Err::<i8, ParseError>(ParseError::InvalidArgument),
        },
{
    let n = tok.len();
    if n == 0 {
        return Err(ParseError::InvalidArgument);
    }
    let neg = tok[0] == '-';
    let start: usize = if neg {
        1
    } else {
        0
    };
    if n == start {
        return Err(ParseError::InvalidArgument);
    }
    let mut acc: i32 = 0;
    let mut i: usize = start;
    proof {
        assert(tok@.subrange(start as int, start as int) =~= Seq::<char>::empty());
    }
    while i < n
        invariant
            n == tok@.len(),
            start <= i <= n,
            start <= 1,
            start < n,
            neg == (tok@[0] == '-'),
            neg ==> start == 1,
            !neg ==> start == 0,
            all_digits(tok@.subrange(start as int, i as int)),
            acc == digits_val(tok@.subrange(start as int, i as int)),
            0 <= acc <= 128,
        decreases n - i,
    {
        let c = tok[i];
        let u = c as u32;
        if u < '0' as u32 || u > '9' as u32 {
            proof {
                assert(!is_digit(tok@[i as int]));
                if neg {
                    assert(tok@.drop_first()[i as int - 1] == tok@[i as int]);
                }
            }
            return Err(ParseError::InvalidArgument);
        }
        let d: i32 = (u - '0' as u32) as i32;
        acc = acc * 10 + d;
        proof {
            assert(tok@.subrange(start as int, i as int + 1).drop_last() =~= tok@.subrange(
                start as int,
                i as int,
            ));
        }
        i += 1;
        if acc > 128 {
            proof {
                let digits = if neg {
                    tok@.drop_first()
                } else {
                    tok@
                };
                if is_int_token(tok@) {
                    if neg {
                        assert(digits =~= tok@.subrange(1, n as int));
                        assert(tok@.subrange(start as int, i as int) =~= digits.take(
                            i as int - 1,
                        ));
                        lemma_digits_val_prefix_le(digits, i as int - 1);
                    } else {
                        assert(tok@.subrange(start as int, i as int) =~= digits.take(i as int));
                        lemma_digits_val_prefix_le(digits, i as int);
                    }
                }
            }
            return Err(ParseError::InvalidArgument);
        }
    }
    proof {
        if neg {
            assert(tok@.drop_first() =~= tok@.subrange(1, n as int));
        } else {
            assert(tok@ =~= tok@.subrange(0, n as int));
        }
        assert(is_int_token(tok@));
    }
    if neg {
        Ok((-acc) as i8)
    } else {
        if acc > 127 {
            return Err(ParseError::InvalidArgument);
        }
        Ok(acc as i8)
    }
}

/// What a token list parses to: the instruction kind and its typed
/// arguments, or the parse error the line fails with.
///
/// The first token must be one of the five keywords, else the line fails
/// with `UnknownInstruction` (an empty line included).  `PLACE` needs
/// exactly two in-range integer coordinates and a direction name, else the
/// line fails with `InvalidArgument`; the other four keywords take no
/// arguments, and any extra token is likewise an `InvalidArgument`.
pub open spec fn spec_parse_tokens(toks: Seq<Seq<char>>) -> Result<
    (InstructionType, Seq<Arg>),
    ParseError,
> {
    if toks.len() == 0 {
        Err(ParseError::UnknownInstruction)
    } else {
        match spec_keyword(toks[0]) {
            None => Err(ParseError::UnknownInstruction),
            Some(InstructionType::PLACE) => if toks.len() != 4 {
                Err(ParseError::InvalidArgument)
            } else {
                match (spec_coordinate(toks[1]), spec_coordinate(toks[2]), spec_direction_token(
                    toks[3],
                )) {
                    (Some(x), Some(y), Some(facing)) => Ok(
                        (
                            InstructionType::PLACE,
                            seq![Arg::Coordinate(x), Arg::Coordinate(y), Arg::Facing(facing)],
                        ),
                    ),
                    _ => Err(ParseError::InvalidArgument),
                }
            },
            Some(k) => if toks.len() == 1 {
                Ok((k, Seq::empty()))
            } else {
                Err(ParseError::InvalidArgument)
            },
        }
    }
}

/// What one raw line parses to: [`spec_parse_tokens`] of its tokens.
pub open spec fn spec_parse(line: Seq<char>) -> Result<(InstructionType, Seq<Arg>), ParseError> {
    spec_parse_tokens(spec_tokenize(line))
}

impl Instruction {
    /// Parse one raw line into a typed instruction (see [`spec_parse`]).
    /// Never panics: every malformed line is returned as a typed error.
    pub fn parse(line: &str) -> (r: Result<Instruction, ParseError>)
        ensures
            match r {
                Ok(instruction) => spec_parse(line@) matches Ok(p)
                    && instruction.instruction_type == Some(p.0) && instruction.args@ == p.1,
                Err(e) => spec_parse(line@) == Err::<(InstructionType, Seq<Arg>), ParseError>(e),
            },
    {
        let tokens = tokenize(line);
        if tokens.len() == 0 {
            return Err(ParseError::UnknownInstruction);
        }
        match InstructionType::from_token(&tokens[0]) {
            None => Err(ParseError::UnknownInstruction),
            Some(InstructionType::PLACE) => {
                if tokens.len() != 4 {
                    return Err(ParseError::InvalidArgument);
                }
                let x = match parse_coordinate(&tokens[1]) {
                    Ok(v) => v,
                    Err(e) => {
                        return Err(e);
                    },
                };
                let y = match parse_coordinate(&tokens[2]) {
                    Ok(v) => v,
                    Err(e) => {
                        return Err(e);
                    },
                };
                let facing = match parse_direction(&tokens[3]) {
                    Ok(v) => v,
                    Err(e) => {
                        return Err(e);
                    },
                };
                let mut args: Vec<Arg> = Vec::new();
                args.push(Arg::Coordinate(x));
                args.push(Arg::Coordinate(y));
                args.push(Arg::Facing(facing));
                proof {
                    assert(args@ =~= seq![
                        Arg::Coordinate(x),
                        Arg::Coordinate(y),
                        Arg::Facing(facing),
                    ]);
                }
                Ok(Instruction { instruction_type: Some(InstructionType::PLACE), args })
            },
            Some(k) => {
                if tokens.len() == 1 {
                    Ok(Instruction { instruction_type: Some(k), args: Vec::new() })
                } else {
                    Err(ParseError::InvalidArgument)
                }
            },
        }
    }
}

} // verus!
