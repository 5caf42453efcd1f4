use toy_robot::input_utils::{Arg, Instruction, InstructionType, ParseError};
use toy_robot::robot::Direction;

#[test]
fn parse_place_comma_delimited() {
    let instruction = Instruction::parse("PLACE 1,2,EAST").unwrap();
    assert_eq!(instruction.instruction_type, Some(InstructionType::PLACE));
    assert_eq!(
        instruction.args,
        vec![
            Arg::Coordinate(1),
            Arg::Coordinate(2),
            Arg::Facing(Direction::EAST)
        ]
    );
}

#[test]
fn parse_place_space_delimited() {
    let instruction = Instruction::parse("PLACE 3 0 WEST").unwrap();
    assert_eq!(instruction.instruction_type, Some(InstructionType::PLACE));
    assert_eq!(
        instruction.args,
        vec![
            Arg::Coordinate(3),
            Arg::Coordinate(0),
            Arg::Facing(Direction::WEST)
        ]
    );
}

#[test]
fn parse_place_negative_coordinates() {
    let instruction = Instruction::parse("PLACE -1,-2,NORTH").unwrap();
    assert_eq!(
        instruction.args,
        vec![
            Arg::Coordinate(-1),
            Arg::Coordinate(-2),
            Arg::Facing(Direction::NORTH)
        ]
    );
}

#[test]
fn parse_place_extreme_coordinates() {
    let instruction = Instruction::parse("PLACE 127,-128,SOUTH").unwrap();
    assert_eq!(
        instruction.args,
        vec![
            Arg::Coordinate(127),
            Arg::Coordinate(-128),
            Arg::Facing(Direction::SOUTH)
        ]
    );
}

#[test]
fn parse_place_leading_zeros() {
    let instruction = Instruction::parse("PLACE 007,-0,NORTH").unwrap();
    assert_eq!(
        instruction.args,
        vec![
            Arg::Coordinate(7),
            Arg::Coordinate(0),
            Arg::Facing(Direction::NORTH)
        ]
    );
}

#[test]
fn parse_argument_less_keywords() {
    for (line, kind) in [
        ("MOVE", InstructionType::MOVE),
        ("LEFT", InstructionType::LEFT),
        ("RIGHT", InstructionType::RIGHT),
        ("REPORT", InstructionType::REPORT),
    ] {
        let instruction = Instruction::parse(line).unwrap();
        assert_eq!(instruction.instruction_type, Some(kind));
        assert!(instruction.args.is_empty());
    }
}

#[test]
fn parse_unknown_keyword() {
    assert_eq!(
        Instruction::parse("JUMP"),
        Err(ParseError::UnknownInstruction)
    );
}

#[test]
fn parse_empty_line() {
    assert_eq!(Instruction::parse(""), Err(ParseError::UnknownInstruction));
    assert_eq!(
        Instruction::parse("   "),
        Err(ParseError::UnknownInstruction)
    );
}

#[test]
fn parse_keywords_are_case_sensitive() {
    assert_eq!(
        Instruction::parse("place 1,2,EAST"),
        Err(ParseError::UnknownInstruction)
    );
    assert_eq!(
        Instruction::parse("Move"),
        Err(ParseError::UnknownInstruction)
    );
}

#[test]
fn parse_place_missing_direction() {
    assert_eq!(
        Instruction::parse("PLACE 1,2"),
        Err(ParseError::InvalidArgument)
    );
}

#[test]
fn parse_place_missing_all_arguments() {
    assert_eq!(Instruction::parse("PLACE"), Err(ParseError::InvalidArgument));
}

#[test]
fn parse_place_extra_argument() {
    assert_eq!(
        Instruction::parse("PLACE 1,2,EAST,EAST"),
        Err(ParseError::InvalidArgument)
    );
}

#[test]
fn parse_place_non_integer_coordinate() {
    assert_eq!(
        Instruction::parse("PLACE a,2,EAST"),
        Err(ParseError::InvalidArgument)
    );
    assert_eq!(
        Instruction::parse("PLACE 1,2x,EAST"),
        Err(ParseError::InvalidArgument)
    );
    assert_eq!(
        Instruction::parse("PLACE -,2,EAST"),
        Err(ParseError::InvalidArgument)
    );
}

#[test]
fn parse_place_coordinate_out_of_i8_range() {
    assert_eq!(
        Instruction::parse("PLACE 128,0,EAST"),
        Err(ParseError::InvalidArgument)
    );
    assert_eq!(
        Instruction::parse("PLACE 0,-129,EAST"),
        Err(ParseError::InvalidArgument)
    );
    assert_eq!(
        Instruction::parse("PLACE 99999999999999999999,0,EAST"),
        Err(ParseError::InvalidArgument)
    );
}

#[test]
fn parse_place_bad_direction_name() {
    assert_eq!(
        Instruction::parse("PLACE 1,2,NORTHWEST"),
        Err(ParseError::InvalidArgument)
    );
    assert_eq!(
        Instruction::parse("PLACE 1,2,east"),
        Err(ParseError::InvalidArgument)
    );
}

#[test]
fn parse_extra_token_after_keyword() {
    assert_eq!(
        Instruction::parse("MOVE 1"),
        Err(ParseError::InvalidArgument)
    );
    assert_eq!(
        Instruction::parse("REPORT REPORT"),
        Err(ParseError::InvalidArgument)
    );
}

#[test]
fn coordinate_and_facing_args_never_equal() {
    // The two payload shapes are distinct even when raw values coincide:
    // Direction::NORTH is the first variant, yet Coordinate(0) is not it.
    assert_ne!(Arg::Coordinate(0), Arg::Facing(Direction::NORTH));
    assert_ne!(Arg::Facing(Direction::EAST), Arg::Coordinate(1));
    assert_eq!(Arg::Coordinate(3), Arg::Coordinate(3));
    assert_eq!(
        Arg::Facing(Direction::SOUTH),
        Arg::Facing(Direction::SOUTH)
    );
    assert_ne!(Arg::Coordinate(3), Arg::Coordinate(4));
}

#[test]
fn empty_instruction_has_no_kind() {
    let instruction = Instruction::new();
    assert_eq!(instruction.instruction_type, None);
    assert!(instruction.args.is_empty());
}
