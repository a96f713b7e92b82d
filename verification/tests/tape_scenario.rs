use mode::Automaton;
use mode::tape::PrintOp;
use mode::tape::ShiftOp;
use mode::tape::TapeFamily;
use mode::tape::TapeState;
use mode::tape::apply_op;
use mode::tape::head_bit;
use mode::tape::table;

#[test]
fn tape_scenario_halts_within_bound() {
    let mut tape: u16 = 0b111 << 8;
    let mut automaton = Automaton::<TapeFamily>::new();
    assert_eq!(*automaton.borrow_mode(), TapeState::A);

    let mut steps: u32 = 0;
    loop {
        let (next_tape, running) = Automaton::next_with_result(&mut automaton, tape);
        tape = next_tape;
        steps += 1;
        if !running {
            break;
        }
        assert!(steps < 100, "the machine should have halted by now");
    }

    assert_eq!(*automaton.borrow_mode(), TapeState::H);
    assert_eq!(steps, 28);
    assert_eq!(tape, 0b0000_1110_1110_0000);

    // Once halted, the machine never moves again and leaves the tape alone.
    let (next_tape, running) = Automaton::next_with_result(&mut automaton, tape);
    assert!(!running);
    assert_eq!(next_tape, tape);
    assert_eq!(*automaton.borrow_mode(), TapeState::H);
}

#[test]
fn tape_first_step_clears_and_shifts() {
    let mut automaton = Automaton::<TapeFamily>::new();
    let (next_tape, running) = Automaton::next_with_result(&mut automaton, 0b111 << 8);
    assert!(running);
    assert_eq!(*automaton.borrow_mode(), TapeState::B);
    assert_eq!(next_tape, 0b0000_0011_0000_0000);
}

#[test]
fn tape_halts_at_once_on_clear_bit() {
    let mut automaton = Automaton::<TapeFamily>::new();
    let (next_tape, running) = Automaton::next_with_result(&mut automaton, 0);
    assert!(!running);
    assert_eq!(next_tape, 0);
    assert_eq!(*automaton.borrow_mode(), TapeState::H);
}

#[test]
fn tape_default_automaton_starts_in_a() {
    let automaton: Automaton<TapeFamily> = Default::default();
    assert_eq!(*automaton.borrow_mode(), TapeState::A);
}

#[test]
fn head_bit_reads_the_head_position() {
    assert_eq!(head_bit(0), 0);
    assert_eq!(head_bit(1 << 8), 1);
    assert_eq!(head_bit(0xFFFF), 1);
    assert_eq!(head_bit(0b0000_0000_1111_1111), 0);
}

#[test]
fn table_covers_the_six_states() {
    assert_eq!(table(TapeState::A, 0), (TapeState::H, None));
    assert_eq!(
        table(TapeState::A, 1),
        (TapeState::B, Some((PrintOp::Clear, ShiftOp::Right)))
    );
    assert_eq!(
        table(TapeState::B, 0),
        (TapeState::C, Some((PrintOp::Clear, ShiftOp::Right)))
    );
    assert_eq!(
        table(TapeState::B, 1),
        (TapeState::B, Some((PrintOp::Print, ShiftOp::Right)))
    );
    assert_eq!(
        table(TapeState::C, 0),
        (TapeState::D, Some((PrintOp::Print, ShiftOp::Left)))
    );
    assert_eq!(
        table(TapeState::C, 1),
        (TapeState::C, Some((PrintOp::Print, ShiftOp::Right)))
    );
    assert_eq!(
        table(TapeState::D, 0),
        (TapeState::E, Some((PrintOp::Clear, ShiftOp::Left)))
    );
    assert_eq!(
        table(TapeState::D, 1),
        (TapeState::D, Some((PrintOp::Print, ShiftOp::Left)))
    );
    assert_eq!(
        table(TapeState::E, 0),
        (TapeState::A, Some((PrintOp::Print, ShiftOp::Right)))
    );
    assert_eq!(
        table(TapeState::E, 1),
        (TapeState::E, Some((PrintOp::Print, ShiftOp::Left)))
    );
    assert_eq!(table(TapeState::H, 0), (TapeState::H, None));
    assert_eq!(table(TapeState::H, 1), (TapeState::H, None));
}

#[test]
fn apply_op_prints_clears_and_shifts() {
    assert_eq!(apply_op(0b1_0000_0000, None), 0b1_0000_0000);
    assert_eq!(
        apply_op(0, Some((PrintOp::Print, ShiftOp::Right))),
        0b1000_0000
    );
    assert_eq!(
        apply_op(0, Some((PrintOp::Print, ShiftOp::Left))),
        0b10_0000_0000
    );
    assert_eq!(
        apply_op(0b1_0000_0000, Some((PrintOp::Clear, ShiftOp::Right))),
        0
    );
    assert_eq!(
        apply_op(0b1_0000_0001, Some((PrintOp::Clear, ShiftOp::Left))),
        0b10
    );
}
