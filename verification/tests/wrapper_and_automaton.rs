use mode::AnyModeWrapper;
use mode::Automaton;
use mode::ModeWrapper;
use mode::Swap;
use mode::counter::CounterFamily;
use mode::counter::CounterMode;
use mode::counter::DownMode;
use mode::counter::FinishedMode;
use mode::counter::UpMode;
use mode::counter::WrappedCounterFamily;

#[test]
fn wrapper_borrows_the_mode_it_owns() {
    let wrapper = ModeWrapper::new(CounterMode::Up(UpMode { counter: 2, target: 9 }));
    assert_eq!(
        *wrapper.borrow_mode(),
        CounterMode::Up(UpMode { counter: 2, target: 9 })
    );
}

#[test]
fn wrapper_mutable_borrow_writes_through() {
    let mut wrapper = ModeWrapper::new(CounterMode::Up(UpMode { counter: 2, target: 9 }));
    *wrapper.borrow_mode_mut() = CounterMode::Finished(FinishedMode { result: 4 });
    assert_eq!(
        *wrapper.borrow_mode(),
        CounterMode::Finished(FinishedMode { result: 4 })
    );
}

#[test]
fn wrapper_performs_transitions_in_place() {
    let mut wrapper = ModeWrapper::new(CounterMode::Up(UpMode { counter: 1, target: 3 }));
    let changed = wrapper.perform_transitions(());
    assert!(!changed);
    assert_eq!(
        *wrapper.borrow_mode(),
        CounterMode::Up(UpMode { counter: 2, target: 3 })
    );
    let changed = wrapper.perform_transitions(());
    assert!(changed);
    assert_eq!(
        *wrapper.borrow_mode(),
        CounterMode::Down(DownMode { counter: 3, target: 2 })
    );
}

#[test]
fn wrapped_storage_runs_the_machine() {
    // The wrapper is itself a mode, so an automaton can store one.
    let mut automaton = Automaton::<WrappedCounterFamily>::with_mode(ModeWrapper::new(
        CounterMode::Up(UpMode { counter: 0, target: 3 }),
    ));

    let mut steps: u32 = 0;
    while !automaton.borrow_mode().has_result() {
        Automaton::next(&mut automaton, ());
        steps += 1;
        assert!(steps < 1000, "the machine should have finished by now");
    }
    assert_eq!(automaton.borrow_mode().get_result(), Some(10));
}

#[test]
fn automaton_with_mode_installs_the_mode() {
    let automaton = Automaton::<CounterFamily>::with_mode(CounterMode::Finished(FinishedMode {
        result: 3,
    }));
    assert_eq!(
        *automaton.borrow_mode(),
        CounterMode::Finished(FinishedMode { result: 3 })
    );
}

#[test]
fn automaton_mutable_borrow_writes_through() {
    let mut automaton = Automaton::<CounterFamily>::with_mode(CounterMode::Up(UpMode {
        counter: 0,
        target: 3,
    }));
    *automaton.borrow_mode_mut() = CounterMode::Down(DownMode { counter: 8, target: 5 });
    assert_eq!(
        *automaton.borrow_mode(),
        CounterMode::Down(DownMode { counter: 8, target: 5 })
    );
}

#[test]
fn stay_leaves_the_observable_state_unchanged() {
    let mut automaton = Automaton::<CounterFamily>::with_mode(CounterMode::Finished(
        FinishedMode { result: 11 },
    ));
    let before = *automaton.borrow_mode();
    let changed = Automaton::next_with_result(&mut automaton, ());
    assert!(!changed);
    assert_eq!(*automaton.borrow_mode(), before);
}

#[test]
fn swap_decision_carries_its_mode() {
    let stay: Swap<u64> = Swap::Stay(5);
    assert_eq!(stay.into_carried(), 5);
    let transition: Swap<u64> = Swap::TransitionTo(9);
    assert_eq!(transition.into_carried(), 9);
}
