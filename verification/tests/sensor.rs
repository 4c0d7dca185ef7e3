use sensirion_slf::command::Command;
use sensirion_slf::sensor::State;

#[test]
fn toggle_switches_between_the_two_modes() {
    let mut state = State::Water;
    state.toggle();
    assert_eq!(state, State::IsopropylAlcohol);
    state.toggle();
    assert_eq!(state, State::Water);
}

#[test]
fn modes_have_their_labels() {
    assert_eq!(State::Water.as_str(), "H2O");
    assert_eq!(State::IsopropylAlcohol.as_str(), "IPA");
}

#[test]
fn modes_start_their_measurement() {
    assert_eq!(State::Water.measurement_command(), Command::ContinuousMeasurementWater);
    assert_eq!(
        State::IsopropylAlcohol.measurement_command(),
        Command::ContinuousMeasurementIsopropylAlcohol
    );
}
