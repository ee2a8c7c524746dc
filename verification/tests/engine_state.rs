use imgui_context::EngineState;

#[test]
fn new_state_has_empty_slot() {
    let state = EngineState::new();
    assert_eq!(state.get_current_context(), None);
}

#[test]
fn first_instance_becomes_current() {
    let mut state = EngineState::new();
    let instance = state.create_context();
    assert_eq!(instance.handle(), 0);
    assert_eq!(state.get_current_context(), Some(0));
}

#[test]
fn later_instances_do_not_take_the_slot() {
    let mut state = EngineState::new();
    let first = state.create_context();
    let second = state.create_context();
    let third = state.create_context();
    assert_eq!((first.handle(), second.handle(), third.handle()), (0, 1, 2));
    assert_eq!(state.get_current_context(), Some(0));
}

#[test]
fn set_current_overwrites_the_slot() {
    let mut state = EngineState::new();
    let first = state.create_context();
    let second = state.create_context();
    state.set_current_context(Some(second.handle()));
    assert_eq!(state.get_current_context(), Some(1));
    state.set_current_context(None);
    assert_eq!(state.get_current_context(), None);
    state.set_current_context(Some(first.handle()));
    assert_eq!(state.get_current_context(), Some(0));
}

#[test]
fn destroy_clears_the_slot_only_for_the_current_instance() {
    let mut state = EngineState::new();
    let first = state.create_context();
    let second = state.create_context();
    state.destroy_context(second);
    assert_eq!(state.get_current_context(), Some(0));
    state.destroy_context(first);
    assert_eq!(state.get_current_context(), None);
}

#[test]
fn handles_are_not_issued_twice() {
    let mut state = EngineState::new();
    let first = state.create_context();
    state.destroy_context(first);
    let second = state.create_context();
    assert_eq!(second.handle(), 1);
    assert_eq!(state.get_current_context(), Some(1));
}

#[test]
fn instance_created_into_empty_slot_after_clear_becomes_current() {
    let mut state = EngineState::new();
    let _first = state.create_context();
    state.set_current_context(None);
    let second = state.create_context();
    assert_eq!(state.get_current_context(), Some(second.handle()));
}
