use ccl_view::viewer::{
    App, BufferBundle, FaultAction, State, SurfaceFault, UserEvent, UserStep, WindowAction,
    WindowInput,
};

#[test]
fn new_state_draws_nothing() {
    let s: State<&str, u32> = State::new("gpu");
    assert_eq!(s.render(), None);
    assert_eq!(s.gpu, "gpu");
}

#[test]
fn buffer_alone_draws_nothing() {
    let mut s: State<(), u32> = State::new(());
    s.change_buffer(7);
    assert_eq!(s.render(), None);
}

#[test]
fn size_alone_draws_nothing() {
    let mut s: State<(), u32> = State::new(());
    assert!(s.resize(640, 480));
    assert_eq!(s.render(), None);
}

#[test]
fn size_then_buffer_draws_buffer() {
    let mut s: State<(), u32> = State::new(());
    assert!(s.resize(640, 480));
    s.change_buffer(7);
    assert_eq!(s.render(), Some(&7));
}

#[test]
fn buffer_then_size_draws_buffer() {
    let mut s: State<(), u32> = State::new(());
    s.change_buffer(7);
    assert!(s.resize(1, 1));
    assert_eq!(s.render(), Some(&7));
}

#[test]
fn empty_resize_changes_nothing() {
    let mut s: State<(), u32> = State::new(());
    s.change_buffer(3);
    assert!(!s.resize(0, 480));
    assert!(!s.resize(640, 0));
    assert_eq!(s.render(), None);
}

#[test]
fn configuration_survives_empty_resize() {
    let mut s: State<(), u32> = State::new(());
    s.change_buffer(3);
    assert!(s.resize(10, 10));
    assert!(!s.resize(0, 0));
    assert_eq!(s.render(), Some(&3));
}

#[test]
fn latest_buffer_is_drawn() {
    let mut s: State<(), u32> = State::new(());
    s.resize(2, 2);
    s.change_buffer(1);
    s.change_buffer(2);
    assert_eq!(s.render(), Some(&2));
}

#[test]
fn lost_surface_is_resized() {
    let mut s: State<(), u32> = State::new(());
    s.change_buffer(5);
    assert_eq!(s.recover(SurfaceFault::Lost, 800, 600), FaultAction::Reconfigure(800, 600));
    assert_eq!(s.render(), Some(&5));
}

#[test]
fn outdated_surface_of_empty_window_is_ignored() {
    let mut s: State<(), u32> = State::new(());
    assert_eq!(s.recover(SurfaceFault::Outdated, 0, 600), FaultAction::Ignore);
    s.change_buffer(5);
    assert_eq!(s.render(), None);
}

#[test]
fn other_fault_is_reported() {
    let mut s: State<(), u32> = State::new(());
    assert_eq!(s.recover(SurfaceFault::Other, 800, 600), FaultAction::Report);
    s.change_buffer(5);
    assert_eq!(s.render(), None);
}

#[test]
fn app_without_state_ignores_window_events() {
    let mut app: App<(), u32> = App::new();
    assert!(app.state.is_none());
    assert_eq!(app.window_event(WindowInput::CloseRequested), WindowAction::Ignore);
    assert_eq!(app.window_event(WindowInput::Resized(3, 4)), WindowAction::Ignore);
    assert_eq!(app.window_event(WindowInput::RedrawRequested), WindowAction::Ignore);
    assert!(app.state.is_none());
}

#[test]
fn app_with_state_handles_window_events() {
    let mut app: App<(), u32> = App::new();
    app.state = Some(State::new(()));
    assert_eq!(app.window_event(WindowInput::Other), WindowAction::Ignore);
    assert_eq!(app.window_event(WindowInput::Resized(0, 4)), WindowAction::Ignore);
    assert_eq!(app.window_event(WindowInput::Resized(3, 4)), WindowAction::Reconfigure(3, 4));
    assert_eq!(app.window_event(WindowInput::RedrawRequested), WindowAction::Redraw);
    assert_eq!(app.window_event(WindowInput::CloseRequested), WindowAction::Exit);
    app.state.as_mut().unwrap().change_buffer(9);
    assert_eq!(app.state.as_ref().unwrap().render(), Some(&9));
}

#[test]
fn app_user_events() {
    let mut app: App<(), BufferBundle<u8>> = App::new();
    let bundle = BufferBundle { buffer: 1u8, width: 4, height: 2 };
    match app.user_event::<&str, BufferBundle<u8>>(UserEvent::UpdateBuffer(bundle.clone())) {
        UserStep::Discard => {}
        _ => panic!("a buffer before the state must be dropped"),
    }
    match app.user_event::<&str, BufferBundle<u8>>(UserEvent::CreateDevice("channel")) {
        UserStep::CreateState(d) => assert_eq!(d, "channel"),
        _ => panic!("a device channel must build the state"),
    }
    app.state = Some(State::new(()));
    match app.user_event::<&str, BufferBundle<u8>>(UserEvent::UpdateBuffer(bundle)) {
        UserStep::ChangeBuffer(b) => {
            assert_eq!(b.buffer, 1);
            assert_eq!((b.width, b.height), (4, 2));
        }
        _ => panic!("a buffer after the state must be bound"),
    }
}

#[test]
fn two_sizes_without_buffer_draw_nothing() {
    let mut s: State<(), u32> = State::new(());
    assert!(s.resize(2, 2));
    assert!(s.resize(3, 3));
    assert_eq!(s.render(), None);
    s.change_buffer(4);
    assert_eq!(s.render(), Some(&4));
    assert!(!s.resize(0, 0));
    s.change_buffer(5);
    assert_eq!(s.render(), Some(&5));
}
