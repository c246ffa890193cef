use zae_a2600::lifecycle::{FrameStart, Lifecycle, Teardown};

#[test]
fn test_running() {
    let mut state = Lifecycle::new();
    state.set_running(true);
    assert!(state.is_running());
}

#[test]
fn test_frame_lock() {
    let mut state = Lifecycle::new();
    assert!(state.try_lock_frame());
    assert!(!state.try_lock_frame());
    state.unlock_frame();
}

#[test]
fn frame_needs_running_emulator_and_context() {
    let mut state = Lifecycle::new();
    assert_eq!(state.begin_frame(), FrameStart::Stopped);
    assert!(!state.frame_lock);
    state.set_running(true);
    assert_eq!(state.begin_frame(), FrameStart::NoContext);
    assert!(!state.frame_lock);
}

#[test]
fn first_frame_creates_batch_then_renders() {
    let mut state = Lifecycle::new();
    assert!(!state.surface_created());
    state.context_created(800, 480);
    assert!(state.running && state.initialized);
    assert_eq!((state.width, state.height), (800, 480));
    assert_eq!(state.begin_frame(), FrameStart::CreateBatch);
    assert_eq!(state.begin_frame(), FrameStart::Busy);
    assert!(state.batch_created(true));
    assert!(state.take_emulator_start());
    assert!(state.is_running());
    state.unlock_frame();
    assert!(!state.frame_lock);
    assert_eq!(state.begin_frame(), FrameStart::Render);
    assert!(!state.take_emulator_start());
    state.stop();
    assert!(!state.is_running());
    state.unlock_frame();
    assert_eq!(state.begin_frame(), FrameStart::Stopped);
}

#[test]
fn failed_batch_releases_frame() {
    let mut state = Lifecycle::new();
    state.context_created(10, 10);
    assert_eq!(state.begin_frame(), FrameStart::CreateBatch);
    assert!(!state.batch_created(false));
    assert!(!state.frame_lock);
    assert!(!state.has_batch);
}

#[test]
fn new_surface_drops_old_context() {
    let mut state = Lifecycle::new();
    state.context_created(10, 10);
    state.begin_frame();
    state.batch_created(true);
    state.unlock_frame();
    assert!(state.surface_created());
    assert!(!state.has_context && !state.has_batch && !state.has_font);
    state.surface_changed(20, 30);
    assert_eq!((state.width, state.height), (20, 30));
}

#[test]
fn render_thread_exit_releases_resources() {
    let mut state = Lifecycle::new();
    state.context_created(10, 10);
    state.begin_frame();
    state.batch_created(true);
    state.unlock_frame();
    let t = state.render_thread_exit();
    assert_eq!(t, Teardown { font: false, batch: true, context: true });
    assert!(!state.initialized && !state.has_context && !state.has_batch);
    assert_eq!(state.render_thread_exit(), Teardown { font: false, batch: false, context: false });
}
