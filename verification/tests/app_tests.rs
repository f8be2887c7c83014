use rust_cube::app::{
    cube_indexes, AppState, EventResponse, WindowEventKind, CUBE_INDEX_COUNT, CUBE_VERTEX_COUNT,
    HEIGHT, WIDTH,
};

fn resp(exit: bool, handle_resize: bool, draw_frame: bool, request_redraw: bool) -> EventResponse {
    EventResponse { exit, handle_resize, draw_frame, request_redraw }
}

#[test]
fn window_size() {
    assert_eq!((WIDTH, HEIGHT), (800, 600));
}

#[test]
fn cube_index_table() {
    let expected: Vec<u32> = vec![
        0, 2, 1, 2, 0, 3, 4, 6, 5, 6, 4, 7, 8, 10, 9, 10, 8, 11, 12, 14, 13, 14, 12, 15, 16, 18,
        17, 18, 16, 19, 20, 22, 21, 22, 20, 23,
    ];
    let indexes = cube_indexes();
    assert_eq!(indexes, expected);
    assert_eq!(indexes.len(), CUBE_INDEX_COUNT);
    assert!(indexes.iter().all(|&i| (i as usize) < CUBE_VERTEX_COUNT));
}

#[test]
fn close_exits() {
    let mut app = AppState::new();
    assert_eq!(app.window_event(WindowEventKind::CloseRequested), resp(true, false, false, false));
}

#[test]
fn redraw_draws_and_requests_next() {
    let mut app = AppState::new();
    assert!(!app.is_suspended());
    assert_eq!(app.window_event(WindowEventKind::RedrawRequested), resp(false, false, true, true));
}

#[test]
fn occlusion_suspends_and_resumes() {
    let mut app = AppState::new();
    assert_eq!(app.window_event(WindowEventKind::Occluded(true)), resp(false, false, false, false));
    assert!(app.is_suspended());
    assert_eq!(app.window_event(WindowEventKind::RedrawRequested), resp(false, false, false, false));
    assert_eq!(app.window_event(WindowEventKind::Occluded(false)), resp(false, false, false, true));
    assert!(!app.is_suspended());
    assert_eq!(app.window_event(WindowEventKind::RedrawRequested), resp(false, false, true, true));
}

#[test]
fn resize_asks_for_rebuild() {
    let mut app = AppState::new();
    assert_eq!(app.window_event(WindowEventKind::Resized), resp(false, true, false, false));
}

#[test]
fn other_events_ignored() {
    let mut app = AppState::new();
    assert_eq!(app.window_event(WindowEventKind::Other), resp(false, false, false, false));
    assert!(!app.is_suspended());
}
