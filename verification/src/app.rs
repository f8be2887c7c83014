use vstd::prelude::*;
use crate::renderer::swapchain::{spec_begin_acquire, spec_request_recreate, SwapchainStateView};

verus! {

/// The window's initial inner width, in logical pixels.
pub const WIDTH: u32 = 800;

/// The window's initial inner height, in logical pixels.
pub const HEIGHT: u32 = 600;

// ---------------------------------------------------------------------------
// Cube index data
// ---------------------------------------------------------------------------

/// The cube has six faces of four vertices each.
pub const CUBE_VERTEX_COUNT: usize = 24;

/// The cube is drawn as six faces of two triangles.
pub const CUBE_INDEX_COUNT: usize = 36;

/// Within a face's four vertices (corners 0, 1, 2, 3 in order), the corners of
/// its two triangles: (0, 2, 1) and (2, 0, 3).
pub open spec fn face_corner(k: int) -> int {
    if k == 0 {
        0
    } else if k == 1 {
        2
    } else if k == 2 {
        1
    } else if k == 3 {
        2
    } else if k == 4 {
        0
    } else {
        3
    }
}

/// The `i`-th entry of the cube's index buffer: face `i / 6`, corner
/// `face_corner(i % 6)` of it.
pub open spec fn spec_cube_index(i: int) -> int {
    4 * (i / 6) + face_corner(i % 6)
}

/// The cube's index buffer.
pub open spec fn spec_cube_indexes() -> Seq<u32> {
    Seq::new(CUBE_INDEX_COUNT as nat, |i: int| spec_cube_index(i) as u32)
}

/// The cube's index buffer: per face (front, back, right, left, top,
/// bottom), two triangles over the face's four vertices.
pub fn cube_indexes() -> (indexes: Vec<u32>)
    ensures
        indexes@ == spec_cube_indexes(),
{
    let indexes: Vec<u32> = vec![
        0, 2, 1, 2, 0, 3, // Front
        4, 6, 5, 6, 4, 7, // Back
        8, 10, 9, 10, 8, 11, // Right
        12, 14, 13, 14, 12, 15, // Left
        16, 18, 17, 18, 16, 19, // Top
        20, 22, 21, 22, 20, 23, // Bottom
    ];
    proof {
        assert(indexes@ =~= spec_cube_indexes());
    }
    indexes
}


/// Every index of the cube names one of its vertices.
pub proof fn law_cube_indexes_in_range(i: int)
    requires
        0 <= i < CUBE_INDEX_COUNT,
    ensures
        0 <= spec_cube_indexes()[i] < CUBE_VERTEX_COUNT,
{
}

/// Each face's six indices stay within that face's four vertices.
pub proof fn law_cube_faces_use_own_vertices(i: int)
    requires
        0 <= i < CUBE_INDEX_COUNT,
    ensures
        4 * (i / 6) <= spec_cube_indexes()[i] < 4 * (i / 6) + 4,
{
}

/// Corner `k` (0 to 5) of face `face`'s two triangles, as an index.
pub open spec fn face_entry(face: int, k: int) -> int {
    spec_cube_indexes()[6 * face + k] as int
}

/// Some corner of face `face`'s two triangles is vertex `c`.
pub open spec fn face_uses_vertex(face: int, c: int) -> bool {
    exists|k: int| 0 <= k < 6 && #[trigger] face_entry(face, k) == c
}

/// Every triangle of the cube has three distinct corners, and the two
/// triangles of a face together use all four of its corners.
pub proof fn law_cube_triangles_cover_faces(face: int)
    requires
        0 <= face < 6,
    ensures
        ({
            let s = spec_cube_indexes();
            let b: int = 6 * face;
            &&& s[b] != s[b + 1] && s[b + 1] != s[b + 2] && s[b] != s[b + 2]
            &&& s[b + 3] != s[b + 4] && s[b + 4] != s[b + 5] && s[b + 3] != s[b + 5]
            &&& forall|c: int| 4 * face <= c < 4 * face + 4 ==> #[trigger] face_uses_vertex(face, c)
        }),
{
    let s = spec_cube_indexes();
    let b: int = 6 * face;
    assert((b + 0) / 6 == face && (b + 0) % 6 == 0);
    assert((b + 1) / 6 == face && (b + 1) % 6 == 1);
    assert((b + 2) / 6 == face && (b + 2) % 6 == 2);
    assert((b + 3) / 6 == face && (b + 3) % 6 == 3);
    assert((b + 4) / 6 == face && (b + 4) % 6 == 4);
    assert((b + 5) / 6 == face && (b + 5) % 6 == 5);
    assert forall|c: int| 4 * face <= c < 4 * face + 4 implies #[trigger] face_uses_vertex(face, c) by {
        if c == 4 * face {
            assert(face_entry(face, 0) == c);
        } else if c == 4 * face + 1 {
            assert(face_entry(face, 2) == c);
        } else if c == 4 * face + 2 {
            assert(face_entry(face, 1) == c);
        } else {
            assert(face_entry(face, 5) == c);
        }
    }
}

// ---------------------------------------------------------------------------
// Window events
// ---------------------------------------------------------------------------

/// The window events the application reacts to; `Other` is any other event.
#[derive(Clone, Copy, Debug, PartialEq, Eq, Structural)]
pub enum WindowEventKind {
    CloseRequested,
    /// The window became hidden (`true`) or visible again (`false`).
    Occluded(bool),
    Resized,
    RedrawRequested,
    Other,
}

/// What the application does in answer to an event. When both are set, the
/// frame is drawn before the next redraw is requested.
#[derive(Clone, Copy, Debug, PartialEq, Eq, Structural)]
pub struct EventResponse {
    /// Say that the program stops, and leave the event loop.
    pub exit: bool,
    /// Ask the renderer to rebuild its swapchain.
    pub handle_resize: bool,
    /// Draw a frame.
    pub draw_frame: bool,
    /// Ask the window for another redraw.
    pub request_redraw: bool,
}

/// The response that does nothing.
pub open spec fn no_response() -> EventResponse {
    EventResponse { exit: false, handle_resize: false, draw_frame: false, request_redraw: false }
}

/// The new suspended flag and the response to `event` when the application is
/// `suspended` (its window hidden).
pub open spec fn spec_window_event(suspended: bool, event: WindowEventKind) -> (bool, EventResponse) {
    match event {
        WindowEventKind::CloseRequested => (suspended, EventResponse { exit: true, ..no_response() }),
        WindowEventKind::Occluded(occluded) => (
            occluded,
            EventResponse { request_redraw: !occluded, ..no_response() },
        ),
        WindowEventKind::Resized => (suspended, EventResponse { handle_resize: true, ..no_response() }),
        WindowEventKind::RedrawRequested => (
            suspended,
            EventResponse { draw_frame: !suspended, request_redraw: !suspended, ..no_response() },
        ),
        WindowEventKind::Other => (suspended, no_response()),
    }
}

/// The application's own state across events: whether its window is hidden.
pub struct AppState {
    suspended: bool,
}

impl View for AppState {
    type V = bool;

    closed spec fn view(&self) -> bool {
        self.suspended
    }
}

impl AppState {
    /// A fresh application, not suspended.
    pub fn new() -> (state: Self)
        ensures
            !state@,
    {
        AppState { suspended: false }
    }

    /// Whether the window is hidden, so that no frame is drawn.
    pub fn is_suspended(&self) -> (suspended: bool)
        ensures
            suspended == self@,
    {
        self.suspended
    }

    /// Updates the state for `event` and says what to do about it.
    pub fn window_event(&mut self, event: WindowEventKind) -> (response: EventResponse)
        ensures
            (final(self)@, response) == spec_window_event(old(self)@, event),
    {
        match event {
            WindowEventKind::CloseRequested => EventResponse {
                exit: true,
                handle_resize: false,
                draw_frame: false,
                request_redraw: false,
            },
            WindowEventKind::Occluded(occluded) => {
                self.suspended = occluded;
                EventResponse {
                    exit: false,
                    handle_resize: false,
                    draw_frame: false,
                    request_redraw: !occluded,
                }
            },
            WindowEventKind::Resized => EventResponse {
                exit: false,
                handle_resize: true,
                draw_frame: false,
                request_redraw: false,
            },
            WindowEventKind::RedrawRequested => {
                let active = !self.suspended;
                EventResponse {
                    exit: false,
                    handle_resize: false,
                    draw_frame: active,
                    request_redraw: active,
                }
            },
            WindowEventKind::Other => EventResponse {
                exit: false,
                handle_resize: false,
                draw_frame: false,
                request_redraw: false,
            },
        }
    }
}

/// A hidden window is never drawn to, nor asked for redraws.
pub proof fn law_hidden_window_never_draws()
    ensures
        spec_window_event(true, WindowEventKind::RedrawRequested) == (true, no_response()),
{
}

/// Hiding the window stops drawing; showing it again asks for a redraw at
/// once, and that redraw draws.
pub proof fn law_occlusion_pauses_and_resumes(suspended: bool)
    ensures
        ({
            let (hidden, _) = spec_window_event(suspended, WindowEventKind::Occluded(true));
            !spec_window_event(hidden, WindowEventKind::RedrawRequested).1.draw_frame
        }),
        ({
            let (shown, response) = spec_window_event(suspended, WindowEventKind::Occluded(false));
            &&& response.request_redraw
            &&& spec_window_event(shown, WindowEventKind::RedrawRequested).1.draw_frame
        }),
{
}

/// While visible, every redraw draws a frame and asks for the next one, so
/// frames follow one another without further events.
pub proof fn law_visible_window_redraws_continuously()
    ensures
        spec_window_event(false, WindowEventKind::RedrawRequested) == (
            false,
            EventResponse { exit: false, handle_resize: false, draw_frame: true, request_redraw: true },
        ),
{
}

/// Only occlusion changes whether the application is suspended.
pub proof fn law_only_occlusion_suspends(suspended: bool, event: WindowEventKind)
    requires
        !(event is Occluded),
    ensures
        spec_window_event(suspended, event).0 == suspended,
{
}

/// Closing the window exits and does nothing else.
pub proof fn law_close_only_exits(suspended: bool)
    ensures
        spec_window_event(suspended, WindowEventKind::CloseRequested) == (
            suspended,
            EventResponse { exit: true, ..no_response() },
        ),
{
}

/// A resize reaches the swapchain: the event asks the renderer to rebuild,
/// and the renderer's next acquire rebuilds it.
pub proof fn law_resize_event_rebuilds_swapchain<F>(suspended: bool, swapchain: SwapchainStateView<F>)
    ensures
        spec_window_event(suspended, WindowEventKind::Resized).1.handle_resize,
        spec_begin_acquire(spec_request_recreate(swapchain)).1,
{
}


/// What each event asks for, over every event and both states: a frame is
/// drawn only on a redraw of a visible window; a redraw is asked for after a
/// drawn frame or when the window shows again; the program exits only on
/// close; a rebuild is asked for only on resize; and only occlusion changes
/// whether the application is suspended.
pub proof fn law_window_event_responses(suspended: bool, event: WindowEventKind)
    ensures
        spec_window_event(suspended, event).1.draw_frame <==> (event == WindowEventKind::RedrawRequested
            && !suspended),
        spec_window_event(suspended, event).1.request_redraw <==> ((event == WindowEventKind::RedrawRequested
            && !suspended) || event == WindowEventKind::Occluded(false)),
        spec_window_event(suspended, event).1.exit <==> event == WindowEventKind::CloseRequested,
        spec_window_event(suspended, event).1.handle_resize <==> event == WindowEventKind::Resized,
        spec_window_event(suspended, event).0 == match event {
            WindowEventKind::Occluded(occluded) => occluded,
            _ => suspended,
        },
{
}

/// While the window is hidden no event draws a frame.
pub proof fn law_suspended_never_draws(event: WindowEventKind)
    ensures
        !spec_window_event(true, event).1.draw_frame,
{
}

/// A resize only asks for a rebuild, whether or not the window is hidden.
pub proof fn law_resize_only_requests_rebuild(suspended: bool)
    ensures
        spec_window_event(suspended, WindowEventKind::Resized) == (
            suspended,
            EventResponse { exit: false, handle_resize: true, draw_frame: false, request_redraw: false },
        ),
{
}

} // verus!
