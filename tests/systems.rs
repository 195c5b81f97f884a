use prgl_core::resources::{
    stages_match, usage_to_store_type, write_in_bounds, BufferUsage, ShaderType, StoreType,
};
use prgl_core::screen::WholeScreen;
use prgl_core::updater::{NeedUpdate, UpdaterImpl};

struct Counter {
    id: u32,
    ticks: u32,
    lifetime: u32,
}

impl NeedUpdate for Counter {
    fn update(&mut self) {
        self.ticks += 1;
    }

    fn destroyed(&self) -> bool {
        self.ticks >= self.lifetime
    }

    fn is_destroyed(&self) -> bool {
        self.destroyed()
    }
}

fn counter(id: u32, lifetime: u32) -> Counter {
    Counter { id, ticks: 0, lifetime }
}

fn ids(u: &UpdaterImpl<Counter>) -> Vec<u32> {
    u.updaters().iter().map(|o| o.updater.id).collect()
}

#[test]
fn updaters_start_next_frame_in_order() {
    let mut u = UpdaterImpl::new();
    u.own_with_order(counter(1, 10), Some(5));
    u.own(counter(2, 10));
    u.own_with_order(counter(3, 10), Some(1));
    assert!(u.updaters().is_empty());
    u.execute();
    assert_eq!(ids(&u), vec![2, 3, 1]);
    assert!(u.updaters().iter().all(|o| o.updater.ticks == 1));
}

#[test]
fn destroyed_updaters_leave() {
    let mut u = UpdaterImpl::new();
    u.own(counter(1, 1));
    u.own(counter(2, 3));
    u.execute();
    assert_eq!(ids(&u), vec![2, 1]);
    u.execute();
    assert_eq!(ids(&u), vec![2]);
}

#[test]
fn screen_update_marks_change() {
    let mut s = WholeScreen::new(1920, 1080);
    assert_eq!((s.width(), s.height()), (1, 1));
    s.update_size(800, 600);
    assert!(s.is_size_changed());
    assert_eq!((s.width(), s.height()), (800, 600));
    let v = s.viewport();
    assert_eq!((v.x, v.y, v.width, v.height), (560, 240, 800, 600));
    let m = s.max_viewport();
    assert_eq!((m.x, m.y, m.width, m.height), (0, 0, 1920, 1080));
}

#[test]
fn screen_viewport_rounds_toward_zero() {
    let mut s = WholeScreen::new(10, 10);
    s.update_size(13, 4);
    let v = s.viewport();
    assert_eq!((v.x, v.y), (-1, 3));
}

#[test]
fn buffer_store_types() {
    assert_eq!(usage_to_store_type(BufferUsage::Vertex), StoreType::StaticDraw);
    assert_eq!(usage_to_store_type(BufferUsage::Uniform), StoreType::StreamDraw);
    assert_eq!(usage_to_store_type(BufferUsage::TransformFeedback), StoreType::StreamCopy);
    assert_eq!(usage_to_store_type(BufferUsage::TransferDst), StoreType::StaticRead);
}

#[test]
fn buffer_write_bounds() {
    assert!(write_in_bounds(0, 16, 16));
    assert!(write_in_bounds(8, 8, 16));
    assert!(!write_in_bounds(9, 8, 16));
    assert!(!write_in_bounds(-1, 1, 16));
    assert!(!write_in_bounds(i32::MAX, usize::MAX, i32::MAX));
}

#[test]
fn shader_stages_must_match_slots() {
    assert!(stages_match(Some(ShaderType::VertexShader), Some(ShaderType::FragmentShader)));
    assert!(stages_match(None, None));
    assert!(!stages_match(Some(ShaderType::FragmentShader), None));
    assert!(!stages_match(None, Some(ShaderType::VertexShader)));
}

use prgl_core::event::{MouseEvent, MouseEventInfo, MouseState, MouseTracker};

fn at(x: i32, y: i32, event: MouseEvent) -> MouseEventInfo {
    MouseEventInfo { x, y, event }
}

#[test]
fn mouse_clicks_last_one_frame_and_down_persists() {
    let mut m = MouseTracker::new();
    m.begin_frame();
    m.handle(at(10, 20, MouseEvent::Down));
    m.handle(at(12, 25, MouseEvent::Click));
    assert!(m.mouse_state(MouseState::IsDown));
    assert!(m.mouse_state(MouseState::IsLeftClicked));
    assert_eq!((m.mouse_x(), m.mouse_y()), (12, 25));
    assert_eq!((m.mouse_dx(), m.mouse_dy()), (12, 25));
    m.begin_frame();
    assert!(m.mouse_state(MouseState::IsDown));
    assert!(!m.mouse_state(MouseState::IsLeftClicked));
    m.handle(at(2, 5, MouseEvent::Up));
    assert!(!m.mouse_state(MouseState::IsDown));
    assert_eq!((m.mouse_dx(), m.mouse_dy()), (-10, -20));
    m.handle(at(2, 5, MouseEvent::ContextMenu));
    m.handle(at(2, 5, MouseEvent::DoubleClick));
    assert!(m.mouse_state(MouseState::IsRightClicked));
    assert!(m.mouse_state(MouseState::IsDoubleClicked));
}
