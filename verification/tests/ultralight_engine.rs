use smart_brain_engine::ultralight_engine::{
    active_punch_zones, DirtyRect, UltralightEngine, UltralightGpuDriver,
};

type Geometry = (i32, i32, i32, i32);

fn inactive(g: Geometry) -> DirtyRect<Geometry> {
    let mut r = DirtyRect::new(g);
    r.is_active = false;
    r
}

#[test]
fn new_engine_is_empty() {
    let engine: UltralightEngine<Geometry> = UltralightEngine::new();
    assert!(engine.is_initialized);
    assert!(engine.gpu_driver.is_gpu_accelerated);
    assert!(engine.active_dirty_rects.is_empty());
    assert!(engine.pending_js_triggers.is_empty());
}

#[test]
fn new_rect_is_active() {
    let r = DirtyRect::new((400, 200, 300, 200));
    assert!(r.is_active);
    assert_eq!(r.geometry, (400, 200, 300, 200));
}

#[test]
fn register_appends_in_order() {
    let mut engine: UltralightEngine<Geometry> = UltralightEngine::new();
    engine.register_dirty_rect(DirtyRect::new((0, 0, 1280, 40)));
    engine.register_dirty_rect(DirtyRect::new((400, 200, 300, 200)));
    let geoms: Vec<Geometry> = engine.active_dirty_rects.iter().map(|r| r.geometry).collect();
    assert_eq!(geoms, vec![(0, 0, 1280, 40), (400, 200, 300, 200)]);
}

#[test]
fn clear_expired_keeps_active_in_order() {
    let mut engine: UltralightEngine<Geometry> = UltralightEngine::new();
    engine.register_dirty_rect(DirtyRect::new((1, 1, 1, 1)));
    engine.register_dirty_rect(inactive((2, 2, 2, 2)));
    engine.register_dirty_rect(DirtyRect::new((3, 3, 3, 3)));
    engine.register_dirty_rect(inactive((4, 4, 4, 4)));
    engine.receive_js_trigger("popup_opened");
    engine.clear_expired_rects();
    let geoms: Vec<Geometry> = engine.active_dirty_rects.iter().map(|r| r.geometry).collect();
    assert_eq!(geoms, vec![(1, 1, 1, 1), (3, 3, 3, 3)]);
    assert!(engine.active_dirty_rects.iter().all(|r| r.is_active));
    assert_eq!(engine.pending_js_triggers.len(), 1);
    engine.clear_expired_rects();
    assert_eq!(engine.active_dirty_rects.len(), 2);
}

#[test]
fn normal_refresh_and_render_drop_closed_rects() {
    let mut engine: UltralightEngine<Geometry> = UltralightEngine::new();
    engine.register_dirty_rect(inactive((2, 2, 2, 2)));
    engine.register_dirty_rect(DirtyRect::new((0, 0, 1280, 40)));
    engine.normal_refresh();
    assert_eq!(engine.active_dirty_rects.len(), 1);
    engine.register_dirty_rect(inactive((5, 5, 5, 5)));
    engine.render_html_surface();
    assert_eq!(engine.active_dirty_rects.len(), 1);
    assert_eq!(engine.active_dirty_rects[0].geometry, (0, 0, 1280, 40));
}

#[test]
fn hard_refresh_leaves_only_nav_bar() {
    let mut engine: UltralightEngine<Geometry> = UltralightEngine::new();
    engine.register_dirty_rect(DirtyRect::new((400, 200, 300, 200)));
    engine.register_dirty_rect(inactive((2, 2, 2, 2)));
    engine.receive_js_trigger("popup_opened");
    engine.receive_js_trigger("popup_closed");
    engine.hard_refresh((0, 0, 1280, 40));
    assert_eq!(engine.active_dirty_rects.len(), 1);
    assert!(engine.active_dirty_rects[0].is_active);
    assert_eq!(engine.active_dirty_rects[0].geometry, (0, 0, 1280, 40));
    assert!(engine.pending_js_triggers.is_empty());
    engine.clear_expired_rects();
    assert_eq!(engine.active_dirty_rects.len(), 1);
}

#[test]
fn js_triggers_queue_in_arrival_order() {
    let mut engine: UltralightEngine<Geometry> = UltralightEngine::new();
    engine.receive_js_trigger("popup_opened");
    engine.receive_js_trigger("popup_closed");
    engine.receive_js_trigger("");
    let names: Vec<&str> = engine.pending_js_triggers.iter().map(|s| s.as_str()).collect();
    assert_eq!(names, vec!["popup_opened", "popup_closed", ""]);
}

#[test]
fn punch_zones_are_active_geometries() {
    let rects = vec![
        DirtyRect::new((0, 0, 1280, 40)),
        inactive((9, 9, 9, 9)),
        DirtyRect::new((400, 200, 300, 200)),
    ];
    assert_eq!(active_punch_zones(&rects), vec![(0, 0, 1280, 40), (400, 200, 300, 200)]);
    let none: Vec<DirtyRect<Geometry>> = vec![inactive((1, 1, 1, 1))];
    assert!(active_punch_zones(&none).is_empty());
}

#[test]
fn gpu_driver_is_accelerated() {
    let driver = UltralightGpuDriver::new();
    assert!(driver.is_gpu_accelerated);
    driver.flush_gpu_cache();
    assert!(driver.is_gpu_accelerated);
}

#[test]
fn clearing_does_not_change_punch_zones() {
    let mut engine: UltralightEngine<Geometry> = UltralightEngine::new();
    engine.register_dirty_rect(DirtyRect::new((0, 0, 1280, 40)));
    engine.register_dirty_rect(inactive((400, 200, 300, 200)));
    engine.register_dirty_rect(DirtyRect::new((10, 10, 20, 20)));
    let before = active_punch_zones(&engine.active_dirty_rects);
    engine.clear_expired_rects();
    assert_eq!(active_punch_zones(&engine.active_dirty_rects), before);
    assert_eq!(before, vec![(0, 0, 1280, 40), (10, 10, 20, 20)]);
}
