use canvas_runtime::surface::SurfaceManager;

#[test]
fn first_resize_configures_and_creates_both_targets() {
    let mut s = SurfaceManager::new(8192);
    // at startup: 1x1 placeholder, depth target created once, no msaa yet
    assert_eq!(s.dimensions(), (1, 1));
    assert_eq!(s.recreations(), (0, 1));
    let dims = s.resize(800, 600);
    assert_eq!(dims, (800, 600));
    assert_eq!(s.dimensions(), (800, 600));
    assert_eq!(s.recreations(), (1, 2));
}

#[test]
fn resize_to_same_dimensions_recreates_nothing() {
    let mut s = SurfaceManager::new(8192);
    s.resize(800, 600);
    let before = s.recreations();
    let dims = s.resize(800, 600);
    assert_eq!(dims, (800, 600));
    assert_eq!(s.recreations(), before);
}

#[test]
fn resize_to_zero_changes_nothing() {
    let mut s = SurfaceManager::new(8192);
    s.resize(800, 600);
    let before = s.recreations();
    assert_eq!(s.resize(0, 0), (800, 600));
    assert_eq!(s.resize(0, 100), (800, 600));
    assert_eq!(s.resize(100, 0), (800, 600));
    assert_eq!(s.dimensions(), (800, 600));
    assert_eq!(s.recreations(), before);
}

#[test]
fn resize_clamps_to_the_device_maximum() {
    let mut s = SurfaceManager::new(1000);
    assert_eq!(s.resize(5000, 400), (1000, 400));
}

#[test]
fn both_targets_are_recreated_together() {
    let mut s = SurfaceManager::new(8192);
    s.resize(800, 600);
    s.resize(1600, 1200);
    s.resize(320, 240);
    let (msaa, depth) = s.recreations();
    assert_eq!(msaa, 3);
    // the depth target exists once from startup; afterwards the two are
    // recreated in lockstep
    assert_eq!(depth, msaa + 1);
}
