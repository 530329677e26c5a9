use canvas_runtime::items::{resolve_area, resolve_item};
use canvas_runtime::{Area, CanvasContext, CanvasItem, Color, Shape, Size, Text};

const WHITE: Color = Color(255, 255, 255, 255);
const BLACK: Color = Color(0, 0, 0, 255);

fn context() -> CanvasContext {
    CanvasContext::new(Size::new(800, 600, 2000))
}

#[test]
fn clear_pushes_full_size_background_at_max_z() {
    let mut ctx = context();
    ctx.clear(WHITE);
    let items = ctx.drain();
    assert_eq!(items.len(), 1);
    let (area, item) = &items[0];
    assert_eq!(area.z, u16::MAX);
    assert_eq!((area.x, area.y, area.w, area.h), (0, 0, 800, 600));
    // the background rectangle covers the logical size, resolved back to
    // physical pixels
    assert_eq!(*item, CanvasItem::Shape(Shape::Rectangle(0, (800, 600)), WHITE));
}

#[test]
fn draw_z_decreases_with_call_order() {
    let mut ctx = context();
    ctx.clear(WHITE);
    for _ in 0u32..3 {
        ctx.draw(Area((0, 0), Some((10, 10))), CanvasItem::Shape(Shape::Rectangle(0, (10, 10)), BLACK));
    }
    let items = ctx.drain();
    assert_eq!(items.len(), 4);
    let zs: Vec<u16> = items.iter().map(|(a, _)| a.z).collect();
    assert_eq!(zs, vec![65535, 65534, 65533, 65532]);
    for w in zs.windows(2) {
        assert!(w[0] > w[1], "earlier items must be further back");
    }
}

#[test]
fn draw_without_clear_starts_just_in_front_of_background_depth() {
    let mut ctx = context();
    ctx.draw(Area((0, 0), None), CanvasItem::Shape(Shape::Rectangle(0, (1, 1)), BLACK));
    let items = ctx.drain();
    assert_eq!(items[0].0.z, u16::MAX - 1);
}

#[test]
fn clear_restarts_the_frame() {
    let mut ctx = context();
    ctx.draw(Area((0, 0), None), CanvasItem::Shape(Shape::Rectangle(0, (1, 1)), BLACK));
    ctx.draw(Area((0, 0), None), CanvasItem::Shape(Shape::Rectangle(0, (1, 1)), BLACK));
    ctx.clear(WHITE);
    ctx.draw(Area((0, 0), None), CanvasItem::Shape(Shape::Rectangle(0, (2, 2)), BLACK));
    let items = ctx.drain();
    assert_eq!(items.len(), 2);
    assert_eq!(items[0].0.z, u16::MAX);
    assert_eq!(items[1].0.z, u16::MAX - 1);
}

#[test]
fn drain_empties_and_resets_depths() {
    let mut ctx = context();
    ctx.clear(WHITE);
    ctx.draw(Area((0, 0), None), CanvasItem::Shape(Shape::Rectangle(0, (1, 1)), BLACK));
    assert_eq!(ctx.drain().len(), 2);
    assert_eq!(ctx.drain().len(), 0);
    ctx.draw(Area((0, 0), None), CanvasItem::Shape(Shape::Rectangle(0, (1, 1)), BLACK));
    let items = ctx.drain();
    assert_eq!(items.len(), 1);
    assert_eq!(items[0].0.z, u16::MAX - 1);
}

#[test]
fn areas_resolve_to_physical_pixels() {
    let size = Size::new(800, 600, 2000);
    let resolved = resolve_area(Area((10, 20), Some((30, 40))), 7, &size);
    assert_eq!((resolved.x, resolved.y, resolved.w, resolved.h, resolved.z), (20, 40, 60, 80, 7));
    // a missing extent stands for the full physical dimensions
    let resolved = resolve_area(Area((5, 5), None), 3, &size);
    assert_eq!((resolved.x, resolved.y, resolved.w, resolved.h), (10, 10, 800, 600));
}

#[test]
fn items_resolve_to_physical_pixels() {
    let size = Size::new(800, 600, 2000);
    let text = Text { content: String::from("hi"), font: 4, font_size: 16, line_height: 20, color: BLACK };
    let resolved = resolve_item(CanvasItem::Text(text), &size);
    match resolved {
        CanvasItem::Text(t) => {
            assert_eq!(t.content, "hi");
            assert_eq!(t.font, 4);
            assert_eq!(t.font_size, 32);
            assert_eq!(t.line_height, 40);
        },
        other => panic!("expected text, got {:?}", other),
    }
    let resolved = resolve_item(
        CanvasItem::Shape(Shape::RoundedRectangle(2, (10, 12), 3), BLACK),
        &size,
    );
    assert_eq!(resolved, CanvasItem::Shape(Shape::RoundedRectangle(4, (20, 24), 6), BLACK));
}
