use icy_counter::circle::{CanvasPoint, Circle, CircleShape, FillColor};

#[test]
fn pointer_outside_draws_one_fixed_circle() {
    let c = Circle { x: 100, y: 100, radius: 50 };
    let shapes = c.draw(CanvasPoint { x: 400, y: 300 }, None);
    assert_eq!(
        shapes,
        vec![CircleShape { center_x: 500, center_y: 400, radius: 50, color: FillColor::Black }]
    );
}

#[test]
fn pointer_inside_draws_two_circles() {
    let c = Circle { x: 100, y: 100, radius: 50 };
    let shapes = c.draw(CanvasPoint { x: 400, y: 300 }, Some(CanvasPoint { x: 12, y: 34 }));
    assert_eq!(
        shapes,
        vec![
            CircleShape { center_x: 500, center_y: 400, radius: 50, color: FillColor::Black },
            CircleShape { center_x: 12, center_y: 34, radius: 50, color: FillColor::Blue },
        ]
    );
}

#[test]
fn negative_offsets_move_the_fixed_circle_back() {
    let c = Circle { x: -10, y: -20, radius: 5 };
    let shapes = c.draw(CanvasPoint { x: 100, y: 100 }, None);
    assert_eq!(shapes.len(), 1);
    assert_eq!(shapes[0].center_x, 90);
    assert_eq!(shapes[0].center_y, 80);
}
