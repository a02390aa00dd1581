use pinball::{Ball, Circle, Vec2, WINDOW_HEIGHT, WINDOW_WIDTH};

fn ball(x: i32, y: i32, dx: i32, dy: i32) -> Ball {
    Ball { position: Vec2::new(x, y), velocity: Vec2::new(dx, dy), radius: 10 }
}

#[test]
fn new_ball_starts_in_the_middle() {
    let b = Ball::new();
    assert_eq!(b.position, Vec2 { x: 400, y: 300 });
    assert_eq!(b.velocity, Vec2 { x: 3, y: 3 });
    assert_eq!(b.radius, 10);
    assert_eq!(b.position.x * 2, WINDOW_WIDTH);
    assert_eq!(b.position.y * 2, WINDOW_HEIGHT);
    assert!(b.can_update());
}

#[test]
fn ball_in_open_field_moves_by_its_velocity() {
    let mut b = ball(400, 300, 3, 3);
    b.update();
    assert_eq!(b.position, Vec2 { x: 403, y: 303 });
    assert_eq!(b.velocity, Vec2 { x: 3, y: 3 });
    assert_eq!(b.radius, 10);
}

#[test]
fn ball_past_the_right_edge_turns_back() {
    let mut b = ball(799, 300, 3, 0);
    b.update();
    assert_eq!(b.position, Vec2 { x: 802, y: 300 });
    assert_eq!(b.velocity, Vec2 { x: -3, y: 0 });
}

#[test]
fn ball_past_the_left_edge_turns_back() {
    let mut b = ball(2, 300, -3, 0);
    b.update();
    assert_eq!(b.position, Vec2 { x: -1, y: 300 });
    assert_eq!(b.velocity, Vec2 { x: 3, y: 0 });
}

#[test]
fn ball_past_the_bottom_edge_turns_back() {
    let mut b = ball(100, 598, 0, 3);
    b.update();
    assert_eq!(b.position, Vec2 { x: 100, y: 601 });
    assert_eq!(b.velocity, Vec2 { x: 0, y: -3 });
}

#[test]
fn ball_past_the_top_edge_turns_back() {
    let mut b = ball(100, 1, 0, -3);
    b.update();
    assert_eq!(b.position, Vec2 { x: 100, y: -2 });
    assert_eq!(b.velocity, Vec2 { x: 0, y: 3 });
}

#[test]
fn ball_past_a_corner_turns_back_on_both_axes() {
    let mut b = ball(2, 5, -7, -9);
    b.update();
    assert_eq!(b.position, Vec2 { x: -5, y: -4 });
    assert_eq!(b.velocity, Vec2 { x: 7, y: 9 });
}

#[test]
fn ball_on_an_edge_keeps_its_course() {
    let mut right = ball(797, 300, 3, 0);
    right.update();
    assert_eq!(right.position.x, 800);
    assert_eq!(right.velocity.x, 3);

    let mut left = ball(3, 300, -3, 0);
    left.update();
    assert_eq!(left.position.x, 0);
    assert_eq!(left.velocity.x, -3);

    let mut bottom = ball(100, 597, 0, 3);
    bottom.update();
    assert_eq!(bottom.position.y, 600);
    assert_eq!(bottom.velocity.y, 3);

    let mut top = ball(100, 3, 0, -3);
    top.update();
    assert_eq!(top.position.y, 0);
    assert_eq!(top.velocity.y, -3);
}

#[test]
fn ball_one_pixel_beyond_an_edge_turns_back() {
    let mut right = ball(798, 300, 3, 0);
    right.update();
    assert_eq!(right.position.x, 801);
    assert_eq!(right.velocity.x, -3);

    let mut bottom = ball(100, 598, 0, 3);
    bottom.update();
    assert_eq!(bottom.position.y, 601);
    assert_eq!(bottom.velocity.y, -3);
}

#[test]
fn ball_is_not_pulled_back_onto_the_edge() {
    let mut b = ball(790, 300, 50, 0);
    b.update();
    assert_eq!(b.position.x, 840);
    assert_eq!(b.velocity.x, -50);
    b.update();
    assert_eq!(b.position.x, 790);
    assert_eq!(b.velocity.x, -50);
}

#[test]
fn ball_far_outside_turns_in_every_frame() {
    let mut b = ball(1000, 300, 3, 0);
    b.update();
    assert_eq!((b.position.x, b.velocity.x), (1003, -3));
    b.update();
    assert_eq!((b.position.x, b.velocity.x), (1000, 3));
    b.update();
    assert_eq!((b.position.x, b.velocity.x), (1003, -3));
}

#[test]
fn ball_at_rest_stays_where_it_is() {
    let mut inside = ball(10, 20, 0, 0);
    inside.update();
    assert_eq!(inside, ball(10, 20, 0, 0));

    let mut outside = ball(-10, 700, 0, 0);
    outside.update();
    assert_eq!(outside, ball(-10, 700, 0, 0));
}

#[test]
fn ball_position_is_the_sum_on_many_inputs() {
    let starts: [i32; 5] = [-40, 0, 400, 800, 840];
    let speeds: [i32; 5] = [-50, -1, 0, 1, 50];
    for x in starts {
        for y in starts {
            for dx in speeds {
                for dy in speeds {
                    let mut b = ball(x, y, dx, dy);
                    assert!(b.can_update());
                    b.update();
                    assert_eq!(b.position, Vec2 { x: x + dx, y: y + dy });
                    let off_x: bool = x + dx < 0 || x + dx > 800;
                    let off_y: bool = y + dy < 0 || y + dy > 600;
                    assert_eq!(b.velocity.x, if off_x { -dx } else { dx });
                    assert_eq!(b.velocity.y, if off_y { -dy } else { dy });
                    assert_eq!(b.radius, 10);
                }
            }
        }
    }
}

#[test]
fn ball_near_the_end_of_the_range() {
    let mut b = ball(i32::MAX - 3, i32::MIN + 3, 3, -3);
    assert!(b.can_update());
    b.update();
    assert_eq!(b.position, Vec2 { x: i32::MAX, y: i32::MIN });
    assert_eq!(b.velocity, Vec2 { x: -3, y: 3 });

    let mut fast = ball(0, 0, i32::MAX, -i32::MAX);
    assert!(fast.can_update());
    fast.update();
    assert_eq!(fast.position, Vec2 { x: i32::MAX, y: -i32::MAX });
    assert_eq!(fast.velocity, Vec2 { x: -i32::MAX, y: i32::MAX });
}

#[test]
fn ball_that_would_leave_the_range_cannot_update() {
    assert!(!ball(i32::MAX, 0, 1, 0).can_update());
    assert!(!ball(0, i32::MAX, 0, 1).can_update());
    assert!(!ball(i32::MIN, 0, -1, 0).can_update());
    assert!(!ball(0, i32::MIN, 0, -1).can_update());
    assert!(ball(i32::MAX, i32::MIN, 0, 0).can_update());
}

#[test]
fn ball_whose_velocity_has_no_reverse_cannot_update() {
    assert!(!ball(400, 300, i32::MIN, 0).can_update());
    assert!(!ball(400, 300, 0, i32::MIN).can_update());
    assert!(ball(400, 300, i32::MIN + 1, i32::MIN + 1).can_update());
}

#[test]
fn ball_with_negative_radius_cannot_update() {
    let b = Ball { position: Vec2::new(400, 300), velocity: Vec2::new(3, 3), radius: -1 };
    assert!(!b.can_update());
    let flat = Ball { position: Vec2::new(400, 300), velocity: Vec2::new(3, 3), radius: 0 };
    assert!(flat.can_update());
}

#[test]
fn ball_is_drawn_as_a_disc_round_its_position() {
    let b = Ball { position: Vec2::new(12, 34), velocity: Vec2::new(-5, 6), radius: 7 };
    assert_eq!(b.draw(), Circle { center: Vec2 { x: 12, y: 34 }, radius: 7 });
    assert_eq!(Ball::new().draw(), Circle { center: Vec2 { x: 400, y: 300 }, radius: 10 });
}

#[test]
fn vec2_new_keeps_its_arguments() {
    let v = Vec2::new(-7, 9);
    assert_eq!(v.x, -7);
    assert_eq!(v.y, 9);
    assert_ne!(Vec2::new(9, -7), v);
}
