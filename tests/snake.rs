use snake_game::render::to_coord_u32;
use snake_game::snake::{Direction, Snake};

#[test]
fn opposite_twice_is_identity() {
    for d in [Direction::Up, Direction::Down, Direction::Left, Direction::Right] {
        assert_eq!(d.opposite().opposite(), d);
    }
    assert_eq!(Direction::Up.opposite(), Direction::Down);
    assert_eq!(Direction::Left.opposite(), Direction::Right);
}

#[test]
fn new_snake_has_three_cells_facing_right() {
    let s = Snake::new(5, 7);
    assert_eq!(s.len(), 3);
    assert_eq!(s.head_position(), (7, 7));
    assert_eq!(s.head_direction(), Direction::Right);
    assert_eq!(s.cells(), vec![(7, 7), (6, 7), (5, 7)]);
}

#[test]
fn next_head_follows_direction() {
    let s = Snake::new(2, 2);
    assert_eq!(s.next_head(None), (5, 2));
    assert_eq!(s.next_head(Some(Direction::Up)), (4, 1));
    assert_eq!(s.next_head(Some(Direction::Down)), (4, 3));
    assert_eq!(s.next_head(Some(Direction::Left)), (3, 2));
    assert_eq!(s.next_head(Some(Direction::Right)), (5, 2));
}

#[test]
fn next_head_is_pure() {
    let s = Snake::new(2, 2);
    let before = s.clone();
    let a = s.next_head(Some(Direction::Down));
    let b = s.next_head(Some(Direction::Down));
    assert_eq!(a, b);
    assert_eq!(s, before);
}

#[test]
fn over_tail_checks_every_cell() {
    let s = Snake::new(2, 2);
    assert!(s.over_tail(4, 2));
    assert!(s.over_tail(3, 2));
    assert!(s.over_tail(2, 2));
    assert!(!s.over_tail(5, 2));
    assert!(!s.over_tail(2, 3));
}

#[test]
fn move_forward_keeps_length() {
    let mut s = Snake::new(2, 2);
    s.move_forward(None);
    assert_eq!(s.len(), 3);
    assert_eq!(s.cells(), vec![(5, 2), (4, 2), (3, 2)]);
    s.move_forward(Some(Direction::Down));
    assert_eq!(s.len(), 3);
    assert_eq!(s.head_direction(), Direction::Down);
    assert_eq!(s.cells(), vec![(5, 3), (5, 2), (4, 2)]);
}

#[test]
fn restore_tail_grows_by_one() {
    let mut s = Snake::new(2, 2);
    s.move_forward(None);
    s.restore_tail();
    assert_eq!(s.len(), 4);
    assert_eq!(s.cells(), vec![(5, 2), (4, 2), (3, 2), (2, 2)]);
}

#[test]
fn snake_draw_marks_head() {
    let s = Snake::new(2, 2);
    let blocks = s.draw();
    assert_eq!(blocks.len(), 3);
    assert_eq!(blocks[0].paint, snake_game::render::Paint::Head);
    assert_eq!((blocks[0].x, blocks[0].y), (4, 2));
    assert_eq!(blocks[2].paint, snake_game::render::Paint::Body);
    assert_eq!((blocks[2].x, blocks[2].y, blocks[2].width, blocks[2].height), (2, 2, 1, 1));
}

#[test]
fn coordinates_scale_to_pixels() {
    assert_eq!(to_coord_u32(30), 600);
    assert_eq!(to_coord_u32(0), 0);
    assert_eq!(to_coord_u32(-3), 0);
    assert_eq!(to_coord_u32(i32::MAX), u32::MAX);
}
