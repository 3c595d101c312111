use dungeon_generation::room::Orientation::{DOWN, LEFT, RIGHT, UP};
use dungeon_generation::room::{
    boxes_collide, lines_intersect, shapes_collide, Collision, CollisionBox, Corridor, IShape, Line,
    Orientation, Rectangle, Room,
};
use dungeon_generation::vector::{I64Vec2, IVec2};

fn room(x: i32, y: i32, width: u32, height: u32) -> Room {
    Room { shape: Rectangle { width, height }, position: IVec2::new(x, y) }
}

fn corridor(x: i32, y: i32, orientation: Orientation, length: u32) -> Corridor {
    Corridor { shape: IShape { length, orientation }, position: IVec2::new(x, y) }
}

#[test]
fn line_collides_with_itself() {
    let line = Line::new(0, 10);

    assert_eq!(lines_intersect(&line, &line), true);
}

#[test]
fn line_test_1() {
    let line_1 = Line::new(0, 10);
    let line_2 = Line::new(0, 9);

    assert_eq!(lines_intersect(&line_1, &line_2), true);
}

#[test]
fn line_test_2() {
    let line_1 = Line::new(0, 10);
    let line_2 = Line::new(-1, 10);

    assert_eq!(lines_intersect(&line_1, &line_2), true);
}

#[test]
fn line_test_3() {
    let line_1 = Line::new(0, 10);
    let line_2 = Line::new(1, 9);

    assert_eq!(lines_intersect(&line_1, &line_2), true);
}

#[test]
fn line_test_4() {
    let line_1 = Line::new(0, 10);
    let line_2 = Line::new(2, 8);

    assert_eq!(lines_intersect(&line_1, &line_2), true);
}

#[test]
fn line_test_5() {
    let line_1 = Line::new(0, 10);
    let line_2 = Line::new(2, 12);

    assert_eq!(lines_intersect(&line_1, &line_2), true);
}

#[test]
fn line_test_6() {
    let line_1 = Line::new(1, 3);
    let line_2 = Line::new(-2, 0);

    assert_eq!(lines_intersect(&line_1, &line_2), false);
}

#[test]
fn room_collides_with_itself() {
    let room = Room {
        shape: Rectangle {
            width: 10,
            height: 10,
        },
        position: IVec2::new(0, 0),
    };

    assert_eq!(room.collides_with(&room), true)
}

#[test]
fn disjoint_rooms_dont_collide() {
    let lhs = Room {
        shape: Rectangle {
            width: 5,
            height: 5,
        },
        position: IVec2::new(0, 0),
    };

    let rhs = Room {
        shape: Rectangle {
            width: 5,
            height: 5,
        },
        position: IVec2::new(10, 10),
    };

    assert_eq!(lhs.collides_with(&rhs), false)
}

#[test]
fn corridor_collides_with_itself() {
    let corridor = Corridor {
        shape: IShape {
            length: 5,
            orientation: RIGHT,
        },
        position: IVec2::new(0, 0),
    };

    assert_eq!(corridor.collides_with(&corridor), true);
}

#[test]
fn disjoint_horizontal_corridors_dont_collide() {
    let lhs = Corridor {
        shape: IShape {
            length: 5,
            orientation: RIGHT,
        },
        position: IVec2::new(0, 0),
    };

    let rhs = Corridor {
        shape: IShape {
            length: 5,
            orientation: RIGHT,
        },
        position: IVec2::new(3, 1),
    };

    assert_eq!(lhs.collides_with(&rhs), false);
    assert_eq!(rhs.collides_with(&lhs), false);
}

#[test]
fn disjoint_perpendicular_corridors_dont_collide() {
    let lhs = Corridor {
        shape: IShape {
            length: 5,
            orientation: UP,
        },
        position: IVec2::new(0, 0),
    };

    let rhs = Corridor {
        shape: IShape {
            length: 5,
            orientation: RIGHT,
        },
        position: IVec2::new(3, 1),
    };

    assert_eq!(lhs.collides_with(&rhs), false);
}

#[test]
fn intersecting_perpendicular_corridors_collide() {
    let lhs = Corridor {
        shape: IShape {
            length: 5,
            orientation: UP,
        },
        position: IVec2::new(0, 0),
    };

    let rhs = Corridor {
        shape: IShape {
            length: 5,
            orientation: RIGHT,
        },
        position: IVec2::new(2, -1),
    };

    assert_eq!(lhs.collides_with(&rhs), false);
}

#[test]
fn corridors_collide() {
    let lhs = Corridor {
        shape: IShape {
            length: 5,
            orientation: UP,
        },
        position: IVec2::new(0, 0),
    };

    let rhs = Corridor {
        shape: IShape {
            length: 5,
            orientation: RIGHT,
        },
        position: IVec2::new(0, 1),
    };

    assert_eq!(lhs.collides_with(&rhs), true);
}

#[test]
fn corridors_collide_1() {
    let lhs = Corridor {
        shape: IShape {
            length: 10,
            orientation: DOWN,
        },
        position: IVec2::new(0, 3),
    };

    let rhs = Corridor {
        shape: IShape {
            length: 10,
            orientation: LEFT,
        },
        position: IVec2::new(2, 0),
    };

    assert_eq!(lhs.collides_with(&rhs), true);
}

#[test]
fn intersecting_room_and_corridor_collide() {
    let corridor = Corridor {
        shape: IShape {
            length: 5,
            orientation: RIGHT,
        },
        position: IVec2::new(2, 2),
    };

    let room = Room {
        shape: Rectangle {
            width: 10,
            height: 10,
        },
        position: IVec2::new(0, 0),
    };

    assert_eq!(corridor.collides_with(&room), true);
}

#[test]
fn disjoint_room_and_corridor_dont_collide() {
    let corridor = Corridor {
        shape: IShape {
            length: 5,
            orientation: RIGHT,
        },
        position: IVec2::new(1, 20),
    };

    let room = Room {
        shape: Rectangle {
            width: 5,
            height: 5,
        },
        position: IVec2::new(0, 0),
    };

    assert_eq!(corridor.collides_with(&room), false);
}

#[test]
fn touching_lines_intersect() {
    assert!(lines_intersect(&Line::new(0, 3), &Line::new(3, 7)));
    assert!(lines_intersect(&Line::new(3, 7), &Line::new(0, 3)));
    assert!(!lines_intersect(&Line::new(0, 3), &Line::new(4, 7)));
    assert!(!lines_intersect(&Line::new(4, 7), &Line::new(0, 3)));
}

#[test]
fn line_that_covers_another_intersects_it_both_ways() {
    assert!(lines_intersect(&Line::new(-5, 5), &Line::new(0, 1)));
    assert!(lines_intersect(&Line::new(0, 1), &Line::new(-5, 5)));
}

#[test]
fn lines_intersect_is_symmetric_on_a_grid_of_lines() {
    let ends: [i64; 7] = [-3, -1, 0, 1, 2, 5, 9];
    for a0 in ends {
        for a1 in ends {
            for b0 in ends {
                for b1 in ends {
                    let a = Line::new(a0, a1);
                    let b = Line::new(b0, b1);
                    assert_eq!(lines_intersect(&a, &b), lines_intersect(&b, &a));
                }
            }
        }
    }
}

#[test]
fn empty_line_meets_a_line_it_starts_in_or_just_behind() {
    let empty = Line::new(4, 3);
    assert!(lines_intersect(&empty, &Line::new(0, 4)));
    assert!(lines_intersect(&empty, &Line::new(0, 3)));
    assert!(!lines_intersect(&empty, &Line::new(0, 2)));
    assert!(lines_intersect(&empty, &empty));
}

#[test]
fn lines_at_the_ends_of_the_range() {
    let whole = Line::new(i64::MIN, i64::MAX);
    let top = Line::new(i64::MAX, i64::MAX);
    let bottom = Line::new(i64::MIN, i64::MIN);
    assert!(lines_intersect(&whole, &top));
    assert!(lines_intersect(&bottom, &whole));
    assert!(!lines_intersect(&bottom, &top));
}

#[test]
fn collision_is_symmetric_for_rooms_and_corridors() {
    let rooms = [room(0, 0, 5, 5), room(4, 4, 3, 3), room(10, 10, 5, 5), room(-3, 2, 4, 9)];
    let corridors = [
        corridor(0, 0, RIGHT, 5),
        corridor(4, 2, UP, 7),
        corridor(1, 20, LEFT, 3),
        corridor(2, 2, DOWN, 2),
        corridor(6, 6, RIGHT, 0),
    ];
    for a in rooms.iter() {
        for b in rooms.iter() {
            assert_eq!(a.collides_with(b), b.collides_with(a));
        }
        for c in corridors.iter() {
            assert_eq!(a.collides_with(c), c.collides_with(a));
            assert_eq!(shapes_collide(a, c), a.collides_with(c));
        }
    }
    for c in corridors.iter() {
        for d in corridors.iter() {
            assert_eq!(c.collides_with(d), d.collides_with(c));
        }
    }
}

#[test]
fn every_shape_collides_with_itself() {
    assert!(room(7, -3, 1, 1).collides_with(&room(7, -3, 1, 1)));
    assert!(room(7, -3, 0, 0).collides_with(&room(7, -3, 0, 0)));
    for orientation in [UP, DOWN, LEFT, RIGHT] {
        for length in [0, 1, 2, 3, 11] {
            let c = corridor(-4, 9, orientation, length);
            assert!(c.collides_with(&c));
        }
    }
}

#[test]
fn rooms_that_share_an_edge_cell_collide() {
    assert!(room(0, 0, 5, 5).collides_with(&room(4, 0, 5, 5)));
    assert!(!room(0, 0, 5, 5).collides_with(&room(5, 0, 5, 5)));
    assert!(room(0, 0, 5, 5).collides_with(&room(4, 4, 1, 1)));
    assert!(!room(0, 0, 5, 5).collides_with(&room(4, 5, 1, 1)));
}

#[test]
fn room_box_is_the_room() {
    let b = room(-2, 3, 4, 6).to_collision_box();
    assert_eq!(b, CollisionBox { shape: Rectangle { width: 4, height: 6 }, position: I64Vec2::new(-2, 3) });
}

#[test]
fn corridor_box_leaves_out_the_ends_and_takes_in_the_flanks() {
    let right = corridor(0, 0, RIGHT, 5).to_collision_box();
    assert_eq!(right.position, I64Vec2::new(1, -1));
    assert_eq!(right.shape, Rectangle { width: 3, height: 3 });

    let left = corridor(2, 0, LEFT, 10).to_collision_box();
    assert_eq!(left.position, I64Vec2::new(-6, -1));
    assert_eq!(left.shape, Rectangle { width: 8, height: 3 });

    let up = corridor(0, 0, UP, 5).to_collision_box();
    assert_eq!(up.position, I64Vec2::new(-1, 1));
    assert_eq!(up.shape, Rectangle { width: 3, height: 3 });

    let down = corridor(0, 3, DOWN, 10).to_collision_box();
    assert_eq!(down.position, I64Vec2::new(-1, -5));
    assert_eq!(down.shape, Rectangle { width: 3, height: 8 });

    let shortest = corridor(0, 0, RIGHT, 3).to_collision_box();
    assert_eq!(shortest.position, I64Vec2::new(1, -1));
    assert_eq!(shortest.shape, Rectangle { width: 1, height: 3 });
}

#[test]
fn short_corridor_has_an_empty_box_at_its_position() {
    for length in [0, 1, 2] {
        for orientation in [UP, DOWN, LEFT, RIGHT] {
            let b = corridor(5, -7, orientation, length).to_collision_box();
            assert_eq!(b.position, I64Vec2::new(5, -7));
            assert_eq!(b.shape, Rectangle { width: 0, height: 0 });
        }
    }
}

#[test]
fn parallel_corridors_end_to_end_do_not_collide() {
    let lhs = corridor(0, 0, RIGHT, 5);
    let rhs = corridor(3, 0, RIGHT, 5);
    assert_eq!(lhs.collides_with(&rhs), false);
    assert_eq!(rhs.collides_with(&lhs), false);

    let overlapping = corridor(2, 0, RIGHT, 5);
    assert_eq!(lhs.collides_with(&overlapping), true);
}

#[test]
fn corridor_below_the_start_of_another_does_not_collide() {
    let lhs = corridor(0, 0, UP, 5);
    let rhs = corridor(0, -1, RIGHT, 5);
    assert_eq!(lhs.collides_with(&rhs), false);
    assert_eq!(rhs.collides_with(&lhs), false);
}

#[test]
fn corridor_does_not_collide_with_the_rooms_it_joins() {
    let start = room(0, 0, 6, 6);
    for (orientation, x, y) in [(RIGHT, 5, 2), (LEFT, 0, 3), (UP, 2, 5), (DOWN, 4, 0)] {
        for length in [3, 4, 11] {
            let c = corridor(x, y, orientation, length);
            assert!(!c.collides_with(&start));
            assert!(!start.collides_with(&c));
            for slide in [1, 4] {
                let end = Room::at_end_of(&c, Rectangle { width: 6, height: 6 }, slide).unwrap();
                assert!(!c.collides_with(&end));
                assert!(!end.collides_with(&c));
            }
        }
    }
}

#[test]
fn corridor_that_runs_through_a_room_collides_with_it() {
    let crossed = room(3, -2, 4, 4);
    assert!(corridor(0, 0, RIGHT, 10).collides_with(&crossed));
    assert!(crossed.collides_with(&corridor(0, 0, RIGHT, 10)));
}

#[test]
fn shapes_at_the_far_corners_of_the_grid() {
    let huge = room(i32::MAX, i32::MAX, u32::MAX, u32::MAX);
    let low = room(i32::MIN, i32::MIN, 1, 1);
    assert!(huge.collides_with(&huge));
    assert!(!huge.collides_with(&low));
    assert!(!low.collides_with(&huge));

    let long = corridor(i32::MIN, i32::MIN, LEFT, u32::MAX);
    assert!(long.collides_with(&long));
    let b = long.to_collision_box();
    assert_eq!(b.position, I64Vec2::new(i32::MIN as i64 - (u32::MAX as i64 - 2), i32::MIN as i64 - 1));
    assert_eq!(b.shape, Rectangle { width: u32::MAX - 2, height: 3 });
    assert!(!long.collides_with(&huge));

    let down = corridor(i32::MAX, i32::MIN, DOWN, u32::MAX);
    assert!(down.collides_with(&down));
    assert!(!down.collides_with(&long));
}

#[test]
fn boxes_collide_by_columns_and_rows() {
    let a = CollisionBox { shape: Rectangle { width: 3, height: 3 }, position: I64Vec2::new(0, 0) };
    let b = CollisionBox { shape: Rectangle { width: 3, height: 3 }, position: I64Vec2::new(2, 2) };
    let c = CollisionBox { shape: Rectangle { width: 3, height: 3 }, position: I64Vec2::new(2, 3) };
    assert!(boxes_collide(&a, &b));
    assert!(!boxes_collide(&a, &c));
    assert_eq!(a.x_line(), Line::new(0, 2));
    assert_eq!(c.y_line(), Line::new(3, 5));
}

#[test]
fn orientation_gives_its_unit_step() {
    assert_eq!(IVec2::from(RIGHT), IVec2::new(1, 0));
    assert_eq!(IVec2::from(LEFT), IVec2::new(-1, 0));
    assert_eq!(IVec2::from(UP), IVec2::new(0, 1));
    assert_eq!(IVec2::from(DOWN), IVec2::new(0, -1));
}
