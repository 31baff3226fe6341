use jitter_grid::geometry::{cell_position, Point, MAX_NUM_SQUARES, NUM_X, NUM_Y};
use jitter_grid::model::{model, mouse_released, mouse_wheel, save_frame, view, Button, Model, Wheel};
use jitter_grid::palette::color_of_layer;

fn outlines(m: &Model) -> Vec<Vec<Vec<Point>>> {
    m.squares()
        .iter()
        .map(|s| s.collection().iter().map(|q| q.points().clone()).collect())
        .collect()
}

fn places(m: &Model) -> Vec<(Point, i32)> {
    m.squares().iter().map(|s| (s.position(), s.randomness())).collect()
}

#[test]
fn scene_starts_with_one_layer_and_no_frame() {
    let m = model();
    assert_eq!(m.current_num_squares(), 1);
    assert_eq!(m.export(), 0);
    assert_eq!(m.squares().len(), 63);
}

#[test]
fn scene_covers_the_grid() {
    let m = model();
    let mut k = 0;
    for i_x in 0..NUM_X {
        for i_y in 0..NUM_Y {
            assert_eq!(m.squares()[k].position(), cell_position(i_x, i_y));
            assert_eq!(m.squares()[k].randomness(), i_y - (i_x + 1));
            assert_eq!(m.squares()[k].collection().len(), MAX_NUM_SQUARES);
            k += 1;
        }
    }
}

#[test]
fn wheel_up_adds_a_layer_and_saves_a_frame() {
    let mut m = model();
    assert_eq!(mouse_wheel(&mut m, Wheel::Up), Some("000.png".to_string()));
    assert_eq!(m.current_num_squares(), 2);
    assert_eq!(m.export(), 1);
    assert_eq!(mouse_wheel(&mut m, Wheel::Up), Some("001.png".to_string()));
    assert_eq!(m.current_num_squares(), 3);
    assert_eq!(m.export(), 2);
}

#[test]
fn wheel_down_at_one_layer_does_nothing() {
    let mut m = model();
    assert_eq!(mouse_wheel(&mut m, Wheel::Down), None);
    assert_eq!(m.current_num_squares(), 1);
    assert_eq!(m.export(), 0);
}

#[test]
fn wheel_up_stops_at_a_full_stack() {
    let mut m = model();
    for n in 2..=MAX_NUM_SQUARES {
        assert!(mouse_wheel(&mut m, Wheel::Up).is_some());
        assert_eq!(m.current_num_squares(), n);
    }
    assert_eq!(m.export(), 7);
    for _ in 0..5 {
        assert_eq!(mouse_wheel(&mut m, Wheel::Up), None);
        assert_eq!(m.current_num_squares(), 8);
        assert_eq!(m.export(), 7);
    }
}

#[test]
fn wheel_down_removes_a_layer_and_saves_a_frame() {
    let mut m = model();
    mouse_wheel(&mut m, Wheel::Up);
    mouse_wheel(&mut m, Wheel::Up);
    assert_eq!(mouse_wheel(&mut m, Wheel::Down), Some("002.png".to_string()));
    assert_eq!(m.current_num_squares(), 2);
    assert_eq!(mouse_wheel(&mut m, Wheel::Down), Some("003.png".to_string()));
    assert_eq!(m.current_num_squares(), 1);
    assert_eq!(mouse_wheel(&mut m, Wheel::Down), None);
    assert_eq!(m.current_num_squares(), 1);
    assert_eq!(m.export(), 4);
}

#[test]
fn still_wheel_does_nothing() {
    let mut m = model();
    mouse_wheel(&mut m, Wheel::Up);
    let before = outlines(&m);
    assert_eq!(mouse_wheel(&mut m, Wheel::Still), None);
    assert_eq!(m.current_num_squares(), 2);
    assert_eq!(m.export(), 1);
    assert_eq!(outlines(&m), before);
}

#[test]
fn wheel_leaves_the_outlines_alone() {
    let mut m = model();
    let before = outlines(&m);
    mouse_wheel(&mut m, Wheel::Up);
    mouse_wheel(&mut m, Wheel::Down);
    assert_eq!(outlines(&m), before);
    assert_eq!(places(&m), places(&model()));
}

#[test]
fn layer_count_stays_in_range_whatever_the_wheel_does() {
    let mut m = model();
    let turns = [
        Wheel::Down, Wheel::Up, Wheel::Up, Wheel::Still, Wheel::Up, Wheel::Up, Wheel::Up,
        Wheel::Up, Wheel::Up, Wheel::Up, Wheel::Up, Wheel::Up, Wheel::Down, Wheel::Down,
        Wheel::Down, Wheel::Down, Wheel::Down, Wheel::Down, Wheel::Down, Wheel::Down,
        Wheel::Down, Wheel::Up,
    ];
    for dt in turns {
        mouse_wheel(&mut m, dt);
        assert!(1 <= m.current_num_squares() && m.current_num_squares() <= MAX_NUM_SQUARES);
        assert_eq!(m.squares().len(), 63);
    }
    assert_eq!(m.current_num_squares(), 2);
}

#[test]
fn right_button_saves_a_frame() {
    let mut m = model();
    let before = outlines(&m);
    assert_eq!(mouse_released(&mut m, Button::Right), Some("000.png".to_string()));
    assert_eq!(mouse_released(&mut m, Button::Right), Some("001.png".to_string()));
    assert_eq!(m.export(), 2);
    assert_eq!(m.current_num_squares(), 1);
    assert_eq!(outlines(&m), before);
}

#[test]
fn left_button_regenerates_every_stack() {
    let mut m = model();
    let before = outlines(&m);
    let stood = places(&m);
    assert_eq!(mouse_released(&mut m, Button::Left), None);
    let after = outlines(&m);
    assert_eq!(after.len(), 63);
    for k in 0..63 {
        assert_eq!(after[k].len(), MAX_NUM_SQUARES);
        assert_ne!(after[k], before[k]);
    }
    assert_eq!(places(&m), stood);
    assert_eq!(m.export(), 0);
    assert_eq!(m.current_num_squares(), 1);
}

#[test]
fn left_button_keeps_the_layer_count() {
    let mut m = model();
    mouse_wheel(&mut m, Wheel::Up);
    mouse_wheel(&mut m, Wheel::Up);
    mouse_released(&mut m, Button::Left);
    assert_eq!(m.current_num_squares(), 3);
    assert_eq!(m.export(), 2);
    assert_eq!(m.squares().len(), 63);
}

#[test]
fn other_buttons_do_nothing() {
    let mut m = model();
    let before = outlines(&m);
    assert_eq!(mouse_released(&mut m, Button::Other), None);
    assert_eq!(outlines(&m), before);
    assert_eq!(m.export(), 0);
    assert_eq!(m.current_num_squares(), 1);
}

#[test]
fn save_frame_counts_the_frames() {
    let mut m = model();
    for n in 0..12usize {
        assert_eq!(m.export(), n);
        assert_eq!(save_frame(&mut m), format!("{:03}.png", n));
    }
    assert_eq!(m.export(), 12);
    assert_eq!(m.current_num_squares(), 1);
}

#[test]
fn frames_are_numbered_across_wheel_and_button() {
    let mut m = model();
    assert_eq!(mouse_wheel(&mut m, Wheel::Up), Some("000.png".to_string()));
    assert_eq!(mouse_released(&mut m, Button::Right), Some("001.png".to_string()));
    assert_eq!(mouse_released(&mut m, Button::Left), None);
    assert_eq!(mouse_wheel(&mut m, Wheel::Down), Some("002.png".to_string()));
    assert_eq!(mouse_wheel(&mut m, Wheel::Down), None);
    assert_eq!(mouse_released(&mut m, Button::Right), Some("003.png".to_string()));
}

#[test]
fn one_layer_draws_one_stroke_for_each_stack() {
    let m = model();
    let strokes = view(&m);
    assert_eq!(strokes.len(), 63);
    for (k, stroke) in strokes.iter().enumerate() {
        let stack = &m.squares()[k];
        assert_eq!(stroke.position, stack.position());
        assert_eq!(stroke.color, color_of_layer(0));
        assert_eq!(stroke.weight, stack.collection()[0].weight());
        assert_eq!(&stroke.points, stack.collection()[0].points());
    }
}

#[test]
fn drawn_strokes_follow_the_stacks_and_their_layers() {
    let mut m = model();
    for _ in 0..4 {
        mouse_wheel(&mut m, Wheel::Up);
    }
    assert_eq!(m.current_num_squares(), 5);
    let strokes = view(&m);
    let mut next = 0;
    for stack in m.squares().iter() {
        let shown = 5usize.min(stack.randomness().unsigned_abs() as usize + 1);
        assert_eq!(stack.visible(5), shown);
        for i in 0..shown {
            let stroke = &strokes[next];
            assert_eq!(stroke.position, stack.position());
            assert_eq!(stroke.color, color_of_layer(i));
            assert_eq!(stroke.weight, stack.collection()[i].weight());
            assert_eq!(&stroke.points, stack.collection()[i].points());
            next += 1;
        }
    }
    assert_eq!(next, strokes.len());
}

#[test]
fn number_of_strokes_for_each_layer_count() {
    // Stacks by the magnitude of their randomness, from zero to seven.
    let stacks_with: [usize; 8] = [7, 14, 12, 10, 8, 6, 4, 2];
    assert_eq!(stacks_with.iter().sum::<usize>(), 63);
    let mut m = model();
    for current in 1..=MAX_NUM_SQUARES {
        assert_eq!(m.current_num_squares(), current);
        let mut expected = 0;
        for (magnitude, count) in stacks_with.iter().enumerate() {
            expected += count * current.min(magnitude + 1);
        }
        assert_eq!(view(&m).len(), expected);
        mouse_wheel(&mut m, Wheel::Up);
    }
}

#[test]
fn full_stacks_cycle_through_the_colours() {
    let mut m = model();
    for _ in 0..7 {
        mouse_wheel(&mut m, Wheel::Up);
    }
    let strokes = view(&m);
    // The last stack of the first column has the randomness seven and shows
    // all of its eight layers. Before it stand the stacks of the rows 0 to 7,
    // with the randomness -1 to 6.
    let before: usize = [2, 1, 2, 3, 4, 5, 6, 7].iter().sum();
    let stack = &m.squares()[8];
    assert_eq!(stack.randomness(), 7);
    for i in 0..8 {
        assert_eq!(strokes[before + i].position, stack.position());
        assert_eq!(strokes[before + i].color, color_of_layer(i % 5));
    }
    assert_eq!(strokes[before + 5].color, strokes[before].color);
    assert_eq!(strokes[before + 8].position, m.squares()[9].position());
}

#[test]
fn view_changes_nothing() {
    let mut m = model();
    mouse_wheel(&mut m, Wheel::Up);
    let before = outlines(&m);
    let first = view(&m);
    let second = view(&m);
    assert_eq!(first.len(), second.len());
    for (a, b) in first.iter().zip(second.iter()) {
        assert_eq!(a.position, b.position);
        assert_eq!(a.color, b.color);
        assert_eq!(a.weight, b.weight);
        assert_eq!(a.points, b.points);
    }
    assert_eq!(outlines(&m), before);
    assert_eq!(m.export(), 1);
}
