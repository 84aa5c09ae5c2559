use grid_cursor::layout::{
    calculate_layout, center, warning_layout, Constraint, Rect, BOARD_WIDTH, MIN_HEIGHT,
    MIN_WIDTH, TITLE_HEIGHT, WARNING_HEIGHT,
};
use ratatui::layout::{Flex, Layout};

fn rect(x: u16, y: u16, width: u16, height: u16) -> Rect {
    Rect { x, y, width, height }
}

fn encloses(outer: Rect, inner: Rect) -> bool {
    outer.x <= inner.x
        && u32::from(inner.x) + u32::from(inner.width) <= u32::from(outer.x) + u32::from(outer.width)
        && outer.y <= inner.y
        && u32::from(inner.y) + u32::from(inner.height)
            <= u32::from(outer.y) + u32::from(outer.height)
}

#[test]
fn the_thresholds_are_thirty_by_ten() {
    assert_eq!(MIN_WIDTH, 30);
    assert_eq!(MIN_HEIGHT, 10);
    assert_eq!(TITLE_HEIGHT, 1);
    assert_eq!(BOARD_WIDTH, 30);
    assert_eq!(WARNING_HEIGHT, 2);
}

#[test]
fn a_frame_is_too_small_below_either_threshold() {
    assert!(rect(0, 0, 29, 10).too_small());
    assert!(rect(0, 0, 30, 9).too_small());
    assert!(rect(0, 0, 29, 9).too_small());
    assert!(rect(0, 0, 0, 0).too_small());
    assert!(rect(0, 0, 200, 9).too_small());
    assert!(rect(0, 0, 29, 200).too_small());
}

#[test]
fn a_frame_is_large_enough_from_both_thresholds_on() {
    assert!(!rect(0, 0, 30, 10).too_small());
    assert!(!rect(0, 0, 31, 10).too_small());
    assert!(!rect(0, 0, 30, 11).too_small());
    assert!(!rect(5, 7, 80, 24).too_small());
    assert!(!rect(0, 0, u16::MAX, u16::MAX).too_small());
}

#[test]
fn center_places_a_fixed_size_in_the_middle() {
    assert_eq!(
        center(rect(0, 0, 80, 24), Constraint::Length(30), Constraint::Length(10)),
        rect(25, 7, 30, 10)
    );
    assert_eq!(
        center(rect(10, 20, 50, 11), Constraint::Length(30), Constraint::Length(1)),
        rect(20, 25, 30, 1)
    );
}

#[test]
fn center_takes_a_percentage_of_the_width() {
    assert_eq!(
        center(rect(0, 0, 20, 6), Constraint::Percentage(100), Constraint::Length(2)),
        rect(0, 2, 20, 2)
    );
    assert_eq!(
        center(rect(0, 0, 40, 6), Constraint::Percentage(50), Constraint::Length(2)),
        rect(10, 2, 20, 2)
    );
}

#[test]
fn center_takes_at_most_the_maximum() {
    assert_eq!(
        center(rect(0, 0, 80, 24), Constraint::Max(30), Constraint::Max(10)),
        rect(25, 7, 30, 10)
    );
}

#[test]
fn center_agrees_with_the_solver() {
    for (width, height) in [(80u16, 24u16), (81, 25), (30, 10), (31, 11), (7, 3), (200, 60)] {
        let area = rect(3, 4, width, height);
        let outside = ratatui::layout::Rect { x: 3, y: 4, width, height };
        let [across] = Layout::horizontal([ratatui::layout::Constraint::Length(30)])
            .flex(Flex::Center)
            .areas(outside);
        let [expected] = Layout::vertical([ratatui::layout::Constraint::Length(9)])
            .flex(Flex::Center)
            .areas(across);
        assert_eq!(
            center(area, Constraint::Length(30), Constraint::Length(9)),
            rect(expected.x, expected.y, expected.width, expected.height)
        );
    }
}

#[test]
fn center_stays_inside_its_area() {
    for width in [0u16, 1, 2, 29, 30, 31, 80, 1000] {
        for height in [0u16, 1, 2, 9, 10, 11, 24, 500] {
            let area = rect(2, 1, width, height);
            for horizontal in
                [Constraint::Length(30), Constraint::Max(30), Constraint::Percentage(100)]
            {
                for vertical in [Constraint::Length(9), Constraint::Max(1), Constraint::Length(2)]
                {
                    let inner = center(area, horizontal, vertical);
                    assert!(encloses(area, inner), "{inner:?} in {area:?}");
                }
            }
        }
    }
}

#[test]
fn center_of_a_frame_at_the_far_corner_stays_inside() {
    let area = rect(u16::MAX - 40, u16::MAX - 12, 40, 12);
    let inner = center(area, Constraint::Length(30), Constraint::Length(9));
    assert!(encloses(area, inner), "{inner:?} in {area:?}");
}

#[test]
fn the_layout_stacks_the_title_on_the_table() {
    let (title, table) = calculate_layout(rect(0, 0, 80, 24), 9);
    assert_eq!(title, rect(25, 7, 30, 1));
    assert_eq!(table, rect(25, 8, 30, 9));
}

#[test]
fn the_layout_fills_the_smallest_frame() {
    let (title, table) = calculate_layout(rect(0, 0, 30, 10), 9);
    assert_eq!(title, rect(0, 0, 30, 1));
    assert_eq!(table, rect(0, 1, 30, 9));
}

#[test]
fn the_layout_follows_the_frame() {
    let (title, table) = calculate_layout(rect(4, 2, 50, 20), 9);
    assert_eq!(title, rect(14, 7, 30, 1));
    assert_eq!(table, rect(14, 8, 30, 9));
}

#[test]
fn the_layout_takes_the_height_of_the_table() {
    let (title, table) = calculate_layout(rect(0, 0, 40, 20), 5);
    assert_eq!(title, rect(5, 7, 30, 1));
    assert_eq!(table, rect(5, 8, 30, 5));
}

#[test]
fn the_layout_stays_inside_the_frame() {
    for width in [30u16, 31, 45, 80, 81, 300] {
        for height in [10u16, 11, 12, 24, 25, 90] {
            let area = rect(1, 1, width, height);
            let (title, table) = calculate_layout(area, 9);
            assert!(encloses(area, title), "{title:?} in {area:?}");
            assert!(encloses(area, table), "{table:?} in {area:?}");
            assert_eq!((title.width, title.height), (30, 1));
            assert_eq!((table.width, table.height), (30, 9));
            assert_eq!(title.x, table.x);
            assert_eq!(title.y + 1, table.y);
        }
    }
}

#[test]
fn the_warning_takes_two_lines_across_the_frame() {
    assert_eq!(warning_layout(rect(0, 0, 20, 6)), rect(0, 2, 20, 2));
    assert_eq!(warning_layout(rect(0, 0, 100, 8)), rect(0, 3, 100, 2));
    assert_eq!(warning_layout(rect(3, 5, 29, 40)), rect(3, 24, 29, 2));
}

#[test]
fn the_warning_fits_a_frame_of_one_line() {
    assert_eq!(warning_layout(rect(0, 0, 20, 1)), rect(0, 0, 20, 1));
}

#[test]
fn the_warning_stays_inside_the_frame() {
    for width in [0u16, 1, 10, 29, 30, 120] {
        for height in [0u16, 1, 2, 3, 9, 10, 50] {
            let area = rect(0, 0, width, height);
            let place = warning_layout(area);
            assert!(encloses(area, place), "{place:?} in {area:?}");
        }
    }
}

#[test]
fn the_layout_agrees_with_the_solver() {
    for (width, height) in [(30u16, 10u16), (31, 11), (80, 24), (81, 25), (133, 41)] {
        let outside = ratatui::layout::Rect { x: 2, y: 5, width, height };
        let [title_band, table_band] = Layout::vertical([
            ratatui::layout::Constraint::Max(1),
            ratatui::layout::Constraint::Max(9),
        ])
        .flex(Flex::Center)
        .areas(outside);
        let mut expected: Vec<Rect> = Vec::new();
        for (band, lines) in [(title_band, 1u16), (table_band, 9u16)] {
            let [across] = Layout::horizontal([ratatui::layout::Constraint::Length(30)])
                .flex(Flex::Center)
                .areas(band);
            let [place] = Layout::vertical([ratatui::layout::Constraint::Length(lines)])
                .flex(Flex::Center)
                .areas(across);
            expected.push(rect(place.x, place.y, place.width, place.height));
        }
        let (title, table) = calculate_layout(rect(2, 5, width, height), 9);
        assert_eq!(vec![title, table], expected);
    }
}

fn fitted(asked: u16, room: u16) -> u16 {
    asked.min(room)
}

fn centered_start(start: u16, room: u16, size: u16) -> u16 {
    start + (room - size + 1) / 2
}

const ROOMS: [u16; 20] =
    [0, 1, 2, 3, 4, 5, 8, 9, 10, 11, 29, 30, 31, 32, 80, 81, 255, 1000, 1001, 30000];

const SIZES: [u16; 12] = [0, 1, 2, 3, 9, 10, 30, 31, 100, 999, 30000, u16::MAX];

#[test]
fn center_gives_the_asked_size_or_all_the_room() {
    for room in ROOMS {
        for asked in SIZES {
            for constraint in [Constraint::Length(asked), Constraint::Max(asked)] {
                let inner = center(rect(3, 4, room, 7), constraint, Constraint::Length(1));
                assert_eq!(inner.width, fitted(asked, room), "{constraint:?} in {room}");
                let inner = center(rect(3, 4, 7, room), Constraint::Length(1), constraint);
                assert_eq!(inner.height, fitted(asked, room), "{constraint:?} in {room}");
            }
        }
    }
}

#[test]
fn center_puts_the_odd_cell_before_the_part() {
    assert_eq!(
        center(rect(0, 0, 81, 24), Constraint::Length(30), Constraint::Length(9)),
        rect(26, 8, 30, 9)
    );
    assert_eq!(
        center(rect(0, 0, 5, 4), Constraint::Max(2), Constraint::Max(1)),
        rect(2, 2, 2, 1)
    );
    for start in [0u16, 1, 6, 500] {
        for room in ROOMS {
            for asked in SIZES {
                let size = fitted(asked, room);
                let expected = centered_start(start, room, size);
                for constraint in [Constraint::Length(asked), Constraint::Max(asked)] {
                    let inner = center(rect(start, 2, room, 3), constraint, Constraint::Length(3));
                    assert_eq!((inner.x, inner.width), (expected, size), "{constraint:?} in {room}");
                    let inner = center(rect(2, start, 3, room), Constraint::Length(3), constraint);
                    assert_eq!((inner.y, inner.height), (expected, size), "{constraint:?} in {room}");
                }
            }
        }
    }
}

#[test]
fn center_holds_up_to_the_last_coordinate() {
    for room in [0u16, 1, 2, 9, 10, 31, 535] {
        let start = u16::MAX - room;
        for asked in [0u16, 1, 2, 9, 30, 600] {
            let size = fitted(asked, room);
            let expected = centered_start(start, room, size);
            let inner = center(
                rect(start, start, room, room),
                Constraint::Length(asked),
                Constraint::Max(asked),
            );
            assert_eq!(inner, rect(expected, expected, size, size));
        }
    }
}

#[test]
fn center_takes_the_whole_range_for_a_hundred_percent() {
    for start in [0u16, 3, 35000] {
        for room in ROOMS {
            let area = rect(start, start, room, room);
            let inner = center(area, Constraint::Percentage(100), Constraint::Percentage(100));
            assert_eq!(inner, area);
        }
    }
}

#[test]
fn the_warning_is_as_wide_as_the_frame_and_centred() {
    for (x, y) in [(0u16, 0u16), (4, 9), (1000, 2000)] {
        for width in [0u16, 1, 10, 29, 30, 120, 5000] {
            for height in ROOMS {
                let lines = fitted(WARNING_HEIGHT, height);
                assert_eq!(
                    warning_layout(rect(x, y, width, height)),
                    rect(x, centered_start(y, height, lines), width, lines)
                );
            }
        }
    }
}

#[test]
fn the_layout_centres_title_and_table_as_one_block() {
    for (x, y) in [(0u16, 0u16), (2, 5), (300, 7000)] {
        for width in [0u16, 1, 29, 30, 31, 40, 80, 81, 4000] {
            for table_height in [0u16, 1, 3, 9, 10, 27, 300] {
                for spare in [0u16, 1, 2, 3, 14, 15, 1000] {
                    let height = TITLE_HEIGHT + table_height + spare;
                    let (title, table) = calculate_layout(rect(x, y, width, height), table_height);
                    let columns = fitted(BOARD_WIDTH, width);
                    let left = centered_start(x, width, columns);
                    let top = centered_start(y, height, TITLE_HEIGHT + table_height);
                    assert_eq!(title, rect(left, top, columns, TITLE_HEIGHT));
                    assert_eq!(table, rect(left, top + TITLE_HEIGHT, columns, table_height));
                }
            }
        }
    }
}

#[test]
fn the_layout_holds_up_to_the_last_coordinate() {
    let (title, table) = calculate_layout(rect(u16::MAX - 41, u16::MAX - 13, 41, 13), 9);
    assert_eq!(title, rect(u16::MAX - 41 + 6, u16::MAX - 13 + 2, 30, 1));
    assert_eq!(table, rect(u16::MAX - 41 + 6, u16::MAX - 13 + 3, 30, 9));
}
