use json_editor::layout::{
    bar_columns, bar_percentages, bar_rect, bar_shares, bar_slot, centered_rect, centering,
    middle_of, popup_area, popup_layout, popup_parts, screen_layout, screen_panels, screen_rows,
    two_shares, Area, Constraint, BAR_COLUMN_PERCENT, BAR_COUNT, BAR_HEIGHT, BAR_MAX_PERCENT,
    BAR_MIN_PERCENT, BODY_MIN_HEIGHT, CHART_PERCENT, LIST_PERCENT, POPUP_HEIGHT_PERCENT,
    POPUP_WIDTH_PERCENT,
};

fn area(x: u16, y: u16, width: u16, height: u16) -> Area {
    Area { x, y, width, height }
}

fn encloses(outer: Area, inner: Area) -> bool {
    outer.x <= inner.x
        && inner.x as u32 + inner.width as u32 <= outer.x as u32 + outer.width as u32
        && outer.y <= inner.y
        && inner.y as u32 + inner.height as u32 <= outer.y as u32 + outer.height as u32
}

#[test]
fn new_area_keeps_what_fits() {
    assert_eq!(Area::new(1, 2, 3, 4), area(1, 2, 3, 4));
    assert_eq!(Area::new(0, 0, u16::MAX, u16::MAX), area(0, 0, u16::MAX, u16::MAX));
    assert_eq!(Area::new(u16::MAX, u16::MAX, 0, 0), area(u16::MAX, u16::MAX, 0, 0));
}

#[test]
fn new_area_is_cut_back_at_the_last_coordinate() {
    assert_eq!(Area::new(u16::MAX - 5, 0, 10, 1), area(u16::MAX - 5, 0, 5, 1));
    assert_eq!(Area::new(0, u16::MAX - 1, 1, 10), area(0, u16::MAX - 1, 1, 1));
    assert_eq!(
        Area::new(u16::MAX, u16::MAX, u16::MAX, u16::MAX),
        area(u16::MAX, u16::MAX, 0, 0)
    );
}

#[test]
fn inner_area_loses_the_margin_on_every_side() {
    assert_eq!(area(0, 0, 10, 10).inner(1), area(1, 1, 8, 8));
    assert_eq!(area(5, 7, 20, 4).inner(2), area(7, 9, 16, 0));
    assert_eq!(area(3, 4, 5, 6).inner(0), area(3, 4, 5, 6));
}

#[test]
fn inner_area_of_too_small_an_area_is_empty_at_the_origin() {
    assert_eq!(area(5, 5, 1, 10).inner(1), area(0, 0, 0, 0));
    assert_eq!(area(5, 5, 10, 3).inner(2), area(0, 0, 0, 0));
    assert_eq!(area(5, 5, 100, 100).inner(u16::MAX), area(0, 0, 0, 0));
    assert_eq!(area(5, 5, u16::MAX - 1, u16::MAX).inner(40000), area(0, 0, 0, 0));
}

#[test]
fn doubled_margin_stops_at_the_last_coordinate() {
    assert_eq!(
        area(5, 5, u16::MAX, u16::MAX).inner(40000),
        area(40005, 40005, 0, 0)
    );
}

#[test]
fn inner_area_saturates_at_the_last_coordinate() {
    assert_eq!(
        area(u16::MAX - 1, u16::MAX, 10, 10).inner(3),
        area(u16::MAX, u16::MAX, 4, 4)
    );
}

#[test]
fn centering_halves_what_is_left() {
    assert_eq!(
        centering(60),
        vec![Constraint::Percentage(20), Constraint::Percentage(60), Constraint::Percentage(20)]
    );
    assert_eq!(
        centering(25),
        vec![Constraint::Percentage(37), Constraint::Percentage(25), Constraint::Percentage(37)]
    );
    assert_eq!(
        centering(100),
        vec![Constraint::Percentage(0), Constraint::Percentage(100), Constraint::Percentage(0)]
    );
    assert_eq!(
        centering(0),
        vec![Constraint::Percentage(50), Constraint::Percentage(0), Constraint::Percentage(50)]
    );
}

#[test]
fn centered_rect_is_the_middle_of_the_area() {
    assert_eq!(centered_rect(50, 50, area(0, 0, 100, 40)), area(25, 10, 50, 20));
    assert_eq!(centered_rect(60, 20, area(10, 20, 100, 50)), area(30, 40, 60, 10));
}

#[test]
fn centered_rect_lies_within_the_area() {
    for outer in [
        area(0, 0, 80, 24),
        area(3, 5, 17, 9),
        area(0, 0, 1, 1),
        area(7, 7, 0, 0),
        area(100, 200, 333, 77),
    ] {
        for percent in [0u16, 1, 25, 33, 60, 99, 100] {
            let inner = centered_rect(percent, 100 - percent, outer);
            assert!(encloses(outer, inner), "{inner:?} leaves {outer:?}");
        }
    }
}

#[test]
fn popup_takes_its_share_of_the_screen() {
    assert_eq!(POPUP_WIDTH_PERCENT, 60);
    assert_eq!(POPUP_HEIGHT_PERCENT, 25);
    assert_eq!(popup_area(area(0, 0, 100, 100)), area(20, 37, 60, 25));
}

#[test]
fn screen_panels_fill_rows_and_columns() {
    let panels = screen_layout(area(0, 0, 80, 24));
    assert_eq!(panels.title, area(0, 0, 80, 3));
    assert_eq!(panels.list, area(0, 3, 12, 18));
    assert_eq!(panels.chart, area(12, 3, 68, 18));
    assert_eq!(panels.mode_footer, area(0, 21, 40, 3));
    assert_eq!(panels.keys_footer, area(40, 21, 40, 3));
}

#[test]
fn screen_panels_lie_within_a_small_screen() {
    for screen in [area(0, 0, 5, 4), area(0, 0, 1, 1), area(0, 0, 0, 0), area(2, 3, 200, 7)] {
        let panels = screen_layout(screen);
        for panel in [
            panels.title,
            panels.list,
            panels.chart,
            panels.mode_footer,
            panels.keys_footer,
        ] {
            assert!(encloses(screen, panel), "{panel:?} leaves {screen:?}");
        }
        assert_eq!(panels.list.y, panels.chart.y);
        assert_eq!(panels.list.height, panels.chart.height);
        assert_eq!(panels.mode_footer.y, panels.keys_footer.y);
    }
}

#[test]
fn popup_fields_halve_the_inside_of_the_frame() {
    let popup = popup_layout(area(0, 0, 100, 100));
    assert_eq!(popup.frame, area(20, 37, 60, 25));
    assert_eq!(popup.key_field, area(21, 38, 29, 23));
    assert_eq!(popup.value_field, area(50, 38, 29, 23));
}

#[test]
fn chart_has_ten_columns_of_a_tenth_each() {
    assert_eq!(BAR_COUNT, 10);
    let outer = area(5, 2, 100, 12);
    let columns = bar_columns(outer);
    assert_eq!(columns.len(), 10);
    for (i, column) in columns.iter().enumerate() {
        assert_eq!(*column, area(5 + 10 * i as u16, 2, 10, 12));
    }
}

#[test]
fn chart_columns_lie_within_a_narrow_chart() {
    for outer in [area(0, 0, 7, 3), area(4, 4, 0, 0), area(1, 1, 19, 1)] {
        let columns = bar_columns(outer);
        assert_eq!(columns.len(), 10);
        for column in columns {
            assert!(encloses(outer, column), "{column:?} leaves {outer:?}");
            assert_eq!(column.y, outer.y);
            assert_eq!(column.height, outer.height);
        }
    }
}

#[test]
fn bar_slot_leaves_a_cell_free_on_each_side() {
    assert_eq!(bar_slot(area(10, 3, 10, 12)), area(11, 3, 8, 12));
    assert_eq!(bar_slot(area(0, 0, 2, 5)), area(1, 0, 0, 5));
    assert_eq!(bar_slot(area(7, u16::MAX - 2, 4, 9)), area(8, u16::MAX - 2, 2, 2));
}

#[test]
fn bar_stands_on_the_bottom_of_its_slot() {
    assert_eq!(bar_rect(area(11, 3, 8, 12), 5), area(11, 10, 8, 5));
    assert_eq!(bar_rect(area(11, 3, 8, 12), 12), area(11, 3, 8, 12));
    assert_eq!(bar_rect(area(11, 3, 8, 12), 0), area(11, 15, 8, 0));
}

#[test]
fn bar_percentages_are_drawn_from_the_range() {
    assert_eq!(BAR_MIN_PERCENT, 10);
    assert_eq!(BAR_MAX_PERCENT, 100);
    assert!(bar_percentages(0).is_empty());
    let drawn = bar_percentages(2000);
    assert_eq!(drawn.len(), 2000);
    assert!(drawn.iter().all(|p| (10..=100).contains(p)));
    let least = drawn.iter().min().unwrap();
    let greatest = drawn.iter().max().unwrap();
    assert!(least < greatest, "two thousand draws gave one value");
    assert!(*least < 30 && *greatest > 80);
}

fn extreme_areas() -> Vec<Area> {
    let edges = [0u16, 1, 2, 3, 7, 80, 255, 1000, 32767, 65533, 65534, 65535];
    let sizes = [0u16, 1, 2, 3, 9, 10, 11, 24, 99, 100, 101, 4000, 65535];
    let mut areas = Vec::new();
    for (i, x) in edges.iter().enumerate() {
        for (j, width) in sizes.iter().enumerate() {
            let y = edges[(i + j) % edges.len()];
            let height = sizes[(i * 3 + j * 5) % sizes.len()];
            areas.push(area(*x, y, *width, height));
        }
    }
    areas
}

#[test]
fn chart_columns_lie_within_every_area() {
    for outer in extreme_areas() {
        let columns = bar_columns(outer);
        assert_eq!(columns.len(), 10);
        for column in columns {
            assert_eq!(column.y, outer.y);
            assert_eq!(column.height, outer.height);
            assert!(outer.x <= column.x, "{column:?} leaves {outer:?}");
            assert!(
                column.x as u32 + column.width as u32 <= outer.x as u32 + outer.width as u32,
                "{column:?} leaves {outer:?}"
            );
            assert!(column.x as u32 + column.width as u32 <= u16::MAX as u32);
        }
    }
}

#[test]
fn centered_rect_lies_within_every_area() {
    for outer in extreme_areas() {
        for (percent_x, percent_y) in [(60u16, 25u16), (0, 100), (100, 0), (33, 67), (1, 99)] {
            let inner = centered_rect(percent_x, percent_y, outer);
            assert!(encloses(outer, inner), "{inner:?} leaves {outer:?}");
            assert!(inner.x as u32 + inner.width as u32 <= u16::MAX as u32);
        }
    }
}

#[test]
fn panels_and_popup_lie_within_every_screen() {
    for screen in extreme_areas() {
        let panels = screen_layout(screen);
        for panel in [
            panels.title,
            panels.list,
            panels.chart,
            panels.mode_footer,
            panels.keys_footer,
        ] {
            assert!(encloses(screen, panel), "{panel:?} leaves {screen:?}");
        }
        assert_eq!(panels.title.x, screen.x);
        assert_eq!(panels.title.width, screen.width);
        assert_eq!(panels.list.y, panels.chart.y);
        assert_eq!(panels.list.height, panels.chart.height);
        assert_eq!(panels.mode_footer.y, panels.keys_footer.y);
        assert_eq!(panels.mode_footer.height, panels.keys_footer.height);

        let popup = popup_layout(screen);
        assert!(encloses(screen, popup.frame), "{:?} leaves {screen:?}", popup.frame);
        let inside = popup.frame.inner(1);
        assert!(encloses(inside, popup.key_field));
        assert!(encloses(inside, popup.value_field));
        assert_eq!(popup.key_field.y, popup.value_field.y);
        assert_eq!(popup.key_field.height, popup.value_field.height);
    }
}

#[test]
fn screen_rows_are_two_bars_around_a_minimum() {
    assert_eq!(BAR_HEIGHT, 3);
    assert_eq!(BODY_MIN_HEIGHT, 1);
    assert_eq!(
        screen_rows(),
        vec![Constraint::Length(3), Constraint::Min(1), Constraint::Length(3)]
    );
}

#[test]
fn two_shares_are_the_two_percentages_in_order() {
    assert_eq!(LIST_PERCENT, 15);
    assert_eq!(CHART_PERCENT, 85);
    assert_eq!(
        two_shares(15, 85),
        vec![Constraint::Percentage(15), Constraint::Percentage(85)]
    );
    assert_eq!(
        two_shares(50, 50),
        vec![Constraint::Percentage(50), Constraint::Percentage(50)]
    );
    assert_eq!(
        two_shares(0, 100),
        vec![Constraint::Percentage(0), Constraint::Percentage(100)]
    );
}

#[test]
fn bar_shares_are_ten_tenths() {
    assert_eq!(BAR_COLUMN_PERCENT, 10);
    assert_eq!(bar_shares(), vec![Constraint::Percentage(10); 10]);
}

#[test]
fn middle_is_the_second_of_three() {
    let chunks = vec![area(1, 1, 1, 1), area(2, 2, 2, 2), area(3, 3, 3, 3)];
    assert_eq!(middle_of(&chunks), area(2, 2, 2, 2));
}

#[test]
fn panels_are_picked_in_reading_order() {
    let rows = vec![area(0, 0, 9, 1), area(0, 1, 9, 2), area(0, 3, 9, 3)];
    let middle = vec![area(0, 1, 4, 2), area(4, 1, 5, 2)];
    let bottom = vec![area(0, 3, 6, 3), area(6, 3, 3, 3)];
    let panels = screen_panels(&rows, &middle, &bottom);
    assert_eq!(panels.title, area(0, 0, 9, 1));
    assert_eq!(panels.list, area(0, 1, 4, 2));
    assert_eq!(panels.chart, area(4, 1, 5, 2));
    assert_eq!(panels.mode_footer, area(0, 3, 6, 3));
    assert_eq!(panels.keys_footer, area(6, 3, 3, 3));
}

#[test]
fn popup_parts_put_the_key_before_the_value() {
    let fields = vec![area(1, 1, 4, 2), area(5, 1, 4, 2)];
    let popup = popup_parts(area(0, 0, 10, 4), &fields);
    assert_eq!(popup.frame, area(0, 0, 10, 4));
    assert_eq!(popup.key_field, area(1, 1, 4, 2));
    assert_eq!(popup.value_field, area(5, 1, 4, 2));
}

#[test]
fn centre_rounds_a_half_upwards() {
    assert_eq!(centered_rect(50, 50, area(0, 0, 2, 6)), area(1, 2, 1, 3));
    assert_eq!(centered_rect(50, 20, area(0, 0, 100, 100)), area(25, 40, 50, 20));
    assert_eq!(centered_rect(100, 100, area(4, 5, 6, 7)), area(4, 5, 6, 7));
    assert_eq!(centered_rect(0, 0, area(0, 0, 10, 10)), area(5, 5, 0, 0));
}
