use space_traders_tui::project::{
    compute_bounds, project_position, render_plot, Cell, HighlightStyle, PlotPoint,
};
use space_traders_tui::style::Color;

fn point(x: i32, y: i32, glyph: char, color: Color) -> PlotPoint {
    PlotPoint { x, y, glyph, color }
}

#[test]
fn single_entity_projects_inside_the_grid() {
    let pts = vec![point(37, -12, 'o', Color::Red)];
    let b = compute_bounds(&pts);
    let rc = project_position(37, -12, &b, 20, 10);
    let (r, c) = rc.expect("an entity inside its own bounds projects into the grid");
    assert!(c < 20);
    assert!(r < 10);
}

#[test]
fn lone_entity_lands_on_top_left_cell() {
    let pts = vec![point(5, 5, 'o', Color::Red)];
    let b = compute_bounds(&pts);
    assert_eq!(project_position(5, 5, &b, 20, 10), Some((0, 0)));
}

#[test]
fn bounds_cover_all_entities() {
    let pts = vec![
        point(3, -7, 'o', Color::Red),
        point(-4, 9, 'o', Color::Blue),
        point(10, 2, 'o', Color::Green),
    ];
    let b = compute_bounds(&pts);
    assert_eq!(b.min_x, -4);
    assert_eq!(b.max_x, 10);
    assert_eq!(b.min_y, -7);
    assert_eq!(b.max_y, 9);
}

#[test]
fn later_entity_wins_a_shared_cell() {
    let pts = vec![point(2, 3, 'a', Color::Red), point(2, 3, 'b', Color::Blue)];
    let g = render_plot(&pts, None, None, HighlightStyle::Fixed('*'), 12, 6);
    let b = compute_bounds(&pts);
    let (r, c) = project_position(2, 3, &b, 12, 6).unwrap();
    let cell = g.at(r, c);
    assert_eq!(cell.glyph, 'b');
    assert_eq!(cell.color, Color::Blue);
}

#[test]
fn equal_x_coordinates_floor_the_span() {
    // Every entity shares x = 4: the span floors to two and projection
    // still succeeds, with all entities in the left half.
    let pts = vec![
        point(4, 0, 'a', Color::Red),
        point(4, 5, 'b', Color::Blue),
        point(4, 9, 'c', Color::Green),
    ];
    let g = render_plot(&pts, None, None, HighlightStyle::Fixed('*'), 10, 10);
    let b = compute_bounds(&pts);
    for p in &pts {
        let (r, c) = project_position(p.x, p.y, &b, 10, 10).unwrap();
        assert_eq!(c, 0);
        assert_eq!(g.at(r, c).glyph, p.glyph);
    }
}

#[test]
fn highlight_wins_even_on_a_shared_cell() {
    let pts = vec![point(1, 1, 'a', Color::Red), point(1, 1, 'b', Color::Blue)];
    let g = render_plot(&pts, Some(0), None, HighlightStyle::Fixed('*'), 8, 8);
    let b = compute_bounds(&pts);
    let (r, c) = project_position(1, 1, &b, 8, 8).unwrap();
    let cell = g.at(r, c);
    assert_eq!(cell.glyph, '*');
    assert_eq!(cell.color, Color::White);
}

#[test]
fn keep_style_highlight_keeps_the_glyph() {
    let pts = vec![point(0, 0, 'P', Color::Green)];
    let g = render_plot(&pts, Some(0), None, HighlightStyle::Keep, 8, 8);
    let b = compute_bounds(&pts);
    let (r, c) = project_position(0, 0, &b, 8, 8).unwrap();
    let cell = g.at(r, c);
    assert_eq!(cell.glyph, 'P');
    assert_eq!(cell.color, Color::White);
}

#[test]
fn origin_marker_is_drawn_and_overwritable() {
    // The marker sits at world (0, 0); an entity elsewhere leaves it
    // visible, and unpainted cells stay blank.
    let pts = vec![point(-5, -5, 'u', Color::Green), point(6, 6, 'w', Color::Cyan)];
    let star = Cell { glyph: '*', color: Color::Yellow };
    let g = render_plot(&pts, None, Some(star), HighlightStyle::Keep, 14, 7);
    let b = compute_bounds(&pts);
    let (sr, sc) = project_position(0, 0, &b, 14, 7).unwrap();
    let (wr, wc) = project_position(6, 6, &b, 14, 7).unwrap();
    assert_ne!((sr, sc), (wr, wc));
    assert_eq!(g.at(sr, sc).glyph, '*');
    assert_eq!(g.at(sr, sc).color, Color::Yellow);
    assert_eq!(g.at(wr, wc).glyph, 'w');
}

#[test]
fn stacked_entity_overwrites_origin_marker() {
    let pts = vec![point(0, 0, 'w', Color::Cyan), point(9, 9, 'v', Color::Green)];
    let star = Cell { glyph: '*', color: Color::Yellow };
    let g = render_plot(&pts, None, Some(star), HighlightStyle::Keep, 14, 7);
    let b = compute_bounds(&pts);
    let (sr, sc) = project_position(0, 0, &b, 14, 7).unwrap();
    assert_eq!(g.at(sr, sc).glyph, 'w');
    assert_eq!(g.at(sr, sc).color, Color::Cyan);
}

#[test]
fn two_distant_systems_project_to_opposite_corners() {
    // One system at (0, 0) and one at (10, 10), pane 20 by 10: the two
    // points land in opposite corner regions of the drawable area and do
    // not overlap.
    let pts = vec![point(0, 0, 'o', Color::Red), point(10, 10, 'o', Color::Blue)];
    let b = compute_bounds(&pts);
    let low = project_position(0, 0, &b, 20, 10).unwrap();
    let high = project_position(10, 10, &b, 20, 10).unwrap();
    assert_eq!(low, (8, 0));
    assert_eq!(high, (0, 17));
    assert_ne!(low, high);
    let g = render_plot(&pts, None, None, HighlightStyle::Fixed('*'), 20, 10);
    assert_eq!(g.at(8, 0).color, Color::Red);
    assert_eq!(g.at(0, 17).color, Color::Blue);
    assert_eq!(g.at(5, 5).glyph, ' ');
}

#[test]
fn grid_dimensions_match_the_request() {
    let pts = vec![point(1, 2, 'o', Color::Red)];
    let g = render_plot(&pts, None, None, HighlightStyle::Fixed('*'), 33, 4);
    assert_eq!(g.width, 33);
    assert_eq!(g.height, 4);
    assert_eq!(g.cells.len(), 33 * 4);
}
