use ratatui_statusbar::bar::StatusBar;
use ratatui_statusbar::error::StatusBarError;
use ratatui_statusbar::grid::{Cell, Grid};
use ratatui_statusbar::layout::{Flex, Rect};
use ratatui_statusbar::section::StatusBarSection;
use ratatui_statusbar::style::{Color, Style};

fn row(grid: &Grid, y: u16) -> String {
    grid.row_chars(y).into_iter().collect()
}

#[test]
fn test_print_statusbar() {
    let status_bar = StatusBar::new(2)
        .section(0, StatusBarSection::from("hello"))
        .unwrap()
        .section(1, StatusBarSection::from("world"))
        .unwrap();
    let mut grid = Grid::new(80, 1);
    status_bar.render(Rect::new(0, 0, 80, 1), &mut grid);
    let view = row(&grid, 0);
    println!("{view}");
}

#[test]
fn render_default() {
    let area = Rect::new(0, 0, 15, 1);
    let status_bar = StatusBar::new(2)
        .section(0, StatusBarSection::from("hello"))
        .unwrap()
        .section(1, StatusBarSection::from("world"))
        .unwrap();
    let mut grid = Grid::new(15, 1);
    status_bar.render(area, &mut grid);
    assert_eq!(row(&grid, 0), "hello world    ");
}

#[test]
fn start_leaves_remainder_right() {
    let status_bar = StatusBar::new(2)
        .section(0, StatusBarSection::from("hello"))
        .unwrap()
        .section(1, StatusBarSection::from("world"))
        .unwrap();
    let mut grid = Grid::new(16, 1);
    status_bar.render_ref(Rect::new(0, 0, 16, 1), &mut grid);
    assert_eq!(row(&grid, 0), "hello world     ");
}

#[test]
fn ratio_equal_two_columns() {
    let status_bar = StatusBar::new(2)
        .flex(Flex::RatioEqual)
        .section(0, StatusBarSection::from("Hello"))
        .unwrap()
        .section(1, StatusBarSection::from("World"))
        .unwrap();
    let mut grid = Grid::new(31, 1);
    status_bar.render_ref(Rect::new(0, 0, 31, 1), &mut grid);
    assert_eq!(row(&grid, 0), format!("{:<16}{:<15}", "Hello", "World"));
}

#[test]
fn content_truncated_to_region() {
    let status_bar = StatusBar::new(1)
        .section(0, StatusBarSection::from("hello"))
        .unwrap();
    let mut grid = Grid::new(3, 1);
    status_bar.render_ref(Rect::new(0, 0, 3, 1), &mut grid);
    assert_eq!(row(&grid, 0), "hel");
}

#[test]
fn end_packs_against_right_edge() {
    let status_bar = StatusBar::new(2)
        .flex(Flex::End)
        .section(0, StatusBarSection::from("ab"))
        .unwrap()
        .section(1, StatusBarSection::from("cd"))
        .unwrap();
    let mut grid = Grid::new(10, 1);
    status_bar.render_ref(Rect::new(0, 0, 10, 1), &mut grid);
    assert_eq!(row(&grid, 0), "     ab cd");
}

#[test]
fn center_splits_remainder_to_right() {
    let status_bar = StatusBar::new(2)
        .flex(Flex::Center)
        .section(0, StatusBarSection::from("hello"))
        .unwrap()
        .section(1, StatusBarSection::from("world"))
        .unwrap();
    let mut grid = Grid::new(15, 1);
    status_bar.render_ref(Rect::new(0, 0, 15, 1), &mut grid);
    assert_eq!(row(&grid, 0), "  hello world  ");
}

#[test]
fn space_between_flush_edges() {
    let status_bar = StatusBar::new(2)
        .flex(Flex::SpaceBetween)
        .section(0, StatusBarSection::from("ab"))
        .unwrap()
        .section(1, StatusBarSection::from("cd"))
        .unwrap();
    let mut grid = Grid::new(11, 1);
    status_bar.render_ref(Rect::new(0, 0, 11, 1), &mut grid);
    assert_eq!(row(&grid, 0), "ab       cd");
}

#[test]
fn space_between_earliest_gaps_take_remainder() {
    let status_bar = StatusBar::new(3)
        .flex(Flex::SpaceBetween)
        .section(0, StatusBarSection::from("a"))
        .unwrap()
        .section(1, StatusBarSection::from("b"))
        .unwrap()
        .section(2, StatusBarSection::from("c"))
        .unwrap();
    let mut grid = Grid::new(12, 1);
    status_bar.render_ref(Rect::new(0, 0, 12, 1), &mut grid);
    assert_eq!(row(&grid, 0), "a     b    c");
}

#[test]
fn space_around_outer_gaps_take_remainder() {
    let status_bar = StatusBar::new(2)
        .flex(Flex::SpaceAround)
        .section(0, StatusBarSection::from("ab"))
        .unwrap()
        .section(1, StatusBarSection::from("cd"))
        .unwrap();
    let mut grid = Grid::new(11, 1);
    status_bar.render_ref(Rect::new(0, 0, 11, 1), &mut grid);
    assert_eq!(row(&grid, 0), "   ab  cd  ");
}

#[test]
fn overflowing_section_is_omitted() {
    let status_bar = StatusBar::new(2)
        .section(0, StatusBarSection::from("aaaaa"))
        .unwrap()
        .section(1, StatusBarSection::from("bbb"))
        .unwrap();
    let mut grid = Grid::new(5, 1);
    status_bar.render_ref(Rect::new(0, 0, 5, 1), &mut grid);
    assert_eq!(row(&grid, 0), "aaaaa");
}

#[test]
fn builder_index_out_of_bounds() {
    let r = StatusBar::new(2).section(2, StatusBarSection::from("x"));
    assert!(matches!(r, Err(StatusBarError::IndexOutOfBounds(2))));
}

#[test]
fn set_section_index_out_of_bounds_leaves_bar_unchanged() {
    let mut status_bar = StatusBar::new(1)
        .section(0, StatusBarSection::from("ok"))
        .unwrap();
    let r = status_bar.set_section(5, StatusBarSection::from("nope"));
    assert!(matches!(r, Err(StatusBarError::IndexOutOfBounds(5))));
    let mut grid = Grid::new(4, 1);
    status_bar.render_ref(Rect::new(0, 0, 4, 1), &mut grid);
    assert_eq!(row(&grid, 0), "ok  ");
}

#[test]
fn set_section_replaces_in_place() {
    let mut status_bar = StatusBar::new(2)
        .section(0, StatusBarSection::from("aa"))
        .unwrap()
        .section(1, StatusBarSection::from("bb"))
        .unwrap();
    let r = status_bar.set_section(0, StatusBarSection::from("cc"));
    assert!(r.is_ok());
    let mut grid = Grid::new(6, 1);
    status_bar.render_ref(Rect::new(0, 0, 6, 1), &mut grid);
    assert_eq!(row(&grid, 0), "cc bb ");
}

#[test]
fn empty_region_performs_no_writes() {
    let status_bar = StatusBar::new(1)
        .section(0, StatusBarSection::from("hello"))
        .unwrap();
    let mut grid = Grid::new(6, 2);
    for x in 0..6 {
        grid.set(x, 0, Cell { ch: 'x', style: Style::default() });
        grid.set(x, 1, Cell { ch: 'x', style: Style::default() });
    }
    status_bar.render_ref(Rect::new(0, 0, 0, 1), &mut grid);
    status_bar.render_ref(Rect::new(0, 0, 6, 0), &mut grid);
    assert_eq!(row(&grid, 0), "xxxxxx");
    assert_eq!(row(&grid, 1), "xxxxxx");
}

#[test]
fn render_is_idempotent() {
    let status_bar = StatusBar::new(2)
        .flex(Flex::Center)
        .section(0, StatusBarSection::from("one"))
        .unwrap()
        .section(1, StatusBarSection::from("two"))
        .unwrap();
    let mut grid = Grid::new(12, 1);
    let area = Rect::new(0, 0, 12, 1);
    status_bar.render_ref(area, &mut grid);
    let first = row(&grid, 0);
    status_bar.render_ref(area, &mut grid);
    assert_eq!(row(&grid, 0), first);
}

#[test]
fn render_is_deterministic() {
    let status_bar = StatusBar::new(2)
        .flex(Flex::SpaceBetween)
        .section(0, StatusBarSection::from("l"))
        .unwrap()
        .section(1, StatusBarSection::from("r"))
        .unwrap();
    let area = Rect::new(0, 0, 9, 1);
    let mut g1 = Grid::new(9, 1);
    let mut g2 = Grid::new(9, 1);
    status_bar.render_ref(area, &mut g1);
    status_bar.render_ref(area, &mut g2);
    assert_eq!(row(&g1, 0), row(&g2, 0));
}

#[test]
fn cells_outside_region_untouched() {
    let status_bar = StatusBar::new(1)
        .section(0, StatusBarSection::from("hi"))
        .unwrap();
    let mut grid = Grid::new(8, 3);
    for x in 0..8 {
        grid.set(x, 0, Cell { ch: '.', style: Style::default() });
        grid.set(x, 2, Cell { ch: '.', style: Style::default() });
    }
    status_bar.render_ref(Rect::new(2, 1, 4, 1), &mut grid);
    assert_eq!(row(&grid, 0), "........");
    assert_eq!(row(&grid, 1), "  hi    ");
    assert_eq!(row(&grid, 2), "........");
}

#[test]
fn wide_glyph_occupies_two_columns_in_layout() {
    let status_bar = StatusBar::new(2)
        .section(0, StatusBarSection::from("\u{65e5}"))
        .unwrap()
        .section(1, StatusBarSection::from("a"))
        .unwrap();
    let mut grid = Grid::new(6, 1);
    status_bar.render_ref(Rect::new(0, 0, 6, 1), &mut grid);
    let cells = grid.row_chars(0);
    assert_eq!(cells[0], '\u{65e5}');
    assert_eq!(cells[3], 'a');
}

#[test]
fn separators_rendered_and_counted() {
    let section = StatusBarSection::default()
        .pre_separator("|")
        .content("ab")
        .post_separator("|");
    let status_bar = StatusBar::new(2)
        .section(0, section)
        .unwrap()
        .section(1, StatusBarSection::from("c"))
        .unwrap();
    let mut grid = Grid::new(8, 1);
    status_bar.render_ref(Rect::new(0, 0, 8, 1), &mut grid);
    assert_eq!(row(&grid, 0), "|ab| c  ");
}

#[test]
fn separators_truncated_with_content() {
    let section = StatusBarSection::default()
        .pre_separator("[")
        .content("hello")
        .post_separator("]");
    let status_bar = StatusBar::new(1).section(0, section).unwrap();
    let mut grid = Grid::new(3, 1);
    status_bar.render_ref(Rect::new(0, 0, 3, 1), &mut grid);
    assert_eq!(row(&grid, 0), "[he");
}

#[test]
fn zero_sections_render_blank() {
    let status_bar = StatusBar::new(0);
    let mut grid = Grid::new(4, 1);
    status_bar.render_ref(Rect::new(0, 0, 4, 1), &mut grid);
    assert_eq!(row(&grid, 0), "    ");
}

#[test]
fn new_bar_defaults() {
    let status_bar = StatusBar::new(3);
    assert_eq!(status_bar.sections.len(), 3);
    assert_eq!(status_bar.flex, Flex::Start);
    assert_eq!(status_bar.spacing, 1);
    let configured = status_bar.flex(Flex::End).spacing(2);
    assert_eq!(configured.flex, Flex::End);
    assert_eq!(configured.spacing, 2);
}

#[test]
fn section_builders_set_fields() {
    let section = StatusBarSection::default()
        .pre_separator(" |")
        .content("text")
        .post_separator("| ");
    assert_eq!(section.pre_separator.as_deref(), Some(" |"));
    assert_eq!(section.content, "text");
    assert_eq!(section.post_separator.as_deref(), Some("| "));
    let from_str = StatusBarSection::from("abc");
    assert_eq!(from_str.content, "abc");
    assert!(from_str.pre_separator.is_none());
    assert!(from_str.post_separator.is_none());
}

#[test]
fn end_overflow_packs_left_to_right() {
    let status_bar = StatusBar::new(2)
        .flex(Flex::End)
        .section(0, StatusBarSection::from("aaa"))
        .unwrap()
        .section(1, StatusBarSection::from("bbb"))
        .unwrap();
    let mut grid = Grid::new(5, 1);
    status_bar.render_ref(Rect::new(0, 0, 5, 1), &mut grid);
    assert_eq!(row(&grid, 0), "aaa b");
}

#[test]
fn center_overflow_packs_left_to_right() {
    let status_bar = StatusBar::new(2)
        .flex(Flex::Center)
        .section(0, StatusBarSection::from("aaa"))
        .unwrap()
        .section(1, StatusBarSection::from("bbb"))
        .unwrap();
    let mut grid = Grid::new(5, 1);
    status_bar.render_ref(Rect::new(0, 0, 5, 1), &mut grid);
    assert_eq!(row(&grid, 0), "aaa b");
}

#[test]
fn space_around_without_free_space() {
    let status_bar = StatusBar::new(2)
        .flex(Flex::SpaceAround)
        .section(0, StatusBarSection::from("ab"))
        .unwrap()
        .section(1, StatusBarSection::from("cd"))
        .unwrap();
    let mut grid = Grid::new(4, 1);
    status_bar.render_ref(Rect::new(0, 0, 4, 1), &mut grid);
    assert_eq!(row(&grid, 0), "abcd");
}

#[test]
fn styled_section_renders_its_style() {
    let accent = Style { fg: Some(Color::Indexed(2)), bg: None, bold: true };
    let section = StatusBarSection::default().content("ok").style(accent);
    let status_bar = StatusBar::new(2)
        .section(0, section)
        .unwrap()
        .section(1, StatusBarSection::from("plain"))
        .unwrap();
    let mut grid = Grid::new(9, 1);
    status_bar.render_ref(Rect::new(0, 0, 9, 1), &mut grid);
    assert_eq!(row(&grid, 0), "ok plain ");
    assert_eq!(grid.get(0, 0).style, accent);
    assert_eq!(grid.get(1, 0).style, accent);
    assert_eq!(grid.get(2, 0).style, Style::default());
    assert_eq!(grid.get(3, 0).style, Style::default());
}

#[test]
fn set_style_replaces_in_place() {
    let red = Style { fg: Some(Color::Rgb(255, 0, 0)), bg: None, bold: false };
    let mut status_bar = StatusBar::new(1)
        .section(0, StatusBarSection::from("hi"))
        .unwrap();
    let r = status_bar.set_style(0, red);
    assert!(r.is_ok());
    assert_eq!(status_bar.sections[0].content, "hi");
    let mut grid = Grid::new(2, 1);
    status_bar.render_ref(Rect::new(0, 0, 2, 1), &mut grid);
    assert_eq!(row(&grid, 0), "hi");
    assert_eq!(grid.get(0, 0).style, red);
}

#[test]
fn set_style_index_out_of_bounds_leaves_bar_unchanged() {
    let mut status_bar = StatusBar::new(1)
        .section(0, StatusBarSection::from("x"))
        .unwrap();
    let bold = Style { fg: None, bg: None, bold: true };
    let r = status_bar.set_style(3, bold);
    assert!(matches!(r, Err(StatusBarError::IndexOutOfBounds(3))));
    assert!(status_bar.sections[0].style.is_none());
}

#[test]
fn style_does_not_affect_layout() {
    let bold = Style { fg: None, bg: None, bold: true };
    let mut styled = StatusBar::new(2)
        .section(0, StatusBarSection::from("ab"))
        .unwrap()
        .section(1, StatusBarSection::from("cd"))
        .unwrap();
    styled.set_style(0, bold).unwrap();
    let plain_bar = StatusBar::new(2)
        .section(0, StatusBarSection::from("ab"))
        .unwrap()
        .section(1, StatusBarSection::from("cd"))
        .unwrap();
    let area = Rect::new(0, 0, 8, 1);
    let mut g1 = Grid::new(8, 1);
    let mut g2 = Grid::new(8, 1);
    styled.render_ref(area, &mut g1);
    plain_bar.render_ref(area, &mut g2);
    assert_eq!(row(&g1, 0), row(&g2, 0));
}
