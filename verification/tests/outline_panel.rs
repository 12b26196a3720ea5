use runebender_lib::outline::{
    ellipse_path, hyperpen_path, knife_path, measure_path, metaball_path, pen_path,
    preview_path, rect_path, select_path, star_path, IconPath, IconPoint, PathCommand,
};
use runebender_lib::panel::FloatingPanel;
use runebender_lib::toolbar::Toolbar;

fn p(x: i32, y: i32) -> IconPoint {
    IconPoint { x, y }
}

#[test]
fn builder_records_commands() {
    let mut b = IconPath::new();
    b.move_to(1, 2);
    b.line_to(3, 4);
    b.curve_to(5, 6, 7, 8, 9, 10);
    b.close_path();
    assert_eq!(
        b.commands().clone(),
        vec![
            PathCommand::MoveTo(p(1, 2)),
            PathCommand::LineTo(p(3, 4)),
            PathCommand::CurveTo(p(5, 6), p(7, 8), p(9, 10)),
            PathCommand::ClosePath,
        ]
    );
}

#[test]
fn rect_icon() {
    assert_eq!(
        rect_path().commands().clone(),
        vec![
            PathCommand::MoveTo(p(0, 500)),
            PathCommand::LineTo(p(220, 500)),
            PathCommand::LineTo(p(220, 0)),
            PathCommand::LineTo(p(0, 0)),
            PathCommand::LineTo(p(0, 500)),
            PathCommand::ClosePath,
        ]
    );
}

#[test]
fn icon_lengths_and_starts() {
    let icons = vec![
        (select_path(), 16, p(144, 500)),
        (pen_path(), 24, p(40, 500)),
        (hyperpen_path(), 20, p(194, 237)),
        (metaball_path(), 34, p(333, 520)),
        (knife_path(), 22, p(30, 500)),
        (preview_path(), 30, p(130, 500)),
        (measure_path(), 40, p(0, 500)),
        (rect_path(), 6, p(0, 500)),
        (ellipse_path(), 6, p(110, 0)),
        (star_path(), 11, p(150, 0)),
    ];
    for (icon, len, start) in icons {
        assert_eq!(icon.commands().len(), len);
        assert_eq!(icon.commands()[0], PathCommand::MoveTo(start));
    }
    assert_eq!(
        ellipse_path().commands()[1],
        PathCommand::CurveTo(p(50, 0), p(0, 100), p(0, 240))
    );
    assert_eq!(star_path().commands()[10], PathCommand::ClosePath);
}

#[test]
fn default_toolbar_icons() {
    let t = Toolbar::default();
    assert_eq!(t.items()[9].icon.commands().clone(), star_path().commands().clone());
    assert_eq!(t.items()[4].icon.commands().clone(), knife_path().commands().clone());
}

#[test]
fn floating_panel_hides_during_preview() {
    let mut panel = FloatingPanel::new(7u32);
    assert!(!panel.is_hidden());
    assert_eq!(*panel.inner(), 7);
    panel.set_preview(true);
    assert!(panel.is_hidden());
    *panel.inner_mut() = 8;
    assert!(panel.is_hidden());
    panel.set_preview(false);
    assert!(!panel.is_hidden());
    assert_eq!(*panel.inner(), 8);
}
