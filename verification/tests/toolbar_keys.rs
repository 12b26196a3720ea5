use runebender_lib::keys::{HotKey, KbKey, KeyEvent, ALT, BASE_MODS, CONTROL, META, SHIFT};
use runebender_lib::toolbar::{Toolbar, ToolbarItem};
use runebender_lib::outline::{rect_path, star_path};

const CAPS_LOCK: u32 = 0x04;

fn press(mods: u32, key: &str) -> KeyEvent {
    KeyEvent { key: KbKey::character(key), mods }
}

#[test]
fn base_mods_are_the_four_modifiers() {
    assert_eq!(BASE_MODS, ALT | CONTROL | META | SHIFT);
    assert_eq!(BASE_MODS, 0x249);
}

#[test]
fn hotkey_matching() {
    let hk = HotKey::new(SHIFT, KbKey::character("P"));
    assert!(hk.matches(&press(SHIFT, "P")));
    assert!(hk.matches(&press(SHIFT | CAPS_LOCK, "P")));
    assert!(!hk.matches(&press(0, "P")));
    assert!(!hk.matches(&press(SHIFT | CONTROL, "P")));
    assert!(!hk.matches(&press(SHIFT, "p")));
    let named = HotKey::new(0, KbKey::named("Shift"));
    assert!(!named.matches(&press(0, "Shift")));
    assert!(named.matches(&KeyEvent { key: KbKey::named("Shift"), mods: 0 }));
}

#[test]
fn key_identity() {
    assert!(KbKey::character("a").same_as(&KbKey::character("a")));
    assert!(!KbKey::character("a").same_as(&KbKey::named("a")));
    assert!(KbKey::named("Shift").is_shift());
    assert!(!KbKey::character("Shift").is_shift());
    assert!(!KbKey::named("Shift2").is_shift());
}

fn names(t: &Toolbar) -> Vec<&'static str> {
    t.items().iter().map(|i| i.name).collect()
}

#[test]
fn default_toolbar_order() {
    let t = Toolbar::default();
    assert_eq!(
        names(&t),
        vec![
            "Select", "Pen", "HyperPen", "Metaball", "Knife", "Preview", "Measure", "Rectangle",
            "Ellipse", "Star"
        ]
    );
    assert_eq!(t.selected(), 0);
    assert!(t.is_selected(0));
    assert!(!t.is_selected(1));
}

#[test]
fn default_hotkeys() {
    let t = Toolbar::default();
    let cases: Vec<(u32, &str, Option<&str>)> = vec![
        (0, "v", Some("Select")),
        (0, "p", Some("Pen")),
        (SHIFT, "P", Some("HyperPen")),
        (SHIFT, "M", Some("Metaball")),
        (0, "e", Some("Knife")),
        (0, "h", Some("Preview")),
        (0, "m", Some("Measure")),
        (0, "u", Some("Rectangle")),
        (SHIFT, "U", Some("Ellipse")),
        (0, "s", Some("Star")),
        (0, "P", None),
        (SHIFT, "p", None),
        (CONTROL, "v", None),
        (0, "x", None),
        (CAPS_LOCK, "s", Some("Star")),
    ];
    for (mods, key, expected) in cases {
        assert_eq!(
            t.tool_for_keypress(&press(mods, key)),
            expected,
            "{} {}",
            mods,
            key
        );
    }
}

#[test]
fn set_tool_selects_named_tool() {
    let mut t = Toolbar::default();
    t.set_tool("Knife");
    assert_eq!(t.selected(), 4);
    t.set_tool("Nope");
    assert_eq!(t.selected(), 4);
    t.set_tool("Star");
    assert_eq!(t.selected(), 9);
}

#[test]
fn click_asks_for_tool_then_selects_it() {
    let mut t = Toolbar::default();
    assert_eq!(t.clicked_tool(0, true), None);
    assert_eq!(t.clicked_tool(3, false), None);
    let asked = t.clicked_tool(3, true);
    assert_eq!(asked, Some("Metaball"));
    t.set_tool(asked.unwrap());
    assert_eq!(t.selected(), 3);
}

#[test]
fn keypress_then_select() {
    let mut t = Toolbar::default();
    let tool = t.tool_for_keypress(&press(SHIFT, "U")).unwrap();
    t.set_tool(tool);
    assert_eq!(t.selected(), 8);
}

#[test]
fn first_of_duplicate_names_wins() {
    let item = |name: &'static str, key: &str| ToolbarItem {
        icon: rect_path(),
        name,
        hotkey: HotKey::new(0, KbKey::character(key)),
    };
    let mut t = Toolbar::new(vec![item("A", "a"), item("B", "b"), item("B", "b"), item("C", "a")]);
    t.set_tool(&String::from("B"));
    assert_eq!(t.selected(), 1);
    assert_eq!(t.tool_for_keypress(&press(0, "a")), Some("A"));
    let star_item = ToolbarItem {
        icon: star_path(),
        name: "Star",
        hotkey: HotKey::new(0, KbKey::character("s")),
    };
    let t2 = Toolbar::new(vec![star_item]);
    assert_eq!(t2.tool_for_keypress(&press(0, "s")), Some("Star"));
}

#[test]
fn empty_toolbar() {
    let mut t = Toolbar::new(vec![]);
    assert_eq!(t.selected(), 0);
    assert_eq!(t.tool_for_keypress(&press(0, "v")), None);
    t.set_tool("Select");
    assert_eq!(t.selected(), 0);
}
