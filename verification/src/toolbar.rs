//! The toolbar: its tools, which one is selected, and which tool a key press asks for.

use vstd::prelude::*;
use crate::keys::{
    HotKey, KbKey, KeyEvent, SHIFT, hotkey_matches, key_value, lemma_hotkey_matches_exactly,
};
use crate::outline::{
    IconPath, IconPoint, PathCommand, select_path, pen_path, hyperpen_path, metaball_path, knife_path, preview_path,
    measure_path, rect_path, ellipse_path, star_path, select_outline, pen_outline,
    hyperpen_outline, metaball_outline, knife_outline, preview_outline, measure_outline,
    rect_outline, ellipse_outline, star_outline,
};

verus! {

/// A tool's identifier: its name.
pub type ToolId = &'static str;

/// One tool of the toolbar: its icon, its name (which identifies the tool) and the
/// hot key that selects it.
pub struct ToolbarItem {
    pub icon: IconPath,
    pub name: ToolId,
    pub hotkey: HotKey,
}

/// The toolbar: its tools, in order, and the index of the selected one.
pub struct Toolbar {
    items: Vec<ToolbarItem>,
    selected: usize,
}

/// What the toolbar holds, as a value.
pub struct ToolbarModel {
    pub items: Seq<ToolbarItem>,
    pub selected: int,
}

impl View for Toolbar {
    type V = ToolbarModel;

    closed spec fn view(&self) -> ToolbarModel {
        ToolbarModel { items: self.items@, selected: self.selected as int }
    }
}

/// Whether some tool has the given name.
pub open spec fn has_name(items: Seq<ToolbarItem>, name: Seq<char>) -> bool {
    exists|k: int| 0 <= k < items.len() && #[trigger] items[k].name@ == name
}

/// Whether `k` is the first tool with the given name.
pub open spec fn first_with_name(items: Seq<ToolbarItem>, name: Seq<char>, k: int) -> bool {
    &&& 0 <= k < items.len()
    &&& items[k].name@ == name
    &&& forall|j: int| 0 <= j < k ==> #[trigger] items[j].name@ != name
}

/// The first tool with the given name (meaningful when there is one).
pub open spec fn index_of_name(items: Seq<ToolbarItem>, name: Seq<char>) -> int {
    choose|k: int| first_with_name(items, name, k)
}

/// Whether some tool's hot key matches the key press.
pub open spec fn has_match(items: Seq<ToolbarItem>, e: &KeyEvent) -> bool {
    exists|k: int| 0 <= k < items.len() && hotkey_matches(&#[trigger] items[k].hotkey, e)
}

/// Whether `k` is the first tool whose hot key matches the key press.
pub open spec fn first_match(items: Seq<ToolbarItem>, e: &KeyEvent, k: int) -> bool {
    &&& 0 <= k < items.len()
    &&& hotkey_matches(&items[k].hotkey, e)
    &&& forall|j: int| 0 <= j < k ==> !hotkey_matches(&#[trigger] items[j].hotkey, e)
}

/// The first tool whose hot key matches the key press (meaningful when there is one).
pub open spec fn index_of_match(items: Seq<ToolbarItem>, e: &KeyEvent) -> int {
    choose|k: int| first_match(items, e, k)
}

/// The tool (by name) that a key press asks for: the first whose hot key matches.
pub open spec fn keypress_tool(items: Seq<ToolbarItem>, e: &KeyEvent) -> Option<Seq<char>> {
    if has_match(items, e) {
        Some(items[index_of_match(items, e)].name@)
    } else {
        None
    }
}

/// The toolbar after a request to select the tool named `name`: the first tool of that
/// name becomes selected; an unknown name changes nothing.
pub open spec fn after_set_tool(m: ToolbarModel, name: Seq<char>) -> ToolbarModel {
    if has_name(m.items, name) {
        ToolbarModel { selected: index_of_name(m.items, name), ..m }
    } else {
        m
    }
}

/// The tool (by name) that a click on the tool at `i` asks to select: none when the
/// tool did not become selected, or was the selected one already.
pub open spec fn clicked_tool(m: ToolbarModel, i: int, now_selected: bool) -> Option<Seq<char>> {
    if now_selected && i != m.selected {
        Some(m.items[i].name@)
    } else {
        None
    }
}

/// Whether the selection names a tool (or is the first slot of an empty toolbar).
pub open spec fn selection_valid(m: ToolbarModel) -> bool {
    0 <= m.selected < m.items.len() || m.selected == 0
}

/// Whether no two tools share a name.
pub open spec fn names_distinct(items: Seq<ToolbarItem>) -> bool {
    forall|i: int, j: int|
        0 <= i < items.len() && 0 <= j < items.len() && i != j ==> #[trigger] items[i].name@
            != #[trigger] items[j].name@
}

/// There is at most one first tool with a given name.
pub proof fn lemma_first_with_name_unique(items: Seq<ToolbarItem>, name: Seq<char>, a: int, b: int)
    requires
        first_with_name(items, name, a),
        first_with_name(items, name, b),
    ensures
        a == b,
{
    if a < b {
        assert(items[a].name@ != name);
    } else if b < a {
        assert(items[b].name@ != name);
    }
}

/// There is at most one first tool matching a key press.
pub proof fn lemma_first_match_unique(items: Seq<ToolbarItem>, e: &KeyEvent, a: int, b: int)
    requires
        first_match(items, e, a),
        first_match(items, e, b),
    ensures
        a == b,
{
    if a < b {
        assert(!hotkey_matches(&items[a].hotkey, e));
    } else if b < a {
        assert(!hotkey_matches(&items[b].hotkey, e));
    }
}

/// Whether two tool names are equal.
fn same_name(a: &str, b: &str) -> (r: bool)
    ensures
        r == (a@ == b@),
{
    a.to_owned() == b.to_owned()
}

impl Toolbar {
    /// A toolbar with the given tools; the first is selected.
    pub fn new(items: Vec<ToolbarItem>) -> (r: Toolbar)
        ensures
            r@.items == items@,
            r@.selected == 0,
    {
        Toolbar { items, selected: 0 }
    }

    /// The tools, in order.
    pub fn items(&self) -> (r: &Vec<ToolbarItem>)
        ensures
            r@ == self@.items,
    {
        &self.items
    }

    /// The index of the selected tool.
    pub fn selected(&self) -> (r: usize)
        ensures
            r == self@.selected,
    {
        self.selected
    }

    /// Whether the tool at `i` is the selected one.
    pub fn is_selected(&self, i: usize) -> (r: bool)
        ensures
            r == (i == self@.selected),
    {
        i == self.selected
    }

    /// The tool (by name) that a key press asks for: the first whose hot key matches.
    pub fn tool_for_keypress(&self, key: &KeyEvent) -> (r: Option<ToolId>)
        ensures
            r is Some <==> keypress_tool(self@.items, key) is Some,
            r matches Some(n) ==> keypress_tool(self@.items, key) == Some(n@),
    {
        let mut i: usize = 0;
        while i < self.items.len()
            invariant
                i <= self.items@.len(),
                forall|j: int| 0 <= j < i ==> !hotkey_matches(&#[trigger] self.items@[j].hotkey, key),
            decreases self.items@.len() - i,
        {
            if self.items[i].hotkey.matches(key) {
                proof {
                    assert(first_match(self@.items, key, i as int));
                    let k = index_of_match(self@.items, key);
                    lemma_first_match_unique(self@.items, key, i as int, k);
                }
                return Some(self.items[i].name);
            }
            i = i + 1;
        }
        None
    }

    /// A request to select the tool named `tool_id`: the first tool of that name
    /// becomes selected; an unknown name changes nothing.
    pub fn set_tool(&mut self, tool_id: &str)
        ensures
            final(self)@ == after_set_tool(old(self)@, tool_id@),
    {
        let mut i: usize = 0;
        while i < self.items.len()
            invariant
                self@ == old(self)@,
                i <= self.items@.len(),
                forall|j: int| 0 <= j < i ==> #[trigger] self.items@[j].name@ != tool_id@,
            decreases self.items@.len() - i,
        {
            if same_name(self.items[i].name, tool_id) {
                proof {
                    assert(first_with_name(self@.items, tool_id@, i as int));
                    let k = index_of_name(self@.items, tool_id@);
                    lemma_first_with_name_unique(self@.items, tool_id@, i as int, k);
                }
                self.selected = i;
                return;
            }
            i = i + 1;
        }
    }

    /// The tool (by name) that a click on the tool at `i` asks to select: none when
    /// the tool did not become selected (`now_selected`), or was selected already.
    pub fn clicked_tool(&self, i: usize, now_selected: bool) -> (r: Option<ToolId>)
        requires
            i < self@.items.len(),
        ensures
            r is Some <==> clicked_tool(self@, i as int, now_selected) is Some,
            r matches Some(n) ==> clicked_tool(self@, i as int, now_selected) == Some(n@),
    {
        if now_selected && i != self.selected {
            Some(self.items[i].name)
        } else {
            None
        }
    }
}

/// Selecting a tool keeps the selection on a tool.
pub proof fn lemma_set_tool_keeps_selection_valid(m: ToolbarModel, name: Seq<char>)
    requires
        selection_valid(m),
    ensures
        selection_valid(after_set_tool(m, name)),
        after_set_tool(m, name).items == m.items,
{
    if has_name(m.items, name) {
        let k = choose|k: int| 0 <= k < m.items.len() && #[trigger] m.items[k].name@ == name;
        lemma_first_name_exists(m.items, name, k);
    }
}

/// When some tool has a name, a first tool with that name exists.
pub proof fn lemma_first_name_exists(items: Seq<ToolbarItem>, name: Seq<char>, k: int)
    requires
        0 <= k < items.len(),
        items[k].name@ == name,
    ensures
        first_with_name(items, name, index_of_name(items, name)),
    decreases k,
{
    if forall|j: int| 0 <= j < k ==> #[trigger] items[j].name@ != name {
        assert(first_with_name(items, name, k));
    } else {
        let j = choose|j: int| 0 <= j < k && #[trigger] items[j].name@ == name;
        lemma_first_name_exists(items, name, j);
    }
}

/// When some hot key matches a key press, a first matching tool exists.
pub proof fn lemma_first_match_exists(items: Seq<ToolbarItem>, e: &KeyEvent, k: int)
    requires
        0 <= k < items.len(),
        hotkey_matches(&items[k].hotkey, e),
    ensures
        first_match(items, e, index_of_match(items, e)),
    decreases k,
{
    if forall|j: int| 0 <= j < k ==> !hotkey_matches(&#[trigger] items[j].hotkey, e) {
        assert(first_match(items, e, k));
    } else {
        let j = choose|j: int| 0 <= j < k && hotkey_matches(&#[trigger] items[j].hotkey, e);
        lemma_first_match_exists(items, e, j);
    }
}

/// When tool names are distinct, clicking a tool that was not selected asks for it,
/// and handling that request selects exactly that tool.
pub proof fn lemma_click_selects_clicked(m: ToolbarModel, i: int)
    requires
        names_distinct(m.items),
        0 <= i < m.items.len(),
        i != m.selected,
    ensures
        clicked_tool(m, i, true) == Some(m.items[i].name@),
        after_set_tool(m, m.items[i].name@).selected == i,
{
    lemma_request_selects_named(m, i);
}

/// A key press that asks for a tool, handled as a request to select it, selects a tool
/// whose hot key matches the press: with distinct names, the first such tool.
pub proof fn lemma_keypress_selects_matching(m: ToolbarModel, e: &KeyEvent)
    requires
        names_distinct(m.items),
        keypress_tool(m.items, e) is Some,
    ensures
        ({
            let s = after_set_tool(m, keypress_tool(m.items, e)->0).selected;
            &&& 0 <= s < m.items.len()
            &&& first_match(m.items, e, s)
        }),
{
    let k0 = choose|k: int| 0 <= k < m.items.len() && hotkey_matches(&#[trigger] m.items[k].hotkey, e);
    lemma_first_match_exists(m.items, e, k0);
    let k = index_of_match(m.items, e);
    lemma_request_selects_named(m, k);
}

/// With distinct names, requesting the tool named like the tool at `i` selects `i`.
pub proof fn lemma_request_selects_named(m: ToolbarModel, i: int)
    requires
        names_distinct(m.items),
        0 <= i < m.items.len(),
    ensures
        after_set_tool(m, m.items[i].name@).selected == i,
{
    let name = m.items[i].name@;
    assert(first_with_name(m.items, name, i));
    lemma_first_name_exists(m.items, name, i);
    lemma_first_with_name_unique(m.items, name, i, index_of_name(m.items, name));
}

/// The names of the default tools, in toolbar order.
pub open spec fn default_tool_names() -> Seq<Seq<char>> {
    seq![
        "Select"@,
        "Pen"@,
        "HyperPen"@,
        "Metaball"@,
        "Knife"@,
        "Preview"@,
        "Measure"@,
        "Rectangle"@,
        "Ellipse"@,
        "Star"@,
    ]
}

/// The modifiers of the default tools' hot keys, in toolbar order.
pub open spec fn default_hotkey_mods() -> Seq<u32> {
    seq![0, 0, SHIFT, SHIFT, 0, 0, 0, 0, SHIFT, 0]
}

/// The keys of the default tools' hot keys, in toolbar order.
pub open spec fn default_hotkey_keys() -> Seq<Seq<char>> {
    seq!["v"@, "p"@, "P"@, "M"@, "e"@, "h"@, "m"@, "u"@, "U"@, "s"@]
}

/// The outlines of the default tools' icons, in toolbar order.
pub open spec fn default_icons() -> Seq<Seq<PathCommand>> {
    seq![
        select_outline(),
        pen_outline(),
        hyperpen_outline(),
        metaball_outline(),
        knife_outline(),
        preview_outline(),
        measure_outline(),
        rect_outline(),
        ellipse_outline(),
        star_outline(),
    ]
}

/// Whether the tools are the default ones, in the default order.
pub open spec fn is_default_items(items: Seq<ToolbarItem>) -> bool {
    &&& items.len() == 10
    &&& forall|i: int|
        0 <= i < 10 ==> {
            &&& #[trigger] items[i].name@ == default_tool_names()[i]
            &&& items[i].icon@ == default_icons()[i]
            &&& items[i].hotkey.mods == default_hotkey_mods()[i]
            &&& key_value(&items[i].hotkey.key) == (true, default_hotkey_keys()[i])
        }
}

/// A tool with the given icon, name, and a hot key of the given modifiers and typed key.
fn tool_item(icon: IconPath, name: ToolId, mods: u32, key: &str) -> (r: ToolbarItem)
    ensures
        r.icon@ == icon@,
        r.name@ == name@,
        r.hotkey.mods == mods,
        key_value(&r.hotkey.key) == (true, key@),
{
    ToolbarItem { icon, name, hotkey: HotKey::new(mods, KbKey::character(key)) }
}

impl Default for Toolbar {
    /// The default tools: select, pen, hyper pen, metaball, knife, preview, measure,
    /// rectangle, ellipse and star; the first is selected.
    fn default() -> (r: Toolbar)
        ensures
            is_default_items(r@.items),
            r@.selected == 0,
    {
        let select = tool_item(select_path(), "Select", 0, "v");
        let pen = tool_item(pen_path(), "Pen", 0, "p");
        let hyperpen = tool_item(hyperpen_path(), "HyperPen", SHIFT, "P");
        let metaball = tool_item(metaball_path(), "Metaball", SHIFT, "M");
        let preview = tool_item(preview_path(), "Preview", 0, "h");
        let rectangle = tool_item(rect_path(), "Rectangle", 0, "u");
        let ellipse = tool_item(ellipse_path(), "Ellipse", SHIFT, "U");
        let knife = tool_item(knife_path(), "Knife", 0, "e");
        let measure = tool_item(measure_path(), "Measure", 0, "m");
        let star = tool_item(star_path(), "Star", 0, "s");
        let r = Toolbar::new(
            vec![select, pen, hyperpen, metaball, knife, preview, measure, rectangle, ellipse, star],
        );
        assert(is_default_items(r@.items));
        r
    }
}

/// The default tools have distinct names, and distinct hot keys, so that a key press
/// matches the hot key of at most one default tool.
pub proof fn lemma_default_tools_distinct(items: Seq<ToolbarItem>)
    requires
        is_default_items(items),
    ensures
        names_distinct(items),
        forall|e: &KeyEvent, i: int, j: int|
            0 <= i < 10 && 0 <= j < 10 && hotkey_matches(&#[trigger] items[i].hotkey, e)
                && hotkey_matches(&#[trigger] items[j].hotkey, e) ==> i == j,
{
    reveal_strlit("Select");
    reveal_strlit("Pen");
    reveal_strlit("HyperPen");
    reveal_strlit("Metaball");
    reveal_strlit("Knife");
    reveal_strlit("Preview");
    reveal_strlit("Measure");
    reveal_strlit("Rectangle");
    reveal_strlit("Ellipse");
    reveal_strlit("Star");
    reveal_strlit("v");
    reveal_strlit("p");
    reveal_strlit("P");
    reveal_strlit("M");
    reveal_strlit("e");
    reveal_strlit("h");
    reveal_strlit("m");
    reveal_strlit("u");
    reveal_strlit("U");
    reveal_strlit("s");
    assert forall|i: int, j: int|
        0 <= i < 10 && 0 <= j < 10 && i != j implies default_tool_names()[i]
            != default_tool_names()[j] && default_hotkey_keys()[i] != default_hotkey_keys()[j] by {
        let ni = default_tool_names()[i];
        let nj = default_tool_names()[j];
        let ki = default_hotkey_keys()[i];
        let kj = default_hotkey_keys()[j];
        assert(ni.len() != nj.len() || ni[0] != nj[0]);
        assert(ki[0] != kj[0]);
    }
    assert forall|i: int, j: int|
        0 <= i < items.len() && 0 <= j < items.len() && i != j implies #[trigger] items[i].name@
            != #[trigger] items[j].name@ by {
        assert(items[i].name@ == default_tool_names()[i]);
        assert(items[j].name@ == default_tool_names()[j]);
    }
    assert forall|e: &KeyEvent, i: int, j: int|
        0 <= i < 10 && 0 <= j < 10 && hotkey_matches(&#[trigger] items[i].hotkey, e)
            && hotkey_matches(&#[trigger] items[j].hotkey, e) implies i == j by {
        assert(items[i].name@ == default_tool_names()[i]);
        assert(items[j].name@ == default_tool_names()[j]);
        assert(key_value(&items[i].hotkey.key) == (true, default_hotkey_keys()[i]));
        assert(key_value(&items[j].hotkey.key) == (true, default_hotkey_keys()[j]));
        if i != j {
            assert(default_hotkey_keys()[i] != default_hotkey_keys()[j]);
        }
    }
}

/// On the default toolbar a key press asks for exactly the tool whose hot key it
/// matches.
pub proof fn lemma_default_keypress(items: Seq<ToolbarItem>, e: &KeyEvent, i: int)
    requires
        is_default_items(items),
        0 <= i < 10,
        hotkey_matches(&items[i].hotkey, e),
    ensures
        keypress_tool(items, e) == Some(default_tool_names()[i]),
{
    lemma_default_tools_distinct(items);
    lemma_first_match_exists(items, e, i);
    let k = index_of_match(items, e);
    assert(hotkey_matches(&items[k].hotkey, e));
    assert(k == i);
    assert(items[i].name@ == default_tool_names()[i]);
}

/// A click asks to select a tool exactly when the clicked tool became selected and is
/// not the selected tool already; it then asks for the clicked tool's name. In
/// particular a click on the selected tool never asks for anything.
pub proof fn lemma_click_asks_only_for_other_tool(m: ToolbarModel, i: int, now_selected: bool)
    ensures
        clicked_tool(m, m.selected, now_selected) is None,
        !now_selected ==> clicked_tool(m, i, now_selected) is None,
        now_selected && i != m.selected ==> clicked_tool(m, i, now_selected) == Some(
            m.items[i].name@,
        ),
{
}

/// A request to select a tool by name selects the first tool of that name, and leaves
/// the tools as they are; when no tool has that name the selection is kept.
pub proof fn lemma_set_tool_selects_first_named(m: ToolbarModel, name: Seq<char>, k: int)
    ensures
        after_set_tool(m, name).items == m.items,
        (0 <= k < m.items.len() && m.items[k].name@ == name && forall|j: int|
            0 <= j < k ==> #[trigger] m.items[j].name@ != name) ==> after_set_tool(m, name).selected
            == k,
        (forall|j: int| 0 <= j < m.items.len() ==> #[trigger] m.items[j].name@ != name)
            ==> after_set_tool(m, name) == m,
{
    if 0 <= k < m.items.len() && m.items[k].name@ == name && forall|j: int|
        0 <= j < k ==> #[trigger] m.items[j].name@ != name {
        assert(first_with_name(m.items, name, k));
        lemma_first_name_exists(m.items, name, k);
        lemma_first_with_name_unique(m.items, name, k, index_of_name(m.items, name));
    }
}

/// A key press asks for the name of the first tool whose hot key matches it, and for
/// nothing when no hot key matches.
pub proof fn lemma_keypress_asks_first_match(items: Seq<ToolbarItem>, e: &KeyEvent, k: int)
    ensures
        (0 <= k < items.len() && hotkey_matches(&items[k].hotkey, e) && forall|j: int|
            0 <= j < k ==> !hotkey_matches(&#[trigger] items[j].hotkey, e)) ==> keypress_tool(
            items,
            e,
        ) == Some(items[k].name@),
        (forall|j: int| 0 <= j < items.len() ==> !hotkey_matches(&#[trigger] items[j].hotkey, e))
            ==> keypress_tool(items, e) is None,
{
    if 0 <= k < items.len() && hotkey_matches(&items[k].hotkey, e) && forall|j: int|
        0 <= j < k ==> !hotkey_matches(&#[trigger] items[j].hotkey, e) {
        assert(first_match(items, e, k));
        lemma_first_match_exists(items, e, k);
        lemma_first_match_unique(items, e, k, index_of_match(items, e));
    }
}

/// The default tool names, in toolbar order, are pairwise distinct.
pub proof fn lemma_default_names_distinct()
    ensures
        forall|i: int, j: int|
            0 <= i < 10 && 0 <= j < 10 && i != j ==> #[trigger] default_tool_names()[i]
                != #[trigger] default_tool_names()[j],
{
    reveal_strlit("Select");
    reveal_strlit("Pen");
    reveal_strlit("HyperPen");
    reveal_strlit("Metaball");
    reveal_strlit("Knife");
    reveal_strlit("Preview");
    reveal_strlit("Measure");
    reveal_strlit("Rectangle");
    reveal_strlit("Ellipse");
    reveal_strlit("Star");
    assert forall|i: int, j: int|
        0 <= i < 10 && 0 <= j < 10 && i != j implies #[trigger] default_tool_names()[i]
            != #[trigger] default_tool_names()[j] by {
        let ni = default_tool_names()[i];
        let nj = default_tool_names()[j];
        assert(ni.len() != nj.len() || ni[0] != nj[0]);
    }
}

/// Whether the tool named `name` among `items` has an icon of `len` commands that
/// starts at (x, y).
pub open spec fn named_icon_starts(items: Seq<ToolbarItem>, name: Seq<char>, len: nat, x: i32, y: i32) -> bool {
    forall|i: int|
        0 <= i < items.len() && #[trigger] items[i].name@ == name ==> items[i].icon@.len() == len
            && items[i].icon@[0] == PathCommand::MoveTo(IconPoint { x, y })
}

/// Each default tool shows its own icon: the selection arrow, pen nib, hyper pen
/// spiral, metaball rings, knife, hand, ruler, rectangle, ellipse and star, told apart
/// by their numbers of commands and starting points.
pub proof fn lemma_default_icons_by_name(items: Seq<ToolbarItem>)
    requires
        is_default_items(items),
    ensures
        named_icon_starts(items, "Select"@, 16, 144, 500),
        named_icon_starts(items, "Pen"@, 24, 40, 500),
        named_icon_starts(items, "HyperPen"@, 20, 194, 237),
        named_icon_starts(items, "Metaball"@, 34, 333, 520),
        named_icon_starts(items, "Knife"@, 22, 30, 500),
        named_icon_starts(items, "Preview"@, 30, 130, 500),
        named_icon_starts(items, "Measure"@, 40, 0, 500),
        named_icon_starts(items, "Rectangle"@, 6, 0, 500),
        named_icon_starts(items, "Ellipse"@, 6, 110, 0),
        named_icon_starts(items, "Star"@, 11, 150, 0),
{
    lemma_default_names_distinct();
    assert forall|i: int| 0 <= i < 10 implies items[i].icon@.len() == [16nat, 24, 20, 34, 22, 30, 40, 6, 6, 11][i]
        && items[i].icon@[0] == [
            PathCommand::MoveTo(IconPoint { x: 144, y: 500 }),
            PathCommand::MoveTo(IconPoint { x: 40, y: 500 }),
            PathCommand::MoveTo(IconPoint { x: 194, y: 237 }),
            PathCommand::MoveTo(IconPoint { x: 333, y: 520 }),
            PathCommand::MoveTo(IconPoint { x: 30, y: 500 }),
            PathCommand::MoveTo(IconPoint { x: 130, y: 500 }),
            PathCommand::MoveTo(IconPoint { x: 0, y: 500 }),
            PathCommand::MoveTo(IconPoint { x: 0, y: 500 }),
            PathCommand::MoveTo(IconPoint { x: 110, y: 0 }),
            PathCommand::MoveTo(IconPoint { x: 150, y: 0 }),
        ][i] by {
        assert(items[i].name@ == default_tool_names()[i]);
        assert(items[i].icon@ == default_icons()[i]);
    }
    assert forall|i: int| 0 <= i < 10 implies #[trigger] items[i].name@ == default_tool_names()[i]
    by {
        assert(items[i].name@ == default_tool_names()[i]);
    }
}

/// No default tool's hot key uses Control, Alt or Meta, so a press with any of them
/// held asks for no default tool (Cmd+S, for one, is not the star tool).
pub proof fn lemma_default_ignores_command_keys(items: Seq<ToolbarItem>, e: &KeyEvent)
    requires
        is_default_items(items),
        e.mods & 0x49u32 != 0,
    ensures
        keypress_tool(items, e) is None,
{
    let m = e.mods;
    assert(m & 0x49u32 != 0u32 ==> (m & 0x249u32) != 0u32 && (m & 0x249u32) != 0x200u32)
        by (bit_vector);
    assert forall|j: int| 0 <= j < items.len() implies !hotkey_matches(&#[trigger] items[j].hotkey, e) by {
        lemma_hotkey_matches_exactly(&items[j].hotkey, e);
        assert(items[j].name@ == default_tool_names()[j]);
        assert(items[j].hotkey.mods == default_hotkey_mods()[j]);
    }
    lemma_keypress_asks_first_match(items, e, 0);
}

/// The default tools, in toolbar order, with their hot keys: Select (v), Pen (p),
/// HyperPen (Shift+P), Metaball (Shift+M), Knife (e), Preview (h), Measure (m),
/// Rectangle (u), Ellipse (Shift+U) and Star (s).
pub proof fn lemma_default_tools_in_order(items: Seq<ToolbarItem>)
    requires
        is_default_items(items),
    ensures
        items.len() == 10,
        items[0].name@ == "Select"@ && items[0].hotkey.mods == 0x0u32 && key_value(&items[0].hotkey.key) == (true, "v"@),
        items[1].name@ == "Pen"@ && items[1].hotkey.mods == 0x0u32 && key_value(&items[1].hotkey.key) == (true, "p"@),
        items[2].name@ == "HyperPen"@ && items[2].hotkey.mods == 0x200u32 && key_value(&items[2].hotkey.key) == (true, "P"@),
        items[3].name@ == "Metaball"@ && items[3].hotkey.mods == 0x200u32 && key_value(&items[3].hotkey.key) == (true, "M"@),
        items[4].name@ == "Knife"@ && items[4].hotkey.mods == 0x0u32 && key_value(&items[4].hotkey.key) == (true, "e"@),
        items[5].name@ == "Preview"@ && items[5].hotkey.mods == 0x0u32 && key_value(&items[5].hotkey.key) == (true, "h"@),
        items[6].name@ == "Measure"@ && items[6].hotkey.mods == 0x0u32 && key_value(&items[6].hotkey.key) == (true, "m"@),
        items[7].name@ == "Rectangle"@ && items[7].hotkey.mods == 0x0u32 && key_value(&items[7].hotkey.key) == (true, "u"@),
        items[8].name@ == "Ellipse"@ && items[8].hotkey.mods == 0x200u32 && key_value(&items[8].hotkey.key) == (true, "U"@),
        items[9].name@ == "Star"@ && items[9].hotkey.mods == 0x0u32 && key_value(&items[9].hotkey.key) == (true, "s"@),
{
    assert(items[0].name@ == default_tool_names()[0]);
    assert(items[1].name@ == default_tool_names()[1]);
    assert(items[2].name@ == default_tool_names()[2]);
    assert(items[3].name@ == default_tool_names()[3]);
    assert(items[4].name@ == default_tool_names()[4]);
    assert(items[5].name@ == default_tool_names()[5]);
    assert(items[6].name@ == default_tool_names()[6]);
    assert(items[7].name@ == default_tool_names()[7]);
    assert(items[8].name@ == default_tool_names()[8]);
    assert(items[9].name@ == default_tool_names()[9]);
}

} // verus!
