//! Icon outlines: paths of straight and cubic segments on whole-number coordinates.

use vstd::prelude::*;

verus! {

/// A point of an icon outline.
#[derive(Clone, Copy, Debug, PartialEq, Eq)]
pub struct IconPoint {
    pub x: i32,
    pub y: i32,
}

/// One step of an outline: start a new subpath, draw a straight segment, draw a
/// cubic segment through two control points, or close the current subpath.
#[derive(Clone, Copy, Debug, PartialEq, Eq)]
pub enum PathCommand {
    MoveTo(IconPoint),
    LineTo(IconPoint),
    CurveTo(IconPoint, IconPoint, IconPoint),
    ClosePath,
}

/// Starts a subpath at (x, y).
pub open spec fn move_cmd(x: i32, y: i32) -> PathCommand {
    PathCommand::MoveTo(IconPoint { x, y })
}

/// A straight segment to (x, y).
pub open spec fn line_cmd(x: i32, y: i32) -> PathCommand {
    PathCommand::LineTo(IconPoint { x, y })
}

/// A cubic segment through (x1, y1) and (x2, y2) to (x3, y3).
pub open spec fn curve_cmd(x1: i32, y1: i32, x2: i32, y2: i32, x3: i32, y3: i32) -> PathCommand {
    PathCommand::CurveTo(IconPoint { x: x1, y: y1 }, IconPoint { x: x2, y: y2 }, IconPoint { x: x3, y: y3 })
}

/// Closes the current subpath.
pub open spec fn close_cmd() -> PathCommand {
    PathCommand::ClosePath
}

/// Each command holds its coordinates as given, x then y, in order.
pub proof fn lemma_commands_hold_points(x1: i32, y1: i32, x2: i32, y2: i32, x3: i32, y3: i32)
    ensures
        move_cmd(x1, y1) == PathCommand::MoveTo(IconPoint { x: x1, y: y1 }),
        line_cmd(x1, y1) == PathCommand::LineTo(IconPoint { x: x1, y: y1 }),
        curve_cmd(x1, y1, x2, y2, x3, y3) == PathCommand::CurveTo(
            IconPoint { x: x1, y: y1 },
            IconPoint { x: x2, y: y2 },
            IconPoint { x: x3, y: y3 },
        ),
        close_cmd() == PathCommand::ClosePath,
{
}

/// An icon outline under construction: the commands drawn so far, in order.
#[derive(Clone, Debug)]
pub struct IconPath {
    commands: Vec<PathCommand>,
}

impl View for IconPath {
    type V = Seq<PathCommand>;

    closed spec fn view(&self) -> Seq<PathCommand> {
        self.commands@
    }
}

impl IconPath {
    /// An empty outline.
    pub fn new() -> (r: IconPath)
        ensures
            r@ == Seq::<PathCommand>::empty(),
    {
        IconPath { commands: Vec::new() }
    }

    /// The commands of the outline, in order.
    pub fn commands(&self) -> (r: &Vec<PathCommand>)
        ensures
            r@ == self@,
    {
        &self.commands
    }

    /// Starts a subpath at (x, y).
    pub fn move_to(&mut self, x: i32, y: i32)
        ensures
            final(self)@ == old(self)@.push(move_cmd(x, y)),
    {
        self.commands.push(PathCommand::MoveTo(IconPoint { x, y }));
    }

    /// Draws a straight segment to (x, y).
    pub fn line_to(&mut self, x: i32, y: i32)
        ensures
            final(self)@ == old(self)@.push(line_cmd(x, y)),
    {
        self.commands.push(PathCommand::LineTo(IconPoint { x, y }));
    }

    /// Draws a cubic segment through (x1, y1) and (x2, y2) to (x3, y3).
    pub fn curve_to(&mut self, x1: i32, y1: i32, x2: i32, y2: i32, x3: i32, y3: i32)
        ensures
            final(self)@ == old(self)@.push(curve_cmd(x1, y1, x2, y2, x3, y3)),
    {
        self.commands.push(
            PathCommand::CurveTo(
                IconPoint { x: x1, y: y1 },
                IconPoint { x: x2, y: y2 },
                IconPoint { x: x3, y: y3 },
            ),
        );
    }

    /// Closes the current subpath.
    pub fn close_path(&mut self)
        ensures
            final(self)@ == old(self)@.push(close_cmd()),
    {
        self.commands.push(PathCommand::ClosePath);
    }
}

/// The outline of the icon of the selection tool: an arrow pointer.
pub open spec fn select_outline() -> Seq<PathCommand> {
    seq![
        move_cmd(144, 500),
        line_cmd(96, 349),
        line_cmd(87, 345),
        line_cmd(10, 408),
        line_cmd(0, 406),
        line_cmd(5, 5),
        line_cmd(17, 0),
        line_cmd(266, 286),
        line_cmd(263, 296),
        line_cmd(165, 313),
        line_cmd(162, 321),
        line_cmd(227, 456),
        line_cmd(221, 465),
        line_cmd(157, 500),
        line_cmd(144, 500),
        close_cmd(),
    ]
}

/// The icon of the selection tool: an arrow pointer.
pub fn select_path() -> (r: IconPath)
    ensures
        r@ == select_outline(),
{
    let mut bez = IconPath::new();
    bez.move_to(144, 500);
    bez.line_to(96, 349);
    bez.line_to(87, 345);
    bez.line_to(10, 408);
    bez.line_to(0, 406);
    bez.line_to(5, 5);
    bez.line_to(17, 0);
    bez.line_to(266, 286);
    bez.line_to(263, 296);
    bez.line_to(165, 313);
    bez.line_to(162, 321);
    bez.line_to(227, 456);
    bez.line_to(221, 465);
    bez.line_to(157, 500);
    bez.line_to(144, 500);
    bez.close_path();
    assert(bez@ =~= select_outline());
    bez
}

/// The outline of the icon of the pen tool: a fountain pen nib.
pub open spec fn pen_outline() -> Seq<PathCommand> {
    seq![
        move_cmd(40, 500),
        line_cmd(240, 500),
        line_cmd(240, 410),
        line_cmd(40, 410),
        line_cmd(40, 500),
        close_cmd(),
        move_cmd(40, 410),
        line_cmd(240, 410),
        line_cmd(239, 370),
        line_cmd(280, 290),
        curve_cmd(240, 220, 205, 130, 195, 0),
        line_cmd(85, 0),
        curve_cmd(75, 130, 40, 220, 0, 290),
        line_cmd(40, 370),
        line_cmd(40, 410),
        close_cmd(),
        move_cmd(140, 0),
        line_cmd(140, 266),
        move_cmd(173, 300),
        curve_cmd(173, 283, 159, 267, 140, 267),
        curve_cmd(121, 267, 107, 283, 107, 300),
        curve_cmd(107, 317, 121, 333, 140, 333),
        curve_cmd(159, 333, 173, 317, 173, 300),
        close_cmd(),
    ]
}

/// The icon of the pen tool: a fountain pen nib.
pub fn pen_path() -> (r: IconPath)
    ensures
        r@ == pen_outline(),
{
    let mut bez = IconPath::new();
    bez.move_to(40, 500);
    bez.line_to(240, 500);
    bez.line_to(240, 410);
    bez.line_to(40, 410);
    bez.line_to(40, 500);
    bez.close_path();
    bez.move_to(40, 410);
    bez.line_to(240, 410);
    bez.line_to(239, 370);
    bez.line_to(280, 290);
    bez.curve_to(240, 220, 205, 130, 195, 0);
    bez.line_to(85, 0);
    bez.curve_to(75, 130, 40, 220, 0, 290);
    bez.line_to(40, 370);
    bez.line_to(40, 410);
    bez.close_path();
    bez.move_to(140, 0);
    bez.line_to(140, 266);
    bez.move_to(173, 300);
    bez.curve_to(173, 283, 159, 267, 140, 267);
    bez.curve_to(121, 267, 107, 283, 107, 300);
    bez.curve_to(107, 317, 121, 333, 140, 333);
    bez.curve_to(159, 333, 173, 317, 173, 300);
    bez.close_path();
    assert(bez@ =~= pen_outline());
    bez
}

/// The outline of the icon of the hyper pen tool: a spiral stroke.
pub open spec fn hyperpen_outline() -> Seq<PathCommand> {
    seq![
        move_cmd(194, 237),
        curve_cmd(194, 220, 162, 217, 162, 199),
        curve_cmd(162, 184, 169, 169, 195, 169),
        curve_cmd(218, 169, 242, 192, 242, 234),
        curve_cmd(241, 285, 229, 307, 190, 310),
        curve_cmd(144, 308, 69, 293, 69, 190),
        curve_cmd(69, 126, 122, 66, 185, 66),
        curve_cmd(290, 66, 335, 131, 336, 246),
        curve_cmd(336, 323, 284, 356, 284, 392),
        curve_cmd(284, 408, 300, 422, 322, 422),
        curve_cmd(385, 422, 412, 364, 414, 254),
        curve_cmd(414, 106, 345, 0, 187, 0),
        curve_cmd(82, 0, 0, 78, 0, 175),
        curve_cmd(0, 305, 51, 367, 177, 369),
        curve_cmd(245, 367, 293, 304, 293, 251),
        curve_cmd(294, 164, 247, 127, 189, 125),
        curve_cmd(153, 125, 117, 149, 117, 207),
        curve_cmd(117, 246, 133, 266, 160, 266),
        curve_cmd(188, 266, 194, 252, 194, 237),
        close_cmd(),
    ]
}

/// The icon of the hyper pen tool: a spiral stroke.
pub fn hyperpen_path() -> (r: IconPath)
    ensures
        r@ == hyperpen_outline(),
{
    let mut bez = IconPath::new();
    bez.move_to(194, 237);
    bez.curve_to(194, 220, 162, 217, 162, 199);
    bez.curve_to(162, 184, 169, 169, 195, 169);
    bez.curve_to(218, 169, 242, 192, 242, 234);
    bez.curve_to(241, 285, 229, 307, 190, 310);
    bez.curve_to(144, 308, 69, 293, 69, 190);
    bez.curve_to(69, 126, 122, 66, 185, 66);
    bez.curve_to(290, 66, 335, 131, 336, 246);
    bez.curve_to(336, 323, 284, 356, 284, 392);
    bez.curve_to(284, 408, 300, 422, 322, 422);
    bez.curve_to(385, 422, 412, 364, 414, 254);
    bez.curve_to(414, 106, 345, 0, 187, 0);
    bez.curve_to(82, 0, 0, 78, 0, 175);
    bez.curve_to(0, 305, 51, 367, 177, 369);
    bez.curve_to(245, 367, 293, 304, 293, 251);
    bez.curve_to(294, 164, 247, 127, 189, 125);
    bez.curve_to(153, 125, 117, 149, 117, 207);
    bez.curve_to(117, 246, 133, 266, 160, 266);
    bez.curve_to(188, 266, 194, 252, 194, 237);
    bez.close_path();
    assert(bez@ =~= hyperpen_outline());
    bez
}

/// The outline of the icon of the metaball tool: two joined rings.
pub open spec fn metaball_outline() -> Seq<PathCommand> {
    seq![
        move_cmd(333, 520),
        curve_cmd(409, 520, 468, 462, 468, 385),
        curve_cmd(468, 310, 416, 258, 344, 247),
        curve_cmd(296, 240, 270, 202, 270, 128),
        curve_cmd(270, 64, 217, 0, 137, 0),
        curve_cmd(59, 0, 0, 58, 0, 128),
        curve_cmd(0, 206, 48, 252, 98, 266),
        curve_cmd(166, 285, 187, 299, 198, 401),
        curve_cmd(203, 447, 240, 520, 333, 520),
        close_cmd(),
        move_cmd(333, 453),
        curve_cmd(296, 453, 265, 422, 265, 385),
        curve_cmd(265, 347, 296, 317, 333, 317),
        curve_cmd(370, 317, 401, 347, 401, 385),
        curve_cmd(401, 422, 370, 453, 333, 453),
        close_cmd(),
        move_cmd(333, 401),
        curve_cmd(342, 401, 349, 393, 349, 385),
        curve_cmd(349, 376, 342, 369, 333, 369),
        curve_cmd(324, 369, 317, 376, 317, 385),
        curve_cmd(317, 393, 324, 401, 333, 401),
        close_cmd(),
        move_cmd(137, 144),
        curve_cmd(146, 144, 153, 136, 153, 128),
        curve_cmd(153, 119, 146, 112, 137, 112),
        curve_cmd(128, 112, 121, 119, 121, 128),
        curve_cmd(121, 136, 128, 144, 137, 144),
        close_cmd(),
        move_cmd(137, 196),
        curve_cmd(100, 196, 69, 165, 69, 128),
        curve_cmd(69, 90, 100, 60, 137, 60),
        curve_cmd(174, 60, 205, 90, 205, 128),
        curve_cmd(205, 165, 174, 196, 137, 196),
        close_cmd(),
    ]
}

/// The icon of the metaball tool: two joined rings.
pub fn metaball_path() -> (r: IconPath)
    ensures
        r@ == metaball_outline(),
{
    let mut bez = IconPath::new();
    bez.move_to(333, 520);
    bez.curve_to(409, 520, 468, 462, 468, 385);
    bez.curve_to(468, 310, 416, 258, 344, 247);
    bez.curve_to(296, 240, 270, 202, 270, 128);
    bez.curve_to(270, 64, 217, 0, 137, 0);
    bez.curve_to(59, 0, 0, 58, 0, 128);
    bez.curve_to(0, 206, 48, 252, 98, 266);
    bez.curve_to(166, 285, 187, 299, 198, 401);
    bez.curve_to(203, 447, 240, 520, 333, 520);
    bez.close_path();
    bez.move_to(333, 453);
    bez.curve_to(296, 453, 265, 422, 265, 385);
    bez.curve_to(265, 347, 296, 317, 333, 317);
    bez.curve_to(370, 317, 401, 347, 401, 385);
    bez.curve_to(401, 422, 370, 453, 333, 453);
    bez.close_path();
    bez.move_to(333, 401);
    bez.curve_to(342, 401, 349, 393, 349, 385);
    bez.curve_to(349, 376, 342, 369, 333, 369);
    bez.curve_to(324, 369, 317, 376, 317, 385);
    bez.curve_to(317, 393, 324, 401, 333, 401);
    bez.close_path();
    bez.move_to(137, 144);
    bez.curve_to(146, 144, 153, 136, 153, 128);
    bez.curve_to(153, 119, 146, 112, 137, 112);
    bez.curve_to(128, 112, 121, 119, 121, 128);
    bez.curve_to(121, 136, 128, 144, 137, 144);
    bez.close_path();
    bez.move_to(137, 196);
    bez.curve_to(100, 196, 69, 165, 69, 128);
    bez.curve_to(69, 90, 100, 60, 137, 60);
    bez.curve_to(174, 60, 205, 90, 205, 128);
    bez.curve_to(205, 165, 174, 196, 137, 196);
    bez.close_path();
    assert(bez@ =~= metaball_outline());
    bez
}

/// The outline of the icon of the knife tool: a blade on a handle.
pub open spec fn knife_outline() -> Seq<PathCommand> {
    seq![
        move_cmd(30, 500),
        line_cmd(190, 500),
        line_cmd(190, 410),
        line_cmd(30, 410),
        line_cmd(30, 500),
        close_cmd(),
        move_cmd(40, 360),
        line_cmd(180, 360),
        line_cmd(180, 330),
        line_cmd(220, 290),
        line_cmd(42, 0),
        line_cmd(40, 0),
        line_cmd(40, 360),
        close_cmd(),
        move_cmd(30, 410),
        line_cmd(190, 410),
        curve_cmd(205, 410, 220, 405, 220, 385),
        curve_cmd(220, 365, 205, 360, 190, 360),
        line_cmd(30, 360),
        curve_cmd(15, 360, 0, 365, 0, 385),
        curve_cmd(0, 405, 15, 410, 30, 410),
        close_cmd(),
    ]
}

/// The icon of the knife tool: a blade on a handle.
pub fn knife_path() -> (r: IconPath)
    ensures
        r@ == knife_outline(),
{
    let mut bez = IconPath::new();
    bez.move_to(30, 500);
    bez.line_to(190, 500);
    bez.line_to(190, 410);
    bez.line_to(30, 410);
    bez.line_to(30, 500);
    bez.close_path();
    bez.move_to(40, 360);
    bez.line_to(180, 360);
    bez.line_to(180, 330);
    bez.line_to(220, 290);
    bez.line_to(42, 0);
    bez.line_to(40, 0);
    bez.line_to(40, 360);
    bez.close_path();
    bez.move_to(30, 410);
    bez.line_to(190, 410);
    bez.curve_to(205, 410, 220, 405, 220, 385);
    bez.curve_to(220, 365, 205, 360, 190, 360);
    bez.line_to(30, 360);
    bez.curve_to(15, 360, 0, 365, 0, 385);
    bez.curve_to(0, 405, 15, 410, 30, 410);
    bez.close_path();
    assert(bez@ =~= knife_outline());
    bez
}

/// The outline of the icon of the preview tool: an open hand.
pub open spec fn preview_outline() -> Seq<PathCommand> {
    seq![
        move_cmd(130, 500),
        line_cmd(310, 500),
        line_cmd(310, 410),
        curve_cmd(336, 375, 360, 351, 360, 310),
        line_cmd(360, 131),
        curve_cmd(360, 89, 352, 70, 336, 70),
        curve_cmd(316, 70, 310, 85, 310, 101),
        curve_cmd(310, 60, 309, 20, 280, 20),
        curve_cmd(260, 20, 250, 36, 250, 60),
        curve_cmd(250, 26, 242, 0, 216, 0),
        curve_cmd(192, 0, 180, 16, 180, 75),
        curve_cmd(180, 48, 169, 30, 150, 30),
        curve_cmd(130, 30, 120, 53, 120, 75),
        line_cmd(120, 250),
        curve_cmd(120, 270, 110, 270, 100, 270),
        curve_cmd(85, 270, 77, 264, 70, 250),
        curve_cmd(45, 199, 32, 190, 20, 190),
        curve_cmd(8, 190, 0, 197, 0, 210),
        curve_cmd(0, 234, 19, 313, 30, 330),
        curve_cmd(41, 347, 87, 383, 130, 410),
        line_cmd(130, 500),
        close_cmd(),
        move_cmd(130, 410),
        line_cmd(310, 410),
        move_cmd(180, 75),
        line_cmd(180, 210),
        move_cmd(250, 60),
        line_cmd(250, 210),
        move_cmd(310, 101),
        line_cmd(310, 220),
    ]
}

/// The icon of the preview tool: an open hand.
pub fn preview_path() -> (r: IconPath)
    ensures
        r@ == preview_outline(),
{
    let mut bez = IconPath::new();
    bez.move_to(130, 500);
    bez.line_to(310, 500);
    bez.line_to(310, 410);
    bez.curve_to(336, 375, 360, 351, 360, 310);
    bez.line_to(360, 131);
    bez.curve_to(360, 89, 352, 70, 336, 70);
    bez.curve_to(316, 70, 310, 85, 310, 101);
    bez.curve_to(310, 60, 309, 20, 280, 20);
    bez.curve_to(260, 20, 250, 36, 250, 60);
    bez.curve_to(250, 26, 242, 0, 216, 0);
    bez.curve_to(192, 0, 180, 16, 180, 75);
    bez.curve_to(180, 48, 169, 30, 150, 30);
    bez.curve_to(130, 30, 120, 53, 120, 75);
    bez.line_to(120, 250);
    bez.curve_to(120, 270, 110, 270, 100, 270);
    bez.curve_to(85, 270, 77, 264, 70, 250);
    bez.curve_to(45, 199, 32, 190, 20, 190);
    bez.curve_to(8, 190, 0, 197, 0, 210);
    bez.curve_to(0, 234, 19, 313, 30, 330);
    bez.curve_to(41, 347, 87, 383, 130, 410);
    bez.line_to(130, 500);
    bez.close_path();
    bez.move_to(130, 410);
    bez.line_to(310, 410);
    bez.move_to(180, 75);
    bez.line_to(180, 210);
    bez.move_to(250, 60);
    bez.line_to(250, 210);
    bez.move_to(310, 101);
    bez.line_to(310, 220);
    assert(bez@ =~= preview_outline());
    bez
}

/// The outline of the icon of the measure tool: a ruler with a span marker.
pub open spec fn measure_outline() -> Seq<PathCommand> {
    seq![
        move_cmd(0, 500),
        line_cmd(140, 500),
        line_cmd(140, 0),
        line_cmd(0, 0),
        line_cmd(0, 500),
        close_cmd(),
        move_cmd(190, 0),
        line_cmd(330, 0),
        move_cmd(190, 500),
        line_cmd(330, 500),
        move_cmd(210, 100),
        line_cmd(310, 100),
        line_cmd(260, 10),
        line_cmd(210, 100),
        close_cmd(),
        move_cmd(210, 400),
        line_cmd(310, 400),
        line_cmd(260, 490),
        line_cmd(210, 400),
        close_cmd(),
        move_cmd(260, 100),
        line_cmd(260, 400),
        move_cmd(70, 350),
        line_cmd(140, 350),
        move_cmd(100, 400),
        line_cmd(140, 400),
        move_cmd(50, 450),
        line_cmd(140, 450),
        move_cmd(100, 300),
        line_cmd(140, 300),
        move_cmd(50, 250),
        line_cmd(140, 250),
        move_cmd(70, 150),
        line_cmd(140, 150),
        move_cmd(100, 200),
        line_cmd(140, 200),
        move_cmd(100, 100),
        line_cmd(140, 100),
        move_cmd(50, 50),
        line_cmd(140, 50),
    ]
}

/// The icon of the measure tool: a ruler with a span marker.
pub fn measure_path() -> (r: IconPath)
    ensures
        r@ == measure_outline(),
{
    let mut bez = IconPath::new();
    bez.move_to(0, 500);
    bez.line_to(140, 500);
    bez.line_to(140, 0);
    bez.line_to(0, 0);
    bez.line_to(0, 500);
    bez.close_path();
    bez.move_to(190, 0);
    bez.line_to(330, 0);
    bez.move_to(190, 500);
    bez.line_to(330, 500);
    bez.move_to(210, 100);
    bez.line_to(310, 100);
    bez.line_to(260, 10);
    bez.line_to(210, 100);
    bez.close_path();
    bez.move_to(210, 400);
    bez.line_to(310, 400);
    bez.line_to(260, 490);
    bez.line_to(210, 400);
    bez.close_path();
    bez.move_to(260, 100);
    bez.line_to(260, 400);
    bez.move_to(70, 350);
    bez.line_to(140, 350);
    bez.move_to(100, 400);
    bez.line_to(140, 400);
    bez.move_to(50, 450);
    bez.line_to(140, 450);
    bez.move_to(100, 300);
    bez.line_to(140, 300);
    bez.move_to(50, 250);
    bez.line_to(140, 250);
    bez.move_to(70, 150);
    bez.line_to(140, 150);
    bez.move_to(100, 200);
    bez.line_to(140, 200);
    bez.move_to(100, 100);
    bez.line_to(140, 100);
    bez.move_to(50, 50);
    bez.line_to(140, 50);
    assert(bez@ =~= measure_outline());
    bez
}

/// The outline of the icon of the rectangle tool: a tall rectangle.
pub open spec fn rect_outline() -> Seq<PathCommand> {
    seq![
        move_cmd(0, 500),
        line_cmd(220, 500),
        line_cmd(220, 0),
        line_cmd(0, 0),
        line_cmd(0, 500),
        close_cmd(),
    ]
}

/// The icon of the rectangle tool: a tall rectangle.
pub fn rect_path() -> (r: IconPath)
    ensures
        r@ == rect_outline(),
{
    let mut bez = IconPath::new();
    bez.move_to(0, 500);
    bez.line_to(220, 500);
    bez.line_to(220, 0);
    bez.line_to(0, 0);
    bez.line_to(0, 500);
    bez.close_path();
    assert(bez@ =~= rect_outline());
    bez
}

/// The outline of the icon of the ellipse tool: a tall ellipse.
pub open spec fn ellipse_outline() -> Seq<PathCommand> {
    seq![
        move_cmd(110, 0),
        curve_cmd(50, 0, 0, 100, 0, 240),
        curve_cmd(0, 380, 50, 480, 110, 480),
        curve_cmd(170, 480, 220, 380, 220, 240),
        curve_cmd(220, 100, 170, 0, 110, 0),
        close_cmd(),
    ]
}

/// The icon of the ellipse tool: a tall ellipse.
pub fn ellipse_path() -> (r: IconPath)
    ensures
        r@ == ellipse_outline(),
{
    let mut bez = IconPath::new();
    bez.move_to(110, 0);
    bez.curve_to(50, 0, 0, 100, 0, 240);
    bez.curve_to(0, 380, 50, 480, 110, 480);
    bez.curve_to(170, 480, 220, 380, 220, 240);
    bez.curve_to(220, 100, 170, 0, 110, 0);
    bez.close_path();
    assert(bez@ =~= ellipse_outline());
    bez
}

/// The outline of the icon of the star tool: a five-pointed star.
pub open spec fn star_outline() -> Seq<PathCommand> {
    seq![
        move_cmd(150, 0),
        line_cmd(185, 115),
        line_cmd(300, 115),
        line_cmd(205, 185),
        line_cmd(240, 300),
        line_cmd(150, 230),
        line_cmd(60, 300),
        line_cmd(95, 185),
        line_cmd(0, 115),
        line_cmd(115, 115),
        close_cmd(),
    ]
}

/// The icon of the star tool: a five-pointed star.
pub fn star_path() -> (r: IconPath)
    ensures
        r@ == star_outline(),
{
    let mut bez = IconPath::new();
    bez.move_to(150, 0);
    bez.line_to(185, 115);
    bez.line_to(300, 115);
    bez.line_to(205, 185);
    bez.line_to(240, 300);
    bez.line_to(150, 230);
    bez.line_to(60, 300);
    bez.line_to(95, 185);
    bez.line_to(0, 115);
    bez.line_to(115, 115);
    bez.close_path();
    assert(bez@ =~= star_outline());
    bez
}
} // verus!
