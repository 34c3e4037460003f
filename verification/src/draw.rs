//! The elements of a drawing, written out as text.
//!
//! Coordinates of a script are in centimetres with the y axis pointing up; in
//! a drawing the y axis points down. A kernel measures each object in the frame
//! of the drawing, and the functions here write the element for what it
//! measured.
use crate::structs::Real;
use crate::text::{Fragment, Piece, Token};
use vstd::prelude::*;

verus! {

/// The encoding of the number of pixels in a centimetre, 37.795.
pub const CM: u64 = 0x4042_E5C2_8F5C_28F6;

/// A `line` element between two places given in centimetres.
pub open spec fn line(
    x1: Real,
    y1: Real,
    x2: Real,
    y2: Real,
    color: Token,
    width: Token,
    dash: Seq<Token>,
) -> Seq<Token> {
    (seq![
        Token::Text("<line x1=\""@),
        Token::Number(x1),
        Token::Text("cm\" y1=\""@),
        Token::Number(y1),
        Token::Text("cm\" x2=\""@),
        Token::Number(x2),
        Token::Text("cm\" y2=\""@),
        Token::Number(y2),
        Token::Text("cm\" stroke=\""@),
        color,
        Token::Text("\" stroke-width=\""@),
        width,
        Token::Text("\""@),
    ] + dash).push(Token::Text("/>"@))
}

/// A `line` element between two places given in pixels.
pub open spec fn line_px(x1: Real, y1: Real, x2: Real, y2: Real, color: Token, width: Token) -> Seq<
    Token,
> {
    seq![
        Token::Text("<line x1=\""@),
        Token::Number(x1),
        Token::Text("\" y1=\""@),
        Token::Number(y1),
        Token::Text("\" x2=\""@),
        Token::Number(x2),
        Token::Text("\" y2=\""@),
        Token::Number(y2),
        Token::Text("\" stroke=\""@),
        color,
        Token::Text("\" stroke-width=\""@),
        width,
        Token::Text("\""@),
        Token::Text("/>"@),
    ]
}

/// A `circle` element around a place given in centimetres. `unit` is what
/// follows the radius: `cm"` for a radius in centimetres, `"` for one in
/// pixels.
pub open spec fn circle(
    cx: Real,
    cy: Real,
    r: Token,
    unit: Seq<char>,
    color: Token,
    fill: Token,
    width: Token,
    dash: Seq<Token>,
) -> Seq<Token> {
    (seq![
        Token::Text("<circle cx=\""@),
        Token::Number(cx),
        Token::Text("cm\" cy=\""@),
        Token::Number(cy),
        Token::Text("cm\" r=\""@),
        r,
        Token::Text(unit),
        Token::Text(" stroke=\""@),
        color,
        Token::Text("\" fill=\""@),
        fill,
        Token::Text("\" stroke-width=\""@),
        width,
        Token::Text("\""@),
    ] + dash).push(Token::Text("/>"@))
}

/// The word for a flag of a path: `1` if it is set, `0` if it is not.
pub open spec fn flag(set: bool) -> Token {
    Token::Text(
        if set {
            "1"@
        } else {
            "0"@
        },
    )
}

/// A `path` element for an arc of a circle of radius `r` between two places
/// given in pixels. The arc is the long one if `large_arc` is set. `sweep`
/// is the direction of the arc in the frame of the script; in the frame of
/// the drawing, where the y axis points the other way, it is the opposite.
pub open spec fn arc(
    x1: Real,
    y1: Real,
    r: Real,
    large_arc: bool,
    sweep: bool,
    x2: Real,
    y2: Real,
    color: Token,
    width: Token,
    dash: Seq<Token>,
) -> Seq<Token> {
    (seq![
        Token::Text("<path d=\"M "@),
        Token::Number(x1),
        Token::Text(","@),
        Token::Number(y1),
        Token::Text(" A "@),
        Token::Number(r),
        Token::Text(" "@),
        Token::Number(r),
        Token::Text(" 0 "@),
        flag(large_arc),
        Token::Text(" "@),
        flag(!sweep),
        Token::Text(" "@),
        Token::Number(x2),
        Token::Text(","@),
        Token::Number(y2),
        Token::Text("\" fill=\"none\" stroke=\""@),
        color,
        Token::Text("\" stroke-width=\""@),
        width,
        Token::Text("\""@),
    ] + dash).push(Token::Text("/>"@))
}

/// The places of a run of corners: `x,y` for each, with a blank between one
/// corner and the next.
pub open spec fn corners(places: Seq<(Real, Real)>) -> Seq<Token>
    decreases places.len(),
{
    if places.len() == 0 {
        Seq::empty()
    } else if places.len() == 1 {
        seq![Token::Number(places[0].0), Token::Text(","@), Token::Number(places[0].1)]
    } else {
        corners(places.drop_last()) + seq![
            Token::Text(" "@),
            Token::Number(places.last().0),
            Token::Text(","@),
            Token::Number(places.last().1),
        ]
    }
}

/// A `polygon` element with the given corners: filled, without an outline.
pub open spec fn polygon(places: Seq<(Real, Real)>, fill: Token) -> Seq<Token> {
    (seq![Token::Text("<polygon points=\""@)] + corners(places)) + seq![
        Token::Text("\" fill=\""@),
        fill,
        Token::Text("\"/>"@),
    ]
}

/// A `polyline` element through three places given in pixels. Each second
/// coordinate is written behind a minus sign.
pub open spec fn polyline(
    a: (Real, Real),
    b: (Real, Real),
    c: (Real, Real),
    color: Token,
    width: Token,
) -> Seq<Token> {
    seq![
        Token::Text("<polyline points=\""@),
        Token::Number(a.0),
        Token::Text(",-"@),
        Token::Number(a.1),
        Token::Text(" "@),
        Token::Number(b.0),
        Token::Text(",-"@),
        Token::Number(b.1),
        Token::Text(" "@),
        Token::Number(c.0),
        Token::Text(",-"@),
        Token::Number(c.1),
        Token::Text("\" fill=\"none\" stroke=\""@),
        color,
        Token::Text("\" stroke-width=\""@),
        width,
        Token::Text("\"/>"@),
    ]
}

/// Writes a `line` element between two places given in centimetres.
pub fn write_line(
    x1: Real,
    y1: Real,
    x2: Real,
    y2: Real,
    color: Piece,
    width: Piece,
    dash: &Fragment,
) -> (f: Fragment)
    ensures
        f@ == line(x1, y1, x2, y2, color@, width@, dash@),
{
    let mut f = Fragment::new();
    f.text("<line x1=\"");
    f.number(x1);
    f.text("cm\" y1=\"");
    f.number(y1);
    f.text("cm\" x2=\"");
    f.number(x2);
    f.text("cm\" y2=\"");
    f.number(y2);
    f.text("cm\" stroke=\"");
    f.push(color);
    f.text("\" stroke-width=\"");
    f.push(width);
    f.text("\"");
    f.append(dash);
    f.text("/>");
    f
}

/// Writes a `line` element between two places given in pixels.
pub fn write_line_px(x1: Real, y1: Real, x2: Real, y2: Real, color: Piece, width: Piece) -> (f:
    Fragment)
    ensures
        f@ == line_px(x1, y1, x2, y2, color@, width@),
{
    let mut f = Fragment::new();
    f.text("<line x1=\"");
    f.number(x1);
    f.text("\" y1=\"");
    f.number(y1);
    f.text("\" x2=\"");
    f.number(x2);
    f.text("\" y2=\"");
    f.number(y2);
    f.text("\" stroke=\"");
    f.push(color);
    f.text("\" stroke-width=\"");
    f.push(width);
    f.text("\"");
    f.text("/>");
    f
}

/// Writes a `circle` element around a place given in centimetres.
pub fn write_circle(
    cx: Real,
    cy: Real,
    r: Piece,
    unit: &str,
    color: Piece,
    fill: Piece,
    width: Piece,
    dash: &Fragment,
) -> (f: Fragment)
    ensures
        f@ == circle(cx, cy, r@, unit@, color@, fill@, width@, dash@),
{
    let mut f = Fragment::new();
    f.text("<circle cx=\"");
    f.number(cx);
    f.text("cm\" cy=\"");
    f.number(cy);
    f.text("cm\" r=\"");
    f.push(r);
    f.text(unit);
    f.text(" stroke=\"");
    f.push(color);
    f.text("\" fill=\"");
    f.push(fill);
    f.text("\" stroke-width=\"");
    f.push(width);
    f.text("\"");
    f.append(dash);
    f.text("/>");
    f
}

fn write_flag(f: &mut Fragment, set: bool)
    ensures
        final(f)@ == old(f)@.push(flag(set)),
{
    if set {
        f.text("1");
    } else {
        f.text("0");
    }
}

/// Writes a `path` element for an arc between two places given in pixels.
pub fn write_arc(
    x1: Real,
    y1: Real,
    r: Real,
    large_arc: bool,
    sweep: bool,
    x2: Real,
    y2: Real,
    color: Piece,
    width: Piece,
    dash: &Fragment,
) -> (f: Fragment)
    ensures
        f@ == arc(x1, y1, r, large_arc, sweep, x2, y2, color@, width@, dash@),
{
    let mut f = Fragment::new();
    f.text("<path d=\"M ");
    f.number(x1);
    f.text(",");
    f.number(y1);
    f.text(" A ");
    f.number(r);
    f.text(" ");
    f.number(r);
    f.text(" 0 ");
    write_flag(&mut f, large_arc);
    f.text(" ");
    write_flag(&mut f, !sweep);
    f.text(" ");
    f.number(x2);
    f.text(",");
    f.number(y2);
    f.text("\" fill=\"none\" stroke=\"");
    f.push(color);
    f.text("\" stroke-width=\"");
    f.push(width);
    f.text("\"");
    f.append(dash);
    f.text("/>");
    f
}

/// Writes the places of a run of corners.
pub fn write_corners(places: &Vec<(Real, Real)>) -> (f: Fragment)
    ensures
        f@ == corners(places@),
{
    let mut f = Fragment::new();
    let n = places.len();
    let mut i: usize = 0;
    while i < n
        invariant
            n == places@.len(),
            i <= n,
            f@ == corners(places@.subrange(0, i as int)),
        decreases n - i,
    {
        let ghost before = places@.subrange(0, i as int);
        let ghost here = places@.subrange(0, i + 1);
        assert(here.drop_last() =~= before);
        assert(here.last() == places@[i as int]);
        let ghost start = f@;
        if i > 0 {
            f.text(" ");
        }
        f.number(places[i].0);
        f.text(",");
        f.number(places[i].1);
        proof {
            if i > 0 {
                assert(f@ =~= start + seq![
                    Token::Text(" "@),
                    Token::Number(here.last().0),
                    Token::Text(","@),
                    Token::Number(here.last().1),
                ]);
            } else {
                assert(start =~= Seq::<Token>::empty());
                assert(here[0] == places@[0]);
            }
        }
        i += 1;
    }
    assert(places@.subrange(0, n as int) =~= places@);
    f
}

/// Writes a `polygon` element with the given corners.
pub fn write_polygon(places: &Vec<(Real, Real)>, fill: Piece) -> (f: Fragment)
    ensures
        f@ == polygon(places@, fill@),
{
    let mut f = Fragment::new();
    f.text("<polygon points=\"");
    let c = write_corners(places);
    f.append(&c);
    let mut tail = Fragment::new();
    tail.text("\" fill=\"");
    tail.push(fill);
    tail.text("\"/>");
    f.append(&tail);
    f
}

/// Writes a `polyline` element through three places given in pixels.
pub fn write_polyline(a: (Real, Real), b: (Real, Real), c: (Real, Real), color: Piece, width: Piece) -> (f:
    Fragment)
    ensures
        f@ == polyline(a, b, c, color@, width@),
{
    let mut f = Fragment::new();
    f.text("<polyline points=\"");
    f.number(a.0);
    f.text(",-");
    f.number(a.1);
    f.text(" ");
    f.number(b.0);
    f.text(",-");
    f.number(b.1);
    f.text(" ");
    f.number(c.0);
    f.text(",-");
    f.number(c.1);
    f.text("\" fill=\"none\" stroke=\"");
    f.push(color);
    f.text("\" stroke-width=\"");
    f.push(width);
    f.text("\"/>");
    f
}

} // verus!
