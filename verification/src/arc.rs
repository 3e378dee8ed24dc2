//! Path data for the level ring: the commands of arcs and bars in a square of
//! [`VIEWBOX`] units, from coordinates that are given as texts.

use vstd::prelude::*;

use crate::text::{chars_of, string_of};

verus! {

/// Edge of the square, centre of the ring and its radius.
pub const VIEWBOX: u32 = 100;

pub const CENTER: u32 = VIEWBOX / 2;

pub const RADIUS: u32 = 45;

/// `s` without the characters `c` at its end.
pub open spec fn without_tail(s: Seq<char>, c: char) -> Seq<char>
    decreases s.len(),
{
    if s.len() > 0 && s.last() == c {
        without_tail(s.drop_last(), c)
    } else {
        s
    }
}

/// A number with decimals without the zeros, and the point, at its end.
pub open spec fn compacted(s: Seq<char>) -> Seq<char> {
    without_tail(without_tail(s, '0'), '.')
}

fn cut_tail(v: &Vec<char>, to: usize, c: char) -> (end: usize)
    requires
        to <= v@.len(),
    ensures
        end <= to,
        v@.take(end as int) == without_tail(v@.take(to as int), c),
{
    let mut end: usize = to;
    while end > 0 && v[end - 1] == c
        invariant
            end <= to <= v@.len(),
            without_tail(v@.take(end as int), c) == without_tail(v@.take(to as int), c),
        decreases end,
    {
        assert(v@.take(end as int).drop_last() =~= v@.take(end - 1));
        end = end - 1;
    }
    end
}

/// Strips the zeros, and the point, from the end of a number with decimals.
pub fn compact(number: &str) -> (out: String)
    ensures
        out@ == compacted(number@),
{
    let v = chars_of(number);
    assert(v@.take(v@.len() as int) =~= v@);
    let n: usize = cut_tail(&v, v.len(), '0');
    let m: usize = cut_tail(&v, n, '.');
    let out = string_of(&v, 0, m);
    assert(out@ =~= v@.take(m as int));
    out
}

/// The texts of the coordinates that all arcs share: the centre and the top, the
/// bottom, and the radius.
#[derive(Debug, PartialEq, Eq)]
pub struct Ring<Text = String> {
    pub center: Text,
    pub top: Text,
    pub bottom: Text,
    pub radius: Text,
}

impl View for Ring {
    type V = Ring<Seq<char>>;

    open spec fn view(&self) -> Ring<Seq<char>> {
        Ring {
            center: self.center@,
            top: self.top@,
            bottom: self.bottom@,
            radius: self.radius@,
        }
    }
}

/// The start of a path at the top of the ring.
pub open spec fn from_top(r: Ring<Seq<char>>) -> Seq<char> {
    "M "@ + r.center + " "@ + r.top
}

/// An arc of the ring, clockwise: whether it is the larger one, and its end.
pub open spec fn arc_to(r: Ring<Seq<char>>, large: bool, x: Seq<char>, y: Seq<char>) -> Seq<char> {
    " A "@ + r.radius + " "@ + r.radius + (if large {
        " 0 1 1 "@
    } else {
        " 0 0 1 "@
    }) + x + " "@ + y
}

/// The whole ring.
pub open spec fn circle(r: Ring<Seq<char>>) -> Seq<char> {
    from_top(r) + arc_to(r, true, r.center, r.bottom) + arc_to(r, true, r.center, r.top)
}

/// A bar from one point to another.
pub open spec fn bar(x0: Seq<char>, y0: Seq<char>, x1: Seq<char>, y1: Seq<char>) -> Seq<char> {
    "M "@ + x0 + " "@ + y0 + " L "@ + x1 + " "@ + y1 + " "@
}

fn push_start(out: &mut String, r: &Ring)
    ensures
        final(out)@ == old(out)@ + from_top(r@),
{
    let ghost before = out@;
    out.append("M ");
    out.append(r.center.as_str());
    out.append(" ");
    out.append(r.top.as_str());
    assert(out@ =~= before + from_top(r@));
}

fn push_arc(out: &mut String, r: &Ring, large: bool, x: &str, y: &str)
    ensures
        final(out)@ == old(out)@ + arc_to(r@, large, x@, y@),
{
    let ghost before = out@;
    out.append(" A ");
    out.append(r.radius.as_str());
    out.append(" ");
    out.append(r.radius.as_str());
    if large {
        out.append(" 0 1 1 ");
    } else {
        out.append(" 0 0 1 ");
    }
    out.append(x);
    out.append(" ");
    out.append(y);
    assert(out@ =~= before + arc_to(r@, large, x@, y@));
}

/// The arc from the top of the ring, clockwise, to a point.
pub fn arc_commands(r: &Ring, large: bool, x: &str, y: &str) -> (out: String)
    ensures
        out@ == from_top(r@) + arc_to(r@, large, x@, y@),
{
    let mut out = String::new();
    push_start(&mut out, r);
    push_arc(&mut out, r, large, x, y);
    assert(out@ =~= from_top(r@) + arc_to(r@, large, x@, y@));
    out
}

/// The whole ring, as two halves: one arc that ends where it starts would show
/// nothing.
pub fn circle_commands(r: &Ring) -> (out: String)
    ensures
        out@ == circle(r@),
        out@ == from_top(r@) + arc_to(r@, true, r@.center, r@.bottom) + arc_to(
            r@,
            true,
            r@.center,
            r@.top,
        ),
{
    let mut out = String::new();
    push_start(&mut out, r);
    push_arc(&mut out, r, true, r.center.as_str(), r.bottom.as_str());
    push_arc(&mut out, r, true, r.center.as_str(), r.top.as_str());
    assert(out@ =~= from_top(r@) + arc_to(r@, true, r@.center, r@.bottom) + arc_to(
        r@,
        true,
        r@.center,
        r@.top,
    ));
    out
}

/// A bar from one point to another, with a space behind it.
pub fn bar_commands(x0: &str, y0: &str, x1: &str, y1: &str) -> (out: String)
    ensures
        out@ == bar(x0@, y0@, x1@, y1@),
        out@ == "M "@ + x0@ + " "@ + y0@ + " L "@ + x1@ + " "@ + y1@ + " "@,
{
    let mut out = "M ".to_owned();
    out.append(x0);
    out.append(" ");
    out.append(y0);
    out.append(" L ");
    out.append(x1);
    out.append(" ");
    out.append(y1);
    out.append(" ");
    out
}

} // verus!
