use vstd::prelude::*;

verus! {

/// A glyph stroke: the segment from `(x0, y0)` to `(x1, y1)` in the plane
/// z = 0, its coordinates given in half units.
#[derive(Debug, Clone, Copy, PartialEq, Eq, Structural)]
pub struct Stroke {
    pub x0: i32,
    pub y0: i32,
    pub x1: i32,
    pub y1: i32,
}

/// The coordinate a character code stands for, in half units.
pub open spec fn code_value_spec(c: u8) -> int {
    c - 79
}

/// Decodes one character code of the glyph table: its code minus 79.
pub fn code_value(c: u8) -> (r: i32)
    requires
        c < 128,
    ensures
        r == code_value_spec(c),
{
    c as i32 - 79
}

/// The stroke that four character codes describe: start x, start y, end x,
/// end y.
pub open spec fn decode_stroke(code: Seq<u8>) -> Stroke {
    Stroke {
        x0: code_value_spec(code[0]) as i32,
        y0: code_value_spec(code[1]) as i32,
        x1: code_value_spec(code[2]) as i32,
        y1: code_value_spec(code[3]) as i32,
    }
}

/// The glyph table, four character codes per stroke: the letters P, I, X,
/// A and R, the round parts of P and R left to the arcs.
pub open spec fn stroke_codes() -> Seq<Seq<u8>> {
    seq![
        seq![53u8, 79, 53, 95],   // 5O5_
        seq![53, 87, 57, 87],     // 5W9W
        seq![53, 95, 57, 95],     // 5_9_
        seq![65, 79, 69, 79],     // AOEO
        seq![67, 79, 67, 95],     // COC_
        seq![65, 95, 69, 95],     // A_E_
        seq![73, 79, 81, 95],     // IOQ_
        seq![73, 95, 81, 79],     // I_QO
        seq![85, 79, 89, 95],     // UOY_
        seq![89, 95, 93, 79],     // Y_]O
        seq![87, 87, 91, 87],     // WW[W
        seq![97, 79, 97, 95],     // aOa_
        seq![97, 87, 101, 87],    // aWeW
        seq![97, 95, 101, 95],    // a_e_
        seq![99, 87, 105, 79],    // cWiO
    ]
}

fn stroke_from_code(a: u8, b: u8, c: u8, d: u8) -> (s: Stroke)
    requires
        a < 128,
        b < 128,
        c < 128,
        d < 128,
    ensures
        s == decode_stroke(seq![a, b, c, d]),
{
    Stroke { x0: code_value(a), y0: code_value(b), x1: code_value(c), y1: code_value(d) }
}

/// The fifteen strokes of the glyphs, decoded from the table.
pub fn letter_strokes() -> (r: Vec<Stroke>)
    ensures
        r@.len() == stroke_codes().len(),
        forall|i: int| 0 <= i < r@.len() ==> r@[i] == decode_stroke(#[trigger] stroke_codes()[i]),
{
    let mut r: Vec<Stroke> = Vec::new();
    r.push(stroke_from_code(53, 79, 53, 95));           // 5O5_
    r.push(stroke_from_code(53, 87, 57, 87));           // 5W9W
    r.push(stroke_from_code(53, 95, 57, 95));           // 5_9_
    r.push(stroke_from_code(65, 79, 69, 79));           // AOEO
    r.push(stroke_from_code(67, 79, 67, 95));           // COC_
    r.push(stroke_from_code(65, 95, 69, 95));           // A_E_
    r.push(stroke_from_code(73, 79, 81, 95));           // IOQ_
    r.push(stroke_from_code(73, 95, 81, 79));           // I_QO
    r.push(stroke_from_code(85, 79, 89, 95));           // UOY_
    r.push(stroke_from_code(89, 95, 93, 79));           // Y_]O
    r.push(stroke_from_code(87, 87, 91, 87));           // WW[W
    r.push(stroke_from_code(97, 79, 97, 95));           // aOa_
    r.push(stroke_from_code(97, 87, 101, 87));          // aWeW
    r.push(stroke_from_code(97, 95, 101, 95));          // a_e_
    r.push(stroke_from_code(99, 87, 105, 79));          // cWiO
    assert(r@.len() == stroke_codes().len());
    r
}

/// The centers of the two arcs that round off P and R, in whole units.
pub fn arc_centers() -> (r: Vec<(i32, i32)>)
    ensures
        r@ == seq![(11i32, 6i32), (-11i32, 6i32)],
{
    let r: Vec<(i32, i32)> = vec![(11, 6), (-11, 6)];
    assert(r@ =~= seq![(11i32, 6i32), (-11i32, 6i32)]);
    r
}

} // verus!
