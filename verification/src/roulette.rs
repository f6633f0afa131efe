//! The roulette: a single LED runs around the edge of the matrix, clockwise
//! from the top-left corner.
use vstd::prelude::*;

verus! {

/// The cells that the roulette lights in one lap, as (row, column).
pub open spec fn ring_path() -> Seq<(usize, usize)> {
    seq![
        (0usize, 0usize), (0, 1), (0, 2), (0, 3), (0, 4),
        (1, 4), (2, 4), (3, 4),
        (4, 4), (4, 3), (4, 2), (4, 1), (4, 0),
        (3, 0), (2, 0), (1, 0),
    ]
}

/// How many cells the scan has lit before it reaches cell (`r`, `c`), for
/// the rows that it scans cell by cell.
pub open spec fn lit_before(r: int, c: int) -> int {
    if r == 0 {
        c
    } else {
        5 + (r - 1) + (if c > 4 {
            1int
        } else {
            0int
        })
    }
}

/// The cells of one lap in the order that the LED lights them. The scan
/// goes row by row, lighting the top row and the right column; on the
/// bottom row it runs the bottom row and the left column back to the start.
pub fn roulette_path() -> (p: Vec<(usize, usize)>)
    ensures
        p@ == ring_path(),
{
    let last_row_targets: [(usize, usize); 8] = [
        (4, 4),
        (3, 4),
        (2, 4),
        (1, 4),
        (0, 4),
        (0, 3),
        (0, 2),
        (0, 1),
    ];
    let mut path: Vec<(usize, usize)> = Vec::new();
    let mut r: usize = 0;
    while r < 5
        invariant
            r <= 5,
            r < 5 ==> path@ == ring_path().take(lit_before(r as int, 0)),
            r == 5 ==> path@ == ring_path(),
            last_row_targets@ == seq![
                (4usize, 4usize),
                (3, 4),
                (2, 4),
                (1, 4),
                (0, 4),
                (0, 3),
                (0, 2),
                (0, 1),
            ],
        decreases 5 - r,
    {
        let mut c: usize = 0;
        while c < 5
            invariant_except_break
                r < 5,
                c <= 5,
                r < 4 ==> path@ == ring_path().take(lit_before(r as int, c as int)),
                r == 4 ==> c == 0 && path@ == ring_path().take(8),
            invariant
                last_row_targets@ == seq![
                    (4usize, 4usize),
                    (3, 4),
                    (2, 4),
                    (1, 4),
                    (0, 4),
                    (0, 3),
                    (0, 2),
                    (0, 1),
                ],
            ensures
                r < 4 ==> path@ == ring_path().take(lit_before(r as int, 5)),
                r == 4 ==> path@ == ring_path(),
            decreases 5 - c,
        {
            if r == 0 || c == 4 {
                path.push((r, c));
                assert(path@ =~= ring_path().take(lit_before(r as int, c as int + 1)));
            }
            if r == 4 {
                for i in 0..8
                    invariant
                        r == 4,
                        path@ == ring_path().take(8 + i),
                        last_row_targets@ == seq![
                            (4usize, 4usize),
                            (3, 4),
                            (2, 4),
                            (1, 4),
                            (0, 4),
                            (0, 3),
                            (0, 2),
                            (0, 1),
                        ],
                {
                    let (col, row) = last_row_targets[i];
                    path.push((row, col));
                    assert(path@ =~= ring_path().take(8 + i + 1));
                }
                assert(ring_path().take(16) =~= ring_path());
                break;
            }
            c += 1;
        }
        r += 1;
    }
    path
}

/// Whether two cells are side by side (one row or one column apart).
pub open spec fn neighbours(a: (usize, usize), b: (usize, usize)) -> bool {
    (a.0 == b.0 && (a.1 + 1 == b.1 || b.1 + 1 == a.1)) || (a.1 == b.1 && (a.0 + 1 == b.0 || b.0
        + 1 == a.0))
}

/// Whether a cell lies on the edge of the matrix.
pub open spec fn on_edge(c: (usize, usize)) -> bool {
    c.0 < 5 && c.1 < 5 && (c.0 == 0 || c.0 == 4 || c.1 == 0 || c.1 == 4)
}

/// One lap lights every edge cell exactly once and nothing else, each
/// next to the one before, and the last next to the first: the light runs
/// round the edge without a jump.
pub proof fn lemma_ring_path()
    ensures
        ring_path().len() == 16,
        ring_path().no_duplicates(),
        forall|i: int| 0 <= i < 16 ==> on_edge(#[trigger] ring_path()[i]),
        forall|c: (usize, usize)| on_edge(c) ==> ring_path().contains(c),
        forall|i: int| 0 <= i < 15 ==> neighbours(#[trigger] ring_path()[i], ring_path()[i + 1]),
        neighbours(ring_path()[15], ring_path()[0]),
{
    let p = ring_path();
    assert(p[0] == (0usize, 0usize) && p[1] == (0usize, 1usize) && p[2] == (0usize, 2usize)
        && p[3] == (0usize, 3usize) && p[4] == (0usize, 4usize) && p[5] == (1usize, 4usize)
        && p[6] == (2usize, 4usize) && p[7] == (3usize, 4usize) && p[8] == (4usize, 4usize)
        && p[9] == (4usize, 3usize) && p[10] == (4usize, 2usize) && p[11] == (4usize, 1usize)
        && p[12] == (4usize, 0usize) && p[13] == (3usize, 0usize) && p[14] == (2usize, 0usize)
        && p[15] == (1usize, 0usize));
    assert forall|c: (usize, usize)| on_edge(c) implies p.contains(c) by {
        if c.0 == 0 {
            assert(p[c.1 as int] == c);
        } else if c.1 == 4 {
            assert(p[4 + c.0 as int] == c);
        } else if c.0 == 4 {
            assert(p[12 - c.1 as int] == c);
        } else {
            assert(p[16 - c.0 as int] == c);
        }
    }
}

} // verus!
