use vstd::prelude::*;

verus! {

/// The color of one pixel of a backing surface.
#[derive(Clone, Copy, Debug, PartialEq, Eq, Structural)]
pub enum Color {
    White,
    Black,
}

/// A grid of `height` rows of `width` pixels, all of color `c`.
pub open spec fn uniform(width: nat, height: nat, c: Color) -> Seq<Seq<Color>> {
    Seq::new(height, |row: int| Seq::new(width, |col: int| c))
}

/// True when pixel (`col`, `row`) lies in the dot centred at (`x`, `y`), the
/// square of side 6 spanning [x − 3, x + 3) × [y − 3, y + 3).
pub open spec fn in_dot(x: int, y: int, col: int, row: int) -> bool {
    x - 3 <= col < x + 3 && y - 3 <= row < y + 3
}

/// `p` with every pixel white, its shape kept.
pub open spec fn cleared(p: Seq<Seq<Color>>) -> Seq<Seq<Color>> {
    Seq::new(p.len(), |row: int| Seq::new(p[row].len(), |col: int| Color::White))
}

/// One row of `p` after a dot at (`x`, `y`) is painted black.
pub open spec fn dotted_row(p: Seq<Seq<Color>>, x: int, y: int, row: int) -> Seq<Color> {
    Seq::new(
        p[row].len(),
        |col: int|
            if in_dot(x, y, col, row) {
                Color::Black
            } else {
                p[row][col]
            },
    )
}

/// `p` after a dot at (`x`, `y`) is painted black; pixels outside `p` are not drawn.
pub open spec fn dotted(p: Seq<Seq<Color>>, x: int, y: int) -> Seq<Seq<Color>> {
    Seq::new(p.len(), |row: int| dotted_row(p, x, y, row))
}

/// `p` after dots are painted at each position of `dots`, first to last.
pub open spec fn dotted_all(p: Seq<Seq<Color>>, dots: Seq<(i32, i32)>) -> Seq<Seq<Color>>
    decreases dots.len(),
{
    if dots.len() == 0 {
        p
    } else {
        dotted(dotted_all(p, dots.drop_last()), dots.last().0 as int, dots.last().1 as int)
    }
}

/// Whether pixel (`col`, `row`) lies in the dot of some position of `dots`.
pub open spec fn covered(dots: Seq<(i32, i32)>, col: int, row: int) -> bool {
    exists|i: int| 0 <= i < dots.len() && #[trigger] in_dot(dots[i].0 as int, dots[i].1 as int, col, row)
}

/// `p` with each pixel that lies in a dot of `dots` black.
pub open spec fn blackened(p: Seq<Seq<Color>>, dots: Seq<(i32, i32)>) -> Seq<Seq<Color>> {
    Seq::new(
        p.len(),
        |row: int|
            Seq::new(
                p[row].len(),
                |col: int|
                    if covered(dots, col, row) {
                        Color::Black
                    } else {
                        p[row][col]
                    },
            ),
    )
}

/// Clearing is idempotent: clearing twice leaves what clearing once leaves,
/// a surface of the same shape that is white everywhere.
pub proof fn lemma_clear_idempotent(p: Seq<Seq<Color>>)
    ensures
        cleared(cleared(p)) == cleared(p),
        cleared(p).len() == p.len(),
        forall|row: int| 0 <= row < p.len() ==> (#[trigger] cleared(p)[row]).len() == p[row].len(),
        forall|row: int, col: int|
            0 <= row < p.len() && 0 <= col < p[row].len() ==> #[trigger] cleared(p)[row][col]
                == Color::White,
{
    assert(cleared(cleared(p)) =~~= cleared(p));
}

/// Painting dots at `dots`, one after the other, blackens exactly the pixels
/// that lie in one of their squares and keeps every other pixel.
pub proof fn lemma_dots_blacken(p: Seq<Seq<Color>>, dots: Seq<(i32, i32)>)
    ensures
        dotted_all(p, dots) == blackened(p, dots),
    decreases dots.len(),
{
    if dots.len() == 0 {
        assert(blackened(p, dots) =~~= p);
    } else {
        let rest = dots.drop_last();
        let (x, y) = dots.last();
        lemma_dots_blacken(p, rest);
        assert forall|row: int, col: int|
            0 <= row < p.len() && 0 <= col < p[row].len() implies (covered(dots, col, row) <==> (
            covered(rest, col, row) || in_dot(x as int, y as int, col, row))) by {
            if covered(rest, col, row) {
                let i = choose|i: int|
                    0 <= i < rest.len() && #[trigger] in_dot(
                        rest[i].0 as int,
                        rest[i].1 as int,
                        col,
                        row,
                    );
                assert(dots[i] == rest[i]);
            }
            if in_dot(x as int, y as int, col, row) {
                assert(in_dot(
                    dots[dots.len() - 1].0 as int,
                    dots[dots.len() - 1].1 as int,
                    col,
                    row,
                ));
            }
            if covered(dots, col, row) {
                let i = choose|i: int|
                    0 <= i < dots.len() && #[trigger] in_dot(
                        dots[i].0 as int,
                        dots[i].1 as int,
                        col,
                        row,
                    );
                if i < dots.len() - 1 {
                    assert(rest[i] == dots[i]);
                }
            }
        }
        assert(dotted_all(p, dots) =~~= blackened(p, dots));
    }
}

/// Starting from white, painting dots at `dots` gives black exactly on the
/// squares of the dots, whatever the order: two sequences that hold the same
/// positions give the same surface.
pub proof fn lemma_dots_order_free(
    width: nat,
    height: nat,
    dots: Seq<(i32, i32)>,
    other: Seq<(i32, i32)>,
)
    requires
        dots.to_set() == other.to_set(),
    ensures
        dotted_all(uniform(width, height, Color::White), dots) == dotted_all(
            uniform(width, height, Color::White),
            other,
        ),
        dotted_all(uniform(width, height, Color::White), dots) == Seq::new(
            height,
            |row: int|
                Seq::new(
                    width,
                    |col: int|
                        if covered(dots, col, row) {
                            Color::Black
                        } else {
                            Color::White
                        },
                ),
        ),
{
    let white = uniform(width, height, Color::White);
    lemma_dots_blacken(white, dots);
    lemma_dots_blacken(white, other);
    assert forall|row: int, col: int| #[trigger] covered(dots, col, row) implies covered(
        other,
        col,
        row,
    ) by {
        let i = choose|i: int|
            0 <= i < dots.len() && #[trigger] in_dot(dots[i].0 as int, dots[i].1 as int, col, row);
        assert(dots.to_set().contains(dots[i]));
        assert(other.to_set().contains(dots[i]));
        let j = choose|j: int| 0 <= j < other.len() && other[j] == dots[i];
        assert(in_dot(other[j].0 as int, other[j].1 as int, col, row));
    }
    assert forall|row: int, col: int| #[trigger] covered(other, col, row) implies covered(
        dots,
        col,
        row,
    ) by {
        let j = choose|j: int|
            0 <= j < other.len() && #[trigger] in_dot(other[j].0 as int, other[j].1 as int, col, row);
        assert(other.to_set().contains(other[j]));
        assert(dots.to_set().contains(other[j]));
        let i = choose|i: int| 0 <= i < dots.len() && dots[i] == other[j];
        assert(in_dot(dots[i].0 as int, dots[i].1 as int, col, row));
    }
    assert(blackened(white, dots) =~~= blackened(white, other));
    assert(blackened(white, dots) =~~= Seq::new(
        height,
        |row: int|
            Seq::new(
                width,
                |col: int|
                    if covered(dots, col, row) {
                        Color::Black
                    } else {
                        Color::White
                    },
            ),
    ));
}

/// A surface laid out as rows of `width` pixels each.
pub struct Surface {
    width: usize,
    rows: Vec<Vec<Color>>,
}

impl View for Surface {
    type V = Seq<Seq<Color>>;

    /// The pixels, row by row: `s@[row][col]`.
    closed spec fn view(&self) -> Seq<Seq<Color>> {
        self.rows@.map_values(|r: Vec<Color>| r@)
    }
}

/// A row of `width` white pixels.
fn white_row(width: usize) -> (row: Vec<Color>)
    ensures
        row@ == Seq::new(width as nat, |col: int| Color::White),
{
    let mut row: Vec<Color> = Vec::new();
    let mut i: usize = 0;
    while i < width
        invariant
            i <= width,
            row@ == Seq::new(i as nat, |col: int| Color::White),
        decreases width - i,
    {
        row.push(Color::White);
        i = i + 1;
        assert(row@ =~= Seq::new(i as nat, |col: int| Color::White));
    }
    row
}

/// `height` rows of `width` white pixels.
fn white_rows(width: usize, height: usize) -> (rows: Vec<Vec<Color>>)
    ensures
        rows@.len() == height,
        forall|k: int| 0 <= k < height ==> (#[trigger] rows@[k])@ == Seq::new(
            width as nat,
            |col: int| Color::White,
        ),
{
    let mut rows: Vec<Vec<Color>> = Vec::new();
    let mut i: usize = 0;
    while i < height
        invariant
            i <= height,
            rows@.len() == i,
            forall|k: int| 0 <= k < i ==> (#[trigger] rows@[k])@ == Seq::new(
                width as nat,
                |col: int| Color::White,
            ),
        decreases height - i,
    {
        rows.push(white_row(width));
        i = i + 1;
    }
    rows
}

/// `v` brought into [0, `len`].
pub open spec fn clamp(v: int, len: int) -> int {
    if v < 0 {
        0
    } else if v > len {
        len
    } else {
        v
    }
}

/// The part of [`centre` − 3, `centre` + 3) that lies in [0, `len`), as a half-open range.
fn clip(centre: i32, len: usize) -> (r: (usize, usize))
    ensures
        r.0 == clamp(centre - 3, len as int),
        r.1 == clamp(centre + 3, len as int),
{
    let lo: usize = if centre <= 3 {
        0
    } else {
        (centre - 3) as usize
    };
    let top: i64 = centre as i64 + 3;
    let hi: usize = if top <= 0 {
        0
    } else if (top as u64) < len as u64 {
        top as usize
    } else {
        len
    };
    let lo = if lo < len {
        lo
    } else {
        len
    };
    (lo, hi)
}

/// `src` after a dot at (`x`, `y`) is painted, where `src` is row `row`.
fn dotted_row_of(src: &Vec<Color>, x: i32, y: i32, row: usize) -> (r: Vec<Color>)
    requires
        y - 3 <= row < y + 3,
    ensures
        r@ == Seq::new(
            src@.len(),
            |col: int|
                if in_dot(x as int, y as int, col, row as int) {
                    Color::Black
                } else {
                    src@[col]
                },
        ),
{
    let ghost want = Seq::new(
        src@.len(),
        |col: int|
            if in_dot(x as int, y as int, col, row as int) {
                Color::Black
            } else {
                src@[col]
            },
    );
    let (lo, hi) = clip(x, src.len());
    let mut out: Vec<Color> = Vec::new();
    let mut col: usize = 0;
    while col < src.len()
        invariant
            col <= src@.len(),
            out@ == want.take(col as int),
            want.len() == src@.len(),
            forall|k: int| 0 <= k < src@.len() ==> #[trigger] want[k] == if in_dot(x as int, y as int, k, row as int) {
                Color::Black
            } else {
                src@[k]
            },
            y - 3 <= row < y + 3,
            lo == clamp(x - 3, src@.len() as int),
            hi == clamp(x + 3, src@.len() as int),
        decreases src@.len() - col,
    {
        if lo <= col && col < hi {
            out.push(Color::Black);
        } else {
            out.push(src[col]);
        }
        col = col + 1;
        assert(out@ =~= want.take(col as int));
    }
    assert(out@ =~= want);
    out
}

impl Surface {
    #[verifier::type_invariant]
    spec fn rectangular(&self) -> bool {
        forall|k: int| 0 <= k < self.rows@.len() ==> (#[trigger] self.rows@[k])@.len() == self.width
    }

    /// The number of pixels in each row.
    pub closed spec fn spec_width(&self) -> nat {
        self.width as nat
    }

    /// Allocates a surface of `width` × `height` pixels, all white.
    pub fn new(width: usize, height: usize) -> (s: Surface)
        ensures
            s.spec_width() == width,
            s@ == uniform(width as nat, height as nat, Color::White),
    {
        let s = Surface { width, rows: white_rows(width, height) };
        assert(s@ =~~= uniform(width as nat, height as nat, Color::White));
        s
    }

    /// The number of pixels in each row.
    pub fn width(&self) -> (r: usize)
        ensures
            r == self.spec_width(),
    {
        self.width
    }

    /// The number of rows.
    pub fn height(&self) -> (r: usize)
        ensures
            r == self@.len(),
    {
        self.rows.len()
    }

    /// The color at column `col` of row `row`, or `None` outside the surface.
    pub fn pixel(&self, col: usize, row: usize) -> (r: Option<Color>)
        ensures
            r == (if row < self@.len() && col < self.spec_width() {
                Some(self@[row as int][col as int])
            } else {
                None
            }),
    {
        proof {
            use_type_invariant(self);
        }
        if row < self.rows.len() && col < self.width {
            Some(self.rows[row][col])
        } else {
            None
        }
    }

    /// Fills the whole surface with white.
    pub fn clear(&mut self)
        ensures
            final(self).spec_width() == old(self).spec_width(),
            final(self)@ == cleared(old(self)@),
    {
        proof {
            use_type_invariant(&*self);
        }
        let height = self.rows.len();
        self.rows = white_rows(self.width, height);
        assert(self@ =~~= cleared(old(self)@));
    }

    /// Paints black the dot centred at (`x`, `y`), as far as it lies on the surface.
    pub fn paint_dot(&mut self, x: i32, y: i32)
        ensures
            final(self).spec_width() == old(self).spec_width(),
            final(self)@ == dotted(old(self)@, x as int, y as int),
    {
        proof {
            use_type_invariant(&*self);
        }
        let height = self.rows.len();
        let (lo, hi) = clip(y, height);
        let ghost before = self@;
        let mut rows: Vec<Vec<Color>> = Vec::new();
        self.swap_rows(&mut rows);
        let mut row: usize = lo;
        while row < hi
            invariant
                lo <= row,
                hi <= height,
                lo == clamp(y - 3, height as int),
                hi == clamp(y + 3, height as int),
                rows@.len() == height,
                before.len() == height,
                forall|k: int| 0 <= k < height ==> (#[trigger] rows@[k])@.len() == self.width,
                forall|k: int|
                    0 <= k < height ==> (#[trigger] rows@[k])@ == if lo <= k < row {
                        dotted_row(before, x as int, y as int, k)
                    } else {
                        before[k]
                    },
            decreases hi - row,
        {
            let fresh = dotted_row_of(&rows[row], x, y, row);
            proof {
                assert(fresh@ =~= dotted_row(before, x as int, y as int, row as int));
            }
            rows.set(row, fresh);
            row = row + 1;
        }
        assert forall|k: int| 0 <= k < height implies (#[trigger] rows@[k])@ == dotted_row(
            before,
            x as int,
            y as int,
            k,
        ) by {
            if !(lo <= k < hi) {
                assert(dotted_row(before, x as int, y as int, k) =~= before[k]);
            }
        }
        self.rows = rows;
        assert(self@ =~~= dotted(old(self)@, x as int, y as int));
    }

    /// Exchanges the rows of the surface with `rows`, which must be as wide.
    fn swap_rows(&mut self, rows: &mut Vec<Vec<Color>>)
        requires
            forall|k: int| 0 <= k < old(rows)@.len() ==> (#[trigger] old(rows)@[k])@.len() == old(self).width,
        ensures
            final(self).width == old(self).width,
            final(self).rows == *old(rows),
            *final(rows) == old(self).rows,
        no_unwind
    {
        std::mem::swap(&mut self.rows, rows);
    }
}

} // verus!
