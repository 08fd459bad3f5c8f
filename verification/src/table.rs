//! Pipe-delimited text tables. `build` measures the columns of a header line
//! and a set of data lines; `get_table` renders the table with each cell
//! centred in its column, a dashed spacer line after every row.

use vstd::prelude::*;
use vstd::string::StrSliceExecFns;
use vstd::string::StringExecFns;

use crate::strkit::char_fill;
use crate::strkit::dashes;
use crate::strkit::lemma_split_seg_len;
use crate::strkit::spaces;
use crate::strkit::split_at_sep;
use crate::strkit::split_str;
use crate::strkit::views_of;

verus! {

/// The cells of one pipe-delimited line.
pub open spec fn cells(s: Seq<char>) -> Seq<Seq<char>> {
    split_at_sep(s, '|')
}

/// The widest cell in column `id` over the header and the first `upto` data
/// lines.
pub open spec fn raw_width(hsegs: Seq<Seq<char>>, rows: Seq<Seq<char>>, id: int, upto: int) -> nat
    decreases upto,
{
    if upto <= 0 {
        hsegs[id].len()
    } else {
        let prev = raw_width(hsegs, rows, id, upto - 1);
        let cur = cells(rows[upto - 1])[id].len();
        if cur > prev {
            cur
        } else {
            prev
        }
    }
}

/// Widths are rounded up to the next even number.
pub open spec fn even_up(n: nat) -> nat {
    if n % 2 == 1 {
        n + 1
    } else {
        n
    }
}

/// The final width of column `id`.
pub open spec fn col_width(headers: Seq<char>, rows: Seq<Seq<char>>, id: int) -> nat {
    even_up(raw_width(cells(headers), rows, id, rows.len() as int))
}

/// One rendered cell: a pipe, then the text centred in a field `w` wide.
/// When the text does not fit it is emitted unpadded; when the leftover
/// space is odd the extra space goes to the left.
pub open spec fn pad_cell(w: nat, seg: Seq<char>) -> Seq<char> {
    if seg.len() >= w {
        seq!['|'] + seg
    } else {
        seq!['|'] + char_fill(' ', ((w - seg.len() + 1) / 2) as nat) + seg + char_fill(
            ' ',
            ((w - seg.len()) / 2) as nat,
        )
    }
}

/// The first `n` cells of a row, rendered and concatenated.
pub open spec fn row_cells(cols: Seq<usize>, rowsegs: Seq<Seq<char>>, n: int) -> Seq<char>
    decreases n,
{
    if n <= 0 {
        Seq::<char>::empty()
    } else {
        row_cells(cols, rowsegs, n - 1) + pad_cell(cols[n - 1] as nat, rowsegs[n - 1])
    }
}

/// A full rendered row: every cell, a closing pipe and a newline.
pub open spec fn render_row(cols: Seq<usize>, line: Seq<char>) -> Seq<char> {
    row_cells(cols, cells(line), cols.len() as int) + seq!['|', '\n']
}

/// The first `n` cells of the dashed spacer line.
pub open spec fn spacer_cells(cols: Seq<usize>, n: int) -> Seq<char>
    decreases n,
{
    if n <= 0 {
        Seq::<char>::empty()
    } else {
        spacer_cells(cols, n - 1) + seq!['|'] + char_fill('-', cols[n - 1] as nat)
    }
}

/// The dashed spacer line that follows every row.
pub open spec fn spacer_row(cols: Seq<usize>) -> Seq<char> {
    spacer_cells(cols, cols.len() as int) + seq!['|', '\n']
}

/// The first `n` data rows, each followed by a spacer.
pub open spec fn body_rows(cols: Seq<usize>, rows: Seq<Seq<char>>, n: int) -> Seq<char>
    decreases n,
{
    if n <= 0 {
        Seq::<char>::empty()
    } else {
        body_rows(cols, rows, n - 1) + render_row(cols, rows[n - 1]) + spacer_row(cols)
    }
}

/// The whole rendered table.
pub open spec fn render_table(cols: Seq<usize>, headers: Seq<char>, rows: Seq<Seq<char>>) -> Seq<
    char,
> {
    render_row(cols, headers) + spacer_row(cols) + body_rows(cols, rows, rows.len() as int)
}

pub struct Table {
    pub columns: Vec<usize>,
    pub headers: String,
    pub data: Vec<String>,
}

/// A built table: one measured width per header cell, and every data line
/// has at least as many cells as the header.
pub open spec fn table_wf(t: Table) -> bool {
    &&& t.columns@.len() == cells(t.headers@).len()
    &&& forall|j: int|
        0 <= j < t.data@.len() ==> cells(#[trigger] t.data@[j]@).len() >= t.columns@.len()
    &&& forall|id: int| 0 <= id < t.columns@.len() ==> #[trigger] t.columns@[id] < usize::MAX
}

impl Default for Table {
    /// An empty table, ready for `build`.
    fn default() -> (r: Table)
        ensures
            r.columns@.len() == 0,
            r.headers@.len() == 0,
            r.data@.len() == 0,
    {
        Table { columns: Vec::new(), headers: String::new(), data: Vec::new() }
    }
}

impl Table {
    /// Takes the first line as the header and the rest as data, measures
    /// each column as the widest cell it holds, and rounds the widths up to
    /// even. Returns a copy of the finished table.
    pub fn build(&mut self, data: Vec<String>) -> (r: Table)
        requires
            old(self).columns@.len() == 0,
            data@.len() >= 1,
            forall|j: int|
                1 <= j < data@.len() ==> cells(#[trigger] data@[j]@).len() >= cells(
                    data@[0]@,
                ).len(),
            forall|j: int| 0 <= j < data@.len() ==> #[trigger] data@[j]@.len() + 1 < usize::MAX,
        ensures
            final(self).headers@ == data@[0]@,
            views_of(final(self).data@) == views_of(data@).skip(1),
            final(self).columns@.len() == cells(data@[0]@).len(),
            forall|id: int|
                0 <= id < final(self).columns@.len() ==> #[trigger] final(self).columns@[id] as nat
                    == col_width(data@[0]@, views_of(data@).skip(1), id),
            table_wf(*final(self)),
            r.headers@ == final(self).headers@,
            r.columns@ == final(self).columns@,
            views_of(r.data@) == views_of(final(self).data@),
    {
        let ghost rows = views_of(data@).skip(1);
        self.headers = data[0].clone();
        self.data = Vec::new();
        let mut j: usize = 1;
        while j < data.len()
            invariant
                1 <= j <= data@.len(),
                self.headers@ == data@[0]@,
                self.columns@.len() == 0,
                self.data@.len() == j - 1,
                forall|k: int| 0 <= k < j - 1 ==> #[trigger] self.data@[k]@ == data@[k + 1]@,
            decreases data@.len() - j,
        {
            self.data.push(data[j].clone());
            j += 1;
        }
        proof {
            assert(views_of(self.data@) =~~= views_of(data@).skip(1));
        }
        let header_vec = split_str(self.headers.as_str(), '|');
        let ncols = header_vec.len();
        let ghost hsegs = cells(data@[0]@);
        let mut id: usize = 0;
        while id < ncols
            invariant
                ncols == hsegs.len(),
                self.headers@ == data@[0]@,
                views_of(self.data@) == rows,
                rows == views_of(data@).skip(1),
                header_vec@.len() == ncols,
                forall|k: int| 0 <= k < ncols ==> #[trigger] header_vec@[k]@ == hsegs[k],
                data@.len() >= 1,
                forall|jj: int|
                    1 <= jj < data@.len() ==> cells(#[trigger] data@[jj]@).len() >= ncols,
                forall|jj: int|
                    0 <= jj < data@.len() ==> #[trigger] data@[jj]@.len() + 1 < usize::MAX,
                id <= ncols,
                self.columns@.len() == id,
                forall|k: int|
                    0 <= k < id ==> #[trigger] self.columns@[k] as nat == col_width(
                        data@[0]@,
                        rows,
                        k,
                    ),
                forall|k: int| 0 <= k < id ==> #[trigger] self.columns@[k] < usize::MAX,
                hsegs == cells(data@[0]@),
            decreases ncols - id,
        {
            proof {
                lemma_split_seg_len(data@[0]@, '|');
            }
            let mut w: usize = header_vec[id].unicode_len();
            let mut k: usize = 0;
            while k < self.data.len()
                invariant
                    views_of(self.data@) == rows,
                    rows == views_of(data@).skip(1),
                    data@.len() >= 1,
                    id < ncols,
                    ncols <= cells(data@[0]@).len(),
                    forall|jj: int|
                        1 <= jj < data@.len() ==> cells(#[trigger] data@[jj]@).len() >= ncols,
                    forall|jj: int|
                        0 <= jj < data@.len() ==> #[trigger] data@[jj]@.len() + 1 < usize::MAX,
                    k <= self.data@.len(),
                    self.data@.len() == rows.len(),
                    w as nat == raw_width(cells(data@[0]@), rows, id as int, k as int),
                    w < usize::MAX,
                decreases self.data@.len() - k,
            {
                let line_vec = split_str(self.data[k].as_str(), '|');
                proof {
                    assert(self.data@[k as int]@ == rows[k as int]);
                    assert(rows[k as int] == data@[k + 1]@);
                    lemma_split_seg_len(data@[k + 1]@, '|');
                    assert(cells(rows[k as int]).len() >= ncols);
                }
                let cw = line_vec[id].unicode_len();
                if cw > w {
                    w = cw;
                }
                k += 1;
            }
            if w % 2 != 0 {
                w += 1;
            }
            proof {
                assert(w as nat == col_width(data@[0]@, rows, id as int));
            }
            self.columns.push(w);
            id += 1;
        }
        let mut rcols: Vec<usize> = Vec::new();
        let mut rdata: Vec<String> = Vec::new();
        let mut i: usize = 0;
        while i < self.columns.len()
            invariant
                i <= self.columns@.len(),
                rcols@ == self.columns@.take(i as int),
            decreases self.columns@.len() - i,
        {
            rcols.push(self.columns[i]);
            proof {
                assert(rcols@ =~= self.columns@.take(i + 1));
            }
            i += 1;
        }
        let mut i: usize = 0;
        while i < self.data.len()
            invariant
                i <= self.data@.len(),
                rdata@.len() == i,
                forall|k: int| 0 <= k < i ==> #[trigger] rdata@[k]@ == self.data@[k]@,
            decreases self.data@.len() - i,
        {
            rdata.push(self.data[i].clone());
            i += 1;
        }
        proof {
            assert(rcols@ =~= self.columns@);
            assert(views_of(rdata@) =~~= views_of(self.data@));
            assert forall|k: int| 0 <= k < self.data@.len() implies cells(
                #[trigger] self.data@[k]@,
            ).len() >= self.columns@.len() by {
                assert(self.data@[k]@ == rows[k]);
                assert(rows[k] == data@[k + 1]@);
            }
        }
        Table { columns: rcols, headers: self.headers.clone(), data: rdata }
    }

    /// Renders the table: the header row, a spacer, then every data row
    /// each followed by a spacer.
    pub fn get_table(&self) -> (r: String)
        requires
            table_wf(*self),
        ensures
            r@ == render_table(self.columns@, self.headers@, views_of(self.data@)),
    {
        let ghost cols = self.columns@;
        let ghost rows = views_of(self.data@);
        let mut output = String::new();
        let mut spacer = String::new();
        let header_vec = split_str(self.headers.as_str(), '|');
        let ncols = self.columns.len();
        let mut id: usize = 0;
        while id < ncols
            invariant
                table_wf(*self),
                cols == self.columns@,
                ncols == cols.len(),
                header_vec@.len() == cells(self.headers@).len(),
                forall|k: int|
                    0 <= k < header_vec@.len() ==> #[trigger] header_vec@[k]@ == cells(
                        self.headers@,
                    )[k],
                id <= ncols,
                output@ == row_cells(cols, cells(self.headers@), id as int),
                spacer@ == spacer_cells(cols, id as int),
            decreases ncols - id,
        {
            proof {
                reveal_strlit("|");
            }
            let cell = cell_str(self.columns[id], header_vec[id].as_str());
            output.append(cell.as_str());
            spacer.append("|");
            let d = dashes(self.columns[id]);
            spacer.append(d.as_str());
            proof {
                assert(output@ =~= row_cells(cols, cells(self.headers@), id + 1));
                assert(spacer@ =~= spacer_cells(cols, id + 1));
            }
            id += 1;
        }
        proof {
            reveal_strlit("|\n");
            assert("|\n"@ =~= seq!['|', '\n']);
        }
        output.append("|\n");
        spacer.append("|\n");
        proof {
            assert(output@ =~= render_row(cols, self.headers@));
            assert(spacer@ =~= spacer_row(cols));
        }
        let ghost headpart = render_row(cols, self.headers@) + spacer_row(cols);
        output.append(spacer.as_str());
        proof {
            assert(output@ =~= headpart);
        }
        let mut j: usize = 0;
        while j < self.data.len()
            invariant
                table_wf(*self),
                cols == self.columns@,
                ncols == cols.len(),
                rows == views_of(self.data@),
                headpart == render_row(cols, self.headers@) + spacer_row(cols),
                spacer@ == spacer_row(cols),
                j <= self.data@.len(),
                output@ == headpart + body_rows(cols, rows, j as int),
            decreases self.data@.len() - j,
        {
            let line_vec = split_str(self.data[j].as_str(), '|');
            proof {
                assert(self.data@[j as int]@ == rows[j as int]);
                assert(cells(rows[j as int]).len() >= ncols);
            }
            let mut id: usize = 0;
            while id < ncols
                invariant
                    table_wf(*self),
                    cols == self.columns@,
                    ncols == cols.len(),
                    rows == views_of(self.data@),
                    j < self.data@.len(),
                    self.data@[j as int]@ == rows[j as int],
                    line_vec@.len() == cells(rows[j as int]).len(),
                    cells(rows[j as int]).len() >= ncols,
                    forall|k: int|
                        0 <= k < line_vec@.len() ==> #[trigger] line_vec@[k]@ == cells(
                            rows[j as int],
                        )[k],
                    id <= ncols,
                    output@ == headpart + body_rows(cols, rows, j as int) + row_cells(
                        cols,
                        cells(rows[j as int]),
                        id as int,
                    ),
                    headpart == render_row(cols, self.headers@) + spacer_row(cols),
                decreases ncols - id,
            {
                let cell = cell_str(self.columns[id], line_vec[id].as_str());
                output.append(cell.as_str());
                proof {
                    assert(output@ =~= headpart + body_rows(cols, rows, j as int) + row_cells(
                        cols,
                        cells(rows[j as int]),
                        id + 1,
                    ));
                }
                id += 1;
            }
            proof {
                reveal_strlit("|\n");
                assert("|\n"@ =~= seq!['|', '\n']);
            }
            output.append("|\n");
            output.append(spacer.as_str());
            proof {
                assert(output@ =~= headpart + body_rows(cols, rows, j + 1));
            }
            j += 1;
        }
        proof {
            assert(output@ =~= render_table(cols, self.headers@, rows));
        }
        output
    }
}

/// Renders one cell of width `w` holding `seg`.
fn cell_str(w: usize, seg: &str) -> (r: String)
    requires
        w < usize::MAX,
    ensures
        r@ == pad_cell(w as nat, seg@),
{
    proof {
        reveal_strlit("|");
        assert("|"@ =~= seq!['|']);
    }
    let slen = seg.unicode_len();
    let mut r = String::from_str("|");
    if slen >= w {
        r.append(seg);
        proof {
            assert(r@ =~= pad_cell(w as nat, seg@));
        }
    } else {
        let lead = spaces((w - slen + 1) / 2);
        let trail = spaces((w - slen) / 2);
        r.append(lead.as_str());
        r.append(seg);
        r.append(trail.as_str());
        proof {
            assert(r@ =~= pad_cell(w as nat, seg@));
        }
    }
    r
}

} // verus!
