//! The CSV form of the frame-ordered score series.
//!
//! The file is UTF-8 text: the header line `frame,score`, then one
//! `index,score` line per record, ascending by frame index.  The engine owns
//! the frame indices; the score column is an opaque text cell rendered by the
//! caller, which may not contain a comma or a line break.  Export and parse
//! are exact inverses on such rows.

use vstd::prelude::*;

verus! {

/// An ASCII decimal digit.
pub open spec fn spec_is_digit(b: u8) -> bool {
    48 <= b <= 57
}

/// The shortest decimal form of `n`, most significant digit first.
pub open spec fn spec_decimal(n: int) -> Seq<u8>
    decreases n,
{
    if n < 10 {
        seq![(48 + if n >= 0 { n } else { 0 }) as u8]
    } else {
        spec_decimal(n / 10).push((48 + n % 10) as u8)
    }
}

/// The value of the digit run `s[i..j)`, accumulated most significant first.
pub open spec fn spec_digits_value(s: Seq<u8>, i: int, j: int) -> int
    decreases j - i,
{
    if i >= j {
        0
    } else {
        spec_digits_value(s, i, j - 1) * 10 + (s[j - 1] - 48)
    }
}

/// Every byte of a decimal form is a digit.
pub proof fn lemma_decimal_digits(n: int)
    requires
        n >= 0,
    ensures
        spec_decimal(n).len() >= 1,
        forall|i: int|
            0 <= i < spec_decimal(n).len() ==> spec_is_digit(#[trigger] spec_decimal(n)[i]),
    decreases n,
{
    if n >= 10 {
        lemma_decimal_digits(n / 10);
    }
}

/// Reading the decimal form of `n` back as digits yields `n`.
pub proof fn lemma_decimal_value(n: int)
    requires
        n >= 0,
    ensures
        spec_digits_value(spec_decimal(n), 0, spec_decimal(n).len() as int) == n,
    decreases n,
{
    let s = spec_decimal(n);
    if n < 10 {
        assert(spec_digits_value(s, 0, 1) == spec_digits_value(s, 0, 0) * 10 + (s[0] - 48));
    } else {
        lemma_decimal_value(n / 10);
        let t = spec_decimal(n / 10);
        assert(s == t.push((48 + n % 10) as u8));
        lemma_digits_value_extend(t, (48 + n % 10) as u8);
        assert(spec_digits_value(s, 0, s.len() as int) == spec_digits_value(
            t,
            0,
            t.len() as int,
        ) * 10 + (n % 10));
    }
}

/// Appending one digit multiplies the value by ten and adds the digit.
proof fn lemma_digits_value_extend(t: Seq<u8>, d: u8)
    ensures
        spec_digits_value(t.push(d), 0, t.len() as int + 1) == spec_digits_value(t, 0, t.len() as int)
            * 10 + (d - 48),
{
    let s = t.push(d);
    lemma_digits_value_prefix_agree(t, s, 0, t.len() as int);
}

/// The digit value only depends on the bytes of the run.
proof fn lemma_digits_value_prefix_agree(a: Seq<u8>, b: Seq<u8>, i: int, j: int)
    requires
        0 <= i,
        j <= a.len(),
        j <= b.len(),
        forall|k: int| i <= k < j ==> a[k] == b[k],
    ensures
        spec_digits_value(a, i, j) == spec_digits_value(b, i, j),
    decreases j - i,
{
    if i < j {
        lemma_digits_value_prefix_agree(a, b, i, j - 1);
    }
}

/// Appends the decimal form of `n` to `out`.
pub fn push_decimal(n: usize, out: &mut Vec<u8>)
    ensures
        final(out)@ == old(out)@ + spec_decimal(n as int),
    decreases n,
{
    if n >= 10 {
        push_decimal(n / 10, out);
    }
    out.push(48 + (n % 10) as u8);
    proof {
        assert(out@ =~= old(out)@ + spec_decimal(n as int));
    }
}

/// One exported row: a frame index and the rendered score cell.
pub struct CsvRow {
    /// The frame index of the record.
    pub frame: usize,
    /// The rendered score, as UTF-8 bytes.
    pub score: Vec<u8>,
}

/// A score cell may not contain the column separator or a line break.
pub open spec fn spec_cell_ok(cell: Seq<u8>) -> bool {
    forall|i: int| 0 <= i < cell.len() ==> cell[i] != 44 && cell[i] != 10
}

/// Every cell of the rows is valid.
pub open spec fn spec_cells_ok(rows: Seq<CsvRow>) -> bool {
    forall|i: int| 0 <= i < rows.len() ==> spec_cell_ok((#[trigger] rows[i]).score@)
}

/// The bytes of the header line `frame,score` with its line break.
pub open spec fn spec_header() -> Seq<u8> {
    seq![102u8, 114u8, 97u8, 109u8, 101u8, 44u8, 115u8, 99u8, 111u8, 114u8, 101u8, 10u8]
}

/// The bytes of one data line: the decimal frame index, a comma, the score
/// cell, and a line break.
pub open spec fn spec_row(frame: int, cell: Seq<u8>) -> Seq<u8> {
    spec_decimal(frame) + seq![44u8] + cell + seq![10u8]
}

/// The bytes of the data lines of `rows`, in order.
pub open spec fn spec_csv_body(rows: Seq<CsvRow>) -> Seq<u8>
    decreases rows.len(),
{
    if rows.len() == 0 {
        Seq::empty()
    } else {
        spec_row(rows[0].frame as int, rows[0].score@) + spec_csv_body(rows.drop_first())
    }
}

/// The whole file: header line, then the data lines.
pub open spec fn spec_csv(rows: Seq<CsvRow>) -> Seq<u8> {
    spec_header() + spec_csv_body(rows)
}

/// The body of a concatenation is the concatenation of the bodies.
proof fn lemma_csv_body_concat(a: Seq<CsvRow>, b: Seq<CsvRow>)
    ensures
        spec_csv_body(a + b) == spec_csv_body(a) + spec_csv_body(b),
    decreases a.len(),
{
    if a.len() == 0 {
        assert(a + b =~= b);
        assert(spec_csv_body(a) + spec_csv_body(b) =~= spec_csv_body(b));
    } else {
        assert((a + b).drop_first() =~= a.drop_first() + b);
        lemma_csv_body_concat(a.drop_first(), b);
        assert(spec_csv_body(a + b) =~= spec_csv_body(a) + spec_csv_body(b));
    }
}

/// Writes the frame-ordered rows as CSV text: the header `frame,score`,
/// then one `index,score` line per row, in the given order.
pub fn scores_to_csv(rows: &Vec<CsvRow>) -> (out: Vec<u8>)
    ensures
        out@ == spec_csv(rows@),
{
    let mut out: Vec<u8> = Vec::new();
    out.push(102);
    out.push(114);
    out.push(97);
    out.push(109);
    out.push(101);
    out.push(44);
    out.push(115);
    out.push(99);
    out.push(111);
    out.push(114);
    out.push(101);
    out.push(10);
    proof {
        assert(out@ =~= spec_header() + spec_csv_body(rows@.take(0)));
    }
    let n = rows.len();
    let mut i: usize = 0;
    while i < n
        invariant
            0 <= i <= n,
            n == rows@.len(),
            out@ == spec_header() + spec_csv_body(rows@.take(i as int)),
        decreases n - i,
    {
        let ghost pre = out@;
        push_decimal(rows[i].frame, &mut out);
        out.push(44);
        let cell_len = rows[i].score.len();
        let mut j: usize = 0;
        while j < cell_len
            invariant
                0 <= j <= cell_len,
                i < n,
                n == rows@.len(),
                cell_len == rows@[i as int].score@.len(),
                out@ == pre + spec_decimal(rows@[i as int].frame as int) + seq![44u8]
                    + rows@[i as int].score@.take(j as int),
            decreases cell_len - j,
        {
            let b = rows[i].score[j];
            out.push(b);
            proof {
                assert(rows@[i as int].score@.take(j as int + 1) =~= rows@[i as int].score@.take(
                    j as int,
                ).push(b));
                assert(out@ =~= pre + spec_decimal(rows@[i as int].frame as int) + seq![44u8]
                    + rows@[i as int].score@.take(j as int + 1));
            }
            j = j + 1;
        }
        out.push(10);
        proof {
            assert(rows@[i as int].score@.take(cell_len as int) =~= rows@[i as int].score@);
            assert(rows@.take(i as int + 1) =~= rows@.take(i as int) + seq![rows@[i as int]]);
            lemma_csv_body_concat(rows@.take(i as int), seq![rows@[i as int]]);
            let ghost single = seq![rows@[i as int]];
            assert(single.len() == 1);
            assert(single[0] == rows@[i as int]);
            assert(single.drop_first() =~= Seq::<CsvRow>::empty());
            assert(spec_csv_body(single) == spec_row(single[0].frame as int, single[0].score@)
                + spec_csv_body(single.drop_first()));
            assert(spec_csv_body(single.drop_first()) =~= Seq::<u8>::empty());
            assert(spec_csv_body(single) =~= spec_row(
                rows@[i as int].frame as int,
                rows@[i as int].score@,
            ));
            assert(out@ =~= spec_header() + spec_csv_body(rows@.take(i as int + 1)));
        }
        i = i + 1;
    }
    proof {
        assert(rows@.take(n as int) =~= rows@);
    }
    out
}

/// The end of the digit run of `s` that starts at `i`.
pub open spec fn spec_digits_end(s: Seq<u8>, i: int) -> int
    decreases s.len() - i,
{
    if 0 <= i < s.len() && spec_is_digit(s[i]) {
        spec_digits_end(s, i + 1)
    } else {
        i
    }
}

/// The end of the score cell of `s` that starts at `i`: the first comma or
/// line break at or after `i`, or the end of `s`.
pub open spec fn spec_cell_end(s: Seq<u8>, i: int) -> int
    decreases s.len() - i,
{
    if 0 <= i < s.len() && s[i] != 10 && s[i] != 44 {
        spec_cell_end(s, i + 1)
    } else {
        i
    }
}

/// The digit run ends exactly where the digits end.
proof fn lemma_digits_end_unique(s: Seq<u8>, i: int, j: int)
    requires
        0 <= i <= j <= s.len(),
        forall|k: int| i <= k < j ==> spec_is_digit(#[trigger] s[k]),
        j < s.len() ==> !spec_is_digit(s[j]),
    ensures
        spec_digits_end(s, i) == j,
    decreases j - i,
{
    if i < j {
        lemma_digits_end_unique(s, i + 1, j);
    }
}

/// The cell ends exactly at the first comma or line break.
proof fn lemma_cell_end_unique(s: Seq<u8>, i: int, j: int)
    requires
        0 <= i <= j <= s.len(),
        forall|k: int| i <= k < j ==> (#[trigger] s[k]) != 10 && s[k] != 44,
        j < s.len() ==> s[j] == 10 || s[j] == 44,
    ensures
        spec_cell_end(s, i) == j,
    decreases j - i,
{
    if i < j {
        lemma_cell_end_unique(s, i + 1, j);
    }
}

/// The value of a digit run is never negative.
proof fn lemma_digits_value_nonneg(s: Seq<u8>, i: int, j: int)
    requires
        0 <= i,
        j <= s.len(),
        forall|k: int| i <= k < j ==> spec_is_digit(#[trigger] s[k]),
    ensures
        spec_digits_value(s, i, j) >= 0,
    decreases j - i,
{
    if i < j {
        lemma_digits_value_nonneg(s, i, j - 1);
    }
}

/// The rows encoded by the data lines `s`: `None` when `s` is not a sequence
/// of lines each holding a decimal frame index that fits the machine, one
/// comma, and a cell free of commas and line breaks.
pub open spec fn spec_parse_rows(s: Seq<u8>) -> Option<Seq<(int, Seq<u8>)>>
    decreases s.len(),
{
    if s.len() == 0 {
        Some(Seq::empty())
    } else {
        let de = spec_digits_end(s, 0);
        if de == 0 {
            None
        } else if de >= s.len() || s[de] != 44 {
            None
        } else if spec_digits_value(s, 0, de) > usize::MAX {
            None
        } else {
            let ce = spec_cell_end(s, de + 1);
            if ce >= s.len() || s[ce] != 10 {
                None
            } else {
                proof {
                    lemma_digits_end_bounds_for_parse(s);
                }
                match spec_parse_rows(s.subrange(ce + 1, s.len() as int)) {
                    None => None,
                    Some(rest) => Some(
                        seq![(spec_digits_value(s, 0, de), s.subrange(de + 1, ce))] + rest,
                    ),
                }
            }
        }
    }
}

/// Positions used by the row parser stay inside the data.
pub proof fn lemma_digits_end_bounds_for_parse(s: Seq<u8>)
    requires
        s.len() > 0,
    ensures
        0 <= spec_digits_end(s, 0) <= s.len(),
        spec_digits_end(s, 0) < s.len() ==> spec_digits_end(s, 0) + 1 <= spec_cell_end(
            s,
            spec_digits_end(s, 0) + 1,
        ),
{
    lemma_digits_end_lower(s, 0);
    let de = spec_digits_end(s, 0);
    if de < s.len() {
        lemma_cell_end_lower(s, de + 1);
    }
}

/// The digit run's end never precedes its start and never passes the data.
proof fn lemma_digits_end_lower(s: Seq<u8>, i: int)
    requires
        0 <= i <= s.len(),
    ensures
        i <= spec_digits_end(s, i) <= s.len(),
    decreases s.len() - i,
{
    if i < s.len() && spec_is_digit(s[i]) {
        lemma_digits_end_lower(s, i + 1);
    }
}

/// The cell's end never precedes its start and never passes the data.
proof fn lemma_cell_end_lower(s: Seq<u8>, i: int)
    requires
        0 <= i <= s.len(),
    ensures
        i <= spec_cell_end(s, i) <= s.len(),
    decreases s.len() - i,
{
    if i < s.len() && s[i] != 10 && s[i] != 44 {
        lemma_cell_end_lower(s, i + 1);
    }
}

/// The whole file: the rows encoded after the `frame,score` header line, or
/// `None` when the header is absent or a line is malformed.
pub open spec fn spec_parse_csv(s: Seq<u8>) -> Option<Seq<(int, Seq<u8>)>> {
    if s.len() >= 12 && s.subrange(0, 12) == spec_header() {
        spec_parse_rows(s.subrange(12, s.len() as int))
    } else {
        None
    }
}

/// Parsing one well-formed data line recovers its frame index and cell and
/// leaves the remainder to parse.
proof fn lemma_parse_one_row(frame: int, cell: Seq<u8>, rest: Seq<u8>)
    requires
        0 <= frame <= usize::MAX,
        spec_cell_ok(cell),
    ensures
        spec_parse_rows(spec_row(frame, cell) + rest) == (match spec_parse_rows(rest) {
            None => None::<Seq<(int, Seq<u8>)>>,
            Some(r) => Some(seq![(frame, cell)] + r),
        }),
{
    let s = spec_row(frame, cell) + rest;
    let d = spec_decimal(frame);
    lemma_decimal_digits(frame);
    lemma_decimal_value(frame);
    let dl = d.len() as int;
    let cl = cell.len() as int;
    assert forall|k: int| 0 <= k < dl implies spec_is_digit(#[trigger] s[k]) by {
        assert(s[k] == d[k]);
    }
    assert(s[dl] == 44);
    lemma_digits_end_unique(s, 0, dl);
    lemma_digits_value_prefix_agree(d, s, 0, dl);
    assert(spec_digits_value(s, 0, dl) == frame);
    assert forall|k: int| dl + 1 <= k < dl + 1 + cl implies (#[trigger] s[k]) != 10 && s[k]
        != 44 by {
        assert(s[k] == cell[k - dl - 1]);
    }
    assert(s[dl + 1 + cl] == 10);
    lemma_cell_end_unique(s, dl + 1, dl + 1 + cl);
    assert(s.subrange(dl + 1, dl + 1 + cl) =~= cell);
    assert(s.subrange(dl + 2 + cl, s.len() as int) =~= rest);
}

/// Re-parsing the exported data lines reconstructs every row: the same frame
/// indices and the same cells, in the same order.
pub proof fn lemma_csv_body_round_trip(rows: Seq<CsvRow>)
    requires
        spec_cells_ok(rows),
    ensures
        spec_parse_rows(spec_csv_body(rows)) matches Some(parsed) && parsed.len() == rows.len()
            && forall|i: int|
            0 <= i < rows.len() ==> (#[trigger] parsed[i]).0 == rows[i].frame as int
                && parsed[i].1 == rows[i].score@,
    decreases rows.len(),
{
    if rows.len() == 0 {
    } else {
        assert(spec_cells_ok(rows.drop_first()));
        lemma_csv_body_round_trip(rows.drop_first());
        assert(spec_cell_ok(rows[0].score@));
        lemma_parse_one_row(
            rows[0].frame as int,
            rows[0].score@,
            spec_csv_body(rows.drop_first()),
        );
    }
}

/// Re-parsing an exported file reconstructs every row: export followed by
/// parse is the identity on the frame-ordered series.
pub proof fn lemma_csv_round_trip(rows: Seq<CsvRow>)
    requires
        spec_cells_ok(rows),
    ensures
        spec_parse_csv(spec_csv(rows)) matches Some(parsed) && parsed.len() == rows.len()
            && forall|i: int|
            0 <= i < rows.len() ==> (#[trigger] parsed[i]).0 == rows[i].frame as int
                && parsed[i].1 == rows[i].score@,
{
    let s = spec_csv(rows);
    assert(s.subrange(0, 12) =~= spec_header());
    assert(s.subrange(12, s.len() as int) =~= spec_csv_body(rows));
    lemma_csv_body_round_trip(rows);
}

/// The rows as bare pairs of frame index and cell bytes.
pub open spec fn spec_row_pairs(rows: Seq<CsvRow>) -> Seq<(int, Seq<u8>)> {
    Seq::new(rows.len(), |i: int| (rows[i].frame as int, rows[i].score@))
}

/// Reads a CSV file back into rows.  Succeeds exactly on the files the
/// grammar of `spec_parse_csv` accepts, and then returns exactly the rows the
/// grammar denotes.
pub fn parse_csv(data: &Vec<u8>) -> (r: Option<Vec<CsvRow>>)
    ensures
        match r {
            Some(rows) => spec_parse_csv(data@) == Some(spec_row_pairs(rows@)),
            None => spec_parse_csv(data@) is None,
        },
{
    let n = data.len();
    if n < 12 {
        return None;
    }
    if !(data[0] == 102 && data[1] == 114 && data[2] == 97 && data[3] == 109 && data[4] == 101
        && data[5] == 44 && data[6] == 115 && data[7] == 99 && data[8] == 111 && data[9] == 114
        && data[10] == 101 && data[11] == 10) {
        proof {
            if data@.subrange(0, 12) == spec_header() {
                assert(data@[0] == 102 && data@[1] == 114 && data@[2] == 97 && data@[3] == 109
                    && data@[4] == 101 && data@[5] == 44 && data@[6] == 115 && data@[7] == 99
                    && data@[8] == 111 && data@[9] == 114 && data@[10] == 101 && data@[11] == 10);
            }
        }
        return None;
    }
    proof {
        assert(data@.subrange(0, 12) =~= spec_header());
    }
    let mut rows: Vec<CsvRow> = Vec::new();
    let mut pos: usize = 12;
    while pos < n
        invariant
            12 <= pos <= n,
            n == data@.len(),
            spec_parse_rows(data@.subrange(pos as int, n as int)) matches Some(rest) ==> (
            spec_parse_rows(data@.subrange(12, n as int)) matches Some(whole) && whole
                == spec_row_pairs(rows@) + rest),
            spec_parse_rows(data@.subrange(pos as int, n as int)) is None ==> spec_parse_rows(
                data@.subrange(12, n as int),
            ) is None,
        decreases n - pos,
    {
        let ghost tail = data@.subrange(pos as int, n as int);
        // Digit run of the frame index, with its value.
        let mut j: usize = pos;
        let mut value: usize = 0;
        let mut overflowed = false;
        while j < n && data[j] >= 48 && data[j] <= 57
            invariant
                pos <= j <= n,
                n == data@.len(),
                forall|k: int| pos <= k < j ==> spec_is_digit(#[trigger] data@[k]),
                !overflowed ==> value == spec_digits_value(data@, pos as int, j as int),
                overflowed ==> spec_digits_value(data@, pos as int, j as int) > usize::MAX,
            decreases n - j,
        {
            let digit = data[j] - 48;
            proof {
                lemma_digits_value_nonneg(data@, pos as int, j as int);
            }
            if !overflowed {
                match value.checked_mul(10) {
                    None => {
                        overflowed = true;
                    },
                    Some(v10) => {
                        match v10.checked_add(digit as usize) {
                            None => {
                                overflowed = true;
                            },
                            Some(v) => {
                                value = v;
                            },
                        }
                    },
                }
            }
            j = j + 1;
        }
        proof {
            assert forall|k: int| 0 <= k < j - pos implies spec_is_digit(#[trigger] tail[k]) by {
                assert(tail[k] == data@[pos + k]);
            }
            if (j as int) - (pos as int) < tail.len() {
                assert(tail[j - pos] == data@[j as int]);
            }
            lemma_digits_end_unique(tail, 0, j as int - pos as int);
            lemma_digits_value_prefix_agree_shifted(data@, tail, pos as int, j as int);
        }
        if j == pos {
            return None;
        }
        if j == n || data[j] != 44 {
            return None;
        }
        if overflowed {
            return None;
        }
        // The score cell, up to the line break.
        let mut cell: Vec<u8> = Vec::new();
        let mut k: usize = j + 1;
        while k < n && data[k] != 10 && data[k] != 44
            invariant
                j + 1 <= k <= n,
                n == data@.len(),
                forall|m: int| j + 1 <= m < k ==> (#[trigger] data@[m]) != 10 && data@[m] != 44,
                cell@ == data@.subrange(j as int + 1, k as int),
            decreases n - k,
        {
            let b = data[k];
            cell.push(b);
            proof {
                assert(cell@ =~= data@.subrange(j as int + 1, k as int + 1));
            }
            k = k + 1;
        }
        proof {
            assert forall|m: int| j + 1 - pos <= m < k - pos implies (#[trigger] tail[m]) != 10
                && tail[m] != 44 by {
                assert(tail[m] == data@[pos + m]);
            }
            if (k as int) - (pos as int) < tail.len() {
                assert(tail[k - pos] == data@[k as int]);
            }
            lemma_cell_end_unique(tail, j as int + 1 - pos, k as int - pos);
        }
        if k == n || data[k] != 10 {
            return None;
        }
        let frame = value;
        rows.push(CsvRow { frame, score: cell });
        proof {
            let new_tail = data@.subrange(k as int + 1, n as int);
            assert(new_tail =~= tail.subrange(k as int + 1 - pos, tail.len() as int));
            assert(tail.subrange(j as int + 1 - pos, k as int - pos) =~= data@.subrange(
                j as int + 1,
                k as int,
            ));
            if spec_parse_rows(new_tail) is Some {
                let rest = spec_parse_rows(new_tail)->0;
                assert(spec_parse_rows(tail) == Some(
                    seq![(frame as int, data@.subrange(j as int + 1, k as int))] + rest,
                ));
                assert(spec_row_pairs(rows@) =~= spec_row_pairs(rows@.drop_last()) + seq![
                    (frame as int, data@.subrange(j as int + 1, k as int)),
                ]);
                assert(spec_row_pairs(rows@.drop_last()) + (seq![
                    (frame as int, data@.subrange(j as int + 1, k as int)),
                ] + rest) =~= spec_row_pairs(rows@) + rest);
            }
        }
        pos = k + 1;
    }
    proof {
        assert(data@.subrange(pos as int, n as int) =~= Seq::<u8>::empty());
        assert(spec_parse_rows(data@.subrange(pos as int, n as int)) == Some(
            Seq::<(int, Seq<u8>)>::empty(),
        ));
        assert(spec_row_pairs(rows@) + Seq::<(int, Seq<u8>)>::empty() =~= spec_row_pairs(rows@));
        assert(data@.subrange(12, n as int) == data@.subrange(12, data@.len() as int));
    }
    Some(rows)
}

/// The digit value of a run agrees with the value of the same run inside the
/// suffix it was cut from.
proof fn lemma_digits_value_prefix_agree_shifted(a: Seq<u8>, tail: Seq<u8>, pos: int, j: int)
    requires
        0 <= pos <= j <= a.len(),
        tail == a.subrange(pos, a.len() as int),
    ensures
        spec_digits_value(tail, 0, j - pos) == spec_digits_value(a, pos, j),
    decreases j - pos,
{
    if pos < j {
        lemma_digits_value_prefix_agree_shifted(a, tail, pos, j - 1);
        assert(spec_digits_value(tail, 0, j - pos) == spec_digits_value(tail, 0, j - 1 - pos) * 10
            + (tail[j - pos - 1] - 48));
        assert(tail[j - pos - 1] == a[j - 1]);
    }
}

} // verus!
