//! Nearest-index downsampling of an array to a given number of columns.

use vstd::prelude::*;

verus! {

/// The quotient `a / d`, rounded to the nearest integer, a half rounded up.
pub open spec fn round_div(a: nat, d: nat) -> nat
    recommends
        d > 0,
{
    if 2 * (a % d) >= d {
        a / d + 1
    } else {
        a / d
    }
}

/// The divisor of the column map: one less than the width, and at least 1.
pub open spec fn column_span(width: nat) -> nat {
    if width >= 2 {
        (width - 1) as nat
    } else {
        1
    }
}

/// The source index of column `col`: `col * (len - 1) / span` rounded to the
/// nearest index, and no further than the last one.
pub open spec fn sample_index_spec(col: nat, len: nat, width: nat) -> nat
    recommends
        len >= 1,
{
    let idx = round_div(col * ((len - 1) as nat), column_span(width));
    if idx >= len - 1 {
        (len - 1) as nat
    } else {
        idx
    }
}

/// The columns of `data` at `width`.
pub open spec fn sample_columns_spec<T>(data: Seq<T>, width: nat) -> Seq<T>
    recommends
        data.len() >= 1,
{
    Seq::new(width, |c: int| data[sample_index_spec(c as nat, data.len(), width) as int])
}

/// The source index of column `col` of `width` over an array of `len` samples.
pub fn sample_index(col: usize, len: usize, width: usize) -> (idx: usize)
    requires
        len >= 1,
    ensures
        idx == sample_index_spec(col as nat, len as nat, width as nat),
        idx < len,
{
    let span: u128 = if width >= 2 {
        (width - 1) as u128
    } else {
        1
    };
    let last: usize = len - 1;
    assert(col * last <= 0xffff_ffff_ffff_ffff * 0xffff_ffff_ffff_ffff) by (nonlinear_arith)
        requires
            0 <= col <= 0xffff_ffff_ffff_ffff,
            0 <= last <= 0xffff_ffff_ffff_ffff,
    ;
    let a: u128 = (col as u128) * (last as u128);
    let q: u128 = a / span;
    let r: u128 = a % span;
    let nearest: u128 = if 2 * r >= span {
        q + 1
    } else {
        q
    };
    if nearest >= last as u128 {
        last
    } else {
        nearest as usize
    }
}

/// `data` downsampled to exactly `width` columns.
pub fn sample_columns<T: Copy>(data: &Vec<T>, width: usize) -> (cols: Vec<T>)
    requires
        data.len() >= 1,
    ensures
        cols@ == sample_columns_spec(data@, width as nat),
{
    let len: usize = data.len();
    let mut cols: Vec<T> = Vec::new();
    let mut c: usize = 0;
    while c < width
        invariant
            c <= width,
            len == data.len(),
            len >= 1,
            cols.len() == c,
            forall|k: int|
                0 <= k < c ==> cols@[k] == data@[sample_index_spec(
                    k as nat,
                    len as nat,
                    width as nat,
                ) as int],
        decreases width - c,
    {
        let idx: usize = sample_index(c, len, width);
        cols.push(data[idx]);
        c += 1;
    }
    assert(cols@ =~= sample_columns_spec(data@, width as nat));
    cols
}

/// At width 1 the one column is the first sample; over an array whose first
/// and last samples are equal it is therefore the last sample too.
pub proof fn lemma_single_column<T>(data: Seq<T>)
    requires
        data.len() >= 1,
        data.first() == data.last(),
    ensures
        sample_columns_spec(data, 1) =~= seq![data.last()],
{
    assert(sample_index_spec(0, data.len(), 1) == 0) by {
        assert(0 * ((data.len() - 1) as nat) == 0);
        assert(0nat % 1 == 0);
        assert(0nat / 1 == 0);
    }
}

/// The first column is the first sample and, from width 2 on, the last column
/// is the last sample.
pub proof fn lemma_end_columns<T>(data: Seq<T>, width: nat)
    requires
        data.len() >= 1,
        width >= 1,
    ensures
        sample_columns_spec(data, width).first() == data.first(),
        width >= 2 ==> sample_columns_spec(data, width).last() == data.last(),
{
    let last = (data.len() - 1) as nat;
    assert(sample_index_spec(0, data.len(), width) == 0) by {
        assert(0 * last == 0);
        let d = column_span(width);
        assert(0nat % d == 0 && 0nat / d == 0) by (nonlinear_arith)
            requires
                d > 0,
        ;
    }
    if width >= 2 {
        let d = (width - 1) as nat;
        assert((d * last) / d == last && (d * last) % d == 0) by (nonlinear_arith)
            requires
                d > 0,
        ;
        assert(sample_index_spec(d, data.len(), width) == last);
    }
}

} // verus!
