//! Arithmetic on tensor shapes.
//!
//! The tensor backend multiplies dimension sizes in machine words: all of
//! them for the number of elements, and the trailing ones for the strides.
//! A shape is taken to fit if no such product can overflow, whichever
//! sizes it leaves out. Sizes of zero are counted as one for this, so that
//! an empty tensor cannot hide an overflow among its other sizes.

use vstd::prelude::*;

verus! {

/// A dimension size, with zero counted as one.
pub open spec fn padded(d: usize) -> nat {
    if d == 0 {
        1
    } else {
        d as nat
    }
}

/// The product of the dimension sizes, zeros counted as one. No product of
/// some of the sizes is larger.
pub open spec fn span(dims: Seq<usize>) -> nat
    decreases dims.len(),
{
    if dims.len() == 0 {
        1
    } else {
        span(dims.drop_last()) * padded(dims.last())
    }
}

/// Products of the dimension sizes can be computed in a machine word.
pub open spec fn shape_fits(dims: Seq<usize>) -> bool {
    span(dims) <= usize::MAX
}

/// The span of the first `k` sizes is at most the span of all.
pub proof fn lemma_span_of_prefix(dims: Seq<usize>, k: int)
    requires
        0 <= k <= dims.len(),
    ensures
        1 <= span(dims.take(k)) <= span(dims),
    decreases dims.len(),
{
    if k == dims.len() {
        assert(dims.take(k) =~= dims);
        if dims.len() > 0 {
            lemma_span_of_prefix(dims.drop_last(), dims.len() - 1);
            assert(dims.drop_last().take(dims.len() - 1) =~= dims.drop_last());
            assert(span(dims.drop_last()) * padded(dims.last()) >= 1) by (nonlinear_arith)
                requires
                    span(dims.drop_last()) >= 1,
                    padded(dims.last()) >= 1,
            ;
        }
    } else {
        lemma_span_of_prefix(dims.drop_last(), k);
        assert(dims.drop_last().take(k) =~= dims.take(k));
        assert(span(dims.drop_last()) * padded(dims.last()) >= span(dims.drop_last()))
            by (nonlinear_arith)
            requires
                span(dims.drop_last()) >= 1,
                padded(dims.last()) >= 1,
        ;
    }
}

/// The span of a shape with one size.
pub proof fn lemma_span1(a: usize)
    ensures
        span(seq![a]) == padded(a),
        shape_fits(seq![a]),
{
    let s = seq![a];
    assert(s.len() == 1);
    assert(s.drop_last() =~= Seq::<usize>::empty());
    assert(span(Seq::<usize>::empty()) == 1);
    assert(s.last() == a);
    assert(span(s) == span(s.drop_last()) * padded(s.last()));
}

/// The span of a shape with two sizes.
pub proof fn lemma_span2(a: usize, b: usize)
    ensures
        span(seq![a, b]) == padded(a) * padded(b),
        span(seq![a, b]) == span(seq![b, a]),
{
    lemma_span1(a);
    lemma_span1(b);
    let s = seq![a, b];
    assert(s.len() == 2);
    assert(s.drop_last() =~= seq![a]);
    assert(s.last() == b);
    assert(span(s) == span(s.drop_last()) * padded(s.last()));
    let t = seq![b, a];
    assert(t.len() == 2);
    assert(t.drop_last() =~= seq![b]);
    assert(t.last() == a);
    assert(span(t) == span(t.drop_last()) * padded(t.last()));
    assert(padded(a) * padded(b) == padded(b) * padded(a)) by (nonlinear_arith);
}

/// The span of a shape with three sizes.
pub proof fn lemma_span3(a: usize, b: usize, c: usize)
    ensures
        span(seq![a, b, c]) == padded(a) * padded(b) * padded(c),
{
    lemma_span2(a, b);
    let s = seq![a, b, c];
    assert(s.len() == 3);
    assert(s.drop_last() =~= seq![a, b]);
    assert(s.last() == c);
    assert(span(s) == span(s.drop_last()) * padded(s.last()));
}

/// What follows for the parts of a shape with three sizes that fits: the
/// first two sizes can be multiplied, and the shapes made of the first two
/// sizes, of their product, and of their product and the third size fit.
pub proof fn lemma_flatten(a: usize, b: usize, c: usize)
    requires
        shape_fits(seq![a, b, c]),
    ensures
        a * b <= usize::MAX,
        shape_fits(seq![a, b]),
        shape_fits(seq![(a * b) as usize]),
        shape_fits(seq![(a * b) as usize, c]),
{
    lemma_span3(a, b, c);
    lemma_span2(a, b);
    let pa = padded(a);
    let pb = padded(b);
    let pc = padded(c);
    assert(pa * pb <= pa * pb * pc) by (nonlinear_arith)
        requires
            pa >= 1,
            pb >= 1,
            pc >= 1,
    ;
    assert(a * b <= pa * pb) by (nonlinear_arith)
        requires
            a <= pa,
            b <= pb,
            a >= 0,
            b >= 0,
    ;
    let rows = (a * b) as usize;
    assert(padded(rows) <= pa * pb) by {
        if rows == 0 {
            assert(pa * pb >= 1) by (nonlinear_arith)
                requires
                    pa >= 1,
                    pb >= 1,
            ;
        }
    }
    lemma_span1(rows);
    lemma_span2(rows, c);
    assert(padded(rows) * pc <= pa * pb * pc) by (nonlinear_arith)
        requires
            padded(rows) <= pa * pb,
            pc >= 1,
    ;
}

/// What follows for one row of a shape with two sizes that fits: the shape
/// of a single row fits.
pub proof fn lemma_single_row(a: usize, b: usize)
    requires
        shape_fits(seq![a, b]),
    ensures
        shape_fits(seq![b]),
        shape_fits(seq![1usize, b]),
{
    lemma_span2(a, b);
    lemma_span2(1usize, b);
    lemma_span1(b);
    let pa = padded(a);
    let pb = padded(b);
    assert(pb <= pa * pb) by (nonlinear_arith)
        requires
            pa >= 1,
            pb >= 1,
    ;
    assert(padded(1usize) * pb == pb) by (nonlinear_arith)
        requires
            padded(1usize) == 1,
    ;
}

/// The span of `dims`, or `None` if it does not fit a machine word.
pub fn checked_span(dims: &Vec<usize>) -> (r: Option<usize>)
    ensures
        match r {
            Some(n) => shape_fits(dims@) && n == span(dims@),
            None => !shape_fits(dims@),
        },
{
    let n = dims.len();
    let mut count: usize = 1;
    let mut i: usize = 0;
    proof {
        assert(dims@.take(0) =~= Seq::<usize>::empty());
    }
    while i < n
        invariant
            n == dims@.len(),
            i <= n,
            count == span(dims@.take(i as int)),
        decreases n - i,
    {
        proof {
            let next = dims@.take(i as int + 1);
            assert(next.drop_last() =~= dims@.take(i as int));
            assert(next.last() == dims@[i as int]);
            lemma_span_of_prefix(dims@, i as int + 1);
        }
        let size = if dims[i] == 0 {
            1
        } else {
            dims[i]
        };
        match count.checked_mul(size) {
            Some(product) => {
                count = product;
            },
            None => {
                return None;
            },
        }
        i = i + 1;
    }
    proof {
        assert(dims@.take(n as int) =~= dims@);
    }
    Some(count)
}

} // verus!
