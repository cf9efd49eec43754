//! A small dense tensor with an explicit axis-order tag.
//!
//! Image tensors are built channel-first `[1, C, H, W]` and handed to the
//! model channel-last `[1, H, W, C]`; text tensors are `[1, N]` rows.

use vstd::arithmetic::div_mod::{
    lemma_fundamental_div_mod, lemma_mod_pos_bound, lemma_multiply_divide_lt,
    lemma_fundamental_div_mod_converse, lemma_div_pos_is_pos,
};
use vstd::prelude::*;

use crate::error::Error;

verus! {

/// Which axis order a tensor's buffer follows.
#[derive(Clone, Copy, Debug, PartialEq, Eq, Structural)]
pub enum Layout {
    /// `[1, C, H, W]`
    ChannelFirst,
    /// `[1, H, W, C]`
    ChannelLast,
    /// `[1, N]`
    Sequence,
}

/// Whether `dims` is a valid shape for `layout` over a buffer of `len` values.
pub open spec fn shape_fits(dims: Seq<usize>, layout: Layout, len: nat) -> bool {
    match layout {
        Layout::Sequence => dims.len() == 2 && dims[0] == 1 && len == dims[1],
        _ => dims.len() == 4 && dims[0] == 1 && len == dims[1] * dims[2] * dims[3],
    }
}

/// Reorders a channel-first buffer of `c` planes of `h` rows of `w` values into
/// channel-last order: the value for channel `ci` at `(y, x)` moves from
/// `(ci * h + y) * w + x` to `(y * w + x) * c + ci`.
pub open spec fn channel_last_of<T>(c: nat, h: nat, w: nat, d: Seq<T>) -> Seq<T> {
    Seq::new(
        c * h * w,
        |k: int| d[((k % c as int) * h + (k / c as int) / w as int) * w + (k / c as int) % w as int],
    )
}

/// Reorders a channel-last buffer of `h` rows of `w` pixels of `c` values into
/// channel-first order; the inverse of `channel_last_of`.
pub open spec fn channel_first_of<T>(c: nat, h: nat, w: nat, d: Seq<T>) -> Seq<T> {
    Seq::new(
        c * h * w,
        |k: int| d[(((k / w as int) % h as int) * w + k % w as int) * c + (k / w as int) / h as int],
    )
}

/// Splits a channel-last position into channel, row and column.
proof fn lemma_channel_last_position(c: int, h: int, w: int, k: int)
    requires
        c > 0,
        h > 0,
        w > 0,
        0 <= k < c * h * w,
    ensures
        0 <= k % c < c,
        0 <= (k / c) % w < w,
        0 <= (k / c) / w < h,
        k == (((k / c) / w) * w + (k / c) % w) * c + k % c,
        0 <= ((k % c) * h + (k / c) / w) * w + (k / c) % w < c * h * w,
{
    let ci = k % c;
    let p = k / c;
    let x = p % w;
    let y = p / w;
    lemma_mod_pos_bound(k, c);
    lemma_mod_pos_bound(p, w);
    lemma_div_pos_is_pos(k, c);
    lemma_div_pos_is_pos(p, w);
    lemma_fundamental_div_mod(k, c);
    lemma_fundamental_div_mod(p, w);
    assert(c * h * w == c * (h * w)) by (nonlinear_arith);
    lemma_multiply_divide_lt(k, c, h * w);
    assert(h * w == w * h) by (nonlinear_arith);
    lemma_multiply_divide_lt(p, w, h);
    assert(k == (y * w + x) * c + ci) by (nonlinear_arith)
        requires
            k == c * p + ci,
            p == w * y + x,
    ;
    assert(0 <= (ci * h + y) * w + x < c * h * w) by (nonlinear_arith)
        requires
            0 <= ci < c,
            0 <= y < h,
            0 <= x < w,
    ;
}

/// Splits a channel-first position into channel, row and column.
pub(crate) proof fn lemma_channel_first_position(c: int, h: int, w: int, k: int)
    requires
        c > 0,
        h > 0,
        w > 0,
        0 <= k < c * h * w,
    ensures
        0 <= k % w < w,
        0 <= (k / w) % h < h,
        0 <= (k / w) / h < c,
        k == (((k / w) / h) * h + (k / w) % h) * w + k % w,
        0 <= (((k / w) % h) * w + k % w) * c + (k / w) / h < c * h * w,
{
    let x = k % w;
    let q = k / w;
    let y = q % h;
    let ci = q / h;
    lemma_mod_pos_bound(k, w);
    lemma_mod_pos_bound(q, h);
    lemma_div_pos_is_pos(k, w);
    lemma_div_pos_is_pos(q, h);
    lemma_fundamental_div_mod(k, w);
    lemma_fundamental_div_mod(q, h);
    assert(c * h * w == w * (c * h)) by (nonlinear_arith);
    lemma_multiply_divide_lt(k, w, c * h);
    assert(c * h == h * c) by (nonlinear_arith);
    lemma_multiply_divide_lt(q, h, c);
    assert(k == (ci * h + y) * w + x) by (nonlinear_arith)
        requires
            k == w * q + x,
            q == h * ci + y,
    ;
    assert(0 <= (y * w + x) * c + ci < c * h * w) by (nonlinear_arith)
        requires
            0 <= ci < c,
            0 <= y < h,
            0 <= x < w,
    ;
}

/// Permuting a channel-first buffer to channel-last order and back gives
/// the buffer it started from, value for value.
pub proof fn lemma_channel_round_trip<T>(c: nat, h: nat, w: nat, d: Seq<T>)
    requires
        d.len() == c * h * w,
    ensures
        channel_first_of(c, h, w, channel_last_of(c, h, w, d)) == d,
{
    let l = channel_last_of(c, h, w, d);
    let f = channel_first_of(c, h, w, l);
    assert forall|k: int| 0 <= k < d.len() implies f[k] == d[k] by {
        let ci = (k / w as int) / h as int;
        let y = (k / w as int) % h as int;
        let x = k % w as int;
        if c > 0 && h > 0 && w > 0 {
            lemma_channel_first_position(c as int, h as int, w as int, k);
            let j = (y * w + x) * c + ci;
            lemma_fundamental_div_mod_converse(j, c as int, y * w + x, ci);
            lemma_fundamental_div_mod_converse(y * w + x, w as int, y, x);
        } else {
            assert(c * h * w == 0) by (nonlinear_arith)
                requires
                    c == 0 || h == 0 || w == 0,
            ;
        }
    }
    assert(f =~= d);
}

/// Moving a tensor's channels last and then first again gives back its shape
/// and its values: the layout change loses nothing.
pub proof fn lemma_tensor_round_trip<T: Copy>(t: Tensor<T>, last: Tensor<T>, back: Tensor<T>)
    requires
        t.wf(),
        t.order() == Layout::ChannelFirst,
        last.dims() == seq![1usize, t.dims()[2], t.dims()[3], t.dims()[1]],
        last.values() == channel_last_of(t.dims()[1] as nat, t.dims()[2] as nat, t.dims()[3] as nat, t.values()),
        back.dims() == seq![1usize, last.dims()[3], last.dims()[1], last.dims()[2]],
        back.values() == channel_first_of(
            last.dims()[3] as nat,
            last.dims()[1] as nat,
            last.dims()[2] as nat,
            last.values(),
        ),
    ensures
        back.dims() == t.dims(),
        back.values() == t.values(),
{
    lemma_channel_round_trip(t.dims()[1] as nat, t.dims()[2] as nat, t.dims()[3] as nat, t.values());
    assert(back.dims() =~= t.dims());
}

/// A dense tensor: a shape, the axis order it follows, and its values in
/// row-major order of that shape.
#[derive(Debug)]
pub struct Tensor<T> {
    shape: Vec<usize>,
    layout: Layout,
    data: Vec<T>,
}

impl<T: Copy> Tensor<T> {
    pub closed spec fn dims(&self) -> Seq<usize> {
        self.shape@
    }

    pub closed spec fn order(&self) -> Layout {
        self.layout
    }

    pub closed spec fn values(&self) -> Seq<T> {
        self.data@
    }

    /// The shape fits the layout and the number of values.
    pub open spec fn wf(&self) -> bool {
        shape_fits(self.dims(), self.order(), self.values().len())
    }

    /// Builds a tensor from its parts; fails with `Layout` where the shape
    /// does not fit the axis order or the number of values.
    pub fn from_parts(shape: Vec<usize>, layout: Layout, data: Vec<T>) -> (r: Result<Self, Error>)
        ensures
            match r {
                Ok(t) => shape_fits(shape@, layout, data@.len()) && t.dims() == shape@
                    && t.order() == layout && t.values() == data@,
                Err(e) => !shape_fits(shape@, layout, data@.len()) && e is Layout,
            },
    {
        let fits = match layout {
            Layout::Sequence => shape.len() == 2 && shape[0] == 1 && data.len() == shape[1],
            _ => {
                if shape.len() == 4 && shape[0] == 1 {
                    match shape[1].checked_mul(shape[2]) {
                        Some(a) => match a.checked_mul(shape[3]) {
                            Some(n) => {
                                data.len() == n
                            },
                            None => {
                                let len = data.len();
                                assert(shape[1] * shape[2] * shape[3] > len);
                                false
                            },
                        },
                        None => {
                            let len = data.len();
                            proof {
                                let (c, h, w) = (shape[1] as int, shape[2] as int, shape[3] as int);
                                if w > 0 {
                                    assert(c * h * w >= c * h) by (nonlinear_arith)
                                        requires
                                            c * h >= 0,
                                            w >= 1,
                                    ;
                                } else {
                                    assert(c * h * w == 0) by (nonlinear_arith)
                                        requires
                                            w == 0,
                                    ;
                                }
                            }
                            shape[3] == 0 && len == 0
                        },
                    }
                } else {
                    false
                }
            },
        };
        if fits {
            Ok(Tensor { shape, layout, data })
        } else {
            Err(Error::Layout)
        }
    }

    /// Builds a tensor from parts already known to fit together.
    pub fn new(shape: Vec<usize>, layout: Layout, data: Vec<T>) -> (r: Self)
        requires
            shape_fits(shape@, layout, data@.len()),
        ensures
            r.dims() == shape@,
            r.order() == layout,
            r.values() == data@,
    {
        Tensor { shape, layout, data }
    }

    pub fn shape(&self) -> (r: &Vec<usize>)
        ensures
            r@ == self.dims(),
    {
        &self.shape
    }

    pub fn layout(&self) -> (r: Layout)
        ensures
            r == self.order(),
    {
        self.layout
    }

    pub fn data(&self) -> (r: &Vec<T>)
        ensures
            r@ == self.values(),
    {
        &self.data
    }

    /// Moves the channel axis of a `[1, C, H, W]` tensor last, giving
    /// `[1, H, W, C]` with the same values; fails with `Layout` on any other
    /// tensor.
    pub fn to_channel_last(&self) -> (r: Result<Self, Error>)
        requires
            self.wf(),
        ensures
            match r {
                Ok(t) => self.order() == Layout::ChannelFirst && t.wf()
                    && t.order() == Layout::ChannelLast
                && t.dims() == seq![1usize, self.dims()[2], self.dims()[3], self.dims()[1]]
                && t.values() == channel_last_of(
                    self.dims()[1] as nat,
                    self.dims()[2] as nat,
                    self.dims()[3] as nat,
                        self.values(),
                    ),
                Err(e) => self.order() != Layout::ChannelFirst && e is Layout,
            },
    {
        if self.layout != Layout::ChannelFirst {
            return Err(Error::Layout);
        }
        let c = self.shape[1];
        let h = self.shape[2];
        let w = self.shape[3];
        let n = self.data.len();
        let ghost d = self.data@;
        let mut out: Vec<T> = Vec::with_capacity(n);
        let mut k: usize = 0;
        while k < n
            invariant
                n == d.len(),
                n == c * h * w,
                d == self.data@,
                0 <= k <= n,
                out@.len() == k,
                forall|i: int| 0 <= i < k ==> out@[i] == #[trigger] channel_last_of(c as nat, h as nat, w as nat, d)[i],
            decreases n - k,
        {
            proof {
                assert(c > 0 && h > 0 && w > 0) by (nonlinear_arith)
                    requires
                        k < c * h * w,
                ;
                lemma_channel_last_position(c as int, h as int, w as int, k as int);
            }
            let ci = k % c;
            let p = k / c;
            let x = p % w;
            let y = p / w;
            proof {
                assert(ci * h <= ci * h + y <= (ci * h + y) * w) by (nonlinear_arith)
                    requires
                        ci >= 0,
                        h >= 0,
                        y >= 0,
                        w >= 1,
                ;
            }
            let v = self.data[(ci * h + y) * w + x];
            out.push(v);
            k = k + 1;
        }
        assert(out@ =~= channel_last_of(c as nat, h as nat, w as nat, d));
        proof {
            assert(n == h * w * c) by (nonlinear_arith)
                requires
                    n == c * h * w,
            ;
        }
        Ok(Tensor { shape: vec![1usize, h, w, c], layout: Layout::ChannelLast, data: out })
    }

    /// Moves the channel axis of a `[1, H, W, C]` tensor back to the front,
    /// giving `[1, C, H, W]` with the same values; fails with `Layout` on any
    /// other tensor.
    pub fn to_channel_first(&self) -> (r: Result<Self, Error>)
        requires
            self.wf(),
        ensures
            match r {
                Ok(t) => self.order() == Layout::ChannelLast && t.wf()
                    && t.order() == Layout::ChannelFirst
                && t.dims() == seq![1usize, self.dims()[3], self.dims()[1], self.dims()[2]]
                && t.values() == channel_first_of(
                    self.dims()[3] as nat,
                    self.dims()[1] as nat,
                    self.dims()[2] as nat,
                        self.values(),
                    ),
                Err(e) => self.order() != Layout::ChannelLast && e is Layout,
            },
    {
        if self.layout != Layout::ChannelLast {
            return Err(Error::Layout);
        }
        let h = self.shape[1];
        let w = self.shape[2];
        let c = self.shape[3];
        let n = self.data.len();
        let ghost d = self.data@;
        proof {
            assert(n == c * h * w) by (nonlinear_arith)
                requires
                    n == h * w * c,
            ;
        }
        let mut out: Vec<T> = Vec::with_capacity(n);
        let mut k: usize = 0;
        while k < n
            invariant
                n == d.len(),
                n == c * h * w,
                d == self.data@,
                0 <= k <= n,
                out@.len() == k,
                forall|i: int| 0 <= i < k ==> out@[i] == #[trigger] channel_first_of(c as nat, h as nat, w as nat, d)[i],
            decreases n - k,
        {
            proof {
                assert(c > 0 && h > 0 && w > 0) by (nonlinear_arith)
                    requires
                        k < c * h * w,
                ;
                lemma_channel_first_position(c as int, h as int, w as int, k as int);
            }
            let x = k % w;
            let q = k / w;
            let y = q % h;
            let ci = q / h;
            proof {
                assert(y * w <= y * w + x <= (y * w + x) * c) by (nonlinear_arith)
                    requires
                        y >= 0,
                        w >= 0,
                        x >= 0,
                        c >= 1,
                ;
            }
            let v = self.data[(y * w + x) * c + ci];
            out.push(v);
            k = k + 1;
        }
        assert(out@ =~= channel_first_of(c as nat, h as nat, w as nat, d));
        Ok(Tensor { shape: vec![1usize, c, h, w], layout: Layout::ChannelFirst, data: out })
    }
}

} // verus!
