//! The shared spine of the filter strategies.
//!
//! Every strategy computes the same per-pixel function over the
//! `width * height` destination indices and differs only in scheduling:
//! one worker taking the indices in order, a pool of workers taking them
//! chunk by chunk, or a device grid taking them tile by tile. This module
//! verifies what scheduling must preserve: the split of the index space
//! into consecutive disjoint chunks that cover it exactly, the fact that
//! processing the chunks in order yields the same sequence as processing
//! the whole range, and the reassembly of per-pixel results into an image
//! of the source's shape.

use vstd::arithmetic::div_mod::{
    lemma_fundamental_div_mod, lemma_fundamental_div_mod_converse, lemma_multiply_divide_lt,
};
use vstd::prelude::*;

use crate::image::{Image, Pixel};

verus! {

/// First index of chunk `i`.
pub open spec fn chunk_start(i: int, chunk: int) -> int {
    i * chunk
}

/// One past the last index of chunk `i` over `n` indices.
pub open spec fn chunk_end(i: int, chunk: int, n: int) -> int {
    if (i + 1) * chunk <= n {
        (i + 1) * chunk
    } else {
        n
    }
}

/// How many chunks of size `chunk` cover `n` indices.
pub open spec fn range_count(n: int, chunk: int) -> int {
    (n + chunk - 1) / chunk
}

/// Splits the index range `[0, n)` into consecutive chunks of `chunk`
/// indices each, the last possibly shorter: chunk `i` is
/// `[i * chunk, min((i + 1) * chunk, n))`. The chunks are disjoint, cover
/// the range exactly, and come in order.
pub fn chunk_ranges(n: usize, chunk: usize) -> (r: Vec<(usize, usize)>)
    requires
        chunk >= 1,
    ensures
        r.len() == range_count(n as int, chunk as int),
        forall|i: int|
            0 <= i < r.len() ==> (#[trigger] r[i]).0 == chunk_start(i, chunk as int) && r[i].1
                == chunk_end(i, chunk as int, n as int),
{
    let mut r: Vec<(usize, usize)> = Vec::new();
    let mut start: usize = 0;
    proof {
        vstd::arithmetic::mul::lemma_mul_basics(chunk as int);
    }
    while start < n
        invariant
            chunk >= 1,
            start == if r.len() * chunk <= n {
                r.len() * chunk
            } else {
                n as int
            },
            r.len() == 0 || chunk_start(r.len() - 1, chunk as int) < n,
            forall|i: int|
                0 <= i < r.len() ==> (#[trigger] r[i]).0 == chunk_start(i, chunk as int) && r[i].1
                    == chunk_end(i, chunk as int, n as int),
        decreases n - start,
    {
        proof {
            assert((r.len() + 1) * chunk == r.len() * chunk + chunk) by (nonlinear_arith);
        }
        let end = if n - start < chunk {
            n
        } else {
            start + chunk
        };
        r.push((start, end));
        start = end;
    }
    proof {
        let len = r.len() as int;
        let c = chunk as int;
        let ni = n as int;
        if n == 0 {
            lemma_fundamental_div_mod_converse(c - 1, c, 0, c - 1);
        } else {
            assert((len - 1) * c == len * c - c) by (nonlinear_arith);
            let d = len * c - ni;
            lemma_fundamental_div_mod_converse(ni + c - 1, c, len, c - 1 - d);
        }
    }
    r
}

/// Every index below `n` lies in exactly one chunk: the chunk
/// `index / chunk`, and no other.
pub proof fn lemma_chunk_of_index(n: int, chunk: int, index: int)
    requires
        chunk >= 1,
        0 <= index < n,
    ensures
        0 <= index / chunk < range_count(n, chunk),
        chunk_start(index / chunk, chunk) <= index < chunk_end(index / chunk, chunk, n),
        forall|i: int|
            chunk_start(i, chunk) <= index < chunk_end(i, chunk, n) ==> i == #[trigger] chunk_start(
                i,
                chunk,
            ) / chunk && index / chunk == i,
{
    let q = index / chunk;
    let rc = range_count(n, chunk);
    lemma_fundamental_div_mod(index, chunk);
    lemma_fundamental_div_mod(n + chunk - 1, chunk);
    assert(chunk * ((n + chunk - 1) / chunk) >= n);
    assert(index < chunk * rc);
    lemma_multiply_divide_lt(index, chunk, rc);
    assert(0 <= q) by (nonlinear_arith)
        requires
            chunk >= 1,
            0 <= index,
            index == chunk * q + index % chunk,
            0 <= index % chunk < chunk,
    ;
    assert(q * chunk <= index < (q + 1) * chunk) by (nonlinear_arith)
        requires
            index == chunk * q + index % chunk,
            0 <= index % chunk < chunk,
    ;
    assert forall|i: int| chunk_start(i, chunk) <= index < chunk_end(i, chunk, n) implies i
        == #[trigger] chunk_start(i, chunk) / chunk && index / chunk == i by {
        assert(i * chunk <= index < i * chunk + chunk) by (nonlinear_arith)
            requires
                chunk_start(i, chunk) <= index < chunk_end(i, chunk, n),
                chunk >= 1,
        ;
        lemma_fundamental_div_mod_converse(index, chunk, i, index - i * chunk);
        assert(i * chunk == chunk * i + 0) by (nonlinear_arith);
        lemma_fundamental_div_mod_converse(i * chunk, chunk, i, 0);
    }
}

/// The per-pixel results of chunk `i`, in index order, for the per-index
/// function `f`.
pub open spec fn chunk_outputs(f: spec_fn(int) -> Pixel, i: int, chunk: int, n: int) -> Seq<
    Pixel,
> {
    Seq::new(
        (chunk_end(i, chunk, n) - chunk_start(i, chunk)) as nat,
        |o: int| f(chunk_start(i, chunk) + o),
    )
}

/// The first `m` chunks, processed in order and concatenated, yield the
/// per-index results of `[0, min(m * chunk, n))` in order.
proof fn lemma_chunks_prefix(f: spec_fn(int) -> Pixel, chunk: int, n: int, m: int)
    requires
        chunk >= 1,
        n >= 0,
        0 <= m <= range_count(n, chunk),
    ensures
        Seq::new(m as nat, |i: int| chunk_outputs(f, i, chunk, n)).flatten() == Seq::new(
            (if m * chunk <= n {
                m * chunk
            } else {
                n
            }) as nat,
            f,
        ),
    decreases m,
{
    let parts = Seq::new(m as nat, |i: int| chunk_outputs(f, i, chunk, n));
    if m == 0 {
        assert(parts.flatten() =~= Seq::new(0, f));
    } else {
        lemma_chunks_prefix(f, chunk, n, m - 1);
        lemma_fundamental_div_mod(n + chunk - 1, chunk);
        assert((m - 1) * chunk < n && (m - 1) * chunk == m * chunk - chunk) by (nonlinear_arith)
            requires
                chunk >= 1,
                m >= 1,
                m <= (n + chunk - 1) / chunk,
                n + chunk - 1 == chunk * ((n + chunk - 1) / chunk) + (n + chunk - 1) % chunk,
                0 <= (n + chunk - 1) % chunk < chunk,
        ;
        let prev = Seq::new((m - 1) as nat, |i: int| chunk_outputs(f, i, chunk, n));
        assert(parts =~= prev.push(chunk_outputs(f, m - 1, chunk, n)));
        prev.lemma_flatten_push(chunk_outputs(f, m - 1, chunk, n));
        assert(prev.flatten() + chunk_outputs(f, m - 1, chunk, n) =~= Seq::new(
            (if m * chunk <= n {
                m * chunk
            } else {
                n
            }) as nat,
            f,
        ));
    }
}

/// Scheduling independence of the chunked strategy: processing the chunks
/// of `[0, n)` in order and concatenating their results yields exactly the
/// per-index results of `[0, n)` in order — splitting the work changes
/// nothing about the outcome.
pub proof fn lemma_chunks_flatten(f: spec_fn(int) -> Pixel, chunk: int, n: int)
    requires
        chunk >= 1,
        n >= 0,
    ensures
        Seq::new(range_count(n, chunk) as nat, |i: int| chunk_outputs(f, i, chunk, n)).flatten()
            == Seq::new(n as nat, f),
{
    let rc = range_count(n, chunk);
    lemma_fundamental_div_mod(n + chunk - 1, chunk);
    assert(0 <= rc && n <= rc * chunk) by (nonlinear_arith)
        requires
            chunk >= 1,
            n >= 0,
            n + chunk - 1 == chunk * rc + (n + chunk - 1) % chunk,
            0 <= (n + chunk - 1) % chunk < chunk,
    ;
    lemma_chunks_prefix(f, chunk, n, rc);
    if rc * chunk <= n {
        assert(Seq::new(n as nat, f) =~= Seq::new((rc * chunk) as nat, f));
    }
}

/// The identity skeleton at radius zero: the radius-zero window of every
/// destination pixel is its centre alone, so a pass whose per-pixel
/// result is the centre sample of its window gathers to the source pixels
/// unchanged, whatever the falloff parameters. The one step outside this
/// statement is floating-point arithmetic: that a single sample of weight
/// one averages to itself.
pub proof fn lemma_center_gather_is_identity(source: Image, results: Seq<Pixel>)
    requires
        source.wf(),
        source.width > 0,
        results.len() == source.width * source.height,
        forall|idx: int|
            0 <= idx < results.len() ==> #[trigger] results[idx] == source.spec_pixel(
                idx / source.width as int,
                idx % source.width as int,
            ),
    ensures
        results == source.pixels@,
{
    let w = source.width as int;
    assert forall|idx: int| 0 <= idx < results.len() implies results[idx]
        == source.pixels@[idx] by {
        lemma_fundamental_div_mod(idx, w);
        assert((idx / w) * w == w * (idx / w)) by (nonlinear_arith);
        assert(source.spec_offset(idx / w, idx % w) == idx);
    }
    assert(results =~= source.pixels@);
}

/// Determinism of the gather: however the `n` destination indices were
/// scheduled, two result buffers in which every index holds the per-index
/// value of the same function are the same buffer. A strategy's output
/// depends only on the per-pixel function, never on the order in which
/// workers produced it.
pub proof fn lemma_gather_deterministic(
    n: int,
    f: spec_fn(int) -> Pixel,
    a: Seq<Pixel>,
    b: Seq<Pixel>,
)
    requires
        a.len() == n,
        b.len() == n,
        forall|i: int| 0 <= i < n ==> a[i] == f(i) && b[i] == f(i),
    ensures
        a == b,
{
    assert(a =~= b);
}

/// Gathers per-pixel results into the destination image: accepted exactly
/// when there is one result per destination index, and the accepted image
/// is well formed with the requested shape and those pixels in index
/// order.
pub fn assemble(width: usize, height: usize, pixels: Vec<Pixel>) -> (r: Option<Image>)
    requires
        width * height <= usize::MAX,
    ensures
        r is Some <==> pixels@.len() == width * height,
        r matches Some(img) ==> {
            &&& img.wf()
            &&& img.width == width
            &&& img.height == height
            &&& img.pixels == pixels
        },
{
    if pixels.len() == width * height {
        Some(Image { pixels, width, height })
    } else {
        None
    }
}

} // verus!
