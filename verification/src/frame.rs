use vstd::prelude::*;
use vstd::arithmetic::div_mod::lemma_fundamental_div_mod;
use vstd::arithmetic::div_mod::lemma_fundamental_div_mod_converse;
use vstd::slice::slice_subrange;
use vstd::slice::slice_to_vec;
use crate::profile::StreamProfile;

verus! {

/// How many whole frames of `frame_len` samples fit in `len` samples. With
/// a frame length of zero no frame can be cut.
pub open spec fn frame_count(len: nat, frame_len: nat) -> nat {
    if frame_len == 0 {
        0
    } else {
        len / frame_len
    }
}

/// The whole frames of `s`, left to right, each `frame_len` samples long and
/// starting where the one before it ended.
pub open spec fn framed<T>(s: Seq<T>, frame_len: nat) -> Seq<Seq<T>> {
    Seq::new(
        frame_count(s.len(), frame_len),
        |i: int| s.subrange(i * frame_len, i * frame_len + frame_len),
    )
}

/// What a list of vectors holds, one sequence for each.
pub open spec fn views<T>(frames: Seq<Vec<T>>) -> Seq<Seq<T>> {
    Seq::new(frames.len(), |i: int| frames[i]@)
}

/// The frames of `framed(s, frame_len)` lie inside `s`: the last one ends at
/// or before the end of `s`.
pub proof fn lemma_frames_fit(len: nat, frame_len: nat)
    requires
        frame_len > 0,
    ensures
        frame_count(len, frame_len) * frame_len == len - len % frame_len,
        frame_count(len, frame_len) * frame_len <= len,
        len % frame_len < frame_len,
{
    lemma_fundamental_div_mod(len as int, frame_len as int);
    assert(frame_len * (len / frame_len) == (len / frame_len) * frame_len) by (nonlinear_arith);
}

/// Cutting loses nothing but the tail: the frames of `s`, put end to end,
/// are exactly `s` without its last `s.len() % frame_len` samples, and every
/// frame is `frame_len` samples long. When `frame_len` divides the length of
/// `s`, the frames put end to end are `s` itself, in `s.len() / frame_len`
/// frames.
pub proof fn lemma_frames_partition<T>(s: Seq<T>, frame_len: nat)
    requires
        frame_len > 0,
    ensures
        framed(s, frame_len).len() == s.len() / frame_len,
        forall|i: int|
            0 <= i < framed(s, frame_len).len() ==> (#[trigger] framed(s, frame_len)[i]).len()
                == frame_len,
        framed(s, frame_len).flatten() == s.take(s.len() - s.len() % frame_len),
        s.len() % frame_len == 0 ==> framed(s, frame_len).flatten() == s,
{
    let frames = framed(s, frame_len);
    lemma_frames_fit(s.len(), frame_len);
    assert forall|i: int| 0 <= i < frames.len() implies (#[trigger] frames[i]).len()
        == frame_len by {
        lemma_frame_bounds(s.len(), frame_len, i);
    }
    lemma_prefix_of_frames(s, frame_len, frames.len());
    assert(frames.take(frames.len() as int) == frames);
    if s.len() % frame_len == 0 {
        assert(s.take(s.len() as int) == s);
    }
}

/// Frame `i` of a run of `len` samples lies inside the run.
pub proof fn lemma_frame_bounds(len: nat, frame_len: nat, i: int)
    requires
        frame_len > 0,
        0 <= i < frame_count(len, frame_len),
    ensures
        0 <= i * frame_len,
        i * frame_len + frame_len <= len,
        i * frame_len + frame_len == (i + 1) * frame_len,
{
    lemma_frames_fit(len, frame_len);
    let count = frame_count(len, frame_len) as int;
    assert(0 <= i * frame_len) by (nonlinear_arith)
        requires
            0 <= i,
            frame_len > 0,
    ;
    assert((i + 1) * frame_len <= count * frame_len) by (nonlinear_arith)
        requires
            i + 1 <= count,
            frame_len > 0,
    ;
    assert(i * frame_len + frame_len == (i + 1) * frame_len) by (nonlinear_arith);
}

/// The first `k` frames of `s`, put end to end, are the first
/// `k * frame_len` samples of `s`.
pub proof fn lemma_prefix_of_frames<T>(s: Seq<T>, frame_len: nat, k: nat)
    requires
        frame_len > 0,
        k <= frame_count(s.len(), frame_len),
    ensures
        framed(s, frame_len).take(k as int).flatten() == s.take((k * frame_len) as int),
    decreases k,
{
    let frames = framed(s, frame_len);
    if k == 0 {
        assert(frames.take(0).flatten() == Seq::<T>::empty());
        assert(s.take(0) == Seq::<T>::empty());
    } else {
        let j = (k - 1) as nat;
        lemma_prefix_of_frames(s, frame_len, j);
        lemma_frame_bounds(s.len(), frame_len, j as int);
        assert(frames.take(k as int) == frames.take(j as int).push(frames[j as int]));
        frames.take(j as int).lemma_flatten_push(frames[j as int]);
        let from = (j * frame_len) as int;
        assert(k * frame_len == from + frame_len) by (nonlinear_arith)
            requires
                k == j + 1,
                from == j * frame_len,
        ;
        assert(s.take(from) + s.subrange(from, from + frame_len) == s.take(from + frame_len));
    }
}

/// Cuts `samples` into frames of ten milliseconds at `profile`: whole
/// frames only, left to right, none overlapping. Samples after the last
/// whole frame are left out.
pub fn frame<T: Copy>(samples: &[T], profile: &StreamProfile) -> (frames: Vec<Vec<T>>)
    ensures
        views(frames@) == framed(samples@, profile.frame_len()),
{
    let n: usize = samples.len();
    let want: u64 = profile.frame_size();
    let mut frames: Vec<Vec<T>> = Vec::new();
    if want == 0 || want > n as u64 {
        proof {
            if want != 0 {
                lemma_fundamental_div_mod_converse(n as int, want as int, 0, n as int);
            }
            assert(views(frames@) == framed(samples@, profile.frame_len()));
        }
        return frames;
    }
    let len: usize = want as usize;
    let mut start: usize = 0;
    assert(frames@.len() * len == 0) by (nonlinear_arith)
        requires
            frames@.len() == 0,
    ;
    while n - start >= len
        invariant
            n == samples@.len(),
            len > 0,
            start <= n,
            start == frames@.len() * len,
            forall|i: int|
                0 <= i < frames@.len() ==> (#[trigger] frames@[i])@ == samples@.subrange(
                    i * len,
                    i * len + len,
                ),
        decreases n - start,
    {
        let piece: Vec<T> = slice_to_vec(slice_subrange(samples, start, start + len));
        proof {
            assert((frames@.len() + 1) * len == frames@.len() * len + len) by (nonlinear_arith);
        }
        frames.push(piece);
        start = start + len;
    }
    proof {
        lemma_fundamental_div_mod_converse(
            n as int,
            len as int,
            frames@.len() as int,
            (n - start) as int,
        );
        assert(views(frames@) == framed(samples@, profile.frame_len()));
    }
    frames
}

} // verus!
