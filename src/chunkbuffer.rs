use vstd::prelude::*;

verus! {

/// Which of the two backing slots a cursor or flag refers to.
#[derive(PartialEq, Eq, Structural, Clone, Copy)]
enum Chunk {
    A,
    B,
    Neither,
}

/// The samples still waiting in the active slot after `s` is pushed onto
/// `partial`, with frames of `size` samples.
pub open spec fn push_partial<T>(size: nat, partial: Seq<T>, s: Seq<T>) -> Seq<T> {
    let room = size - partial.len();
    if s.len() < room {
        partial + s
    } else if s.len() == room || s.len() >= size {
        Seq::empty()
    } else {
        s.skip(room)
    }
}

/// The completed frame (if any) after `s` is pushed: a run that completes a
/// frame replaces an unconsumed one; a run of a whole frame or more keeps
/// only its last `size` samples.
pub open spec fn push_ready<T>(size: nat, ready: Option<Seq<T>>, partial: Seq<T>, s: Seq<T>) -> Option<Seq<T>> {
    let room = size - partial.len();
    if s.len() < room {
        ready
    } else if s.len() == room {
        Some(partial + s)
    } else if s.len() >= size {
        Some(s.skip(s.len() - size))
    } else {
        Some(partial + s.take(room))
    }
}

/// Frames handed out and samples left over when `runs` are pushed one after
/// another into an empty buffer and every completed frame is popped right
/// after the push that completed it.
pub open spec fn feed<T>(size: nat, runs: Seq<Seq<T>>) -> (Seq<Seq<T>>, Seq<T>)
    decreases runs.len(),
{
    if runs.len() == 0 {
        (Seq::empty(), Seq::empty())
    } else {
        let (frames, partial) = feed(size, runs.drop_last());
        let s = runs.last();
        let ready = push_ready(size, None, partial, s);
        let frames2 = if ready is Some {
            frames.push(ready.unwrap())
        } else {
            frames
        };
        (frames2, push_partial(size, partial, s))
    }
}

/// No run discards samples: each is shorter than a frame, or is exactly one
/// frame and starts on a frame boundary.
pub open spec fn lossless_runs<T>(size: nat, runs: Seq<Seq<T>>) -> bool {
    forall|i: int|
        0 <= i < runs.len() ==> (#[trigger] runs[i]).len() < size || (runs[i].len() == size
            && runs.take(i).flatten().len() as int % (size as int) == 0)
}

proof fn lemma_feed_keeps_samples<T>(size: nat, runs: Seq<Seq<T>>)
    requires
        size > 0,
        lossless_runs(size, runs),
    ensures
        feed(size, runs).0.flatten_alt() + feed(size, runs).1 == runs.flatten_alt(),
        feed(size, runs).1.len() < size,
        feed(size, runs).0.flatten_alt().len() == feed(size, runs).0.len() * size,
        forall|j: int|
            0 <= j < feed(size, runs).0.len() ==> (#[trigger] feed(size, runs).0[j]).len() == size,
    decreases runs.len(),
{
    if runs.len() > 0 {
        let prev = runs.drop_last();
        assert forall|i: int| 0 <= i < prev.len() implies (#[trigger] prev[i]).len() < size || (
        prev[i].len() == size && prev.take(i).flatten().len() as int % (size as int) == 0) by {
            assert(prev.take(i) =~= runs.take(i));
            assert(runs[i] == prev[i]);
        }
        lemma_feed_keeps_samples(size, prev);
        let (frames, partial) = feed(size, prev);
        let s = runs.last();
        let n = runs.len() - 1;
        assert(runs.take(n) =~= prev);
        prev.lemma_flatten_and_flatten_alt_are_equivalent();
        assert(runs[n] == s);
        vstd::arithmetic::div_mod::lemma_fundamental_div_mod_converse(
            prev.flatten_alt().len() as int,
            size as int,
            frames.len() as int,
            partial.len() as int,
        );
        let room = size - partial.len();
        assert(runs.flatten_alt() == prev.flatten_alt() + s);
        if s.len() < room {
            assert(feed(size, runs).0 == frames);
            assert(frames.flatten_alt() + (partial + s) =~= runs.flatten_alt());
        } else if s.len() == room {
            let f2 = frames.push(partial + s);
            assert(f2.drop_last() =~= frames);
            assert(f2.flatten_alt() == frames.flatten_alt() + (partial + s));
            assert(f2.flatten_alt() + Seq::<T>::empty() =~= runs.flatten_alt());
            assert(f2.len() * size == frames.len() * size + size) by (nonlinear_arith)
                requires f2.len() == frames.len() + 1;
        } else {
            assert(s.len() < size);
            let f2 = frames.push(partial + s.take(room as int));
            assert(f2.drop_last() =~= frames);
            assert(f2.flatten_alt() == frames.flatten_alt() + (partial + s.take(room as int)));
            assert(f2.flatten_alt() + s.skip(room as int) =~= runs.flatten_alt());
            assert(f2.len() * size == frames.len() * size + size) by (nonlinear_arith)
                requires f2.len() == frames.len() + 1;
        }
    }
}

/// Pushing runs that discard nothing, and popping each frame as soon as it is
/// complete, hands out frames whose concatenation followed by the samples
/// still buffered is exactly the input. When the input's length is a multiple
/// of the frame size, exactly `length / size` frames come out, nothing is left
/// over, and the frames concatenated reproduce the input.
pub proof fn lemma_frames_reproduce_input<T>(size: nat, runs: Seq<Seq<T>>)
    requires
        size > 0,
        lossless_runs(size, runs),
    ensures
        feed(size, runs).0.flatten() + feed(size, runs).1 == runs.flatten(),
        forall|j: int|
            0 <= j < feed(size, runs).0.len() ==> (#[trigger] feed(size, runs).0[j]).len() == size,
        runs.flatten().len() as int % (size as int) == 0 ==> {
            &&& feed(size, runs).0.len() == runs.flatten().len() as int / (size as int)
            &&& feed(size, runs).1.len() == 0
            &&& feed(size, runs).0.flatten() == runs.flatten()
        },
{
    lemma_feed_keeps_samples(size, runs);
    let (frames, partial) = feed(size, runs);
    frames.lemma_flatten_and_flatten_alt_are_equivalent();
    runs.lemma_flatten_and_flatten_alt_are_equivalent();
    vstd::arithmetic::div_mod::lemma_fundamental_div_mod_converse(
        runs.flatten().len() as int,
        size as int,
        frames.len() as int,
        partial.len() as int,
    );
    if runs.flatten().len() as int % (size as int) == 0 {
        assert(frames.flatten() + partial =~= frames.flatten());
    }
}

/// A run longer than a frame completes a frame made of its last `size`
/// samples, whatever was buffered before, and leaves the active slot empty.
pub proof fn lemma_long_run_keeps_tail<T>(size: nat, ready: Option<Seq<T>>, partial: Seq<T>, s: Seq<T>)
    requires
        partial.len() < size,
        s.len() > size,
    ensures
        push_ready(size, ready, partial, s) == Some(s.skip(s.len() - size)),
        push_partial(size, partial, s) == Seq::<T>::empty(),
{
}

/// A buffer that collects samples in two fixed-size slots and hands out one
/// full slot at a time without copying it.
pub struct ChunkBuffer<T> {
    chunk_a: Vec<T>,
    chunk_b: Vec<T>,
    chunk_size: usize,
    current_chunk: Chunk,
    current_pos: usize,
    filled_chunk: Chunk,
}

impl<T: Copy> ChunkBuffer<T> {
    /// Number of samples in one frame.
    pub closed spec fn frame_size(&self) -> nat {
        self.chunk_size as nat
    }

    /// The completed, not yet consumed frame, if there is one.
    pub closed spec fn ready(&self) -> Option<Seq<T>> {
        match self.filled_chunk {
            Chunk::A => Some(self.chunk_a@),
            Chunk::B => Some(self.chunk_b@),
            Chunk::Neither => None,
        }
    }

    /// The samples written into the active slot so far.
    pub closed spec fn partial(&self) -> Seq<T> {
        match self.current_chunk {
            Chunk::A => self.chunk_a@,
            _ => self.chunk_b@,
        }
    }

    pub closed spec fn wf(&self) -> bool {
        &&& self.chunk_size > 0
        &&& self.current_chunk != Chunk::Neither
        &&& self.filled_chunk != self.current_chunk
        &&& self.current_pos as nat == self.partial().len()
        &&& self.current_pos < self.chunk_size
        &&& self.ready() is Some ==> self.ready().unwrap().len() == self.chunk_size
    }

    /// Creates a buffer whose frames hold `size` samples.
    pub fn new(size: usize) -> (r: ChunkBuffer<T>)
        requires
            size > 0,
        ensures
            r.wf(),
            r.frame_size() == size,
            r.ready() is None,
            r.partial() == Seq::<T>::empty(),
    {
        ChunkBuffer {
            chunk_a: Vec::with_capacity(size),
            chunk_b: Vec::with_capacity(size),
            chunk_size: size,
            current_chunk: Chunk::A,
            current_pos: 0,
            filled_chunk: Chunk::Neither,
        }
    }

    /// Whether a completed frame is waiting to be taken.
    pub fn full(&self) -> (r: bool)
        requires
            self.wf(),
        ensures
            r == (self.ready() is Some),
    {
        self.filled_chunk != Chunk::Neither
    }

    /// Takes the completed frame, leaving a fresh empty slot in its place.
    pub fn pop(&mut self) -> (r: Option<Vec<T>>)
        requires
            old(self).wf(),
        ensures
            final(self).wf(),
            final(self).frame_size() == old(self).frame_size(),
            final(self).partial() == old(self).partial(),
            final(self).ready() is None,
            r is Some <==> old(self).ready() is Some,
            r is Some ==> r.unwrap()@ == old(self).ready().unwrap(),
    {
        let mut fresh: Vec<T> = Vec::with_capacity(self.chunk_size);
        match self.filled_chunk {
            Chunk::A => {
                core::mem::swap(&mut self.chunk_a, &mut fresh);
                self.filled_chunk = Chunk::Neither;
                Some(fresh)
            },
            Chunk::B => {
                core::mem::swap(&mut self.chunk_b, &mut fresh);
                self.filled_chunk = Chunk::Neither;
                Some(fresh)
            },
            Chunk::Neither => None,
        }
    }

    /// Appends `slice[from..to]` to `v`.
    fn append_range(v: &mut Vec<T>, slice: &[T], from: usize, to: usize)
        requires
            from <= to <= slice@.len(),
        ensures
            final(v)@ == old(v)@ + slice@.subrange(from as int, to as int),
    {
        let mut i = from;
        while i < to
            invariant
                from <= i <= to <= slice@.len(),
                v@ == old(v)@ + slice@.subrange(from as int, i as int),
            decreases to - i,
        {
            v.push(slice[i]);
            proof {
                assert(slice@.subrange(from as int, i + 1) =~= slice@.subrange(from as int, i as int).push(slice@[i as int]));
            }
            i = i + 1;
        }
    }

    /// Pushes a run of samples. A run that fits goes into the active slot; one
    /// that overflows it completes the active slot and seeds the other; one of
    /// a whole frame or more keeps only its last frame's worth of samples.
    pub fn push_slice(&mut self, slice: &[T])
        requires
            old(self).wf(),
        ensures
            final(self).wf(),
            final(self).frame_size() == old(self).frame_size(),
            final(self).partial() == push_partial(old(self).frame_size(), old(self).partial(), slice@),
            final(self).ready() == push_ready(old(self).frame_size(), old(self).ready(), old(self).partial(), slice@),
    {
        let ghost s = slice@;
        let ghost p = self.partial();
        let remaining = self.chunk_size - self.current_pos;
        let len = slice.len();
        if len <= remaining {
            match self.current_chunk {
                Chunk::A => Self::append_range(&mut self.chunk_a, slice, 0, len),
                _ => Self::append_range(&mut self.chunk_b, slice, 0, len),
            }
            assert(s.subrange(0, len as int) =~= s);
            self.current_pos = self.current_pos + len;
            if self.current_pos == self.chunk_size {
                self.current_pos = 0;
                self.filled_chunk = self.current_chunk;
                match self.current_chunk {
                    Chunk::A => {
                        self.chunk_b.clear();
                        self.current_chunk = Chunk::B;
                    },
                    _ => {
                        self.chunk_a.clear();
                        self.current_chunk = Chunk::A;
                    },
                }
            }
        } else if len >= self.chunk_size {
            self.chunk_a.clear();
            Self::append_range(&mut self.chunk_a, slice, len - self.chunk_size, len);
            self.chunk_b.clear();
            assert(s.subrange(len - self.chunk_size, len as int) =~= s.skip(len - self.chunk_size));
            self.filled_chunk = Chunk::A;
            self.current_chunk = Chunk::B;
            self.current_pos = 0;
        } else {
            assert(s.subrange(0, remaining as int) =~= s.take(remaining as int));
            assert(s.subrange(remaining as int, len as int) =~= s.skip(remaining as int));
            match self.current_chunk {
                Chunk::A => {
                    Self::append_range(&mut self.chunk_a, slice, 0, remaining);
                    self.chunk_b.clear();
                    Self::append_range(&mut self.chunk_b, slice, remaining, len);
                    self.filled_chunk = Chunk::A;
                    self.current_chunk = Chunk::B;
                },
                _ => {
                    Self::append_range(&mut self.chunk_b, slice, 0, remaining);
                    self.chunk_a.clear();
                    Self::append_range(&mut self.chunk_a, slice, remaining, len);
                    self.filled_chunk = Chunk::B;
                    self.current_chunk = Chunk::A;
                },
            }
            self.current_pos = len - remaining;
        }
    }
}

} // verus!
