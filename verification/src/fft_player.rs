use vstd::prelude::*;

verus! {

/// Samples drained per spectral frame.
pub const FFT_WINDOW: usize = 1024;

/// Bound on the accumulation buffer: when decode runs ahead of the emission
/// cadence, the oldest samples are dropped so memory stays bounded and the
/// buffered audio stays fresh.
pub const FFT_BUFFER_CAP: usize = 32768;

/// The accumulation side of the spectral pipeline: decoded samples are pushed
/// in as they arrive and drained in fixed windows, one per emitted frame.
///
/// The spectral transform itself (bin count, windowing, magnitude scaling) is
/// the consumer's choice; this buffer only guarantees what a drained window
/// contains and that the buffer never outgrows its bound.
#[derive(Debug)]
pub struct FFTPlayer {
    buf: Vec<i16>,
}

impl View for FFTPlayer {
    type V = Seq<i16>;

    closed spec fn view(&self) -> Seq<i16> {
        self.buf@
    }
}

/// Copies the elements of `v` from `start` on into a fresh vector.
fn drop_front(v: &Vec<i16>, start: usize) -> (r: Vec<i16>)
    requires
        start <= v.len(),
    ensures
        r@ == v@.skip(start as int),
{
    let mut r: Vec<i16> = Vec::new();
    let mut j: usize = start;
    while j < v.len()
        invariant
            start <= j <= v.len(),
            r@ == v@.subrange(start as int, j as int),
        decreases v.len() - j,
    {
        r.push(v[j]);
        proof {
            assert(v@.subrange(start as int, j + 1) =~= v@.subrange(start as int, j as int).push(
                v@[j as int],
            ));
        }
        j += 1;
    }
    proof {
        assert(v@.subrange(start as int, v.len() as int) =~= v@.skip(start as int));
    }
    r
}

impl FFTPlayer {
    /// Well-formedness: the buffer never holds more than its bound.
    pub open spec fn wf(self) -> bool {
        self@.len() <= FFT_BUFFER_CAP
    }

    /// A fresh, empty buffer.
    pub fn new() -> (r: FFTPlayer)
        ensures
            r@ == Seq::<i16>::empty(),
            r.wf(),
    {
        FFTPlayer { buf: Vec::new() }
    }

    /// Appends freshly decoded samples. When the result would outgrow the
    /// bound, the oldest samples are dropped: the buffer afterwards holds
    /// exactly the newest `FFT_BUFFER_CAP` of the old contents followed by
    /// the new samples.
    pub fn push_data(&mut self, samples: &[i16])
        requires
            old(self).wf(),
            samples@.len() + old(self)@.len() <= usize::MAX,
        ensures
            final(self).wf(),
            ({
                let combined = old(self)@ + samples@;
                final(self)@ == (if combined.len() <= FFT_BUFFER_CAP {
                    combined
                } else {
                    combined.skip(combined.len() - FFT_BUFFER_CAP)
                })
            }),
    {
        let mut i: usize = 0;
        while i < samples.len()
            invariant
                i <= samples.len(),
                samples@.len() + old(self)@.len() <= usize::MAX,
                self@ == old(self)@ + samples@.take(i as int),
            decreases samples.len() - i,
        {
            let s = samples[i];
            self.buf.push(s);
            proof {
                assert(old(self)@ + samples@.take(i + 1) =~= (old(self)@ + samples@.take(
                    i as int,
                )).push(samples@[i as int]));
            }
            i += 1;
        }
        proof {
            assert(samples@.take(samples@.len() as int) =~= samples@);
        }
        if self.buf.len() > FFT_BUFFER_CAP {
            let excess = self.buf.len() - FFT_BUFFER_CAP;
            self.buf = drop_front(&self.buf, excess);
        }
    }

    /// True exactly when a full window is buffered and a frame can be read.
    pub fn has_data(&self) -> (r: bool)
        ensures
            r == (self@.len() >= FFT_WINDOW),
    {
        self.buf.len() >= FFT_WINDOW
    }

    /// Drains one window: returns the oldest `FFT_WINDOW` buffered samples
    /// and removes them, or returns nothing when no full window is buffered.
    pub fn read(&mut self) -> (r: Option<Vec<i16>>)
        ensures
            if old(self)@.len() >= FFT_WINDOW {
                &&& r matches Some(w) && w@ == old(self)@.take(FFT_WINDOW as int)
                &&& final(self)@ == old(self)@.skip(FFT_WINDOW as int)
            } else {
                &&& r is None
                &&& *final(self) == *old(self)
            },
    {
        if self.buf.len() >= FFT_WINDOW {
            let mut w: Vec<i16> = Vec::new();
            let mut i: usize = 0;
            while i < FFT_WINDOW
                invariant
                    i <= FFT_WINDOW,
                    FFT_WINDOW <= self.buf@.len(),
                    w@ == self.buf@.take(i as int),
                    self.buf@ == old(self)@,
                decreases FFT_WINDOW - i,
            {
                w.push(self.buf[i]);
                proof {
                    assert(self.buf@.take(i + 1) =~= self.buf@.take(i as int).push(
                        self.buf@[i as int],
                    ));
                }
                i += 1;
            }
            self.buf = drop_front(&self.buf, FFT_WINDOW);
            Some(w)
        } else {
            None
        }
    }
}

} // verus!
