use crate::parameter_manager::{FloatBits, ParameterManager, ParameterType};
use core::marker::PhantomData;
use vstd::prelude::*;

verus! {

#[derive(Clone, Copy, PartialEq, Eq, Debug, Structural)]
pub enum TrimmerError {
    /// The averaging buffer is not full yet.
    BufferLowError,
}

/// The samples kept after loading `value` into `window`: when the window
/// already holds `capacity` samples, the oldest one leaves.
pub open spec fn window_push(window: Seq<FloatBits>, value: FloatBits, capacity: nat) -> Seq<
    FloatBits,
> {
    if window.len() >= capacity {
        window.drop_first().push(value)
    } else {
        window.push(value)
    }
}

/// The samples kept after loading `values`, in order, into `start`.
pub open spec fn window_after(start: Seq<FloatBits>, values: Seq<FloatBits>, capacity: nat) -> Seq<
    FloatBits,
>
    decreases values.len(),
{
    if values.len() == 0 {
        start
    } else {
        window_push(window_after(start, values.drop_last(), capacity), values.last(), capacity)
    }
}

/// The window keeps the latest samples: after loading `values` into an empty
/// window, it holds the last `capacity` of them (all of them when there are
/// fewer), oldest first.
pub proof fn lemma_window_keeps_latest(values: Seq<FloatBits>, capacity: nat)
    requires
        capacity > 0,
    ensures
        window_after(Seq::empty(), values, capacity) == (if values.len() > capacity {
            values.skip(values.len() - capacity)
        } else {
            values
        }),
    decreases values.len(),
{
    if values.len() > 0 {
        let prefix = values.drop_last();
        lemma_window_keeps_latest(prefix, capacity);
        let before = window_after(Seq::empty(), prefix, capacity);
        if prefix.len() > capacity {
            assert(before.drop_first().push(values.last()) =~= values.skip(
                values.len() - capacity,
            ));
        } else if prefix.len() == capacity {
            assert(before.drop_first().push(values.last()) =~= values.skip(
                values.len() - capacity,
            ));
        } else {
            assert(before.push(values.last()) =~= values);
        }
    }
}

/// Averages the latest `N` samples of a plate angle into the trim parameter
/// `T`. The samples are bit patterns of single precision numbers; the mean is
/// computed by the caller from `full_window`.
pub struct Trimmer<T, const N: usize> {
    buffer: Vec<FloatBits>,
    marker: PhantomData<T>,
}

impl<T: ParameterType<ReturnType = FloatBits>, const N: usize> Trimmer<T, N> {
    /// The samples in the window, oldest first.
    pub closed spec fn samples(&self) -> Seq<FloatBits> {
        self.buffer@
    }

    /// The capacity is positive and the window fits in it.
    pub open spec fn well_formed(&self) -> bool {
        &&& N > 0
        &&& self.samples().len() <= N
    }

    /// An empty window; the capacity must be positive.
    pub fn new() -> (r: Self)
        requires
            N > 0,
        ensures
            r.well_formed(),
            r.samples() == Seq::<FloatBits>::empty(),
    {
        Trimmer { buffer: Vec::new(), marker: PhantomData }
    }

    /// The current value of the trim parameter `T`.
    pub fn get_trimming(&self, params: &ParameterManager) -> (r: FloatBits)
        ensures
            r == params.value_spec::<T>(),
    {
        params.get::<T>()
    }

    /// Adds a sample, dropping the oldest one when the window is full.
    pub fn load_value(&mut self, value: FloatBits)
        requires
            old(self).well_formed(),
        ensures
            final(self).well_formed(),
            final(self).samples() == window_push(old(self).samples(), value, N as nat),
    {
        if self.buffer.len() == N {
            let _ = self.buffer.remove(0);
        }
        self.buffer.push(value);
        assert(self.buffer@ =~= window_push(old(self).samples(), value, N as nat));
    }

    /// The samples to average, once the window is full.
    pub fn full_window(&self) -> (r: Result<&[FloatBits], TrimmerError>)
        requires
            self.well_formed(),
        ensures
            match r {
                Ok(window) => self.samples().len() == N && window@ == self.samples(),
                Err(e) => self.samples().len() < N && e == TrimmerError::BufferLowError,
            },
    {
        if self.buffer.len() == N {
            Ok(self.buffer.as_slice())
        } else {
            Err(TrimmerError::BufferLowError)
        }
    }

    /// Stores `mean`, the caller's mean of `full_window`, as the trim
    /// parameter `T` when the window is full; otherwise reports
    /// `BufferLowError` and changes nothing.
    pub fn save_trimming(
        &mut self,
        params: &mut ParameterManager,
        mean: FloatBits,
    ) -> (r: Result<(), TrimmerError>)
        requires
            old(self).well_formed(),
        ensures
            final(self).samples() == old(self).samples(),
            r is Ok <==> old(self).samples().len() == N,
            r is Ok ==> final(params).words_spec() == old(params).words_spec().update(
                T::slot(),
                mean.bits,
            ),
            r is Err ==> r == Err::<(), TrimmerError>(TrimmerError::BufferLowError),
            r is Err ==> final(params).words_spec() == old(params).words_spec(),
    {
        if self.buffer.len() == N {
            params.set::<T>(mean);
            Ok(())
        } else {
            Err(TrimmerError::BufferLowError)
        }
    }

    /// Empties the window.
    pub fn flush_buffer(&mut self)
        requires
            old(self).well_formed(),
        ensures
            final(self).well_formed(),
            final(self).samples() == Seq::<FloatBits>::empty(),
    {
        self.buffer = Vec::new();
    }
}

} // verus!
