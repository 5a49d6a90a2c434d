//! The GBA's sound sample FIFO: up to 32 signed samples, newest at the
//! front; samples leave from the back into a buffer of played notes
use std::collections::VecDeque;
use vstd::prelude::*;

verus! {

/// The most samples a FIFO holds
pub const FIFO_CAPACITY: usize = 32;

pub struct Fifo {
    data: VecDeque<i8>,
    sound_buffer: Vec<i8>,
    pub reset_flag: bool,
}

/// The mathematical state of a `Fifo`
pub ghost struct FifoView {
    /// Waiting samples, newest first
    pub data: Seq<i8>,
    /// Samples taken out of the queue, oldest first
    pub sound_buffer: Seq<i8>,
    pub reset_flag: bool,
}

impl View for Fifo {
    type V = FifoView;

    closed spec fn view(&self) -> FifoView {
        FifoView { data: self.data@, sound_buffer: self.sound_buffer@, reset_flag: self.reset_flag }
    }
}

impl FifoView {
    /// The queue after pushing a sample: when full, the oldest is dropped
    pub open spec fn pushed(self, d: i8) -> Seq<i8> {
        seq![d] + (if self.data.len() >= FIFO_CAPACITY {
            self.data.drop_last()
        } else {
            self.data
        })
    }
}

impl Fifo {
    /// Never more than 32 samples wait
    pub open spec fn wf(&self) -> bool {
        self@.data.len() <= FIFO_CAPACITY
    }

    pub fn new() -> (f: Fifo)
        ensures
            f.wf(),
            f@ == (FifoView { data: Seq::empty(), sound_buffer: Seq::empty(), reset_flag: false }),
    {
        Fifo { data: VecDeque::with_capacity(32), sound_buffer: Vec::new(), reset_flag: false }
    }

    /// Adds a sample at the front, dropping the oldest when 32 are waiting
    pub fn push(&mut self, data: i8)
        requires
            old(self).wf(),
        ensures
            final(self).wf(),
            final(self)@ == (FifoView { data: old(self)@.pushed(data), ..old(self)@ }),
    {
        if self.data.len() >= 32 {
            self.data.pop_back();
        }
        self.data.push_front(data);
    }

    /// Empties the queue and the buffer, and raises the reset flag
    pub fn reset(&mut self)
        ensures
            final(self).wf(),
            final(self)@ == (FifoView {
                data: Seq::empty(),
                sound_buffer: Seq::empty(),
                reset_flag: true,
            }),
    {
        self.reset_flag = true;
        self.data.clear();
        self.sound_buffer.clear();
    }

    /// The samples taken out so far
    pub fn get_current_data(&self) -> (r: &[i8])
        ensures
            r@ == self@.sound_buffer,
    {
        self.sound_buffer.as_slice()
    }

    /// Moves the oldest waiting sample, if any, to the buffer
    pub fn inc_note(&mut self)
        requires
            old(self).wf(),
        ensures
            final(self).wf(),
            final(self)@ == (if old(self)@.data.len() > 0 {
                FifoView {
                    data: old(self)@.data.drop_last(),
                    sound_buffer: old(self)@.sound_buffer.push(old(self)@.data.last()),
                    ..old(self)@
                }
            } else {
                old(self)@
            }),
    {
        if let Some(d) = self.data.pop_back() {
            self.sound_buffer.push(d);
        }
    }

    /// Whether half the queue or more is free
    pub fn ready_for_more_data(&self) -> (r: bool)
        ensures
            r == (self@.data.len() <= 16),
    {
        self.data.len() <= 16
    }

    pub fn clear_sound_buffer(&mut self)
        ensures
            final(self)@ == (FifoView { sound_buffer: Seq::empty(), ..old(self)@ }),
            final(self).wf() == old(self).wf(),
    {
        self.sound_buffer.clear();
    }
}

/// A FIFO never holds more than 32 samples, and a pushed sample is at its
/// front
pub proof fn lemma_push_bounded(f: FifoView, d: i8)
    requires
        f.data.len() <= FIFO_CAPACITY,
    ensures
        f.pushed(d).len() <= FIFO_CAPACITY,
        f.pushed(d)[0] == d,
        f.data.len() < FIFO_CAPACITY ==> f.pushed(d).len() == f.data.len() + 1,
{
}

} // verus!
