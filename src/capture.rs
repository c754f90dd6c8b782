//! A window of fixed length, filled from the front of a stream of samples.
use vstd::prelude::*;

verus! {

/// Keeps the first `size` samples offered to it and ignores the rest.
pub struct CaptureWindow<T> {
    samples: Vec<T>,
    size: usize,
}

impl<T> CaptureWindow<T> {
    /// The samples kept so far, in the order they were offered.
    pub closed spec fn kept(self) -> Seq<T> {
        self.samples@
    }

    /// How many samples the window holds once complete.
    pub closed spec fn length(self) -> nat {
        self.size as nat
    }

    /// The window never holds more than its length.
    pub open spec fn wf(self) -> bool {
        self.kept().len() <= self.length()
    }

    /// An empty window for the first `size` samples of a stream.
    pub fn new(size: usize) -> (r: CaptureWindow<T>)
        ensures
            r.wf(),
            r.kept() == Seq::<T>::empty(),
            r.length() == size,
    {
        CaptureWindow { samples: Vec::new(), size }
    }

    /// How many samples the window holds once complete.
    pub fn size(&self) -> (r: usize)
        ensures
            r == self.length(),
    {
        self.size
    }

    /// Whether all `size` samples have been kept.
    pub fn is_complete(&self) -> (r: bool)
        requires
            self.wf(),
        ensures
            r == (self.kept().len() == self.length()),
    {
        self.samples.len() == self.size
    }

    /// Offers the next sample of the stream: it is kept while the window is not
    /// yet complete. Returns whether the window is complete afterwards.
    pub fn offer(&mut self, sample: T) -> (complete: bool)
        requires
            old(self).wf(),
        ensures
            final(self).wf(),
            final(self).length() == old(self).length(),
            old(self).kept().len() < old(self).length() ==> final(self).kept() == old(self).kept().push(sample),
            old(self).kept().len() == old(self).length() ==> final(self).kept() == old(self).kept(),
            complete == (final(self).kept().len() == final(self).length()),
    {
        if self.samples.len() < self.size {
            self.samples.push(sample);
        }
        self.samples.len() == self.size
    }

    /// The samples kept so far, in the order they were offered.
    pub fn samples(&self) -> (r: &Vec<T>)
        ensures
            r@ == self.kept(),
    {
        &self.samples
    }

    /// Gives up the window, handing back the samples kept.
    pub fn into_samples(self) -> (r: Vec<T>)
        ensures
            r@ == self.kept(),
    {
        self.samples
    }
}

} // verus!
