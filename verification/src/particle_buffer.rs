//! Host-side buffers of per-particle attributes.
use vstd::prelude::*;

verus! {

/// A buffer of one value per particle, indexed by particle number.
#[derive(Debug, Clone)]
pub struct ParticleBuffer<T> {
    value: Vec<T>,
}

impl<T> ParticleBuffer<T> {
    /// The values of the buffer, in particle order.
    pub closed spec fn values_view(self) -> Seq<T> {
        self.value@
    }

    /// Creates a buffer from per-particle values.
    pub fn from_vec(value: Vec<T>) -> (buffer: Self)
        ensures
            buffer.values_view() == value@,
    {
        ParticleBuffer { value }
    }

    /// Returns the value of particle `pos[0]`, if there is such a particle.
    pub fn get(&self, pos: [usize; 1]) -> (r: Option<&T>)
        ensures
            pos[0] < self.values_view().len() ==> r == Some(&self.values_view()[pos[0] as int]),
            pos[0] >= self.values_view().len() ==> r is None,
    {
        let index = pos[0];
        if index < self.value.len() {
            Some(&self.value[index])
        } else {
            None
        }
    }

    /// Returns a mutable reference to the value of particle `pos[0]`, if there is such
    /// a particle.
    pub fn at_mut(&mut self, pos: [usize; 1]) -> (r: Option<&mut T>)
        ensures
            pos[0] < old(self).values_view().len() ==> {
                &&& r is Some
                &&& *r->0 == old(self).values_view()[pos[0] as int]
                &&& final(self).values_view() == old(self).values_view().update(
                    pos[0] as int,
                    *final(r->0),
                )
            },
            pos[0] >= old(self).values_view().len() ==> {
                &&& r is None
                &&& final(self).values_view() == old(self).values_view()
            },
    {
        let index = pos[0];
        if index < self.value.len() {
            Some(&mut self.value[index])
        } else {
            None
        }
    }

    /// Returns the shape of the buffer: the number of particles.
    pub fn shape(&self) -> (shape: [usize; 1])
        ensures
            shape[0] == self.values_view().len(),
    {
        [self.value.len()]
    }

    /// The values of the buffer, in particle order.
    pub fn values(&self) -> (values: &Vec<T>)
        ensures
            values@ == self.values_view(),
    {
        &self.value
    }

    /// Mutable access to the values of the buffer.
    pub fn values_mut(&mut self) -> (values: &mut Vec<T>)
        ensures
            values@ == old(self).values_view(),
            final(self).values_view() == final(values)@,
    {
        &mut self.value
    }
}

} // verus!
