use vstd::prelude::*;

use crate::ReduceError;

verus! {

/// A residue's coordinates as three 64-bit codes. The library never
/// interprets a code; the caller that owns the arithmetic reads each as the
/// bit pattern of one double-precision coordinate.
#[derive(Debug, Clone, Copy, PartialEq, Eq, Structural)]
pub struct BitsPoint {
    pub x: u64,
    pub y: u64,
    pub z: u64,
}

/// The one arithmetic step the reduction needs next. The caller performs it
/// and hands the resulting code back; the reducer decides, the caller
/// computes.
#[derive(Debug, Clone, Copy, PartialEq, Eq, Structural)]
pub enum Query {
    /// Square of the distance from `prev` to `cur`, and that square added
    /// to the running total `total`.
    StepNorm { prev: BitsPoint, cur: BitsPoint, total: u64 },
    /// The total divided by the full residue count `count`.
    MeanOfTotal { total: u64, count: usize },
    /// The square root of the mean.
    RootOfMean { mean: u64 },
    /// Every coordinate of `p` divided by the average step length `length`.
    Scale { p: BitsPoint, length: u64 },
    /// Nothing: both output sequences are complete.
    Done,
}

/// The reduction over a residue sequence, step by step: consecutive squared
/// distances, their running total, the mean over the residue count, its
/// root, and the residues scaled by that root, in residue order.
pub struct Reducer {
    /// The residue sequence under reduction.
    pub points: Vec<BitsPoint>,
    /// Squared distances of consecutive residues, one per answered step.
    pub distances: Vec<u64>,
    /// The running total of the squared distances; the all-zero code at the
    /// start, which is the zero the arithmetic begins from.
    pub total: u64,
    /// The mean squared distance, once answered.
    pub mean: Option<u64>,
    /// The average step length, once answered.
    pub length: Option<u64>,
    /// The scaled residues, one per answered scale step.
    pub normalized: Vec<BitsPoint>,
}

impl Reducer {
    /// The states the constructor makes and the answer methods keep.
    pub open spec fn wf(self) -> bool {
        self.points@.len() >= 1 && self.distances@.len() <= self.points@.len() - 1
            && self.normalized@.len() <= self.points@.len() && (self.mean is Some
            ==> self.distances@.len() == self.points@.len() - 1) && (self.length is Some
            ==> self.mean is Some) && (self.normalized@.len() > 0 ==> self.length is Some)
    }

    /// The step owed next: distances first, then the mean over the full
    /// residue count, then its root, then one scaled residue at a time.
    pub open spec fn spec_query(self) -> Query {
        if self.points@.len() >= 1 && self.distances@.len() < self.points@.len() - 1 {
            Query::StepNorm {
                prev: self.points@[self.distances@.len() as int],
                cur: self.points@[self.distances@.len() as int + 1],
                total: self.total,
            }
        } else if self.mean is None {
            Query::MeanOfTotal { total: self.total, count: self.points@.len() as usize }
        } else if self.length is None {
            Query::RootOfMean { mean: self.mean->0 }
        } else if self.normalized@.len() < self.points@.len() {
            Query::Scale { p: self.points@[self.normalized@.len() as int], length: self.length->0 }
        } else {
            Query::Done
        }
    }

    /// Start a reduction; an empty residue sequence has no mean and is
    /// refused.
    pub fn new(points: Vec<BitsPoint>) -> (r: Result<Reducer, ReduceError>)
        ensures
            points@.len() == 0 ==> r == Err::<Reducer, ReduceError>(ReduceError::EmptySequence),
            points@.len() > 0 ==> (r matches Ok(red) && red.points@ == points@ && red.distances@
                =~= Seq::<u64>::empty() && red.total == 0 && red.mean is None && red.length is None
                && red.normalized@ =~= Seq::<BitsPoint>::empty() && red.wf()),
    {
        if points.len() == 0 {
            Err(ReduceError::EmptySequence)
        } else {
            Ok(
                Reducer {
                    points,
                    distances: Vec::new(),
                    total: 0,
                    mean: None,
                    length: None,
                    normalized: Vec::new(),
                },
            )
        }
    }

    /// The step owed next.
    pub fn next_query(&self) -> (q: Query)
        ensures
            q == self.spec_query(),
    {
        if self.points.len() >= 1 && self.distances.len() < self.points.len() - 1 {
            Query::StepNorm {
                prev: self.points[self.distances.len()],
                cur: self.points[self.distances.len() + 1],
                total: self.total,
            }
        } else if self.mean.is_none() {
            Query::MeanOfTotal { total: self.total, count: self.points.len() }
        } else if self.length.is_none() {
            Query::RootOfMean { mean: self.mean.unwrap() }
        } else if self.normalized.len() < self.points.len() {
            Query::Scale { p: self.points[self.normalized.len()], length: self.length.unwrap() }
        } else {
            Query::Done
        }
    }

    /// Take the answer to a `StepNorm` query: the squared distance `d` and
    /// the new running total. Anywhere else the state is left alone.
    pub fn answer_step(&mut self, d: u64, new_total: u64)
        ensures
            (old(self).spec_query() is StepNorm) ==> (final(self).distances@
                == old(self).distances@.push(d) && final(self).total == new_total && final(self).points@ == old(self).points@ && final(self).mean == old(self).mean && final(self).length == old(self).length && final(self).normalized@ == old(self).normalized@),
            !(old(self).spec_query() is StepNorm) ==> *final(self) == *old(self),
            old(self).wf() ==> final(self).wf(),
    {
        if self.points.len() >= 1 && self.distances.len() < self.points.len() - 1 {
            self.distances.push(d);
            self.total = new_total;
        }
    }

    /// Take the answer to a `MeanOfTotal` query. Anywhere else the state is
    /// left alone.
    pub fn answer_mean(&mut self, mean: u64)
        ensures
            (old(self).spec_query() is MeanOfTotal) ==> (final(self).mean
                == Some(mean) && final(self).points@ == old(self).points@ && final(self).distances@ == old(self).distances@ && final(self).total == old(self).total && final(self).length == old(self).length && final(self).normalized@ == old(self).normalized@),
            !(old(self).spec_query() is MeanOfTotal) ==> *final(self) == *old(self),
            old(self).wf() ==> final(self).wf(),
    {
        if !(self.points.len() >= 1 && self.distances.len() < self.points.len() - 1)
            && self.mean.is_none() {
            self.mean = Some(mean);
        }
    }

    /// Take the answer to a `RootOfMean` query. Anywhere else the state is
    /// left alone.
    pub fn answer_root(&mut self, length: u64)
        ensures
            (old(self).spec_query() is RootOfMean) ==> (final(self).length
                == Some(length) && final(self).points@ == old(self).points@ && final(self).distances@ == old(self).distances@ && final(self).total == old(self).total && final(self).mean == old(self).mean && final(self).normalized@ == old(self).normalized@),
            !(old(self).spec_query() is RootOfMean) ==> *final(self) == *old(self),
            old(self).wf() ==> final(self).wf(),
    {
        if !(self.points.len() >= 1 && self.distances.len() < self.points.len() - 1)
            && self.mean.is_some() && self.length.is_none() {
            self.length = Some(length);
        }
    }

    /// Take the answer to a `Scale` query: the scaled residue, appended in
    /// residue order. Anywhere else the state is left alone.
    pub fn answer_scale(&mut self, scaled: BitsPoint)
        ensures
            (old(self).spec_query() is Scale) ==> (final(self).normalized@
                == old(self).normalized@.push(scaled) && final(self).points@ == old(self).points@
                && final(self).distances@ == old(self).distances@ && final(self).total == old(self).total && final(self).mean == old(self).mean && final(self).length == old(self).length),
            !(old(self).spec_query() is Scale) ==> *final(self) == *old(self),
            old(self).wf() ==> final(self).wf(),
    {
        if !(self.points.len() >= 1 && self.distances.len() < self.points.len() - 1)
            && self.mean.is_some() && self.length.is_some() && self.normalized.len()
            < self.points.len() {
            self.normalized.push(scaled);
        }
    }

    /// Hand the two output sequences out.
    pub fn outputs(self) -> (r: (Vec<u64>, Vec<BitsPoint>))
        ensures
            r.0@ == self.distances@,
            r.1@ == self.normalized@,
    {
        (self.distances, self.normalized)
    }
}

/// Law: the mean is asked for over the full residue count, not over the
/// number of distances.
pub proof fn lemma_mean_over_residue_count(r: Reducer)
    requires
        r.spec_query() is MeanOfTotal,
    ensures
        (r.spec_query() matches Query::MeanOfTotal { total, count } ==> count == r.points@.len()
            && total == r.total),
{
    broadcast use vstd::std_specs::vec::axiom_spec_len;

    assert(vstd::std_specs::vec::spec_vec_len(&r.points) == r.points@.len());
}

/// Law: a reduction the answer methods drove to `Done` from a constructed
/// state holds one distance fewer than it holds residues, and exactly one
/// scaled point per residue.
pub proof fn lemma_done_lengths(r: Reducer)
    requires
        r.wf(),
        r.spec_query() is Done,
    ensures
        r.distances@.len() == r.points@.len() - 1,
        r.normalized@.len() == r.points@.len(),
{
}

} // verus!
