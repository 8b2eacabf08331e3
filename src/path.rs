//! The path buffer.
use vstd::prelude::*;
use crate::scalar::Point;

verus! {

/// One segment command of a path.
#[derive(Clone, Copy, Debug, PartialEq, Eq, Structural)]
pub enum PathVerb {
    MoveTo(Point),
    LineTo(Point),
    QuadTo(Point, Point),
    CubicTo(Point, Point, Point),
    Close,
}

/// A vector path: its segment commands in order.
#[derive(Clone, Debug)]
pub struct Path {
    pub verbs: Vec<PathVerb>,
}

impl Path {
    /// An empty path.
    pub fn new() -> (r: Path)
        ensures
            r.verbs@ == Seq::<PathVerb>::empty(),
    {
        Path { verbs: Vec::new() }
    }

    /// Appends a segment command.
    pub fn push_verb(&mut self, v: PathVerb)
        ensures
            final(self).verbs@ == old(self).verbs@.push(v),
    {
        self.verbs.push(v);
    }

    /// A copy of this path.
    pub fn duplicate(&self) -> (r: Path)
        ensures
            r.verbs@ == self.verbs@,
    {
        let mut verbs: Vec<PathVerb> = Vec::new();
        let n = self.verbs.len();
        for i in 0..n
            invariant
                n == self.verbs@.len(),
                verbs@ == self.verbs@.subrange(0, i as int),
        {
            verbs.push(self.verbs[i]);
            proof {
                assert(verbs@ =~= self.verbs@.subrange(0, i + 1));
            }
        }
        proof {
            assert(verbs@ =~= self.verbs@);
        }
        Path { verbs }
    }
}

} // verus!
