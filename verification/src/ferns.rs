//! Simulated ferns: the plant structures that make up a fern, and the
//! terrarium that holds a collection of ferns and lets sunlight unfurl
//! their stems.

use vstd::prelude::*;
use std::time::Duration;

verus! {

/// The kinds of fern the simulation knows about.
pub enum FernType {
    Fiddlehead,
}

/// A stem: it holds the weight of the plant, and unfurls as the fern grows.
pub struct Stem {
    pub furled: bool,
}

/// A fern's set of stems.
pub type StemSet = Vec<Stem>;

/// A root: vascular tissue below ground.
pub struct Root {
    pub x: bool,
}

/// A fern's set of roots.
pub type RootSet = Vec<Root>;

/// A leaf: the site of photosynthesis.
pub struct Leaf {
    pub x: bool,
}

/// A whole fern: its roots and its stems.
pub struct Fern {
    pub roots: RootSet,
    pub stems: StemSet,
}

impl Fern {
    /// Every stem of the fern has unfurled.
    pub open spec fn spec_fully_unfurled(&self) -> bool {
        forall|i: int| 0 <= i < self.stems@.len() ==> !self.stems@[i].furled
    }

    /// Create a young fern of the given type: one furled stem, no roots
    /// yet.
    pub fn new(_type: FernType) -> (fern: Fern)
        ensures
            fern.roots@.len() == 0,
            fern.stems@.len() == 1,
            fern.stems@[0].furled,
    {
        let mut stems: Vec<Stem> = Vec::new();
        stems.push(Stem { furled: true });
        Fern { roots: Vec::new(), stems }
    }

    /// The fern still has a furled stem.
    pub fn is_furled(&self) -> (r: bool)
        ensures
            r == !self.spec_fully_unfurled(),
    {
        !self.is_fully_unfurled()
    }

    /// Every stem of the fern has unfurled.
    pub fn is_fully_unfurled(&self) -> (r: bool)
        ensures
            r == self.spec_fully_unfurled(),
    {
        let mut i: usize = 0;
        while i < self.stems.len()
            invariant
                i <= self.stems@.len(),
                forall|j: int| 0 <= j < i ==> !self.stems@[j].furled,
            decreases self.stems@.len() - i,
        {
            if self.stems[i].furled {
                return false;
            }
            i = i + 1;
        }
        true
    }

    /// Unfurl every stem of this fern.
    fn unfurl_all(&mut self)
        ensures
            final(self).roots == old(self).roots,
            final(self).stems@.len() == old(self).stems@.len(),
            final(self).spec_fully_unfurled(),
    {
        let mut i: usize = 0;
        while i < self.stems.len()
            invariant
                self.roots == old(self).roots,
                self.stems@.len() == old(self).stems@.len(),
                i <= self.stems@.len(),
                forall|j: int| 0 <= j < i ==> !self.stems@[j].furled,
            decreases self.stems@.len() - i,
        {
            self.stems[i] = Stem { furled: false };
            i = i + 1;
        }
    }
}

/// The path of nutrients from a root to a leaf.
pub struct VascularPath {
    pub from: bool,
    pub to: bool,
}

/// Create and return a `VascularPath` which represents the path of
/// nutrients from the given `Root` to the given `Leaf`.
pub fn trace_path(leaf: &Leaf, root: &Root) -> (p: VascularPath)
    ensures
        p.from == leaf.x,
        p.to == root.x,
{
    VascularPath { from: leaf.x, to: root.x }
}

/// A cell made by an adult fern, from which a whole new fern grows.
pub struct Sporangium;

/// The genetic material carried in a spore.
pub struct Gene;

/// The simulated universe: a collection of ferns.
pub struct Terrarium {
    ferns: Vec<Fern>,
}

impl View for Terrarium {
    type V = Seq<Fern>;

    /// The ferns in the terrarium, in order.
    closed spec fn view(&self) -> Seq<Fern> {
        self.ferns@
    }
}

impl Terrarium {
    /// Create a new empty terrarium.
    pub fn new() -> (t: Terrarium)
        ensures
            t@ == Seq::<Fern>::empty(),
    {
        Terrarium { ferns: Vec::new() }
    }

    /// Create a terrarium holding the given ferns, in order. Reading a
    /// terrarium file is the caller's business; this takes the ferns the
    /// file described.
    pub fn with_ferns(ferns: Vec<Fern>) -> (t: Terrarium)
        ensures
            t@ == ferns@,
    {
        Terrarium { ferns }
    }

    /// Get a reference to a fern inside the simulation.
    pub fn fern(&self, index: usize) -> (f: &Fern)
        requires
            index < self@.len(),
        ensures
            *f == self@[index as int],
    {
        &self.ferns[index]
    }

    /// Let the sun shine in and run the simulation for a given amount of
    /// time: every stem of every fern unfurls.
    #[allow(unused_variables)]
    pub fn apply_sunlight(&mut self, time: Duration)
        ensures
            final(self)@.len() == old(self)@.len(),
            forall|i: int| 0 <= i < final(self)@.len() ==> (
                #[trigger] final(self)@[i].roots == old(self)@[i].roots
                && final(self)@[i].stems@.len() == old(self)@[i].stems@.len()
                && final(self)@[i].spec_fully_unfurled()
            ),
    {
        let mut i: usize = 0;
        while i < self.ferns.len()
            invariant
                self.ferns@.len() == old(self)@.len(),
                i <= self.ferns@.len(),
                forall|j: int| i <= j < self.ferns@.len()
                    ==> self.ferns@[j] == old(self)@[j],
                forall|j: int| 0 <= j < i ==> (
                    #[trigger] self.ferns@[j].roots == old(self)@[j].roots
                    && self.ferns@[j].stems@.len() == old(self)@[j].stems@.len()
                    && self.ferns@[j].spec_fully_unfurled()
                ),
            decreases self.ferns@.len() - i,
        {
            self.ferns[i].unfurl_all();
            i = i + 1;
        }
    }
}

} // verus!
