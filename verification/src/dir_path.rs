use vstd::prelude::*;

verus! {

/// Mathematical model of a directory path: whether it is absolute, and
/// its segments from the outermost directory inward.
pub ghost struct PathModel {
    pub absolute: bool,
    pub segments: Seq<Seq<char>>,
}

/// The empty relative path, which names no directory at all.
pub open spec fn path_is_empty(p: PathModel) -> bool {
    !p.absolute && p.segments.len() == 0
}

/// A directory path held as plain values: an absoluteness flag and the
/// list of path segments, outermost first.  The empty relative path has
/// no segments and `absolute` false; a filesystem root has no segments
/// and `absolute` true.
pub struct DirPath {
    pub absolute: bool,
    pub segments: Vec<String>,
}

impl View for DirPath {
    type V = PathModel;

    open spec fn view(&self) -> PathModel {
        PathModel { absolute: self.absolute, segments: self.segments.deep_view() }
    }
}

impl DirPath {
    /// How many segments the path has.
    pub fn depth(&self) -> (n: usize)
        ensures
            n == self@.segments.len(),
    {
        self.segments.len()
    }

    /// Whether this is the empty relative path.
    pub fn is_empty(&self) -> (b: bool)
        ensures
            b == path_is_empty(self@),
    {
        !self.absolute && self.segments.len() == 0
    }

    /// The ancestor made of the first `n` segments: the path itself for
    /// `n` equal to the depth, and the root or the empty relative path
    /// for `n` equal to zero.
    pub fn ancestor(&self, n: usize) -> (r: DirPath)
        requires
            n <= self@.segments.len(),
        ensures
            r@.absolute == self@.absolute,
            r@.segments == self@.segments.take(n as int),
    {
        let mut segs: Vec<String> = Vec::new();
        let mut i: usize = 0;
        while i < n
            invariant
                i <= n,
                n <= self.segments.len(),
                segs.len() == i,
                forall|j: int| 0 <= j < i ==> segs@[j] == self.segments@[j],
            decreases n - i,
        {
            segs.push(self.segments[i].clone());
            i += 1;
        }
        let r = DirPath { absolute: self.absolute, segments: segs };
        proof {
            assert(r@.segments =~= self@.segments.take(n as int));
        }
        r
    }
}

} // verus!
