//! Reuse of the colour conversion context while its parameters stay the same.
use vstd::prelude::*;

verus! {

/// Everything a colour conversion context is built for: source and target
/// dimensions and pixel formats.
#[derive(Clone, Copy, Debug, PartialEq, Eq, Structural)]
pub struct ScaleParams {
    pub src_width: usize,
    pub src_height: usize,
    pub src_format: i32,
    pub dst_width: usize,
    pub dst_height: usize,
    pub dst_format: i32,
}

/// The parameters of the conversion context currently built, if any, and how
/// many contexts have been built so far (saturating).
#[derive(Clone, Copy, Debug)]
pub struct ScalerCache {
    pub key: Option<ScaleParams>,
    pub builds: u64,
}

/// Whether a context built for `key` has to be replaced to serve `p`.
pub open spec fn needs_rebuild(key: Option<ScaleParams>, p: ScaleParams) -> bool {
    key != Some(p)
}

/// How many contexts are built when the requests `ps` are served in order,
/// starting from a context built for `key`.
pub open spec fn rebuild_count(key: Option<ScaleParams>, ps: Seq<ScaleParams>) -> nat
    decreases ps.len(),
{
    if ps.len() == 0 {
        0
    } else {
        (if needs_rebuild(key, ps[0]) { 1nat } else { 0nat }) + rebuild_count(
            Some(ps[0]),
            ps.drop_first(),
        )
    }
}

pub open spec fn saturating_inc(n: u64) -> u64 {
    if n == u64::MAX { n } else { (n + 1) as u64 }
}

impl ScalerCache {
    /// A cache holding no context.
    pub fn new() -> (r: ScalerCache)
        ensures
            r.key is None,
            r.builds == 0,
    {
        ScalerCache { key: None, builds: 0 }
    }

    /// Makes the cache serve `p`: says whether a new context must be built,
    /// which is the case exactly when the current one was built for other
    /// parameters or none exists.
    pub fn request(&mut self, p: ScaleParams) -> (rebuild: bool)
        ensures
            rebuild == needs_rebuild(old(self).key, p),
            (if rebuild { 1nat } else { 0nat }) == rebuild_count(old(self).key, seq![p]),
            final(self).key == Some(p),
            final(self).builds == if rebuild {
                saturating_inc(old(self).builds)
            } else {
                old(self).builds
            },
    {
        let rebuild = match self.key {
            Some(k) => k != p,
            None => true,
        };
        if rebuild {
            self.key = Some(p);
            if self.builds < u64::MAX {
                self.builds = self.builds + 1;
            }
        }
        proof {
            assert(seq![p].drop_first() =~= Seq::<ScaleParams>::empty());
            assert(rebuild_count(Some(p), seq![p].drop_first()) == 0);
            assert(rebuild_count(old(self).key, seq![p]) == (if needs_rebuild(old(self).key, p) { 1nat } else { 0nat }) + rebuild_count(Some(p), seq![p].drop_first()));
        }
        rebuild
    }
}

/// While the conversion parameters do not change, a context is built at most
/// once, whatever was built before.
pub proof fn lemma_same_params_build_once(key: Option<ScaleParams>, p: ScaleParams, ps: Seq<ScaleParams>)
    requires
        forall|i: int| 0 <= i < ps.len() ==> ps[i] == p,
    ensures
        rebuild_count(key, ps) <= 1,
        key == Some(p) ==> rebuild_count(key, ps) == 0,
    decreases ps.len(),
{
    if ps.len() > 0 {
        let rest = ps.drop_first();
        lemma_same_params_build_once(Some(p), p, rest);
    }
}

} // verus!
