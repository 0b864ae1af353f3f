use vstd::prelude::*;
use rand::rngs::StdRng;
use crate::config::Lidar;
use crate::random::draw_in;

verus! {

/// A Gaussian bump on the terrain. Lengths are in thousandths of a metre.
#[derive(Clone, Copy, Debug, PartialEq, Eq, Structural)]
pub struct Hill {
    pub center_x: i32,
    pub center_y: i32,
    pub height: i64,
    pub spread: i64,
}

/// Elevation field: a base level, a noise sample and a set of hills.
#[derive(Clone, Debug)]
pub struct TerrainModel {
    /// Midpoint of the z extent.
    pub base: i64,
    /// Distance from the midpoint to the top of the z extent.
    pub z_var: i64,
    pub hills: Vec<Hill>,
}

/// Lowest hill height: five metres.
pub const MIN_HILL_HEIGHT: i64 = 5000;
/// Lowest hill spread: thirty metres.
pub const MIN_HILL_SPREAD: i64 = 30000;
/// Extent per drawn hill: fifty metres.
pub const EXTENT_PER_HILL: i64 = 50000;
/// Fewest hills when the count is drawn.
pub const MIN_HILLS: i64 = 2;
/// Most hills when the count is drawn.
pub const MAX_HILLS: i64 = 65535;
/// Bound on the magnitude of a noise sample: one metre.
pub const NOISE_LIMIT: i64 = 1000;

/// `v` is drawn from `[lo, hi)`, or is `lo` where that range is empty.
pub open spec fn in_range_or_floor(v: int, lo: int, hi: int) -> bool {
    if lo < hi { lo <= v < hi } else { v == lo }
}

/// The smaller of the x and y widths.
pub open spec fn min_extent(c: Lidar) -> int {
    let w = c.xmax - c.xmin;
    let h = c.ymax - c.ymin;
    if w < h { w } else { h }
}

/// Exclusive upper bound of a drawn hill count.
pub open spec fn hill_count_limit(c: Lidar) -> int {
    let m = min_extent(c) / EXTENT_PER_HILL as int;
    if m > MAX_HILLS { MAX_HILLS as int } else { m }
}

/// Base level of the z extent.
pub open spec fn base_of(c: Lidar) -> int {
    c.zmin + (c.zmax - c.zmin) / 2
}

/// What a hill of configuration `c` satisfies.
pub open spec fn hill_fits(c: Lidar, h: Hill) -> bool {
    &&& c.xmin <= h.center_x < c.xmax
    &&& c.ymin <= h.center_y < c.ymax
    &&& in_range_or_floor(h.height as int, MIN_HILL_HEIGHT as int, c.zmax - base_of(c))
    &&& in_range_or_floor(h.spread as int, MIN_HILL_SPREAD as int, min_extent(c) / 2)
}

/// Sum of the hills' heights.
pub open spec fn sum_heights(h: Seq<Hill>) -> int
    decreases h.len(),
{
    if h.len() == 0 { 0 } else { sum_heights(h.drop_last()) + h.last().height }
}

/// Sum of a sequence of contributions.
pub open spec fn sum_of(s: Seq<i64>) -> int
    decreases s.len(),
{
    if s.len() == 0 { 0 } else { sum_of(s.drop_last()) + s.last() }
}

/// The elevation for a noise sample and the hills' contributions at a point.
pub open spec fn elevation_of(base: int, z_var: int, noise: int, bumps: Seq<i64>) -> int {
    base + noise + z_var + sum_of(bumps)
}

/// Terrain whose arithmetic stays in range.
pub open spec fn terrain_wf(t: TerrainModel) -> bool {
    &&& t.hills.len() <= MAX_HILLS
    &&& -0x8000_0000 <= t.base <= 0x7fff_ffff
    &&& 0 <= t.z_var <= 0x8000_0000
    &&& forall|i: int| 0 <= i < t.hills.len() ==> 0 <= #[trigger] t.hills[i].height <= 0x1_0000_0000
}

/// A model drawn for configuration `c` with `n` hills.
pub open spec fn terrain_for(c: Lidar, t: TerrainModel, n: int) -> bool {
    &&& terrain_wf(t)
    &&& t.base == base_of(c)
    &&& t.z_var == c.zmax - base_of(c)
    &&& t.hills.len() == n
    &&& forall|i: int| 0 <= i < t.hills.len() ==> hill_fits(c, #[trigger] t.hills[i])
}

/// Draws from `[lo, hi)`, or gives `lo` where that range is empty.
fn draw_or_floor(rng: &mut StdRng, lo: i64, hi: i64) -> (r: i64)
    requires
        lo < i64::MAX,
    ensures
        in_range_or_floor(r as int, lo as int, hi as int),
{
    if lo < hi {
        draw_in(rng, lo, hi - 1)
    } else {
        lo
    }
}

impl Lidar {
    /// Number of hills: the configured count, else a draw from
    /// `[2, hill_count_limit)`, or 2 where that range is empty.
    pub fn hill_count(&self, rng: &mut StdRng) -> (r: u16)
        requires
            self.xmin <= self.xmax,
            self.ymin <= self.ymax,
        ensures
            self.hills.is_some() ==> r == self.hills.unwrap(),
            self.hills.is_none() ==> in_range_or_floor(r as int, MIN_HILLS as int, hill_count_limit(*self)),
    {
        match self.hills {
            Some(n) => n,
            None => {
                let w = self.xmax as i64 - self.xmin as i64;
                let h = self.ymax as i64 - self.ymin as i64;
                let m = if w < h { w } else { h };
                let limit = if m / EXTENT_PER_HILL > MAX_HILLS { MAX_HILLS } else { m / EXTENT_PER_HILL };
                draw_or_floor(rng, MIN_HILLS, limit) as u16
            },
        }
    }

    /// Places `n` hills inside the extents.
    pub fn build_terrain(&self, rng: &mut StdRng, n: u16) -> (t: TerrainModel)
        requires
            self.xmin < self.xmax,
            self.ymin < self.ymax,
            self.zmin <= self.zmax,
        ensures
            terrain_for(*self, t, n as int),
    {
        let base = self.zmin as i64 + (self.zmax as i64 - self.zmin as i64) / 2;
        let z_var = self.zmax as i64 - base;
        let w = self.xmax as i64 - self.xmin as i64;
        let h = self.ymax as i64 - self.ymin as i64;
        let half = (if w < h { w } else { h }) / 2;
        let mut hills: Vec<Hill> = Vec::new();
        let mut i: u16 = 0;
        while i < n
            invariant
                i <= n,
                hills.len() == i,
                base == base_of(*self),
                z_var == self.zmax - base_of(*self),
                half == min_extent(*self) / 2,
                self.xmin < self.xmax,
                self.ymin < self.ymax,
                forall|k: int| 0 <= k < hills.len() ==> hill_fits(*self, #[trigger] hills[k]),
                forall|k: int| 0 <= k < hills.len() ==> 0 <= #[trigger] hills[k].height <= 0x1_0000_0000,
            decreases n - i,
        {
            let cx = draw_in(rng, self.xmin as i64, self.xmax as i64 - 1) as i32;
            let cy = draw_in(rng, self.ymin as i64, self.ymax as i64 - 1) as i32;
            let height = draw_or_floor(rng, MIN_HILL_HEIGHT, z_var);
            let spread = draw_or_floor(rng, MIN_HILL_SPREAD, half);
            hills.push(Hill { center_x: cx, center_y: cy, height, spread });
            i = i + 1;
        }
        TerrainModel { base, z_var, hills }
    }
}


/// Each contribution lies between zero and its hill's height.
pub open spec fn bumps_fit(hills: Seq<Hill>, bumps: Seq<i64>) -> bool {
    &&& bumps.len() == hills.len()
    &&& forall|i: int| 0 <= i < bumps.len() ==> 0 <= #[trigger] bumps[i] <= hills[i].height
}

pub(crate) proof fn lemma_sums_bounded(hills: Seq<Hill>, bumps: Seq<i64>)
    requires
        bumps_fit(hills, bumps),
        forall|i: int| 0 <= i < hills.len() ==> 0 <= #[trigger] hills[i].height <= 0x1_0000_0000,
    ensures
        0 <= sum_of(bumps) <= sum_heights(hills) <= hills.len() * 0x1_0000_0000,
    decreases hills.len(),
{
    if hills.len() > 0 {
        let h = hills.drop_last();
        let b = bumps.drop_last();
        assert(bumps_fit(h, b)) by {
            assert forall|i: int| 0 <= i < b.len() implies 0 <= #[trigger] b[i] <= h[i].height by {
                assert(b[i] == bumps[i] && h[i] == hills[i]);
            }
        }
        assert forall|i: int| 0 <= i < h.len() implies 0 <= #[trigger] h[i].height <= 0x1_0000_0000 by {
            assert(h[i] == hills[i]);
        }
        lemma_sums_bounded(h, b);
        assert(bumps.last() == bumps[bumps.len() - 1]);
    }
}

impl TerrainModel {
    /// Elevation at a point: the base level, plus the noise sample taken there,
    /// plus the spread above the base, plus each hill's contribution there.
    pub fn elevation(&self, noise: i64, bumps: &Vec<i64>) -> (r: i64)
        requires
            terrain_wf(*self),
            -NOISE_LIMIT <= noise <= NOISE_LIMIT,
            bumps_fit(self.hills@, bumps@),
        ensures
            r == elevation_of(self.base as int, self.z_var as int, noise as int, bumps@),
            self.base + self.z_var - NOISE_LIMIT <= r,
            r <= self.base + self.z_var + NOISE_LIMIT + sum_heights(self.hills@),
    {
        proof {
            lemma_sums_bounded(self.hills@, bumps@);
        }
        let mut acc: i64 = 0;
        let mut i: usize = 0;
        while i < bumps.len()
            invariant
                i <= bumps.len(),
                bumps_fit(self.hills@, bumps@),
                terrain_wf(*self),
                acc == sum_of(bumps@.take(i as int)),
                0 <= sum_of(bumps@.take(i as int)) <= i * 0x1_0000_0000,
                i <= MAX_HILLS,
            decreases bumps.len() - i,
        {
            proof {
                let t = bumps@.take(i as int + 1);
                assert(t.drop_last() =~= bumps@.take(i as int));
                assert(t.last() == bumps@[i as int]);
            }
            acc = acc + bumps[i];
            i = i + 1;
        }
        assert(bumps@.take(bumps.len() as int) =~= bumps@);
        self.base + noise + self.z_var + acc
    }
}


/// Elevation depends on nothing but the model, the noise sample and the hill
/// contributions: two results for the same inputs are the same.
pub proof fn lemma_elevation_deterministic(t: TerrainModel, noise: int, bumps: Seq<i64>, r1: int, r2: int)
    requires
        r1 == elevation_of(t.base as int, t.z_var as int, noise, bumps),
        r2 == elevation_of(t.base as int, t.z_var as int, noise, bumps),
    ensures
        r1 == r2,
{
}


proof fn lemma_sum_at_least_one(s: Seq<i64>, k: int)
    requires
        0 <= k < s.len(),
        forall|i: int| 0 <= i < s.len() ==> 0 <= #[trigger] s[i],
    ensures
        sum_of(s) >= s[k],
    decreases s.len(),
{
    let p = s.drop_last();
    assert forall|i: int| 0 <= i < p.len() implies 0 <= #[trigger] p[i] by {
        assert(p[i] == s[i]);
    }
    if k < s.len() - 1 {
        lemma_sum_at_least_one(p, k);
        assert(p[k] == s[k]);
    } else {
        lemma_sum_nonneg(p);
    }
}

proof fn lemma_sum_nonneg(s: Seq<i64>)
    requires
        forall|i: int| 0 <= i < s.len() ==> 0 <= #[trigger] s[i],
    ensures
        sum_of(s) >= 0,
    decreases s.len(),
{
    if s.len() > 0 {
        let p = s.drop_last();
        assert forall|i: int| 0 <= i < p.len() implies 0 <= #[trigger] p[i] by {
            assert(p[i] == s[i]);
        }
        lemma_sum_nonneg(p);
    }
}

/// Where a hill contributes its full height (at its centre), the elevation
/// exceeds the smooth field there by at least that height.
pub proof fn lemma_hill_center_rise(t: TerrainModel, noise: int, bumps: Seq<i64>, k: int)
    requires
        bumps_fit(t.hills@, bumps),
        0 <= k < t.hills.len(),
        bumps[k] == t.hills[k].height,
    ensures
        elevation_of(t.base as int, t.z_var as int, noise, bumps) >= t.base + noise + t.z_var + t.hills[k].height,
{
    assert forall|i: int| 0 <= i < bumps.len() implies 0 <= #[trigger] bumps[i] by {}
    lemma_sum_at_least_one(bumps, k);
}

} // verus!
