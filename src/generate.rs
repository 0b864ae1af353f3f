use vstd::prelude::*;
use rand::rngs::StdRng;
use crate::config::{config_error, valid_config, Lidar, GROUND_SCALE};
use crate::encoder::{bounds_of, encodable, stream_bytes, ContainerHeader, Encoder, EncoderState};
use crate::error::GenError;
use crate::format::{caps_of, record_len, Capabilities};
use crate::random::draw_in;
use crate::synth::{record_fits, synthesize, PointRecord};
use crate::terrain::{
    bumps_fit, elevation_of, sum_heights, terrain_for, TerrainModel, NOISE_LIMIT,
};

verus! {

/// Where a point lies, in thousandths of a metre.
#[derive(Clone, Copy, Debug, PartialEq, Eq, Structural)]
pub struct Position {
    pub x: i32,
    pub y: i32,
    pub z: i32,
}

/// `p` lies inside the horizontal extents of `c`.
pub open spec fn in_plan(c: Lidar, p: Position) -> bool {
    c.xmin <= p.x <= c.xmax && c.ymin <= p.y <= c.ymax
}

/// `p` lies inside all three extents of `c`.
pub open spec fn in_box(c: Lidar, p: Position) -> bool {
    in_plan(c, p) && c.zmin <= p.z <= c.zmax
}

/// The records of a run: one per position, each drawn at its position.
pub open spec fn run_records(c: Lidar, ps: Seq<Position>, rs: Seq<PointRecord>) -> bool {
    &&& rs.len() == ps.len()
    &&& forall|i: int|
        0 <= i < rs.len() ==> record_fits(c, caps_of(c.las_format), #[trigger] rs[i], ps[i].x, ps[i].y, ps[i].z)
}

/// The header of a container of configuration `c` that holds `rs`.
pub open spec fn header_for(c: Lidar, rs: Seq<PointRecord>) -> ContainerHeader {
    ContainerHeader {
        version_major: 1,
        version_minor: c.las_version,
        point_format: c.las_format,
        record_length: record_len(caps_of(c.las_format)) as u16,
        point_count: rs.len() as u64,
        bounds: bounds_of(rs),
    }
}

/// The header and byte stream of a completed run over `ps`: one record drawn
/// at each position, the stream of those records, and a header counting them.
pub open spec fn run_result(c: Lidar, ps: Seq<Position>, h: ContainerHeader, bytes: Seq<u8>) -> bool {
    exists|rs: Seq<PointRecord>| {
        &&& run_records(c, ps, rs)
        &&& bytes == stream_bytes(caps_of(c.las_format), rs)
        &&& h == header_for(c, rs)
    }
}

impl Lidar {
    /// Draws `num_points` positions uniformly inside the extents.
    pub fn draw_positions(&self, rng: &mut StdRng) -> (ps: Vec<Position>)
        requires
            self.xmin <= self.xmax,
            self.ymin <= self.ymax,
            self.zmin <= self.zmax,
        ensures
            ps.len() == self.num_points,
            forall|i: int| 0 <= i < ps.len() ==> in_box(*self, #[trigger] ps[i]),
    {
        let mut ps: Vec<Position> = Vec::new();
        let mut i: usize = 0;
        while i < self.num_points
            invariant
                i <= self.num_points,
                ps.len() == i,
                self.xmin <= self.xmax,
                self.ymin <= self.ymax,
                self.zmin <= self.zmax,
                forall|k: int| 0 <= k < ps.len() ==> in_box(*self, #[trigger] ps[k]),
            decreases self.num_points - i,
        {
            let x = draw_in(rng, self.xmin as i64, self.xmax as i64) as i32;
            let y = draw_in(rng, self.ymin as i64, self.ymax as i64) as i32;
            let z = draw_in(rng, self.zmin as i64, self.zmax as i64) as i32;
            ps.push(Position { x, y, z });
            i = i + 1;
        }
        ps
    }

    /// Draws one record at each position, in order.
    pub fn synthesize_all(&self, caps: &Capabilities, rng: &mut StdRng, positions: &[Position]) -> (rs: Vec<PointRecord>)
        requires
            self.ground <= GROUND_SCALE,
            *caps == caps_of(self.las_format),
        ensures
            run_records(*self, positions@, rs@),
    {
        let mut rs: Vec<PointRecord> = Vec::new();
        let mut i: usize = 0;
        while i < positions.len()
            invariant
                i <= positions.len(),
                self.ground <= GROUND_SCALE,
                *caps == caps_of(self.las_format),
                run_records(*self, positions@.take(i as int), rs@),
            decreases positions.len() - i,
        {
            let p = positions[i];
            let rec = synthesize(self, caps, rng, p.x, p.y, p.z);
            let ghost before = rs@;
            rs.push(rec);
            proof {
                let ps = positions@.take(i as int + 1);
                assert forall|k: int| 0 <= k < rs@.len() implies record_fits(
                    *self,
                    caps_of(self.las_format),
                    #[trigger] rs@[k],
                    ps[k].x,
                    ps[k].y,
                    ps[k].z,
                ) by {
                    if k < i {
                        assert(rs@[k] == before[k]);
                        assert(ps[k] == positions@.take(i as int)[k]);
                    }
                }
            }
            i = i + 1;
        }
        assert(positions@.take(i as int) =~= positions@);
        rs
    }

    /// Encodes `records` in order and completes the header. Fails exactly when
    /// the point format or the version is invalid.
    pub fn encode_all(&self, records: &Vec<PointRecord>) -> (r: Result<(ContainerHeader, Vec<u8>), GenError>)
        requires
            records.len() < u64::MAX,
            self.las_format <= 10 ==> forall|i: int|
                0 <= i < records.len() ==> encodable(caps_of(self.las_format), #[trigger] records[i]),
        ensures
            self.las_format > 10 ==> r == Err::<(ContainerHeader, Vec<u8>), GenError>(GenError::InvalidPointFormat),
            self.las_format <= 10 && self.las_version > 4 ==> r == Err::<(ContainerHeader, Vec<u8>), GenError>(
                GenError::InvalidFormatVersion,
            ),
            self.las_format <= 10 && self.las_version <= 4 ==> (r matches Ok((h, b))
                && b@ == stream_bytes(caps_of(self.las_format), records@)
                && h == header_for(*self, records@)),
    {
        let mut enc = match Encoder::new(self.las_version, self.las_format) {
            Ok(e) => e,
            Err(e) => return Err(e),
        };
        let mut i: usize = 0;
        while i < records.len()
            invariant
                i <= records.len(),
                records.len() < u64::MAX,
                self.las_format <= 10,
                forall|k: int| 0 <= k < records.len() ==> encodable(caps_of(self.las_format), #[trigger] records[k]),
                enc.wf(),
                enc.format() == self.las_format,
                enc.minor() == self.las_version,
                enc.state() != EncoderState::Finalized,
                enc.records() == records@.take(i as int),
            decreases records.len() - i,
        {
            let _ = enc.write(&records[i]);
            assert(records@.take(i as int + 1) =~= records@.take(i as int).push(records@[i as int]));
            i = i + 1;
        }
        assert(records@.take(i as int) =~= records@);
        let header = match enc.finalize() {
            Ok(h) => h,
            Err(e) => return Err(e),
        };
        let bytes = enc.stream().clone();
        Ok((header, bytes))
    }

    /// Draws one record per position and encodes them all. Fails, with the
    /// first broken rule, exactly when the configuration is invalid.
    pub fn generate(&self, rng: &mut StdRng, positions: &Vec<Position>) -> (r: Result<(ContainerHeader, Vec<u8>), GenError>)
        requires
            positions.len() < u64::MAX,
        ensures
            !valid_config(*self) ==> r == Err::<(ContainerHeader, Vec<u8>), GenError>(config_error(*self).unwrap()),
            valid_config(*self) ==> (r matches Ok((h, b)) && run_result(*self, positions@, h, b@)
                && h.point_count == positions.len()),
    {
        let caps = match self.validate() {
            Ok(c) => c,
            Err(e) => return Err(e),
        };
        let records = self.synthesize_all(&caps, rng, positions.as_slice());
        proof {
            assert forall|i: int| 0 <= i < records.len() implies encodable(caps_of(self.las_format), #[trigger] records[i]) by {
                assert(record_fits(*self, caps, records@[i], positions@[i].x, positions@[i].y, positions@[i].z));
            }
        }
        let r = self.encode_all(&records);
        assert(run_records(*self, positions@, records@));
        r
    }
}

/// Sum of a sequence of counts.
pub open spec fn total(s: Seq<usize>) -> int
    decreases s.len(),
{
    if s.len() == 0 { 0 } else { total(s.drop_last()) + s.last() }
}

/// Splits `n` points among `workers`: the shares add up to `n`, whatever the
/// number of workers, and no two differ by more than one.
pub fn worker_shares(n: usize, workers: usize) -> (s: Vec<usize>)
    requires
        workers > 0,
    ensures
        s.len() == workers,
        total(s@) == n,
        forall|i: int| 0 <= i < s.len() ==> #[trigger] s[i] == n / workers || s[i] == n / workers + 1,
{
    let q = n / workers;
    let r = n % workers;
    proof {
        assert(n == workers * q + r) by (nonlinear_arith)
            requires q == n / workers, r == n % workers, workers > 0;
    }
    let mut s: Vec<usize> = Vec::new();
    let mut i: usize = 0;
    while i < workers
        invariant
            i <= workers,
            s.len() == i,
            q == n / workers,
            r < workers,
            n == workers * q + r,
            total(s@) == i * q + (if i < r { i as int } else { r as int }),
            forall|k: int| 0 <= k < s.len() ==> #[trigger] s[k] == q || s[k] == q + 1,
        decreases workers - i,
    {
        proof {
            assert(i * q + q <= workers * q) by (nonlinear_arith)
                requires i < workers, q >= 0;
            assert((i + 1) * q == i * q + q) by (nonlinear_arith);
        }
        let share = if i < r { q + 1 } else { q };
        let ghost before = s@;
        s.push(share);
        assert(s@.drop_last() =~= before);
        i = i + 1;
    }
    s
}

/// A terrain elevation lies no more than the noise bound below the top of the
/// z extent, and no more than the noise bound plus the sum of the hill heights
/// above it; with a single hill that sum is the tallest hill's height.
pub proof fn lemma_elevation_in_range(c: Lidar, t: TerrainModel, n: int, noise: int, bumps: Seq<i64>)
    requires
        c.zmin <= c.zmax,
        terrain_for(c, t, n),
        -NOISE_LIMIT <= noise <= NOISE_LIMIT,
        bumps_fit(t.hills@, bumps),
    ensures
        c.zmax - NOISE_LIMIT <= elevation_of(t.base as int, t.z_var as int, noise, bumps),
        elevation_of(t.base as int, t.z_var as int, noise, bumps) <= c.zmax + NOISE_LIMIT + sum_heights(t.hills@),
        t.hills.len() == 1 ==> elevation_of(t.base as int, t.z_var as int, noise, bumps) <= c.zmax + NOISE_LIMIT + t.hills[0].height,
{
    crate::terrain::lemma_sums_bounded(t.hills@, bumps);
    if t.hills.len() == 1 {
        assert(t.hills@.drop_last().len() == 0);
        assert(sum_heights(t.hills@.drop_last()) == 0);
    }
}


proof fn lemma_stream_length(c: Lidar, ps: Seq<Position>, rs: Seq<PointRecord>)
    requires
        run_records(c, ps, rs),
    ensures
        stream_bytes(caps_of(c.las_format), rs).len() == rs.len() * record_len(caps_of(c.las_format)),
    decreases rs.len(),
{
    if rs.len() > 0 {
        let n = rs.len() - 1;
        assert(run_records(c, ps.take(n), rs.drop_last())) by {
            assert forall|i: int| 0 <= i < n implies record_fits(
                c,
                caps_of(c.las_format),
                #[trigger] rs.drop_last()[i],
                ps.take(n)[i].x,
                ps.take(n)[i].y,
                ps.take(n)[i].z,
            ) by {
                assert(rs.drop_last()[i] == rs[i]);
                assert(record_fits(c, caps_of(c.las_format), rs[i], ps[i].x, ps[i].y, ps[i].z));
            }
        }
        lemma_stream_length(c, ps.take(n), rs.drop_last());
        assert(record_fits(c, caps_of(c.las_format), rs[n], ps[n].x, ps[n].y, ps[n].z));
        crate::encoder::lemma_record_length(caps_of(c.las_format), rs.last());
        assert(n * record_len(caps_of(c.las_format)) + record_len(caps_of(c.las_format)) == rs.len()
            * record_len(caps_of(c.las_format))) by (nonlinear_arith)
            requires n == rs.len() - 1;
    }
}

/// A completed run over `ps` writes exactly one record per position: the
/// header counts them and the stream holds that many records of the format's
/// length.
pub proof fn lemma_run_writes_every_point(c: Lidar, ps: Seq<Position>, h: ContainerHeader, bytes: Seq<u8>)
    requires
        run_result(c, ps, h, bytes),
        ps.len() < u64::MAX,
    ensures
        h.point_count == ps.len(),
        bytes.len() == ps.len() * record_len(caps_of(c.las_format)),
{
    let rs = choose|rs: Seq<PointRecord>| {
        &&& run_records(c, ps, rs)
        &&& bytes == stream_bytes(caps_of(c.las_format), rs)
        &&& h == header_for(c, rs)
    };
    lemma_stream_length(c, ps, rs);
}

} // verus!
