use vstd::prelude::*;
use rand::rngs::StdRng;
use crate::config::{Lidar, GROUND_SCALE};
use crate::format::{return_limit, Capabilities};
use crate::random::{draw_in, draw_ratio};

verus! {

/// The classes a point can be given.
#[derive(Clone, Copy, Debug, PartialEq, Eq, Structural)]
pub enum Classification {
    CreatedNeverClassified,
    Unclassified,
    Ground,
    LowVegetation,
    MediumVegetation,
    HighVegetation,
    Building,
    LowPoint,
    ModelKeyPoint,
    Water,
}

/// The standard class code of each class.
pub open spec fn class_code(c: Classification) -> u8 {
    match c {
        Classification::CreatedNeverClassified => 0,
        Classification::Unclassified => 1,
        Classification::Ground => 2,
        Classification::LowVegetation => 3,
        Classification::MediumVegetation => 4,
        Classification::HighVegetation => 5,
        Classification::Building => 6,
        Classification::LowPoint => 7,
        Classification::ModelKeyPoint => 8,
        Classification::Water => 9,
    }
}

/// The class at position `i` of the fallback class list.
pub open spec fn class_at(i: int) -> Classification {
    if i == 0 {
        Classification::CreatedNeverClassified
    } else if i == 1 {
        Classification::Unclassified
    } else if i == 2 {
        Classification::Ground
    } else if i == 3 {
        Classification::LowVegetation
    } else if i == 4 {
        Classification::MediumVegetation
    } else if i == 5 {
        Classification::HighVegetation
    } else if i == 6 {
        Classification::Building
    } else if i == 7 {
        Classification::LowPoint
    } else if i == 8 {
        Classification::ModelKeyPoint
    } else {
        Classification::Water
    }
}

impl Classification {
    /// The standard class code.
    pub fn code(&self) -> (r: u8)
        ensures
            r == class_code(*self),
    {
        match self {
            Classification::CreatedNeverClassified => 0,
            Classification::Unclassified => 1,
            Classification::Ground => 2,
            Classification::LowVegetation => 3,
            Classification::MediumVegetation => 4,
            Classification::HighVegetation => 5,
            Classification::Building => 6,
            Classification::LowPoint => 7,
            Classification::ModelKeyPoint => 8,
            Classification::Water => 9,
        }
    }
}

/// The fallback class list, in order.
pub fn class_vec() -> (r: Vec<Classification>)
    ensures
        r.len() == 10,
        forall|i: int| 0 <= i < 10 ==> r[i] == class_at(i),
{
    vec![
        Classification::CreatedNeverClassified,
        Classification::Unclassified,
        Classification::Ground,
        Classification::LowVegetation,
        Classification::MediumVegetation,
        Classification::HighVegetation,
        Classification::Building,
        Classification::LowPoint,
        Classification::ModelKeyPoint,
        Classification::Water,
    ]
}

/// Direction of the scanner mirror.
#[derive(Clone, Copy, Debug, PartialEq, Eq, Structural)]
pub enum ScanDirection {
    LeftToRight,
    RightToLeft,
}

/// Red, green and blue samples.
#[derive(Clone, Copy, Debug, PartialEq, Eq, Structural)]
pub struct Color {
    pub red: u16,
    pub green: u16,
    pub blue: u16,
}

/// Waveform packet descriptor. The last four fields hold the bit patterns of
/// binary32 values.
#[derive(Clone, Copy, Debug, PartialEq, Eq, Structural)]
pub struct Waveform {
    pub wave_packet_descriptor_index: u8,
    pub byte_offset_to_waveform_data: u64,
    pub waveform_packet_size_in_bytes: u32,
    pub return_point_waveform_location: u32,
    pub x_t: u32,
    pub y_t: u32,
    pub z_t: u32,
}

/// One point. Coordinates are in thousandths of a metre; the scan angle in
/// units of 0.006 degree; `gps_time` holds the bit pattern of a binary64 value.
#[derive(Clone, Debug)]
pub struct PointRecord {
    pub x: i32,
    pub y: i32,
    pub z: i32,
    pub intensity: u16,
    pub return_number: u8,
    pub number_of_returns: u8,
    pub scan_direction: ScanDirection,
    pub is_edge_of_flight_line: bool,
    pub classification: Classification,
    pub is_synthetic: bool,
    pub is_key_point: bool,
    pub is_withheld: bool,
    pub is_overlap: bool,
    pub scanner_channel: u8,
    pub scan_angle: i16,
    pub user_data: u8,
    pub point_source_id: u16,
    pub gps_time: Option<u64>,
    pub color: Option<Color>,
    pub waveform: Option<Waveform>,
    pub nir: Option<u16>,
    pub extra_bytes: Vec<u8>,
}

/// Source id written on every point.
pub const POINT_SOURCE_ID: u16 = 42069;
/// Largest scan angle magnitude: ninety degrees in units of 0.006 degree.
pub const MAX_SCAN_ANGLE: i16 = 15000;
/// Bit patterns below this one are the binary64 values in `[0, 1)`.
pub const UNIT_F64_BITS: u64 = 0x3FF0_0000_0000_0000;
/// Bit patterns below this one are the binary32 values in `[0, 1)`.
pub const UNIT_F32_BITS: u32 = 0x3F80_0000;

/// The optional fields are there exactly when the format declares them.
pub open spec fn fields_match(c: Capabilities, r: PointRecord) -> bool {
    &&& r.gps_time.is_some() == c.has_gps_time
    &&& r.color.is_some() == c.has_color
    &&& r.nir.is_some() == c.has_nir
    &&& r.waveform.is_some() == c.has_waveform
    &&& r.extra_bytes.len() == c.extra_bytes
}

/// What every record drawn for format `c` at `(x, y, z)` satisfies.
pub open spec fn record_fits(cfg: Lidar, c: Capabilities, r: PointRecord, x: i32, y: i32, z: i32) -> bool {
    &&& r.x == x && r.y == y && r.z == z
    &&& r.return_number <= r.number_of_returns
    &&& r.number_of_returns < return_limit(c)
    &&& r.scanner_channel == 0
    &&& r.point_source_id == POINT_SOURCE_ID
    &&& -MAX_SCAN_ANGLE <= r.scan_angle <= MAX_SCAN_ANGLE
    &&& fields_match(c, r)
    &&& (r.gps_time matches Some(t) ==> t < UNIT_F64_BITS)
    &&& cfg.ground == GROUND_SCALE ==> r.classification == Classification::Ground
}

/// Chance of an edge, synthetic, key-point or withheld flag: one in a thousand.
pub const RARE_FLAG_DENOMINATOR: u32 = 1000;
/// Chance of the overlap flag: one in ten.
pub const OVERLAP_DENOMINATOR: u32 = 10;

/// The values drawn for one point, before the format decides which optional
/// ones the record keeps.
#[derive(Clone, Debug)]
pub struct PointDraws {
    pub intensity: u16,
    pub return_number: u8,
    pub number_of_returns: u8,
    pub right_to_left: bool,
    pub is_edge_of_flight_line: bool,
    /// The Ground draw came out true.
    pub is_ground: bool,
    /// Index into the fallback class list, used when `is_ground` is false.
    pub class_pick: usize,
    pub is_synthetic: bool,
    pub is_key_point: bool,
    pub is_withheld: bool,
    pub is_overlap: bool,
    pub scan_angle: i16,
    pub user_data: u8,
    pub gps_time: u64,
    pub color: Color,
    pub waveform: Waveform,
    pub nir: u16,
    pub extra_bytes: Vec<u8>,
}

/// Ground where the Ground draw came out true, else the picked class.
pub open spec fn class_of(is_ground: bool, pick: int) -> Classification {
    if is_ground { Classification::Ground } else { class_at(pick) }
}

/// The class that a Ground draw and a pick from the fallback list give.
pub fn classify(is_ground: bool, pick: usize) -> (r: Classification)
    requires
        pick < 10,
    ensures
        r == class_of(is_ground, pick as int),
{
    if is_ground {
        Classification::Ground
    } else {
        let classes = class_vec();
        classes[pick]
    }
}

/// The record that draws `d` give at `(x, y, z)` for format `c`.
pub open spec fn record_of(c: Capabilities, x: i32, y: i32, z: i32, d: PointDraws) -> PointRecord {
    PointRecord {
        x,
        y,
        z,
        intensity: d.intensity,
        return_number: d.return_number,
        number_of_returns: d.number_of_returns,
        scan_direction: if d.right_to_left { ScanDirection::RightToLeft } else { ScanDirection::LeftToRight },
        is_edge_of_flight_line: d.is_edge_of_flight_line,
        classification: class_of(d.is_ground, d.class_pick as int),
        is_synthetic: d.is_synthetic,
        is_key_point: d.is_key_point,
        is_withheld: d.is_withheld,
        is_overlap: d.is_overlap,
        scanner_channel: 0,
        scan_angle: d.scan_angle,
        user_data: d.user_data,
        point_source_id: POINT_SOURCE_ID,
        gps_time: if c.has_gps_time { Some(d.gps_time) } else { None },
        color: if c.has_color { Some(d.color) } else { None },
        waveform: if c.has_waveform { Some(d.waveform) } else { None },
        nir: if c.has_nir { Some(d.nir) } else { None },
        extra_bytes: d.extra_bytes,
    }
}

/// Draws that a record of format `c` can be built from.
pub open spec fn draws_fit(c: Capabilities, d: PointDraws) -> bool {
    &&& d.return_number <= d.number_of_returns
    &&& d.number_of_returns < return_limit(c)
    &&& d.class_pick < 10
    &&& -MAX_SCAN_ANGLE <= d.scan_angle <= MAX_SCAN_ANGLE
    &&& d.gps_time < UNIT_F64_BITS
    &&& d.extra_bytes.len() == c.extra_bytes
}

/// Builds the record of draws `d` at `(x, y, z)`: fixed scanner channel and
/// source id, and the optional fields that format `c` declares.
pub fn assemble(c: &Capabilities, x: i32, y: i32, z: i32, d: PointDraws) -> (r: PointRecord)
    requires
        d.class_pick < 10,
    ensures
        r == record_of(*c, x, y, z, d),
{
    let classification = classify(d.is_ground, d.class_pick);
    PointRecord {
        x,
        y,
        z,
        intensity: d.intensity,
        return_number: d.return_number,
        number_of_returns: d.number_of_returns,
        scan_direction: if d.right_to_left { ScanDirection::RightToLeft } else { ScanDirection::LeftToRight },
        is_edge_of_flight_line: d.is_edge_of_flight_line,
        classification,
        is_synthetic: d.is_synthetic,
        is_key_point: d.is_key_point,
        is_withheld: d.is_withheld,
        is_overlap: d.is_overlap,
        scanner_channel: 0,
        scan_angle: d.scan_angle,
        user_data: d.user_data,
        point_source_id: POINT_SOURCE_ID,
        gps_time: if c.has_gps_time { Some(d.gps_time) } else { None },
        color: if c.has_color { Some(d.color) } else { None },
        waveform: if c.has_waveform { Some(d.waveform) } else { None },
        nir: if c.has_nir { Some(d.nir) } else { None },
        extra_bytes: d.extra_bytes,
    }
}

/// A record built from fitting draws fits its format.
pub proof fn lemma_assembled_record_fits(cfg: Lidar, c: Capabilities, x: i32, y: i32, z: i32, d: PointDraws)
    requires
        draws_fit(c, d),
        cfg.ground == GROUND_SCALE ==> d.is_ground,
    ensures
        record_fits(cfg, c, record_of(c, x, y, z, d), x, y, z),
{
}

fn draw_byte(rng: &mut StdRng) -> (r: u8) {
    draw_in(rng, 0, 255) as u8
}

fn draw_u16(rng: &mut StdRng) -> (r: u16) {
    draw_in(rng, 0, 0xffff) as u16
}

fn draw_u32(rng: &mut StdRng) -> (r: u32) {
    draw_in(rng, 0, 0xffff_ffff) as u32
}

/// A value from the whole 64-bit range, from two 32-bit halves.
fn draw_u64(rng: &mut StdRng) -> (r: u64) {
    let hi = draw_u32(rng) as u64;
    let lo = draw_u32(rng) as u64;
    hi * 0x1_0000_0000 + lo
}

fn draw_unit_f32_bits(rng: &mut StdRng) -> (r: u32)
    ensures
        r < UNIT_F32_BITS,
{
    draw_in(rng, 0, UNIT_F32_BITS as i64 - 1) as u32
}

/// Draws every value a point needs: Ground with probability `cfg.ground` in a
/// million, a uniform pick from the fallback class list, the rare flags at one
/// in a thousand and the overlap flag at one in ten.
pub fn draw_point(cfg: &Lidar, caps: &Capabilities, rng: &mut StdRng) -> (d: PointDraws)
    requires
        cfg.ground <= GROUND_SCALE,
    ensures
        draws_fit(*caps, d),
        cfg.ground == GROUND_SCALE ==> d.is_ground,
        cfg.ground == 0 ==> !d.is_ground,
{
    let limit: i64 = if caps.is_extended { 16 } else { 8 };
    let intensity = draw_u16(rng);
    let return_number = draw_in(rng, 0, limit - 1);
    let number_of_returns = draw_in(rng, return_number, limit - 1);
    let right_to_left = draw_ratio(rng, 1, 2);
    let is_edge_of_flight_line = draw_ratio(rng, 1, RARE_FLAG_DENOMINATOR);
    let is_ground = draw_ratio(rng, cfg.ground, GROUND_SCALE);
    let class_pick = draw_in(rng, 0, 9) as usize;
    let is_synthetic = draw_ratio(rng, 1, RARE_FLAG_DENOMINATOR);
    let is_key_point = draw_ratio(rng, 1, RARE_FLAG_DENOMINATOR);
    let is_withheld = draw_ratio(rng, 1, RARE_FLAG_DENOMINATOR);
    let is_overlap = draw_ratio(rng, 1, OVERLAP_DENOMINATOR);
    let scan_angle = draw_in(rng, -(MAX_SCAN_ANGLE as i64), MAX_SCAN_ANGLE as i64) as i16;
    let user_data = draw_byte(rng);
    let gps_time = draw_in(rng, 0, UNIT_F64_BITS as i64 - 1) as u64;
    let color = Color { red: draw_u16(rng), green: draw_u16(rng), blue: draw_u16(rng) };
    let waveform = Waveform {
        wave_packet_descriptor_index: draw_byte(rng),
        byte_offset_to_waveform_data: draw_u64(rng),
        waveform_packet_size_in_bytes: draw_u32(rng),
        return_point_waveform_location: draw_unit_f32_bits(rng),
        x_t: draw_unit_f32_bits(rng),
        y_t: draw_unit_f32_bits(rng),
        z_t: draw_unit_f32_bits(rng),
    };
    let nir = draw_u16(rng);
    let mut extra_bytes: Vec<u8> = Vec::new();
    let mut k: u16 = 0;
    while k < caps.extra_bytes
        invariant
            k <= caps.extra_bytes,
            extra_bytes.len() == k,
        decreases caps.extra_bytes - k,
    {
        extra_bytes.push(draw_byte(rng));
        k = k + 1;
    }
    PointDraws {
        intensity,
        return_number: return_number as u8,
        number_of_returns: number_of_returns as u8,
        right_to_left,
        is_edge_of_flight_line,
        is_ground,
        class_pick,
        is_synthetic,
        is_key_point,
        is_withheld,
        is_overlap,
        scan_angle,
        user_data,
        gps_time,
        color,
        waveform,
        nir,
        extra_bytes,
    }
}

/// Draws every attribute of a point at `(x, y, z)`: the record that the drawn
/// values give.
pub fn synthesize(cfg: &Lidar, caps: &Capabilities, rng: &mut StdRng, x: i32, y: i32, z: i32) -> (r: PointRecord)
    requires
        cfg.ground <= GROUND_SCALE,
    ensures
        record_fits(*cfg, *caps, r, x, y, z),
        exists|d: PointDraws| draws_fit(*caps, d) && r == record_of(*caps, x, y, z, d)
            && (cfg.ground == GROUND_SCALE ==> d.is_ground) && (cfg.ground == 0 ==> !d.is_ground),
{
    let d = draw_point(cfg, caps, rng);
    let ghost dg = d;
    proof {
        lemma_assembled_record_fits(*cfg, *caps, x, y, z, d);
    }
    let r = assemble(caps, x, y, z, d);
    assert(draws_fit(*caps, dg) && r == record_of(*caps, x, y, z, dg));
    r
}

} // verus!
