use vstd::prelude::*;
use crate::error::GenError;
use crate::format::{caps_of, record_len, record_length, resolve_point_format, return_limit, Capabilities};
use crate::synth::{class_code, fields_match, PointRecord, ScanDirection, MAX_SCAN_ANGLE};

verus! {

/// Class code of overlapping points in the legacy formats.
pub const OVERLAP_CLASS: u8 = 12;

/// Little-endian bytes of a 16-bit value.
pub open spec fn le16(v: u16) -> Seq<u8> {
    seq![(v % 0x100) as u8, ((v / 0x100) % 0x100) as u8]
}

/// Little-endian bytes of a 32-bit value.
pub open spec fn le32(v: u32) -> Seq<u8> {
    le16((v % 0x1_0000) as u16) + le16((v / 0x1_0000) as u16)
}

/// Little-endian bytes of a 64-bit value.
pub open spec fn le64(v: u64) -> Seq<u8> {
    le32((v % 0x1_0000_0000) as u32) + le32((v / 0x1_0000_0000) as u32)
}

/// A flag as a bit.
pub open spec fn bit(b: bool) -> int {
    if b { 1 } else { 0 }
}

/// The scan direction as a bit: set for left to right.
pub open spec fn direction_bit(d: ScanDirection) -> int {
    match d {
        ScanDirection::LeftToRight => 1,
        ScanDirection::RightToLeft => 0,
    }
}

/// Scan angle in whole degrees, rounded toward zero.
pub open spec fn angle_degrees(a: i16) -> i8 {
    if a >= 0 {
        (a * 3 / 500) as i8
    } else {
        (-((-a) * 3 / 500)) as i8
    }
}

/// Return number, number of returns, scan direction and edge flag in one byte.
pub open spec fn legacy_returns(r: PointRecord) -> u8 {
    (r.return_number + 8 * r.number_of_returns + 64 * direction_bit(r.scan_direction)
        + 128 * bit(r.is_edge_of_flight_line)) as u8
}

/// Class code used by the legacy formats, which have no overlap flag: an
/// overlapping point takes the overlap class.
pub open spec fn legacy_code(r: PointRecord) -> int {
    if r.is_overlap { OVERLAP_CLASS as int } else { class_code(r.classification) as int }
}

/// Class code with the synthetic, key-point and withheld flags in one byte.
pub open spec fn legacy_class(r: PointRecord) -> u8 {
    (legacy_code(r) + 32 * bit(r.is_synthetic) + 64 * bit(r.is_key_point)
        + 128 * bit(r.is_withheld)) as u8
}

/// Return number and number of returns in one byte.
pub open spec fn extended_returns(r: PointRecord) -> u8 {
    (r.return_number + 16 * r.number_of_returns) as u8
}

/// The class flags, scanner channel, scan direction and edge flag in one byte.
pub open spec fn extended_flags(r: PointRecord) -> u8 {
    (bit(r.is_synthetic) + 2 * bit(r.is_key_point) + 4 * bit(r.is_withheld) + 8 * bit(r.is_overlap)
        + 16 * r.scanner_channel + 64 * direction_bit(r.scan_direction) + 128 * bit(
        r.is_edge_of_flight_line,
    )) as u8
}

/// The fields every record of the legacy formats starts with.
pub open spec fn legacy_core(r: PointRecord) -> Seq<u8> {
    le32(r.x as u32) + le32(r.y as u32) + le32(r.z as u32) + le16(r.intensity) + seq![
        legacy_returns(r),
        legacy_class(r),
        angle_degrees(r.scan_angle) as u8,
        r.user_data,
    ] + le16(r.point_source_id)
}

/// The fields every record of the extended formats starts with.
pub open spec fn extended_core(r: PointRecord) -> Seq<u8> {
    le32(r.x as u32) + le32(r.y as u32) + le32(r.z as u32) + le16(r.intensity) + seq![
        extended_returns(r),
        extended_flags(r),
        class_code(r.classification),
        r.user_data,
    ] + le16(r.scan_angle as u16) + le16(r.point_source_id)
}

pub open spec fn gps_bytes(r: PointRecord) -> Seq<u8> {
    match r.gps_time {
        Some(t) => le64(t),
        None => Seq::empty(),
    }
}

pub open spec fn color_bytes(r: PointRecord) -> Seq<u8> {
    match r.color {
        Some(c) => le16(c.red) + le16(c.green) + le16(c.blue),
        None => Seq::empty(),
    }
}

pub open spec fn nir_bytes(r: PointRecord) -> Seq<u8> {
    match r.nir {
        Some(n) => le16(n),
        None => Seq::empty(),
    }
}

pub open spec fn waveform_bytes(r: PointRecord) -> Seq<u8> {
    match r.waveform {
        Some(w) => seq![w.wave_packet_descriptor_index] + le64(w.byte_offset_to_waveform_data)
            + le32(w.waveform_packet_size_in_bytes) + le32(w.return_point_waveform_location)
            + le32(w.x_t) + le32(w.y_t) + le32(w.z_t),
        None => Seq::empty(),
    }
}

/// The optional fields, in layout order; absent ones take no bytes.
pub open spec fn optional_bytes(r: PointRecord) -> Seq<u8> {
    gps_bytes(r) + color_bytes(r) + nir_bytes(r) + waveform_bytes(r) + r.extra_bytes@
}

/// The bytes of one record laid out for format `c`.
pub open spec fn record_bytes(c: Capabilities, r: PointRecord) -> Seq<u8> {
    (if c.is_extended { extended_core(r) } else { legacy_core(r) }) + optional_bytes(r)
}

/// A record that the layout of format `c` can hold.
pub open spec fn encodable(c: Capabilities, r: PointRecord) -> bool {
    &&& r.number_of_returns < return_limit(c)
    &&& r.return_number < return_limit(c)
    &&& r.scanner_channel < 4
    &&& -MAX_SCAN_ANGLE <= r.scan_angle <= MAX_SCAN_ANGLE
    &&& fields_match(c, r)
}

fn push_u16(out: &mut Vec<u8>, v: u16)
    ensures
        final(out)@ == old(out)@ + le16(v),
{
    out.push((v % 0x100) as u8);
    out.push(((v / 0x100) % 0x100) as u8);
    assert(out@ =~= old(out)@ + le16(v));
}

fn push_u32(out: &mut Vec<u8>, v: u32)
    ensures
        final(out)@ == old(out)@ + le32(v),
{
    push_u16(out, (v % 0x1_0000) as u16);
    push_u16(out, (v / 0x1_0000) as u16);
    assert(out@ =~= old(out)@ + le32(v));
}

fn push_u64(out: &mut Vec<u8>, v: u64)
    ensures
        final(out)@ == old(out)@ + le64(v),
{
    push_u32(out, (v % 0x1_0000_0000) as u32);
    push_u32(out, (v / 0x1_0000_0000) as u32);
    assert(out@ =~= old(out)@ + le64(v));
}

fn flag(b: bool) -> (r: u8)
    ensures
        r == bit(b),
{
    if b { 1 } else { 0 }
}

fn direction_flag(d: ScanDirection) -> (r: u8)
    ensures
        r == direction_bit(d),
{
    match d {
        ScanDirection::LeftToRight => 1,
        ScanDirection::RightToLeft => 0,
    }
}

fn legacy_angle(a: i16) -> (r: i8)
    requires
        -MAX_SCAN_ANGLE <= a <= MAX_SCAN_ANGLE,
    ensures
        r == angle_degrees(a),
{
    if a >= 0 {
        (a as i32 * 3 / 500) as i8
    } else {
        let m: i32 = -(a as i32);
        -((m * 3 / 500) as i8)
    }
}


fn legacy_returns_byte(r: &PointRecord) -> (b: u8)
    requires
        r.return_number < 8,
        r.number_of_returns < 8,
    ensures
        b == legacy_returns(*r),
{
    r.return_number + 8 * r.number_of_returns + 64 * direction_flag(r.scan_direction) + 128 * flag(
        r.is_edge_of_flight_line,
    )
}

fn legacy_class_byte(r: &PointRecord) -> (b: u8)
    ensures
        b == legacy_class(*r),
{
    let code = if r.is_overlap { OVERLAP_CLASS } else { r.classification.code() };
    code + 32 * flag(r.is_synthetic) + 64 * flag(r.is_key_point) + 128 * flag(
        r.is_withheld,
    )
}

fn extended_flags_byte(r: &PointRecord) -> (b: u8)
    requires
        r.scanner_channel < 4,
    ensures
        b == extended_flags(*r),
{
    flag(r.is_synthetic) + 2 * flag(r.is_key_point) + 4 * flag(r.is_withheld) + 8 * flag(
        r.is_overlap,
    ) + 16 * r.scanner_channel + 64 * direction_flag(r.scan_direction) + 128 * flag(
        r.is_edge_of_flight_line,
    )
}

fn push_legacy_core(out: &mut Vec<u8>, r: &PointRecord)
    requires
        r.return_number < 8,
        r.number_of_returns < 8,
        -MAX_SCAN_ANGLE <= r.scan_angle <= MAX_SCAN_ANGLE,
    ensures
        final(out)@ == old(out)@ + legacy_core(*r),
{
    push_u32(out, r.x as u32);
    push_u32(out, r.y as u32);
    push_u32(out, r.z as u32);
    push_u16(out, r.intensity);
    out.push(legacy_returns_byte(r));
    out.push(legacy_class_byte(r));
    out.push(legacy_angle(r.scan_angle) as u8);
    out.push(r.user_data);
    push_u16(out, r.point_source_id);
    assert(out@ =~= old(out)@ + legacy_core(*r));
}

fn push_extended_core(out: &mut Vec<u8>, r: &PointRecord)
    requires
        r.return_number < 16,
        r.number_of_returns < 16,
        r.scanner_channel < 4,
    ensures
        final(out)@ == old(out)@ + extended_core(*r),
{
    push_u32(out, r.x as u32);
    push_u32(out, r.y as u32);
    push_u32(out, r.z as u32);
    push_u16(out, r.intensity);
    out.push(r.return_number + 16 * r.number_of_returns);
    out.push(extended_flags_byte(r));
    out.push(r.classification.code());
    out.push(r.user_data);
    push_u16(out, r.scan_angle as u16);
    push_u16(out, r.point_source_id);
    assert(out@ =~= old(out)@ + extended_core(*r));
}

fn push_gps(out: &mut Vec<u8>, r: &PointRecord)
    ensures
        final(out)@ == old(out)@ + gps_bytes(*r),
{
    if let Some(t) = r.gps_time {
        push_u64(out, t);
    } else {
        assert(out@ =~= old(out)@ + gps_bytes(*r));
    }
}

fn push_color(out: &mut Vec<u8>, r: &PointRecord)
    ensures
        final(out)@ == old(out)@ + color_bytes(*r),
{
    if let Some(c) = r.color {
        push_u16(out, c.red);
        push_u16(out, c.green);
        push_u16(out, c.blue);
    }
    assert(out@ =~= old(out)@ + color_bytes(*r));
}

fn push_nir(out: &mut Vec<u8>, r: &PointRecord)
    ensures
        final(out)@ == old(out)@ + nir_bytes(*r),
{
    if let Some(n) = r.nir {
        push_u16(out, n);
    } else {
        assert(out@ =~= old(out)@ + nir_bytes(*r));
    }
}

fn push_waveform(out: &mut Vec<u8>, r: &PointRecord)
    ensures
        final(out)@ == old(out)@ + waveform_bytes(*r),
{
    if let Some(w) = r.waveform {
        out.push(w.wave_packet_descriptor_index);
        push_u64(out, w.byte_offset_to_waveform_data);
        push_u32(out, w.waveform_packet_size_in_bytes);
        push_u32(out, w.return_point_waveform_location);
        push_u32(out, w.x_t);
        push_u32(out, w.y_t);
        push_u32(out, w.z_t);
    }
    assert(out@ =~= old(out)@ + waveform_bytes(*r));
}

fn push_bytes(out: &mut Vec<u8>, b: &Vec<u8>)
    ensures
        final(out)@ == old(out)@ + b@,
{
    let mut i: usize = 0;
    while i < b.len()
        invariant
            i <= b.len(),
            out@ == old(out)@ + b@.take(i as int),
        decreases b.len() - i,
    {
        out.push(b[i]);
        i = i + 1;
        assert(out@ =~= old(out)@ + b@.take(i as int));
    }
    assert(b@.take(i as int) =~= b@);
}

proof fn lemma_add_assoc5(o: Seq<u8>, a: Seq<u8>, b: Seq<u8>, c: Seq<u8>, d: Seq<u8>, e: Seq<u8>)
    ensures
        o + a + b + c + d + e == o + (a + b + c + d + e),
{
    assert(o + a + b + c + d + e =~= o + (a + b + c + d + e));
}

fn push_optional(out: &mut Vec<u8>, r: &PointRecord)
    ensures
        final(out)@ == old(out)@ + optional_bytes(*r),
{
    push_gps(out, r);
    push_color(out, r);
    push_nir(out, r);
    push_waveform(out, r);
    push_bytes(out, &r.extra_bytes);
    proof {
        lemma_add_assoc5(old(out)@, gps_bytes(*r), color_bytes(*r), nir_bytes(*r), waveform_bytes(*r), r.extra_bytes@);
    }
}

/// Appends the bytes of record `r` laid out for format `c`.
pub fn encode_record(c: &Capabilities, r: &PointRecord, out: &mut Vec<u8>)
    requires
        encodable(*c, *r),
    ensures
        final(out)@ == old(out)@ + record_bytes(*c, *r),
{
    if c.is_extended {
        push_extended_core(out, r);
    } else {
        push_legacy_core(out, r);
    }
    push_optional(out, r);
    assert(out@ =~= old(out)@ + record_bytes(*c, *r));
}

proof fn lemma_le_lengths(a: u16, b: u32, c: u64)
    ensures
        le16(a).len() == 2,
        le32(b).len() == 4,
        le64(c).len() == 8,
{
}

proof fn lemma_part_lengths(r: PointRecord)
    ensures
        gps_bytes(r).len() == if r.gps_time.is_some() { 8int } else { 0int },
        color_bytes(r).len() == if r.color.is_some() { 6int } else { 0int },
        nir_bytes(r).len() == if r.nir.is_some() { 2int } else { 0int },
        waveform_bytes(r).len() == if r.waveform.is_some() { 29int } else { 0int },
        legacy_core(r).len() == 20,
        extended_core(r).len() == 22,
{
    lemma_le_lengths(r.intensity, r.x as u32, 0);
    if let Some(t) = r.gps_time {
        lemma_le_lengths(0, 0, t);
    }
    if let Some(c) = r.color {
        lemma_le_lengths(c.red, 0, 0);
        lemma_le_lengths(c.green, 0, 0);
        lemma_le_lengths(c.blue, 0, 0);
    }
    if let Some(w) = r.waveform {
        lemma_le_lengths(0, w.waveform_packet_size_in_bytes, w.byte_offset_to_waveform_data);
        lemma_le_lengths(0, w.return_point_waveform_location, 0);
        lemma_le_lengths(0, w.x_t, 0);
        lemma_le_lengths(0, w.y_t, 0);
        lemma_le_lengths(0, w.z_t, 0);
    }
}

/// A record of format `c` takes exactly the format's record length, and each
/// optional field takes bytes only when the format declares it.
pub proof fn lemma_record_length(c: Capabilities, r: PointRecord)
    requires
        fields_match(c, r),
    ensures
        record_bytes(c, r).len() == record_len(c),
{
    lemma_part_lengths(r);
}


/// Smallest box holding every written point.
#[derive(Clone, Copy, Debug, PartialEq, Eq, Structural)]
pub struct Bounds {
    pub min_x: i32,
    pub max_x: i32,
    pub min_y: i32,
    pub max_y: i32,
    pub min_z: i32,
    pub max_z: i32,
}

/// Stage of an encoder's life.
#[derive(Clone, Copy, Debug, PartialEq, Eq, Structural)]
pub enum EncoderState {
    /// Version and layout fixed; no record written yet.
    HeaderPending,
    /// At least one record written.
    Writing,
    /// Header complete; no more records accepted.
    Finalized,
}

/// The container's header, as it stands once the stream is finalized.
#[derive(Clone, Copy, Debug, PartialEq, Eq, Structural)]
pub struct ContainerHeader {
    pub version_major: u8,
    pub version_minor: u8,
    pub point_format: u8,
    pub record_length: u16,
    pub point_count: u64,
    /// Absent when no point was written.
    pub bounds: Option<Bounds>,
}

/// Serializes records into the fixed layout of one point format and keeps the
/// header's count and box up to date.
pub struct Encoder {
    state: EncoderState,
    version_minor: u8,
    point_format: u8,
    caps: Capabilities,
    count: u64,
    bounds: Option<Bounds>,
    out: Vec<u8>,
    written: Ghost<Seq<PointRecord>>,
}

pub open spec fn min_i(a: int, b: int) -> int {
    if a < b { a } else { b }
}

pub open spec fn max_i(a: int, b: int) -> int {
    if a < b { b } else { a }
}

/// The box `b` grown to hold `r`.
pub open spec fn extend(b: Option<Bounds>, r: PointRecord) -> Bounds {
    match b {
        None => Bounds {
            min_x: r.x,
            max_x: r.x,
            min_y: r.y,
            max_y: r.y,
            min_z: r.z,
            max_z: r.z,
        },
        Some(b) => Bounds {
            min_x: min_i(b.min_x as int, r.x as int) as i32,
            max_x: max_i(b.max_x as int, r.x as int) as i32,
            min_y: min_i(b.min_y as int, r.y as int) as i32,
            max_y: max_i(b.max_y as int, r.y as int) as i32,
            min_z: min_i(b.min_z as int, r.z as int) as i32,
            max_z: max_i(b.max_z as int, r.z as int) as i32,
        },
    }
}

/// Bounding box of a sequence of records.
pub open spec fn bounds_of(rs: Seq<PointRecord>) -> Option<Bounds>
    decreases rs.len(),
{
    if rs.len() == 0 {
        None
    } else {
        Some(extend(bounds_of(rs.drop_last()), rs.last()))
    }
}

/// The byte stream of a sequence of records, in order.
pub open spec fn stream_bytes(c: Capabilities, rs: Seq<PointRecord>) -> Seq<u8>
    decreases rs.len(),
{
    if rs.len() == 0 {
        Seq::empty()
    } else {
        stream_bytes(c, rs.drop_last()) + record_bytes(c, rs.last())
    }
}

fn grow(b: Option<Bounds>, r: &PointRecord) -> (n: Bounds)
    ensures
        n == extend(b, *r),
{
    match b {
        None => Bounds { min_x: r.x, max_x: r.x, min_y: r.y, max_y: r.y, min_z: r.z, max_z: r.z },
        Some(b) => Bounds {
            min_x: if r.x < b.min_x { r.x } else { b.min_x },
            max_x: if r.x > b.max_x { r.x } else { b.max_x },
            min_y: if r.y < b.min_y { r.y } else { b.min_y },
            max_y: if r.y > b.max_y { r.y } else { b.max_y },
            min_z: if r.z < b.min_z { r.z } else { b.min_z },
            max_z: if r.z > b.max_z { r.z } else { b.max_z },
        },
    }
}

impl Encoder {
    /// Format id that the encoder writes.
    pub closed spec fn format(&self) -> u8 {
        self.point_format
    }

    /// Minor version that the encoder writes.
    pub closed spec fn minor(&self) -> u8 {
        self.version_minor
    }

    /// Stage the encoder is in.
    pub closed spec fn state(&self) -> EncoderState {
        self.state
    }

    /// The records accepted so far, in order.
    pub closed spec fn records(&self) -> Seq<PointRecord> {
        self.written@
    }

    /// The bytes produced so far.
    pub closed spec fn bytes(&self) -> Seq<u8> {
        self.out@
    }

    /// The count, box and bytes agree with the records accepted so far.
    pub closed spec fn wf(&self) -> bool {
        &&& self.point_format <= 10
        &&& self.caps == caps_of(self.point_format)
        &&& self.count == self.written@.len()
        &&& self.bounds == bounds_of(self.written@)
        &&& self.out@ == stream_bytes(self.caps, self.written@)
        &&& (self.state == EncoderState::HeaderPending <==> self.written@.len() == 0
            && self.state != EncoderState::Finalized)
    }

    /// Opens an encoder for container version 1.`minor` and point format `format`.
    pub fn new(minor: u8, format: u8) -> (r: Result<Encoder, GenError>)
        ensures
            format > 10 ==> r == Err::<Encoder, GenError>(GenError::InvalidPointFormat),
            format <= 10 && minor > 4 ==> r == Err::<Encoder, GenError>(GenError::InvalidFormatVersion),
            format <= 10 && minor <= 4 ==> (r matches Ok(e) && e.wf() && e.format() == format
                && e.minor() == minor && e.state() == EncoderState::HeaderPending
                && e.records() == Seq::<PointRecord>::empty()),
    {
        let caps = match resolve_point_format(format) {
            Ok(c) => c,
            Err(e) => return Err(e),
        };
        if minor > 4 {
            return Err(GenError::InvalidFormatVersion);
        }
        Ok(Encoder {
            state: EncoderState::HeaderPending,
            version_minor: minor,
            point_format: format,
            caps,
            count: 0,
            bounds: None,
            out: Vec::new(),
            written: Ghost(Seq::empty()),
        })
    }

    /// Capabilities of the encoder's point format.
    pub fn capabilities(&self) -> (c: Capabilities)
        requires
            self.wf(),
        ensures
            c == caps_of(self.format()),
    {
        self.caps
    }

    /// Appends one record. Refused once the encoder is finalized.
    pub fn write(&mut self, r: &PointRecord) -> (res: Result<(), GenError>)
        requires
            old(self).wf(),
            encodable(caps_of(old(self).format()), *r),
            old(self).records().len() < u64::MAX,
        ensures
            final(self).wf(),
            final(self).format() == old(self).format(),
            final(self).minor() == old(self).minor(),
            old(self).state() == EncoderState::Finalized ==> res == Err::<(), GenError>(
                GenError::InvalidEncoderState,
            ) && final(self).records() == old(self).records()
                && final(self).state() == EncoderState::Finalized,
            old(self).state() != EncoderState::Finalized ==> res == Ok::<(), GenError>(())
                && final(self).records() == old(self).records().push(*r)
                && final(self).state() == EncoderState::Writing,
    {
        if let EncoderState::Finalized = self.state {
            return Err(GenError::InvalidEncoderState);
        }
        let ghost before = self.written@;
        encode_record(&self.caps, r, &mut self.out);
        self.bounds = Some(grow(self.bounds, r));
        self.count = self.count + 1;
        self.state = EncoderState::Writing;
        proof {
            self.written = Ghost(before.push(*r));
            assert(self.written@.drop_last() =~= before);
        }
        Ok(())
    }

    /// Completes the header from what was written. Refused when already finalized.
    pub fn finalize(&mut self) -> (res: Result<ContainerHeader, GenError>)
        requires
            old(self).wf(),
        ensures
            final(self).wf(),
            final(self).records() == old(self).records(),
            final(self).format() == old(self).format(),
            final(self).minor() == old(self).minor(),
            final(self).state() == EncoderState::Finalized,
            old(self).state() == EncoderState::Finalized ==> res == Err::<ContainerHeader, GenError>(
                GenError::InvalidEncoderState,
            ),
            old(self).state() != EncoderState::Finalized ==> res == Ok::<ContainerHeader, GenError>(
                ContainerHeader {
                    version_major: 1,
                    version_minor: old(self).minor(),
                    point_format: old(self).format(),
                    record_length: record_len(caps_of(old(self).format())) as u16,
                    point_count: old(self).records().len() as u64,
                    bounds: bounds_of(old(self).records()),
                },
            ),
    {
        if let EncoderState::Finalized = self.state {
            return Err(GenError::InvalidEncoderState);
        }
        self.state = EncoderState::Finalized;
        let len = record_length(&self.caps);
        Ok(ContainerHeader {
            version_major: 1,
            version_minor: self.version_minor,
            point_format: self.point_format,
            record_length: len as u16,
            point_count: self.count,
            bounds: self.bounds,
        })
    }

    /// The encoded record stream.
    pub fn stream(&self) -> (b: &Vec<u8>)
        requires
            self.wf(),
        ensures
            b@ == self.bytes(),
            b@ == stream_bytes(caps_of(self.format()), self.records()),
    {
        &self.out
    }
}

} // verus!
