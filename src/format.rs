use vstd::prelude::*;
use crate::error::GenError;

verus! {

/// The optional fields that a point format carries.
#[derive(Clone, Copy, Debug, PartialEq, Eq, Structural)]
pub struct Capabilities {
    pub has_gps_time: bool,
    pub has_color: bool,
    pub has_nir: bool,
    pub has_waveform: bool,
    /// Formats 6 to 10: wide return counts, two flag bytes, scaled scan angle.
    pub is_extended: bool,
    pub extra_bytes: u16,
}

/// The largest point-format id.
pub const MAX_POINT_FORMAT: u8 = 10;

/// The capability table, by point-format id.
pub open spec fn caps_of(id: u8) -> Capabilities {
    Capabilities {
        has_gps_time: id == 1 || (3 <= id && id <= 10),
        has_color: id == 2 || id == 3 || id == 5 || id == 7 || id == 8 || id == 10,
        has_nir: id == 8 || id == 10,
        has_waveform: id == 4 || id == 5 || id == 9 || id == 10,
        is_extended: id >= 6,
        extra_bytes: 0,
    }
}

/// Length in bytes of one record laid out for `c`.
pub open spec fn record_len(c: Capabilities) -> nat {
    (if c.is_extended { 22nat } else { 20nat })
        + (if c.has_gps_time { 8nat } else { 0nat })
        + (if c.has_color { 6nat } else { 0nat })
        + (if c.has_nir { 2nat } else { 0nat })
        + (if c.has_waveform { 29nat } else { 0nat })
        + c.extra_bytes as nat
}

/// Exclusive upper bound of the return number and number of returns.
pub open spec fn return_limit(c: Capabilities) -> nat {
    if c.is_extended { 16 } else { 8 }
}

/// Relies on las::point::Format::new: ids 0 to 10 give the format's flags, with
/// no extra bytes; ids 11 to 127 are refused.
#[verifier::external_body]
fn las_point_format(id: u8) -> (r: Option<Capabilities>)
    ensures
        id <= 10 ==> r == Some(caps_of(id)),
        10 < id < 128 ==> r.is_none(),
{
    match las::point::Format::new(id) {
        Ok(f) => Some(Capabilities {
            has_gps_time: f.has_gps_time,
            has_color: f.has_color,
            has_nir: f.has_nir,
            has_waveform: f.has_waveform,
            is_extended: f.is_extended,
            extra_bytes: f.extra_bytes,
        }),
        Err(_) => None,
    }
}

/// Resolves a point-format id to its capabilities.
pub fn resolve_point_format(id: u8) -> (r: Result<Capabilities, GenError>)
    ensures
        id <= 10 ==> r == Ok::<Capabilities, GenError>(caps_of(id)),
        id > 10 ==> r == Err::<Capabilities, GenError>(GenError::InvalidPointFormat),
{
    if id > MAX_POINT_FORMAT {
        return Err(GenError::InvalidPointFormat);
    }
    match las_point_format(id) {
        Some(c) => Ok(c),
        None => Err(GenError::InvalidPointFormat),
    }
}

/// Length in bytes of one record laid out for `c`.
pub fn record_length(c: &Capabilities) -> (r: usize)
    ensures
        r == record_len(*c),
{
    let mut n: usize = if c.is_extended { 22 } else { 20 };
    if c.has_gps_time {
        n = n + 8;
    }
    if c.has_color {
        n = n + 6;
    }
    if c.has_nir {
        n = n + 2;
    }
    if c.has_waveform {
        n = n + 29;
    }
    n + c.extra_bytes as usize
}


/// Every id from 0 to 10 resolves, to one set of flags: the extended formats
/// are exactly 6 to 10 and all carry GPS time, near-infrared comes only with
/// color, and the record lengths are those of the container's layouts.
pub proof fn lemma_capability_table(id: u8)
    requires
        id <= 10,
    ensures
        caps_of(id).is_extended == (id >= 6),
        caps_of(id).is_extended ==> caps_of(id).has_gps_time,
        caps_of(id).has_nir ==> caps_of(id).has_color,
        record_len(caps_of(id)) == seq![20nat, 28, 26, 34, 57, 63, 30, 36, 38, 59, 67][id as int],
{
}

} // verus!
