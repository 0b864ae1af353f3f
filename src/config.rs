use vstd::prelude::*;
use vstd::string::StringSliceAdditionalSpecFns;
use crate::error::GenError;
use crate::format::{caps_of, resolve_point_format, Capabilities};

verus! {

/// Kind of output container.
#[derive(Clone, Copy, Debug, PartialEq, Eq, Structural)]
pub enum FileType {
    Las,
    Laz,
    Txt,
    Gz,
}

impl Default for FileType {
    fn default() -> (r: FileType)
        ensures
            r == FileType::Las,
    {
        FileType::Las
    }
}

/// A byte with ASCII upper case letters taken to lower case.
pub open spec fn ascii_lower(b: u8) -> u8 {
    if 65 <= b <= 90 { (b + 32) as u8 } else { b }
}

/// `s` spells `word` (given in lower case), ignoring ASCII case.
pub open spec fn spells(s: Seq<u8>, word: Seq<u8>) -> bool {
    s.len() == word.len() && forall|i: int| 0 <= i < s.len() ==> ascii_lower(#[trigger] s[i]) == word[i]
}

/// The container kind that a file extension names, if any. The words are in
/// ASCII codes: las, laz, txt, xyz, gz.
pub open spec fn file_type_for(ext: Seq<u8>) -> Option<FileType> {
    if spells(ext, seq![108u8, 97u8, 115u8]) {
        Some(FileType::Las)
    } else if spells(ext, seq![108u8, 97u8, 122u8]) {
        Some(FileType::Laz)
    } else if spells(ext, seq![116u8, 120u8, 116u8]) || spells(ext, seq![120u8, 121u8, 122u8]) {
        Some(FileType::Txt)
    } else if spells(ext, seq![103u8, 122u8]) {
        Some(FileType::Gz)
    } else {
        None
    }
}

fn spells_word(s: &[u8], word: &Vec<u8>) -> (r: bool)
    ensures
        r == spells(s@, word@),
{
    if s.len() != word.len() {
        return false;
    }
    let mut i: usize = 0;
    while i < s.len()
        invariant
            s.len() == word.len(),
            i <= s.len(),
            forall|k: int| 0 <= k < i ==> ascii_lower(#[trigger] s@[k]) == word@[k],
        decreases s.len() - i,
    {
        let b = s[i];
        let lower = if 65 <= b && b <= 90 { b + 32 } else { b };
        if lower != word[i] {
            return false;
        }
        i = i + 1;
    }
    true
}

impl FileType {
    /// The container kind named by a file extension, ignoring ASCII case:
    /// `las`, `laz`, `txt` or `xyz`, `gz`.
    pub fn from_extension(ext: &str) -> (r: Option<FileType>)
        ensures
            r == file_type_for(ext.spec_bytes()),
    {
        let b = ext.as_bytes();
        if spells_word(b, &vec![108u8, 97u8, 115u8]) {
            Some(FileType::Las)
        } else if spells_word(b, &vec![108u8, 97u8, 122u8]) {
            Some(FileType::Laz)
        } else if spells_word(b, &vec![116u8, 120u8, 116u8]) || spells_word(b, &vec![120u8, 121u8, 122u8]) {
            Some(FileType::Txt)
        } else if spells_word(b, &vec![103u8, 122u8]) {
            Some(FileType::Gz)
        } else {
            None
        }
    }

    /// Whether the binary point stream is compressed after encoding.
    pub fn is_compressed(&self) -> (r: bool)
        ensures
            r == (*self == FileType::Laz),
    {
        match self {
            FileType::Laz => true,
            _ => false,
        }
    }
}

/// Scale of every coordinate: one unit is a thousandth of a metre.
pub const UNITS_PER_METRE: i64 = 1000;

/// The largest ground fraction, in parts per million.
pub const GROUND_SCALE: u32 = 1_000_000;

/// A generation run's configuration. Coordinates are in thousandths of a metre.
#[derive(Clone, Copy, Debug, PartialEq, Eq, Structural)]
pub struct Lidar {
    pub file_type: FileType,
    pub num_points: usize,
    /// Minor version of the container (major is 1).
    pub las_version: u8,
    /// Point-format id.
    pub las_format: u8,
    /// Probability that a point is drawn as Ground, in parts per million.
    pub ground: u32,
    /// Elevations follow a terrain instead of a uniform draw.
    pub surface: bool,
    /// Number of hills, drawn when absent.
    pub hills: Option<u16>,
    pub xmin: i32,
    pub xmax: i32,
    pub ymin: i32,
    pub ymax: i32,
    pub zmin: i32,
    pub zmax: i32,
}

/// The first rule that `c` breaks, if any.
pub open spec fn config_error(c: Lidar) -> Option<GenError> {
    if c.las_format > 10 {
        Some(GenError::InvalidPointFormat)
    } else if c.las_version > 4 {
        Some(GenError::InvalidFormatVersion)
    } else if c.ground > 1_000_000 {
        Some(GenError::InvalidGroundFraction)
    } else if c.xmin > c.xmax || c.ymin > c.ymax || c.zmin > c.zmax
        || (c.surface && (c.xmin == c.xmax || c.ymin == c.ymax)) {
        Some(GenError::DegenerateExtent)
    } else {
        None
    }
}

/// A configuration that the generator accepts.
pub open spec fn valid_config(c: Lidar) -> bool {
    config_error(c).is_none()
}

impl Lidar {
    /// Checks the configuration and resolves its point format.
    pub fn validate(&self) -> (r: Result<Capabilities, GenError>)
        ensures
            valid_config(*self) ==> r == Ok::<Capabilities, GenError>(caps_of(self.las_format)),
            !valid_config(*self) ==> r == Err::<Capabilities, GenError>(
                config_error(*self).unwrap(),
            ),
    {
        let caps = match resolve_point_format(self.las_format) {
            Ok(c) => c,
            Err(e) => return Err(e),
        };
        if self.las_version > 4 {
            return Err(GenError::InvalidFormatVersion);
        }
        if self.ground > GROUND_SCALE {
            return Err(GenError::InvalidGroundFraction);
        }
        if self.xmin > self.xmax || self.ymin > self.ymax || self.zmin > self.zmax {
            return Err(GenError::DegenerateExtent);
        }
        if self.surface && (self.xmin == self.xmax || self.ymin == self.ymax) {
            return Err(GenError::DegenerateExtent);
        }
        Ok(caps)
    }
}


/// Every point-format id from 0 to 10 is accepted: a configuration with such
/// an id is never refused for its point format.
pub proof fn lemma_known_formats_accepted(c: Lidar)
    requires
        c.las_format <= 10,
    ensures
        config_error(c) != Some(GenError::InvalidPointFormat),
{
}

} // verus!
