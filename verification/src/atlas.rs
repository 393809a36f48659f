//! The sprite atlas: named rectangular regions within a source image, built
//! once per session from a side-car text description.
//!
//! The description is line-oriented, comma-separated text: the first line is
//! a header and is skipped, and every following line reads
//! `name,x,y,width,height` with the numeric fields in pixels, optionally
//! surrounded by spaces or tabs. A malformed numeric field does not abort
//! the build: it surfaces as a structured error naming the line, the field
//! and the raw text of the offending value.
use vstd::prelude::*;

use crate::scan::{
    all_digits, digits_val, field_ok, field_val, lines_of, spec_split, spec_trim,
    split_bytes, split_lines, trim_bytes, parse_u32_field, views, COMMA,
};

verus! {

/// One named region of the atlas image: top-left pixel offset and pixel
/// size.
#[derive(Clone, Copy, PartialEq, Eq, Structural, Debug)]
pub struct AtlasRegion {
    pub x: u32,
    pub y: u32,
    pub width: u32,
    pub height: u32,
}

/// The built atlas: regions in file order, the parallel list of region
/// names (the raw UTF-8 bytes of each name field), and the pixel size of
/// the backing image.
#[derive(Clone, PartialEq, Eq, Debug)]
pub struct CaveAtlases {
    pub regions: Vec<AtlasRegion>,
    pub tile_names: Vec<Vec<u8>>,
    pub image_width: u32,
    pub image_height: u32,
}

impl CaveAtlases {
    /// Every region has a name: the two lists run in parallel.
    pub open spec fn wf(self) -> bool {
        self.regions@.len() == self.tile_names@.len()
    }
}

/// The raw text of a side-car description file.
#[derive(Clone, PartialEq, Eq, Debug)]
pub struct TextAsset(pub Vec<u8>);

/// A structured parse failure: the 1-based line of the data file it
/// occurred on, the 0-based comma-separated field, and (for a number that
/// would not parse) the raw bytes of that field.
#[derive(Clone, PartialEq, Eq, Debug)]
pub enum AtlasError {
    MissingField { line_number: usize, field: usize },
    BadNumber { line_number: usize, field: usize, raw: Vec<u8> },
}

/// The comma-separated fields of one line.
pub open spec fn line_fields(line: Seq<u8>) -> Seq<Seq<u8>> {
    spec_split(line, COMMA)
}

/// Whether a data line parses: at least the five fields
/// `name,x,y,width,height`, with the four numeric fields well-formed.
pub open spec fn record_good(line: Seq<u8>) -> bool {
    let fs = line_fields(line);
    &&& fs.len() >= 5
    &&& field_ok(fs[1])
    &&& field_ok(fs[2])
    &&& field_ok(fs[3])
    &&& field_ok(fs[4])
}

/// The region a good data line describes.
pub open spec fn record_region(line: Seq<u8>) -> AtlasRegion {
    let fs = line_fields(line);
    AtlasRegion {
        x: field_val(fs[1]) as u32,
        y: field_val(fs[2]) as u32,
        width: field_val(fs[3]) as u32,
        height: field_val(fs[4]) as u32,
    }
}

/// The name field of a data line.
pub open spec fn record_name(line: Seq<u8>) -> Seq<u8> {
    line_fields(line)[0]
}

/// The field a bad data line's error concerns: the field count when one of
/// the five fields is missing, else the first numeric field that does not
/// parse.
pub open spec fn record_bad_field(line: Seq<u8>) -> int {
    let fs = line_fields(line);
    if fs.len() < 5 {
        fs.len() as int
    } else if !field_ok(fs[1]) {
        1
    } else if !field_ok(fs[2]) {
        2
    } else if !field_ok(fs[3]) {
        3
    } else {
        4
    }
}

/// The error a bad data line surfaces as, given its 1-based line number:
/// a missing field names the line and the field count, a malformed number
/// names the line, the field and the raw bytes of the field.
pub open spec fn spec_record_error(line: Seq<u8>, line_number: int, e: AtlasError) -> bool {
    let fs = line_fields(line);
    let f = record_bad_field(line);
    if fs.len() < 5 {
        e == (AtlasError::MissingField { line_number: line_number as usize, field: f as usize })
    } else {
        e matches AtlasError::BadNumber { line_number: ln, field: fd, raw: rw } && ln
            == line_number && fd == f && rw@ == fs[f]
    }
}

/// The data lines of a description text: all its lines but the header.
pub open spec fn data_lines(text: Seq<u8>) -> Seq<Seq<u8>> {
    let ls = lines_of(text);
    if ls.len() <= 1 {
        Seq::empty()
    } else {
        ls.skip(1)
    }
}

/// Whether every data line parses.
pub open spec fn all_records_good(dls: Seq<Seq<u8>>) -> bool {
    forall|i: int| 0 <= i < dls.len() ==> record_good(dls[i])
}

/// The index of the first data line that does not parse.
pub open spec fn first_bad_record(dls: Seq<Seq<u8>>) -> int
    decreases dls.len(),
{
    if dls.len() == 0 {
        0
    } else if !record_good(dls[0]) {
        0
    } else {
        1 + first_bad_record(dls.skip(1))
    }
}

/// A bad line with a clean prefix is the first bad line.
pub proof fn lemma_first_bad_at(dls: Seq<Seq<u8>>, i: int)
    requires
        0 <= i < dls.len(),
        !record_good(dls[i]),
        forall|j: int| 0 <= j < i ==> record_good(dls[j]),
    ensures
        first_bad_record(dls) == i,
    decreases i,
{
    if i > 0 {
        assert(dls.skip(1)[i - 1] == dls[i]);
        assert forall|j: int| 0 <= j < i - 1 implies record_good(dls.skip(1)[j]) by {
            assert(dls.skip(1)[j] == dls[j + 1]);
        }
        lemma_first_bad_at(dls.skip(1), i - 1);
    }
}

/// Parses one data line into its region and name, or into the structured
/// error carrying the given 1-based line number.
pub fn parse_record(line: &[u8], line_number: usize) -> (r: Result<(AtlasRegion, Vec<u8>), AtlasError>)
    ensures
        r is Ok <==> record_good(line@),
        r is Ok ==> r->Ok_0.0 == record_region(line@) && r->Ok_0.1@ == record_name(line@),
        r is Err ==> spec_record_error(line@, line_number as int, r->Err_0),
{
    let fields: Vec<Vec<u8>> = split_bytes(line, COMMA);
    if fields.len() < 5 {
        return Err(AtlasError::MissingField { line_number, field: fields.len() });
    }
    let x: u32 = match parse_u32_field(fields[1].as_slice()) {
        Some(v) => v,
        None => {
            let raw: Vec<u8> = vstd::slice::slice_to_vec(fields[1].as_slice());
            return Err(AtlasError::BadNumber { line_number, field: 1, raw });
        },
    };
    let y: u32 = match parse_u32_field(fields[2].as_slice()) {
        Some(v) => v,
        None => {
            let raw: Vec<u8> = vstd::slice::slice_to_vec(fields[2].as_slice());
            return Err(AtlasError::BadNumber { line_number, field: 2, raw });
        },
    };
    let width: u32 = match parse_u32_field(fields[3].as_slice()) {
        Some(v) => v,
        None => {
            let raw: Vec<u8> = vstd::slice::slice_to_vec(fields[3].as_slice());
            return Err(AtlasError::BadNumber { line_number, field: 3, raw });
        },
    };
    let height: u32 = match parse_u32_field(fields[4].as_slice()) {
        Some(v) => v,
        None => {
            let raw: Vec<u8> = vstd::slice::slice_to_vec(fields[4].as_slice());
            return Err(AtlasError::BadNumber { line_number, field: 4, raw });
        },
    };
    let name: Vec<u8> = vstd::slice::slice_to_vec(fields[0].as_slice());
    Ok((AtlasRegion { x, y, width, height }, name))
}

/// Builds the atlas from the raw bytes of the description text and the
/// pixel size of the backing image. Succeeds exactly when every data line
/// parses, listing regions and names in file order; fails with the
/// structured error of the first bad data line.
pub fn build_atlas(data: &[u8], image_width: u32, image_height: u32) -> (r: Result<
    CaveAtlases,
    AtlasError,
>)
    ensures
        r is Ok <==> all_records_good(data_lines(data@)),
        r is Ok ==> ({
            let a = r->Ok_0;
            let dls = data_lines(data@);
            &&& a.wf()
            &&& a.image_width == image_width
            &&& a.image_height == image_height
            &&& a.regions@.len() == dls.len()
            &&& a.tile_names@.len() == dls.len()
            &&& forall|i: int|
                0 <= i < dls.len() ==> a.regions@[i] == record_region(dls[i])
                    && a.tile_names@[i]@ == record_name(dls[i])
        }),
        r is Err ==> ({
            let dls = data_lines(data@);
            let j = first_bad_record(dls);
            &&& !all_records_good(dls)
            &&& 0 <= j < dls.len()
            &&& spec_record_error(dls[j], j + 2, r->Err_0)
        }),
{
    let lines: Vec<Vec<u8>> = split_lines(data);
    let ghost dls: Seq<Seq<u8>> = data_lines(data@);
    let mut regions: Vec<AtlasRegion> = Vec::new();
    let mut names: Vec<Vec<u8>> = Vec::new();
    let mut li: usize = 1;
    while li < lines.len()
        invariant
            1 <= li,
            lines@.len() == 0 ==> li == 1,
            lines@.len() > 0 ==> li <= lines@.len(),
            views(lines@) == lines_of(data@),
            dls == data_lines(data@),
            dls.len() == if lines@.len() <= 1 {
                0int
            } else {
                lines@.len() - 1
            },
            regions@.len() == li - 1,
            names@.len() == li - 1,
            forall|k: int| 0 <= k < li - 1 ==> record_good(#[trigger] dls[k]),
            forall|k: int|
                0 <= k < li - 1 ==> #[trigger] regions@[k] == record_region(dls[k]),
            forall|k: int| 0 <= k < li - 1 ==> (#[trigger] names@[k])@ == record_name(dls[k]),
        decreases lines@.len() - li,
    {
        let line: &Vec<u8> = &lines[li];
        proof {
            assert(dls[li - 1] == views(lines@)[li as int]);
            assert(line@ == dls[li - 1]);
        }
        let ln: usize = li + 1;
        match parse_record(line.as_slice(), ln) {
            Ok(pair) => {
                let (reg, name) = pair;
                regions.push(reg);
                names.push(name);
                proof {
                    assert(regions@[li - 1] == record_region(dls[li - 1]));
                    assert(names@[li - 1]@ == record_name(dls[li - 1]));
                }
            },
            Err(e) => {
                proof {
                    lemma_first_bad_at(dls, li - 1);
                }
                return Err(e);
            },
        }
        li = li + 1;
    }
    proof {
        assert(regions@.len() == dls.len());
        assert(all_records_good(dls));
    }
    Ok(CaveAtlases { regions, tile_names: names, image_width, image_height })
}

} // verus!
