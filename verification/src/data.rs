//! The calibration of one sensor, as the device hands it out.
//!
//! Every parameter that is a floating-point number is kept as its IEEE-754
//! single-precision bit pattern: the logic here carries the parameters, it
//! does not compute with them.
use vstd::prelude::*;
use vstd::slice::slice_subrange;

use crate::command::response::{
    DepthParamsResponse, FirmwareVersionResponse, P0TablesResponse, RgbParamsResponse, TABLE_SIZE,
    p0_table,
};
use crate::error::Error;

verus! {

/// Color camera calibration parameters.
/// Kinect v2 includes factory preset values for these parameters.
/// They are used in Registration.
#[derive(Debug, Clone, Copy, PartialEq, Eq)]
pub struct ColorParams {
    /// Focal length x (pixel)
    pub fx: u32,
    /// Focal length y (pixel)
    pub fy: u32,
    /// Principal point x (pixel)
    pub cx: u32,
    /// Principal point y (pixel)
    pub cy: u32,
    pub shift_d: u32,
    pub shift_m: u32,
    pub mx_x3y0: u32,
    pub mx_x0y3: u32,
    pub mx_x2y1: u32,
    pub mx_x1y2: u32,
    pub mx_x2y0: u32,
    pub mx_x0y2: u32,
    pub mx_x1y1: u32,
    pub mx_x1y0: u32,
    pub mx_x0y1: u32,
    pub mx_x0y0: u32,
    pub my_x3y0: u32,
    pub my_x0y3: u32,
    pub my_x2y1: u32,
    pub my_x1y2: u32,
    pub my_x2y0: u32,
    pub my_x0y2: u32,
    pub my_x1y1: u32,
    pub my_x1y0: u32,
    pub my_x0y1: u32,
    pub my_x0y0: u32,
}

impl Default for ColorParams {
    /// Every parameter zero.
    fn default() -> (params: Self)
        ensures
            params == Self::zero(),
    {
        ColorParams {
            fx: 0,
            fy: 0,
            cx: 0,
            cy: 0,
            shift_d: 0,
            shift_m: 0,
            mx_x3y0: 0,
            mx_x0y3: 0,
            mx_x2y1: 0,
            mx_x1y2: 0,
            mx_x2y0: 0,
            mx_x0y2: 0,
            mx_x1y1: 0,
            mx_x1y0: 0,
            mx_x0y1: 0,
            mx_x0y0: 0,
            my_x3y0: 0,
            my_x0y3: 0,
            my_x2y1: 0,
            my_x1y2: 0,
            my_x2y0: 0,
            my_x0y2: 0,
            my_x1y1: 0,
            my_x1y0: 0,
            my_x0y1: 0,
            my_x0y0: 0,
        }
    }
}

impl ColorParams {
    /// Every parameter zero.
    pub open spec fn zero() -> Self {
        ColorParams {
            fx: 0,
            fy: 0,
            cx: 0,
            cy: 0,
            shift_d: 0,
            shift_m: 0,
            mx_x3y0: 0,
            mx_x0y3: 0,
            mx_x2y1: 0,
            mx_x1y2: 0,
            mx_x2y0: 0,
            mx_x0y2: 0,
            mx_x1y1: 0,
            mx_x1y0: 0,
            mx_x0y1: 0,
            mx_x0y0: 0,
            my_x3y0: 0,
            my_x0y3: 0,
            my_x2y1: 0,
            my_x1y2: 0,
            my_x2y0: 0,
            my_x0y2: 0,
            my_x1y1: 0,
            my_x1y0: 0,
            my_x0y1: 0,
            my_x0y0: 0,
        }
    }

    /// The parameters that a page of the device gives: the one focal length
    /// of the page for both axes, the rest field by field.
    pub open spec fn of(raw: RgbParamsResponse) -> Self {
        ColorParams {
            fx: raw.color_f,
            fy: raw.color_f,
            cx: raw.color_cx,
            cy: raw.color_cy,
            shift_d: raw.shift_d,
            shift_m: raw.shift_m,
            mx_x3y0: raw.mx_x3y0,
            mx_x0y3: raw.mx_x0y3,
            mx_x2y1: raw.mx_x2y1,
            mx_x1y2: raw.mx_x1y2,
            mx_x2y0: raw.mx_x2y0,
            mx_x0y2: raw.mx_x0y2,
            mx_x1y1: raw.mx_x1y1,
            mx_x1y0: raw.mx_x1y0,
            mx_x0y1: raw.mx_x0y1,
            mx_x0y0: raw.mx_x0y0,
            my_x3y0: raw.my_x3y0,
            my_x0y3: raw.my_x0y3,
            my_x2y1: raw.my_x2y1,
            my_x1y2: raw.my_x1y2,
            my_x2y0: raw.my_x2y0,
            my_x0y2: raw.my_x0y2,
            my_x1y1: raw.my_x1y1,
            my_x1y0: raw.my_x1y0,
            my_x0y1: raw.my_x0y1,
            my_x0y0: raw.my_x0y0,
        }
    }

    /// Reads the parameters from the page that the device answered with.
    /// Fails where the page is shorter than it has to be.
    pub fn try_from(buffer: &[u8]) -> (read: Result<Self, Error>)
        ensures
            buffer@.len() >= RgbParamsResponse::SIZE ==> read == Ok::<Self, Error>(
                Self::of(RgbParamsResponse::of(buffer@)),
            ),
            buffer@.len() < RgbParamsResponse::SIZE ==> read == Err::<Self, Error>(
                Error::UnalignedRead("RgbParamsResponse"),
            ),
    {
        match RgbParamsResponse::read_unaligned(buffer) {
            Ok(raw) => Ok(
                ColorParams {
                    fx: raw.color_f,
                    fy: raw.color_f,
                    cx: raw.color_cx,
                    cy: raw.color_cy,
                    shift_d: raw.shift_d,
                    shift_m: raw.shift_m,
                    mx_x3y0: raw.mx_x3y0,
                    mx_x0y3: raw.mx_x0y3,
                    mx_x2y1: raw.mx_x2y1,
                    mx_x1y2: raw.mx_x1y2,
                    mx_x2y0: raw.mx_x2y0,
                    mx_x0y2: raw.mx_x0y2,
                    mx_x1y1: raw.mx_x1y1,
                    mx_x1y0: raw.mx_x1y0,
                    mx_x0y1: raw.mx_x0y1,
                    mx_x0y0: raw.mx_x0y0,
                    my_x3y0: raw.my_x3y0,
                    my_x0y3: raw.my_x0y3,
                    my_x2y1: raw.my_x2y1,
                    my_x1y2: raw.my_x1y2,
                    my_x2y0: raw.my_x2y0,
                    my_x0y2: raw.my_x0y2,
                    my_x1y1: raw.my_x1y1,
                    my_x1y0: raw.my_x1y0,
                    my_x0y1: raw.my_x0y1,
                    my_x0y0: raw.my_x0y0,
                },
            ),
            Err(error) => Err(error),
        }
    }
}

/// IR camera intrinsic calibration parameters.
/// Kinect v2 includes factory preset values for these parameters.
/// They are used in depth image decoding, and Registration.
#[derive(Debug, Clone, Copy, PartialEq, Eq)]
pub struct IrParams {
    /// Focal length x (pixel)
    pub fx: u32,
    /// Focal length y (pixel)
    pub fy: u32,
    /// Principal point x (pixel)
    pub cx: u32,
    /// Principal point y (pixel)
    pub cy: u32,
    /// Radial distortion coefficient, 1st-order
    pub k1: u32,
    /// Radial distortion coefficient, 2nd-order
    pub k2: u32,
    /// Radial distortion coefficient, 3rd-order
    pub k3: u32,
    /// Tangential distortion coefficient
    pub p1: u32,
    /// Tangential distortion coefficient
    pub p2: u32,
}

impl Default for IrParams {
    /// Every parameter zero.
    fn default() -> (params: Self)
        ensures
            params == Self::zero(),
    {
        IrParams {
            fx: 0,
            fy: 0,
            cx: 0,
            cy: 0,
            k1: 0,
            k2: 0,
            k3: 0,
            p1: 0,
            p2: 0,
        }
    }
}

impl IrParams {
    /// Every parameter zero.
    pub open spec fn zero() -> Self {
        IrParams {
            fx: 0,
            fy: 0,
            cx: 0,
            cy: 0,
            k1: 0,
            k2: 0,
            k3: 0,
            p1: 0,
            p2: 0,
        }
    }

    /// The parameters that a page of the device gives.
    pub open spec fn of(raw: DepthParamsResponse) -> Self {
        IrParams {
            fx: raw.fx,
            fy: raw.fy,
            cx: raw.cx,
            cy: raw.cy,
            k1: raw.k1,
            k2: raw.k2,
            k3: raw.k3,
            p1: raw.p1,
            p2: raw.p2,
        }
    }

    /// Reads the parameters from the page that the device answered with.
    /// Fails where the page is shorter than it has to be.
    pub fn try_from(buffer: &[u8]) -> (read: Result<Self, Error>)
        ensures
            buffer@.len() >= DepthParamsResponse::SIZE ==> read == Ok::<Self, Error>(
                Self::of(DepthParamsResponse::of(buffer@)),
            ),
            buffer@.len() < DepthParamsResponse::SIZE ==> read == Err::<Self, Error>(
                Error::UnalignedRead("DepthParamsResponse"),
            ),
    {
        match DepthParamsResponse::read_unaligned(buffer) {
            Ok(raw) => Ok(
                IrParams {
                    fx: raw.fx,
                    fy: raw.fy,
                    cx: raw.cx,
                    cy: raw.cy,
                    k1: raw.k1,
                    k2: raw.k2,
                    k3: raw.k3,
                    p1: raw.p1,
                    p2: raw.p2,
                },
            ),
            Err(error) => Err(error),
        }
    }
}

/// The three P0 tables as plain values.
pub struct P0TablesView {
    pub p0_table0: Seq<u16>,
    pub p0_table1: Seq<u16>,
    pub p0_table2: Seq<u16>,
}

/// The phase offsets of every pixel, one table per modulation frequency.
/// Each table has one entry per pixel of the depth image, row by row.
#[derive(Debug)]
pub struct P0Tables {
    p0_table0: Vec<u16>,
    p0_table1: Vec<u16>,
    p0_table2: Vec<u16>,
}

impl View for P0Tables {
    type V = P0TablesView;

    closed spec fn view(&self) -> P0TablesView {
        P0TablesView {
            p0_table0: self.p0_table0@,
            p0_table1: self.p0_table1@,
            p0_table2: self.p0_table2@,
        }
    }
}

/// A table of that many zeros.
pub open spec fn zeros(length: nat) -> Seq<u16> {
    Seq::new(length, |i: int| 0u16)
}

fn zero_table() -> (table: Vec<u16>)
    ensures
        table@ == zeros(TABLE_SIZE as nat),
{
    let table = vec![0u16; TABLE_SIZE];
    table
}

fn copy_table(table: &Vec<u16>) -> (copy: Vec<u16>)
    ensures
        copy@ == table@,
{
    let copy = table.clone();
    copy
}

impl Clone for P0Tables {
    fn clone(&self) -> (tables: Self)
        ensures
            tables@ == self@,
    {
        proof {
            use_type_invariant(self);
        }
        Self {
            p0_table0: copy_table(&self.p0_table0),
            p0_table1: copy_table(&self.p0_table1),
            p0_table2: copy_table(&self.p0_table2),
        }
    }
}

impl Default for P0Tables {
    /// Three tables of zeros.
    fn default() -> (tables: Self)
        ensures
            tables@ == (P0TablesView {
                p0_table0: zeros(TABLE_SIZE as nat),
                p0_table1: zeros(TABLE_SIZE as nat),
                p0_table2: zeros(TABLE_SIZE as nat),
            }),
    {
        Self { p0_table0: zero_table(), p0_table1: zero_table(), p0_table2: zero_table() }
    }
}

impl P0Tables {
    #[verifier::type_invariant]
    spec fn whole_tables(self) -> bool {
        &&& self.p0_table0@.len() == TABLE_SIZE
        &&& self.p0_table1@.len() == TABLE_SIZE
        &&& self.p0_table2@.len() == TABLE_SIZE
    }

    /// Reads the tables from the page that the device answered with. Fails
    /// where the page is shorter than it has to be.
    pub fn try_from(buffer: &[u8]) -> (read: Result<Self, Error>)
        ensures
            buffer@.len() >= P0TablesResponse::SIZE <==> read is Ok,
            read matches Ok(tables) ==> tables@ == (P0TablesView {
                p0_table0: p0_table(buffer@, 0),
                p0_table1: p0_table(buffer@, 1),
                p0_table2: p0_table(buffer@, 2),
            }),
            read matches Err(error) ==> error == Error::UnalignedRead("P0TablesResponse"),
    {
        match P0TablesResponse::read_unaligned(buffer) {
            Ok(raw) => Ok(
                Self {
                    p0_table0: raw.p0_table0,
                    p0_table1: raw.p0_table1,
                    p0_table2: raw.p0_table2,
                },
            ),
            Err(error) => Err(error),
        }
    }

    /// The table of the first modulation frequency.
    pub fn p0_table0(&self) -> (table: &Vec<u16>)
        ensures
            table@ == self@.p0_table0,
            table@.len() == TABLE_SIZE,
    {
        proof {
            use_type_invariant(self);
        }
        &self.p0_table0
    }

    /// The table of the second modulation frequency.
    pub fn p0_table1(&self) -> (table: &Vec<u16>)
        ensures
            table@ == self@.p0_table1,
            table@.len() == TABLE_SIZE,
    {
        proof {
            use_type_invariant(self);
        }
        &self.p0_table1
    }

    /// The table of the third modulation frequency.
    pub fn p0_table2(&self) -> (table: &Vec<u16>)
        ensures
            table@ == self@.p0_table2,
            table@.len() == TABLE_SIZE,
    {
        proof {
            use_type_invariant(self);
        }
        &self.p0_table2
    }
}

/// The version of one part of the firmware.
#[derive(Debug, Clone, Copy, PartialEq, Eq)]
pub struct FirwareVersion {
    pub maj: u16,
    pub min: u16,
    pub revision: u32,
    pub build: u32,
}

/// Bytes of one version in the list that the device answers with.
pub const FIRWARE_VERSION_SIZE: usize = 16;

impl FirwareVersion {
    /// The version that an entry of the device's list gives.
    pub open spec fn of(raw: FirmwareVersionResponse) -> Self {
        FirwareVersion { maj: raw.maj, min: raw.min, revision: raw.revision, build: raw.build }
    }

    /// Reads one version from the start of `buffer`. Fails where `buffer`
    /// is shorter than an entry.
    pub fn try_from(buffer: &[u8]) -> (read: Result<Self, Error>)
        ensures
            buffer@.len() >= FirmwareVersionResponse::SIZE ==> read == Ok::<Self, Error>(
                Self::of(FirmwareVersionResponse::of(buffer@)),
            ),
            buffer@.len() < FirmwareVersionResponse::SIZE ==> read == Err::<Self, Error>(
                Error::UnalignedRead("FirmwareVersionResponse"),
            ),
    {
        match FirmwareVersionResponse::read_unaligned(buffer) {
            Ok(raw) => Ok(
                FirwareVersion {
                    maj: raw.maj,
                    min: raw.min,
                    revision: raw.revision,
                    build: raw.build,
                },
            ),
            Err(error) => Err(error),
        }
    }
}

/// The versions that a list of `buffer.len() / 16` whole entries holds, in
/// the order of the list.
pub open spec fn versions_of(buffer: Seq<u8>) -> Seq<FirwareVersion> {
    Seq::new(
        (buffer.len() as int / FIRWARE_VERSION_SIZE as int) as nat,
        |i: int|
            FirwareVersion::of(
                FirmwareVersionResponse::of(
                    buffer.subrange(i * FIRWARE_VERSION_SIZE, buffer.len() as int),
                ),
            ),
    )
}

/// Reads the list of versions that the device answered with. Bytes after
/// the last whole entry are left out.
pub fn read_firware_versions(buffer: &[u8]) -> (versions: Vec<FirwareVersion>)
    ensures
        versions@ == versions_of(buffer@),
{
    let count: usize = buffer.len() / FIRWARE_VERSION_SIZE;
    let mut versions: Vec<FirwareVersion> = Vec::with_capacity(count);
    let mut index: usize = 0;
    while index < count
        invariant
            index <= count,
            count == buffer@.len() as int / FIRWARE_VERSION_SIZE as int,
            count * FIRWARE_VERSION_SIZE <= buffer@.len() <= usize::MAX,
            versions@.len() == index,
            forall|i: int| 0 <= i < index ==> versions@[i] == versions_of(buffer@)[i],
        decreases count - index,
    {
        let entry = slice_subrange(buffer, index * FIRWARE_VERSION_SIZE, buffer.len());
        match FirwareVersion::try_from(entry) {
            Ok(version) => versions.push(version),
            Err(_) => {},
        }
        index += 1;
    }
    versions
}

} // verus!
