//! What the device answers to the commands that read from it, field by
//! field as it lies in the bytes. Every number is little-endian. A field that
//! holds a floating-point number is kept as its IEEE-754 single-precision bit
//! pattern.
use vstd::prelude::*;

use crate::error::Error;
use crate::wire::{le_u16, le_u32, read_u16, read_u32};

verus! {

/// Samples of one P0 table: one per pixel of the depth image.
pub const TABLE_SIZE: usize = 217088;

/// Bytes of the header of the P0 tables page.
pub const P0_HEADER_SIZE: usize = 32;

/// Bytes of one P0 table with the word before it and the word after it.
pub const P0_BLOCK_SIZE: usize = 434180;

/// The parameters of the color camera: one byte that names the table, the
/// intrinsics, the shift pair, the ten coefficients of each of the two
/// cubic polynomials that map depth to color, and two tables that are not
/// read.
#[derive(Debug, Clone, Copy, PartialEq, Eq)]
pub struct RgbParamsResponse {
    pub color_f: u32,
    pub color_cx: u32,
    pub color_cy: u32,
    pub shift_d: u32,
    pub shift_m: u32,
    pub mx_x3y0: u32,
    pub mx_x0y3: u32,
    pub mx_x2y1: u32,
    pub mx_x1y2: u32,
    pub mx_x2y0: u32,
    pub mx_x0y2: u32,
    pub mx_x1y1: u32,
    pub mx_x1y0: u32,
    pub mx_x0y1: u32,
    pub mx_x0y0: u32,
    pub my_x3y0: u32,
    pub my_x0y3: u32,
    pub my_x2y1: u32,
    pub my_x1y2: u32,
    pub my_x2y0: u32,
    pub my_x0y2: u32,
    pub my_x1y1: u32,
    pub my_x1y0: u32,
    pub my_x0y1: u32,
    pub my_x0y0: u32,
}

impl RgbParamsResponse {
    /// Bytes of the structure on the wire.
    pub const SIZE: usize = 12981;

    /// The structure that the first bytes of `bytes` hold.
    pub open spec fn of(bytes: Seq<u8>) -> Self {
        RgbParamsResponse {
            color_f: le_u32(bytes, 1),
            color_cx: le_u32(bytes, 5),
            color_cy: le_u32(bytes, 9),
            shift_d: le_u32(bytes, 13),
            shift_m: le_u32(bytes, 17),
            mx_x3y0: le_u32(bytes, 21),
            mx_x0y3: le_u32(bytes, 25),
            mx_x2y1: le_u32(bytes, 29),
            mx_x1y2: le_u32(bytes, 33),
            mx_x2y0: le_u32(bytes, 37),
            mx_x0y2: le_u32(bytes, 41),
            mx_x1y1: le_u32(bytes, 45),
            mx_x1y0: le_u32(bytes, 49),
            mx_x0y1: le_u32(bytes, 53),
            mx_x0y0: le_u32(bytes, 57),
            my_x3y0: le_u32(bytes, 61),
            my_x0y3: le_u32(bytes, 65),
            my_x2y1: le_u32(bytes, 69),
            my_x1y2: le_u32(bytes, 73),
            my_x2y0: le_u32(bytes, 77),
            my_x0y2: le_u32(bytes, 81),
            my_x1y1: le_u32(bytes, 85),
            my_x1y0: le_u32(bytes, 89),
            my_x0y1: le_u32(bytes, 93),
            my_x0y0: le_u32(bytes, 97),
        }
    }

    /// Bytes of the structure on the wire.
    pub fn size() -> (size: usize)
        ensures
            size == Self::SIZE,
    {
        Self::SIZE
    }

    /// Reads the structure from the start of `bytes`. Fails where `bytes`
    /// are fewer than the structure has.
    pub fn read_unaligned(bytes: &[u8]) -> (read: Result<Self, Error>)
        ensures
            bytes@.len() >= Self::SIZE ==> read == Ok::<Self, Error>(Self::of(bytes@)),
            bytes@.len() < Self::SIZE ==> read == Err::<Self, Error>(
                Error::UnalignedRead("RgbParamsResponse"),
            ),
    {
        if bytes.len() >= Self::SIZE {
            Ok(
                RgbParamsResponse {
                    color_f: read_u32(bytes, 1),
                    color_cx: read_u32(bytes, 5),
                    color_cy: read_u32(bytes, 9),
                    shift_d: read_u32(bytes, 13),
                    shift_m: read_u32(bytes, 17),
                    mx_x3y0: read_u32(bytes, 21),
                    mx_x0y3: read_u32(bytes, 25),
                    mx_x2y1: read_u32(bytes, 29),
                    mx_x1y2: read_u32(bytes, 33),
                    mx_x2y0: read_u32(bytes, 37),
                    mx_x0y2: read_u32(bytes, 41),
                    mx_x1y1: read_u32(bytes, 45),
                    mx_x1y0: read_u32(bytes, 49),
                    mx_x0y1: read_u32(bytes, 53),
                    mx_x0y0: read_u32(bytes, 57),
                    my_x3y0: read_u32(bytes, 61),
                    my_x0y3: read_u32(bytes, 65),
                    my_x2y1: read_u32(bytes, 69),
                    my_x1y2: read_u32(bytes, 73),
                    my_x2y0: read_u32(bytes, 77),
                    my_x0y2: read_u32(bytes, 81),
                    my_x1y1: read_u32(bytes, 85),
                    my_x1y0: read_u32(bytes, 89),
                    my_x0y1: read_u32(bytes, 93),
                    my_x0y0: read_u32(bytes, 97),
                },
            )
        } else {
            Err(Error::UnalignedRead("RgbParamsResponse"))
        }
    }
}

/// The parameters of the depth camera: intrinsics and distortion
/// coefficients, in the order `fx, fy, 0, cx, cy, k1, k2, p1, p2, k3`, and
/// thirteen words that are not read.
#[derive(Debug, Clone, Copy, PartialEq, Eq)]
pub struct DepthParamsResponse {
    pub fx: u32,
    pub fy: u32,
    pub cx: u32,
    pub cy: u32,
    pub k1: u32,
    pub k2: u32,
    pub p1: u32,
    pub p2: u32,
    pub k3: u32,
}

impl DepthParamsResponse {
    /// Bytes of the structure on the wire.
    pub const SIZE: usize = 92;

    /// The structure that the first bytes of `bytes` hold.
    pub open spec fn of(bytes: Seq<u8>) -> Self {
        DepthParamsResponse {
            fx: le_u32(bytes, 0),
            fy: le_u32(bytes, 4),
            cx: le_u32(bytes, 12),
            cy: le_u32(bytes, 16),
            k1: le_u32(bytes, 20),
            k2: le_u32(bytes, 24),
            p1: le_u32(bytes, 28),
            p2: le_u32(bytes, 32),
            k3: le_u32(bytes, 36),
        }
    }

    /// Bytes of the structure on the wire.
    pub fn size() -> (size: usize)
        ensures
            size == Self::SIZE,
    {
        Self::SIZE
    }

    /// Reads the structure from the start of `bytes`. Fails where `bytes`
    /// are fewer than the structure has.
    pub fn read_unaligned(bytes: &[u8]) -> (read: Result<Self, Error>)
        ensures
            bytes@.len() >= Self::SIZE ==> read == Ok::<Self, Error>(Self::of(bytes@)),
            bytes@.len() < Self::SIZE ==> read == Err::<Self, Error>(
                Error::UnalignedRead("DepthParamsResponse"),
            ),
    {
        if bytes.len() >= Self::SIZE {
            Ok(
                DepthParamsResponse {
                    fx: read_u32(bytes, 0),
                    fy: read_u32(bytes, 4),
                    cx: read_u32(bytes, 12),
                    cy: read_u32(bytes, 16),
                    k1: read_u32(bytes, 20),
                    k2: read_u32(bytes, 24),
                    p1: read_u32(bytes, 28),
                    p2: read_u32(bytes, 32),
                    k3: read_u32(bytes, 36),
                },
            )
        } else {
            Err(Error::UnalignedRead("DepthParamsResponse"))
        }
    }
}

/// The version of one part of the firmware.
#[derive(Debug, Clone, Copy, PartialEq, Eq)]
pub struct FirmwareVersionResponse {
    pub min: u16,
    pub maj: u16,
    pub revision: u32,
    pub build: u32,
}

impl FirmwareVersionResponse {
    /// Bytes of the structure on the wire.
    pub const SIZE: usize = 16;

    /// The structure that the first bytes of `bytes` hold.
    pub open spec fn of(bytes: Seq<u8>) -> Self {
        FirmwareVersionResponse {
            min: le_u16(bytes, 0),
            maj: le_u16(bytes, 2),
            revision: le_u32(bytes, 4),
            build: le_u32(bytes, 8),
        }
    }

    /// Bytes of the structure on the wire.
    pub fn size() -> (size: usize)
        ensures
            size == Self::SIZE,
    {
        Self::SIZE
    }

    /// Reads the structure from the start of `bytes`. Fails where `bytes`
    /// are fewer than the structure has.
    pub fn read_unaligned(bytes: &[u8]) -> (read: Result<Self, Error>)
        ensures
            bytes@.len() >= Self::SIZE ==> read == Ok::<Self, Error>(Self::of(bytes@)),
            bytes@.len() < Self::SIZE ==> read == Err::<Self, Error>(
                Error::UnalignedRead("FirmwareVersionResponse"),
            ),
    {
        if bytes.len() >= Self::SIZE {
            Ok(
                FirmwareVersionResponse {
                    min: read_u16(bytes, 0),
                    maj: read_u16(bytes, 2),
                    revision: read_u32(bytes, 4),
                    build: read_u32(bytes, 8),
                },
            )
        } else {
            Err(Error::UnalignedRead("FirmwareVersionResponse"))
        }
    }
}

/// The answer to a command that reads or changes one setting of the color
/// camera: three words of status, then the value.
#[derive(Debug, Clone, Copy, PartialEq, Eq)]
pub struct ColorSettingResponse {
    pub data: u32,
}

impl ColorSettingResponse {
    /// Bytes of the structure on the wire.
    pub const SIZE: usize = 16;

    /// The structure that the first bytes of `bytes` hold.
    pub open spec fn of(bytes: Seq<u8>) -> Self {
        ColorSettingResponse {
            data: le_u32(bytes, 12),
        }
    }

    /// Bytes of the structure on the wire.
    pub fn size() -> (size: usize)
        ensures
            size == Self::SIZE,
    {
        Self::SIZE
    }

    /// Reads the structure from the start of `bytes`. Fails where `bytes`
    /// are fewer than the structure has.
    pub fn read_unaligned(bytes: &[u8]) -> (read: Result<Self, Error>)
        ensures
            bytes@.len() >= Self::SIZE ==> read == Ok::<Self, Error>(Self::of(bytes@)),
            bytes@.len() < Self::SIZE ==> read == Err::<Self, Error>(
                Error::UnalignedRead("ColorSettingResponse"),
            ),
    {
        if bytes.len() >= Self::SIZE {
            Ok(
                ColorSettingResponse {
                    data: read_u32(bytes, 12),
                },
            )
        } else {
            Err(Error::UnalignedRead("ColorSettingResponse"))
        }
    }
}

/// Where table `k` of the P0 tables page starts.
pub open spec fn p0_table_start(k: int) -> int {
    P0_HEADER_SIZE + 2 + k * P0_BLOCK_SIZE
}

/// Table `k` of the P0 tables page `bytes`.
pub open spec fn p0_table(bytes: Seq<u8>, k: int) -> Seq<u16> {
    Seq::new(TABLE_SIZE as nat, |i: int| le_u16(bytes, p0_table_start(k) + 2 * i))
}

/// The three tables of phase offsets, one per modulation frequency. On the
/// wire a header of eight words comes first, and one word stands before and
/// after each table.
#[derive(Debug)]
pub struct P0TablesResponse {
    pub p0_table0: Vec<u16>,
    pub p0_table1: Vec<u16>,
    pub p0_table2: Vec<u16>,
}

fn read_p0_table(bytes: &[u8], k: usize) -> (table: Vec<u16>)
    requires
        k < 3,
        bytes@.len() >= P0TablesResponse::SIZE,
    ensures
        table@ == p0_table(bytes@, k as int),
{
    let start: usize = P0_HEADER_SIZE + 2 + k * P0_BLOCK_SIZE;
    let mut table: Vec<u16> = Vec::with_capacity(TABLE_SIZE);
    let mut i: usize = 0;
    while i < TABLE_SIZE
        invariant
            i <= TABLE_SIZE,
            k < 3,
            start == p0_table_start(k as int),
            bytes@.len() >= P0TablesResponse::SIZE,
            table@.len() == i,
            forall|j: int| 0 <= j < i ==> table@[j] == le_u16(bytes@, start + 2 * j),
        decreases TABLE_SIZE - i,
    {
        table.push(read_u16(bytes, start + 2 * i));
        i += 1;
    }
    table
}

impl P0TablesResponse {
    /// Bytes of the structure on the wire.
    pub const SIZE: usize = 1302572;

    /// Bytes of the structure on the wire.
    pub fn size() -> (size: usize)
        ensures
            size == Self::SIZE,
    {
        Self::SIZE
    }

    /// Reads the three tables from the start of `bytes`. Fails where `bytes`
    /// are fewer than the structure has.
    pub fn read_unaligned(bytes: &[u8]) -> (read: Result<Self, Error>)
        ensures
            bytes@.len() >= Self::SIZE <==> read is Ok,
            read matches Ok(tables) ==> {
                &&& tables.p0_table0@ == p0_table(bytes@, 0)
                &&& tables.p0_table1@ == p0_table(bytes@, 1)
                &&& tables.p0_table2@ == p0_table(bytes@, 2)
            },
            read matches Err(error) ==> error == Error::UnalignedRead("P0TablesResponse"),
    {
        if bytes.len() < Self::SIZE {
            return Err(Error::UnalignedRead("P0TablesResponse"));
        }
        Ok(
            P0TablesResponse {
                p0_table0: read_p0_table(bytes, 0),
                p0_table1: read_p0_table(bytes, 1),
                p0_table2: read_p0_table(bytes, 2),
            },
        )
    }
}

} // verus!
