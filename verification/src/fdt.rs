//! Flattened device tree helpers: the error codes of the underlying
//! C library, and the decoding of property cells into addresses and
//! memory regions.
//!
//! The tree itself is parsed by the C library during guest boot; what
//! stands here is the pure part: mapping its return codes, and turning
//! the big-endian cell arrays of `reg` properties into typed regions.

use crate::decimal::{dec_rep_i32, i32_to_decimal};
use vstd::prelude::*;

verus! {

/// FDT_ERR_NOTFOUND
pub const FDT_ERR_NOTFOUND: i32 = 1;

/// FDT_ERR_EXISTS
pub const FDT_ERR_EXISTS: i32 = 2;

/// FDT_ERR_NOSPACE
pub const FDT_ERR_NOSPACE: i32 = 3;

/// FDT_ERR_BADOFFSET
pub const FDT_ERR_BADOFFSET: i32 = 4;

/// FDT_ERR_BADPATH
pub const FDT_ERR_BADPATH: i32 = 5;

/// FDT_ERR_BADPHANDLE
pub const FDT_ERR_BADPHANDLE: i32 = 6;

/// FDT_ERR_BADSTATE
pub const FDT_ERR_BADSTATE: i32 = 7;

/// FDT_ERR_TRUNCATED
pub const FDT_ERR_TRUNCATED: i32 = 8;

/// FDT_ERR_BADMAGIC
pub const FDT_ERR_BADMAGIC: i32 = 9;

/// FDT_ERR_BADVERSION
pub const FDT_ERR_BADVERSION: i32 = 10;

/// FDT_ERR_BADSTRUCTURE
pub const FDT_ERR_BADSTRUCTURE: i32 = 11;

/// FDT_ERR_BADLAYOUT
pub const FDT_ERR_BADLAYOUT: i32 = 12;

/// FDT_ERR_INTERNAL
pub const FDT_ERR_INTERNAL: i32 = 13;

/// FDT_ERR_BADNCELLS
pub const FDT_ERR_BADNCELLS: i32 = 14;

/// FDT_ERR_BADVALUE
pub const FDT_ERR_BADVALUE: i32 = 15;

/// FDT_ERR_BADOVERLAY
pub const FDT_ERR_BADOVERLAY: i32 = 16;

/// FDT_ERR_NOPHANDLES
pub const FDT_ERR_NOPHANDLES: i32 = 17;

/// FDT_ERR_BADFLAGS
pub const FDT_ERR_BADFLAGS: i32 = 18;

/// FDT_ERR_ALIGNMENT
pub const FDT_ERR_ALIGNMENT: i32 = 19;

/// Error type corresponding to libfdt error codes.
#[derive(Clone, Copy, Debug, Eq, PartialEq, Structural)]
pub enum FdtError {
    /// FDT_ERR_NOTFOUND
    NotFound,
    /// FDT_ERR_EXISTS
    Exists,
    /// FDT_ERR_NOSPACE
    NoSpace,
    /// FDT_ERR_BADOFFSET
    BadOffset,
    /// FDT_ERR_BADPATH
    BadPath,
    /// FDT_ERR_BADPHANDLE
    BadPhandle,
    /// FDT_ERR_BADSTATE
    BadState,
    /// FDT_ERR_TRUNCATED
    Truncated,
    /// FDT_ERR_BADMAGIC
    BadMagic,
    /// FDT_ERR_BADVERSION
    BadVersion,
    /// FDT_ERR_BADSTRUCTURE
    BadStructure,
    /// FDT_ERR_BADLAYOUT
    BadLayout,
    /// FDT_ERR_INTERNAL
    Internal,
    /// FDT_ERR_BADNCELLS
    BadNCells,
    /// FDT_ERR_BADVALUE
    BadValue,
    /// FDT_ERR_BADOVERLAY
    BadOverlay,
    /// FDT_ERR_NOPHANDLES
    NoPhandles,
    /// FDT_ERR_BADFLAGS
    BadFlags,
    /// FDT_ERR_ALIGNMENT
    Alignment,
    /// Unexpected error code
    Unknown(i32),
}

/// The error message of each code, from the C library's documentation.
pub open spec fn spec_fdt_error_message(e: FdtError) -> Seq<char> {
    match e {
        FdtError::NotFound => "The requested node or property does not exist"@,
        FdtError::Exists => "Attempted to create an existing node or property"@,
        FdtError::NoSpace => "Insufficient buffer space to contain the expanded tree"@,
        FdtError::BadOffset => "Structure block offset is out-of-bounds or invalid"@,
        FdtError::BadPath => "Badly formatted path"@,
        FdtError::BadPhandle => "Invalid phandle length or value"@,
        FdtError::BadState => "Received incomplete device tree"@,
        FdtError::Truncated => "Device tree or sub-block is improperly terminated"@,
        FdtError::BadMagic => "Device tree header missing its magic number"@,
        FdtError::BadVersion => "Device tree has a version which can't be handled"@,
        FdtError::BadStructure => "Device tree has a corrupt structure block"@,
        FdtError::BadLayout => "Device tree sub-blocks in unsupported order"@,
        FdtError::Internal => "libfdt has failed an internal assertion"@,
        FdtError::BadNCells => "Bad format or value of #address-cells or #size-cells"@,
        FdtError::BadValue => "Unexpected property value"@,
        FdtError::BadOverlay => "Overlay cannot be applied"@,
        FdtError::NoPhandles => "Device tree doesn't have any phandle available anymore"@,
        FdtError::BadFlags => "Invalid flag or invalid combination of flags"@,
        FdtError::Alignment => "Device tree base address is not 8-byte aligned"@,
        FdtError::Unknown(code) => "Unknown libfdt error '"@ + dec_rep_i32(code) + "'"@,
    }
}

impl FdtError {
    /// The error message, as the C library's documentation words it.
    pub fn message(&self) -> (r: String)
        ensures
            r@ == spec_fdt_error_message(*self),
    {
        match self {
            FdtError::NotFound => String::from_str(
                "The requested node or property does not exist",
            ),
            FdtError::Exists => String::from_str(
                "Attempted to create an existing node or property",
            ),
            FdtError::NoSpace => String::from_str(
                "Insufficient buffer space to contain the expanded tree",
            ),
            FdtError::BadOffset => String::from_str(
                "Structure block offset is out-of-bounds or invalid",
            ),
            FdtError::BadPath => String::from_str("Badly formatted path"),
            FdtError::BadPhandle => String::from_str("Invalid phandle length or value"),
            FdtError::BadState => String::from_str("Received incomplete device tree"),
            FdtError::Truncated => String::from_str(
                "Device tree or sub-block is improperly terminated",
            ),
            FdtError::BadMagic => String::from_str(
                "Device tree header missing its magic number",
            ),
            FdtError::BadVersion => String::from_str(
                "Device tree has a version which can't be handled",
            ),
            FdtError::BadStructure => String::from_str(
                "Device tree has a corrupt structure block",
            ),
            FdtError::BadLayout => String::from_str(
                "Device tree sub-blocks in unsupported order",
            ),
            FdtError::Internal => String::from_str("libfdt has failed an internal assertion"),
            FdtError::BadNCells => String::from_str(
                "Bad format or value of #address-cells or #size-cells",
            ),
            FdtError::BadValue => String::from_str("Unexpected property value"),
            FdtError::BadOverlay => String::from_str("Overlay cannot be applied"),
            FdtError::NoPhandles => String::from_str(
                "Device tree doesn't have any phandle available anymore",
            ),
            FdtError::BadFlags => String::from_str(
                "Invalid flag or invalid combination of flags",
            ),
            FdtError::Alignment => String::from_str(
                "Device tree base address is not 8-byte aligned",
            ),
            FdtError::Unknown(code) => {
                let mut r = String::from_str("Unknown libfdt error '");
                let digits = i32_to_decimal(*code);
                r.append(digits.as_str());
                r.append("'");
                proof {
                    assert(r@ =~= spec_fdt_error_message(*self));
                }
                r
            },
        }
    }
}

/// What a raw return value of the C library means: a non-negative
/// value passes through, a negative one names an error code.
pub open spec fn spec_fdt_err(val: i32) -> Result<i32, FdtError> {
    if val >= 0 {
        Ok(val)
    } else {
        let code = -(val as int);
        Err(
            if code == FDT_ERR_NOTFOUND {
                FdtError::NotFound
            } else if code == FDT_ERR_EXISTS {
                FdtError::Exists
            } else if code == FDT_ERR_NOSPACE {
                FdtError::NoSpace
            } else if code == FDT_ERR_BADOFFSET {
                FdtError::BadOffset
            } else if code == FDT_ERR_BADPATH {
                FdtError::BadPath
            } else if code == FDT_ERR_BADPHANDLE {
                FdtError::BadPhandle
            } else if code == FDT_ERR_BADSTATE {
                FdtError::BadState
            } else if code == FDT_ERR_TRUNCATED {
                FdtError::Truncated
            } else if code == FDT_ERR_BADMAGIC {
                FdtError::BadMagic
            } else if code == FDT_ERR_BADVERSION {
                FdtError::BadVersion
            } else if code == FDT_ERR_BADSTRUCTURE {
                FdtError::BadStructure
            } else if code == FDT_ERR_BADLAYOUT {
                FdtError::BadLayout
            } else if code == FDT_ERR_INTERNAL {
                FdtError::Internal
            } else if code == FDT_ERR_BADNCELLS {
                FdtError::BadNCells
            } else if code == FDT_ERR_BADVALUE {
                FdtError::BadValue
            } else if code == FDT_ERR_BADOVERLAY {
                FdtError::BadOverlay
            } else if code == FDT_ERR_NOPHANDLES {
                FdtError::NoPhandles
            } else if code == FDT_ERR_BADFLAGS {
                FdtError::BadFlags
            } else if code == FDT_ERR_ALIGNMENT {
                FdtError::Alignment
            } else {
                FdtError::Unknown(val)
            },
        )
    }
}

/// Map a raw return value of the C library to a result.
pub fn fdt_err(val: i32) -> (r: Result<i32, FdtError>)
    ensures
        r == spec_fdt_err(val),
{
    if val >= 0 {
        Ok(val)
    } else {
        let code: i64 = -(val as i64);
        Err(
            if code == FDT_ERR_NOTFOUND as i64 {
                FdtError::NotFound
            } else if code == FDT_ERR_EXISTS as i64 {
                FdtError::Exists
            } else if code == FDT_ERR_NOSPACE as i64 {
                FdtError::NoSpace
            } else if code == FDT_ERR_BADOFFSET as i64 {
                FdtError::BadOffset
            } else if code == FDT_ERR_BADPATH as i64 {
                FdtError::BadPath
            } else if code == FDT_ERR_BADPHANDLE as i64 {
                FdtError::BadPhandle
            } else if code == FDT_ERR_BADSTATE as i64 {
                FdtError::BadState
            } else if code == FDT_ERR_TRUNCATED as i64 {
                FdtError::Truncated
            } else if code == FDT_ERR_BADMAGIC as i64 {
                FdtError::BadMagic
            } else if code == FDT_ERR_BADVERSION as i64 {
                FdtError::BadVersion
            } else if code == FDT_ERR_BADSTRUCTURE as i64 {
                FdtError::BadStructure
            } else if code == FDT_ERR_BADLAYOUT as i64 {
                FdtError::BadLayout
            } else if code == FDT_ERR_INTERNAL as i64 {
                FdtError::Internal
            } else if code == FDT_ERR_BADNCELLS as i64 {
                FdtError::BadNCells
            } else if code == FDT_ERR_BADVALUE as i64 {
                FdtError::BadValue
            } else if code == FDT_ERR_BADOVERLAY as i64 {
                FdtError::BadOverlay
            } else if code == FDT_ERR_NOPHANDLES as i64 {
                FdtError::NoPhandles
            } else if code == FDT_ERR_BADFLAGS as i64 {
                FdtError::BadFlags
            } else if code == FDT_ERR_ALIGNMENT as i64 {
                FdtError::Alignment
            } else {
                FdtError::Unknown(val)
            },
        )
    }
}

/// Map a raw return value that must be exactly zero on success.
pub fn fdt_err_expect_zero(val: i32) -> (r: Result<(), FdtError>)
    ensures
        val == 0 <==> r is Ok,
        r matches Err(e) ==> e == (if val < 0 {
            spec_fdt_err(val)->Err_0
        } else {
            FdtError::Unknown(val)
        }),
{
    match fdt_err(val) {
        Ok(0) => Ok(()),
        Ok(_) => Err(FdtError::Unknown(val)),
        Err(e) => Err(e),
    }
}

/// Value of a #address-cells property.
#[derive(Copy, Clone, Debug, PartialEq, Eq, Structural)]
pub enum AddrCells {
    /// One cell per address.
    Single,
    /// Two cells per address.
    Double,
}

/// How many cells an address takes.
pub open spec fn addr_cell_count(ac: AddrCells) -> int {
    match ac {
        AddrCells::Single => 1,
        AddrCells::Double => 2,
    }
}

impl AddrCells {
    /// Interpret a raw #address-cells return value of the C library.
    pub fn try_from_raw(res: i32) -> (r: Result<AddrCells, FdtError>)
        ensures
            res == 1 ==> r == Ok::<AddrCells, FdtError>(AddrCells::Single),
            res == 2 ==> r == Ok::<AddrCells, FdtError>(AddrCells::Double),
            res >= 0 && res != 1 && res != 2 ==> r == Err::<AddrCells, FdtError>(
                FdtError::BadNCells,
            ),
            res < 0 ==> r == Err::<AddrCells, FdtError>(spec_fdt_err(res)->Err_0),
    {
        match fdt_err(res) {
            Ok(1) => Ok(AddrCells::Single),
            Ok(2) => Ok(AddrCells::Double),
            Ok(_) => Err(FdtError::BadNCells),
            Err(e) => Err(e),
        }
    }
}

/// Value of a #size-cells property.
#[derive(Copy, Clone, Debug, PartialEq, Eq, Structural)]
pub enum SizeCells {
    /// Sizes are omitted.
    Zero,
    /// One cell per size.
    Single,
    /// Two cells per size.
    Double,
}

/// How many cells a size takes.
pub open spec fn size_cell_count(sc: SizeCells) -> int {
    match sc {
        SizeCells::Zero => 0,
        SizeCells::Single => 1,
        SizeCells::Double => 2,
    }
}

impl SizeCells {
    /// Interpret a raw #size-cells return value of the C library.
    pub fn try_from_raw(res: i32) -> (r: Result<SizeCells, FdtError>)
        ensures
            res == 0 ==> r == Ok::<SizeCells, FdtError>(SizeCells::Zero),
            res == 1 ==> r == Ok::<SizeCells, FdtError>(SizeCells::Single),
            res == 2 ==> r == Ok::<SizeCells, FdtError>(SizeCells::Double),
            res > 2 ==> r == Err::<SizeCells, FdtError>(FdtError::BadNCells),
            res < 0 ==> r == Err::<SizeCells, FdtError>(spec_fdt_err(res)->Err_0),
    {
        match fdt_err(res) {
            Ok(0) => Ok(SizeCells::Zero),
            Ok(1) => Ok(SizeCells::Single),
            Ok(2) => Ok(SizeCells::Double),
            Ok(_) => Err(FdtError::BadNCells),
            Err(e) => Err(e),
        }
    }
}

/// The big-endian 32-bit value of four bytes.
pub open spec fn be32(a: u8, b: u8, c: u8, d: u8) -> u32 {
    (a * 0x1000000 + b * 0x10000 + c * 0x100 + d) as u32
}

/// The cells of a property value: each complete 4-byte chunk read
/// big-endian; a trailing fragment is ignored.
pub open spec fn spec_cells(b: Seq<u8>) -> Seq<u32>
    decreases b.len(),
{
    if b.len() < 4 {
        Seq::empty()
    } else {
        seq![be32(b[0], b[1], b[2], b[3])] + spec_cells(b.skip(4))
    }
}

/// Iterator over cells of a DT property.
#[derive(Debug)]
pub struct CellIterator<'a> {
    /// The property bytes.
    pub bytes: &'a [u8],
    /// How many bytes were consumed; always a multiple of four.
    pub pos: usize,
}

impl<'a> CellIterator<'a> {
    /// The cells not yet returned.
    pub open spec fn remaining(self) -> Seq<u32> {
        if self.pos <= self.bytes@.len() {
            spec_cells(self.bytes@.skip(self.pos as int))
        } else {
            Seq::empty()
        }
    }

    /// An iterator over the cells of the given property value.
    pub fn new(bytes: &'a [u8]) -> (r: CellIterator<'a>)
        ensures
            r.bytes@ == bytes@,
            r.pos == 0,
            r.remaining() == spec_cells(bytes@),
    {
        let r = CellIterator { bytes, pos: 0 };
        proof {
            assert(bytes@.skip(0) =~= bytes@);
        }
        r
    }

    /// The next cell, big-endian, if a complete one remains.
    pub fn next(&mut self) -> (r: Option<u32>)
        ensures
            final(self).bytes@ == old(self).bytes@,
            old(self).remaining().len() == 0 ==> r is None && *final(self) == *old(self),
            old(self).remaining().len() > 0 ==> {
                &&& r == Some(old(self).remaining()[0])
                &&& final(self).remaining() == old(self).remaining().skip(1)
            },
    {
        if self.pos >= self.bytes.len() || self.bytes.len() - self.pos < 4 {
            proof {
                if old(self).pos <= old(self).bytes@.len() {
                    assert(old(self).bytes@.skip(old(self).pos as int).len() < 4);
                }
            }
            return None;
        }
        let a = self.bytes[self.pos];
        let b = self.bytes[self.pos + 1];
        let c = self.bytes[self.pos + 2];
        let d = self.bytes[self.pos + 3];
        let cell: u32 = (a as u32) * 0x1000000 + (b as u32) * 0x10000 + (c as u32) * 0x100 + (
        d as u32);
        self.pos = self.pos + 4;
        proof {
            let rest = old(self).bytes@.skip(old(self).pos as int);
            assert(rest.len() >= 4);
            assert(rest[0] == old(self).bytes@[old(self).pos as int]);
            assert(rest[1] == old(self).bytes@[old(self).pos + 1]);
            assert(rest[2] == old(self).bytes@[old(self).pos + 2]);
            assert(rest[3] == old(self).bytes@[old(self).pos + 3]);
            assert(cell == be32(rest[0], rest[1], rest[2], rest[3]));
            assert(self.bytes@.skip(self.pos as int) =~= rest.skip(4));
            assert(old(self).remaining() == seq![be32(rest[0], rest[1], rest[2], rest[3])]
                + spec_cells(rest.skip(4)));
            assert(self.remaining() =~= old(self).remaining().skip(1));
        }
        Some(cell)
    }
}

/// Represents a contiguous region within the address space defined by
/// the parent bus. Commonly means the offsets and lengths of MMIO
/// blocks, but may have a different meaning on some bus types.
/// Addresses in the address space defined by the root node are CPU
/// real addresses.
#[derive(Copy, Clone, Debug)]
pub struct Reg<T> {
    /// Base address of the region.
    pub addr: T,
    /// Size of the region (optional).
    pub size: Option<T>,
}

/// Two cells combined into a 64-bit value, high cell first.
pub open spec fn make_double(hi: u32, lo: u32) -> u64 {
    (hi * 0x100000000 + lo) as u64
}

/// The region encoded at the head of a cell sequence, for the given
/// cell widths. Meaningful when enough cells remain.
pub open spec fn spec_reg(cells: Seq<u32>, ac: AddrCells, sc: SizeCells) -> Reg<u64> {
    let addr = match ac {
        AddrCells::Single => cells[0] as u64,
        AddrCells::Double => make_double(cells[0], cells[1]),
    };
    let k = addr_cell_count(ac);
    let size = match sc {
        SizeCells::Zero => None,
        SizeCells::Single => Some(cells[k] as u64),
        SizeCells::Double => Some(make_double(cells[k], cells[k + 1])),
    };
    Reg { addr, size }
}

/// Iterator over a 'reg' property of a DT node.
#[derive(Debug)]
pub struct RegIterator<'a> {
    /// The underlying cell iterator.
    pub cells: CellIterator<'a>,
    /// The width of an address, from the parent's #address-cells.
    pub addr_cells: AddrCells,
    /// The width of a size, from the parent's #size-cells.
    pub size_cells: SizeCells,
}

impl<'a> RegIterator<'a> {
    /// How many cells one region takes.
    pub open spec fn cells_per_reg(self) -> int {
        addr_cell_count(self.addr_cells) + size_cell_count(self.size_cells)
    }

    /// An iterator over the regions of a property, with the cell
    /// widths the parent node declared.
    pub fn new(cells: CellIterator<'a>, addr_cells: AddrCells, size_cells: SizeCells) -> (r:
        RegIterator<'a>)
        ensures
            r.cells == cells,
            r.addr_cells == addr_cells,
            r.size_cells == size_cells,
    {
        RegIterator { cells, addr_cells, size_cells }
    }

    /// The next region, if enough complete cells remain.
    pub fn next(&mut self) -> (r: Option<Reg<u64>>)
        ensures
            final(self).addr_cells == old(self).addr_cells,
            final(self).size_cells == old(self).size_cells,
            old(self).cells.remaining().len() >= old(self).cells_per_reg() ==> {
                &&& r == Some(
                    spec_reg(
                        old(self).cells.remaining(),
                        old(self).addr_cells,
                        old(self).size_cells,
                    ),
                )
                &&& final(self).cells.remaining() == old(self).cells.remaining().skip(
                    old(self).cells_per_reg(),
                )
            },
            old(self).cells.remaining().len() < old(self).cells_per_reg() ==> r is None,
    {
        let ghost rem0 = self.cells.remaining();
        let addr: u64 = match self.addr_cells {
            AddrCells::Single => {
                let c = match self.cells.next() {
                    Some(c) => c,
                    None => {
                        return None;
                    },
                };
                c as u64
            },
            AddrCells::Double => {
                let hi = match self.cells.next() {
                    Some(c) => c,
                    None => {
                        return None;
                    },
                };
                let lo = match self.cells.next() {
                    Some(c) => c,
                    None => {
                        return None;
                    },
                };
                (hi as u64) * 0x100000000 + (lo as u64)
            },
        };
        // If the parent node specifies a value of 0 for #size-cells,
        // 'size' shall be omitted.
        let size: Option<u64> = match self.size_cells {
            SizeCells::Zero => None,
            SizeCells::Single => {
                let c = match self.cells.next() {
                    Some(c) => c,
                    None => {
                        return None;
                    },
                };
                Some(c as u64)
            },
            SizeCells::Double => {
                let hi = match self.cells.next() {
                    Some(c) => c,
                    None => {
                        return None;
                    },
                };
                let lo = match self.cells.next() {
                    Some(c) => c,
                    None => {
                        return None;
                    },
                };
                Some((hi as u64) * 0x100000000 + (lo as u64))
            },
        };
        proof {
            if rem0.len() >= old(self).cells_per_reg() {
                assert(self.cells.remaining() =~= rem0.skip(old(self).cells_per_reg()));
            }
        }
        Some(Reg { addr, size })
    }
}

/// Iterator over the address ranges defined by the /memory/ node.
#[derive(Debug)]
pub struct MemRegIterator<'a> {
    /// The underlying region iterator.
    pub reg: RegIterator<'a>,
}

impl<'a> MemRegIterator<'a> {
    /// An iterator over memory ranges, from the region iterator of
    /// the node's 'reg' property.
    pub fn new(reg: RegIterator<'a>) -> (r: Result<MemRegIterator<'a>, FdtError>)
        ensures
            r matches Ok(it) && it.reg == reg,
    {
        Ok(MemRegIterator { reg })
    }

    /// The next memory range: the next region whose address and size
    /// both fit the host's address width, as a half-open range.
    /// Exhausted at the first region that has no size or does not
    /// fit.
    pub fn next(&mut self) -> (r: Option<(usize, usize)>)
        ensures
            final(self).reg.addr_cells == old(self).reg.addr_cells,
            final(self).reg.size_cells == old(self).reg.size_cells,
            match r {
                Some(range) => {
                    let region = spec_reg(
                        old(self).reg.cells.remaining(),
                        old(self).reg.addr_cells,
                        old(self).reg.size_cells,
                    );
                    &&& old(self).reg.cells.remaining().len() >= old(self).reg.cells_per_reg()
                    &&& region.size is Some
                    &&& range.0 == region.addr
                    &&& range.1 == region.addr + region.size->Some_0
                    &&& region.addr + region.size->Some_0 <= usize::MAX
                },
                None => {
                    let region = spec_reg(
                        old(self).reg.cells.remaining(),
                        old(self).reg.addr_cells,
                        old(self).reg.size_cells,
                    );
                    ||| old(self).reg.cells.remaining().len() < old(self).reg.cells_per_reg()
                    ||| region.size is None
                    ||| region.addr > usize::MAX
                    ||| region.size->Some_0 > usize::MAX
                    ||| region.addr + region.size->Some_0 > usize::MAX
                },
            },
    {
        let next = match self.reg.next() {
            Some(next) => next,
            None => {
                return None;
            },
        };
        let size = match next.size {
            Some(size) => size,
            None => {
                return None;
            },
        };
        if next.addr > usize::MAX as u64 || size > usize::MAX as u64 {
            return None;
        }
        let addr = next.addr as usize;
        let size = size as usize;
        if size > usize::MAX - addr {
            return None;
        }
        Some((addr, addr + size))
    }
}

} // verus!
