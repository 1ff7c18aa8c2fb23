//! Device tree error codes and property-cell decoding.

use virtualizationservice::fdt::{fdt_err, fdt_err_expect_zero, AddrCells, CellIterator,
    FdtError, MemRegIterator, RegIterator, SizeCells};

#[test]
fn return_codes_map_to_errors() {
    assert_eq!(Ok(0), fdt_err(0));
    assert_eq!(Ok(17), fdt_err(17));
    assert_eq!(Err(FdtError::NotFound), fdt_err(-1));
    assert_eq!(Err(FdtError::Exists), fdt_err(-2));
    assert_eq!(Err(FdtError::BadMagic), fdt_err(-9));
    assert_eq!(Err(FdtError::BadNCells), fdt_err(-14));
    assert_eq!(Err(FdtError::Alignment), fdt_err(-19));
    assert_eq!(Err(FdtError::Unknown(-42)), fdt_err(-42));
}

#[test]
fn expect_zero_accepts_only_zero() {
    assert_eq!(Ok(()), fdt_err_expect_zero(0));
    assert_eq!(Err(FdtError::Unknown(3)), fdt_err_expect_zero(3));
    assert_eq!(Err(FdtError::NoSpace), fdt_err_expect_zero(-3));
}

#[test]
fn error_messages_follow_the_library_documentation() {
    assert_eq!(
        "The requested node or property does not exist",
        FdtError::NotFound.message()
    );
    assert_eq!(
        "Device tree base address is not 8-byte aligned",
        FdtError::Alignment.message()
    );
    assert_eq!("Unknown libfdt error '-42'", FdtError::Unknown(-42).message());
}

#[test]
fn cells_are_read_big_endian_and_fragments_ignored() {
    let bytes = [0u8, 0, 0, 1, 0, 0, 1, 0, 0xff];
    let mut cells = CellIterator::new(&bytes);
    assert_eq!(Some(1), cells.next());
    assert_eq!(Some(256), cells.next());
    // The trailing fragment is not a cell.
    assert_eq!(None, cells.next());
    assert_eq!(None, cells.next());
}

#[test]
fn cell_width_properties_parse() {
    assert_eq!(Ok(AddrCells::Single), AddrCells::try_from_raw(1));
    assert_eq!(Ok(AddrCells::Double), AddrCells::try_from_raw(2));
    assert_eq!(Err(FdtError::BadNCells), AddrCells::try_from_raw(3));
    assert_eq!(Err(FdtError::NotFound), AddrCells::try_from_raw(-1));
    assert_eq!(Ok(SizeCells::Zero), SizeCells::try_from_raw(0));
    assert_eq!(Ok(SizeCells::Single), SizeCells::try_from_raw(1));
    assert_eq!(Ok(SizeCells::Double), SizeCells::try_from_raw(2));
    assert_eq!(Err(FdtError::BadNCells), SizeCells::try_from_raw(5));
}

#[test]
fn regions_combine_cells_by_declared_widths() {
    // addr = (1 << 32) | 2, size = 0x1000, with two address cells and
    // one size cell.
    let bytes = [
        0u8, 0, 0, 1, // addr high
        0, 0, 0, 2, // addr low
        0, 0, 0x10, 0, // size
    ];
    let cells = CellIterator::new(&bytes);
    let mut regs = RegIterator::new(cells, AddrCells::Double, SizeCells::Single);
    let reg = regs.next().unwrap();
    assert_eq!(0x1_0000_0002, reg.addr);
    assert_eq!(Some(0x1000), reg.size);
    assert!(regs.next().is_none());
}

#[test]
fn sizes_are_omitted_when_the_parent_says_so() {
    let bytes = [0u8, 0, 0, 7];
    let cells = CellIterator::new(&bytes);
    let mut regs = RegIterator::new(cells, AddrCells::Single, SizeCells::Zero);
    let reg = regs.next().unwrap();
    assert_eq!(7, reg.addr);
    assert_eq!(None, reg.size);
}

#[test]
fn memory_ranges_are_half_open() {
    let bytes = [
        0u8, 0, 0x10, 0, // addr 0x1000
        0, 0, 0x20, 0, // size 0x2000
    ];
    let cells = CellIterator::new(&bytes);
    let regs = RegIterator::new(cells, AddrCells::Single, SizeCells::Single);
    let mut mem = MemRegIterator::new(regs).unwrap();
    assert_eq!(Some((0x1000, 0x3000)), mem.next());
    assert_eq!(None, mem.next());
}

#[test]
fn memory_iteration_stops_at_an_omitted_size() {
    let bytes = [0u8, 0, 0, 7];
    let cells = CellIterator::new(&bytes);
    let regs = RegIterator::new(cells, AddrCells::Single, SizeCells::Zero);
    let mut mem = MemRegIterator::new(regs).unwrap();
    assert_eq!(None, mem.next());
}
