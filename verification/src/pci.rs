//! PCI configuration space access through port-mapped I/O.

use vstd::prelude::*;
use crate::error::{ZxError, ZxResult};

verus! {

/// The configuration address of register `offset` of function `func` of
/// device `dev` on bus `bus`: bus in bits 23-16, device in bits 15-11,
/// function in bits 10-8 and the register offset, bottom two bits included,
/// in bits 7-0. Device numbers are taken modulo 32 and function numbers
/// modulo 8, as only that many bits hold them.
pub open spec fn bdf_raw_addr(bus: u8, dev: u8, func: u8, offset: u8) -> int {
    bus * 0x10000 + (dev % 32) * 0x800 + (func % 8) * 0x100 + offset
}

/// Returns the BDF address without the bottom two bits masked off.
pub fn pci_bdf_raw_addr(bus: u8, dev: u8, func: u8, offset: u8) -> (addr: u32)
    ensures
        addr == bdf_raw_addr(bus, dev, func, offset),
{
    let b: u32 = bus as u32;
    let d: u32 = dev as u32;
    let f: u32 = func as u32;
    let o: u32 = offset as u32;
    let addr: u32 = ((b & 0xff) << 16) | ((d & 0x1f) << 11) | ((f & 0x7) << 8) | (o & 0xff);
    assert(addr == b * 0x10000 + (d % 32) * 0x800 + (f % 8) * 0x100 + o) by (bit_vector)
        requires
            b < 256,
            d < 256,
            f < 256,
            o < 256,
            addr == ((b & 0xff) << 16) | ((d & 0x1f) << 11) | ((f & 0x7) << 8) | (o & 0xff),
    ;
    addr
}

/// Field decoding: the bus, the device and function numbers (as far as their
/// bit fields hold them) and the register offset can all be read back from the
/// configuration address, and the address fits in 24 bits. So distinct
/// `(bus, dev % 32, func % 8, offset)` tuples give distinct addresses.
pub proof fn lemma_bdf_raw_addr_fields(bus: u8, dev: u8, func: u8, offset: u8)
    ensures
        0 <= bdf_raw_addr(bus, dev, func, offset) < 0x100_0000,
        bdf_raw_addr(bus, dev, func, offset) / 0x10000 == bus,
        (bdf_raw_addr(bus, dev, func, offset) / 0x800) % 32 == dev % 32,
        (bdf_raw_addr(bus, dev, func, offset) / 0x100) % 8 == func % 8,
        bdf_raw_addr(bus, dev, func, offset) % 0x100 == offset,
{
    let b: u32 = bus as u32;
    let d: u32 = (dev % 32) as u32;
    let f: u32 = (func % 8) as u32;
    let o: u32 = offset as u32;
    assert({
        let a = b * 0x10000 + d * 0x800 + f * 0x100 + o;
        &&& a < 0x100_0000
        &&& a / 0x10000 == b
        &&& (a / 0x800) % 32 == d
        &&& (a / 0x100) % 8 == f
        &&& a % 0x100 == o
    }) by (bit_vector)
        requires
            b < 256,
            d < 32,
            f < 8,
            o < 256,
    ;
}

/// Two configuration addresses are equal exactly when they name the same bus,
/// device, function and register.
pub proof fn lemma_bdf_raw_addr_injective(
    bus1: u8,
    dev1: u8,
    func1: u8,
    offset1: u8,
    bus2: u8,
    dev2: u8,
    func2: u8,
    offset2: u8,
)
    ensures
        bdf_raw_addr(bus1, dev1, func1, offset1) == bdf_raw_addr(bus2, dev2, func2, offset2)
            <==> (bus1 == bus2 && dev1 % 32 == dev2 % 32 && func1 % 8 == func2 % 8
            && offset1 == offset2),
{
    lemma_bdf_raw_addr_fields(bus1, dev1, func1, offset1);
    lemma_bdf_raw_addr_fields(bus2, dev2, func2, offset2);
}

/// Reads `width` bytes of configuration space at a raw configuration
/// address. Port-mapped configuration access is not available on this
/// platform, so the read always fails with `NOT_SUPPORTED`.
pub fn pmio_config_read_addr(_addr: u32, _width: usize) -> (r: ZxResult<u32>)
    ensures
        r == Err::<u32, ZxError>(ZxError::NOT_SUPPORTED),
{
    Err(ZxError::NOT_SUPPORTED)
}

/// Writes `width` bytes of `val` to configuration space at a raw
/// configuration address. Port-mapped configuration access is not available
/// on this platform, so the write always fails with `NOT_SUPPORTED`.
pub fn pmio_config_write_addr(_addr: u32, _val: u32, _width: usize) -> (r: ZxResult)
    ensures
        r == Err::<(), ZxError>(ZxError::NOT_SUPPORTED),
{
    Err(ZxError::NOT_SUPPORTED)
}

/// Reads a configuration register of a PCI function through port I/O, at the
/// address `pci_bdf_raw_addr` gives; fails with `NOT_SUPPORTED`, as every
/// port-mapped configuration access does here.
pub fn pio_config_read(bus: u8, dev: u8, func: u8, offset: u8, width: usize) -> (r: ZxResult<u32>)
    ensures
        r == Err::<u32, ZxError>(ZxError::NOT_SUPPORTED),
{
    pmio_config_read_addr(pci_bdf_raw_addr(bus, dev, func, offset), width)
}

/// Writes a configuration register of a PCI function through port I/O, at
/// the address `pci_bdf_raw_addr` gives; fails with `NOT_SUPPORTED`, as every
/// port-mapped configuration access does here.
pub fn pio_config_write(
    bus: u8,
    dev: u8,
    func: u8,
    offset: u8,
    val: u32,
    width: usize,
) -> (r: ZxResult)
    ensures
        r == Err::<(), ZxError>(ZxError::NOT_SUPPORTED),
{
    pmio_config_write_addr(pci_bdf_raw_addr(bus, dev, func, offset), val, width)
}

} // verus!
