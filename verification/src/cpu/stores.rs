//! What the stores leave in a memory: what is stored is loaded back, and an unaligned
//! store leaves what an aligned store of a merged word leaves.

use vstd::prelude::*;
use crate::bits::{
    lane, lanes, lanes_of_word, swap16, swap16_involutive, swap32, swap32_involutive,
    word_of_lanes, word_of_own_lanes,
};
use crate::bus_objects::{Bus, BusModel, BusObject, mappings_of, route_finds_the_binding};
use crate::bus_objects::memory::{Memory, MemoryModel};
use crate::cpu::{cpu_inv, CpuState, Fault, store_word};
use crate::cpu::instructions::{
    bytes_past_boundary, bytes_to_boundary, effective_address, ITypeInstruction, lbu_spec,
    lhu_spec, lw_spec, run_served, sb_spec, sh_spec, store_run, sw_spec, swl_spec, swr_spec,
    write_run,
};

verus! {

/// The word that keeps the `k` least significant bytes of `kept` and has above them the
/// bytes of `x` from the least significant on.
pub open spec fn merged_left(kept: u32, x: u32, k: int) -> u32 {
    word_of_lanes(
        Seq::new(
            4,
            |j: int|
                if j < k {
                    lane(kept, j)
                } else {
                    lane(x, j - k)
                },
        ),
    )
}

/// The word that has in its bytes 1 to `k` the `k` most significant bytes of `x` and
/// keeps the other bytes of `kept`.
pub open spec fn merged_right(kept: u32, x: u32, k: int) -> u32 {
    word_of_lanes(
        Seq::new(
            4,
            |j: int|
                if 1 <= j <= k {
                    lane(x, 3 - k + j)
                } else {
                    lane(kept, j)
                },
        ),
    )
}

/// The state of a bus of memories after the bytes of device `d` from the address `first`
/// on are replaced by `bytes`.
pub open spec fn patched(bus: BusModel<MemoryModel>, d: int, first: u32, bytes: Seq<u8>) -> BusModel<
    MemoryModel,
> {
    let device = bus.devices[d];
    let at = first - device.mapping.start;
    bus.with_device(
        d,
        MemoryModel {
            bytes: Seq::new(
                device.bytes.len(),
                |j: int|
                    if at <= j < at + bytes.len() {
                        bytes[j - at]
                    } else {
                        device.bytes[j]
                    },
            ),
            mapping: device.mapping,
        },
    )
}

/// Writing a run of bytes that lies in one memory replaces these bytes of the memory and
/// nothing else.
pub proof fn write_run_patches(s: CpuState<MemoryModel>, d: int, first: u32, bytes: Seq<u8>)
    requires
        cpu_inv::<Memory>(s),
        0 <= d < s.bus.devices.len(),
        s.bus.devices[d].mapping.start <= first,
        first - s.bus.devices[d].mapping.start + bytes.len() <= s.bus.devices[d].bytes.len(),
        first + bytes.len() <= 0x1_0000_0000,
    ensures
        run_served::<Memory>(s, first, bytes.len()) is Ok,
        write_run::<Memory>(s, first, bytes) == s.with_bus(patched(s.bus, d, first, bytes)),
        store_run::<Memory>(s, first, bytes) == Ok::<CpuState<MemoryModel>, Fault>(
            s.with_bus(patched(s.bus, d, first, bytes)),
        ),
    decreases bytes.len(),
{
    let device = s.bus.devices[d];
    let at = first - device.mapping.start;
    assert(Memory::inv(device));
    if bytes.len() == 0 {
        assert(patched(s.bus, d, first, bytes).devices[d].bytes =~= device.bytes);
        assert(patched(s.bus, d, first, bytes).devices =~= s.bus.devices);
    } else {
        let front = bytes.drop_last();
        write_run_patches(s, d, first, front);
        let before = s.with_bus(patched(s.bus, d, first, front));
        let addr = (first + bytes.len() - 1) as u32;
        let mappings = mappings_of::<Memory>(s.bus.devices);
        assert(mappings_of::<Memory>(before.bus.devices) =~= mappings);
        assert(mappings[d] == device.mapping);
        assert(mappings[d].contains(addr));
        route_finds_the_binding(mappings, d, addr);
        let after = Bus::<Memory>::spec_write_byte(before.bus, addr, bytes.last());
        assert(after.devices[d].bytes =~= patched(s.bus, d, first, bytes).devices[d].bytes);
        assert(after.devices =~= patched(s.bus, d, first, bytes).devices);
    }
}

/// Writing a word at an address that a memory serves replaces four bytes of the memory
/// by the bytes of the word, least significant first, and nothing else.
pub proof fn word_store_patches(s: CpuState<MemoryModel>, d: int, base: u32, word: u32)
    requires
        cpu_inv::<Memory>(s),
        Bus::<Memory>::owner(s.bus, base) == Some(d),
        Bus::<Memory>::serves(s.bus, base, 4),
    ensures
        store_word::<Memory>(s, base, word) == Ok::<CpuState<MemoryModel>, Fault>(
            s.with_bus(patched(s.bus, d, base, lanes(word))),
        ),
{
    let device = s.bus.devices[d];
    let after = Bus::<Memory>::spec_write_w(s.bus, base, word);
    assert(mappings_of::<Memory>(s.bus.devices)[d] == device.mapping);
    assert(after.devices[d].bytes =~= patched(s.bus, d, base, lanes(word)).devices[d].bytes);
    assert(after.devices =~= patched(s.bus, d, base, lanes(word)).devices);
}

/// `swl` at an address that is not aligned leaves memory as an aligned store to the word
/// around the address does, of the word that keeps what the memory held in the bytes
/// below the address and has the low bytes of the register from the address on.
pub proof fn swl_is_an_aligned_store(s: CpuState<MemoryModel>, i: ITypeInstruction)
    requires
        cpu_inv::<Memory>(s),
        i.wf(),
        effective_address(s, i) % 4 != 0,
        Bus::<Memory>::serves(s.bus, (effective_address(s, i) - effective_address(s, i) % 4) as u32, 4),
    ensures
        ({
            let addr = effective_address(s, i);
            let base = (addr - addr % 4) as u32;
            let kept = Bus::<Memory>::spec_read_w(s.bus, base);
            swl_spec::<Memory>(s, i) == store_word::<Memory>(
                s,
                base,
                merged_left(kept, s.reg(i.rt), (addr % 4) as int),
            )
        }),
{
    let addr = effective_address(s, i);
    let k = (addr % 4) as int;
    let base = (addr - addr % 4) as u32;
    let d = Bus::<Memory>::owner(s.bus, base)->Some_0;
    let device = s.bus.devices[d];
    let kept = Bus::<Memory>::spec_read_w(s.bus, base);
    let x = s.reg(i.rt);
    let merged = merged_left(kept, x, k);
    let bytes = lanes(x).take(bytes_to_boundary(addr) as int);
    assert(mappings_of::<Memory>(s.bus.devices)[d] == device.mapping);
    let at = base - device.mapping.start;
    lanes_of_word(device.bytes[at], device.bytes[at + 1], device.bytes[at + 2], device.bytes[at + 3]);
    lanes_of_word(
        if 0 < k { lane(kept, 0) } else { lane(x, 0 - k) },
        if 1 < k { lane(kept, 1) } else { lane(x, 1 - k) },
        if 2 < k { lane(kept, 2) } else { lane(x, 2 - k) },
        if 3 < k { lane(kept, 3) } else { lane(x, 3 - k) },
    );
    write_run_patches(s, d, addr, bytes);
    word_store_patches(s, d, base, merged);
    assert(patched(s.bus, d, addr, bytes).devices[d].bytes =~= patched(
        s.bus,
        d,
        base,
        lanes(merged),
    ).devices[d].bytes);
    assert(patched(s.bus, d, addr, bytes).devices =~= patched(s.bus, d, base, lanes(merged)).devices);
}

/// `swr` at an address that is not aligned leaves memory as an aligned store to the word
/// around the address does, of the word that has the high bytes of the register in the
/// bytes after its first up to the address and keeps what the memory held in the others.
pub proof fn swr_is_an_aligned_store(s: CpuState<MemoryModel>, i: ITypeInstruction)
    requires
        cpu_inv::<Memory>(s),
        i.wf(),
        effective_address(s, i) % 4 != 0,
        Bus::<Memory>::serves(s.bus, (effective_address(s, i) - effective_address(s, i) % 4) as u32, 4),
    ensures
        ({
            let addr = effective_address(s, i);
            let base = (addr - addr % 4) as u32;
            let kept = Bus::<Memory>::spec_read_w(s.bus, base);
            swr_spec::<Memory>(s, i) == store_word::<Memory>(
                s,
                base,
                merged_right(kept, s.reg(i.rt), (addr % 4) as int),
            )
        }),
{
    let addr = effective_address(s, i);
    let k = (addr % 4) as int;
    let base = (addr - addr % 4) as u32;
    let first = (addr - bytes_past_boundary(addr) + 1) as u32;
    let d = Bus::<Memory>::owner(s.bus, base)->Some_0;
    let device = s.bus.devices[d];
    let kept = Bus::<Memory>::spec_read_w(s.bus, base);
    let x = s.reg(i.rt);
    let merged = merged_right(kept, x, k);
    let bytes = lanes(x).skip(4 - k);
    assert(mappings_of::<Memory>(s.bus.devices)[d] == device.mapping);
    let at = base - device.mapping.start;
    lanes_of_word(device.bytes[at], device.bytes[at + 1], device.bytes[at + 2], device.bytes[at + 3]);
    lanes_of_word(
        lane(kept, 0),
        if 1 <= k { lane(x, 3 - k + 1) } else { lane(kept, 1) },
        if 2 <= k { lane(x, 3 - k + 2) } else { lane(kept, 2) },
        if 3 <= k { lane(x, 3 - k + 3) } else { lane(kept, 3) },
    );
    write_run_patches(s, d, first, bytes);
    word_store_patches(s, d, base, merged);
    assert(patched(s.bus, d, first, bytes).devices[d].bytes =~= patched(
        s.bus,
        d,
        base,
        lanes(merged),
    ).devices[d].bytes);
    assert(patched(s.bus, d, first, bytes).devices =~= patched(s.bus, d, base, lanes(merged)).devices);
}

/// A value stored to memory is loaded back: after `sw` the same register fields load the
/// stored word with `lw`, after `sh` the stored half-word with `lhu`, and after `sb` the
/// stored byte with `lbu`.
pub proof fn store_then_load(s: CpuState<MemoryModel>, store: ITypeInstruction, load: ITypeInstruction)
    requires
        cpu_inv::<Memory>(s),
        store.wf(),
        load.wf(),
        load.rs == store.rs,
        load.immediate == store.immediate,
    ensures
        sw_spec::<Memory>(s, store) matches Ok(after) ==> lw_spec::<Memory>(after, load) == Ok::<
            CpuState<MemoryModel>,
            Fault,
        >(after.with_register(load.rt, s.reg(store.rt))),
        sh_spec::<Memory>(s, store) matches Ok(after) ==> lhu_spec::<Memory>(after, load) == Ok::<
            CpuState<MemoryModel>,
            Fault,
        >(after.with_register(load.rt, s.reg(store.rt) % 0x1_0000)),
        sb_spec::<Memory>(s, store) matches Ok(after) ==> lbu_spec::<Memory>(after, load) == Ok::<
            CpuState<MemoryModel>,
            Fault,
        >(after.with_register(load.rt, s.reg(store.rt) % 0x100)),
{
    let addr = effective_address(s, store);
    let x = s.reg(store.rt);
    swap32_involutive(x);
    swap16_involutive((x % 0x1_0000) as u16);
    word_of_own_lanes(swap32(x));
    if Bus::<Memory>::owner(s.bus, addr) is Some {
        let d = Bus::<Memory>::owner(s.bus, addr)->Some_0;
        let device = s.bus.devices[d];
        let mappings = mappings_of::<Memory>(s.bus.devices);
        assert(mappings[d] == device.mapping);
        if Bus::<Memory>::serves(s.bus, addr, 4) {
            let after = Bus::<Memory>::spec_write_w(s.bus, addr, swap32(x));
            Bus::<Memory>::write_w_keeps(s.bus, addr, swap32(x));
            assert(mappings_of::<Memory>(after.devices) =~= mappings);
        }
        if Bus::<Memory>::serves(s.bus, addr, 2) {
            let half = swap16((x % 0x1_0000) as u16);
            let after = Bus::<Memory>::spec_write_hw(s.bus, addr, half);
            Bus::<Memory>::write_hw_keeps(s.bus, addr, half);
            assert(mappings_of::<Memory>(after.devices) =~= mappings);
        }
        if Bus::<Memory>::serves(s.bus, addr, 1) {
            let after = Bus::<Memory>::spec_write_byte(s.bus, addr, lane(x, 0));
            Bus::<Memory>::write_byte_keeps(s.bus, addr, lane(x, 0));
            assert(mappings_of::<Memory>(after.devices) =~= mappings);
        }
    }
}

} // verus!
