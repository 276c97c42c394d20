//! Putting a program in place: the memories that an ELF image asks for, the stack, the
//! console sink and the halt signal, on one bus.

use vstd::prelude::*;
use crate::bits::{word_from_le, word_le};
use crate::bus_objects::{
    any_overlap, arranged, Bus, BusObject, mappings_of, MemoryMapping, models_of,
};
use crate::bus_objects::device::{Device, DeviceModel};
use crate::bus_objects::exit::{Exit, ExitModel};
use crate::bus_objects::memory::{Memory, MemoryModel};
use crate::bus_objects::printer::{Printer, PrinterModel};
use crate::commandline_arguments::{CommandLineArguments, Configuration};

verus! {

/// The type of a program header whose segment is loaded into memory.
pub const PT_LOAD: u32 = 1;

/// The type of the section that holds the register information of a MIPS program.
pub const SHT_MIPS_REGINFO: u32 = 0x7000_0006;

/// Where in its section the value of the global pointer begins.
pub const REGINFO_GP_OFFSET: u64 = 20;

/// What a program needs from its image besides its memories.
#[derive(Clone, Copy, Debug, PartialEq, Eq, Structural)]
pub struct ElfInfo {
    /// The address of the first instruction.
    pub entry_point: u32,
    /// The value of the global pointer, register 28, at the start of the program.
    pub init_gp: u32,
}

/// One program header of an ELF image.
#[derive(Clone, Copy, Debug, PartialEq, Eq, Structural)]
pub struct Segment {
    pub kind: u32,
    pub offset: u64,
    pub vaddr: u64,
    pub filesz: u64,
    pub memsz: u64,
}

impl Segment {
    pub fn new(kind: u32, offset: u64, vaddr: u64, filesz: u64, memsz: u64) -> (r: Self)
        ensures
            r == (Segment { kind, offset, vaddr, filesz, memsz }),
    {
        Segment { kind, offset, vaddr, filesz, memsz }
    }
}

/// One section header of an ELF image.
#[derive(Clone, Copy, Debug, PartialEq, Eq, Structural)]
pub struct Section {
    pub kind: u32,
    pub offset: u64,
}

impl Section {
    pub fn new(kind: u32, offset: u64) -> (r: Self)
        ensures
            r == (Section { kind, offset }),
    {
        Section { kind, offset }
    }
}

/// The headers of an ELF image.
#[derive(Debug)]
pub struct ElfImage {
    pub entry: u64,
    pub segments: Vec<Segment>,
    pub sections: Vec<Section>,
}

/// The headers of an ELF image as plain values.
pub struct ElfLayout {
    pub entry: u64,
    pub segments: Seq<Segment>,
    pub sections: Seq<Section>,
}

impl View for ElfImage {
    type V = ElfLayout;

    open spec fn view(&self) -> ElfLayout {
        ElfLayout { entry: self.entry, segments: self.segments@, sections: self.sections@ }
    }
}

/// Why a program cannot be loaded.
#[derive(Debug)]
pub enum LoadError {
    /// The bytes are no ELF image; the text says why.
    Malformed(String),
    /// The entry point is above 2^32 - 1.
    EntryOutsideAddressSpace,
    /// A loaded segment begins above 2^32 - 1 or is longer than that.
    SegmentOutsideAddressSpace,
    /// A loaded segment has more bytes in the file than in memory.
    SegmentLongerThanMemory,
    /// The bytes of a loaded segment do not all lie in the file.
    SegmentOutsideFile,
    /// The global pointer of a register-information section does not lie in the file.
    SectionOutsideFile,
}

/// The headers that `goblin::elf::Elf::parse` reads from the bytes of a file, if it takes
/// them for an ELF image. goblin takes the entry point and the places of the header
/// tables through `usize`, so the name stands for what it reads on the target that the
/// library is built for.
pub uninterp spec fn elf_layout(bytes: Seq<u8>) -> Option<ElfLayout>;

/// Reads the headers of an ELF image with `goblin::elf::Elf::parse`. Nothing is claimed
/// of that function but that what it returns depends on the bytes alone: on success the
/// entry point and, in their order, the type, file offset, address and sizes of each
/// program header and the type and file offset of each section header, as it gives them;
/// on failure its message.
#[verifier::external_body]
fn parse_elf(bytes: &[u8]) -> (r: Result<ElfImage, String>)
    ensures
        match r {
            Ok(image) => elf_layout(bytes@) == Some(image@),
            Err(_) => elf_layout(bytes@) is None,
        },
{
    match goblin::elf::Elf::parse(bytes) {
        Ok(elf) => {
            let segments = elf.program_headers.iter().map(
                |p| Segment::new(p.p_type, p.p_offset, p.p_vaddr, p.p_filesz, p.p_memsz),
            ).collect();
            let sections = elf.section_headers.iter().map(|s| Section::new(s.sh_type, s.sh_offset)).collect();
            Ok(ElfImage { entry: elf.entry, segments, sections })
        },
        Err(e) => Err(e.to_string()),
    }
}

/// `n` zero bytes.
pub open spec fn zeros(n: nat) -> Seq<u8> {
    Seq::new(n, |i: int| 0u8)
}

/// The memory that a loaded segment asks for: at its address, as long as its size in
/// memory, beginning with its bytes in the file and zero after them.
pub open spec fn segment_memory(segment: Segment, file: Seq<u8>) -> Result<MemoryModel, LoadError> {
    if segment.vaddr > u32::MAX || segment.memsz > u32::MAX {
        Err(LoadError::SegmentOutsideAddressSpace)
    } else if segment.filesz > segment.memsz {
        Err(LoadError::SegmentLongerThanMemory)
    } else if segment.offset + segment.filesz > file.len() {
        Err(LoadError::SegmentOutsideFile)
    } else {
        Ok(
            MemoryModel {
                bytes: file.subrange(segment.offset as int, segment.offset + segment.filesz) + zeros(
                    (segment.memsz - segment.filesz) as nat,
                ),
                mapping: MemoryMapping { start: segment.vaddr as u32, size: segment.memsz as u32 },
            },
        )
    }
}

/// The memories of the loaded segments, in the order of the program headers, or what is
/// wrong with the first segment that cannot be loaded.
pub open spec fn segment_memories(segments: Seq<Segment>, file: Seq<u8>) -> Result<
    Seq<MemoryModel>,
    LoadError,
>
    decreases segments.len(),
{
    if segments.len() == 0 {
        Ok(Seq::empty())
    } else {
        match segment_memories(segments.drop_last(), file) {
            Ok(memories) => if segments.last().kind != PT_LOAD {
                Ok(memories)
            } else {
                match segment_memory(segments.last(), file) {
                    Ok(memory) => Ok(memories.push(memory)),
                    Err(e) => Err(e),
                }
            },
            Err(e) => Err(e),
        }
    }
}

/// The global pointer: the value that the last register-information section holds, or 0
/// where there is no such section. The section holds the value most significant byte
/// first; its three upper bytes are read, and the lowest byte of the global pointer is 0.
pub open spec fn global_pointer(sections: Seq<Section>, file: Seq<u8>) -> Result<u32, LoadError>
    decreases sections.len(),
{
    if sections.len() == 0 {
        Ok(0)
    } else {
        match global_pointer(sections.drop_last(), file) {
            Ok(gp) => {
                let section = sections.last();
                let at = section.offset + REGINFO_GP_OFFSET;
                if section.kind != SHT_MIPS_REGINFO {
                    Ok(gp)
                } else if at + 3 > file.len() {
                    Err(LoadError::SectionOutsideFile)
                } else {
                    Ok(word_le(0, file[at + 2], file[at + 1], file[at]))
                }
            },
            Err(e) => Err(e),
        }
    }
}

/// What loading gives: the entry point and the global pointer, and the memories of the
/// loaded segments.
pub open spec fn load_spec(layout: ElfLayout, file: Seq<u8>) -> Result<
    (ElfInfo, Seq<MemoryModel>),
    LoadError,
> {
    if layout.entry > u32::MAX {
        Err(LoadError::EntryOutsideAddressSpace)
    } else {
        match segment_memories(layout.segments, file) {
            Ok(memories) => match global_pointer(layout.sections, file) {
                Ok(init_gp) => Ok((ElfInfo { entry_point: layout.entry as u32, init_gp }, memories)),
                Err(e) => Err(e),
            },
            Err(e) => Err(e),
        }
    }
}

/// Whether `r` is what `expected` says: the same values on success, the same error on
/// failure.
pub open spec fn loaded(
    expected: Result<(ElfInfo, Seq<MemoryModel>), LoadError>,
    r: Result<(ElfInfo, Vec<Memory>), LoadError>,
) -> bool {
    match expected {
        Ok((info, memories)) => r is Ok && r->Ok_0.0 == info && models_of(r->Ok_0.1@) == memories,
        Err(e) => r is Err && r->Err_0 == e,
    }
}

/// Builds the memory of one loaded segment.
pub fn load_segment(segment: &Segment, file: &[u8]) -> (r: Result<Memory, LoadError>)
    ensures
        match segment_memory(*segment, file@) {
            Ok(memory) => r is Ok && r->Ok_0.model() == memory,
            Err(e) => r is Err && r->Err_0 == e,
        },
        r is Ok ==> Memory::inv(r->Ok_0.model()),
{
    if segment.vaddr > 0xFFFF_FFFF || segment.memsz > 0xFFFF_FFFF {
        return Err(LoadError::SegmentOutsideAddressSpace);
    }
    if segment.filesz > segment.memsz {
        return Err(LoadError::SegmentLongerThanMemory);
    }
    if segment.offset > file.len() as u64 || segment.filesz > file.len() as u64 - segment.offset {
        return Err(LoadError::SegmentOutsideFile);
    }
    let offset: usize = segment.offset as usize;
    let filesz: usize = segment.filesz as usize;
    let memsz: usize = segment.memsz as usize;
    let len: usize = file.len();
    let mut bytes: Vec<u8> = Vec::new();
    let mut k: usize = 0;
    while k < filesz
        invariant
            k <= filesz,
            len == file@.len(),
            offset + filesz <= len,
            bytes@ =~= file@.subrange(offset as int, offset + k),
        decreases filesz - k,
    {
        bytes.push(file[offset + k]);
        k += 1;
    }
    while k < memsz
        invariant
            filesz <= k <= memsz,
            offset + filesz <= file@.len(),
            bytes@ =~= file@.subrange(offset as int, offset + filesz) + zeros((k - filesz) as nat),
        decreases memsz - k,
    {
        bytes.push(0);
        k += 1;
    }
    Ok(
        Memory::from_vec(
            bytes,
            MemoryMapping { start: segment.vaddr as u32, size: segment.memsz as u32 },
        ),
    )
}

/// Reads the global pointer from the register-information sections: the value of
/// register 28 at the start of the program.
pub fn read_global_pointer(sections: &Vec<Section>, file: &[u8]) -> (r: Result<u32, LoadError>)
    ensures
        match global_pointer(sections@, file@) {
            Ok(gp) => r is Ok && r->Ok_0 == gp,
            Err(e) => r is Err && r->Err_0 == e,
        },
{
    let mut gp: u32 = 0;
    let mut k: usize = 0;
    while k < sections.len()
        invariant
            k <= sections.len(),
            global_pointer(sections@.take(k as int), file@) == Ok::<u32, LoadError>(gp),
        decreases sections.len() - k,
    {
        let section = sections[k];
        proof {
            assert(sections@.take(k + 1).drop_last() =~= sections@.take(k as int));
            assert(sections@.take(k + 1).last() == section);
        }
        if section.kind == SHT_MIPS_REGINFO {
            let len: u64 = file.len() as u64;
            if len < REGINFO_GP_OFFSET + 3 || section.offset > len - (REGINFO_GP_OFFSET + 3) {
                proof {
                    lemma_global_pointer_fails(sections@, k + 1, file@);
                }
                return Err(LoadError::SectionOutsideFile);
            }
            let at: usize = (section.offset + REGINFO_GP_OFFSET) as usize;
            gp = word_from_le(0, file[at + 2], file[at + 1], file[at]);
        }
        k += 1;
    }
    proof {
        assert(sections@.take(k as int) =~= sections@);
    }
    Ok(gp)
}

proof fn lemma_global_pointer_fails(sections: Seq<Section>, k: int, file: Seq<u8>)
    requires
        0 <= k <= sections.len(),
        global_pointer(sections.take(k), file) is Err,
    ensures
        global_pointer(sections, file) == global_pointer(sections.take(k), file),
    decreases sections.len() - k,
{
    if k < sections.len() {
        assert(sections.drop_last().take(k) =~= sections.take(k));
        lemma_global_pointer_fails(sections.drop_last(), k, file);
    } else {
        assert(sections.take(k) =~= sections);
    }
}

proof fn lemma_segment_memories_fail(segments: Seq<Segment>, k: int, file: Seq<u8>)
    requires
        0 <= k <= segments.len(),
        segment_memories(segments.take(k), file) is Err,
    ensures
        segment_memories(segments, file) == segment_memories(segments.take(k), file),
    decreases segments.len() - k,
{
    if k < segments.len() {
        assert(segments.drop_last().take(k) =~= segments.take(k));
        lemma_segment_memories_fail(segments.drop_last(), k, file);
    } else {
        assert(segments.take(k) =~= segments);
    }
}

/// Builds what a program needs from the headers of its image and the bytes of its file.
pub fn load_image(image: &ElfImage, file: &[u8]) -> (r: Result<(ElfInfo, Vec<Memory>), LoadError>)
    ensures
        loaded(load_spec(image@, file@), r),
        r is Ok ==> forall|i: int|
            0 <= i < r->Ok_0.1.len() ==> Memory::inv(#[trigger] r->Ok_0.1[i].model()),
{
    if image.entry > 0xFFFF_FFFF {
        return Err(LoadError::EntryOutsideAddressSpace);
    }
    let mut memories: Vec<Memory> = Vec::new();
    let mut k: usize = 0;
    proof {
        assert(models_of(memories@) =~= Seq::<MemoryModel>::empty());
    }
    while k < image.segments.len()
        invariant
            k <= image.segments.len(),
            image.entry <= 0xFFFF_FFFF,
            segment_memories(image.segments@.take(k as int), file@) == Ok::<
                Seq<MemoryModel>,
                LoadError,
            >(models_of(memories@)),
            forall|i: int| 0 <= i < memories.len() ==> Memory::inv(#[trigger] memories[i].model()),
        decreases image.segments.len() - k,
    {
        let segment = image.segments[k];
        proof {
            assert(image.segments@.take(k + 1).drop_last() =~= image.segments@.take(k as int));
            assert(image.segments@.take(k + 1).last() == segment);
        }
        if segment.kind == PT_LOAD {
            let ghost before = models_of(memories@);
            match load_segment(&segment, file) {
                Ok(memory) => {
                    memories.push(memory);
                    proof {
                        assert(models_of(memories@) =~= before.push(memory.model()));
                    }
                },
                Err(e) => {
                    proof {
                        assert(segment_memories(image.segments@.take(k + 1), file@) == Err::<
                            Seq<MemoryModel>,
                            LoadError,
                        >(e));
                        lemma_segment_memories_fail(image.segments@, k + 1, file@);
                    }
                    return Err(e);
                },
            }
        }
        k += 1;
    }
    proof {
        assert(image.segments@.take(k as int) =~= image.segments@);
    }
    match read_global_pointer(&image.sections, file) {
        Ok(init_gp) => Ok((ElfInfo { entry_point: image.entry as u32, init_gp }, memories)),
        Err(e) => Err(e),
    }
}

/// Loads a program from the bytes of its ELF file: its entry point, its global pointer,
/// and one memory for each loaded segment.
pub fn load_elf_into_ram(elf: &[u8]) -> (r: Result<(ElfInfo, Vec<Memory>), LoadError>)
    ensures
        match elf_layout(elf@) {
            Some(layout) => loaded(load_spec(layout, elf@), r),
            None => r is Err && r->Err_0 is Malformed,
        },
        r is Ok ==> forall|i: int|
            0 <= i < r->Ok_0.1.len() ==> Memory::inv(#[trigger] r->Ok_0.1[i].model()),
{
    match parse_elf(elf) {
        Ok(image) => load_image(&image, elf),
        Err(message) => Err(LoadError::Malformed(message)),
    }
}

/// Why the bus of a run cannot be put together.
#[derive(Debug)]
pub enum SetupError {
    /// The program cannot be loaded.
    Load(LoadError),
    /// The stack is longer than 2^32 - 1 bytes.
    StackTooLarge,
    /// The stack would begin below address 0.
    StackBelowZero,
    /// Two of the devices overlap.
    Overlap,
}

/// Where the stack lies: its size is given in kilobytes, and it ends where the stack
/// pointer starts.
pub open spec fn stack_mapping(c: Configuration) -> Result<MemoryMapping, SetupError> {
    if c.stack_size * 1024 > u32::MAX {
        Err(SetupError::StackTooLarge)
    } else if c.stack_overwrite < c.stack_size * 1024 {
        Err(SetupError::StackBelowZero)
    } else {
        Ok(
            MemoryMapping {
                start: (c.stack_overwrite - c.stack_size * 1024) as u32,
                size: (c.stack_size * 1024) as u32,
            },
        )
    }
}

/// The devices of a run: the memories of the program, the stack filled with zero, the
/// console sink and the halt signal.
pub open spec fn devices_for(c: Configuration, memories: Seq<MemoryModel>, stack: MemoryMapping) -> Seq<
    DeviceModel,
> {
    memories.map_values(|m: MemoryModel| DeviceModel::Memory(m)).push(
        DeviceModel::Memory(MemoryModel { bytes: zeros(stack.size as nat), mapping: stack }),
    ).push(
        DeviceModel::Printer(
            PrinterModel {
                buffer: Seq::empty(),
                printed: Seq::empty(),
                mapping: MemoryMapping { start: c.printer_pos, size: 2 },
            },
        ),
    ).push(
        DeviceModel::Exit(
            ExitModel { exit: false, mapping: MemoryMapping { start: c.exit_pos, size: 1 } },
        ),
    )
}

/// Whether `r` is the bus of a run with the given configuration and program: a bus at
/// position 0 of length 0 that holds the devices of the run in ascending order of their
/// base addresses, or the reason why there is none.
pub open spec fn assembled(
    c: Configuration,
    info: ElfInfo,
    memories: Seq<MemoryModel>,
    r: Result<(ElfInfo, Bus<Device>), SetupError>,
) -> bool {
    match stack_mapping(c) {
        Err(e) => r is Err && r->Err_0 == e,
        Ok(stack) => {
            let devices = devices_for(c, memories, stack);
            if any_overlap(mappings_of::<Device>(devices)) {
                r is Err && r->Err_0 is Overlap
            } else {
                &&& r is Ok
                &&& r->Ok_0.0 == info
                &&& Bus::<Device>::inv(r->Ok_0.1.model())
                &&& r->Ok_0.1.model().pos == (MemoryMapping { start: 0, size: 0 })
                &&& r->Ok_0.1.model().devices.to_multiset() == devices.to_multiset()
                &&& arranged::<Device>(devices, r->Ok_0.1.model().devices)
            }
        },
    }
}

/// A memory of `mapping.size` zero bytes at `mapping`.
pub fn zeroed_memory(mapping: MemoryMapping) -> (r: Memory)
    ensures
        r.model() == (MemoryModel { bytes: zeros(mapping.size as nat), mapping }),
        Memory::inv(r.model()),
{
    let mut bytes: Vec<u8> = Vec::new();
    let mut k: u32 = 0;
    while k < mapping.size
        invariant
            k <= mapping.size,
            bytes@ =~= zeros(k as nat),
        decreases mapping.size - k,
    {
        bytes.push(0);
        k += 1;
    }
    Memory::from_vec(bytes, mapping)
}

/// Puts the bus of a run together from the memories of its program.
pub fn assemble_bus(c: &CommandLineArguments, info: ElfInfo, memories: Vec<Memory>) -> (r: Result<
    (ElfInfo, Bus<Device>),
    SetupError,
>)
    requires
        forall|i: int| 0 <= i < memories.len() ==> Memory::inv(#[trigger] memories[i].model()),
    ensures
        assembled(c@, info, models_of(memories@), r),
{
    let size: u64 = (c.stack_size() as u64) * 1024;
    if size > 0xFFFF_FFFF {
        return Err(SetupError::StackTooLarge);
    }
    if (c.stack_overwrite() as u64) < size {
        return Err(SetupError::StackBelowZero);
    }
    let stack = MemoryMapping { start: c.stack_overwrite() - (size as u32), size: size as u32 };
    let ghost given = models_of(memories@);
    let ghost wrap = |m: MemoryModel| DeviceModel::Memory(m);
    let mut memories = memories;
    let mut ram: Vec<Device> = Vec::new();
    let ghost mut moved: int = 0;
    proof {
        assert(models_of(ram@) =~= given.take(0).map_values(wrap));
        assert(models_of(memories@) =~= given.skip(0));
    }
    while memories.len() > 0
        invariant
            0 <= moved <= given.len(),
            moved + memories.len() == given.len(),
            models_of(memories@) =~= given.skip(moved),
            models_of(ram@) =~= given.take(moved).map_values(wrap),
            wrap == |m: MemoryModel| DeviceModel::Memory(m),
            forall|i: int| 0 <= i < memories.len() ==> Memory::inv(#[trigger] memories[i].model()),
            forall|i: int| 0 <= i < ram.len() ==> Device::inv(#[trigger] ram[i].model()),
        decreases memories.len(),
    {
        let ghost rest = models_of(memories@);
        let ghost done = models_of(ram@);
        let memory = memories.remove(0);
        proof {
            assert(memory.model() == rest[0]);
            assert(models_of(memories@) =~= rest.remove(0));
            assert(rest.remove(0) =~= given.skip(moved + 1));
        }
        ram.push(Device::Memory(memory));
        proof {
            assert(models_of(ram@) =~= done.push(DeviceModel::Memory(memory.model())));
            assert(given.take(moved + 1).map_values(wrap) =~= given.take(moved).map_values(wrap).push(
                wrap(given[moved]),
            ));
            moved = moved + 1;
        }
    }
    let ghost loaded = models_of(ram@);
    proof {
        assert(given.take(moved) =~= given);
    }
    ram.push(Device::Memory(zeroed_memory(stack)));
    ram.push(Device::Printer(Printer::new(c.printer_pos())));
    ram.push(Device::Exit(Exit::new(c.exit_pos())));
    proof {
        assert(models_of(ram@) =~= devices_for(c@, given, stack));
    }
    match Bus::new(0, 0, ram) {
        Some(bus) => Ok((info, bus)),
        None => Err(SetupError::Overlap),
    }
}

/// Puts the bus of a run together from the configuration and the bytes of the program's
/// ELF file, and gives the entry point and the global pointer of the program.
pub fn prepare_bus(c: &CommandLineArguments, elf: &[u8]) -> (r: Result<
    (ElfInfo, Bus<Device>),
    SetupError,
>)
    ensures
        match elf_layout(elf@) {
            Some(layout) => match load_spec(layout, elf@) {
                Ok((info, memories)) => assembled(c@, info, memories, r),
                Err(e) => r is Err && r->Err_0 == SetupError::Load(e),
            },
            None => r is Err && r->Err_0 is Load && r->Err_0->Load_0 is Malformed,
        },
{
    match load_elf_into_ram(elf) {
        Ok((info, memories)) => assemble_bus(c, info, memories),
        Err(e) => Err(SetupError::Load(e)),
    }
}

} // verus!
