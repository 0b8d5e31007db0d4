//! Architecture-independent core: the byte classification store, the
//! architecture contract, and the code discovery engine.

use core::marker::PhantomData;

use vstd::prelude::*;
use vstd::pervasive::VecAdditionalExecFns;
use vstd::slice::slice_subrange;

use crate::discovery::{count_non_code, lemma_count_update_to_code, spec_chain, spec_drain, spec_mark};

verus! {

/// Classification of a single byte of the image.
///
/// Every offset carries exactly one tag.  All bytes start out `Unknown`;
/// discovery promotes bytes to `Code`, and the user may override any tag
/// explicitly.
#[derive(Debug, Copy, Clone, PartialEq, Eq, Structural)]
pub enum ByteType {
    Unknown,
    Code,
    Data,
}

/// A branch destination as encoded in an instruction, before bank
/// resolution.  `Relative` carries a signed displacement from the start of
/// the instruction that encodes it.
#[derive(Debug, Copy, Clone, PartialEq, Eq, Structural)]
pub enum LogicalAddress {
    Absolute(usize),
    Relative(isize),
}

/// Mathematical view of a `DisassemblerState`: the image bytes and the tag
/// held at each offset.
pub struct ClassificationSnapshot {
    pub rom: Seq<u8>,
    pub tags: Seq<ByteType>,
}

impl ClassificationSnapshot {
    /// One tag per image byte.
    pub open spec fn wf(self) -> bool {
        self.tags.len() == self.rom.len()
    }
}

/// The byte classification store: the immutable image together with the
/// current tag of every offset.
pub struct DisassemblerState<'a> {
    rom: &'a [u8],
    byte_type: Vec<ByteType>,
}

impl<'a> View for DisassemblerState<'a> {
    type V = ClassificationSnapshot;

    closed spec fn view(&self) -> ClassificationSnapshot {
        ClassificationSnapshot { rom: self.rom@, tags: self.byte_type@ }
    }
}

impl<'a> DisassemblerState<'a> {
    /// A fresh store over `rom` with every offset tagged `Unknown`.
    pub fn new(rom: &[u8]) -> (r: DisassemblerState)
        ensures
            r@.rom == rom@,
            r@.tags.len() == rom@.len(),
            forall|i: int| 0 <= i < rom@.len() ==> r@.tags[i] is Unknown,
    {
        let size = rom.len();
        let mut byte_type: Vec<ByteType> = Vec::new();
        let mut i: usize = 0;
        while i < size
            invariant
                byte_type@.len() == i,
                i <= size,
                forall|j: int| 0 <= j < i ==> byte_type@[j] is Unknown,
            decreases size - i,
        {
            byte_type.push(ByteType::Unknown);
            i = i + 1;
        }
        DisassemblerState { rom, byte_type }
    }

    /// Number of bytes in the image.
    pub fn rom_len(&self) -> (r: usize)
        ensures
            r == self@.rom.len(),
    {
        self.rom.len()
    }
}

/// One decoded instruction, exposing exactly what the discovery engine
/// needs: its byte length, whether execution continues past it, and its
/// branch destination if it has one.
pub trait Instruction: Sized {
    /// Byte length of the instruction.
    spec fn spec_size(&self) -> usize;

    /// Whether execution can continue with the byte after the instruction.
    spec fn spec_falls_through(&self) -> bool;

    /// The destination this instruction may transfer control to, if any.
    spec fn spec_branch_address(&self) -> Option<LogicalAddress>;

    fn size(&self) -> (r: usize)
        ensures
            r == self.spec_size(),
    ;

    fn falls_through(&self) -> (r: bool)
        ensures
            r == self.spec_falls_through(),
    ;

    fn branch_address(&self) -> (r: Option<LogicalAddress>)
        ensures
            r == self.spec_branch_address(),
    ;
}

/// The contract a CPU model must meet for the discovery engine to drive it.
///
/// Decoding is a pure function of the byte window, and a decoded instruction
/// never extends past the window.  Resolution is a pure function of the
/// logical address, the offset the instruction was read from, and the
/// classification snapshot; a resolved offset always lies inside the image.
pub trait Architecture {
    type Instruction: Instruction;

    /// What `disassemble` returns on a given byte window.
    spec fn spec_disassemble(bytes: Seq<u8>) -> Option<Self::Instruction>;

    /// What `resolve_address` returns for a given logical address, read
    /// location, and classification snapshot.
    spec fn spec_resolve_address(
        address: LogicalAddress,
        location: int,
        snapshot: ClassificationSnapshot,
    ) -> Option<usize>;

    /// A decoded instruction occupies at least one byte and fits in the
    /// window it was decoded from.
    proof fn lemma_disassemble_fits(bytes: Seq<u8>)
        ensures
            Self::spec_disassemble(bytes) matches Some(i) ==> 1 <= i.spec_size() <= bytes.len(),
    ;

    /// A resolved offset is a valid index into the image.
    proof fn lemma_resolve_in_image(
        address: LogicalAddress,
        location: int,
        snapshot: ClassificationSnapshot,
    )
        ensures
            Self::spec_resolve_address(address, location, snapshot) matches Some(o)
                ==> o < snapshot.rom.len(),
    ;

    /// Attempt to decode one instruction at the first byte of `bytes`;
    /// `None` on an illegal opcode or insufficient trailing bytes.
    fn disassemble(bytes: &[u8]) -> (r: Option<Self::Instruction>)
        ensures
            r == Self::spec_disassemble(bytes@),
    ;

    /// Map a logical address to a store offset, given the offset the
    /// instruction was read from and read-only classification state;
    /// `None` when the address is ambiguous or out of range.
    fn resolve_address(
        address: LogicalAddress,
        location: usize,
        state: &DisassemblerState,
    ) -> (r: Option<usize>)
        ensures
            r == Self::spec_resolve_address(address, location as int, state@),
    ;
}

/// What `resolve_branch_address` returns: the resolved branch target of the
/// instruction at `location`, or `None` if nothing decodes there, the
/// instruction has no branch, or the target does not resolve.
pub open spec fn spec_resolve_branch_address<A: Architecture>(
    s: ClassificationSnapshot,
    location: int,
) -> Option<usize> {
    match A::spec_disassemble(s.rom.subrange(location, s.rom.len() as int)) {
        None => None,
        Some(i) => match i.spec_branch_address() {
            None => None,
            Some(la) => A::spec_resolve_address(la, location, s),
        },
    }
}

/// Whether an instruction decodes at `start` and spans across `over`.
pub open spec fn spec_spans<A: Architecture>(
    s: ClassificationSnapshot,
    start: int,
    over: int,
) -> bool {
    &&& 0 <= start <= over
    &&& A::spec_disassemble(s.rom.subrange(start, s.rom.len() as int)) matches Some(i)
        && start + i.spec_size() > over
}

/// What `align_address_to_valid_location` returns: a classified offset is
/// already valid; an `Unknown` offset is moved to the earliest instruction
/// start within two bytes back whose decoding spans across it, if any.
pub open spec fn spec_align_address<A: Architecture>(
    s: ClassificationSnapshot,
    address: int,
) -> int {
    if !(s.tags[address] is Unknown) {
        address
    } else if spec_spans::<A>(s, address - 2, address) {
        address - 2
    } else if spec_spans::<A>(s, address - 1, address) {
        address - 1
    } else {
        address
    }
}

/// What `next_valid_address` returns: one decoded instruction forward from
/// a decodable `Code` offset, one byte forward from anything else.
pub open spec fn spec_next_valid_address<A: Architecture>(
    s: ClassificationSnapshot,
    address: int,
) -> int {
    if s.tags[address] is Code {
        match A::spec_disassemble(s.rom.subrange(address, s.rom.len() as int)) {
            Some(i) => address + i.spec_size(),
            None => address + 1,
        }
    } else {
        address + 1
    }
}

/// How one listing line is presented: a raw byte, a decoded instruction,
/// or a label heading.
pub enum AddressRepr<'a> {
    Unknown { address: usize, byte: u8 },
    Data { address: usize, byte: u8 },
    Code { address: usize, bytes: &'a [u8], instruction_name: &'a str, arguments: &'a str },
    Label { name: &'a str },
}

/// Alignment safety: if some instruction decoded one or two bytes before
/// an `Unknown` offset spans across it, `align_address_to_valid_location`
/// moves to the earliest such instruction start, so the cursor never stays
/// in the middle of a decodable instruction.
pub proof fn lemma_align_to_instruction_start<A: Architecture>(
    s: ClassificationSnapshot,
    address: int,
)
    requires
        0 <= address < s.tags.len(),
        s.tags[address] is Unknown,
        spec_spans::<A>(s, address - 2, address) || spec_spans::<A>(s, address - 1, address),
    ensures
        ({
            let r = spec_align_address::<A>(s, address);
            &&& r < address
            &&& spec_spans::<A>(s, r, address)
            &&& spec_spans::<A>(s, address - 2, address) ==> r == address - 2
            &&& !spec_spans::<A>(s, address - 2, address) && spec_spans::<A>(s, address - 1, address)
                ==> r == address - 1
        }),
{
}

/// The code discovery engine over an architecture `Arch`: owns the byte
/// classification store and drives decoding and address resolution.
pub struct Disassembler<'a, Arch> {
    state: DisassemblerState<'a>,
    phantom: PhantomData<Arch>,
}

impl<'a, Arch> View for Disassembler<'a, Arch> {
    type V = ClassificationSnapshot;

    closed spec fn view(&self) -> ClassificationSnapshot {
        self.state@
    }
}

impl<'a, Arch: Architecture> Disassembler<'a, Arch> {
    /// A disassembler over `rom` with every offset initially `Unknown`.
    pub fn new(rom: &[u8]) -> (r: Disassembler<Arch>)
        ensures
            r@.wf(),
            r@.rom == rom@,
            forall|i: int| 0 <= i < rom@.len() ==> r@.tags[i] is Unknown,
    {
        Disassembler { state: DisassemblerState::new(rom), phantom: PhantomData }
    }

    /// Number of bytes in the image.
    pub fn len(&self) -> (r: usize)
        ensures
            r == self@.rom.len(),
    {
        self.state.rom_len()
    }

    /// The current tag of `address`.
    pub fn tag_at(&self, address: usize) -> (r: ByteType)
        requires
            self@.wf(),
            address < self@.tags.len(),
        ensures
            r == self@.tags[address as int],
    {
        self.state.byte_type[address]
    }

    /// Explicit user override: tag `address` as `Data`.
    pub fn mark_data(&mut self, address: usize)
        requires
            old(self)@.wf(),
            address < old(self)@.tags.len(),
        ensures
            final(self)@.wf(),
            final(self)@.rom == old(self)@.rom,
            final(self)@.tags == old(self)@.tags.update(address as int, ByteType::Data),
    {
        self.state.byte_type.set(address, ByteType::Data);
    }

    /// Explicit user override: tag `address` as `Unknown`.
    pub fn mark_unknown(&mut self, address: usize)
        requires
            old(self)@.wf(),
            address < old(self)@.tags.len(),
        ensures
            final(self)@.wf(),
            final(self)@.rom == old(self)@.rom,
            final(self)@.tags == old(self)@.tags.update(address as int, ByteType::Unknown),
    {
        self.state.byte_type.set(address, ByteType::Unknown);
    }

    /// Explicit user request to treat `address` as code: the offset is
    /// tagged `Code` — a direct override, granted even when nothing decodes
    /// there — and everything reachable from it is discovered: chains of
    /// decodable instructions are tagged `Code`, fallthrough edges are
    /// followed directly, and resolved branch targets are explored in turn.
    /// A chain stops at an already classified offset, an undecodable byte,
    /// or an instruction that does not fall through.
    pub fn mark_code(&mut self, address: usize)
        requires
            old(self)@.wf(),
            address < old(self)@.tags.len(),
        ensures
            final(self)@.wf(),
            final(self)@.rom == old(self)@.rom,
            final(self)@.tags == spec_mark::<Arch>(old(self)@.rom, old(self)@.tags, address),
            final(self)@.tags[address as int] is Code,
            forall|o: int|
                0 <= o < old(self)@.tags.len() && final(self)@.tags[o] != old(self)@.tags[o]
                    ==> final(self)@.tags[o] is Code,
            forall|o: int|
                0 <= o < old(self)@.tags.len() && o != address && old(self)@.tags[o] is Data
                    ==> final(self)@.tags[o] is Data,
            forall|o: int|
                0 <= o < old(self)@.tags.len() && old(self)@.tags[o] is Code
                    ==> final(self)@.tags[o] is Code,
    {
        let ghost rom = self.state@.rom;

        // the user override first re-opens a `Data` seed, so discovery can
        // run through it again
        if self.state.byte_type[address] == ByteType::Data {
            self.state.byte_type.set(address, ByteType::Unknown);
        }

        let ghost drained = spec_drain::<Arch>(rom, self.state@.tags, seq![address]);
        let mut branches: Vec<usize> = Vec::new();
        branches.push(address);
        proof {
            assert(branches@ =~= seq![address]);
            assert(spec_drain::<Arch>(rom, self.state@.tags, branches@) == drained);
        }

        while branches.len() != 0
            invariant
                self@.rom == rom,
                self@.tags.len() == rom.len(),
                forall|k: int| 0 <= k < branches@.len() ==> (branches@[k] as int) < rom.len(),
                spec_drain::<Arch>(rom, self@.tags, branches@) == drained,
            decreases count_non_code(self@.tags), branches@.len(),
        {
            let ghost count0 = count_non_code(self@.tags);
            let ghost len0 = branches@.len() as int;
            let mut cursor = branches.pop().unwrap();

            loop
                invariant
                    self@.rom == rom,
                    self@.tags.len() == rom.len(),
                    cursor <= rom.len(),
                    forall|k: int| 0 <= k < branches@.len() ==> (branches@[k] as int) < rom.len(),
                    spec_drain::<Arch>(
                        rom,
                        spec_chain::<Arch>(rom, self@.tags, branches@, cursor as int).0,
                        spec_chain::<Arch>(rom, self@.tags, branches@, cursor as int).1,
                    ) == drained,
                    count_non_code(self@.tags) <= count0,
                    count_non_code(self@.tags) + branches@.len() <= count0 + len0 - 1,
                ensures
                    self@.rom == rom,
                    self@.tags.len() == rom.len(),
                    forall|k: int| 0 <= k < branches@.len() ==> (branches@[k] as int) < rom.len(),
                    spec_drain::<Arch>(rom, self@.tags, branches@) == drained,
                    count_non_code(self@.tags) <= count0,
                    count_non_code(self@.tags) + branches@.len() <= count0 + len0 - 1,
                decreases count_non_code(self@.tags),
            {
                let window = slice_subrange(self.state.rom, cursor, self.state.rom.len());
                match Arch::disassemble(window) {
                    None => {
                        break;
                    },
                    Some(instruction) => {
                        proof {
                            Arch::lemma_disassemble_fits(window@);
                        }
                        let tag = self.state.byte_type[cursor];
                        if tag == ByteType::Code || tag == ByteType::Data {
                            break;
                        }
                        proof {
                            lemma_count_update_to_code(self@.tags, cursor as int);
                        }
                        self.state.byte_type.set(cursor, ByteType::Code);
                        if let Some(target_address) = instruction.branch_address() {
                            if let Some(resolved) = Arch::resolve_address(
                                target_address,
                                cursor,
                                &self.state,
                            ) {
                                proof {
                                    Arch::lemma_resolve_in_image(
                                        target_address,
                                        cursor as int,
                                        self.state@,
                                    );
                                }
                                branches.push(resolved);
                            }
                        }
                        if !instruction.falls_through() {
                            break;
                        }
                        cursor = cursor + instruction.size();
                    },
                }
            }
        }
        proof {
            assert(spec_drain::<Arch>(rom, self@.tags, branches@) == self@.tags);
            assert(self@.tags == drained);
        }

        // the override itself: the seed is granted its `Code` tag whether
        // or not an instruction decodes there
        self.state.byte_type.set(address, ByteType::Code);
        proof {
            assert(self@.tags == spec_mark::<Arch>(rom, old(self)@.tags, address));
            crate::discovery::lemma_mark_code_transitions::<Arch>(
                rom,
                old(self)@.tags,
                address,
            );
        }
    }

    /// The resolved branch target of the instruction at `location`, if the
    /// bytes there decode, the instruction branches, and the target
    /// resolves.
    pub fn resolve_branch_address(&self, location: usize) -> (r: Option<usize>)
        requires
            self@.wf(),
            location < self@.rom.len(),
        ensures
            r == spec_resolve_branch_address::<Arch>(self@, location as int),
            r matches Some(o) ==> (o as int) < self@.rom.len(),
    {
        let window = slice_subrange(self.state.rom, location, self.state.rom.len());
        match Arch::disassemble(window) {
            None => None,
            Some(instruction) => match instruction.branch_address() {
                None => None,
                Some(target_address) => {
                    let r = Arch::resolve_address(target_address, location, &self.state);
                    proof {
                        Arch::lemma_resolve_in_image(target_address, location as int, self@);
                    }
                    r
                },
            },
        }
    }

    /// The nearest instruction-aligned offset at or before `address`.  A
    /// classified offset is returned as is; an `Unknown` offset is moved to
    /// the earliest start within two bytes back whose decoding spans across
    /// it, which guards against landing mid-instruction on variable-length
    /// encodings.
    pub fn align_address_to_valid_location(&self, address: usize) -> (r: usize)
        requires
            self@.wf(),
            address < self@.tags.len(),
        ensures
            r == spec_align_address::<Arch>(self@, address as int),
            r <= address,
    {
        match self.state.byte_type[address] {
            ByteType::Data | ByteType::Code => address,
            ByteType::Unknown => {
                if address >= 2 {
                    let window = slice_subrange(self.state.rom, address - 2, self.state.rom.len());
                    if let Some(instruction) = Arch::disassemble(window) {
                        if instruction.size() > 2 {
                            return address - 2;
                        }
                    }
                }
                if address >= 1 {
                    let window = slice_subrange(self.state.rom, address - 1, self.state.rom.len());
                    if let Some(instruction) = Arch::disassemble(window) {
                        if instruction.size() > 1 {
                            return address - 1;
                        }
                    }
                }
                address
            },
        }
    }

    /// The offset one classification-aligned unit after `address`: one
    /// whole instruction forward on a decodable `Code` offset, one byte
    /// forward otherwise.  The cursor strictly advances and never lands
    /// inside the instruction being stepped over.
    pub fn next_valid_address(&self, address: usize) -> (r: usize)
        requires
            self@.wf(),
            address < self@.tags.len(),
        ensures
            r == spec_next_valid_address::<Arch>(self@, address as int),
            address < r <= self@.rom.len(),
    {
        let image_len = self.state.rom_len();
        if self.state.byte_type[address] == ByteType::Code {
            let window = slice_subrange(self.state.rom, address, image_len);
            if let Some(instruction) = Arch::disassemble(window) {
                proof {
                    Arch::lemma_disassemble_fits(window@);
                }
                return address + instruction.size();
            }
        }
        address + 1
    }

    /// The instruction decoded at `address`, if any.
    pub fn instruction_at(&self, address: usize) -> (r: Option<Arch::Instruction>)
        requires
            self@.wf(),
            address < self@.rom.len(),
        ensures
            r == Arch::spec_disassemble(
                self@.rom.subrange(address as int, self@.rom.len() as int),
            ),
    {
        let window = slice_subrange(self.state.rom, address, self.state.rom.len());
        Arch::disassemble(window)
    }
}

} // verus!
