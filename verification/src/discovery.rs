//! Mathematical model of the code discovery engine.
//!
//! `spec_mark` says exactly which classification `Disassembler::mark_code`
//! produces: an explicit override of the seed offset, followed by a worklist
//! that drains chains of decodable instructions, following fallthrough edges
//! directly and deferring branch targets.  The definitions terminate because
//! every chain step retags one non-`Code` offset as `Code`, and a chain
//! pushes at most one new worklist entry per retagged offset.

use vstd::prelude::*;

use crate::disassembler::{Architecture, ByteType, ClassificationSnapshot, Instruction};

verus! {

/// Number of offsets whose tag is not `Code`.  This is the measure that
/// bounds the work of discovery: it never grows, and it shrinks every time
/// a chain tags an offset.
pub open spec fn count_non_code(tags: Seq<ByteType>) -> nat
    decreases tags.len(),
{
    if tags.len() == 0 {
        0
    } else {
        count_non_code(tags.drop_last()) + (if tags.last() is Code {
            0nat
        } else {
            1nat
        })
    }
}

/// Retagging a non-`Code` offset as `Code` strictly shrinks the measure.
pub proof fn lemma_count_update_to_code(tags: Seq<ByteType>, i: int)
    requires
        0 <= i < tags.len(),
        !(tags[i] is Code),
    ensures
        count_non_code(tags.update(i, ByteType::Code)) < count_non_code(tags),
    decreases tags.len(),
{
    let t2 = tags.update(i, ByteType::Code);
    if i == tags.len() - 1 {
        assert(t2.drop_last() =~= tags.drop_last());
    } else {
        assert(t2.drop_last() =~= tags.drop_last().update(i, ByteType::Code));
        assert(t2.last() == tags.last());
        lemma_count_update_to_code(tags.drop_last(), i);
    }
}

/// One discovery chain: starting at `cursor`, decode and tag instructions
/// as `Code`, pushing each resolved branch target onto `work`, until the
/// chain hits an offset that is already classified, an undecodable byte, or
/// an instruction that does not fall through.  Returns the new tags and the
/// grown worklist.
pub open spec fn spec_chain<A: Architecture>(
    rom: Seq<u8>,
    tags: Seq<ByteType>,
    work: Seq<usize>,
    cursor: int,
) -> (Seq<ByteType>, Seq<usize>)
    decreases count_non_code(tags),
{
    if tags.len() != rom.len() || !(0 <= cursor <= rom.len()) {
        (tags, work)
    } else {
        match A::spec_disassemble(rom.subrange(cursor, rom.len() as int)) {
            None => (tags, work),
            Some(i) => {
                if !(1 <= i.spec_size() && cursor + i.spec_size() <= rom.len()) {
                    // a lawful architecture never reaches this arm
                    (tags, work)
                } else if tags[cursor] is Code || tags[cursor] is Data {
                    (tags, work)
                } else {
                    let tags2 = tags.update(cursor, ByteType::Code);
                    let work2 = match i.spec_branch_address() {
                        Some(la) => match A::spec_resolve_address(
                            la,
                            cursor,
                            ClassificationSnapshot { rom, tags: tags2 },
                        ) {
                            Some(t) => work.push(t),
                            None => work,
                        },
                        None => work,
                    };
                    if !i.spec_falls_through() {
                        (tags2, work2)
                    } else {
                        proof {
                            lemma_count_update_to_code(tags, cursor);
                        }
                        spec_chain::<A>(rom, tags2, work2, cursor + i.spec_size())
                    }
                }
            },
        }
    }
}

/// A chain either leaves the state exactly as it found it, or strictly
/// shrinks the measure; it never changes the tag count's length.
pub proof fn lemma_chain_measure<A: Architecture>(
    rom: Seq<u8>,
    tags: Seq<ByteType>,
    work: Seq<usize>,
    cursor: int,
)
    ensures
        ({
            let (t2, w2) = spec_chain::<A>(rom, tags, work, cursor);
            &&& t2.len() == tags.len()
            &&& count_non_code(t2) < count_non_code(tags) || (t2 == tags && w2 == work)
        }),
    decreases count_non_code(tags),
{
    if tags.len() != rom.len() || !(0 <= cursor <= rom.len()) {
    } else {
        match A::spec_disassemble(rom.subrange(cursor, rom.len() as int)) {
            None => {},
            Some(i) => {
                if !(1 <= i.spec_size() && cursor + i.spec_size() <= rom.len()) {
                } else if tags[cursor] is Code || tags[cursor] is Data {
                } else {
                    let tags2 = tags.update(cursor, ByteType::Code);
                    lemma_count_update_to_code(tags, cursor);
                    if !i.spec_falls_through() {
                    } else {
                        let w2 = match i.spec_branch_address() {
                            Some(la) => match A::spec_resolve_address(
                                la,
                                cursor,
                                ClassificationSnapshot { rom, tags: tags2 },
                            ) {
                                Some(t) => work.push(t),
                                None => work,
                            },
                            None => work,
                        };
                        lemma_chain_measure::<A>(rom, tags2, w2, cursor + i.spec_size());
                    }
                }
            },
        }
    }
}

/// Drain the worklist: pop an offset, run its chain, repeat until empty.
pub open spec fn spec_drain<A: Architecture>(
    rom: Seq<u8>,
    tags: Seq<ByteType>,
    work: Seq<usize>,
) -> Seq<ByteType>
    decreases count_non_code(tags), work.len(),
{
    if work.len() == 0 {
        tags
    } else {
        let step = spec_chain::<A>(rom, tags, work.drop_last(), work.last() as int);
        proof {
            lemma_chain_measure::<A>(rom, tags, work.drop_last(), work.last() as int);
        }
        spec_drain::<A>(rom, step.0, step.1)
    }
}

/// A chain only retags `Unknown` offsets as `Code`, keeps every worklist
/// entry it was given, and every entry it adds lies inside the image.
pub proof fn lemma_chain_frame<A: Architecture>(
    rom: Seq<u8>,
    tags: Seq<ByteType>,
    work: Seq<usize>,
    cursor: int,
)
    ensures
        ({
            let (t2, w2) = spec_chain::<A>(rom, tags, work, cursor);
            &&& t2.len() == tags.len()
            &&& forall|o: int|
                0 <= o < tags.len() && t2[o] != tags[o] ==> t2[o] is Code && tags[o] is Unknown
            &&& w2.len() >= work.len()
            &&& forall|k: int| 0 <= k < work.len() ==> w2[k] == work[k]
            &&& forall|k: int| work.len() <= k < w2.len() ==> (w2[k] as int) < rom.len()
        }),
    decreases count_non_code(tags),
{
    if tags.len() != rom.len() || !(0 <= cursor <= rom.len()) {
    } else {
        match A::spec_disassemble(rom.subrange(cursor, rom.len() as int)) {
            None => {},
            Some(i) => {
                if !(1 <= i.spec_size() && cursor + i.spec_size() <= rom.len()) {
                } else if tags[cursor] is Code || tags[cursor] is Data {
                } else {
                    let tags2 = tags.update(cursor, ByteType::Code);
                    lemma_count_update_to_code(tags, cursor);
                    let w2 = match i.spec_branch_address() {
                        Some(la) => {
                            let snapshot = ClassificationSnapshot { rom, tags: tags2 };
                            A::lemma_resolve_in_image(la, cursor, snapshot);
                            match A::spec_resolve_address(la, cursor, snapshot) {
                                Some(t) => work.push(t),
                                None => work,
                            }
                        },
                        None => work,
                    };
                    if !i.spec_falls_through() {
                    } else {
                        lemma_chain_frame::<A>(rom, tags2, w2, cursor + i.spec_size());
                    }
                }
            },
        }
    }
}

/// Draining the worklist only retags `Unknown` offsets as `Code`.
pub proof fn lemma_drain_frame<A: Architecture>(rom: Seq<u8>, tags: Seq<ByteType>, work: Seq<usize>)
    ensures
        ({
            let t2 = spec_drain::<A>(rom, tags, work);
            &&& t2.len() == tags.len()
            &&& forall|o: int|
                0 <= o < tags.len() && t2[o] != tags[o] ==> t2[o] is Code && tags[o] is Unknown
        }),
    decreases count_non_code(tags), work.len(),
{
    if work.len() == 0 {
    } else {
        let step = spec_chain::<A>(rom, tags, work.drop_last(), work.last() as int);
        lemma_chain_measure::<A>(rom, tags, work.drop_last(), work.last() as int);
        lemma_chain_frame::<A>(rom, tags, work.drop_last(), work.last() as int);
        lemma_drain_frame::<A>(rom, step.0, step.1);
    }
}

/// The full effect of `mark_code`: an explicit request on a `Data` offset
/// first clears that one tag so discovery can re-run through it, then the
/// worklist is drained starting from the seed alone, and finally the seed
/// itself is tagged `Code` — the request is a direct user override, granted
/// even when nothing decodes at the seed.
pub open spec fn spec_mark<A: Architecture>(
    rom: Seq<u8>,
    tags: Seq<ByteType>,
    seed: usize,
) -> Seq<ByteType> {
    let tags0 = if seed < tags.len() && tags[seed as int] is Data {
        tags.update(seed as int, ByteType::Unknown)
    } else {
        tags
    };
    let drained = spec_drain::<A>(rom, tags0, seq![seed]);
    if seed < drained.len() {
        drained.update(seed as int, ByteType::Code)
    } else {
        drained
    }
}

/// Discovery performs bounded, one-way work: the only transition it ever
/// makes is towards `Code`, so each offset is retagged at most once,
/// offsets already tagged `Code` stay `Code`, away from the seed only
/// `Unknown` offsets change, and the seed itself always ends `Code`.
pub proof fn lemma_mark_code_transitions<A: Architecture>(
    rom: Seq<u8>,
    tags: Seq<ByteType>,
    seed: usize,
)
    ensures
        ({
            let t2 = spec_mark::<A>(rom, tags, seed);
            &&& t2.len() == tags.len()
            &&& seed < tags.len() ==> t2[seed as int] is Code
            &&& forall|o: int|
                0 <= o < tags.len() && o != seed && t2[o] != tags[o] ==> t2[o] is Code
                    && tags[o] is Unknown
            &&& forall|o: int| 0 <= o < tags.len() && t2[o] != tags[o] ==> t2[o] is Code
            &&& forall|o: int| 0 <= o < tags.len() && tags[o] is Code ==> t2[o] is Code
        }),
{
    let tags0 = if seed < tags.len() && tags[seed as int] is Data {
        tags.update(seed as int, ByteType::Unknown)
    } else {
        tags
    };
    lemma_drain_frame::<A>(rom, tags0, seq![seed]);
}

/// Discovery never converts a `Data` tag: only the explicitly requested
/// seed offset can leave `Data`, and only because the user asked for it.
pub proof fn lemma_mark_code_no_downgrade<A: Architecture>(
    rom: Seq<u8>,
    tags: Seq<ByteType>,
    seed: usize,
)
    ensures
        forall|o: int|
            0 <= o < tags.len() && o != seed && tags[o] is Data ==> spec_mark::<A>(
                rom,
                tags,
                seed,
            )[o] is Data,
{
    lemma_mark_code_transitions::<A>(rom, tags, seed);
}

/// Marking an offset as code twice in a row yields exactly the
/// classification that marking it once yields.
pub proof fn lemma_mark_code_idempotent<A: Architecture>(rom: Seq<u8>, tags: Seq<ByteType>, seed: usize)
    requires
        tags.len() == rom.len(),
        seed < tags.len(),
    ensures
        spec_mark::<A>(rom, spec_mark::<A>(rom, tags, seed), seed) == spec_mark::<A>(
            rom,
            tags,
            seed,
        ),
{
    let tags0 = if tags[seed as int] is Data {
        tags.update(seed as int, ByteType::Unknown)
    } else {
        tags
    };
    let unit = seq![seed];
    assert(unit.last() == seed);
    assert(unit.drop_last() =~= Seq::<usize>::empty());
    let rest = unit.drop_last();
    lemma_drain_frame::<A>(rom, tags0, unit);
    let drained = spec_drain::<A>(rom, tags0, unit);
    let t1 = spec_mark::<A>(rom, tags, seed);
    assert(t1 == drained.update(seed as int, ByteType::Code));
    assert(t1[seed as int] is Code);
    // the second invocation does not reset the seed (it is `Code`, not
    // `Data`), and its one chain stops immediately at the `Code` tag, so
    // the drain returns `t1` unchanged
    let step2 = spec_chain::<A>(rom, t1, rest, seed as int);
    assert(step2 == (t1, rest));
    assert(spec_drain::<A>(rom, t1, rest) == t1);
    assert(spec_drain::<A>(rom, t1, unit) == t1);
    // re-tagging the already `Code` seed changes nothing
    assert(t1.update(seed as int, ByteType::Code) =~= t1);
}

} // verus!
