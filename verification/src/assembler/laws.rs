use crate::assembler::{
    disassembly, emit, encode, encoded_at, end_address, first_match, first_pass, gathered,
    instruction_bytes, is_label, is_listing, lists, operand_bytes, optimize, parse, resolved,
    second_pass, select, Encoded, Failure, Instruction, Mnemonic, Parameter, Value,
};
use crate::memory::{high_byte, low_byte, word};
use crate::opcode::{
    decode, encodings, lemma_encodings_sound, AddressingMode, InstructionMeta, Opcode,
};
use vstd::prelude::*;

verus! {

/// Whether an operand takes as many bytes as its mode is wide.
pub open spec fn value_fits(value: Option<Value>, mode: AddressingMode) -> bool {
    match value {
        None => mode.spec_width() == 0,
        Some(Value::U8(_)) => mode.spec_width() == 1,
        Some(Value::U16(_)) => mode.spec_width() == 2,
        Some(Value::Label(_)) => false,
    }
}

/// Whether an encoded instruction is a row of the catalogue with operands
/// as wide as the row says.
pub open spec fn tight(encoded: Encoded) -> bool {
    &&& decode(encoded.meta.byte) == Some(encoded.meta)
    &&& value_fits(encoded.value_1, encoded.meta.parameter_1)
    &&& value_fits(encoded.value_2, encoded.meta.parameter_2)
}

/// The bytes of the encoded instructions from index `from` up to `to`.
pub open spec fn emit_from(encoded: Seq<Encoded>, from: int, to: int) -> Seq<u8>
    decreases to - from,
{
    if from >= to {
        Seq::empty()
    } else {
        instruction_bytes(encoded[from]) + emit_from(encoded, from + 1, to)
    }
}

proof fn lemma_emit_from_last(encoded: Seq<Encoded>, from: int, to: int)
    requires
        0 <= from < to <= encoded.len(),
    ensures
        emit_from(encoded, from, to) == emit_from(encoded, from, to - 1) + instruction_bytes(
            encoded[to - 1],
        ),
    decreases to - from,
{
    if from + 1 < to {
        lemma_emit_from_last(encoded, from + 1, to);
        assert(emit_from(encoded, from, to - 1) == instruction_bytes(encoded[from]) + emit_from(
            encoded,
            from + 1,
            to - 1,
        ));
        assert(emit_from(encoded, from, to) =~= emit_from(encoded, from, to - 1)
            + instruction_bytes(encoded[to - 1]));
    } else {
        assert(emit_from(encoded, from + 1, to) =~= Seq::<u8>::empty());
        assert(emit_from(encoded, from, to - 1) =~= Seq::<u8>::empty());
        assert(emit_from(encoded, from, to) =~= emit_from(encoded, from, to - 1)
            + instruction_bytes(encoded[to - 1]));
    }
}

/// The bytes of a program are the bytes of its instructions from the first
/// on.
proof fn lemma_emit_is_emit_from(encoded: Seq<Encoded>, count: nat)
    requires
        count <= encoded.len(),
    ensures
        emit(encoded, count) == emit_from(encoded, 0, count as int),
    decreases count,
{
    if count > 0 {
        lemma_emit_is_emit_from(encoded, (count - 1) as nat);
        lemma_emit_from_last(encoded, 0, count as int);
    }
}

/// The bytes of a tight instruction, read at their place, are the
/// instruction.
proof fn lemma_read_back(before: Seq<u8>, encoded: Encoded, after: Seq<u8>)
    requires
        tight(encoded),
    ensures
        instruction_bytes(encoded).len() == encoded.meta.spec_width(),
        (before + instruction_bytes(encoded) + after)[before.len() as int] == encoded.meta.byte,
        encoded_at(before + instruction_bytes(encoded) + after, before.len() as int, encoded.meta)
            == encoded,
{
    let bytes = before + instruction_bytes(encoded) + after;
    let own = instruction_bytes(encoded);
    let at = before.len() as int;
    let first = operand_bytes(encoded.value_1);
    let second = operand_bytes(encoded.value_2);
    assert(own =~= seq![encoded.meta.byte] + first + second);
    assert(first.len() == encoded.meta.parameter_1.spec_width());
    assert(second.len() == encoded.meta.parameter_2.spec_width());
    assert forall|j: int| 0 <= j < own.len() implies bytes[at + j] == own[j] by {}
    assert(bytes[at] == own[0]);
    match encoded.value_1 {
        Some(Value::U8(number)) => {
            assert(bytes[at + 1] == own[1]);
        },
        Some(Value::U16(number)) => {
            assert(bytes[at + 1] == own[1]);
            assert(bytes[at + 2] == own[2]);
            assert(word(low_byte(number), high_byte(number)) == number);
        },
        _ => {},
    }
    let base = at + 1 + first.len();
    match encoded.value_2 {
        Some(Value::U8(number)) => {
            assert(bytes[base] == own[1 + first.len() as int]);
        },
        Some(Value::U16(number)) => {
            assert(bytes[base] == own[1 + first.len() as int]);
            assert(bytes[base + 1] == own[2 + first.len() as int]);
            assert(word(low_byte(number), high_byte(number)) == number);
        },
        _ => {},
    }
}

/// Behind any bytes, the bytes of tight instructions are listed as those
/// instructions.
proof fn lemma_disassembly_of_emit(before: Seq<u8>, encoded: Seq<Encoded>, from: int, to: int)
    requires
        0 <= from <= to <= encoded.len(),
        forall|i: int| from <= i < to ==> tight(#[trigger] encoded[i]),
    ensures
        disassembly(before + emit_from(encoded, from, to), before.len() as int)
            == encoded.subrange(from, to),
    decreases to - from,
{
    let bytes = before + emit_from(encoded, from, to);
    if from >= to {
        assert(emit_from(encoded, from, to) =~= Seq::<u8>::empty());
        assert(bytes =~= before);
        assert(disassembly(bytes, before.len() as int) =~= encoded.subrange(from, to));
    } else {
        let head = encoded[from];
        let rest = emit_from(encoded, from + 1, to);
        let own = instruction_bytes(head);
        assert(bytes =~= before + own + rest);
        lemma_read_back(before, head, rest);
        lemma_disassembly_of_emit(before + own, encoded, from + 1, to);
        assert(before + own + rest =~= (before + own) + rest);
        assert((before + own).len() == before.len() + head.meta.spec_width());
        assert(disassembly(bytes, before.len() as int) =~= seq![head] + disassembly(
            bytes,
            before.len() + head.meta.spec_width(),
        ));
        assert(encoded.subrange(from, to) =~= seq![head] + encoded.subrange(from + 1, to));
    }
}

/// Listing the bytes of tight instructions yields those instructions.
pub proof fn lemma_listing_of_program(encoded: Seq<Encoded>)
    requires
        forall|i: int| 0 <= i < encoded.len() ==> tight(#[trigger] encoded[i]),
    ensures
        disassembly(emit(encoded, encoded.len()), 0) == encoded,
{
    lemma_emit_is_emit_from(encoded, encoded.len());
    lemma_disassembly_of_emit(Seq::empty(), encoded, 0, encoded.len() as int);
    assert(Seq::<u8>::empty() + emit_from(encoded, 0, encoded.len() as int) =~= emit_from(
        encoded,
        0,
        encoded.len() as int,
    ));
    assert(encoded.subrange(0, encoded.len() as int) =~= encoded);
}

/// An instruction whose operand the assembler can read and which names no
/// label.
pub open spec fn plain(instruction: Instruction) -> bool {
    match parse(instruction.parameter) {
        Some(parsed) => !is_label(parsed.value_1) && parsed.value_2 is None,
        None => false,
    }
}

/// A match found among candidates is one of them, with the modes asked for.
proof fn lemma_first_match(
    candidates: Seq<InstructionMeta>,
    mode_1: AddressingMode,
    mode_2: AddressingMode,
    from: int,
)
    requires
        0 <= from,
    ensures
        first_match(candidates, mode_1, mode_2, from) matches Some(meta) ==> meta.parameter_1
            == mode_1 && meta.parameter_2 == mode_2 && exists|i: int|
            from <= i < candidates.len() && candidates[i] == meta,
    decreases candidates.len() - from,
{
    if from < candidates.len() {
        if candidates[from].parameter_1 == mode_1 && candidates[from].parameter_2 == mode_2 {
        } else {
            lemma_first_match(candidates, mode_1, mode_2, from + 1);
        }
    }
}

/// The encoding of a plain instruction is tight, carries its mnemonic, and
/// holds no label; what writes that encoding down reads like the operand
/// of the instruction.
pub proof fn lemma_plain_encoding(source: Instruction, shown: Instruction, cursor: u16)
    requires
        plain(source),
        encode(source) is Ok,
    ensures
        encode(source) matches Ok(encoded) && tight(encoded) && !is_label(encoded.value_1)
            && encoded.value_2 is None && source.mnemonic == Mnemonic::Opcode(
            encoded.meta.opcode,
        ) && (lists(shown, encoded, cursor) ==> shown.mnemonic == source.mnemonic && parse(
            shown.parameter,
        ) == parse(source.parameter)),
{
    let opcode = match source.mnemonic {
        Mnemonic::Opcode(opcode) => opcode,
        Mnemonic::PseudoOp(_) => Opcode::NOP,
    };
    let parsed = parse(source.parameter)->Some_0;
    let candidates = encodings(opcode);
    let operands = optimize(parsed, candidates);
    let encoded = select(opcode, parsed)->Some_0;
    lemma_first_match(candidates, operands.mode_1, operands.mode_2, 0);
    let i = choose|i: int| 0 <= i < candidates.len() && candidates[i] == encoded.meta;
    lemma_encodings_sound(opcode, 256, i);
}

/// The first pass encodes each instruction on its own.
proof fn lemma_first_pass_encodes(instructions: Seq<Instruction>, count: nat, i: int)
    requires
        first_pass(instructions, count) is Ok,
        0 <= i < count,
    ensures
        gathered(instructions, count).encoded.len() == count,
        encode(instructions[i]) == Ok::<Encoded, Failure>(gathered(instructions, count).encoded[i]),
    decreases count,
{
    crate::assembler::lemma_first_pass(instructions, count);
    if i < count - 1 {
        lemma_first_pass_encodes(instructions, (count - 1) as nat, i);
        crate::assembler::lemma_first_pass(instructions, (count - 1) as nat);
    }
}

/// The second pass leaves an instruction without labels as it is.
proof fn lemma_second_pass_keeps(
    encoded: Seq<Encoded>,
    labels: Map<Seq<char>, u16>,
    count: nat,
    i: int,
)
    requires
        second_pass(encoded, labels, count) is Ok,
        0 <= i < count,
        !is_label(encoded[i].value_1) && !is_label(encoded[i].value_2),
    ensures
        resolved(encoded, labels, count).len() == count,
        resolved(encoded, labels, count)[i] == encoded[i],
    decreases count,
{
    crate::assembler::lemma_resolved_has_no_label(encoded, labels, count);
    crate::assembler::lemma_resolved_has_no_label(encoded, labels, (count - 1) as nat);
    if i < count - 1 {
        lemma_second_pass_keeps(encoded, labels, (count - 1) as nat, i);
    }
}

/// An instruction without labels is encoded in as many bytes as the chosen
/// row of the catalogue is wide.
pub proof fn lemma_plain_width(source: Instruction)
    requires
        plain(source),
        encode(source) is Ok,
    ensures
        encode(source) matches Ok(encoded) && instruction_bytes(encoded).len()
            == encoded.meta.spec_width(),
{
    lemma_plain_encoding(source, source, 0);
    match encode(source) {
        Ok(encoded) => {
            lemma_read_back(Seq::empty(), encoded, Seq::empty());
        },
        Err(_) => {},
    }
}

/// The bytes of tight instructions end at the address behind the last of
/// them.
pub proof fn lemma_emit_length(encoded: Seq<Encoded>, count: nat)
    requires
        count <= encoded.len(),
        forall|i: int| 0 <= i < count ==> tight(#[trigger] encoded[i]),
    ensures
        emit(encoded, count).len() == end_address(encoded, count),
    decreases count,
{
    if count > 0 {
        lemma_emit_length(encoded, (count - 1) as nat);
        lemma_read_back(Seq::empty(), encoded[count - 1], Seq::empty());
    }
}

/// Being written alike is symmetric.
pub proof fn lemma_alike_symmetric(a: Parameter, b: Parameter)
    requires
        a.alike(b),
    ensures
        b.alike(a),
    decreases a,
{
    match (a, b) {
        (Parameter::Indirect(first), Parameter::Indirect(second)) => {
            lemma_alike_symmetric(*first, *second);
        },
        (Parameter::List(first), Parameter::List(second)) => {
            assert forall|i: int| 0 <= i < second@.len() implies (#[trigger] second@[i]).alike(
                first@[i],
            ) by {
                lemma_alike_symmetric(first@[i], second@[i]);
            }
        },
        _ => {},
    }
}

/// Operands that the assembler reads alike are written alike.
pub proof fn lemma_parse_injective(a: Parameter, b: Parameter)
    requires
        parse(a) is Some,
        parse(a) == parse(b),
    ensures
        a.alike(b),
{
    reveal_with_fuel(Parameter::alike, 4);
    match (a, b) {
        (Parameter::List(first), Parameter::List(second)) => {
            assert(first@.len() == 2 && second@.len() == 2);
            assert(first@[0].alike(second@[0]));
            assert(first@[1].alike(second@[1]));
        },
        (Parameter::Indirect(first), Parameter::Indirect(second)) => {
            match (*first, *second) {
                (Parameter::List(inner_first), Parameter::List(inner_second)) => {
                    assert(inner_first@.len() == 2 && inner_second@.len() == 2);
                    assert(inner_first@[0].alike(inner_second@[0]));
                    assert(inner_first@[1].alike(inner_second@[1]));
                },
                _ => {},
            }
        },
        _ => {},
    }
}

/// Assembling a program and listing its bytes yields, instruction by
/// instruction, the mnemonic of the source and an operand written like the
/// operand of the source. The zero page optimization does not show: an
/// address that was shortened to one byte is listed as the address it is.
/// The law speaks of programs without labels: a listing cannot know the
/// name behind a branch target.
pub proof fn lemma_assemble_disassemble(
    instructions: Seq<Instruction>,
    bytes: Seq<u8>,
    listing: Seq<Instruction>,
)
    requires
        forall|i: int| 0 <= i < instructions.len() ==> plain(#[trigger] instructions[i]),
        crate::assembler::assemble_program(instructions) == Ok::<Seq<u8>, Failure>(bytes),
        is_listing(bytes, listing),
    ensures
        listing.len() == instructions.len(),
        forall|i: int|
            0 <= i < instructions.len() ==> (#[trigger] listing[i]).mnemonic
                == instructions[i].mnemonic && listing[i].parameter.alike(
                instructions[i].parameter,
            ),
{
    let count = instructions.len();
    let pass = gathered(instructions, count);
    let done = resolved(pass.encoded, pass.labels, count);
    crate::assembler::lemma_first_pass(instructions, count);
    crate::assembler::lemma_resolved_has_no_label(pass.encoded, pass.labels, count);
    assert forall|i: int| 0 <= i < count implies tight(#[trigger] done[i]) && encode(
        instructions[i],
    ) == Ok::<Encoded, Failure>(done[i]) by {
        lemma_first_pass_encodes(instructions, count, i);
        lemma_plain_encoding(instructions[i], instructions[i], 0);
        lemma_second_pass_keeps(pass.encoded, pass.labels, count, i);
    }
    lemma_listing_of_program(done);
    assert(bytes == emit(done, done.len()));
    assert(disassembly(bytes, 0) == done);
    assert forall|i: int| 0 <= i < count implies (#[trigger] listing[i]).mnemonic
        == instructions[i].mnemonic && listing[i].parameter.alike(instructions[i].parameter) by {
        let cursor = crate::assembler::wrap_address(end_address(done, (i + 1) as nat));
        lemma_plain_encoding(instructions[i], listing[i], cursor);
        lemma_parse_injective(instructions[i].parameter, listing[i].parameter);
        lemma_alike_symmetric(instructions[i].parameter, listing[i].parameter);
    }
}

} // verus!
