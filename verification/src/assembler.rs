use crate::opcode::{
    encodings, get_instructions, AddressingMode, InstructionMeta, Opcode,
};
use itertools::Itertools;
use vstd::prelude::*;
use vstd::string::StringExecFns;

pub mod laws;

verus! {

/// Why a program could not be assembled.
#[derive(Debug)]
pub enum AssemblerError {
    Generic(String),
    /// a label is bound twice
    DoubleLabel(String),
    /// a label is used but never bound
    UnknownLabel(String),
    /// the program does not fit the address space
    AddressOverflow,
    /// the mnemonic has no encoding
    InvalidOpcode,
    /// the operand does not fit any encoding of the mnemonic
    ParameterMismatch(String),
    /// a relative branch reaches beyond -128..=127
    JumpTooFar,
}

/// An `AssemblerError` without its explanatory text.
pub enum Failure {
    Generic,
    DoubleLabel(Seq<char>),
    UnknownLabel(Seq<char>),
    AddressOverflow,
    InvalidOpcode,
    ParameterMismatch,
    JumpTooFar,
}

impl View for AssemblerError {
    type V = Failure;

    open spec fn view(&self) -> Failure {
        match self {
            AssemblerError::Generic(_) => Failure::Generic,
            AssemblerError::DoubleLabel(label) => Failure::DoubleLabel(label@),
            AssemblerError::UnknownLabel(label) => Failure::UnknownLabel(label@),
            AssemblerError::AddressOverflow => Failure::AddressOverflow,
            AssemblerError::InvalidOpcode => Failure::InvalidOpcode,
            AssemblerError::ParameterMismatch(_) => Failure::ParameterMismatch,
            AssemblerError::JumpTooFar => Failure::JumpTooFar,
        }
    }
}

/// Mnemonics that stand for a family of opcodes, one per bit.
#[derive(Debug, Copy, Clone, PartialEq, Eq, Structural, Hash)]
pub enum PseudoInstruction {
    BBR,
    BBS,
    RMB,
    SMB,
}

/// What an instruction of the source program names: an opcode of the
/// instruction set or a pseudo instruction.
#[derive(Debug, Copy, Clone, PartialEq, Eq, Structural, Hash)]
pub enum Mnemonic {
    Opcode(Opcode),
    PseudoOp(PseudoInstruction),
}

impl From<PseudoInstruction> for Mnemonic {
    fn from(value: PseudoInstruction) -> (mnemonic: Self) {
        Self::PseudoOp(value)
    }
}

impl vstd::std_specs::convert::FromSpecImpl<PseudoInstruction> for Mnemonic {
    open spec fn obeys_from_spec() -> bool {
        true
    }

    open spec fn from_spec(value: PseudoInstruction) -> Self {
        Mnemonic::PseudoOp(value)
    }
}

impl From<Opcode> for Mnemonic {
    fn from(value: Opcode) -> (mnemonic: Self) {
        Self::Opcode(value)
    }
}

impl vstd::std_specs::convert::FromSpecImpl<Opcode> for Mnemonic {
    open spec fn obeys_from_spec() -> bool {
        true
    }

    open spec fn from_spec(value: Opcode) -> Self {
        Mnemonic::Opcode(value)
    }
}

/// The operand of an instruction as the source program writes it.
#[derive(Debug, PartialEq, Eq, Hash)]
pub enum Parameter {
    /// no operand
    Implied,
    A,
    X,
    Y,
    /// `#n`
    Immediate(u8),
    /// `a`
    Absolute(u16),
    /// a label, standing for the address it is bound to
    Label(String),
    /// `(p)`
    Indirect(Box<Parameter>),
    /// `p,q`
    List(Vec<Parameter>),
}

impl Parameter {
    /// Whether two operands are written alike: of the same shape, with the
    /// same numbers and the same labels.
    pub open spec fn alike(self, other: Parameter) -> bool
        decreases self,
    {
        match (self, other) {
            (Parameter::Implied, Parameter::Implied) => true,
            (Parameter::A, Parameter::A) => true,
            (Parameter::X, Parameter::X) => true,
            (Parameter::Y, Parameter::Y) => true,
            (Parameter::Immediate(a), Parameter::Immediate(b)) => a == b,
            (Parameter::Absolute(a), Parameter::Absolute(b)) => a == b,
            (Parameter::Label(a), Parameter::Label(b)) => a@ == b@,
            (Parameter::Indirect(a), Parameter::Indirect(b)) => (*a).alike(*b),
            (Parameter::List(a), Parameter::List(b)) => a@.len() == b@.len() && forall|i: int|
                0 <= i < a@.len() ==> (#[trigger] a@[i]).alike(b@[i]),
            _ => false,
        }
    }
}

impl Clone for Parameter {
    fn clone(&self) -> (copy: Self)
        ensures
            self.alike(copy),
        decreases self,
    {
        match self {
            Parameter::Implied => Parameter::Implied,
            Parameter::A => Parameter::A,
            Parameter::X => Parameter::X,
            Parameter::Y => Parameter::Y,
            Parameter::Immediate(number) => Parameter::Immediate(*number),
            Parameter::Absolute(number) => Parameter::Absolute(*number),
            Parameter::Label(label) => Parameter::Label(label.clone()),
            Parameter::Indirect(inner) => Parameter::Indirect(Box::new((**inner).clone())),
            Parameter::List(list) => {
                let mut copies: Vec<Parameter> = Vec::new();
                let mut i: usize = 0;
                while i < list.len()
                    invariant
                        i <= list@.len(),
                        self matches Parameter::List(own) && own == list,
                        copies@.len() == i,
                        forall|k: int| 0 <= k < i ==> (#[trigger] list@[k]).alike(copies@[k]),
                    decreases list@.len() - i,
                {
                    copies.push(list[i].clone());
                    i += 1;
                }
                Parameter::List(copies)
            },
        }
    }
}

impl Parameter {
    /// A reference to the label `label`.
    pub fn label(label: &str) -> (parameter: Self)
        ensures
            parameter matches Parameter::Label(name) && name@ == label@,
    {
        Parameter::Label(String::from_str(label))
    }

    /// The operand list `parameters`.
    pub fn list(parameters: Vec<Parameter>) -> (parameter: Self)
        ensures
            parameter == Parameter::List(parameters),
    {
        Parameter::List(parameters)
    }
}

/// One instruction of the source program.
#[derive(Debug, PartialEq, Eq, Hash)]
pub struct Instruction {
    /// the label bound to the address of this instruction
    pub label: Option<String>,
    pub mnemonic: Mnemonic,
    pub parameter: Parameter,
}

impl Clone for Instruction {
    fn clone(&self) -> (copy: Self)
        ensures
            copy.label == self.label,
            copy.mnemonic == self.mnemonic,
            self.parameter.alike(copy.parameter),
    {
        let label = match &self.label {
            Some(name) => Some(name.clone()),
            None => None,
        };
        Instruction { label, mnemonic: self.mnemonic, parameter: self.parameter.clone() }
    }
}

/// Builds instructions from anything that names a mnemonic.
pub trait MnemonicDSL: Sized {
    /// The mnemonic that `self` names.
    spec fn mnemonic(self) -> Mnemonic;

    /// The instruction without operand, under a label.
    fn labelled(self, label: &str) -> (instruction: Instruction)
        ensures
            instruction.label matches Some(name) && name@ == label@,
            instruction.mnemonic == self.mnemonic(),
            instruction.parameter == Parameter::Implied,
    {
        self.labelled_with(label, Parameter::Implied)
    }

    /// The instruction with an operand, under a label.
    fn labelled_with(self, label: &str, parameter: Parameter) -> (instruction: Instruction)
        ensures
            instruction.label matches Some(name) && name@ == label@,
            instruction.mnemonic == self.mnemonic(),
            instruction.parameter == parameter,
    ;

    /// The instruction with an operand.
    fn with(self, parameter: Parameter) -> (instruction: Instruction)
        ensures
            instruction.label is None,
            instruction.mnemonic == self.mnemonic(),
            instruction.parameter == parameter,
    ;

    /// The instruction without operand.
    fn instruction(self) -> (instruction: Instruction)
        ensures
            instruction.label is None,
            instruction.mnemonic == self.mnemonic(),
            instruction.parameter == Parameter::Implied,
    {
        self.with(Parameter::Implied)
    }
}

impl MnemonicDSL for Mnemonic {
    open spec fn mnemonic(self) -> Mnemonic {
        self
    }

    fn labelled_with(self, label: &str, parameter: Parameter) -> (instruction: Instruction) {
        Instruction { label: Some(String::from_str(label)), mnemonic: self, parameter }
    }

    fn with(self, parameter: Parameter) -> (instruction: Instruction) {
        Instruction { label: None, mnemonic: self, parameter }
    }
}

impl MnemonicDSL for Opcode {
    open spec fn mnemonic(self) -> Mnemonic {
        Mnemonic::Opcode(self)
    }

    fn labelled_with(self, label: &str, parameter: Parameter) -> (instruction: Instruction) {
        Instruction {
            label: Some(String::from_str(label)),
            mnemonic: Mnemonic::Opcode(self),
            parameter,
        }
    }

    fn with(self, parameter: Parameter) -> (instruction: Instruction) {
        Instruction { label: None, mnemonic: Mnemonic::Opcode(self), parameter }
    }
}

impl MnemonicDSL for PseudoInstruction {
    open spec fn mnemonic(self) -> Mnemonic {
        Mnemonic::PseudoOp(self)
    }

    fn labelled_with(self, label: &str, parameter: Parameter) -> (instruction: Instruction) {
        Instruction {
            label: Some(String::from_str(label)),
            mnemonic: Mnemonic::PseudoOp(self),
            parameter,
        }
    }

    fn with(self, parameter: Parameter) -> (instruction: Instruction) {
        Instruction { label: None, mnemonic: Mnemonic::PseudoOp(self), parameter }
    }
}

/// An operand as the assembler holds it: a number, or a label that the
/// second pass replaces by a number.
#[derive(Debug, Clone)]
pub enum AssembledParameter {
    Label(String),
    U8(u8),
    U16(u16),
}

/// The mathematical value of an `AssembledParameter`.
pub enum Value {
    Label(Seq<char>),
    U8(u8),
    U16(u16),
}

impl View for AssembledParameter {
    type V = Value;

    open spec fn view(&self) -> Value {
        match self {
            AssembledParameter::Label(name) => Value::Label(name@),
            AssembledParameter::U8(number) => Value::U8(*number),
            AssembledParameter::U16(number) => Value::U16(*number),
        }
    }
}

/// The view of an optional operand.
pub open spec fn value_of(parameter: Option<AssembledParameter>) -> Option<Value> {
    match parameter {
        Some(p) => Some(p@),
        None => None,
    }
}

/// What the operand of a source instruction says: the mode and value of the
/// first operand, and those of the second where there is one.
pub struct Operands {
    pub mode_1: AddressingMode,
    pub parameter_1: Option<AssembledParameter>,
    pub mode_2: AddressingMode,
    pub parameter_2: Option<AssembledParameter>,
}

/// The mathematical value of `Operands`.
pub struct Parsed {
    pub mode_1: AddressingMode,
    pub value_1: Option<Value>,
    pub mode_2: AddressingMode,
    pub value_2: Option<Value>,
}

impl View for Operands {
    type V = Parsed;

    open spec fn view(&self) -> Parsed {
        Parsed {
            mode_1: self.mode_1,
            value_1: value_of(self.parameter_1),
            mode_2: self.mode_2,
            value_2: value_of(self.parameter_2),
        }
    }
}

/// A single operand of mode `mode` and value `value`.
pub open spec fn single(mode: AddressingMode, value: Option<Value>) -> Option<Parsed> {
    Some(Parsed { mode_1: mode, value_1: value, mode_2: AddressingMode::Implied, value_2: None })
}

/// The address that an indexed or indirect operand names: a number or a
/// label.
pub open spec fn address_value(parameter: Parameter) -> Option<Value> {
    match parameter {
        Parameter::Absolute(number) => Some(Value::U16(number)),
        Parameter::Label(name) => Some(Value::Label(name@)),
        _ => None,
    }
}

/// Reads `p,q`: `a,x`, `a,y` with `a` a number or a label; `(zp),y` with a
/// number that fits one byte, which is held as that byte; and `zp,label`,
/// the two operands of a bit branch.
pub open spec fn parse_list(list: Seq<Parameter>) -> Option<Parsed> {
    if list.len() != 2 {
        None
    } else {
        match (list[0], list[1]) {
            (Parameter::Absolute(number), Parameter::X) => single(
                AddressingMode::AbsoluteIndexedX,
                Some(Value::U16(number)),
            ),
            (Parameter::Label(name), Parameter::X) => single(
                AddressingMode::AbsoluteIndexedX,
                Some(Value::Label(name@)),
            ),
            (Parameter::Absolute(number), Parameter::Y) => single(
                AddressingMode::AbsoluteIndexedY,
                Some(Value::U16(number)),
            ),
            (Parameter::Label(name), Parameter::Y) => single(
                AddressingMode::AbsoluteIndexedY,
                Some(Value::Label(name@)),
            ),
            (Parameter::Indirect(inner), Parameter::Y) => match *inner {
                Parameter::Absolute(number) => if number <= 0xFF {
                    single(
                        AddressingMode::ZeroPageIndirectIndexedY,
                        Some(Value::U8(number as u8)),
                    )
                } else {
                    None
                },
                _ => None,
            },
            (Parameter::Absolute(number), Parameter::Label(name)) => Some(
                Parsed {
                    mode_1: AddressingMode::Absolute,
                    value_1: Some(Value::U16(number)),
                    mode_2: AddressingMode::ProgramCounterRelative,
                    value_2: Some(Value::Label(name@)),
                },
            ),
            _ => None,
        }
    }
}

/// Reads `(p)`: `(a)` with a number, and `(a,x)` with a number or a label.
pub open spec fn parse_indirect(inner: Parameter) -> Option<Parsed> {
    match inner {
        Parameter::Absolute(number) => single(
            AddressingMode::AbsoluteIndirect,
            Some(Value::U16(number)),
        ),
        Parameter::List(list) => if list@.len() != 2 {
            None
        } else {
            match (list@[0], list@[1]) {
                (Parameter::Absolute(number), Parameter::X) => single(
                    AddressingMode::AbsoluteIndexedIndirectX,
                    Some(Value::U16(number)),
                ),
                (Parameter::Label(name), Parameter::X) => single(
                    AddressingMode::AbsoluteIndexedIndirectX,
                    Some(Value::Label(name@)),
                ),
                _ => None,
            }
        },
        _ => None,
    }
}

/// Reads the operand of a source instruction. A number is taken as an
/// absolute address and a bare label gets no mode yet; an operand of
/// another shape than those listed here is a mismatch (`None`).
pub open spec fn parse(parameter: Parameter) -> Option<Parsed> {
    match parameter {
        Parameter::Implied => single(AddressingMode::Implied, None),
        Parameter::A => single(AddressingMode::Accumulator, None),
        Parameter::Immediate(number) => single(AddressingMode::Immediate, Some(Value::U8(number))),
        Parameter::Absolute(number) => single(AddressingMode::Absolute, Some(Value::U16(number))),
        Parameter::Label(name) => single(AddressingMode::Implied, Some(Value::Label(name@))),
        Parameter::Indirect(inner) => parse_indirect(*inner),
        Parameter::List(list) => parse_list(list@),
        _ => None,
    }
}

/// An encoded instruction: the chosen row of the catalogue and the operands.
#[derive(Debug, Clone)]
pub struct AssembledInstruction {
    pub instruction: InstructionMeta,
    pub parameter_1: Option<AssembledParameter>,
    pub parameter_2: Option<AssembledParameter>,
}

/// The mathematical value of an `AssembledInstruction`.
pub struct Encoded {
    pub meta: InstructionMeta,
    pub value_1: Option<Value>,
    pub value_2: Option<Value>,
}

impl View for AssembledInstruction {
    type V = Encoded;

    open spec fn view(&self) -> Encoded {
        Encoded {
            meta: self.instruction,
            value_1: value_of(self.parameter_1),
            value_2: value_of(self.parameter_2),
        }
    }
}

fn mismatch(text: &str) -> (error: AssemblerError)
    ensures
        error@ == Failure::ParameterMismatch,
{
    AssemblerError::ParameterMismatch(String::from_str(text))
}

fn one_operand(mode: AddressingMode, parameter: Option<AssembledParameter>) -> (operands: Operands)
    ensures
        Some(operands@) == single(mode, value_of(parameter)),
{
    Operands { mode_1: mode, parameter_1: parameter, mode_2: AddressingMode::Implied, parameter_2: None }
}

impl AssembledInstruction {
    /// Reads a number or a label as the address of an indexed operand.
    fn parse_address(parameter: &Parameter) -> (value: Option<AssembledParameter>)
        ensures
            value_of(value) == address_value(*parameter),
    {
        match parameter {
            Parameter::Absolute(number) => Some(AssembledParameter::U16(*number)),
            Parameter::Label(label) => Some(AssembledParameter::Label(label.clone())),
            _ => None,
        }
    }

    fn parse_list(list: &Vec<Parameter>) -> (result: Option<Operands>)
        ensures
            match parse_list(list@) {
                Some(parsed) => result matches Some(operands) && operands@ == parsed,
                None => result is None,
            },
    {
        if list.len() != 2 {
            return None;
        }
        match (&list[0], &list[1]) {
            (Parameter::Absolute(number), Parameter::X) => Some(
                one_operand(
                    AddressingMode::AbsoluteIndexedX,
                    Some(AssembledParameter::U16(*number)),
                ),
            ),
            (Parameter::Label(label), Parameter::X) => Some(
                one_operand(
                    AddressingMode::AbsoluteIndexedX,
                    Some(AssembledParameter::Label(label.clone())),
                ),
            ),
            (Parameter::Absolute(number), Parameter::Y) => Some(
                one_operand(
                    AddressingMode::AbsoluteIndexedY,
                    Some(AssembledParameter::U16(*number)),
                ),
            ),
            (Parameter::Label(label), Parameter::Y) => Some(
                one_operand(
                    AddressingMode::AbsoluteIndexedY,
                    Some(AssembledParameter::Label(label.clone())),
                ),
            ),
            (Parameter::Indirect(inner), Parameter::Y) => match &**inner {
                Parameter::Absolute(number) => if *number <= 0xFF {
                    Some(
                        one_operand(
                            AddressingMode::ZeroPageIndirectIndexedY,
                            Some(AssembledParameter::U8(*number as u8)),
                        ),
                    )
                } else {
                    None
                },
                _ => None,
            },
            (Parameter::Absolute(number), Parameter::Label(label)) => Some(
                Operands {
                    mode_1: AddressingMode::Absolute,
                    parameter_1: Some(AssembledParameter::U16(*number)),
                    mode_2: AddressingMode::ProgramCounterRelative,
                    parameter_2: Some(AssembledParameter::Label(label.clone())),
                },
            ),
            _ => None,
        }
    }

    fn parse_indirect(inner: &Parameter) -> (result: Option<Operands>)
        ensures
            match parse_indirect(*inner) {
                Some(parsed) => result matches Some(operands) && operands@ == parsed,
                None => result is None,
            },
    {
        match inner {
            Parameter::Absolute(number) => Some(
                one_operand(
                    AddressingMode::AbsoluteIndirect,
                    Some(AssembledParameter::U16(*number)),
                ),
            ),
            Parameter::List(list) => {
                if list.len() != 2 {
                    return None;
                }
                match (&list[0], &list[1]) {
                    (Parameter::Absolute(number), Parameter::X) => Some(
                        one_operand(
                            AddressingMode::AbsoluteIndexedIndirectX,
                            Some(AssembledParameter::U16(*number)),
                        ),
                    ),
                    (Parameter::Label(label), Parameter::X) => Some(
                        one_operand(
                            AddressingMode::AbsoluteIndexedIndirectX,
                            Some(AssembledParameter::Label(label.clone())),
                        ),
                    ),
                    _ => None,
                }
            },
            _ => None,
        }
    }

    /// Reads the operand of `instruction` into addressing modes and values.
    /// Fails with `ParameterMismatch` on an operand of no known shape.
    pub fn parse_parameters(instruction: &Instruction) -> (result: Result<
        Operands,
        AssemblerError,
    >)
        ensures
            match parse(instruction.parameter) {
                Some(parsed) => result matches Ok(operands) && operands@ == parsed,
                None => result matches Err(error) && error@ == Failure::ParameterMismatch,
            },
    {
        let parsed = match &instruction.parameter {
            Parameter::Implied => Some(one_operand(AddressingMode::Implied, None)),
            Parameter::A => Some(one_operand(AddressingMode::Accumulator, None)),
            Parameter::Immediate(number) => Some(
                one_operand(AddressingMode::Immediate, Some(AssembledParameter::U8(*number))),
            ),
            Parameter::Absolute(number) => Some(
                one_operand(AddressingMode::Absolute, Some(AssembledParameter::U16(*number))),
            ),
            Parameter::Label(label) => Some(
                one_operand(
                    AddressingMode::Implied,  // a bare label has no mode of its own
                    Some(AssembledParameter::Label(label.clone())),
                ),
            ),
            Parameter::Indirect(inner) => Self::parse_indirect(&**inner),
            Parameter::List(inner) => Self::parse_list(inner),
            _ => None,
        };
        match parsed {
            Some(operands) => Ok(operands),
            None => Err(mismatch("could not match parameters with addressing mode")),
        }
    }
}

/// The zero page mode that can stand in for an absolute mode.
pub open spec fn zero_page_twin(mode: AddressingMode) -> Option<AddressingMode> {
    match mode {
        AddressingMode::Absolute => Some(AddressingMode::ZeroPage),
        AddressingMode::AbsoluteIndexedX => Some(AddressingMode::ZeroPageIndexedX),
        AddressingMode::AbsoluteIndexedY => Some(AddressingMode::ZeroPageIndexedY),
        AddressingMode::AbsoluteIndirect => Some(AddressingMode::ZeroPageIndirect),
        AddressingMode::AbsoluteIndexedIndirectX => Some(AddressingMode::ZeroPageIndexedIndirectX),
        _ => None,
    }
}

/// Whether one of `candidates` takes its first operand in mode `mode`.
pub open spec fn offers_mode(candidates: Seq<InstructionMeta>, mode: AddressingMode) -> bool {
    exists|i: int| 0 <= i < candidates.len() && (#[trigger] candidates[i]).parameter_1 == mode
}

/// The zero page optimization: a 16-bit number that fits one byte, in an
/// absolute mode whose zero page twin the mnemonic offers, becomes a byte
/// in that zero page mode.
pub open spec fn optimize(parsed: Parsed, candidates: Seq<InstructionMeta>) -> Parsed {
    match (parsed.value_1, zero_page_twin(parsed.mode_1)) {
        (Some(Value::U16(number)), Some(twin)) => if number <= 0xFF && offers_mode(
            candidates,
            twin,
        ) {
            Parsed { mode_1: twin, value_1: Some(Value::U8(number as u8)), ..parsed }
        } else {
            parsed
        },
        _ => parsed,
    }
}

/// Whether an operand is a label that is still to be resolved.
pub open spec fn is_label(value: Option<Value>) -> bool {
    value matches Some(Value::Label(_))
}

/// The first of `candidates` from index `from` on whose two operand modes
/// are `mode_1` and `mode_2`.
pub open spec fn first_match(
    candidates: Seq<InstructionMeta>,
    mode_1: AddressingMode,
    mode_2: AddressingMode,
    from: int,
) -> Option<InstructionMeta>
    decreases candidates.len() - from,
{
    if from < 0 || from >= candidates.len() {
        None
    } else if candidates[from].parameter_1 == mode_1 && candidates[from].parameter_2 == mode_2 {
        Some(candidates[from])
    } else {
        first_match(candidates, mode_1, mode_2, from + 1)
    }
}

/// Chooses the encoding of a mnemonic for parsed operands. With a label
/// among the operands the mnemonic must have exactly one encoding, which is
/// taken whatever its modes; without one, the encoding with the parsed
/// modes is taken. `None` where no encoding can be chosen.
pub open spec fn select(opcode: Opcode, parsed: Parsed) -> Option<Encoded> {
    let candidates = encodings(opcode);
    let operands = optimize(parsed, candidates);
    if is_label(operands.value_1) || is_label(operands.value_2) {
        if candidates.len() == 1 {
            Some(
                Encoded {
                    meta: candidates[0],
                    value_1: operands.value_1,
                    value_2: operands.value_2,
                },
            )
        } else {
            None
        }
    } else {
        match first_match(candidates, operands.mode_1, operands.mode_2, 0) {
            Some(meta) => Some(
                Encoded { meta, value_1: operands.value_1, value_2: operands.value_2 },
            ),
            None => None,
        }
    }
}

/// The first pass on one instruction: its operand is parsed and an encoding
/// chosen. A pseudo instruction has no encoding.
pub open spec fn encode(instruction: Instruction) -> Result<Encoded, Failure> {
    match instruction.mnemonic {
        Mnemonic::PseudoOp(_) => Err(Failure::InvalidOpcode),
        Mnemonic::Opcode(opcode) => match parse(instruction.parameter) {
            None => Err(Failure::ParameterMismatch),
            Some(parsed) => match select(opcode, parsed) {
                Some(encoded) => Ok(encoded),
                None => Err(Failure::ParameterMismatch),
            },
        },
    }
}

/// The byte that encodes the step from `cursor` to `target` in a relative
/// branch, where the step lies within -128..=127.
pub open spec fn displacement(target: u16, cursor: u16) -> Option<u8> {
    let step = target - cursor;
    if -128 <= step < 0 {
        Some((step + 256) as u8)
    } else if 0 <= step <= 127 {
        Some(step as u8)
    } else {
        None
    }
}

/// The second pass on one operand: a label is replaced by the address it is
/// bound to, in a relative mode by its displacement from `cursor`, the
/// address behind the instruction. A number stays as it is.
pub open spec fn resolve_value(
    value: Value,
    mode: AddressingMode,
    cursor: u16,
    labels: Map<Seq<char>, u16>,
) -> Result<Value, Failure> {
    match value {
        Value::Label(name) => if !labels.contains_key(name) {
            Err(Failure::UnknownLabel(name))
        } else if mode == AddressingMode::ProgramCounterRelative {
            match displacement(labels[name], cursor) {
                Some(byte) => Ok(Value::U8(byte)),
                None => Err(Failure::JumpTooFar),
            }
        } else if mode.is_absolute_family() {
            Ok(Value::U16(labels[name]))
        } else {
            Err(Failure::ParameterMismatch)
        },
        _ => Ok(value),
    }
}

/// The second pass on an optional operand.
pub open spec fn resolve_operand(
    value: Option<Value>,
    mode: AddressingMode,
    cursor: u16,
    labels: Map<Seq<char>, u16>,
) -> Result<Option<Value>, Failure> {
    match value {
        Some(v) => match resolve_value(v, mode, cursor, labels) {
            Ok(resolved) => Ok(Some(resolved)),
            Err(failure) => Err(failure),
        },
        None => Ok(None),
    }
}

/// The second pass on one instruction: the first operand is resolved in the
/// first mode of the chosen encoding, then the second in its second mode.
pub open spec fn resolve(encoded: Encoded, cursor: u16, labels: Map<Seq<char>, u16>) -> Result<
    Encoded,
    Failure,
> {
    match resolve_operand(encoded.value_1, encoded.meta.parameter_1, cursor, labels) {
        Err(failure) => Err(failure),
        Ok(value_1) => match resolve_operand(
            encoded.value_2,
            encoded.meta.parameter_2,
            cursor,
            labels,
        ) {
            Err(failure) => Err(failure),
            Ok(value_2) => Ok(Encoded { meta: encoded.meta, value_1, value_2 }),
        },
    }
}

/// The names bound to addresses, in the order of their binding. No name
/// occurs twice.
pub struct LabelTable {
    pub entries: Vec<(String, u16)>,
}

/// The index of the first of `entries` from `from` on that binds `name`.
pub open spec fn position(entries: Seq<(String, u16)>, name: Seq<char>, from: int) -> Option<int>
    decreases entries.len() - from,
{
    if from < 0 || from >= entries.len() {
        None
    } else if entries[from].0@ == name {
        Some(from)
    } else {
        position(entries, name, from + 1)
    }
}

/// A found position is a valid index from `from` on that binds the name;
/// where none is found, no entry from `from` on binds it.
pub proof fn lemma_position(entries: Seq<(String, u16)>, name: Seq<char>, from: int)
    requires
        0 <= from,
    ensures
        match position(entries, name, from) {
            Some(index) => from <= index < entries.len() && entries[index].0@ == name,
            None => forall|i: int| from <= i < entries.len() ==> (#[trigger] entries[i]).0@ != name,
        },
    decreases entries.len() - from,
{
    if from < entries.len() && entries[from].0@ != name {
        lemma_position(entries, name, from + 1);
    }
}

/// Appending a binding leaves the positions of the names bound before as
/// they were, and binds the new name where it was not bound.
proof fn lemma_position_push(
    entries: Seq<(String, u16)>,
    entry: (String, u16),
    name: Seq<char>,
    from: int,
)
    requires
        0 <= from <= entries.len(),
    ensures
        position(entries.push(entry), name, from) == match position(entries, name, from) {
            Some(index) => Some(index),
            None => if entry.0@ == name {
                Some(entries.len() as int)
            } else {
                None
            },
        },
    decreases entries.len() - from,
{
    let pushed = entries.push(entry);
    if from < entries.len() {
        assert(pushed[from] == entries[from]);
        if entries[from].0@ != name {
            lemma_position_push(entries, entry, name, from + 1);
        }
    } else {
        assert(pushed[from] == entry);
        assert(position(pushed, name, from + 1) is None);
    }
}

impl View for LabelTable {
    type V = Map<Seq<char>, u16>;

    /// The bound names, each with its address.
    open spec fn view(&self) -> Map<Seq<char>, u16> {
        Map::new(
            |name: Seq<char>| position(self.entries@, name, 0) is Some,
            |name: Seq<char>| self.entries@[position(self.entries@, name, 0).unwrap()].1,
        )
    }
}

impl LabelTable {
    /// A table without bindings.
    pub fn new() -> (table: Self)
        ensures
            table@ == Map::<Seq<char>, u16>::empty(),
    {
        let table = LabelTable { entries: Vec::new() };
        assert(table@ =~= Map::<Seq<char>, u16>::empty());
        table
    }

    /// The address that `name` is bound to.
    pub fn get(&self, name: &String) -> (address: Option<u16>)
        ensures
            address == if self@.contains_key(name@) {
                Some(self@[name@])
            } else {
                None
            },
    {
        let mut i: usize = 0;
        while i < self.entries.len()
            invariant
                i <= self.entries.len(),
                position(self.entries@, name@, 0) == position(self.entries@, name@, i as int),
            decreases self.entries.len() - i,
        {
            if self.entries[i].0 == *name {
                return Some(self.entries[i].1);
            }
            i += 1;
        }
        None
    }

    /// Binds `name` to `address` unless it is bound already. Returns whether
    /// the binding was made.
    pub fn insert(&mut self, name: String, address: u16) -> (bound: bool)
        ensures
            bound == !old(self)@.contains_key(name@),
            final(self)@ == if bound {
                old(self)@.insert(name@, address)
            } else {
                old(self)@
            },
    {
        if self.get(&name).is_some() {
            return false;
        }
        let ghost before = self.entries@;
        let ghost entry = (name, address);
        self.entries.push((name, address));
        proof {
            assert forall|other: Seq<char>|
                position(self.entries@, other, 0) == match position(before, other, 0) {
                    Some(index) => Some(index),
                    None => if entry.0@ == other {
                        Some(before.len() as int)
                    } else {
                        None
                    },
                } by {
                lemma_position_push(before, entry, other, 0);
            }
            assert forall|other: Seq<char>| position(before, other, 0) is Some implies
                self.entries@[position(before, other, 0).unwrap()] == before[position(
                before,
                other,
                0,
            ).unwrap()] by {
                lemma_position(before, other, 0);
            }
            assert(self@ =~= old(self)@.insert(name@, address));
        }
        true
    }
}

/// Calls `itertools::Itertools::exactly_one` on an iterator over the
/// candidates. This body is not verified: the contract restates what that
/// function is documented to do, which is to hand out the element where the
/// iterator yields exactly one, and to fail where it yields none or more.
#[verifier::external_body]
fn exactly_one(candidates: &Vec<InstructionMeta>) -> (only: Option<InstructionMeta>)
    ensures
        only == if candidates@.len() == 1 {
            Some(candidates@[0])
        } else {
            None
        },
{
    candidates.iter().exactly_one().ok().copied()
}

/// Whether one of `candidates` takes its first operand in mode `mode`.
fn offers(candidates: &Vec<InstructionMeta>, mode: AddressingMode) -> (found: bool)
    ensures
        found == offers_mode(candidates@, mode),
{
    let mut i: usize = 0;
    while i < candidates.len()
        invariant
            i <= candidates.len(),
            forall|k: int| 0 <= k < i ==> (#[trigger] candidates@[k]).parameter_1 != mode,
        decreases candidates.len() - i,
    {
        if candidates[i].parameter_1 == mode {
            return true;
        }
        i += 1;
    }
    false
}

/// The zero page mode that can stand in for `mode`.
fn twin_of(mode: AddressingMode) -> (twin: Option<AddressingMode>)
    ensures
        twin == zero_page_twin(mode),
{
    match mode {
        AddressingMode::Absolute => Some(AddressingMode::ZeroPage),
        AddressingMode::AbsoluteIndexedX => Some(AddressingMode::ZeroPageIndexedX),
        AddressingMode::AbsoluteIndexedY => Some(AddressingMode::ZeroPageIndexedY),
        AddressingMode::AbsoluteIndirect => Some(AddressingMode::ZeroPageIndirect),
        AddressingMode::AbsoluteIndexedIndirectX => Some(AddressingMode::ZeroPageIndexedIndirectX),
        _ => None,
    }
}

fn holds_label(parameter: &Option<AssembledParameter>) -> (label: bool)
    ensures
        label == is_label(value_of(*parameter)),
{
    match parameter {
        Some(AssembledParameter::Label(_)) => true,
        _ => false,
    }
}

impl AssembledInstruction {
    /// Applies the zero page optimization to parsed operands.
    fn zero_page_optimize(operands: Operands, candidates: &Vec<InstructionMeta>) -> (optimized:
        Operands)
        ensures
            optimized@ == optimize(operands@, candidates@),
    {
        let number = match &operands.parameter_1 {
            Some(AssembledParameter::U16(number)) => *number,
            _ => { return operands; },
        };
        if number > 0xFF {
            return operands;
        }
        match twin_of(operands.mode_1) {
            Some(twin) => {
                if offers(candidates, twin) {
                    Operands {
                        mode_1: twin,
                        parameter_1: Some(AssembledParameter::U8(number as u8)),
                        mode_2: operands.mode_2,
                        parameter_2: operands.parameter_2,
                    }
                } else {
                    operands
                }
            },
            None => operands,
        }
    }

    /// The first pass on one instruction: parses its operand and chooses an
    /// encoding. Fails with `InvalidOpcode` on a pseudo instruction and with
    /// `ParameterMismatch` where the operand has no known shape or no
    /// encoding of the mnemonic takes it.
    pub fn assemble(instruction: &Instruction) -> (result: Result<Self, AssemblerError>)
        ensures
            match encode(*instruction) {
                Ok(encoded) => result matches Ok(assembled) && assembled@ == encoded,
                Err(failure) => result matches Err(error) && error@ == failure,
            },
    {
        let opcode = match instruction.mnemonic {
            Mnemonic::Opcode(opcode) => opcode,
            Mnemonic::PseudoOp(_) => { return Err(AssemblerError::InvalidOpcode); },
        };
        let candidates = get_instructions(opcode);
        let parsed = match Self::parse_parameters(instruction) {
            Ok(parsed) => parsed,
            Err(error) => { return Err(error); },
        };
        let ghost read = parsed@;
        // zeropage optimizations (only for parameter_1)
        let operands = Self::zero_page_optimize(parsed, &candidates);

        // special handling for labels
        if holds_label(&operands.parameter_1) || holds_label(&operands.parameter_2) {
            // only works when there is one possible opcode
            return match exactly_one(&candidates) {
                Some(candidate) => Ok(
                    AssembledInstruction {
                        instruction: candidate,
                        parameter_1: operands.parameter_1,
                        parameter_2: operands.parameter_2,
                    },
                ),
                None => Err(mismatch("multiple candidates for labelled instruction")),
            };
        }
        let mut i: usize = 0;
        while i < candidates.len()
            invariant
                i <= candidates.len(),
                candidates@ == encodings(opcode),
                parse(instruction.parameter) == Some(read),
                instruction.mnemonic == Mnemonic::Opcode(opcode),
                operands@ == optimize(read, candidates@),
                !is_label(operands@.value_1) && !is_label(operands@.value_2),
                first_match(candidates@, operands.mode_1, operands.mode_2, 0) == first_match(
                    candidates@,
                    operands.mode_1,
                    operands.mode_2,
                    i as int,
                ),
            decreases candidates.len() - i,
        {
            let candidate = candidates[i];
            if candidate.parameter_1 == operands.mode_1 && candidate.parameter_2
                == operands.mode_2 {
                return Ok(
                    AssembledInstruction {
                        instruction: candidate,
                        parameter_1: operands.parameter_1,
                        parameter_2: operands.parameter_2,
                    },
                );
            }
            i += 1;
        }
        Err(mismatch("could not find matching instruction"))
    }

    /// The second pass on one operand: replaces a label by the address it is
    /// bound to, or by its displacement from `address` in a relative mode.
    /// Fails with `UnknownLabel` on an unbound label, with `JumpTooFar` on a
    /// displacement outside -128..=127, and with `ParameterMismatch` where
    /// the mode takes no address.
    pub fn fill_label(
        parameter: &AssembledParameter,
        addressing_mode: AddressingMode,
        address: u16,
        labels: &LabelTable,
    ) -> (result: Result<AssembledParameter, AssemblerError>)
        ensures
            match resolve_value(parameter@, addressing_mode, address, labels@) {
                Ok(value) => result matches Ok(filled) && filled@ == value,
                Err(failure) => result matches Err(error) && error@ == failure,
            },
    {
        match parameter {
            AssembledParameter::Label(label) => {
                let resolved = match labels.get(label) {
                    Some(resolved) => resolved,
                    None => { return Err(AssemblerError::UnknownLabel(label.clone())); },
                };
                match addressing_mode {
                    AddressingMode::ProgramCounterRelative => {
                        // pc + n = resolved <=> n = resolved - pc
                        if resolved < address {
                            let d = address - resolved;
                            if d <= 128 {
                                Ok(AssembledParameter::U8((256 - d) as u8))
                            } else {
                                Err(AssemblerError::JumpTooFar)
                            }
                        } else {
                            let d = resolved - address;
                            if d <= 127 {
                                Ok(AssembledParameter::U8(d as u8))
                            } else {
                                Err(AssemblerError::JumpTooFar)
                            }
                        }
                    },
                    AddressingMode::Absolute
                    | AddressingMode::AbsoluteIndexedX
                    | AddressingMode::AbsoluteIndexedY
                    | AddressingMode::AbsoluteIndirect
                    | AddressingMode::AbsoluteIndexedIndirectX => Ok(
                        AssembledParameter::U16(resolved),
                    ),
                    _ => Err(mismatch("could not replace label with actual address")),
                }
            },
            AssembledParameter::U8(number) => Ok(AssembledParameter::U8(*number)),
            AssembledParameter::U16(number) => Ok(AssembledParameter::U16(*number)),
        }
    }

    fn fill_operand(
        parameter: &Option<AssembledParameter>,
        addressing_mode: AddressingMode,
        address: u16,
        labels: &LabelTable,
    ) -> (result: Result<Option<AssembledParameter>, AssemblerError>)
        ensures
            match resolve_operand(value_of(*parameter), addressing_mode, address, labels@) {
                Ok(value) => result matches Ok(filled) && value_of(filled) == value,
                Err(failure) => result matches Err(error) && error@ == failure,
            },
    {
        match parameter {
            Some(p) => match Self::fill_label(p, addressing_mode, address, labels) {
                Ok(filled) => Ok(Some(filled)),
                Err(error) => Err(error),
            },
            None => Ok(None),
        }
    }

    /// The second pass on one instruction: resolves the labels of both
    /// operands, `address` being the address behind the instruction.
    pub fn fill_labels(&self, address: u16, labels: &LabelTable) -> (result: Result<
        Self,
        AssemblerError,
    >)
        ensures
            match resolve(self@, address, labels@) {
                Ok(encoded) => result matches Ok(filled) && filled@ == encoded,
                Err(failure) => result matches Err(error) && error@ == failure,
            },
    {
        let instruction = self.instruction;
        let parameter_1 = match Self::fill_operand(
            &self.parameter_1,
            instruction.parameter_1,
            address,
            labels,
        ) {
            Ok(filled) => filled,
            Err(error) => { return Err(error); },
        };
        let parameter_2 = match Self::fill_operand(
            &self.parameter_2,
            instruction.parameter_2,
            address,
            labels,
        ) {
            Ok(filled) => filled,
            Err(error) => { return Err(error); },
        };
        Ok(AssembledInstruction { instruction, parameter_1, parameter_2 })
    }
}

/// The views of a list of encoded instructions.
pub open spec fn encoded_views(list: Seq<AssembledInstruction>) -> Seq<Encoded> {
    Seq::new(list.len(), |i: int| list[i]@)
}

/// What the first pass has gathered: the labels bound so far, the encoded
/// instructions, and the address behind the last of them.
pub struct FirstPass {
    pub labels: Map<Seq<char>, u16>,
    pub encoded: Seq<Encoded>,
    pub address: u16,
}

/// Binds the label of an instruction, if it has one, to `address`. A label
/// that is bound already is a failure.
pub open spec fn bind(labels: Map<Seq<char>, u16>, label: Option<String>, address: u16) -> Result<
    Map<Seq<char>, u16>,
    Failure,
> {
    match label {
        Some(name) => if labels.contains_key(name@) {
            Err(Failure::DoubleLabel(name@))
        } else {
            Ok(labels.insert(name@, address))
        },
        None => Ok(labels),
    }
}

/// The first pass over the first `count` instructions, in order: the label
/// of an instruction is bound to its address, the instruction is encoded,
/// and the address moves on by its width. The first failure ends the pass;
/// an address beyond 0xFFFF is a failure.
pub open spec fn first_pass(instructions: Seq<Instruction>, count: nat) -> Result<
    FirstPass,
    Failure,
>
    decreases count,
{
    if count == 0 {
        Ok(FirstPass { labels: Map::empty(), encoded: Seq::empty(), address: 0 })
    } else {
        match first_pass(instructions, (count - 1) as nat) {
            Err(failure) => Err(failure),
            Ok(before) => {
                let instruction = instructions[count - 1];
                match bind(before.labels, instruction.label, before.address) {
                    Err(failure) => Err(failure),
                    Ok(labels) => match encode(instruction) {
                        Err(failure) => Err(failure),
                        Ok(encoded) => if before.address + encoded.meta.spec_width() > 0xFFFF {
                            Err(Failure::AddressOverflow)
                        } else {
                            Ok(
                                FirstPass {
                                    labels,
                                    encoded: before.encoded.push(encoded),
                                    address: (before.address + encoded.meta.spec_width()) as u16,
                                },
                            )
                        },
                    },
                }
            },
        }
    }
}

/// The address behind the first `count` of the encoded instructions, the
/// first of them standing at address 0.
pub open spec fn end_address(encoded: Seq<Encoded>, count: nat) -> int
    decreases count,
{
    if count == 0 {
        0
    } else {
        end_address(encoded, (count - 1) as nat) + encoded[count - 1].meta.spec_width()
    }
}

/// The second pass over the first `count` encoded instructions, in order:
/// the labels of each are resolved against the address behind it. The
/// first failure ends the pass.
pub open spec fn second_pass(
    encoded: Seq<Encoded>,
    labels: Map<Seq<char>, u16>,
    count: nat,
) -> Result<Seq<Encoded>, Failure>
    decreases count,
{
    if count == 0 {
        Ok(Seq::empty())
    } else {
        match second_pass(encoded, labels, (count - 1) as nat) {
            Err(failure) => Err(failure),
            Ok(done) => match resolve(
                encoded[count - 1],
                end_address(encoded, count) as u16,
                labels,
            ) {
                Err(failure) => Err(failure),
                Ok(resolved) => Ok(done.push(resolved)),
            },
        }
    }
}

/// The bytes of an operand: one for a byte, two for a word, low byte first.
pub open spec fn operand_bytes(value: Option<Value>) -> Seq<u8> {
    match value {
        Some(Value::U8(number)) => seq![number],
        Some(Value::U16(number)) => seq![
            crate::memory::low_byte(number),
            crate::memory::high_byte(number),
        ],
        _ => Seq::empty(),
    }
}

/// The bytes of an instruction: the opcode byte, then the operands.
pub open spec fn instruction_bytes(encoded: Encoded) -> Seq<u8> {
    seq![encoded.meta.byte] + operand_bytes(encoded.value_1) + operand_bytes(encoded.value_2)
}

/// The bytes of the first `count` encoded instructions, one after another.
pub open spec fn emit(encoded: Seq<Encoded>, count: nat) -> Seq<u8>
    decreases count,
{
    if count == 0 {
        Seq::empty()
    } else {
        emit(encoded, (count - 1) as nat) + instruction_bytes(encoded[count - 1])
    }
}

/// Both passes over a program, without the emission of bytes.
pub open spec fn assemble_instructions(instructions: Seq<Instruction>) -> Result<
    Seq<Encoded>,
    Failure,
> {
    match first_pass(instructions, instructions.len()) {
        Err(failure) => Err(failure),
        Ok(gathered) => second_pass(gathered.encoded, gathered.labels, instructions.len()),
    }
}

/// The bytes of an assembled program, or why it cannot be assembled.
pub open spec fn assemble_program(instructions: Seq<Instruction>) -> Result<Seq<u8>, Failure> {
    match assemble_instructions(instructions) {
        Err(failure) => Err(failure),
        Ok(resolved) => Ok(emit(resolved, resolved.len())),
    }
}

/// What a first pass that succeeds has gathered.
pub open spec fn gathered(instructions: Seq<Instruction>, count: nat) -> FirstPass {
    match first_pass(instructions, count) {
        Ok(gathered) => gathered,
        Err(_) => FirstPass { labels: Map::empty(), encoded: Seq::empty(), address: 0 },
    }
}

/// What a second pass that succeeds has resolved.
pub open spec fn resolved(encoded: Seq<Encoded>, labels: Map<Seq<char>, u16>, count: nat) -> Seq<
    Encoded,
> {
    match second_pass(encoded, labels, count) {
        Ok(resolved) => resolved,
        Err(_) => Seq::empty(),
    }
}

/// After a first pass that succeeds there is one encoded instruction for
/// each source instruction, and the address is the one behind them.
pub proof fn lemma_first_pass(instructions: Seq<Instruction>, count: nat)
    requires
        first_pass(instructions, count) is Ok,
    ensures
        gathered(instructions, count).encoded.len() == count,
        gathered(instructions, count).address == end_address(
            gathered(instructions, count).encoded,
            count,
        ),
        forall|k: nat|
            k <= count ==> #[trigger] end_address(
                gathered(instructions, count).encoded,
                k,
            ) <= end_address(gathered(instructions, count).encoded, count),
    decreases count,
{
    if count > 0 {
        let before = gathered(instructions, (count - 1) as nat);
        let after = gathered(instructions, count);
        lemma_first_pass(instructions, (count - 1) as nat);
        assert(after.encoded.drop_last() =~= before.encoded);
        lemma_end_address_prefix(after.encoded, before.encoded, (count - 1) as nat);
        assert forall|k: nat| k <= count implies #[trigger] end_address(after.encoded, k)
            <= end_address(after.encoded, count) by {
            if k < count {
                lemma_end_address_prefix(after.encoded, before.encoded, k);
            }
        }
    }
}

/// The end address of a prefix depends on the prefix only.
pub proof fn lemma_end_address_prefix(longer: Seq<Encoded>, shorter: Seq<Encoded>, count: nat)
    requires
        count <= shorter.len() <= longer.len(),
        forall|i: int| 0 <= i < shorter.len() ==> longer[i] == shorter[i],
    ensures
        end_address(longer, count) == end_address(shorter, count),
    decreases count,
{
    if count > 0 {
        lemma_end_address_prefix(longer, shorter, (count - 1) as nat);
    }
}

/// A failure of the first pass on a prefix of the program is the failure of
/// the pass on the whole program.
pub proof fn lemma_first_pass_failure(instructions: Seq<Instruction>, count: nat, whole: nat)
    requires
        count <= whole,
        first_pass(instructions, count) is Err,
    ensures
        first_pass(instructions, whole) == first_pass(instructions, count),
    decreases whole,
{
    if count < whole {
        lemma_first_pass_failure(instructions, count, (whole - 1) as nat);
    }
}

/// A failure of the second pass on a prefix of the program is the failure
/// of the pass on the whole program.
pub proof fn lemma_second_pass_failure(
    encoded: Seq<Encoded>,
    labels: Map<Seq<char>, u16>,
    count: nat,
    whole: nat,
)
    requires
        count <= whole,
        second_pass(encoded, labels, count) is Err,
    ensures
        second_pass(encoded, labels, whole) == second_pass(encoded, labels, count),
    decreases whole,
{
    if count < whole {
        lemma_second_pass_failure(encoded, labels, count, (whole - 1) as nat);
    }
}

/// A resolved operand is no label.
pub proof fn lemma_resolved_has_no_label(
    encoded: Seq<Encoded>,
    labels: Map<Seq<char>, u16>,
    count: nat,
)
    requires
        second_pass(encoded, labels, count) is Ok,
    ensures
        resolved(encoded, labels, count).len() == count,
        forall|i: int|
            0 <= i < count ==> {
                let resolved = #[trigger] resolved(encoded, labels, count)[i];
                &&& !is_label(resolved.value_1)
                &&& !is_label(resolved.value_2)
                &&& resolved.meta == encoded[i].meta
            },
    decreases count,
{
    if count > 0 {
        lemma_resolved_has_no_label(encoded, labels, (count - 1) as nat);
    }
}

/// A program on its way through the assembler.
pub struct Assembly<'a> {
    pub instructions: &'a [Instruction],
    pub labels: LabelTable,
    pub assembled_instructions: Vec<AssembledInstruction>,
}

impl<'a> Assembly<'a> {
    /// The program before the first pass.
    pub fn from_instructions(instructions: &'a [Instruction]) -> (assembly: Self)
        ensures
            assembly.instructions@ == instructions@,
            assembly.labels@ == Map::<Seq<char>, u16>::empty(),
            assembly.assembled_instructions@.len() == 0,
    {
        Assembly { instructions, labels: LabelTable::new(), assembled_instructions: Vec::new() }
    }

    /// Runs both passes. On success the assembled instructions hold numbers
    /// only; on failure the error of the first pass comes before that of
    /// the second.
    pub fn assemble(&mut self) -> (result: Result<(), AssemblerError>)
        requires
            old(self).labels@ == Map::<Seq<char>, u16>::empty(),
            old(self).assembled_instructions@.len() == 0,
        ensures
            final(self).instructions == old(self).instructions,
            match assemble_instructions(old(self).instructions@) {
                Ok(resolved) => result is Ok && encoded_views(final(self).assembled_instructions@)
                    == resolved,
                Err(failure) => result matches Err(error) && error@ == failure,
            },
    {
        let instructions = self.instructions;
        let count = instructions.len();
        // pass 1: find opcodes and offsets, collect params
        let mut address: u16 = 0;
        let mut i: usize = 0;
        assert(encoded_views(self.assembled_instructions@) =~= Seq::<Encoded>::empty());
        while i < count
            invariant
                i <= count,
                count == instructions@.len(),
                instructions == self.instructions,
                self.instructions == old(self).instructions,
                first_pass(instructions@, i as nat) == Ok::<FirstPass, Failure>(
                    FirstPass {
                        labels: self.labels@,
                        encoded: encoded_views(self.assembled_instructions@),
                        address,
                    },
                ),
            decreases count - i,
        {
            let instruction = &instructions[i];
            proof {
                if first_pass(instructions@, (i + 1) as nat) is Err {
                    lemma_first_pass_failure(instructions@, (i + 1) as nat, count as nat);
                }
            }
            if let Some(label) = &instruction.label {
                if !self.labels.insert(label.clone(), address) {
                    return Err(AssemblerError::DoubleLabel(label.clone()));
                }
            }
            let assembled = match AssembledInstruction::assemble(instruction) {
                Ok(assembled) => assembled,
                Err(error) => { return Err(error); },
            };
            address = match address.checked_add(assembled.instruction.width()) {
                Some(next) => next,
                None => { return Err(AssemblerError::AddressOverflow); },
            };
            let ghost before = encoded_views(self.assembled_instructions@);
            self.assembled_instructions.push(assembled);
            assert(encoded_views(self.assembled_instructions@) =~= before.push(assembled@));
            i += 1;
        }

        // pass 2: labels
        let ghost gathered = gathered(instructions@, count as nat);
        proof {
            lemma_first_pass(instructions@, count as nat);
        }
        let mut resolved: Vec<AssembledInstruction> = Vec::new();
        let mut address: u16 = 0;
        let mut i: usize = 0;
        assert(encoded_views(resolved@) =~= Seq::<Encoded>::empty());
        while i < count
            invariant
                i <= count,
                count == self.assembled_instructions@.len(),
                count == instructions@.len(),
                self.instructions == old(self).instructions,
                instructions == self.instructions,
                first_pass(instructions@, count as nat) == Ok::<FirstPass, Failure>(gathered),
                encoded_views(self.assembled_instructions@) == gathered.encoded,
                self.labels@ == gathered.labels,
                address == end_address(gathered.encoded, i as nat),
                forall|k: nat|
                    k <= count ==> #[trigger] end_address(gathered.encoded, k) <= end_address(
                        gathered.encoded,
                        count as nat,
                    ),
                end_address(gathered.encoded, count as nat) <= 0xFFFF,
                second_pass(gathered.encoded, gathered.labels, i as nat) == Ok::<
                    Seq<Encoded>,
                    Failure,
                >(encoded_views(resolved@)),
            decreases count - i,
        {
            let assembled = &self.assembled_instructions[i];
            assert(assembled@ == gathered.encoded[i as int]);
            assert(end_address(gathered.encoded, (i + 1) as nat) <= 0xFFFF);
            address += assembled.instruction.width();
            proof {
                if second_pass(gathered.encoded, gathered.labels, (i + 1) as nat) is Err {
                    lemma_second_pass_failure(
                        gathered.encoded,
                        gathered.labels,
                        (i + 1) as nat,
                        count as nat,
                    );
                }
            }
            let filled = match assembled.fill_labels(address, &self.labels) {
                Ok(filled) => filled,
                Err(error) => { return Err(error); },
            };
            let ghost before = encoded_views(resolved@);
            resolved.push(filled);
            assert(encoded_views(resolved@) =~= before.push(filled@));
            i += 1;
        }
        self.assembled_instructions = resolved;
        Ok(())
    }

    /// The bytes of the assembled instructions, one instruction after
    /// another.
    pub fn write(&self) -> (bytes: Vec<u8>)
        ensures
            bytes@ == emit(
                encoded_views(self.assembled_instructions@),
                self.assembled_instructions@.len(),
            ),
    {
        let mut bytes: Vec<u8> = Vec::new();
        let mut i: usize = 0;
        while i < self.assembled_instructions.len()
            invariant
                i <= self.assembled_instructions@.len(),
                bytes@ == emit(encoded_views(self.assembled_instructions@), i as nat),
            decreases self.assembled_instructions@.len() - i,
        {
            let assembled = &self.assembled_instructions[i];
            let ghost before = bytes@;
            bytes.push(assembled.instruction.byte);
            write_operand(&mut bytes, &assembled.parameter_1);
            write_operand(&mut bytes, &assembled.parameter_2);
            assert(bytes@ =~= before + instruction_bytes(assembled@));
            i += 1;
        }
        bytes
    }
}

/// Appends the bytes of an operand.
fn write_operand(bytes: &mut Vec<u8>, parameter: &Option<AssembledParameter>)
    ensures
        final(bytes)@ == old(bytes)@ + operand_bytes(value_of(*parameter)),
{
    match parameter {
        Some(AssembledParameter::U8(number)) => {
            bytes.push(*number);
            assert(bytes@ =~= old(bytes)@ + seq![*number]);
        },
        Some(AssembledParameter::U16(number)) => {
            let (l, h) = crate::memory::split_word(*number);
            bytes.push(l);
            bytes.push(h);
            assert(bytes@ =~= old(bytes)@ + seq![l, h]);
        },
        _ => {
            assert(bytes@ =~= old(bytes)@ + Seq::<u8>::empty());
        },
    }
}

/// Assembles a program that starts at address 0 into its bytes. Nothing is
/// emitted on failure.
pub fn assemble(instructions: &[Instruction]) -> (result: Result<Vec<u8>, AssemblerError>)
    ensures
        match assemble_program(instructions@) {
            Ok(bytes) => result matches Ok(written) && written@ == bytes,
            Err(failure) => result matches Err(error) && error@ == failure,
        },
{
    let mut assembly = Assembly::from_instructions(instructions);
    match assembly.assemble() {
        Ok(()) => Ok(assembly.write()),
        Err(error) => Err(error),
    }
}

/// The row that stands for an undocumented opcode byte in a listing: `NOP`.
pub open spec fn filler() -> InstructionMeta {
    crate::opcode::entry(0xEA, Opcode::NOP, AddressingMode::Implied, AddressingMode::Implied, 2)
}

/// The operand of width `width` that the bytes hold at index `at`.
pub open spec fn operand_at(bytes: Seq<u8>, at: int, width: u16) -> Option<Value> {
    if width == 1 {
        Some(Value::U8(bytes[at]))
    } else if width == 2 {
        Some(Value::U16(crate::memory::word(bytes[at], bytes[at + 1])))
    } else {
        None
    }
}

/// The instruction that the bytes hold at index `at`, by the row `meta` of
/// its opcode byte.
pub open spec fn encoded_at(bytes: Seq<u8>, at: int, meta: InstructionMeta) -> Encoded {
    Encoded {
        meta,
        value_1: operand_at(bytes, at + 1, meta.parameter_1.spec_width()),
        value_2: operand_at(
            bytes,
            at + 1 + meta.parameter_1.spec_width(),
            meta.parameter_2.spec_width(),
        ),
    }
}

/// The instructions that the bytes hold from index `at` on, one after
/// another. An undocumented opcode byte is listed as `NOP`; an instruction
/// whose operands the bytes do not hold in full ends the listing.
pub open spec fn disassembly(bytes: Seq<u8>, at: int) -> Seq<Encoded>
    decreases bytes.len() - at,
{
    if at < 0 || at >= bytes.len() {
        Seq::empty()
    } else {
        match crate::opcode::decode(bytes[at]) {
            None => seq![Encoded { meta: filler(), value_1: None, value_2: None }] + disassembly(
                bytes,
                at + 1,
            ),
            Some(meta) => if at + meta.spec_width() > bytes.len() {
                Seq::empty()
            } else {
                seq![encoded_at(bytes, at, meta)] + disassembly(bytes, at + meta.spec_width())
            },
        }
    }
}

/// The number that an operand holds.
pub open spec fn number_of(value: Option<Value>) -> u16 {
    match value {
        Some(Value::U8(number)) => number as u16,
        Some(Value::U16(number)) => number,
        _ => 0,
    }
}

/// Whether `list` is the operand pair `first,second`.
pub open spec fn is_pair(list: Seq<Parameter>, first: Parameter, second: Parameter) -> bool {
    list.len() == 2 && list[0] == first && list[1] == second
}

/// Whether the source operand `parameter` writes down an operand of mode
/// `mode` with the number `number`. A zero page mode is written like the
/// absolute mode it stands in for, and a relative mode as the absolute
/// address of its target.
pub open spec fn shows(parameter: Parameter, mode: AddressingMode, number: u16) -> bool {
    match mode {
        AddressingMode::Implied => parameter == Parameter::Implied,
        AddressingMode::Accumulator => parameter == Parameter::A,
        AddressingMode::Immediate => parameter == Parameter::Immediate((number % 256) as u8),
        AddressingMode::Absolute
        | AddressingMode::ZeroPage
        | AddressingMode::ProgramCounterRelative => parameter == Parameter::Absolute(number),
        AddressingMode::AbsoluteIndexedX | AddressingMode::ZeroPageIndexedX => parameter matches Parameter::List(
            list,
        ) && is_pair(list@, Parameter::Absolute(number), Parameter::X),
        AddressingMode::AbsoluteIndexedY | AddressingMode::ZeroPageIndexedY => parameter matches Parameter::List(
            list,
        ) && is_pair(list@, Parameter::Absolute(number), Parameter::Y),
        AddressingMode::AbsoluteIndirect | AddressingMode::ZeroPageIndirect => parameter matches Parameter::Indirect(
            inner,
        ) && *inner == Parameter::Absolute(number),
        AddressingMode::AbsoluteIndexedIndirectX
        | AddressingMode::ZeroPageIndexedIndirectX => parameter matches Parameter::Indirect(inner)
            && (*inner matches Parameter::List(list) && is_pair(
            list@,
            Parameter::Absolute(number),
            Parameter::X,
        )),
        AddressingMode::ZeroPageIndirectIndexedY => parameter matches Parameter::List(list)
            && list@.len() == 2 && list@[1] == Parameter::Y && (list@[0] matches Parameter::Indirect(
            inner,
        ) && *inner == Parameter::Absolute(number)),
    }
}

/// The number that a listing writes down for an operand: the target of a
/// relative branch, `cursor` being the address behind the instruction, and
/// else the operand itself.
pub open spec fn shown_number(mode: AddressingMode, value: Option<Value>, cursor: u16) -> u16 {
    if mode == AddressingMode::ProgramCounterRelative {
        crate::cpu::alu::relative_target(cursor, number_of(value) as u8)
    } else {
        number_of(value)
    }
}

/// Whether the source instruction `instruction` writes down the encoded
/// instruction `encoded` that ends at address `cursor`: without a label,
/// with the mnemonic of the encoding, and with its operands; the two
/// operands of a bit branch stand in a list.
pub open spec fn lists(instruction: Instruction, encoded: Encoded, cursor: u16) -> bool {
    let first = shown_number(encoded.meta.parameter_1, encoded.value_1, cursor);
    let second = shown_number(encoded.meta.parameter_2, encoded.value_2, cursor);
    &&& instruction.label is None
    &&& instruction.mnemonic == Mnemonic::Opcode(encoded.meta.opcode)
    &&& if encoded.meta.parameter_2 == AddressingMode::Implied {
        shows(instruction.parameter, encoded.meta.parameter_1, first)
    } else {
        instruction.parameter matches Parameter::List(list) && is_pair(
            list@,
            Parameter::Absolute(first),
            Parameter::Absolute(second),
        )
    }
}

/// `address` modulo 65536.
pub open spec fn wrap_address(address: int) -> u16 {
    (address % 0x10000) as u16
}

/// Whether `listing` writes down, instruction by instruction, what the
/// bytes hold, the first byte standing at address 0.
pub open spec fn is_listing(bytes: Seq<u8>, listing: Seq<Instruction>) -> bool {
    let held = disassembly(bytes, 0);
    &&& listing.len() == held.len()
    &&& forall|i: int|
        0 <= i < listing.len() ==> lists(
            #[trigger] listing[i],
            held[i],
            wrap_address(end_address(held, (i + 1) as nat)),
        )
}

/// The operand list `first,second`.
fn pair(first: Parameter, second: Parameter) -> (list: Vec<Parameter>)
    ensures
        is_pair(list@, first, second),
{
    let mut list: Vec<Parameter> = Vec::new();
    list.push(first);
    list.push(second);
    list
}

/// Writes down an operand of mode `mode` with the number `number`.
fn show(mode: AddressingMode, number: u16) -> (parameter: Parameter)
    ensures
        shows(parameter, mode, number),
{
    match mode {
        AddressingMode::Implied => Parameter::Implied,
        AddressingMode::Accumulator => Parameter::A,
        AddressingMode::Immediate => Parameter::Immediate((number % 256) as u8),
        AddressingMode::Absolute
        | AddressingMode::ZeroPage
        | AddressingMode::ProgramCounterRelative => Parameter::Absolute(number),
        AddressingMode::AbsoluteIndexedX | AddressingMode::ZeroPageIndexedX => Parameter::List(
            pair(Parameter::Absolute(number), Parameter::X),
        ),
        AddressingMode::AbsoluteIndexedY | AddressingMode::ZeroPageIndexedY => Parameter::List(
            pair(Parameter::Absolute(number), Parameter::Y),
        ),
        AddressingMode::AbsoluteIndirect | AddressingMode::ZeroPageIndirect => Parameter::Indirect(
            Box::new(Parameter::Absolute(number)),
        ),
        AddressingMode::AbsoluteIndexedIndirectX
        | AddressingMode::ZeroPageIndexedIndirectX => Parameter::Indirect(
            Box::new(Parameter::List(pair(Parameter::Absolute(number), Parameter::X))),
        ),
        AddressingMode::ZeroPageIndirectIndexedY => Parameter::List(
            pair(Parameter::Indirect(Box::new(Parameter::Absolute(number))), Parameter::Y),
        ),
    }
}

/// Reads the operand of mode `mode` at index `at` and returns the number
/// that a listing writes down for it.
fn read_operand(bytes: &[u8], at: usize, mode: AddressingMode, cursor: u16) -> (number: u16)
    requires
        at + mode.spec_width() <= bytes@.len(),
    ensures
        number == shown_number(mode, operand_at(bytes@, at as int, mode.spec_width()), cursor),
{
    let width = mode.width();
    if width == 1 {
        let byte = bytes[at];
        match mode {
            AddressingMode::ProgramCounterRelative => crate::cpu::alu::compute_relative_target(
                cursor,
                byte,
            ),
            _ => byte as u16,
        }
    } else if width == 2 {
        crate::memory::make_word(bytes[at], bytes[at + 1])
    } else {
        0
    }
}

/// Lists the instructions that `bytes` hold, the first byte standing at
/// address 0. An undocumented opcode byte is listed as `NOP`; an
/// instruction whose operands the bytes do not hold in full ends the
/// listing.
pub fn disassemble(bytes: &[u8]) -> (listing: Vec<Instruction>)
    ensures
        is_listing(bytes@, listing@),
{
    let mut listing: Vec<Instruction> = Vec::new();
    let ghost held = disassembly(bytes@, 0);
    let mut at: usize = 0;
    while at < bytes.len()
        invariant
            at <= bytes@.len(),
            held == disassembly(bytes@, 0),
            listing@.len() <= held.len(),
            at == end_address(held, listing@.len()),
            held =~= held.take(listing@.len() as int) + disassembly(bytes@, at as int),
            forall|i: int|
                0 <= i < listing@.len() ==> lists(
                    #[trigger] listing@[i],
                    held[i],
                    wrap_address(end_address(held, (i + 1) as nat)),
                ),
        ensures
            listing@.len() == held.len(),
            forall|i: int|
                0 <= i < listing@.len() ==> lists(
                    #[trigger] listing@[i],
                    held[i],
                    wrap_address(end_address(held, (i + 1) as nat)),
                ),
        decreases bytes@.len() - at,
    {
        let ghost count = listing@.len();
        let ghost rest = disassembly(bytes@, at as int);
        assert(held.take(count as int).len() == count);
        match crate::opcode::get_instruction(bytes[at]) {
            None => {
                assert(rest[0] == (Encoded { meta: filler(), value_1: None, value_2: None }));
                assert(held[count as int] == rest[0]);
                listing.push(
                    Instruction {
                        label: None,
                        mnemonic: Mnemonic::Opcode(Opcode::NOP),
                        parameter: Parameter::Implied,
                    },
                );
                assert(held.take(count as int + 1) =~= held.take(count as int).push(rest[0]));
                assert(rest =~= seq![rest[0]] + disassembly(bytes@, at + 1));
                at += 1;
            },
            Some(meta) => {
                let width = meta.width() as usize;
                if width > bytes.len() - at {
                    assert(rest.len() == 0);
                    break;
                }
                assert(rest[0] == encoded_at(bytes@, at as int, meta));
                assert(held[count as int] == rest[0]);
                assert(rest =~= seq![rest[0]] + disassembly(bytes@, at + width));
                let cursor = ((at + width) % 0x10000) as u16;
                let first = read_operand(bytes, at + 1, meta.parameter_1, cursor);
                let parameter = if meta.parameter_2 == AddressingMode::Implied {
                    show(meta.parameter_1, first)
                } else {
                    let second = read_operand(
                        bytes,
                        at + 1 + meta.parameter_1.width() as usize,
                        meta.parameter_2,
                        cursor,
                    );
                    Parameter::List(pair(Parameter::Absolute(first), Parameter::Absolute(second)))
                };
                listing.push(
                    Instruction { label: None, mnemonic: Mnemonic::Opcode(meta.opcode), parameter },
                );
                assert(held.take(count as int + 1) =~= held.take(count as int).push(rest[0]));
                at += width;
            },
        }
    }
    listing
}

} // verus!
