use vstd::prelude::*;

verus! {

/// Errors reported by the library.
#[derive(Debug, Clone, Copy, PartialEq, Eq)]
pub enum Error {
    /// An instruction declares a word count of zero.
    ZeroLengthInstruction,
    /// An instruction slice holds no word at all.
    InstructionTooShort,
    /// An operand reader ran out of words.
    OperandTooShort,
    /// No word of a string operand ends with a NUL byte.
    StringNotNullTerminated,
    /// The bytes of a string operand are not valid UTF-8.
    InvalidUtf8,
    /// The binary is too short to hold the five header words.
    MissingHeader,
    /// A type id is assigned a second, incompatible type.
    TypeCollision(u32),
    /// No type is registered under the id.
    MissingType(u32),
    /// A variable id is registered a second time.
    VariableCollision(u32),
    /// No variable is registered under the id.
    MissingVariable(u32),
    /// A function id is registered a second time.
    FunctionCollision(u32),
    /// No function is registered under the id.
    MissingFunction(u32),
    /// No function is registered under the name asked for.
    MissingNamedFunction,
    /// An instruction with enumerant operands has no enumerant at the operand
    /// index: the opcode and the index.
    UnknownOperandIndex(u32, usize),
    /// An instruction has no enumerant operands: the opcode and the index.
    NotEnumOperand(u32, usize),
    /// A decoration with enumerant parameters has no enumerant at the
    /// parameter index: the decoration and the index.
    UnknownDecorateParameterIndex(u32, usize),
    /// A decoration has no enumerant parameters: the decoration and the index.
    NotEnumDecorateParameter(u32, usize),
    /// The assembly text ends where a token must continue.
    UnexpectedEndOfInput,
    /// A numeric literal does not form a number, or its value does not fit.
    InvalidNumber,
    /// A character that starts no token.
    UnexpectedCharacter(char),
    /// A constant's value does not fit its type, or its type is not one a
    /// constant of that kind can have.
    ConstantOutOfRange,
    /// An instruction has the wrong number of operands: its opcode.
    OperandCount(u32),
    /// An operand must be a literal integer: the opcode and the operand's
    /// index.
    ExpectedLiteralInteger(u32, usize),
    /// An instruction needs a numeric result id: its opcode.
    ExpectedResultId(u32),
    /// An instruction needs a numeric result type id: its opcode.
    ExpectedResultTypeId(u32),
    /// A result id is declared a second time.
    DuplicateResultId(u32),
    /// A result type id names no scalar type declared before.
    UnknownResultType(u32),
    /// An operand must be a literal: the opcode.
    ExpectedLiteral(u32),
    /// A constant's value must be a number literal, not a string.
    ExpectedNumericLiteral,
    /// An operation cannot be evaluated on the operands as a constant of the
    /// result type: its opcode.
    EvaluationFailed(u32),
    /// An operation on floating-point values, which the caller evaluates:
    /// its opcode.
    FloatArithmetic(u32),
    /// A constant id is not known.
    MissingConstant(u32),
    /// A constant id is defined a second time.
    ConstantCollision(u32),
    /// An operand of the expression that defines the id is not a known
    /// constant.
    BrokenExpressionTree(u32),
    /// An extended instruction set id is imported a second time.
    ExtInstrSetCollision(u32),
    /// An extended instruction set id is not known.
    MissingExtInstrSet(u32),
    /// A list of operands that are read in pairs has an odd length.
    UnpairedOperands,
    /// A constant value is typed already.
    AlreadyTyped,
    /// The bytes of an untyped constant do not form a value of the type.
    UnparsableConstant,
    /// A constant's result type is not a scalar type a constant can have.
    UnsupportedConstantType,
    /// No operand layout is known for the opcode.
    UnsupportedOpcode(u32),
    /// No name is given for the enumerant value.
    UnknownEnumerant(u32),
    /// No instruction of the instruction set has the name.
    UnknownOpName,
    /// No enumerant of the kind has the name.
    UnknownEnumerantName,
    /// An instruction must start with its opcode name.
    ExpectedOpcode,
    /// A result id must be followed by `=`.
    ExpectedEq,
    /// An operand cannot be an `=`.
    ExpectedOperand,
    /// A line cannot start with a literal or an `=`.
    UnexpectedToken,
    /// An instruction without a result id is given one: its opcode.
    UnexpectedResultId(u32),
    /// A literal integer operand fits neither an `i32` nor a `u32`.
    LiteralOutOfRange,
    /// The opcode is not one of SPIR-V's.
    UnknownOpcode(u32),
}

} // verus!
