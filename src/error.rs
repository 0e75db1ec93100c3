//! Why a compilation stops.
use vstd::prelude::*;

verus! {

/// The one failure channel of the compiler.
pub enum CompileError {
    UnterminatedComment,
    UnterminatedString,
    MissingDefinitionName,
    MissingSemicolon(Vec<char>),
    MissingCreateName,
    MissingVariableName,
    MissingConstantName,
    MissingAllotValue,
    MissingConstantValue,
    UnknownWord(Vec<char>),
    ElseWithoutIf,
    ThenWithoutIf,
    UntilWithoutBegin,
    WhileWithoutBegin,
    RepeatWithoutBegin,
    UnclosedControl,
    StringWithoutConsumer,
    UnsupportedStringConsumer,
    NestedDefinition,
    NoEntryPoint,
    TooLarge,
}

/// The model of a `CompileError`.
pub enum Fault {
    UnterminatedComment,
    UnterminatedString,
    MissingDefinitionName,
    MissingSemicolon(Seq<char>),
    MissingCreateName,
    MissingVariableName,
    MissingConstantName,
    MissingAllotValue,
    MissingConstantValue,
    UnknownWord(Seq<char>),
    ElseWithoutIf,
    ThenWithoutIf,
    UntilWithoutBegin,
    WhileWithoutBegin,
    RepeatWithoutBegin,
    UnclosedControl,
    StringWithoutConsumer,
    UnsupportedStringConsumer,
    NestedDefinition,
    NoEntryPoint,
    TooLarge,
}

impl View for CompileError {
    type V = Fault;

    open spec fn view(&self) -> Fault {
        match self {
            CompileError::UnterminatedComment => Fault::UnterminatedComment,
            CompileError::UnterminatedString => Fault::UnterminatedString,
            CompileError::MissingDefinitionName => Fault::MissingDefinitionName,
            CompileError::MissingSemicolon(n) => Fault::MissingSemicolon(n@),
            CompileError::MissingCreateName => Fault::MissingCreateName,
            CompileError::MissingVariableName => Fault::MissingVariableName,
            CompileError::MissingConstantName => Fault::MissingConstantName,
            CompileError::MissingAllotValue => Fault::MissingAllotValue,
            CompileError::MissingConstantValue => Fault::MissingConstantValue,
            CompileError::UnknownWord(w) => Fault::UnknownWord(w@),
            CompileError::ElseWithoutIf => Fault::ElseWithoutIf,
            CompileError::ThenWithoutIf => Fault::ThenWithoutIf,
            CompileError::UntilWithoutBegin => Fault::UntilWithoutBegin,
            CompileError::WhileWithoutBegin => Fault::WhileWithoutBegin,
            CompileError::RepeatWithoutBegin => Fault::RepeatWithoutBegin,
            CompileError::UnclosedControl => Fault::UnclosedControl,
            CompileError::StringWithoutConsumer => Fault::StringWithoutConsumer,
            CompileError::UnsupportedStringConsumer => Fault::UnsupportedStringConsumer,
            CompileError::NestedDefinition => Fault::NestedDefinition,
            CompileError::NoEntryPoint => Fault::NoEntryPoint,
            CompileError::TooLarge => Fault::TooLarge,
        }
    }
}

} // verus!
