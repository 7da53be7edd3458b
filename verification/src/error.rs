//! Error types for IR construction and for the reference evaluator.

use vstd::prelude::*;

verus! {

/// A structural error detected while building IR, before any compilation
/// is attempted.  Construction calls report these as recoverable results
/// and also append them to the owning context's error log, where
/// `Context::get_first_error` and `Context::get_last_error` can see them.
#[derive(Clone, Copy, PartialEq, Eq, Structural, Debug)]
pub enum BuildError {
    /// A statement or terminator was added to a block that already ends
    /// in a terminator.
    BlockTerminated,
    /// `compile` found a block with no terminator.
    MissingTerminator,
    /// A block was requested on a function declared with external linkage,
    /// which must not have a body.
    ExternWithBody,
    /// `compile` found a defined (non-external) function with no blocks.
    BodyMissing,
    /// `set_fields` was called on a struct whose field list is already
    /// fixed, either at creation or by an earlier `set_fields` call.
    StructFilled,
    /// A field was placed in more than one struct or union definition.
    FieldInUse,
    /// A call was built with a number of arguments different from the
    /// callee's parameter count.
    ArityMismatch,
    /// A bracket-matched builder saw a closing bracket while its stack of
    /// open constructs was empty.
    UnmatchedClose,
    /// A bracket-matched builder consumed its whole input while constructs
    /// were still open.
    UnclosedBracket,
}

/// A failure of the reference evaluator while running a compiled function.
#[derive(Clone, Copy, PartialEq, Eq, Structural, Debug)]
pub enum EvalError {
    /// The step budget was exhausted before the function returned.
    OutOfFuel,
    /// An integer division or remainder by zero.
    DivisionByZero,
    /// A shift amount outside the range of the 64-bit word.
    ShiftOutOfRange,
    /// The program uses a construct the reference evaluator does not
    /// model (memory, pointers, vectors, inline assembly, or a call into
    /// an externally linked function).
    Unsupported,
    /// An index led outside the program's arenas; a validated program
    /// never produces this.
    Malformed,
    /// The function was invoked with a wrong number of arguments.
    BadArgumentCount,
}

impl BuildError {
    /// The diagnostic text for this error, as the context's error log
    /// renders it.
    pub open spec fn message_spec(self) -> Seq<char> {
        match self {
            BuildError::BlockTerminated => "block already has a terminator"@,
            BuildError::MissingTerminator => "block has no terminator"@,
            BuildError::ExternWithBody => "external function cannot have blocks"@,
            BuildError::BodyMissing => "defined function has no blocks"@,
            BuildError::StructFilled => "struct fields are already set"@,
            BuildError::FieldInUse => "field already used in another definition"@,
            BuildError::ArityMismatch => "call has wrong number of arguments"@,
            BuildError::UnmatchedClose => "closing bracket without matching open"@,
            BuildError::UnclosedBracket => "open bracket was never closed"@,
        }
    }

    /// Renders the diagnostic text for this error.
    pub fn message(self) -> (r: String)
        ensures
            r@ == self.message_spec(),
    {
        match self {
            BuildError::BlockTerminated => String::from_str("block already has a terminator"),
            BuildError::MissingTerminator => String::from_str("block has no terminator"),
            BuildError::ExternWithBody => String::from_str("external function cannot have blocks"),
            BuildError::BodyMissing => String::from_str("defined function has no blocks"),
            BuildError::StructFilled => String::from_str("struct fields are already set"),
            BuildError::FieldInUse => String::from_str("field already used in another definition"),
            BuildError::ArityMismatch => String::from_str("call has wrong number of arguments"),
            BuildError::UnmatchedClose => String::from_str("closing bracket without matching open"),
            BuildError::UnclosedBracket => String::from_str("open bracket was never closed"),
        }
    }
}

} // verus!
