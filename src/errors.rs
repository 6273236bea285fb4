use crate::instructions::Instruction;
use crate::text::{append_decimal, decimal, push_tag_text, push_type_list, tag_text, type_list};
use crate::values::InterfaceType;
use vstd::prelude::*;

verus! {

/// Why an instruction failed.
#[derive(Clone, Debug, PartialEq, Eq)]
#[allow(inconsistent_fields)]
pub enum ErrorKind {
    /// `arg.get` named an argument beyond the invocation inputs.
    OutOfRangeArgument { index: u64 },
    /// The export to call does not exist.
    ExportNotFound { name: String },
    /// The stack held fewer values than needed.
    StackUnderflow { needed: usize },
    /// The types of the values taken off the stack are not the export's inputs.
    SignatureMismatch { expected: Vec<InterfaceType> },
    /// The export itself failed.
    ExportCallFailed { name: String },
    /// The instance has no default memory.
    NoMemory,
    /// The read would end past the end of memory.
    OutOfBoundsMemoryAccess { end: u64, length: usize },
    /// The bytes read are not UTF-8; `offset` is the length of the valid prefix.
    InvalidUtf8 { offset: usize, detail: String },
    /// A value on the stack did not have the type that the opcode reads.
    ConversionError { expected: InterfaceType },
    /// The opcode is not executed by this interpreter.
    UnsupportedOpcode,
}

/// The mathematical content of an `ErrorKind`.
#[allow(inconsistent_fields)]
pub enum Fault {
    OutOfRangeArgument { index: u64 },
    ExportNotFound { name: Seq<char> },
    StackUnderflow { needed: nat },
    SignatureMismatch { expected: Seq<InterfaceType> },
    ExportCallFailed { name: Seq<char> },
    NoMemory,
    OutOfBoundsMemoryAccess { end: nat, length: nat },
    InvalidUtf8 { offset: nat, detail: Seq<char> },
    ConversionError { expected: InterfaceType },
    UnsupportedOpcode,
}

impl View for ErrorKind {
    type V = Fault;

    open spec fn view(&self) -> Fault {
        match self {
            ErrorKind::OutOfRangeArgument { index } => Fault::OutOfRangeArgument { index: *index },
            ErrorKind::ExportNotFound { name } => Fault::ExportNotFound { name: name@ },
            ErrorKind::StackUnderflow { needed } => Fault::StackUnderflow { needed: *needed as nat },
            ErrorKind::SignatureMismatch { expected } => Fault::SignatureMismatch { expected: expected@ },
            ErrorKind::ExportCallFailed { name } => Fault::ExportCallFailed { name: name@ },
            ErrorKind::NoMemory => Fault::NoMemory,
            ErrorKind::OutOfBoundsMemoryAccess { end, length } => Fault::OutOfBoundsMemoryAccess {
                end: *end as nat,
                length: *length as nat,
            },
            ErrorKind::InvalidUtf8 { offset, detail } => Fault::InvalidUtf8 {
                offset: *offset as nat,
                detail: detail@,
            },
            ErrorKind::ConversionError { expected } => Fault::ConversionError { expected: *expected },
            ErrorKind::UnsupportedOpcode => Fault::UnsupportedOpcode,
        }
    }
}

/// The failure of one instruction: the instruction and why it failed.
#[derive(Clone, Debug, PartialEq, Eq)]
pub struct InstructionError {
    pub instruction: Instruction,
    pub kind: ErrorKind,
}

/// The part of a diagnostic after the backquoted mnemonic.
pub open spec fn cause_text(instruction: Instruction, fault: Fault) -> Seq<char> {
    match fault {
        Fault::OutOfRangeArgument { index } => " cannot access argument #"@ + decimal(index as nat)
            + " because it doesn't exist."@,
        Fault::ExportNotFound { name } => " cannot call the exported function `"@ + name
            + "` because it doesn't exist."@,
        Fault::StackUnderflow { needed } => match instruction {
            Instruction::CallExport(name) => " cannot call the exported function `"@ + name@
                + "` because there is no enough data on the stack for the arguments (needs "@
                + decimal(needed) + ")."@,
            _ => " failed because there is no enough data on the stack (needs "@ + decimal(needed)
                + ")."@,
        },
        Fault::SignatureMismatch { expected } => match instruction {
            Instruction::CallExport(name) => " cannot call the exported function `"@ + name@
                + "` because the value types on the stack mismatch the function signature (expects "@
                + type_list(expected) + ")."@,
            _ => " failed because the value types on the stack mismatch the signature (expects "@
                + type_list(expected) + ")."@,
        },
        Fault::ExportCallFailed { name } => " failed when calling the exported function `"@ + name
            + "`."@,
        Fault::NoMemory => " failed because there is no memory to read."@,
        Fault::OutOfBoundsMemoryAccess { end, length } =>
            " failed because it has to read out of the memory bounds (index "@ + decimal(end)
            + " > memory length "@ + decimal(length) + ")."@,
        Fault::InvalidUtf8 { offset, detail } =>
            " failed because the read string isn't UTF-8 valid ("@ + detail + ")."@,
        Fault::ConversionError { expected } =>
            " failed because a value on the stack is not of type "@ + tag_text(expected) + "."@,
        Fault::UnsupportedOpcode => " is not supported."@,
    }
}

/// The diagnostic of a failure: the backquoted mnemonic, then the cause.
pub open spec fn message_of(instruction: Instruction, fault: Fault) -> Seq<char> {
    "`"@ + instruction.spec_mnemonic() + "`"@ + cause_text(instruction, fault)
}

impl InstructionError {
    /// The diagnostic of this failure.
    pub fn message(&self) -> (r: String)
        ensures
            r@ == message_of(self.instruction, self.kind@),
    {
        let mut s = String::new();
        s.append("`");
        self.instruction.push_mnemonic(&mut s);
        s.append("`");
        let ghost head = s@;
        match &self.kind {
            ErrorKind::OutOfRangeArgument { index } => {
                s.append(" cannot access argument #");
                append_decimal(&mut s, *index);
                s.append(" because it doesn't exist.");
            },
            ErrorKind::ExportNotFound { name } => {
                s.append(" cannot call the exported function `");
                s.append(name.as_str());
                s.append("` because it doesn't exist.");
            },
            ErrorKind::StackUnderflow { needed } => {
                match &self.instruction {
                    Instruction::CallExport(name) => {
                        s.append(" cannot call the exported function `");
                        s.append(name.as_str());
                        s.append(
                            "` because there is no enough data on the stack for the arguments (needs ",
                        );
                    },
                    _ => {
                        s.append(" failed because there is no enough data on the stack (needs ");
                    },
                }
                append_decimal(&mut s, *needed as u64);
                s.append(").");
            },
            ErrorKind::SignatureMismatch { expected } => {
                match &self.instruction {
                    Instruction::CallExport(name) => {
                        s.append(" cannot call the exported function `");
                        s.append(name.as_str());
                        s.append(
                            "` because the value types on the stack mismatch the function signature (expects ",
                        );
                    },
                    _ => {
                        s.append(
                            " failed because the value types on the stack mismatch the signature (expects ",
                        );
                    },
                }
                push_type_list(&mut s, expected.as_slice());
                s.append(").");
            },
            ErrorKind::ExportCallFailed { name } => {
                s.append(" failed when calling the exported function `");
                s.append(name.as_str());
                s.append("`.");
            },
            ErrorKind::NoMemory => {
                s.append(" failed because there is no memory to read.");
            },
            ErrorKind::OutOfBoundsMemoryAccess { end, length } => {
                s.append(" failed because it has to read out of the memory bounds (index ");
                append_decimal(&mut s, *end);
                s.append(" > memory length ");
                append_decimal(&mut s, *length as u64);
                s.append(").");
            },
            ErrorKind::InvalidUtf8 { offset, detail } => {
                s.append(" failed because the read string isn't UTF-8 valid (");
                s.append(detail.as_str());
                s.append(").");
            },
            ErrorKind::ConversionError { expected } => {
                s.append(" failed because a value on the stack is not of type ");
                push_tag_text(&mut s, *expected);
                s.append(".");
            },
            ErrorKind::UnsupportedOpcode => {
                s.append(" is not supported.");
            },
        }
        assert(s@ =~= head + cause_text(self.instruction, self.kind@));
        assert(s@ =~= message_of(self.instruction, self.kind@));
        s
    }
}

} // verus!
