use crate::text::{append_decimal, decimal, tag_text, push_tag_text};
use crate::values::InterfaceType;
use vstd::prelude::*;

verus! {

/// One adapter opcode with the operands it needs to run.
#[derive(Clone, Debug, PartialEq, Eq)]
pub enum Instruction {
    /// Pushes the invocation argument at this index.
    ArgumentGet(u64),
    /// Calls another adapter function by index; reserved, it has no effect.
    Call(u64),
    /// Calls the instance's export of this name.
    CallExport(String),
    /// Reads a string out of the instance's memory.
    ReadUtf8,
    /// Writes a string into memory through the allocator export of this name.
    WriteUtf8(String),
    /// Lowers the top value to a wasm value of this type.
    AsWasm(InterfaceType),
    /// Lifts the top value to an interface value of this type.
    AsInterface(InterfaceType),
    /// Adds the top value to the table of references.
    TableRefAdd,
    /// Reads a value of the table of references.
    TableRefGet,
    /// Calls the method of this index.
    CallMethod(u64),
}

impl Instruction {
    /// The opcodes that the interpreter executes.
    pub open spec fn spec_is_supported(&self) -> bool {
        match self {
            Instruction::ArgumentGet(_) | Instruction::Call(_) | Instruction::CallExport(_)
            | Instruction::ReadUtf8 => true,
            _ => false,
        }
    }

    /// Whether the interpreter executes this opcode.
    pub fn is_supported(&self) -> (r: bool)
        ensures
            r == self.spec_is_supported(),
    {
        match self {
            Instruction::ArgumentGet(_) | Instruction::Call(_) | Instruction::CallExport(_)
            | Instruction::ReadUtf8 => true,
            _ => false,
        }
    }

    /// A copy of this instruction, equal to it.
    pub fn duplicate(&self) -> (r: Instruction)
        ensures
            r == *self,
    {
        match self {
            Instruction::ArgumentGet(i) => Instruction::ArgumentGet(*i),
            Instruction::Call(i) => Instruction::Call(*i),
            Instruction::CallExport(name) => Instruction::CallExport(name.clone()),
            Instruction::ReadUtf8 => Instruction::ReadUtf8,
            Instruction::WriteUtf8(name) => Instruction::WriteUtf8(name.clone()),
            Instruction::AsWasm(t) => Instruction::AsWasm(*t),
            Instruction::AsInterface(t) => Instruction::AsInterface(*t),
            Instruction::TableRefAdd => Instruction::TableRefAdd,
            Instruction::TableRefGet => Instruction::TableRefGet,
            Instruction::CallMethod(i) => Instruction::CallMethod(*i),
        }
    }

    /// The human-readable name of the opcode and its operands.
    pub open spec fn spec_mnemonic(&self) -> Seq<char> {
        match self {
            Instruction::ArgumentGet(i) => "arg.get "@ + decimal(*i as nat),
            Instruction::Call(i) => "call "@ + decimal(*i as nat),
            Instruction::CallExport(name) => "call-export \""@ + name@ + "\""@,
            Instruction::ReadUtf8 => "read-utf8"@,
            Instruction::WriteUtf8(name) => "write-utf8 \""@ + name@ + "\""@,
            Instruction::AsWasm(t) => "as-wasm "@ + tag_text(*t),
            Instruction::AsInterface(t) => "as-interface "@ + tag_text(*t),
            Instruction::TableRefAdd => "table-ref-add"@,
            Instruction::TableRefGet => "table-ref-get"@,
            Instruction::CallMethod(i) => "call-method "@ + decimal(*i as nat),
        }
    }

    /// Appends the mnemonic of this instruction to `s`.
    pub fn push_mnemonic(&self, s: &mut String)
        ensures
            final(s)@ == old(s)@ + self.spec_mnemonic(),
    {
        let ghost s0 = s@;
        match self {
            Instruction::ArgumentGet(i) => {
                s.append("arg.get ");
                append_decimal(s, *i);
            },
            Instruction::Call(i) => {
                s.append("call ");
                append_decimal(s, *i);
            },
            Instruction::CallExport(name) => {
                s.append("call-export \"");
                s.append(name.as_str());
                s.append("\"");
            },
            Instruction::ReadUtf8 => {
                s.append("read-utf8");
            },
            Instruction::WriteUtf8(name) => {
                s.append("write-utf8 \"");
                s.append(name.as_str());
                s.append("\"");
            },
            Instruction::AsWasm(t) => {
                s.append("as-wasm ");
                push_tag_text(s, *t);
            },
            Instruction::AsInterface(t) => {
                s.append("as-interface ");
                push_tag_text(s, *t);
            },
            Instruction::TableRefAdd => {
                s.append("table-ref-add");
            },
            Instruction::TableRefGet => {
                s.append("table-ref-get");
            },
            Instruction::CallMethod(i) => {
                s.append("call-method ");
                append_decimal(s, *i);
            },
        }
        assert(s@ =~= s0 + self.spec_mnemonic());
    }

    /// The mnemonic of this instruction.
    pub fn mnemonic(&self) -> (r: String)
        ensures
            r@ == self.spec_mnemonic(),
    {
        let mut s = String::new();
        self.push_mnemonic(&mut s);
        assert(s@ =~= self.spec_mnemonic());
        s
    }
}

} // verus!
