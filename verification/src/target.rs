//! The command line's choice of what the compiler produces.

use vstd::prelude::*;

verus! {

/// The target flags of the command line.
#[derive(Clone, Debug, PartialEq, Eq)]
pub struct TransformTarget {
    /// Run the source with the interpreter.
    pub interpreter: bool,
    /// Dump LLVM IR.
    pub llvm_ir_dump: bool,
    /// Produce RISC-V assembly.
    pub riscv: bool,
}

/// The arguments of the command line.
#[derive(Clone, Debug, PartialEq, Eq)]
pub struct Args {
    pub target: TransformTarget,
    /// The source files to read.
    pub source: Vec<String>,
}

/// What the compiler is asked to produce.
#[derive(PartialEq, Eq, Structural, Clone, Copy, Debug)]
pub enum Target {
    Interpreter,
    LLVMIr,
    RiscV,
}

impl TransformTarget {
    /// Whether at least one target flag is set.
    pub open spec fn is_chosen(self) -> bool {
        self.interpreter || self.llvm_ir_dump || self.riscv
    }

    /// The target that the flags select: the first that is set, in the order
    /// interpreter, LLVM IR, RISC-V.
    pub open spec fn selected(self) -> Target {
        if self.interpreter {
            Target::Interpreter
        } else if self.llvm_ir_dump {
            Target::LLVMIr
        } else {
            Target::RiscV
        }
    }
}

/// Maps the target flags of the arguments to the target. At least one flag has
/// to be set.
pub fn map_argments_to_target(arg: &Args) -> (target: Target)
    requires
        arg.target.is_chosen(),
    ensures
        target == arg.target.selected(),
{
    if arg.target.interpreter {
        Target::Interpreter
    } else if arg.target.llvm_ir_dump {
        Target::LLVMIr
    } else {
        Target::RiscV
    }
}

impl Args {
    /// The source file to compile, where exactly one is given.
    pub fn single_source(&self) -> (source: Option<&String>)
        ensures
            source is Some <==> self.source.len() == 1,
            source matches Some(path) ==> *path == self.source[0],
    {
        if self.source.len() == 1 {
            Some(&self.source[0])
        } else {
            None
        }
    }
}

} // verus!
