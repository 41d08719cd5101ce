//! Unwind information of AArch64 code.

use vstd::prelude::*;
use wasmtime_environ::isa::unwind::UnwindInfo;

verus! {

/// `wasmtime_environ::isa::unwind::UnwindInfo`, how to unwind the stack of a function.
#[verifier::external_type_specification]
#[verifier::external_body]
pub struct ExUnwindInfo(UnwindInfo);

/// The offset of an instruction in a function's code.
pub type CodeOffset = u32;

/// The kinds of unwind information.
#[derive(Clone, Copy, Debug, PartialEq, Eq, Structural)]
pub enum UnwindInfoKind {
    /// No unwind information.
    Absent,
    /// That of the System V ABI.
    SystemV,
    /// That of Windows.
    Windows,
}

/// A code generation error.
#[derive(Debug)]
pub enum CodegenError {
    /// An implementation limit was exceeded.
    ImplLimitExceeded,
    /// The code for the function is too large.
    CodeTooLarge,
    /// A feature is not supported.
    Unsupported(String),
}

/// The result of code generation.
pub type CodegenResult<T> = Result<T, CodegenError>;

/// A generator of unwind information for code made of instructions `I`.
pub trait UnwindInfoGenerator<I> {
    /// Creates the unwind information of a function from its instructions, their offsets, and the
    /// extent of its prologue and epilogues.
    fn create_unwind_info(
        kind: UnwindInfoKind,
        insts: &[I],
        insts_layout: &[CodeOffset],
        prologue_epilogue: &(u32, u32, Box<[(u32, u32)]>),
    ) -> CodegenResult<Option<UnwindInfo>>;
}

/// The generator for AArch64, for which there is no unwind information yet.
pub struct AArch64UnwindInfo;

impl<I> UnwindInfoGenerator<I> for AArch64UnwindInfo {
    fn create_unwind_info(
        _kind: UnwindInfoKind,
        _insts: &[I],
        _insts_layout: &[CodeOffset],
        _prologue_epilogue: &(u32, u32, Box<[(u32, u32)]>),
    ) -> (r: CodegenResult<Option<UnwindInfo>>)
        ensures
            r == Ok::<Option<UnwindInfo>, CodegenError>(None),
    {
        Ok(None)
    }
}

/// No function of AArch64 code has unwind information, whatever kind is asked for, and asking for
/// it never fails.
pub proof fn law_aarch64_has_no_unwind_info<I>(
    kind: UnwindInfoKind,
    insts: &[I],
    insts_layout: &[CodeOffset],
    prologue_epilogue: &(u32, u32, Box<[(u32, u32)]>),
    r: CodegenResult<Option<UnwindInfo>>,
)
    requires
        call_ensures(
            <AArch64UnwindInfo as UnwindInfoGenerator<I>>::create_unwind_info,
            (kind, insts, insts_layout, prologue_epilogue),
            r,
        ),
    ensures
        r matches Ok(info) && info is None,
{
}

} // verus!
