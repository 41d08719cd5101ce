//! The errors of translation, compilation and instantiation.

use vstd::prelude::*;
use wasmtime_runtime::Trap;

verus! {

/// `wasmtime_runtime::Trap`, the reason why WebAssembly code stopped.
#[verifier::external_type_specification]
#[verifier::external_body]
pub struct ExTrap(Trap);

/// A WebAssembly translation error.
#[derive(Debug)]
pub enum WasmError {
    /// The input WebAssembly code is invalid.
    InvalidWebAssembly {
        /// A description of the error.
        message: String,
        /// The bytecode offset where the error occurred.
        offset: usize,
    },
    /// A feature used by the WebAssembly code is not supported by the embedding environment.
    Unsupported(String),
    /// An implementation limit was exceeded.
    ImplLimitExceeded,
    /// Any user-defined error.
    User(String),
}

/// The contents of a `WasmError`.
pub enum WasmErrorView {
    InvalidWebAssembly { message: Seq<char>, offset: usize },
    Unsupported(Seq<char>),
    ImplLimitExceeded,
    User(Seq<char>),
}

impl View for WasmError {
    type V = WasmErrorView;

    open spec fn view(&self) -> WasmErrorView {
        match *self {
            WasmError::InvalidWebAssembly { message, offset } => WasmErrorView::InvalidWebAssembly {
                message: message@,
                offset,
            },
            WasmError::Unsupported(message) => WasmErrorView::Unsupported(message@),
            WasmError::ImplLimitExceeded => WasmErrorView::ImplLimitExceeded,
            WasmError::User(message) => WasmErrorView::User(message@),
        }
    }
}

/// An error while compiling WebAssembly to machine code.
#[derive(Debug)]
pub enum CompileError {
    /// A wasm translation error occurred.
    Wasm(WasmError),
    /// A compilation error occurred.
    Codegen(String),
    /// Debug information was asked for where it cannot be produced.
    DebugInfoNotSupported,
}

/// A link error while instantiating a module.
#[derive(Debug)]
pub struct LinkError(pub String);

/// An error while instantiating a module.
#[derive(Debug)]
pub enum InstantiationError {
    /// Insufficient resources available for execution.
    Resource(String),
    /// A wasm link error occurred.
    Link(LinkError),
    /// A trap occurred during instantiation, after linking.
    Trap(Trap),
}

/// A fixed text followed by another one.
pub(crate) fn prefixed(prefix: &str, text: &str) -> (r: String)
    ensures
        r@ == prefix@ + text@,
{
    let mut s = prefix.to_owned();
    s.append(text);
    s
}

impl CompileError {
    /// The text of `message`.
    pub open spec fn text(self) -> Seq<char> {
        match self {
            CompileError::Wasm(_) => "WebAssembly translation error"@,
            CompileError::Codegen(message) => "Compilation error: "@ + message@,
            CompileError::DebugInfoNotSupported =>
                "Debug info is not supported with this configuration"@,
        }
    }

    /// What went wrong, in words.
    pub fn message(&self) -> (r: String)
        ensures
            r@ == self.text(),
    {
        match self {
            CompileError::Wasm(_) => "WebAssembly translation error".to_owned(),
            CompileError::Codegen(message) => prefixed("Compilation error: ", message.as_str()),
            CompileError::DebugInfoNotSupported => {
                "Debug info is not supported with this configuration".to_owned()
            },
        }
    }
}

impl InstantiationError {
    /// The text of `message`.
    pub open spec fn text(self) -> Seq<char> {
        match self {
            InstantiationError::Resource(message) => "Insufficient resources: "@ + message@,
            InstantiationError::Link(_) => "Failed to link module"@,
            InstantiationError::Trap(_) => "Trap occurred during instantiation"@,
        }
    }

    /// What went wrong, in words.
    pub fn message(&self) -> (r: String)
        ensures
            r@ == self.text(),
    {
        match self {
            InstantiationError::Resource(message) => prefixed(
                "Insufficient resources: ",
                message.as_str(),
            ),
            InstantiationError::Link(_) => "Failed to link module".to_owned(),
            InstantiationError::Trap(_) => "Trap occurred during instantiation".to_owned(),
        }
    }
}

/// The contents of an error tell its kind, and all that it says.
pub proof fn law_contents_tell_errors_apart(first: WasmError, second: WasmError)
    requires
        first@ == second@,
    ensures
        match (first, second) {
            (
                WasmError::InvalidWebAssembly { message, offset },
                WasmError::InvalidWebAssembly { message: other, offset: place },
            ) => message@ == other@ && offset == place,
            (WasmError::Unsupported(message), WasmError::Unsupported(other)) => message@ == other@,
            (WasmError::ImplLimitExceeded, WasmError::ImplLimitExceeded) => true,
            (WasmError::User(message), WasmError::User(other)) => message@ == other@,
            _ => false,
        },
{
}

/// A compilation error says of what kind it is, and then all that the compiler said.
pub proof fn law_compile_error_is_told_in_full(error: CompileError, r: String)
    requires
        call_ensures(CompileError::message, (&error,), r),
    ensures
        match error {
            CompileError::Wasm(_) => r@ == "WebAssembly translation error"@,
            CompileError::Codegen(message) => {
                &&& "Compilation error: "@.is_prefix_of(r@)
                &&& r@.skip("Compilation error: "@.len() as int) == message@
            },
            CompileError::DebugInfoNotSupported => r@
                == "Debug info is not supported with this configuration"@,
        },
{
    if let CompileError::Codegen(message) = error {
        assert(r@.skip("Compilation error: "@.len() as int) =~= message@);
    }
}

/// An instantiation error says of what kind it is, and then all that is known of the resource.
pub proof fn law_instantiation_error_is_told_in_full(error: InstantiationError, r: String)
    requires
        call_ensures(InstantiationError::message, (&error,), r),
    ensures
        match error {
            InstantiationError::Resource(message) => {
                &&& "Insufficient resources: "@.is_prefix_of(r@)
                &&& r@.skip("Insufficient resources: "@.len() as int) == message@
            },
            InstantiationError::Link(_) => r@ == "Failed to link module"@,
            InstantiationError::Trap(_) => r@ == "Trap occurred during instantiation"@,
        },
{
    if let InstantiationError::Resource(message) = error {
        assert(r@.skip("Insufficient resources: "@.len() as int) =~= message@);
    }
}

} // verus!
