//! Sandboxed-execution adapter.
//!
//! A compiled module is instantiated with the empty import set — the executed
//! code can be handed no host functions at all, and a module that declares any
//! import fails closed. The instance's fixed entry point `run` is invoked with
//! no arguments; its returned 32-bit integer values are the execution result,
//! and a returned value of any other kind is an error, never truncated.
//!
//! The engine itself (compile, instantiate, invoke) is an outside collaborator
//! reached only through the trusted items below; every decision on what the
//! engine reported is made in verified code.

use vstd::prelude::*;
use crate::msg::ErrorKind;
use crate::values::{all_i32, collect_i32s, unwrap_all};

verus! {

#[verifier::external_type_specification]
#[verifier::external_body]
pub struct ExStore(wasmer::Store);

#[verifier::external_type_specification]
#[verifier::external_body]
pub struct ExModule(wasmer::Module);

#[verifier::external_type_specification]
#[verifier::external_body]
pub struct ExInstance(wasmer::Instance);

#[verifier::external_type_specification]
#[verifier::external_body]
pub struct ExFunction(wasmer::Function);

#[verifier::external_type_specification]
#[verifier::external_body]
pub struct ExImports(wasmer::Imports);

/// Relies on `wasmer::Store::default`: a store with the default engine and
/// compiler, fit to compile and hold modules.
#[verifier::external_body]
pub(crate) fn new_store() -> wasmer::Store {
    wasmer::Store::default()
}

/// Relies on `wasmer::Module::new`: compiles a module from bytes; `Some` on
/// well-formed WebAssembly the engine accepts, `None` on any other bytes.
#[verifier::external_body]
pub(crate) fn compile_module(store: &wasmer::Store, bytes: &Vec<u8>) -> Option<wasmer::Module> {
    wasmer::Module::new(store, bytes.as_slice()).ok()
}

/// Relies on `wasmer::Module::clone`, documented as a shallow copy: the clone
/// shares the same compiled contents, so it is the same module value.
#[verifier::external_body]
pub(crate) fn clone_module(m: &wasmer::Module) -> (r: wasmer::Module)
    ensures
        r == *m,
{
    m.clone()
}

/// Relies on `wasmer::Imports::new`: the empty import set, which offers an
/// instantiated module no host functions at all.
#[verifier::external_body]
pub(crate) fn empty_imports() -> wasmer::Imports {
    wasmer::Imports::new()
}

/// Relies on `wasmer::Instance::new`: instantiates the module against the
/// given imports; `Err` when the module's declared imports are unmet by them,
/// or when its start section traps at instantiation time.
#[verifier::external_body]
pub(crate) fn instantiate(
    store: &mut wasmer::Store,
    module: &wasmer::Module,
    imports: &wasmer::Imports,
) -> Option<wasmer::Instance> {
    wasmer::Instance::new(store, module, imports).ok()
}

/// Relies on `wasmer::Exports::get_function` (through the instance's public
/// `exports` field): `Ok` exactly when the instance exports a function under
/// the given name; and on `wasmer::Function::clone`, a shallow copy of the
/// same exported function.
#[verifier::external_body]
pub(crate) fn exported_function(
    instance: &wasmer::Instance,
    name: &str,
) -> Option<wasmer::Function> {
    instance.exports.get_function(name).ok().cloned()
}

/// What one invocation of an exported function came to.
pub enum CallOutcome {
    /// The call trapped at run time.
    Trapped,
    /// The call returned these values, in call order; each is its 32-bit
    /// integer content, or `None` for a value of any other kind.
    Returned(Vec<Option<i32>>),
}

/// Relies on `wasmer::Function::call` with no arguments: `Ok` carries the
/// returned values in call order, `Err` is a run-time trap; and on
/// `wasmer::Value::i32`, which is `Some` of the content exactly on the 32-bit
/// integer value kind.
#[verifier::external_body]
pub(crate) fn call_function(store: &mut wasmer::Store, f: &wasmer::Function) -> CallOutcome {
    match f.call(store, &[]) {
        Ok(vals) => CallOutcome::Returned(vals.iter().map(|v| v.i32()).collect()),
        Err(_) => CallOutcome::Trapped,
    }
}

/// Why running a compiled module produced no result values.
#[derive(Clone, Copy, PartialEq, Eq, Structural, Debug)]
pub enum ExecError {
    /// The module could not be instantiated: its declared imports are unmet
    /// by the empty import set, or its start section trapped.
    Instantiate,
    /// The instance exports no function under the entry-point name.
    MissingEntry,
    /// The entry point trapped.
    Trapped,
    /// The entry point returned a value that is not a 32-bit integer.
    NonIntegerResult,
}

/// The wire error category of each execution failure: a module that could not
/// even be instantiated is bad code; one that was instantiated but could not
/// be run to a reportable result is a bad run.
pub open spec fn wire_kind(e: ExecError) -> ErrorKind {
    match e {
        ExecError::Instantiate => ErrorKind::BadCode,
        ExecError::MissingEntry => ErrorKind::BadRun,
        ExecError::Trapped => ErrorKind::BadRun,
        ExecError::NonIntegerResult => ErrorKind::BadRun,
    }
}

/// Settles one call outcome: states exactly what is reported for every value
/// the engine can hand back from an invocation.
pub fn settle_call(outcome: CallOutcome) -> (r: Result<Vec<i32>, ExecError>)
    ensures
        match outcome {
            CallOutcome::Trapped => r == Err::<Vec<i32>, ExecError>(ExecError::Trapped),
            CallOutcome::Returned(vals) => if all_i32(vals@) {
                r matches Ok(v) && v@ == unwrap_all(vals@)
            } else {
                r == Err::<Vec<i32>, ExecError>(ExecError::NonIntegerResult)
            },
        },
{
    match outcome {
        CallOutcome::Trapped => Err(ExecError::Trapped),
        CallOutcome::Returned(vals) => match collect_i32s(&vals) {
            Some(v) => Ok(v),
            None => Err(ExecError::NonIntegerResult),
        },
    }
}

/// Runs a compiled module: instantiates it with the empty import set, locates
/// the fixed entry point `run`, invokes it with no arguments, and reports the
/// returned 32-bit values in call order.
///
/// Whether each engine step succeeds is the engine's own decision; what is
/// reported for each call outcome it can hand back is stated exactly by
/// `settle_call`, and each failing step yields its own `ExecError` category.
pub fn run_module(store: &mut wasmer::Store, module: &wasmer::Module) -> Result<Vec<i32>, ExecError> {
    let imports = empty_imports();
    let instance = match instantiate(store, module, &imports) {
        Some(i) => i,
        None => {
            return Err(ExecError::Instantiate);
        },
    };
    let entry = match exported_function(&instance, "run") {
        Some(f) => f,
        None => {
            return Err(ExecError::MissingEntry);
        },
    };
    settle_call(call_function(store, &entry))
}

} // verus!
