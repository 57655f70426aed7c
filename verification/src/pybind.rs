//! The bridge that lets the fuzzing engine treat generators supplied by an
//! embedded Python runtime and native generators uniformly.
//!
//! A [`PythonGenerator`] is a closed tagged union fixed at construction:
//! either one of the two native strategies, dispatched to directly with
//! nothing crossing the runtime boundary, or an opaque foreign object whose
//! `generate` / `generate_dummy` members are invoked under the runtime's
//! global execution lock. The foreign object expects the fuzzing state as a
//! handle it understands; marshalling the state into such a handle is the
//! embedding layer's job, so the foreign-variant entry points here take that
//! handle as an argument.
//!
//! Every failure on the foreign path — lock trouble, a missing member, a
//! non-bytes result — is converted into [`Error::Foreign`], the same error
//! channel native generators use, so callers can apply one uniform
//! retry/report policy.

use vstd::prelude::*;

use crate::errors::Error;
use crate::generators::{Generator, RandBytesGenerator, RandPrintablesGenerator};
use crate::inputs::{BytesInput, Input};
use crate::rands::{HasRand, Rand};
use pyo3::types::PyAny;
use pyo3::Py;

verus! {

#[verifier::external_type_specification]
#[verifier::external_body]
#[verifier::reject_recursive_types(T)]
pub struct ExPy<T>(Py<T>);

#[verifier::external_type_specification]
#[verifier::external_body]
pub struct ExPyAny(PyAny);

/// Relies on pyo3's `Python::attach`, `Py::call_method1` and `Py::extract`:
/// attaches to the embedded runtime — acquiring its global execution lock
/// for exactly the scope of the call, released on every exit path — invokes
/// the member `name` of `obj` with `arg` as the sole argument, and extracts
/// the returned value as a byte vector. What comes back is decided by
/// foreign code, so nothing can be promised of it; any failure is rendered
/// into the error string pyo3 produces for it.
#[verifier::external_body]
fn call_foreign_member(obj: &Py<PyAny>, name: &str, arg: Py<PyAny>) -> (r: Result<Vec<u8>, Error>) {
    pyo3::Python::attach(|py| -> pyo3::PyResult<Vec<u8>> {
        obj.call_method1(py, name, (arg,))?.extract(py)
    }).map_err(|e| Error::Foreign(format!("{}", e)))
}

/// Relies on pyo3's `Py::clone_ref`: returns a new handle to the same
/// Python object, leaving the original untouched.
#[verifier::external_body]
fn clone_foreign(obj: &Py<PyAny>) -> (r: Py<PyAny>)
    ensures
        r == *obj,
{
    pyo3::Python::attach(|py| obj.clone_ref(py))
}

/// A generator implemented by an object living in the embedded Python
/// runtime. The held reference is opaque to this crate; the bridge does not
/// own the object's lifecycle.
pub struct PyObjectGenerator {
    pub inner: Py<PyAny>,
}

impl PyObjectGenerator {
    /// Wraps a foreign object satisfying the two-member generator contract.
    pub fn new(obj: Py<PyAny>) -> (r: Self)
        ensures
            r.inner == obj,
    {
        PyObjectGenerator { inner: obj }
    }

    /// Invokes the foreign object's `generate` member with the marshalled
    /// state handle as its sole argument. The produced bytes are decided by
    /// foreign code, so the contract promises only that the generator
    /// itself is unchanged and that every boundary failure surfaces as
    /// [`Error::Foreign`].
    pub fn generate(&mut self, state_handle: Py<PyAny>) -> (r: Result<BytesInput, Error>)
        ensures
            *final(self) == *old(self),
    {
        match call_foreign_member(&self.inner, "generate", state_handle) {
            Ok(bytes) => Ok(BytesInput::new(bytes)),
            Err(e) => Err(e),
        }
    }

    /// Invokes the foreign object's `generate_dummy` member with the
    /// marshalled state handle as its sole argument.
    pub fn generate_dummy(&self, state_handle: Py<PyAny>) -> (r: Result<BytesInput, Error>) {
        match call_foreign_member(&self.inner, "generate_dummy", state_handle) {
            Ok(bytes) => Ok(BytesInput::new(bytes)),
            Err(e) => Err(e),
        }
    }
}

/// The bridge's closed tagged union: exactly one of the two native
/// strategies, or a foreign-supplied implementation; chosen at construction
/// and never transitioned afterward.
pub enum PythonGeneratorWrapper<S> {
    /// Dispatch directly to an embedded [`RandBytesGenerator`].
    RandBytes(RandBytesGenerator<S>),
    /// Dispatch directly to an embedded [`RandPrintablesGenerator`].
    RandPrintables(RandPrintablesGenerator<S>),
    /// Cross into the embedded Python runtime on every call.
    Python(PyObjectGenerator),
}

/// The dispatcher unifying native and foreign-supplied generators behind
/// one contract.
pub struct PythonGenerator<S> {
    pub wrapper: PythonGeneratorWrapper<S>,
}

impl<S: HasRand> PythonGenerator<S> {
    /// Whether the active variant is the foreign one.
    pub open spec fn is_foreign(&self) -> bool {
        self.wrapper is Python
    }

    /// The held foreign object; meaningful only for the foreign variant.
    pub open spec fn foreign_obj(&self) -> Py<PyAny> {
        self.wrapper->Python_0.inner
    }

    /// The bytes a native variant's `generate` produces from the draw
    /// sequence `f`; meaningful only when the variant is native.
    pub open spec fn gen_bytes(&self, f: Seq<u64>) -> Seq<u8> {
        match self.wrapper {
            PythonGeneratorWrapper::RandBytes(g) => g.gen_bytes(f),
            PythonGeneratorWrapper::RandPrintables(g) => g.gen_bytes(f),
            PythonGeneratorWrapper::Python(_) => Seq::empty(),
        }
    }

    /// The draw sequence a native variant's `generate` leaves behind.
    pub open spec fn gen_rest(&self, f: Seq<u64>) -> Seq<u64> {
        match self.wrapper {
            PythonGeneratorWrapper::RandBytes(g) => g.gen_rest(f),
            PythonGeneratorWrapper::RandPrintables(g) => g.gen_rest(f),
            PythonGeneratorWrapper::Python(_) => f,
        }
    }

    /// The bytes a native variant's `generate_dummy` produces.
    pub open spec fn dummy_bytes(&self) -> Seq<u8> {
        match self.wrapper {
            PythonGeneratorWrapper::RandBytes(g) => g.dummy_bytes(),
            PythonGeneratorWrapper::RandPrintables(g) => g.dummy_bytes(),
            PythonGeneratorWrapper::Python(_) => Seq::empty(),
        }
    }

    /// Wraps a native random-bytes generator as a bridge.
    pub fn new_rand_bytes(gen: RandBytesGenerator<S>) -> (r: Self)
        ensures
            r.wrapper == (PythonGeneratorWrapper::RandBytes(gen)),
    {
        PythonGenerator { wrapper: PythonGeneratorWrapper::RandBytes(gen) }
    }

    /// Wraps a native printables generator as a bridge.
    pub fn new_rand_printables(gen: RandPrintablesGenerator<S>) -> (r: Self)
        ensures
            r.wrapper == (PythonGeneratorWrapper::RandPrintables(gen)),
    {
        PythonGenerator { wrapper: PythonGeneratorWrapper::RandPrintables(gen) }
    }

    /// Wraps an opaque foreign object as a bridge.
    pub fn new_py(obj: Py<PyAny>) -> (r: Self)
        ensures
            r.is_foreign(),
            r.foreign_obj() == obj,
    {
        PythonGenerator { wrapper: PythonGeneratorWrapper::Python(PyObjectGenerator::new(obj)) }
    }

    /// Returns a fresh handle to the held foreign object if the active
    /// variant is the foreign one, and nothing otherwise.
    pub fn unwrap_py(&self) -> (r: Option<Py<PyAny>>)
        ensures
            r is Some <==> self.is_foreign(),
            self.is_foreign() ==> r == Some(self.foreign_obj()),
    {
        match &self.wrapper {
            PythonGeneratorWrapper::Python(pyo) => Some(clone_foreign(&pyo.inner)),
            _ => None,
        }
    }

    /// Resolves the active variant and runs `generate` on a native one,
    /// bit-identically to calling that native instance directly. Answers
    /// nothing — with the state untouched — when the variant is foreign:
    /// crossing the boundary needs a state handle only the embedding layer
    /// can marshal, and is done by [`PythonGenerator::generate_foreign`].
    pub fn generate(&mut self, state: &mut S) -> (r: Option<Result<BytesInput, Error>>)
        ensures
            *final(self) == *old(self),
            r is None <==> old(self).is_foreign(),
            old(self).is_foreign() ==> *final(state) == *old(state),
            !old(self).is_foreign() ==> (match r {
                Some(res) => res is Ok && res->Ok_0.bytes_view() == old(self).gen_bytes(
                    old(state).spec_rand().future(),
                ) && final(state).spec_rand().future() == old(self).gen_rest(
                    old(state).spec_rand().future(),
                ),
                None => false,
            }),
    {
        match &mut self.wrapper {
            PythonGeneratorWrapper::RandBytes(g) => Some(g.generate(state)),
            PythonGeneratorWrapper::RandPrintables(g) => Some(g.generate(state)),
            PythonGeneratorWrapper::Python(_) => None,
        }
    }

    /// Resolves the active variant and runs `generate_dummy` on a native
    /// one, bit-identically to calling that native instance directly; the
    /// state is never touched. Answers nothing when the variant is foreign.
    pub fn generate_dummy(&self, state: &mut S) -> (r: Option<BytesInput>)
        ensures
            *final(state) == *old(state),
            r is None <==> self.is_foreign(),
            !self.is_foreign() ==> (match r {
                Some(b) => b.bytes_view() == self.dummy_bytes(),
                None => false,
            }),
    {
        match &self.wrapper {
            PythonGeneratorWrapper::RandBytes(g) => Some(g.generate_dummy(state)),
            PythonGeneratorWrapper::RandPrintables(g) => Some(g.generate_dummy(state)),
            PythonGeneratorWrapper::Python(_) => None,
        }
    }

    /// Crosses into the foreign runtime for `generate`, handing the foreign
    /// object the marshalled state handle.
    pub fn generate_foreign(&mut self, state_handle: Py<PyAny>) -> (r: Result<BytesInput, Error>)
        requires
            old(self).is_foreign(),
        ensures
            *final(self) == *old(self),
    {
        match &mut self.wrapper {
            PythonGeneratorWrapper::Python(g) => g.generate(state_handle),
            _ => unreached(),
        }
    }

    /// Crosses into the foreign runtime for `generate_dummy`, handing the
    /// foreign object the marshalled state handle.
    pub fn generate_dummy_foreign(&self, state_handle: Py<PyAny>) -> (r: Result<BytesInput, Error>)
        requires
            self.is_foreign(),
    {
        match &self.wrapper {
            PythonGeneratorWrapper::Python(g) => g.generate_dummy(state_handle),
            _ => unreached(),
        }
    }
}

/// Bridge transparency: a bridge constructed from a native instance
/// produces — per draw sequence, for `generate`, its leftover draws, and
/// `generate_dummy` alike — exactly what that native instance produces when
/// called directly.
pub proof fn lemma_bridge_transparent<S: HasRand>(
    bytes_gen: RandBytesGenerator<S>,
    printables_gen: RandPrintablesGenerator<S>,
    f: Seq<u64>,
)
    ensures
        (PythonGenerator { wrapper: PythonGeneratorWrapper::RandBytes(bytes_gen) }).gen_bytes(f)
            == bytes_gen.gen_bytes(f),
        (PythonGenerator { wrapper: PythonGeneratorWrapper::RandBytes(bytes_gen) }).gen_rest(f)
            == bytes_gen.gen_rest(f),
        (PythonGenerator { wrapper: PythonGeneratorWrapper::RandBytes(bytes_gen) }).dummy_bytes()
            == bytes_gen.dummy_bytes(),
        (PythonGenerator { wrapper: PythonGeneratorWrapper::RandPrintables(printables_gen) }).gen_bytes(f)
            == printables_gen.gen_bytes(f),
        (PythonGenerator { wrapper: PythonGeneratorWrapper::RandPrintables(printables_gen) }).gen_rest(f)
            == printables_gen.gen_rest(f),
        (PythonGenerator { wrapper: PythonGeneratorWrapper::RandPrintables(printables_gen) }).dummy_bytes()
            == printables_gen.dummy_bytes(),
{
}

} // verus!
