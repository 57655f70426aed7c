use pyo3::types::PyAnyMethods;
use generators::errors::Error;
use generators::generators::{Generator, RandBytesGenerator, RandPrintablesGenerator};
use generators::inputs::BytesInput;
use generators::pybind::PythonGenerator;
use generators::rands::ReplayState;

fn ok_bytes(r: Result<BytesInput, Error>) -> Vec<u8> {
    match r {
        Ok(i) => i.bytes().clone(),
        Err(_) => panic!("a native generator failed"),
    }
}

#[test]
fn bridge_bytes_variant_is_transparent() {
    // A bridge wrapping a native instance produces bit-identical output to
    // calling that instance directly under the same draws.
    let mut state_direct = ReplayState::new(vec![0u64, 200]);
    let mut state_bridged = ReplayState::new(vec![0u64, 200]);
    let mut direct: RandBytesGenerator<ReplayState> = RandBytesGenerator::new(10);
    let mut bridge = PythonGenerator::new_rand_bytes(RandBytesGenerator::new(10));
    let bridged = match bridge.generate(&mut state_bridged) {
        Some(r) => ok_bytes(r),
        None => panic!("a native variant answered as foreign"),
    };
    assert_eq!(bridged, ok_bytes(direct.generate(&mut state_direct)));
    assert_eq!(bridged, vec![200u8]);
}

#[test]
fn bridge_printables_variant_is_transparent() {
    let mut state_direct = ReplayState::new(vec![2u64, 36, 100]);
    let mut state_bridged = ReplayState::new(vec![2u64, 36, 100]);
    let mut direct: RandPrintablesGenerator<ReplayState> = RandPrintablesGenerator::new(9);
    let mut bridge = PythonGenerator::new_rand_printables(RandPrintablesGenerator::new(9));
    let bridged = match bridge.generate(&mut state_bridged) {
        Some(r) => ok_bytes(r),
        None => panic!("a native variant answered as foreign"),
    };
    assert_eq!(bridged, ok_bytes(direct.generate(&mut state_direct)));
}

#[test]
fn bridge_dummy_is_transparent_and_leaves_state_alone() {
    let mut state = ReplayState::new(vec![3u64, 4, 5]);
    let direct: RandBytesGenerator<ReplayState> = RandBytesGenerator::new(6);
    let bridge = PythonGenerator::new_rand_bytes(RandBytesGenerator::new(6));
    let bridged = match bridge.generate_dummy(&mut state) {
        Some(i) => i.bytes().clone(),
        None => panic!("a native variant answered as foreign"),
    };
    assert_eq!(bridged, *direct.generate_dummy(&mut state).bytes());
    assert_eq!(bridged, vec![0u8; 6]);
}

#[test]
fn bridge_native_variant_unwraps_to_nothing() {
    let bridge: PythonGenerator<ReplayState> =
        PythonGenerator::new_rand_bytes(RandBytesGenerator::new(4));
    assert!(bridge.unwrap_py().is_none());
}

#[test]
fn bridge_foreign_variant_unwraps_to_same_object() {
    pyo3::Python::initialize();
    let obj: pyo3::Py<pyo3::types::PyAny> = pyo3::Python::attach(|py| py.None());
    let probe = pyo3::Python::attach(|py| obj.clone_ref(py));
    let bridge: PythonGenerator<ReplayState> = PythonGenerator::new_py(obj);
    match bridge.unwrap_py() {
        Some(handle) => assert!(handle.is(&probe)),
        None => panic!("a foreign variant unwrapped to nothing"),
    }
}

#[test]
fn bridge_foreign_variant_defers_native_dispatch() {
    pyo3::Python::initialize();
    let obj: pyo3::Py<pyo3::types::PyAny> = pyo3::Python::attach(|py| py.None());
    let mut bridge: PythonGenerator<ReplayState> = PythonGenerator::new_py(obj);
    let mut state = ReplayState::new(vec![1u64]);
    assert!(bridge.generate(&mut state).is_none());
    assert!(bridge.generate_dummy(&mut state).is_none());
}

#[test]
fn bridge_foreign_call_reaches_python_code() {
    pyo3::Python::initialize();
    let obj: pyo3::Py<pyo3::types::PyAny> = pyo3::Python::attach(|py| {
        let module = pyo3::types::PyModule::from_code(
            py,
            c"class EchoGenerator:\n    def generate(self, state):\n        return b'xy'\n    def generate_dummy(self, state):\n        return b'z'\n",
            c"echo_generator.py",
            c"echo_generator",
        )
        .expect("the module should compile");
        module
            .getattr("EchoGenerator")
            .expect("the class should exist")
            .call0()
            .expect("the class should instantiate")
            .unbind()
    });
    let mut bridge: PythonGenerator<ReplayState> = PythonGenerator::new_py(obj);
    let handle = pyo3::Python::attach(|py| py.None());
    match bridge.generate_foreign(handle) {
        Ok(i) => assert_eq!(*i.bytes(), vec![120u8, 121]),
        Err(_) => panic!("the foreign generate call failed"),
    }
    let dummy_handle = pyo3::Python::attach(|py| py.None());
    match bridge.generate_dummy_foreign(dummy_handle) {
        Ok(i) => assert_eq!(*i.bytes(), vec![122u8]),
        Err(_) => panic!("the foreign generate_dummy call failed"),
    }
}

#[test]
fn bridge_foreign_failure_surfaces_as_foreign_error() {
    // Invoking a member that the foreign object lacks comes back through
    // the uniform error channel, not as an abort.
    pyo3::Python::initialize();
    let obj: pyo3::Py<pyo3::types::PyAny> = pyo3::Python::attach(|py| py.None());
    let mut bridge: PythonGenerator<ReplayState> = PythonGenerator::new_py(obj);
    let handle = pyo3::Python::attach(|py| py.None());
    match bridge.generate_foreign(handle) {
        Err(Error::Foreign(msg)) => assert!(!msg.is_empty()),
        Ok(_) => panic!("calling generate on None should fail"),
    }
}

#[test]
fn py_object_generator_calls_through_directly() {
    pyo3::Python::initialize();
    let obj: pyo3::Py<pyo3::types::PyAny> = pyo3::Python::attach(|py| {
        let module = pyo3::types::PyModule::from_code(
            py,
            c"class FixedGenerator:\n    def generate(self, state):\n        return bytes([7, 8, 9])\n    def generate_dummy(self, state):\n        return b''\n",
            c"fixed_generator.py",
            c"fixed_generator",
        )
        .expect("the module should compile");
        module
            .getattr("FixedGenerator")
            .expect("the class should exist")
            .call0()
            .expect("the class should instantiate")
            .unbind()
    });
    let mut foreign = generators::pybind::PyObjectGenerator::new(obj);
    let handle = pyo3::Python::attach(|py| py.None());
    match foreign.generate(handle) {
        Ok(i) => assert_eq!(*i.bytes(), vec![7u8, 8, 9]),
        Err(_) => panic!("the foreign generate call failed"),
    }
    let dummy_handle = pyo3::Python::attach(|py| py.None());
    match foreign.generate_dummy(dummy_handle) {
        Ok(i) => assert_eq!(i.bytes().len(), 0),
        Err(_) => panic!("the foreign generate_dummy call failed"),
    }
}
