use enclave_wasm::boundary::{
    compose_message, handle_request, process_request, process_request_with_module,
    region_admissible, status_of, validate_region, EnclaveBuffer, GateError, StatusCode,
    ValidationError, MAX_REQUEST_LEN,
};
use enclave_wasm::engine::CodegenBackend;
use enclave_wasm::registry::{ImportRegistry, ImportTable};
use wasmer::Function;

const HELLO_MODULE: &str = r#"
(module
  (type $t (func (param) (result)))
  (import "env" "say_hello" (func $say_hello (type $t)))
  (func $run (type $t) (call $say_hello))
  (export "run" (func $run)))
"#;

fn say_hello() {}

fn hello_table(backend: &mut CodegenBackend) -> ImportTable {
    let mut registry = ImportRegistry::new();
    let f = Function::new_typed(&mut backend.store_mut(), say_hello);
    assert!(registry.register("env", "say_hello", f).is_ok());
    match registry.build() {
        Ok(t) => t,
        Err(_) => panic!("first build must succeed"),
    }
}

#[test]
fn valid_utf8_request_succeeds() {
    let bytes = b"abc";
    assert_eq!(process_request(Some(&bytes[..]), 3), StatusCode::Success);
}

#[test]
fn null_pointer_is_invalid_input() {
    assert_eq!(process_request(None, 3), StatusCode::InvalidInput);
    assert_eq!(process_request(None, 0), StatusCode::InvalidInput);
    assert!(!region_admissible(true, 3));
}

#[test]
fn oversized_length_is_invalid_input() {
    let bytes = vec![b'a'; MAX_REQUEST_LEN + 1];
    assert_eq!(process_request(Some(&bytes[..]), MAX_REQUEST_LEN + 1), StatusCode::InvalidInput);
    assert!(!region_admissible(false, MAX_REQUEST_LEN + 1));
    assert!(!region_admissible(false, usize::MAX));
    assert!(region_admissible(false, MAX_REQUEST_LEN));
}

#[test]
fn largest_admitted_region_succeeds() {
    let bytes = vec![b'x'; MAX_REQUEST_LEN];
    assert_eq!(process_request(Some(&bytes[..]), MAX_REQUEST_LEN), StatusCode::Success);
}

#[test]
fn empty_region_succeeds() {
    let bytes: [u8; 0] = [];
    assert_eq!(process_request(Some(&bytes[..]), 0), StatusCode::Success);
}

#[test]
fn validation_errors_are_distinguished() {
    let bytes = b"abcd";
    assert_eq!(validate_region(None, 4), Err(ValidationError::NullPointer));
    assert_eq!(validate_region(Some(&bytes[..]), MAX_REQUEST_LEN + 1), Err(ValidationError::Oversized));
    assert_eq!(validate_region(Some(&bytes[..]), 3), Err(ValidationError::LengthMismatch));
    assert_eq!(validate_region(Some(&bytes[..]), 4), Ok(()));
}

#[test]
fn invalid_utf8_gives_terminal_status() {
    let bytes = [0xffu8, 0xfe, 0x41];
    assert_eq!(process_request(Some(&bytes[..]), 3), StatusCode::InvalidInput);
    assert!(matches!(handle_request(Some(&bytes[..]), 3), Err(GateError::Decode)));
}

#[test]
fn truncated_multibyte_sequence_is_refused() {
    let bytes = [0xe2u8, 0x82];
    assert_eq!(process_request(Some(&bytes[..]), 2), StatusCode::InvalidInput);
}

#[test]
fn message_appends_enclave_greeting() {
    let bytes = "héllo".as_bytes();
    match handle_request(Some(bytes), bytes.len()) {
        Ok(m) => assert_eq!(m, "héllo This is a in-Enclave Rust string!"),
        Err(_) => panic!("valid request refused"),
    }
    assert_eq!(compose_message(""), " This is a in-Enclave Rust string!");
}

#[test]
fn enclave_buffer_is_exact_copy() {
    let bytes = [1u8, 2, 3, 250];
    let owned = EnclaveBuffer::copy_from(&bytes[..]);
    assert_eq!(owned.as_slice(), &bytes[..]);
}

#[test]
fn status_translation() {
    assert_eq!(status_of(&Ok::<(), GateError>(())), StatusCode::Success);
    assert_eq!(status_of(&Err::<(), GateError>(GateError::Decode)), StatusCode::InvalidInput);
    assert_eq!(
        status_of(&Err::<(), GateError>(GateError::Validation(ValidationError::Oversized))),
        StatusCode::InvalidInput
    );
}

#[test]
fn request_with_module_succeeds() {
    let mut backend = CodegenBackend::cranelift();
    let table = hello_table(&mut backend);
    let bytes = b"abc";
    let r = process_request_with_module(Some(&bytes[..]), 3, backend, HELLO_MODULE.as_bytes(), &table, "run");
    assert_eq!(r, StatusCode::Success);
}

#[test]
fn request_with_broken_module_is_internal_failure() {
    let mut backend = CodegenBackend::cranelift();
    let table = hello_table(&mut backend);
    let bytes = b"abc";
    let r = process_request_with_module(Some(&bytes[..]), 3, backend, b"(module (func", &table, "run");
    assert_eq!(r, StatusCode::InternalFailure);
    let empty = ImportTable::empty();
    let fresh = CodegenBackend::cranelift();
    let r = process_request_with_module(Some(&bytes[..]), 3, fresh, HELLO_MODULE.as_bytes(), &empty, "run");
    assert_eq!(r, StatusCode::InternalFailure);
}

#[test]
fn request_with_missing_export_is_internal_failure() {
    let mut backend = CodegenBackend::cranelift();
    let table = hello_table(&mut backend);
    let bytes = b"abc";
    let r = process_request_with_module(Some(&bytes[..]), 3, backend, HELLO_MODULE.as_bytes(), &table, "start");
    assert_eq!(r, StatusCode::InternalFailure);
}

#[test]
fn request_with_module_still_refuses_bad_input() {
    let mut backend = CodegenBackend::cranelift();
    let table = hello_table(&mut backend);
    let r = process_request_with_module(None, 3, backend, HELLO_MODULE.as_bytes(), &table, "run");
    assert_eq!(r, StatusCode::InvalidInput);
}
