use vstd::prelude::*;
use crate::engine::{
    CodegenBackend, CompileError, InvokeError, LinkError, compile, has_unsatisfied, instantiate, invoke,
    wasm_interface,
};
use crate::registry::ImportTable;

verus! {

/// Largest region, in bytes, that the boundary copies in from an untrusted caller.
pub const MAX_REQUEST_LEN: usize = 65536;

/// The only value that leaves the enclave through the boundary.
#[derive(Debug, PartialEq, Eq, Clone, Copy, Structural)]
pub enum StatusCode {
    Success,
    InvalidInput,
    InternalFailure,
}

#[derive(Debug, PartialEq, Eq, Clone, Copy, Structural)]
pub enum ValidationError {
    NullPointer,
    Oversized,
    LengthMismatch,
}

/// What went wrong inside the enclave while serving one request.
pub enum GateError {
    Validation(ValidationError),
    Decode,
    Compile(CompileError),
    Link(LinkError),
    Invoke(InvokeError),
}

/// Whether a caller-supplied (pointer, length) pair may be turned into a view at all: the pointer
/// is not null and the length is within the ceiling. Nothing is read to decide this.
pub fn region_admissible(is_null: bool, buffer_len: usize) -> (r: bool)
    ensures
        r == (!is_null && buffer_len <= MAX_REQUEST_LEN),
{
    !is_null && buffer_len <= MAX_REQUEST_LEN
}

/// The outcome of validating an untrusted region; `None` stands for a null pointer.
pub open spec fn validation_spec(buffer: Option<Seq<u8>>, buffer_len: usize) -> Result<(), ValidationError> {
    match buffer {
        None => Err(ValidationError::NullPointer),
        Some(b) => if buffer_len > MAX_REQUEST_LEN {
            Err(ValidationError::Oversized)
        } else if b.len() != buffer_len {
            Err(ValidationError::LengthMismatch)
        } else {
            Ok(())
        },
    }
}

pub open spec fn view_of(buffer: Option<&[u8]>) -> Option<Seq<u8>> {
    match buffer {
        None => None,
        Some(b) => Some(b@),
    }
}

pub fn validate_region(buffer: Option<&[u8]>, buffer_len: usize) -> (r: Result<(), ValidationError>)
    ensures
        r == validation_spec(view_of(buffer), buffer_len),
{
    match buffer {
        None => Err(ValidationError::NullPointer),
        Some(b) => if buffer_len > MAX_REQUEST_LEN {
            Err(ValidationError::Oversized)
        } else if b.len() != buffer_len {
            Err(ValidationError::LengthMismatch)
        } else {
            Ok(())
        },
    }
}

/// An owned copy, inside the enclave, of bytes that passed validation.
pub struct EnclaveBuffer {
    bytes: Vec<u8>,
}

impl EnclaveBuffer {
    pub closed spec fn view(&self) -> Seq<u8> {
        self.bytes@
    }

    /// Copies `view` byte by byte; nothing of the caller's region is kept.
    pub fn copy_from(view: &[u8]) -> (r: EnclaveBuffer)
        ensures
            r@ == view@,
    {
        let mut bytes: Vec<u8> = Vec::with_capacity(view.len());
        let mut i: usize = 0;
        while i < view.len()
            invariant
                i <= view@.len(),
                bytes@ == view@.subrange(0, i as int),
            decreases view@.len() - i,
        {
            bytes.push(view[i]);
            i = i + 1;
            assert(bytes@ =~= view@.subrange(0, i as int));
        }
        assert(bytes@ =~= view@);
        EnclaveBuffer { bytes }
    }

    pub fn as_slice(&self) -> (r: &[u8])
        ensures
            r@ == self@,
    {
        self.bytes.as_slice()
    }
}

/// The text that `bytes` encode in UTF-8, or `None` where they are not valid UTF-8.
pub uninterp spec fn utf8_text(bytes: Seq<u8>) -> Option<Seq<char>>;

/// Whether every byte is an ASCII character.
pub open spec fn all_ascii(bytes: Seq<u8>) -> bool {
    forall|i: int| 0 <= i < bytes.len() ==> bytes[i] < 128
}

/// The characters of ASCII bytes, one for each byte.
pub open spec fn ascii_chars(bytes: Seq<u8>) -> Seq<char> {
    bytes.map_values(|b: u8| b as char)
}

/// Relies on `std::str::from_utf8`: the text the bytes encode, or failure on invalid UTF-8.
/// UTF-8 encodes each ASCII character as its own single byte, so ASCII bytes always decode.
#[verifier::external_body]
fn decode_utf8(bytes: &[u8]) -> (r: Option<String>)
    ensures
        r is None <==> utf8_text(bytes@) is None,
        r matches Some(s) ==> utf8_text(bytes@) == Some(s@),
        all_ascii(bytes@) ==> r is Some,
        r matches Some(s) ==> (all_ascii(bytes@) ==> s@ == ascii_chars(bytes@)),
{
    std::str::from_utf8(bytes).ok().map(|s| s.to_string())
}

/// The enclave-resident text that follows every received message.
pub open spec fn greeting() -> Seq<char> {
    " This is a in-Enclave Rust string!"@
}

/// The received text followed by the enclave's own greeting.
pub fn compose_message(received: &str) -> (r: String)
    ensures
        r@ == received@ + greeting(),
{
    let mut message = received.to_owned();
    message.append(" This is a in-Enclave Rust string!");
    message
}

/// The message that a request produces, or why it was refused.
pub open spec fn request_spec(buffer: Option<Seq<u8>>, buffer_len: usize) -> Result<Seq<char>, ()> {
    match validation_spec(buffer, buffer_len) {
        Err(_) => Err(()),
        Ok(_) => match utf8_text(buffer.unwrap()) {
            None => Err(()),
            Some(t) => Ok(t + greeting()),
        },
    }
}

/// Validates the region, copies it into the enclave, decodes it and composes the reply message.
pub fn handle_request(buffer: Option<&[u8]>, buffer_len: usize) -> (r: Result<String, GateError>)
    ensures
        validation_spec(view_of(buffer), buffer_len) matches Err(e) ==> r matches Err(GateError::Validation(e2)) && e2 == e,
        validation_spec(view_of(buffer), buffer_len) is Ok && utf8_text(view_of(buffer).unwrap()) is None
            ==> r matches Err(GateError::Decode),
        r matches Ok(m) ==> request_spec(view_of(buffer), buffer_len) == Ok::<Seq<char>, ()>(m@),
        r is Ok <==> request_spec(view_of(buffer), buffer_len) is Ok,
        validation_spec(view_of(buffer), buffer_len) is Ok && all_ascii(view_of(buffer).unwrap())
            ==> (r matches Ok(m) && m@ == ascii_chars(view_of(buffer).unwrap()) + greeting()),
{
    match validate_region(buffer, buffer_len) {
        Err(e) => Err(GateError::Validation(e)),
        Ok(()) => {
            let view = match buffer {
                Some(b) => b,
                None => {
                    return Err(GateError::Validation(ValidationError::NullPointer));
                },
            };
            let owned = EnclaveBuffer::copy_from(view);
            match decode_utf8(owned.as_slice()) {
                None => Err(GateError::Decode),
                Some(text) => Ok(compose_message(text.as_str())),
            }
        },
    }
}

/// The status reported outward for an internal outcome: caller errors are invalid input,
/// everything else that failed is an internal failure.
pub open spec fn status_spec<T>(outcome: Result<T, GateError>) -> StatusCode {
    match outcome {
        Ok(_) => StatusCode::Success,
        Err(GateError::Validation(_)) => StatusCode::InvalidInput,
        Err(GateError::Decode) => StatusCode::InvalidInput,
        Err(_) => StatusCode::InternalFailure,
    }
}

pub fn status_of<T>(outcome: &Result<T, GateError>) -> (r: StatusCode)
    ensures
        r == status_spec(*outcome),
{
    match outcome {
        Ok(_) => StatusCode::Success,
        Err(GateError::Validation(_)) => StatusCode::InvalidInput,
        Err(GateError::Decode) => StatusCode::InvalidInput,
        Err(_) => StatusCode::InternalFailure,
    }
}

/// The boundary entry: one status per call, and no other data, for the region described by
/// `buffer` (`None` for a null pointer) and `buffer_len`.
pub fn process_request(buffer: Option<&[u8]>, buffer_len: usize) -> (r: StatusCode)
    ensures
        r == StatusCode::Success <==> request_spec(view_of(buffer), buffer_len) is Ok,
        r == StatusCode::InvalidInput <==> request_spec(view_of(buffer), buffer_len) is Err,
        validation_spec(view_of(buffer), buffer_len) is Ok && all_ascii(view_of(buffer).unwrap())
            ==> r == StatusCode::Success,
{
    let outcome = handle_request(buffer, buffer_len);
    status_of(&outcome)
}

/// A null pointer, or a length over the ceiling, is refused whatever the region holds, so the
/// boundary answers `InvalidInput` without reading it.
pub proof fn refused_region_is_invalid_input(buffer: Option<Seq<u8>>, buffer_len: usize)
    requires
        buffer is None || buffer_len > MAX_REQUEST_LEN,
    ensures
        validation_spec(buffer, buffer_len) is Err,
        request_spec(buffer, buffer_len) is Err,
{
}

/// Bytes that are not valid UTF-8 end the request with a refusal, not a fault.
pub proof fn undecodable_bytes_are_refused(bytes: Seq<u8>, buffer_len: usize)
    requires
        utf8_text(bytes) is None,
    ensures
        request_spec(Some(bytes), buffer_len) is Err,
{
}

/// What running export `entry` of `source` against bindings `table` is owed from the library's
/// own checks: the source compiles, every import is bound, and `entry` is exported.
pub open spec fn workload_admissible(source: Seq<u8>, table: Seq<(Seq<char>, Seq<char>)>, entry: Seq<char>) -> bool {
    match wasm_interface(source) {
        None => false,
        Some(iface) => !has_unsatisfied(iface.1, table) && iface.0.contains(entry),
    }
}

/// Compiles `source`, links it against `table` in the store of `backend` and calls its export
/// `entry`. Failures of the library's own checks come back as such; what the sandboxed code
/// does when it runs is not known in advance.
pub fn run_module(backend: CodegenBackend, source: &[u8], table: &ImportTable, entry: &str) -> (r: Result<(), GateError>)
    requires
        table.wf(),
    ensures
        wasm_interface(source@) is None ==> r matches Err(GateError::Compile(_)),
        (wasm_interface(source@) matches Some(iface) && has_unsatisfied(iface.1, table.keys_spec()))
            ==> (r matches Err(GateError::Compile(_))
            || r matches Err(GateError::Link(LinkError::UnsatisfiedImport { .. }))),
        (wasm_interface(source@) matches Some(iface) && !has_unsatisfied(iface.1, table.keys_spec())
            && !iface.0.contains(entry@)) ==> (r matches Err(GateError::Compile(_))
            || r matches Err(GateError::Link(LinkError::Rejected { .. }))
            || r matches Err(GateError::Invoke(InvokeError::ExportNotFound))),
        r matches Err(GateError::Link(LinkError::UnsatisfiedImport { .. }))
            ==> (wasm_interface(source@) matches Some(iface) && has_unsatisfied(iface.1, table.keys_spec())),
        r matches Err(GateError::Invoke(InvokeError::ExportNotFound))
            ==> (wasm_interface(source@) matches Some(iface) && !has_unsatisfied(iface.1, table.keys_spec())
            && !iface.0.contains(entry@)),
        r is Ok ==> workload_admissible(source@, table.keys_spec(), entry@),
        r matches Err(e) ==> !(e is Validation) && !(e is Decode),
{
    let module = match compile(&backend, source) {
        Ok(m) => m,
        Err(e) => {
            return Err(GateError::Compile(e));
        },
    };
    let mut instance = match instantiate(backend, &module, table) {
        Ok(i) => i,
        Err(e) => {
            return Err(GateError::Link(e));
        },
    };
    match invoke(&mut instance, entry) {
        Ok(()) => Ok(()),
        Err(e) => Err(GateError::Invoke(e)),
    }
}

/// The boundary entry with a workload: after the request is accepted, the module `source` runs
/// its export `entry`. Caller errors give `InvalidInput`; a workload that fails to compile, link
/// or run gives `InternalFailure`; `Success` means the request was accepted and the workload ran.
pub fn process_request_with_module(
    buffer: Option<&[u8]>,
    buffer_len: usize,
    backend: CodegenBackend,
    source: &[u8],
    table: &ImportTable,
    entry: &str,
) -> (r: StatusCode)
    requires
        table.wf(),
    ensures
        r == StatusCode::InvalidInput <==> request_spec(view_of(buffer), buffer_len) is Err,
        r == StatusCode::Success ==> request_spec(view_of(buffer), buffer_len) is Ok
            && workload_admissible(source@, table.keys_spec(), entry@),
        request_spec(view_of(buffer), buffer_len) is Ok && !workload_admissible(source@, table.keys_spec(), entry@)
            ==> r == StatusCode::InternalFailure,
{
    match handle_request(buffer, buffer_len) {
        Err(e) => status_of(&Err::<(), GateError>(e)),
        Ok(_) => {
            let outcome = run_module(backend, source, table, entry);
            status_of(&outcome)
        },
    }
}

} // verus!
