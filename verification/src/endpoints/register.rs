//! Registering an uploaded program under a fresh identifier.

use crate::common::{zkVMInstance, zkVMVendor, AppState, ProgramID};
use crate::status::StatusCode;
use base64::engine::general_purpose::STANDARD;
use base64::{DecodeError, Engine};
use uuid::Uuid;
use vstd::prelude::*;

verus! {

#[verifier::external_type_specification]
#[verifier::external_body]
pub struct ExDecodeError(DecodeError);

/// The bytes that the standard base64 alphabet with padding decodes `text`
/// to, or `None` where `text` is no such encoding.
pub uninterp spec fn base64_standard_decoded(text: Seq<char>) -> Option<Seq<u8>>;

/// Calls `Engine::decode` on `base64::engine::general_purpose::STANDARD`,
/// which decodes the whole text or reports the first fault it finds. The
/// contract names the decoded bytes and says that an error is returned
/// exactly where there are none.
#[verifier::external_body]
fn base64_decode(text: &str) -> (res: Result<Vec<u8>, DecodeError>)
    ensures
        match res {
            Ok(bytes) => base64_standard_decoded(text@) == Some(bytes@),
            Err(_) => base64_standard_decoded(text@).is_none(),
        },
{
    STANDARD.decode(text)
}

/// Calls the `Display` implementation of `base64::DecodeError`, which
/// describes the fault in words. Nothing is claimed of the text.
#[verifier::external_body]
fn decode_error_text(fault: &DecodeError) -> String {
    fault.to_string()
}

/// Whether `c` is a lower-case hexadecimal digit.
pub open spec fn is_lower_hex(c: char) -> bool {
    ('0' <= c && c <= '9') || ('a' <= c && c <= 'f')
}

/// Whether `text` has the hyphenated form of a UUID: 36 characters, hyphens
/// after the 8th, 12th, 16th and 20th digit, lower-case hexadecimal digits
/// everywhere else.
pub open spec fn is_hyphenated_uuid(text: Seq<char>) -> bool {
    &&& text.len() == 36
    &&& forall|i: int|
        0 <= i < 36 ==> if i == 8 || i == 13 || i == 18 || i == 23 {
            #[trigger] text[i] == '-'
        } else {
            is_lower_hex(text[i])
        }
}

/// Calls `Uuid::new_v4` and formats the result with the `Display`
/// implementation of `Uuid`. The identifier is random; the contract states
/// only its hyphenated lower-case form. `new_v4` panics where the operating
/// system cannot supply random bytes.
#[verifier::external_body]
fn random_uuid_text() -> (res: String)
    ensures
        is_hyphenated_uuid(res@),
{
    Uuid::new_v4().to_string()
}

/// A request to register an uploaded program.
#[derive(Debug)]
pub struct RegisterProgramRequest {
    pub program_name: String,
    pub zkvm: zkVMVendor,
    /// The program's ELF file, base64-encoded.
    pub elf_file: String,
    /// The version of the compiler that produced the ELF file.
    pub compiler_version: String,
}

/// The identifier given to a newly registered program.
#[derive(Debug)]
pub struct RegisterProgramResponse {
    pub program_id: String,
    pub status: String,
}

/// A step of storing an uploaded program that can fail outside the gateway.
#[derive(Debug, Clone, Copy, PartialEq, Eq, Structural)]
pub enum StorageStep {
    CreateDirectory,
    WriteElf,
    WriteCompilerVersion,
}

impl StorageStep {
    /// The text that precedes the fault's description when the step fails.
    pub open spec fn failure_context(self) -> Seq<char> {
        match self {
            StorageStep::CreateDirectory => "Failed to create program directory: "@,
            StorageStep::WriteElf => "Failed to write ELF file: "@,
            StorageStep::WriteCompilerVersion => "Failed to write compiler version: "@,
        }
    }
}

/// The text that precedes the decoder's description of a fault in the ELF encoding.
pub open spec fn invalid_base64_context() -> Seq<char> {
    "Invalid base64 encoding: "@
}

/// The status line of a successful registration.
pub open spec fn registration_status(vendor: zkVMVendor, compiler_version: Seq<char>) -> Seq<char> {
    "registered with "@ + vendor.name() + " (compiler version: "@ + compiler_version + ")"@
}

/// `res` is a bad-request failure whose message is the base64 context
/// followed by some description of the fault.
pub open spec fn is_invalid_base64<T>(res: Result<T, (StatusCode, String)>) -> bool {
    res matches Err((status, message)) && status == StatusCode::BadRequest && exists|
        detail: Seq<char>,
    |
        message@ == #[trigger] (invalid_base64_context() + detail)
}

/// The failure reported when a step of storing an uploaded program fails
/// with the description `detail`.
pub fn storage_failure(step: StorageStep, detail: &str) -> (res: (StatusCode, String))
    ensures
        res.0 == StatusCode::InternalServerError,
        res.1@ == step.failure_context() + detail@,
{
    let mut message = match step {
        StorageStep::CreateDirectory => "Failed to create program directory: ".to_string(),
        StorageStep::WriteElf => "Failed to write ELF file: ".to_string(),
        StorageStep::WriteCompilerVersion => "Failed to write compiler version: ".to_string(),
    };
    message.append(detail);
    (StatusCode::InternalServerError, message)
}

/// The failure reported for an ELF encoding that the decoder describes as `detail`.
pub fn invalid_base64(detail: &str) -> (res: (StatusCode, String))
    ensures
        res.0 == StatusCode::BadRequest,
        res.1@ == invalid_base64_context() + detail@,
{
    let mut message = "Invalid base64 encoding: ".to_string();
    message.append(detail);
    (StatusCode::BadRequest, message)
}

/// Turns what the decoder returned into the ELF bytes or a bad-request failure.
pub fn elf_from_decoded(decoded: Result<Vec<u8>, DecodeError>) -> (res: Result<
    Vec<u8>,
    (StatusCode, String),
>)
    ensures
        match decoded {
            Ok(bytes) => res matches Ok(elf) && elf@ == bytes@,
            Err(_) => is_invalid_base64(res),
        },
{
    match decoded {
        Ok(bytes) => Ok(bytes),
        Err(fault) => {
            let detail = decode_error_text(&fault);
            Err(invalid_base64(detail.as_str()))
        },
    }
}

/// Decodes the base64 text of an uploaded ELF file.
pub fn decode_elf(elf_file: &str) -> (res: Result<Vec<u8>, (StatusCode, String)>)
    ensures
        match base64_standard_decoded(elf_file@) {
            Some(bytes) => res matches Ok(elf) && elf@ == bytes,
            None => is_invalid_base64(res),
        },
{
    elf_from_decoded(base64_decode(elf_file))
}

/// A fresh identifier for an uploaded program.
pub fn generate_program_id() -> (res: ProgramID)
    ensures
        is_hyphenated_uuid(res@),
{
    ProgramID(random_uuid_text())
}

/// Enters a stored program into the registry under `program_id`, replacing
/// the entry that the identifier had, and reports the registration.
pub fn complete_registration<E>(
    state: &mut AppState<E>,
    program_id: ProgramID,
    vendor: zkVMVendor,
    compiler_version: &str,
    vm: E,
) -> (res: RegisterProgramResponse)
    ensures
        final(state)@ == old(state)@.insert(program_id@, zkVMInstance { vendor, vm }),
        res.program_id@ == program_id@,
        res.status@ == registration_status(vendor, compiler_version@),
{
    let mut status = "registered with ".to_string();
    status.append(vendor.to_string().as_str());
    status.append(" (compiler version: ");
    status.append(compiler_version);
    status.append(")");
    let id = program_id.0.clone();
    state.register(program_id, vendor, vm);
    RegisterProgramResponse { program_id: id, status }
}

/// `res` and `after` are what registering `req` with the engine `vm` under
/// `program_id` gives from the registry `before`: a request whose ELF file is
/// not valid base64 is refused and leaves the registry as it was; any other
/// request enters the program and is answered with its identifier.
pub open spec fn registered_as<E>(
    before: Map<Seq<char>, zkVMInstance<E>>,
    after: Map<Seq<char>, zkVMInstance<E>>,
    program_id: Seq<char>,
    req: RegisterProgramRequest,
    vm: E,
    res: Result<RegisterProgramResponse, (StatusCode, String)>,
) -> bool {
    if base64_standard_decoded(req.elf_file@).is_none() {
        is_invalid_base64(res) && after == before
    } else {
        &&& res matches Ok(response)
        &&& response.program_id@ == program_id
        &&& response.status@ == registration_status(req.zkvm, req.compiler_version@)
        &&& after == before.insert(program_id, zkVMInstance { vendor: req.zkvm, vm })
    }
}

/// Registers an uploaded program under an identifier that the caller chose.
pub fn register_program_as<E>(
    state: &mut AppState<E>,
    program_id: ProgramID,
    req: RegisterProgramRequest,
    vm: E,
) -> (res: Result<RegisterProgramResponse, (StatusCode, String)>)
    ensures
        registered_as(old(state)@, final(state)@, program_id@, req, vm, res),
{
    match decode_elf(req.elf_file.as_str()) {
        Err(failure) => Err(failure),
        Ok(_) => Ok(
            complete_registration(state, program_id, req.zkvm, req.compiler_version.as_str(), vm),
        ),
    }
}

/// Registers an uploaded program under a fresh identifier, which the
/// response names.
pub fn register_program<E>(state: &mut AppState<E>, req: RegisterProgramRequest, vm: E) -> (res:
    Result<RegisterProgramResponse, (StatusCode, String)>)
    ensures
        exists|program_id: Seq<char>|
            is_hyphenated_uuid(program_id) && #[trigger] registered_as(
                old(state)@,
                final(state)@,
                program_id,
                req,
                vm,
                res,
            ),
{
    let program_id = generate_program_id();
    register_program_as(state, program_id, req, vm)
}

} // verus!
