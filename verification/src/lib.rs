//! Safe, verified model of a COM-style binding layer for a native shader
//! compiler: sign-coded result values, 128-bit capability identifiers,
//! reference-counted interface handles, ABI transfer descriptors, and a
//! read-only reflection facade with index/count iteration.

use vstd::prelude::*;

pub mod abi;
pub mod desc;
pub mod host;
pub mod reflection;
pub mod uuid;

pub use abi::SlangArchiveType as ArchiveType;
pub use abi::SlangCapabilityID as CapabilityID;
pub use abi::SlangCompileTarget as CompileTarget;
pub use abi::SlangDeclKind as DeclKind;
pub use abi::SlangFloatingPointMode as FloatingPointMode;
pub use abi::SlangImageFormat as ImageFormat;
pub use abi::SlangLayoutRules as LayoutRules;
pub use abi::SlangLineDirectiveMode as LineDirectiveMode;
pub use abi::SlangMatrixLayoutMode as MatrixLayoutMode;
pub use abi::SlangModifierID as ModifierID;
pub use abi::SlangPassThrough as PassThrough;
pub use abi::SlangProfileID as ProfileID;
pub use abi::SlangResourceAccess as ResourceAccess;
pub use abi::SlangResourceShape as ResourceShape;
pub use abi::SlangSourceLanguage as SourceLanguage;
pub use abi::SlangStage as Stage;
pub use abi::SlangTargetFlags as TargetFlags;
pub use desc::BuiltinModuleName;
pub use desc::CompilerOptionEntry;
pub use desc::CompilerOptionName;
pub use desc::CompilerOptionValue;
pub use desc::CompilerOptionValueKind;
pub use desc::ContainerType;
pub use desc::PreprocessorMacroDesc;
pub use desc::SessionDesc;
pub use desc::SessionFlags;
pub use desc::SlangGlobalSessionDesc;
pub use desc::SlangGlobalSessionDesc as GlobalSessionDesc;
pub use desc::SpecializationArg;
pub use desc::SpecializationArgKind;
pub use desc::SpecializationArgValue;
pub use desc::TargetDesc;
pub use desc::SESSION_FLAGS_NONE;
pub use host::Handle;
pub use host::Host;
pub use host::HostObject;
pub use host::SLANG_E_NO_INTERFACE;
pub use uuid::SlangUUID;

verus! {

/// Signed result code forwarded verbatim from the native boundary.
/// A negative value signals failure; a non-negative value signals success.
pub type SlangResult = i32;

/// Holds exactly when a result code signals success.
pub open spec fn code_succeeded(r: SlangResult) -> bool {
    r >= 0
}

/// Failure code returned when a query asks for an argument or value that is
/// not there or not of the requested classification: the "invalid argument"
/// result, a negative value.
pub const SLANG_E_INVALID_ARG: SlangResult = -2147024809;

/// Splits a raw result code along the sign convention: non-negative codes
/// are successes and carry through as `Ok`, negative codes as `Err`.
pub fn rw(r: SlangResult) -> (res: Result<SlangResult, SlangResult>)
    ensures
        code_succeeded(r) ==> res == Result::<SlangResult, SlangResult>::Ok(r),
        !code_succeeded(r) ==> res == Result::<SlangResult, SlangResult>::Err(r),
{
    if r >= 0 { Ok(r) } else { Err(r) }
}

/// Bootstraps the binding layer: allocates the compiler's root factory
/// object and hands back the one owned handle on it. The description's size
/// and version fields are how the library detects a version skew: a
/// description with the agreed byte size and ABI version yields a fresh
/// global-session object with a single reference; any other description is
/// rejected with a negative code and allocates nothing.
pub fn create_global_session(host: &mut host::Host, desc: &SlangGlobalSessionDesc) -> (r: Result<
    host::Handle,
    SlangResult,
>)
    ensures
        desc.structure_size == desc::SLANG_GLOBAL_SESSION_DESC_SIZE && desc.api_version
            == abi::SLANG_API_VERSION ==> {
            &&& r matches Ok(h)
            &&& h.obj == old(host).objects@.len()
            &&& final(host).objects@.len() == old(host).objects@.len() + 1
            &&& final(host).objects@.subrange(0, old(host).objects@.len() as int) == old(
                host,
            ).objects@
            &&& final(host).objects@[h.obj as int].ref_count == 1
            &&& final(host).objects@[h.obj as int].spec_supports(uuid::spec_unknown_iid())
            &&& final(host).objects@[h.obj as int].spec_supports(uuid::spec_global_session_iid())
        },
        !(desc.structure_size == desc::SLANG_GLOBAL_SESSION_DESC_SIZE && desc.api_version
            == abi::SLANG_API_VERSION) ==> {
            &&& r matches Err(code) && code < 0
            &&& *final(host) == *old(host)
        },
{
    if desc.structure_size == desc::SLANG_GLOBAL_SESSION_DESC_SIZE && desc.api_version
        == abi::SLANG_API_VERSION {
        let supported = vec![uuid::unknown_iid(), uuid::global_session_iid()];
        proof {
            assert(supported@[0] == uuid::spec_unknown_iid());
            assert(supported@[1] == uuid::spec_global_session_iid());
        }
        let h = host.create_object(supported, Vec::new());
        Ok(h)
    } else {
        Err(SLANG_E_INVALID_ARG)
    }
}

} // verus!
