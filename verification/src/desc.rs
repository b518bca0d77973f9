//! Transfer descriptors of the native ABI: the structs handed across the
//! boundary when sessions and targets are created, the compiler-option
//! tables, and specialization arguments. Each descriptor that carries its
//! own byte size seeds it with the ABI-agreed value, so that the native
//! library can detect a version skew; emptiness of the pointer-and-count
//! pairs of the C structs is represented here by an empty list, never by a
//! dangling address.

use vstd::prelude::*;

use crate::abi::SlangCompileTarget;
use crate::abi::SlangFloatingPointMode;
use crate::abi::SlangLineDirectiveMode;
use crate::abi::SlangMatrixLayoutMode;
use crate::abi::SlangProfileID;
use crate::abi::SlangTargetFlags;
use crate::abi::SLANG_API_VERSION;
use crate::abi::SLANG_FLOATING_POINT_MODE_DEFAULT;
use crate::abi::SLANG_LANGUAGE_VERSION_2025;
use crate::abi::SLANG_LINE_DIRECTIVE_MODE_DEFAULT;
use crate::abi::SLANG_MATRIX_LAYOUT_ROW_MAJOR;
use crate::abi::SLANG_PROFILE_UNKNOWN;
use crate::abi::SLANG_TARGET_FLAG_GENERATE_SPIRV_DIRECTLY;
use crate::abi::SLANG_TARGET_UNKNOWN;
use crate::host::Handle;
use crate::reflection::types::Type;

verus! {

/// Byte size of the global-session description in the native ABI: three
/// 32-bit words, a boolean padded to word size, and sixteen reserved words.
pub const SLANG_GLOBAL_SESSION_DESC_SIZE: u32 = 80;

/// Byte size of the session description in the native ABI on 64-bit
/// targets: a size word padded to pointer size, four pointer-and-count
/// pairs, two selector words, three booleans, and an option count, with
/// pointer alignment between them.
pub const SLANG_SESSION_DESC_SIZE: u32 = 96;

/// Byte size of the target description in the native ABI on 64-bit targets:
/// a pointer-sized size field, five selector words, a padded boolean, and a
/// pointer-and-count pair.
pub const SLANG_TARGET_DESC_SIZE: usize = 48;

/// Names the builtin module that a save or load request concerns.
#[derive(Debug, Clone, Copy, PartialEq, Eq, Structural)]
pub enum BuiltinModuleName {
    /// The core builtin module.
    Core,
    /// The GLSL compatibility builtin module.
    GLSL,
}

/// Description of a global session: the root object of the compiler.
pub struct SlangGlobalSessionDesc {
    /// Size of this struct in the native ABI, for version-skew detection.
    pub structure_size: u32,
    /// ABI version the caller was built against.
    pub api_version: u32,
    /// The oldest language version any session will use.
    pub min_language_version: u32,
    /// Whether to enable GLSL support.
    pub enable_glsl: bool,
    /// Reserved for future use.
    pub reserved: [u32; 16],
}

impl Default for SlangGlobalSessionDesc {
    /// The neutral description: the size field carries the ABI-agreed byte
    /// size of the struct, the version fields carry the layer's versions,
    /// and GLSL support stays off.
    fn default() -> (r: Self)
        ensures
            r.structure_size == SLANG_GLOBAL_SESSION_DESC_SIZE,
            r.api_version == SLANG_API_VERSION,
            r.min_language_version == SLANG_LANGUAGE_VERSION_2025,
            !r.enable_glsl,
            forall|i: int| 0 <= i < 16 ==> r.reserved@[i] == 0,
    {
        broadcast use vstd::array::group_array_axioms;

        Self {
            structure_size: SLANG_GLOBAL_SESSION_DESC_SIZE,
            api_version: SLANG_API_VERSION,
            min_language_version: SLANG_LANGUAGE_VERSION_2025,
            enable_glsl: false,
            reserved: [0; 16],
        }
    }
}

/// Session flags; no flag is defined at present.
pub type SessionFlags = u32;

pub const SESSION_FLAGS_NONE: SessionFlags = 0;

/// A preprocessor macro a session defines before compiling.
pub struct PreprocessorMacroDesc {
    pub name: String,
    pub value: String,
}

impl PreprocessorMacroDesc {
    /// Builds a macro description from its name and replacement text.
    pub fn new(name: String, value: String) -> (r: Self)
        ensures
            r.name@ == name@,
            r.value@ == value@,
    {
        Self { name, value }
    }
}

/// Whether a compiler-option value carries integers or strings.
#[derive(Debug, Clone, Copy, PartialEq, Eq, Structural)]
pub enum CompilerOptionValueKind {
    /// The two integer slots carry the value.
    Int,
    /// The two string slots carry the value.
    Text,
}

/// The value of one compiler option: two integer slots and two string
/// slots, of which the kind says which carry the value. An absent string is
/// the absent option, never an empty sentinel.
pub struct CompilerOptionValue {
    pub kind: CompilerOptionValueKind,
    pub int_value0: i32,
    pub int_value1: i32,
    pub string_value0: Option<String>,
    pub string_value1: Option<String>,
}

/// One compiler-option setting: which option, and its value.
pub struct CompilerOptionEntry {
    pub name: CompilerOptionName,
    pub value: CompilerOptionValue,
}

/// Description of one compilation target of a session.
pub struct TargetDesc {
    /// Size of this struct in the native ABI, for version-skew detection.
    pub structure_size: usize,
    pub format: SlangCompileTarget,
    pub profile: SlangProfileID,
    pub flags: SlangTargetFlags,
    pub floating_point_mode: SlangFloatingPointMode,
    pub line_directive_mode: SlangLineDirectiveMode,
    pub force_glsl_scalar_buffer_layout: bool,
    pub compiler_option_entries: Vec<CompilerOptionEntry>,
}

impl Default for TargetDesc {
    /// The neutral target: the size field carries the ABI-agreed byte size
    /// of the struct, the format is unknown, and code generation goes to
    /// SPIR-V directly.
    fn default() -> (r: Self)
        ensures
            r.structure_size == SLANG_TARGET_DESC_SIZE,
            r.format == SLANG_TARGET_UNKNOWN,
            r.profile == SLANG_PROFILE_UNKNOWN,
            r.flags == SLANG_TARGET_FLAG_GENERATE_SPIRV_DIRECTLY,
            r.floating_point_mode == SLANG_FLOATING_POINT_MODE_DEFAULT,
            r.line_directive_mode == SLANG_LINE_DIRECTIVE_MODE_DEFAULT,
            !r.force_glsl_scalar_buffer_layout,
            r.compiler_option_entries@.len() == 0,
    {
        Self {
            structure_size: SLANG_TARGET_DESC_SIZE,
            format: SLANG_TARGET_UNKNOWN,
            profile: SLANG_PROFILE_UNKNOWN,
            flags: SLANG_TARGET_FLAG_GENERATE_SPIRV_DIRECTLY,
            floating_point_mode: SLANG_FLOATING_POINT_MODE_DEFAULT,
            line_directive_mode: SLANG_LINE_DIRECTIVE_MODE_DEFAULT,
            force_glsl_scalar_buffer_layout: false,
            compiler_option_entries: Vec::new(),
        }
    }
}

/// Description of a session: its targets, search paths, preprocessor
/// macros, and options. Each list lowers to a pointer-and-count pair in the
/// native ABI; an empty list lowers to a null pointer with a zero count.
pub struct SessionDesc {
    /// Size of this struct in the native ABI, for version-skew detection.
    pub structure_size: u32,
    pub targets: Vec<TargetDesc>,
    pub flags: SessionFlags,
    pub default_matrix_layout_mode: SlangMatrixLayoutMode,
    pub search_paths: Vec<String>,
    pub preprocessor_macros: Vec<PreprocessorMacroDesc>,
    /// The file-system object the session reads from, absent for the
    /// default one.
    pub file_system: Option<Handle>,
    pub enable_effect_annotations: bool,
    pub allow_glsl_syntax: bool,
    pub compiler_option_entries: Vec<CompilerOptionEntry>,
    pub skip_spirv_validation: bool,
}

impl SessionDesc {
    /// How many targets the session compiles for.
    pub fn target_count(&self) -> (r: usize)
        ensures
            r == self.targets@.len(),
    {
        self.targets.len()
    }

    /// How many search paths the session resolves imports against.
    pub fn search_path_count(&self) -> (r: usize)
        ensures
            r == self.search_paths@.len(),
    {
        self.search_paths.len()
    }

    /// How many preprocessor macros the session defines.
    pub fn preprocessor_macro_count(&self) -> (r: usize)
        ensures
            r == self.preprocessor_macros@.len(),
    {
        self.preprocessor_macros.len()
    }

    /// How many compiler options the session sets.
    pub fn compiler_option_entry_count(&self) -> (r: usize)
        ensures
            r == self.compiler_option_entries@.len(),
    {
        self.compiler_option_entries.len()
    }
}

impl Default for SessionDesc {
    /// The neutral session: the size field carries the ABI-agreed byte size
    /// of the struct, every list is empty, matrices are row-major, and the
    /// default file system is used.
    fn default() -> (r: Self)
        ensures
            r.structure_size == SLANG_SESSION_DESC_SIZE,
            r.targets@.len() == 0,
            r.flags == SESSION_FLAGS_NONE,
            r.default_matrix_layout_mode == SLANG_MATRIX_LAYOUT_ROW_MAJOR,
            r.search_paths@.len() == 0,
            r.preprocessor_macros@.len() == 0,
            r.file_system is None,
            !r.enable_effect_annotations,
            !r.allow_glsl_syntax,
            r.compiler_option_entries@.len() == 0,
            !r.skip_spirv_validation,
    {
        Self {
            structure_size: SLANG_SESSION_DESC_SIZE,
            targets: Vec::new(),
            flags: SESSION_FLAGS_NONE,
            default_matrix_layout_mode: SLANG_MATRIX_LAYOUT_ROW_MAJOR,
            search_paths: Vec::new(),
            preprocessor_macros: Vec::new(),
            file_system: None,
            enable_effect_annotations: false,
            allow_glsl_syntax: false,
            compiler_option_entries: Vec::new(),
            skip_spirv_validation: false,
        }
    }
}

/// The container a session wraps around an element type on request.
#[derive(Debug, Clone, Copy, PartialEq, Eq, Structural)]
pub enum ContainerType {
    /// No container: the element type itself.
    Unspecified,
    UnsizedArray,
    StructuredBuffer,
    ConstantBuffer,
    ParameterBlock,
}

/// How one specialization argument is given.
#[derive(Debug, Clone, Copy, PartialEq, Eq, Structural)]
pub enum SpecializationArgKind {
    /// An invalid specialization argument.
    Unknown,
    /// Specialize to a type.
    Type,
    /// An expression standing for a type or a value.
    Expr,
}

/// The payload of one specialization argument.
pub enum SpecializationArgValue {
    /// No payload: an invalid argument.
    Unknown,
    /// A reflected type to specialize to.
    Reflected(Box<Type>),
    /// An expression standing for a type or a value.
    Expr(String),
}

/// One argument of a specialization request: its kind, and the payload the
/// kind announces.
pub struct SpecializationArg {
    pub kind: SpecializationArgKind,
    pub value: SpecializationArgValue,
}

impl SpecializationArg {
    /// Holds when the kind announces what the payload carries.
    pub open spec fn spec_wf(self) -> bool {
        match self.value {
            SpecializationArgValue::Unknown => self.kind == SpecializationArgKind::Unknown,
            SpecializationArgValue::Reflected(_) => self.kind == SpecializationArgKind::Type,
            SpecializationArgValue::Expr(_) => self.kind == SpecializationArgKind::Expr,
        }
    }

    /// A specialization to the given reflected type.
    pub fn from_type(ty: Box<Type>) -> (r: Self)
        ensures
            r.kind == SpecializationArgKind::Type,
            r.value matches SpecializationArgValue::Reflected(t) && t == ty,
            r.spec_wf(),
    {
        Self { kind: SpecializationArgKind::Type, value: SpecializationArgValue::Reflected(ty) }
    }

    /// A specialization to the given expression.
    pub fn from_expr(expr: String) -> (r: Self)
        ensures
            r.kind == SpecializationArgKind::Expr,
            r.value matches SpecializationArgValue::Expr(e) && e@ == expr@,
            r.spec_wf(),
    {
        Self { kind: SpecializationArgKind::Expr, value: SpecializationArgValue::Expr(expr) }
    }
}

/// Every option the compiler accepts, in the order the native ABI numbers
/// them.
#[derive(Debug, Clone, Copy, PartialEq, Eq, Structural)]
pub enum CompilerOptionName {
    MacroDefine,
    DepFile,
    EntryPointName,
    Specialize,
    Help,
    HelpStyle,
    Include,
    Language,
    MatrixLayoutColumn,
    MatrixLayoutRow,
    ZeroInitialize,
    IgnoreCapabilities,
    RestrictiveCapabilityCheck,
    ModuleName,
    Output,
    Profile,
    Stage,
    Target,
    Version,
    WarningsAsErrors,
    DisableWarnings,
    EnableWarning,
    DisableWarning,
    DumpWarningDiagnostics,
    InputFilesRemain,
    EmitIr,
    ReportDownstreamTime,
    ReportPerfBenchmark,
    ReportCheckpointIntermediates,
    SkipSPIRVValidation,
    SourceEmbedStyle,
    SourceEmbedName,
    SourceEmbedLanguage,
    DisableShortCircuit,
    MinimumSlangOptimization,
    DisableNonEssentialValidations,
    DisableSourceMap,
    UnscopedEnum,
    PreserveParameters,
    Capability,
    DefaultImageFormatUnknown,
    DisableDynamicDispatch,
    DisableSpecialization,
    FloatingPointMode,
    DebugInformation,
    LineDirectiveMode,
    Optimization,
    Obfuscate,
    VulkanBindShift,
    VulkanBindGlobals,
    VulkanInvertY,
    VulkanUseDxPositionW,
    VulkanUseEntryPointName,
    VulkanUseGLLayout,
    VulkanEmitReflection,
    GLSLForceScalarLayout,
    EnableEffectAnnotations,
    EmitSpirvViaGLSL,
    EmitSpirvDirectly,
    SPIRVCoreGrammarJSON,
    IncompleteLibrary,
    CompilerPath,
    DefaultDownstreamCompiler,
    DownstreamArgs,
    PassThrough,
    DumpRepro,
    DumpReproOnError,
    ExtractRepro,
    LoadRepro,
    LoadReproDirectory,
    ReproFallbackDirectory,
    DumpAst,
    DumpIntermediatePrefix,
    DumpIntermediates,
    DumpIr,
    DumpIrIds,
    PreprocessorOutput,
    OutputIncludes,
    ReproFileSystem,
    SerialIR,
    SkipCodeGen,
    ValidateIr,
    VerbosePaths,
    VerifyDebugSerialIr,
    NoCodeGen,
    FileSystem,
    Heterogeneous,
    NoMangle,
    NoHLSLBinding,
    NoHLSLPackConstantBufferElements,
    ValidateUniformity,
    AllowGLSL,
    EnableExperimentalPasses,
    BindlessSpaceIndex,
    ArchiveType,
    CompileCoreModule,
    Doc,
    IrCompression,
    LoadCoreModule,
    ReferenceModule,
    SaveCoreModule,
    SaveCoreModuleBinSource,
    TrackLiveness,
    LoopInversion,
    ParameterBlocksUseRegisterSpaces,
    LanguageVersion,
    TypeConformance,
    EnableExperimentalDynamicDispatch,
    EmitReflectionJSON,
    CountOfParsableOptions,
    DebugInformationFormat,
    VulkanBindShiftAll,
    GenerateWholeProgram,
    UseUpToDateBinaryModule,
    EmbedDownstreamIR,
    ForceDXLayout,
    EmitSpirvMethod,
    SaveGLSLModuleBinSource,
    SkipDownstreamLinking,
    DumpModule,
    GetModuleInfo,
    GetSupportedModuleVersions,
    EmitSeparateDebug,
    DenormalModeFp16,
    DenormalModeFp32,
    DenormalModeFp64,
    UseMSVCStyleBitfieldPacking,
    ForceCLayout,
    CountOf,
}

impl CompilerOptionName {
    /// The raw ABI value of this option name.
    pub open spec fn spec_raw(self) -> i32 {
        match self {
            CompilerOptionName::MacroDefine => 0,
            CompilerOptionName::DepFile => 1,
            CompilerOptionName::EntryPointName => 2,
            CompilerOptionName::Specialize => 3,
            CompilerOptionName::Help => 4,
            CompilerOptionName::HelpStyle => 5,
            CompilerOptionName::Include => 6,
            CompilerOptionName::Language => 7,
            CompilerOptionName::MatrixLayoutColumn => 8,
            CompilerOptionName::MatrixLayoutRow => 9,
            CompilerOptionName::ZeroInitialize => 10,
            CompilerOptionName::IgnoreCapabilities => 11,
            CompilerOptionName::RestrictiveCapabilityCheck => 12,
            CompilerOptionName::ModuleName => 13,
            CompilerOptionName::Output => 14,
            CompilerOptionName::Profile => 15,
            CompilerOptionName::Stage => 16,
            CompilerOptionName::Target => 17,
            CompilerOptionName::Version => 18,
            CompilerOptionName::WarningsAsErrors => 19,
            CompilerOptionName::DisableWarnings => 20,
            CompilerOptionName::EnableWarning => 21,
            CompilerOptionName::DisableWarning => 22,
            CompilerOptionName::DumpWarningDiagnostics => 23,
            CompilerOptionName::InputFilesRemain => 24,
            CompilerOptionName::EmitIr => 25,
            CompilerOptionName::ReportDownstreamTime => 26,
            CompilerOptionName::ReportPerfBenchmark => 27,
            CompilerOptionName::ReportCheckpointIntermediates => 28,
            CompilerOptionName::SkipSPIRVValidation => 29,
            CompilerOptionName::SourceEmbedStyle => 30,
            CompilerOptionName::SourceEmbedName => 31,
            CompilerOptionName::SourceEmbedLanguage => 32,
            CompilerOptionName::DisableShortCircuit => 33,
            CompilerOptionName::MinimumSlangOptimization => 34,
            CompilerOptionName::DisableNonEssentialValidations => 35,
            CompilerOptionName::DisableSourceMap => 36,
            CompilerOptionName::UnscopedEnum => 37,
            CompilerOptionName::PreserveParameters => 38,
            CompilerOptionName::Capability => 39,
            CompilerOptionName::DefaultImageFormatUnknown => 40,
            CompilerOptionName::DisableDynamicDispatch => 41,
            CompilerOptionName::DisableSpecialization => 42,
            CompilerOptionName::FloatingPointMode => 43,
            CompilerOptionName::DebugInformation => 44,
            CompilerOptionName::LineDirectiveMode => 45,
            CompilerOptionName::Optimization => 46,
            CompilerOptionName::Obfuscate => 47,
            CompilerOptionName::VulkanBindShift => 48,
            CompilerOptionName::VulkanBindGlobals => 49,
            CompilerOptionName::VulkanInvertY => 50,
            CompilerOptionName::VulkanUseDxPositionW => 51,
            CompilerOptionName::VulkanUseEntryPointName => 52,
            CompilerOptionName::VulkanUseGLLayout => 53,
            CompilerOptionName::VulkanEmitReflection => 54,
            CompilerOptionName::GLSLForceScalarLayout => 55,
            CompilerOptionName::EnableEffectAnnotations => 56,
            CompilerOptionName::EmitSpirvViaGLSL => 57,
            CompilerOptionName::EmitSpirvDirectly => 58,
            CompilerOptionName::SPIRVCoreGrammarJSON => 59,
            CompilerOptionName::IncompleteLibrary => 60,
            CompilerOptionName::CompilerPath => 61,
            CompilerOptionName::DefaultDownstreamCompiler => 62,
            CompilerOptionName::DownstreamArgs => 63,
            CompilerOptionName::PassThrough => 64,
            CompilerOptionName::DumpRepro => 65,
            CompilerOptionName::DumpReproOnError => 66,
            CompilerOptionName::ExtractRepro => 67,
            CompilerOptionName::LoadRepro => 68,
            CompilerOptionName::LoadReproDirectory => 69,
            CompilerOptionName::ReproFallbackDirectory => 70,
            CompilerOptionName::DumpAst => 71,
            CompilerOptionName::DumpIntermediatePrefix => 72,
            CompilerOptionName::DumpIntermediates => 73,
            CompilerOptionName::DumpIr => 74,
            CompilerOptionName::DumpIrIds => 75,
            CompilerOptionName::PreprocessorOutput => 76,
            CompilerOptionName::OutputIncludes => 77,
            CompilerOptionName::ReproFileSystem => 78,
            CompilerOptionName::SerialIR => 79,
            CompilerOptionName::SkipCodeGen => 80,
            CompilerOptionName::ValidateIr => 81,
            CompilerOptionName::VerbosePaths => 82,
            CompilerOptionName::VerifyDebugSerialIr => 83,
            CompilerOptionName::NoCodeGen => 84,
            CompilerOptionName::FileSystem => 85,
            CompilerOptionName::Heterogeneous => 86,
            CompilerOptionName::NoMangle => 87,
            CompilerOptionName::NoHLSLBinding => 88,
            CompilerOptionName::NoHLSLPackConstantBufferElements => 89,
            CompilerOptionName::ValidateUniformity => 90,
            CompilerOptionName::AllowGLSL => 91,
            CompilerOptionName::EnableExperimentalPasses => 92,
            CompilerOptionName::BindlessSpaceIndex => 93,
            CompilerOptionName::ArchiveType => 94,
            CompilerOptionName::CompileCoreModule => 95,
            CompilerOptionName::Doc => 96,
            CompilerOptionName::IrCompression => 97,
            CompilerOptionName::LoadCoreModule => 98,
            CompilerOptionName::ReferenceModule => 99,
            CompilerOptionName::SaveCoreModule => 100,
            CompilerOptionName::SaveCoreModuleBinSource => 101,
            CompilerOptionName::TrackLiveness => 102,
            CompilerOptionName::LoopInversion => 103,
            CompilerOptionName::ParameterBlocksUseRegisterSpaces => 104,
            CompilerOptionName::LanguageVersion => 105,
            CompilerOptionName::TypeConformance => 106,
            CompilerOptionName::EnableExperimentalDynamicDispatch => 107,
            CompilerOptionName::EmitReflectionJSON => 108,
            CompilerOptionName::CountOfParsableOptions => 109,
            CompilerOptionName::DebugInformationFormat => 110,
            CompilerOptionName::VulkanBindShiftAll => 111,
            CompilerOptionName::GenerateWholeProgram => 112,
            CompilerOptionName::UseUpToDateBinaryModule => 113,
            CompilerOptionName::EmbedDownstreamIR => 114,
            CompilerOptionName::ForceDXLayout => 115,
            CompilerOptionName::EmitSpirvMethod => 116,
            CompilerOptionName::SaveGLSLModuleBinSource => 117,
            CompilerOptionName::SkipDownstreamLinking => 118,
            CompilerOptionName::DumpModule => 119,
            CompilerOptionName::GetModuleInfo => 120,
            CompilerOptionName::GetSupportedModuleVersions => 121,
            CompilerOptionName::EmitSeparateDebug => 122,
            CompilerOptionName::DenormalModeFp16 => 123,
            CompilerOptionName::DenormalModeFp32 => 124,
            CompilerOptionName::DenormalModeFp64 => 125,
            CompilerOptionName::UseMSVCStyleBitfieldPacking => 126,
            CompilerOptionName::ForceCLayout => 127,
            CompilerOptionName::CountOf => 128,
        }
    }

    /// The option name a raw ABI value stands for, if any.
    pub open spec fn spec_from_raw(raw: i32) -> Option<CompilerOptionName> {
        if raw == 0 {
            Some(CompilerOptionName::MacroDefine)
        } else if raw == 1 {
            Some(CompilerOptionName::DepFile)
        } else if raw == 2 {
            Some(CompilerOptionName::EntryPointName)
        } else if raw == 3 {
            Some(CompilerOptionName::Specialize)
        } else if raw == 4 {
            Some(CompilerOptionName::Help)
        } else if raw == 5 {
            Some(CompilerOptionName::HelpStyle)
        } else if raw == 6 {
            Some(CompilerOptionName::Include)
        } else if raw == 7 {
            Some(CompilerOptionName::Language)
        } else if raw == 8 {
            Some(CompilerOptionName::MatrixLayoutColumn)
        } else if raw == 9 {
            Some(CompilerOptionName::MatrixLayoutRow)
        } else if raw == 10 {
            Some(CompilerOptionName::ZeroInitialize)
        } else if raw == 11 {
            Some(CompilerOptionName::IgnoreCapabilities)
        } else if raw == 12 {
            Some(CompilerOptionName::RestrictiveCapabilityCheck)
        } else if raw == 13 {
            Some(CompilerOptionName::ModuleName)
        } else if raw == 14 {
            Some(CompilerOptionName::Output)
        } else if raw == 15 {
            Some(CompilerOptionName::Profile)
        } else if raw == 16 {
            Some(CompilerOptionName::Stage)
        } else if raw == 17 {
            Some(CompilerOptionName::Target)
        } else if raw == 18 {
            Some(CompilerOptionName::Version)
        } else if raw == 19 {
            Some(CompilerOptionName::WarningsAsErrors)
        } else if raw == 20 {
            Some(CompilerOptionName::DisableWarnings)
        } else if raw == 21 {
            Some(CompilerOptionName::EnableWarning)
        } else if raw == 22 {
            Some(CompilerOptionName::DisableWarning)
        } else if raw == 23 {
            Some(CompilerOptionName::DumpWarningDiagnostics)
        } else if raw == 24 {
            Some(CompilerOptionName::InputFilesRemain)
        } else if raw == 25 {
            Some(CompilerOptionName::EmitIr)
        } else if raw == 26 {
            Some(CompilerOptionName::ReportDownstreamTime)
        } else if raw == 27 {
            Some(CompilerOptionName::ReportPerfBenchmark)
        } else if raw == 28 {
            Some(CompilerOptionName::ReportCheckpointIntermediates)
        } else if raw == 29 {
            Some(CompilerOptionName::SkipSPIRVValidation)
        } else if raw == 30 {
            Some(CompilerOptionName::SourceEmbedStyle)
        } else if raw == 31 {
            Some(CompilerOptionName::SourceEmbedName)
        } else if raw == 32 {
            Some(CompilerOptionName::SourceEmbedLanguage)
        } else if raw == 33 {
            Some(CompilerOptionName::DisableShortCircuit)
        } else if raw == 34 {
            Some(CompilerOptionName::MinimumSlangOptimization)
        } else if raw == 35 {
            Some(CompilerOptionName::DisableNonEssentialValidations)
        } else if raw == 36 {
            Some(CompilerOptionName::DisableSourceMap)
        } else if raw == 37 {
            Some(CompilerOptionName::UnscopedEnum)
        } else if raw == 38 {
            Some(CompilerOptionName::PreserveParameters)
        } else if raw == 39 {
            Some(CompilerOptionName::Capability)
        } else if raw == 40 {
            Some(CompilerOptionName::DefaultImageFormatUnknown)
        } else if raw == 41 {
            Some(CompilerOptionName::DisableDynamicDispatch)
        } else if raw == 42 {
            Some(CompilerOptionName::DisableSpecialization)
        } else if raw == 43 {
            Some(CompilerOptionName::FloatingPointMode)
        } else if raw == 44 {
            Some(CompilerOptionName::DebugInformation)
        } else if raw == 45 {
            Some(CompilerOptionName::LineDirectiveMode)
        } else if raw == 46 {
            Some(CompilerOptionName::Optimization)
        } else if raw == 47 {
            Some(CompilerOptionName::Obfuscate)
        } else if raw == 48 {
            Some(CompilerOptionName::VulkanBindShift)
        } else if raw == 49 {
            Some(CompilerOptionName::VulkanBindGlobals)
        } else if raw == 50 {
            Some(CompilerOptionName::VulkanInvertY)
        } else if raw == 51 {
            Some(CompilerOptionName::VulkanUseDxPositionW)
        } else if raw == 52 {
            Some(CompilerOptionName::VulkanUseEntryPointName)
        } else if raw == 53 {
            Some(CompilerOptionName::VulkanUseGLLayout)
        } else if raw == 54 {
            Some(CompilerOptionName::VulkanEmitReflection)
        } else if raw == 55 {
            Some(CompilerOptionName::GLSLForceScalarLayout)
        } else if raw == 56 {
            Some(CompilerOptionName::EnableEffectAnnotations)
        } else if raw == 57 {
            Some(CompilerOptionName::EmitSpirvViaGLSL)
        } else if raw == 58 {
            Some(CompilerOptionName::EmitSpirvDirectly)
        } else if raw == 59 {
            Some(CompilerOptionName::SPIRVCoreGrammarJSON)
        } else if raw == 60 {
            Some(CompilerOptionName::IncompleteLibrary)
        } else if raw == 61 {
            Some(CompilerOptionName::CompilerPath)
        } else if raw == 62 {
            Some(CompilerOptionName::DefaultDownstreamCompiler)
        } else if raw == 63 {
            Some(CompilerOptionName::DownstreamArgs)
        } else if raw == 64 {
            Some(CompilerOptionName::PassThrough)
        } else if raw == 65 {
            Some(CompilerOptionName::DumpRepro)
        } else if raw == 66 {
            Some(CompilerOptionName::DumpReproOnError)
        } else if raw == 67 {
            Some(CompilerOptionName::ExtractRepro)
        } else if raw == 68 {
            Some(CompilerOptionName::LoadRepro)
        } else if raw == 69 {
            Some(CompilerOptionName::LoadReproDirectory)
        } else if raw == 70 {
            Some(CompilerOptionName::ReproFallbackDirectory)
        } else if raw == 71 {
            Some(CompilerOptionName::DumpAst)
        } else if raw == 72 {
            Some(CompilerOptionName::DumpIntermediatePrefix)
        } else if raw == 73 {
            Some(CompilerOptionName::DumpIntermediates)
        } else if raw == 74 {
            Some(CompilerOptionName::DumpIr)
        } else if raw == 75 {
            Some(CompilerOptionName::DumpIrIds)
        } else if raw == 76 {
            Some(CompilerOptionName::PreprocessorOutput)
        } else if raw == 77 {
            Some(CompilerOptionName::OutputIncludes)
        } else if raw == 78 {
            Some(CompilerOptionName::ReproFileSystem)
        } else if raw == 79 {
            Some(CompilerOptionName::SerialIR)
        } else if raw == 80 {
            Some(CompilerOptionName::SkipCodeGen)
        } else if raw == 81 {
            Some(CompilerOptionName::ValidateIr)
        } else if raw == 82 {
            Some(CompilerOptionName::VerbosePaths)
        } else if raw == 83 {
            Some(CompilerOptionName::VerifyDebugSerialIr)
        } else if raw == 84 {
            Some(CompilerOptionName::NoCodeGen)
        } else if raw == 85 {
            Some(CompilerOptionName::FileSystem)
        } else if raw == 86 {
            Some(CompilerOptionName::Heterogeneous)
        } else if raw == 87 {
            Some(CompilerOptionName::NoMangle)
        } else if raw == 88 {
            Some(CompilerOptionName::NoHLSLBinding)
        } else if raw == 89 {
            Some(CompilerOptionName::NoHLSLPackConstantBufferElements)
        } else if raw == 90 {
            Some(CompilerOptionName::ValidateUniformity)
        } else if raw == 91 {
            Some(CompilerOptionName::AllowGLSL)
        } else if raw == 92 {
            Some(CompilerOptionName::EnableExperimentalPasses)
        } else if raw == 93 {
            Some(CompilerOptionName::BindlessSpaceIndex)
        } else if raw == 94 {
            Some(CompilerOptionName::ArchiveType)
        } else if raw == 95 {
            Some(CompilerOptionName::CompileCoreModule)
        } else if raw == 96 {
            Some(CompilerOptionName::Doc)
        } else if raw == 97 {
            Some(CompilerOptionName::IrCompression)
        } else if raw == 98 {
            Some(CompilerOptionName::LoadCoreModule)
        } else if raw == 99 {
            Some(CompilerOptionName::ReferenceModule)
        } else if raw == 100 {
            Some(CompilerOptionName::SaveCoreModule)
        } else if raw == 101 {
            Some(CompilerOptionName::SaveCoreModuleBinSource)
        } else if raw == 102 {
            Some(CompilerOptionName::TrackLiveness)
        } else if raw == 103 {
            Some(CompilerOptionName::LoopInversion)
        } else if raw == 104 {
            Some(CompilerOptionName::ParameterBlocksUseRegisterSpaces)
        } else if raw == 105 {
            Some(CompilerOptionName::LanguageVersion)
        } else if raw == 106 {
            Some(CompilerOptionName::TypeConformance)
        } else if raw == 107 {
            Some(CompilerOptionName::EnableExperimentalDynamicDispatch)
        } else if raw == 108 {
            Some(CompilerOptionName::EmitReflectionJSON)
        } else if raw == 109 {
            Some(CompilerOptionName::CountOfParsableOptions)
        } else if raw == 110 {
            Some(CompilerOptionName::DebugInformationFormat)
        } else if raw == 111 {
            Some(CompilerOptionName::VulkanBindShiftAll)
        } else if raw == 112 {
            Some(CompilerOptionName::GenerateWholeProgram)
        } else if raw == 113 {
            Some(CompilerOptionName::UseUpToDateBinaryModule)
        } else if raw == 114 {
            Some(CompilerOptionName::EmbedDownstreamIR)
        } else if raw == 115 {
            Some(CompilerOptionName::ForceDXLayout)
        } else if raw == 116 {
            Some(CompilerOptionName::EmitSpirvMethod)
        } else if raw == 117 {
            Some(CompilerOptionName::SaveGLSLModuleBinSource)
        } else if raw == 118 {
            Some(CompilerOptionName::SkipDownstreamLinking)
        } else if raw == 119 {
            Some(CompilerOptionName::DumpModule)
        } else if raw == 120 {
            Some(CompilerOptionName::GetModuleInfo)
        } else if raw == 121 {
            Some(CompilerOptionName::GetSupportedModuleVersions)
        } else if raw == 122 {
            Some(CompilerOptionName::EmitSeparateDebug)
        } else if raw == 123 {
            Some(CompilerOptionName::DenormalModeFp16)
        } else if raw == 124 {
            Some(CompilerOptionName::DenormalModeFp32)
        } else if raw == 125 {
            Some(CompilerOptionName::DenormalModeFp64)
        } else if raw == 126 {
            Some(CompilerOptionName::UseMSVCStyleBitfieldPacking)
        } else if raw == 127 {
            Some(CompilerOptionName::ForceCLayout)
        } else if raw == 128 {
            Some(CompilerOptionName::CountOf)
        } else {
            None
        }
    }

    /// Lowers the option name to its raw ABI value.
    pub fn as_raw(self) -> (r: i32)
        ensures
            r == self.spec_raw(),
    {
        match self {
            CompilerOptionName::MacroDefine => 0,
            CompilerOptionName::DepFile => 1,
            CompilerOptionName::EntryPointName => 2,
            CompilerOptionName::Specialize => 3,
            CompilerOptionName::Help => 4,
            CompilerOptionName::HelpStyle => 5,
            CompilerOptionName::Include => 6,
            CompilerOptionName::Language => 7,
            CompilerOptionName::MatrixLayoutColumn => 8,
            CompilerOptionName::MatrixLayoutRow => 9,
            CompilerOptionName::ZeroInitialize => 10,
            CompilerOptionName::IgnoreCapabilities => 11,
            CompilerOptionName::RestrictiveCapabilityCheck => 12,
            CompilerOptionName::ModuleName => 13,
            CompilerOptionName::Output => 14,
            CompilerOptionName::Profile => 15,
            CompilerOptionName::Stage => 16,
            CompilerOptionName::Target => 17,
            CompilerOptionName::Version => 18,
            CompilerOptionName::WarningsAsErrors => 19,
            CompilerOptionName::DisableWarnings => 20,
            CompilerOptionName::EnableWarning => 21,
            CompilerOptionName::DisableWarning => 22,
            CompilerOptionName::DumpWarningDiagnostics => 23,
            CompilerOptionName::InputFilesRemain => 24,
            CompilerOptionName::EmitIr => 25,
            CompilerOptionName::ReportDownstreamTime => 26,
            CompilerOptionName::ReportPerfBenchmark => 27,
            CompilerOptionName::ReportCheckpointIntermediates => 28,
            CompilerOptionName::SkipSPIRVValidation => 29,
            CompilerOptionName::SourceEmbedStyle => 30,
            CompilerOptionName::SourceEmbedName => 31,
            CompilerOptionName::SourceEmbedLanguage => 32,
            CompilerOptionName::DisableShortCircuit => 33,
            CompilerOptionName::MinimumSlangOptimization => 34,
            CompilerOptionName::DisableNonEssentialValidations => 35,
            CompilerOptionName::DisableSourceMap => 36,
            CompilerOptionName::UnscopedEnum => 37,
            CompilerOptionName::PreserveParameters => 38,
            CompilerOptionName::Capability => 39,
            CompilerOptionName::DefaultImageFormatUnknown => 40,
            CompilerOptionName::DisableDynamicDispatch => 41,
            CompilerOptionName::DisableSpecialization => 42,
            CompilerOptionName::FloatingPointMode => 43,
            CompilerOptionName::DebugInformation => 44,
            CompilerOptionName::LineDirectiveMode => 45,
            CompilerOptionName::Optimization => 46,
            CompilerOptionName::Obfuscate => 47,
            CompilerOptionName::VulkanBindShift => 48,
            CompilerOptionName::VulkanBindGlobals => 49,
            CompilerOptionName::VulkanInvertY => 50,
            CompilerOptionName::VulkanUseDxPositionW => 51,
            CompilerOptionName::VulkanUseEntryPointName => 52,
            CompilerOptionName::VulkanUseGLLayout => 53,
            CompilerOptionName::VulkanEmitReflection => 54,
            CompilerOptionName::GLSLForceScalarLayout => 55,
            CompilerOptionName::EnableEffectAnnotations => 56,
            CompilerOptionName::EmitSpirvViaGLSL => 57,
            CompilerOptionName::EmitSpirvDirectly => 58,
            CompilerOptionName::SPIRVCoreGrammarJSON => 59,
            CompilerOptionName::IncompleteLibrary => 60,
            CompilerOptionName::CompilerPath => 61,
            CompilerOptionName::DefaultDownstreamCompiler => 62,
            CompilerOptionName::DownstreamArgs => 63,
            CompilerOptionName::PassThrough => 64,
            CompilerOptionName::DumpRepro => 65,
            CompilerOptionName::DumpReproOnError => 66,
            CompilerOptionName::ExtractRepro => 67,
            CompilerOptionName::LoadRepro => 68,
            CompilerOptionName::LoadReproDirectory => 69,
            CompilerOptionName::ReproFallbackDirectory => 70,
            CompilerOptionName::DumpAst => 71,
            CompilerOptionName::DumpIntermediatePrefix => 72,
            CompilerOptionName::DumpIntermediates => 73,
            CompilerOptionName::DumpIr => 74,
            CompilerOptionName::DumpIrIds => 75,
            CompilerOptionName::PreprocessorOutput => 76,
            CompilerOptionName::OutputIncludes => 77,
            CompilerOptionName::ReproFileSystem => 78,
            CompilerOptionName::SerialIR => 79,
            CompilerOptionName::SkipCodeGen => 80,
            CompilerOptionName::ValidateIr => 81,
            CompilerOptionName::VerbosePaths => 82,
            CompilerOptionName::VerifyDebugSerialIr => 83,
            CompilerOptionName::NoCodeGen => 84,
            CompilerOptionName::FileSystem => 85,
            CompilerOptionName::Heterogeneous => 86,
            CompilerOptionName::NoMangle => 87,
            CompilerOptionName::NoHLSLBinding => 88,
            CompilerOptionName::NoHLSLPackConstantBufferElements => 89,
            CompilerOptionName::ValidateUniformity => 90,
            CompilerOptionName::AllowGLSL => 91,
            CompilerOptionName::EnableExperimentalPasses => 92,
            CompilerOptionName::BindlessSpaceIndex => 93,
            CompilerOptionName::ArchiveType => 94,
            CompilerOptionName::CompileCoreModule => 95,
            CompilerOptionName::Doc => 96,
            CompilerOptionName::IrCompression => 97,
            CompilerOptionName::LoadCoreModule => 98,
            CompilerOptionName::ReferenceModule => 99,
            CompilerOptionName::SaveCoreModule => 100,
            CompilerOptionName::SaveCoreModuleBinSource => 101,
            CompilerOptionName::TrackLiveness => 102,
            CompilerOptionName::LoopInversion => 103,
            CompilerOptionName::ParameterBlocksUseRegisterSpaces => 104,
            CompilerOptionName::LanguageVersion => 105,
            CompilerOptionName::TypeConformance => 106,
            CompilerOptionName::EnableExperimentalDynamicDispatch => 107,
            CompilerOptionName::EmitReflectionJSON => 108,
            CompilerOptionName::CountOfParsableOptions => 109,
            CompilerOptionName::DebugInformationFormat => 110,
            CompilerOptionName::VulkanBindShiftAll => 111,
            CompilerOptionName::GenerateWholeProgram => 112,
            CompilerOptionName::UseUpToDateBinaryModule => 113,
            CompilerOptionName::EmbedDownstreamIR => 114,
            CompilerOptionName::ForceDXLayout => 115,
            CompilerOptionName::EmitSpirvMethod => 116,
            CompilerOptionName::SaveGLSLModuleBinSource => 117,
            CompilerOptionName::SkipDownstreamLinking => 118,
            CompilerOptionName::DumpModule => 119,
            CompilerOptionName::GetModuleInfo => 120,
            CompilerOptionName::GetSupportedModuleVersions => 121,
            CompilerOptionName::EmitSeparateDebug => 122,
            CompilerOptionName::DenormalModeFp16 => 123,
            CompilerOptionName::DenormalModeFp32 => 124,
            CompilerOptionName::DenormalModeFp64 => 125,
            CompilerOptionName::UseMSVCStyleBitfieldPacking => 126,
            CompilerOptionName::ForceCLayout => 127,
            CompilerOptionName::CountOf => 128,
        }
    }

    /// Decodes a raw ABI value back to the option name it stands for.
    pub fn from_raw(raw: i32) -> (r: Option<CompilerOptionName>)
        ensures
            r == CompilerOptionName::spec_from_raw(raw),
    {
        match raw {
            0 => Some(CompilerOptionName::MacroDefine),
            1 => Some(CompilerOptionName::DepFile),
            2 => Some(CompilerOptionName::EntryPointName),
            3 => Some(CompilerOptionName::Specialize),
            4 => Some(CompilerOptionName::Help),
            5 => Some(CompilerOptionName::HelpStyle),
            6 => Some(CompilerOptionName::Include),
            7 => Some(CompilerOptionName::Language),
            8 => Some(CompilerOptionName::MatrixLayoutColumn),
            9 => Some(CompilerOptionName::MatrixLayoutRow),
            10 => Some(CompilerOptionName::ZeroInitialize),
            11 => Some(CompilerOptionName::IgnoreCapabilities),
            12 => Some(CompilerOptionName::RestrictiveCapabilityCheck),
            13 => Some(CompilerOptionName::ModuleName),
            14 => Some(CompilerOptionName::Output),
            15 => Some(CompilerOptionName::Profile),
            16 => Some(CompilerOptionName::Stage),
            17 => Some(CompilerOptionName::Target),
            18 => Some(CompilerOptionName::Version),
            19 => Some(CompilerOptionName::WarningsAsErrors),
            20 => Some(CompilerOptionName::DisableWarnings),
            21 => Some(CompilerOptionName::EnableWarning),
            22 => Some(CompilerOptionName::DisableWarning),
            23 => Some(CompilerOptionName::DumpWarningDiagnostics),
            24 => Some(CompilerOptionName::InputFilesRemain),
            25 => Some(CompilerOptionName::EmitIr),
            26 => Some(CompilerOptionName::ReportDownstreamTime),
            27 => Some(CompilerOptionName::ReportPerfBenchmark),
            28 => Some(CompilerOptionName::ReportCheckpointIntermediates),
            29 => Some(CompilerOptionName::SkipSPIRVValidation),
            30 => Some(CompilerOptionName::SourceEmbedStyle),
            31 => Some(CompilerOptionName::SourceEmbedName),
            32 => Some(CompilerOptionName::SourceEmbedLanguage),
            33 => Some(CompilerOptionName::DisableShortCircuit),
            34 => Some(CompilerOptionName::MinimumSlangOptimization),
            35 => Some(CompilerOptionName::DisableNonEssentialValidations),
            36 => Some(CompilerOptionName::DisableSourceMap),
            37 => Some(CompilerOptionName::UnscopedEnum),
            38 => Some(CompilerOptionName::PreserveParameters),
            39 => Some(CompilerOptionName::Capability),
            40 => Some(CompilerOptionName::DefaultImageFormatUnknown),
            41 => Some(CompilerOptionName::DisableDynamicDispatch),
            42 => Some(CompilerOptionName::DisableSpecialization),
            43 => Some(CompilerOptionName::FloatingPointMode),
            44 => Some(CompilerOptionName::DebugInformation),
            45 => Some(CompilerOptionName::LineDirectiveMode),
            46 => Some(CompilerOptionName::Optimization),
            47 => Some(CompilerOptionName::Obfuscate),
            48 => Some(CompilerOptionName::VulkanBindShift),
            49 => Some(CompilerOptionName::VulkanBindGlobals),
            50 => Some(CompilerOptionName::VulkanInvertY),
            51 => Some(CompilerOptionName::VulkanUseDxPositionW),
            52 => Some(CompilerOptionName::VulkanUseEntryPointName),
            53 => Some(CompilerOptionName::VulkanUseGLLayout),
            54 => Some(CompilerOptionName::VulkanEmitReflection),
            55 => Some(CompilerOptionName::GLSLForceScalarLayout),
            56 => Some(CompilerOptionName::EnableEffectAnnotations),
            57 => Some(CompilerOptionName::EmitSpirvViaGLSL),
            58 => Some(CompilerOptionName::EmitSpirvDirectly),
            59 => Some(CompilerOptionName::SPIRVCoreGrammarJSON),
            60 => Some(CompilerOptionName::IncompleteLibrary),
            61 => Some(CompilerOptionName::CompilerPath),
            62 => Some(CompilerOptionName::DefaultDownstreamCompiler),
            63 => Some(CompilerOptionName::DownstreamArgs),
            64 => Some(CompilerOptionName::PassThrough),
            65 => Some(CompilerOptionName::DumpRepro),
            66 => Some(CompilerOptionName::DumpReproOnError),
            67 => Some(CompilerOptionName::ExtractRepro),
            68 => Some(CompilerOptionName::LoadRepro),
            69 => Some(CompilerOptionName::LoadReproDirectory),
            70 => Some(CompilerOptionName::ReproFallbackDirectory),
            71 => Some(CompilerOptionName::DumpAst),
            72 => Some(CompilerOptionName::DumpIntermediatePrefix),
            73 => Some(CompilerOptionName::DumpIntermediates),
            74 => Some(CompilerOptionName::DumpIr),
            75 => Some(CompilerOptionName::DumpIrIds),
            76 => Some(CompilerOptionName::PreprocessorOutput),
            77 => Some(CompilerOptionName::OutputIncludes),
            78 => Some(CompilerOptionName::ReproFileSystem),
            79 => Some(CompilerOptionName::SerialIR),
            80 => Some(CompilerOptionName::SkipCodeGen),
            81 => Some(CompilerOptionName::ValidateIr),
            82 => Some(CompilerOptionName::VerbosePaths),
            83 => Some(CompilerOptionName::VerifyDebugSerialIr),
            84 => Some(CompilerOptionName::NoCodeGen),
            85 => Some(CompilerOptionName::FileSystem),
            86 => Some(CompilerOptionName::Heterogeneous),
            87 => Some(CompilerOptionName::NoMangle),
            88 => Some(CompilerOptionName::NoHLSLBinding),
            89 => Some(CompilerOptionName::NoHLSLPackConstantBufferElements),
            90 => Some(CompilerOptionName::ValidateUniformity),
            91 => Some(CompilerOptionName::AllowGLSL),
            92 => Some(CompilerOptionName::EnableExperimentalPasses),
            93 => Some(CompilerOptionName::BindlessSpaceIndex),
            94 => Some(CompilerOptionName::ArchiveType),
            95 => Some(CompilerOptionName::CompileCoreModule),
            96 => Some(CompilerOptionName::Doc),
            97 => Some(CompilerOptionName::IrCompression),
            98 => Some(CompilerOptionName::LoadCoreModule),
            99 => Some(CompilerOptionName::ReferenceModule),
            100 => Some(CompilerOptionName::SaveCoreModule),
            101 => Some(CompilerOptionName::SaveCoreModuleBinSource),
            102 => Some(CompilerOptionName::TrackLiveness),
            103 => Some(CompilerOptionName::LoopInversion),
            104 => Some(CompilerOptionName::ParameterBlocksUseRegisterSpaces),
            105 => Some(CompilerOptionName::LanguageVersion),
            106 => Some(CompilerOptionName::TypeConformance),
            107 => Some(CompilerOptionName::EnableExperimentalDynamicDispatch),
            108 => Some(CompilerOptionName::EmitReflectionJSON),
            109 => Some(CompilerOptionName::CountOfParsableOptions),
            110 => Some(CompilerOptionName::DebugInformationFormat),
            111 => Some(CompilerOptionName::VulkanBindShiftAll),
            112 => Some(CompilerOptionName::GenerateWholeProgram),
            113 => Some(CompilerOptionName::UseUpToDateBinaryModule),
            114 => Some(CompilerOptionName::EmbedDownstreamIR),
            115 => Some(CompilerOptionName::ForceDXLayout),
            116 => Some(CompilerOptionName::EmitSpirvMethod),
            117 => Some(CompilerOptionName::SaveGLSLModuleBinSource),
            118 => Some(CompilerOptionName::SkipDownstreamLinking),
            119 => Some(CompilerOptionName::DumpModule),
            120 => Some(CompilerOptionName::GetModuleInfo),
            121 => Some(CompilerOptionName::GetSupportedModuleVersions),
            122 => Some(CompilerOptionName::EmitSeparateDebug),
            123 => Some(CompilerOptionName::DenormalModeFp16),
            124 => Some(CompilerOptionName::DenormalModeFp32),
            125 => Some(CompilerOptionName::DenormalModeFp64),
            126 => Some(CompilerOptionName::UseMSVCStyleBitfieldPacking),
            127 => Some(CompilerOptionName::ForceCLayout),
            128 => Some(CompilerOptionName::CountOf),
            _ => None,
        }
    }
}

/// Tag round trip: lowering any CompilerOptionName value to its raw integer and
/// decoding that integer back yields the identical value.
#[verifier::rlimit(60)]
pub proof fn lemma_compiler_option_name_round_trip(k: CompilerOptionName)
    ensures
        CompilerOptionName::spec_from_raw(k.spec_raw()) == Some(k),
{
}
impl BuiltinModuleName {
    /// The raw ABI value of this builtin module name.
    pub open spec fn spec_raw(self) -> i32 {
        match self {
            BuiltinModuleName::Core => 0,
            BuiltinModuleName::GLSL => 1,
        }
    }

    /// The builtin module name a raw ABI value stands for, if any.
    pub open spec fn spec_from_raw(raw: i32) -> Option<BuiltinModuleName> {
        if raw == 0 {
            Some(BuiltinModuleName::Core)
        } else if raw == 1 {
            Some(BuiltinModuleName::GLSL)
        } else {
            None
        }
    }

    /// Lowers the builtin module name to its raw ABI value.
    pub fn as_raw(self) -> (r: i32)
        ensures
            r == self.spec_raw(),
    {
        match self {
            BuiltinModuleName::Core => 0,
            BuiltinModuleName::GLSL => 1,
        }
    }

    /// Decodes a raw ABI value back to the builtin module name it stands for.
    pub fn from_raw(raw: i32) -> (r: Option<BuiltinModuleName>)
        ensures
            r == BuiltinModuleName::spec_from_raw(raw),
    {
        match raw {
            0 => Some(BuiltinModuleName::Core),
            1 => Some(BuiltinModuleName::GLSL),
            _ => None,
        }
    }
}

/// Tag round trip: lowering any BuiltinModuleName value to its raw integer and
/// decoding that integer back yields the identical value.
pub proof fn lemma_builtin_module_name_round_trip(k: BuiltinModuleName)
    ensures
        BuiltinModuleName::spec_from_raw(k.spec_raw()) == Some(k),
{
}
impl CompilerOptionValueKind {
    /// The raw ABI value of this value kind.
    pub open spec fn spec_raw(self) -> i32 {
        match self {
            CompilerOptionValueKind::Int => 0,
            CompilerOptionValueKind::Text => 1,
        }
    }

    /// The value kind a raw ABI value stands for, if any.
    pub open spec fn spec_from_raw(raw: i32) -> Option<CompilerOptionValueKind> {
        if raw == 0 {
            Some(CompilerOptionValueKind::Int)
        } else if raw == 1 {
            Some(CompilerOptionValueKind::Text)
        } else {
            None
        }
    }

    /// Lowers the value kind to its raw ABI value.
    pub fn as_raw(self) -> (r: i32)
        ensures
            r == self.spec_raw(),
    {
        match self {
            CompilerOptionValueKind::Int => 0,
            CompilerOptionValueKind::Text => 1,
        }
    }

    /// Decodes a raw ABI value back to the value kind it stands for.
    pub fn from_raw(raw: i32) -> (r: Option<CompilerOptionValueKind>)
        ensures
            r == CompilerOptionValueKind::spec_from_raw(raw),
    {
        match raw {
            0 => Some(CompilerOptionValueKind::Int),
            1 => Some(CompilerOptionValueKind::Text),
            _ => None,
        }
    }
}

/// Tag round trip: lowering any CompilerOptionValueKind value to its raw integer and
/// decoding that integer back yields the identical value.
pub proof fn lemma_compiler_option_value_kind_round_trip(k: CompilerOptionValueKind)
    ensures
        CompilerOptionValueKind::spec_from_raw(k.spec_raw()) == Some(k),
{
}
impl ContainerType {
    /// The raw ABI value of this container classification.
    pub open spec fn spec_raw(self) -> i32 {
        match self {
            ContainerType::Unspecified => 0,
            ContainerType::UnsizedArray => 1,
            ContainerType::StructuredBuffer => 2,
            ContainerType::ConstantBuffer => 3,
            ContainerType::ParameterBlock => 4,
        }
    }

    /// The container classification a raw ABI value stands for, if any.
    pub open spec fn spec_from_raw(raw: i32) -> Option<ContainerType> {
        if raw == 0 {
            Some(ContainerType::Unspecified)
        } else if raw == 1 {
            Some(ContainerType::UnsizedArray)
        } else if raw == 2 {
            Some(ContainerType::StructuredBuffer)
        } else if raw == 3 {
            Some(ContainerType::ConstantBuffer)
        } else if raw == 4 {
            Some(ContainerType::ParameterBlock)
        } else {
            None
        }
    }

    /// Lowers the container classification to its raw ABI value.
    pub fn as_raw(self) -> (r: i32)
        ensures
            r == self.spec_raw(),
    {
        match self {
            ContainerType::Unspecified => 0,
            ContainerType::UnsizedArray => 1,
            ContainerType::StructuredBuffer => 2,
            ContainerType::ConstantBuffer => 3,
            ContainerType::ParameterBlock => 4,
        }
    }

    /// Decodes a raw ABI value back to the container classification it stands for.
    pub fn from_raw(raw: i32) -> (r: Option<ContainerType>)
        ensures
            r == ContainerType::spec_from_raw(raw),
    {
        match raw {
            0 => Some(ContainerType::Unspecified),
            1 => Some(ContainerType::UnsizedArray),
            2 => Some(ContainerType::StructuredBuffer),
            3 => Some(ContainerType::ConstantBuffer),
            4 => Some(ContainerType::ParameterBlock),
            _ => None,
        }
    }
}

/// Tag round trip: lowering any ContainerType value to its raw integer and
/// decoding that integer back yields the identical value.
pub proof fn lemma_container_type_round_trip(k: ContainerType)
    ensures
        ContainerType::spec_from_raw(k.spec_raw()) == Some(k),
{
}
impl SpecializationArgKind {
    /// The raw ABI value of this argument kind.
    pub open spec fn spec_raw(self) -> i32 {
        match self {
            SpecializationArgKind::Unknown => 0,
            SpecializationArgKind::Type => 1,
            SpecializationArgKind::Expr => 2,
        }
    }

    /// The argument kind a raw ABI value stands for, if any.
    pub open spec fn spec_from_raw(raw: i32) -> Option<SpecializationArgKind> {
        if raw == 0 {
            Some(SpecializationArgKind::Unknown)
        } else if raw == 1 {
            Some(SpecializationArgKind::Type)
        } else if raw == 2 {
            Some(SpecializationArgKind::Expr)
        } else {
            None
        }
    }

    /// Lowers the argument kind to its raw ABI value.
    pub fn as_raw(self) -> (r: i32)
        ensures
            r == self.spec_raw(),
    {
        match self {
            SpecializationArgKind::Unknown => 0,
            SpecializationArgKind::Type => 1,
            SpecializationArgKind::Expr => 2,
        }
    }

    /// Decodes a raw ABI value back to the argument kind it stands for.
    pub fn from_raw(raw: i32) -> (r: Option<SpecializationArgKind>)
        ensures
            r == SpecializationArgKind::spec_from_raw(raw),
    {
        match raw {
            0 => Some(SpecializationArgKind::Unknown),
            1 => Some(SpecializationArgKind::Type),
            2 => Some(SpecializationArgKind::Expr),
            _ => None,
        }
    }
}

/// Tag round trip: lowering any SpecializationArgKind value to its raw integer and
/// decoding that integer back yields the identical value.
pub proof fn lemma_specialization_arg_kind_round_trip(k: SpecializationArgKind)
    ensures
        SpecializationArgKind::spec_from_raw(k.spec_raw()) == Some(k),
{
}
} // verus!
