//! Integer value tables of the native compiler's C ABI: aliases for its
//! plain integer types and the named constants of every open classification
//! axis. These are a direct transcription of the published ABI values; no
//! validation or transformation happens here.

use vstd::prelude::*;

verus! {

/// Pointer-sized signed integer of the ABI on 64-bit targets.
pub type SlangInt = i64;
/// Pointer-sized unsigned integer of the ABI on 64-bit targets.
pub type SlangUInt = u64;
/// Boolean of the ABI.
pub type SlangBool = bool;

/// Tells how a path should be interpreted.
pub type SlangPathType = u32;
/// The path names a directory.
pub const SLANG_PATH_TYPE_DIRECTORY: SlangPathType = 0;
/// The path names a file.
pub const SLANG_PATH_TYPE_FILE: SlangPathType = 1;

/// Identifies different types of writer target.
pub type SlangWriterChannel = u32;
pub const SLANG_WRITER_CHANNEL_DIAGNOSTIC: SlangWriterChannel = 0;
pub const SLANG_WRITER_CHANNEL_STD_OUTPUT: SlangWriterChannel = 1;
pub const SLANG_WRITER_CHANNEL_STD_ERROR: SlangWriterChannel = 2;
pub const SLANG_WRITER_CHANNEL_COUNT_OF: SlangWriterChannel = SLANG_WRITER_CHANNEL_STD_ERROR + 1;

pub type SlangWriterMode = u32;
pub const SLANG_WRITER_MODE_TEXT: SlangWriterMode = 0;
pub const SLANG_WRITER_MODE_BINARY: SlangWriterMode = 1;

/// How a generic argument is given when specializing a generic.
pub type SlangReflectionGenericArgType = i32;
pub const SLANG_GENERIC_ARG_TYPE: SlangReflectionGenericArgType = 0;
pub const SLANG_GENERIC_ARG_INT: SlangReflectionGenericArgType = 1;
pub const SLANG_GENERIC_ARG_BOOL: SlangReflectionGenericArgType = 2;

/// Raw value of the type-kind classification axis.
pub type SlangTypeKind = u32;
pub const SLANG_TYPE_KIND_NONE: SlangTypeKind = 0;
pub const SLANG_TYPE_KIND_STRUCT: SlangTypeKind = 1;
pub const SLANG_TYPE_KIND_ARRAY: SlangTypeKind = 2;
pub const SLANG_TYPE_KIND_MATRIX: SlangTypeKind = 3;
pub const SLANG_TYPE_KIND_VECTOR: SlangTypeKind = 4;
pub const SLANG_TYPE_KIND_SCALAR: SlangTypeKind = 5;
pub const SLANG_TYPE_KIND_CONSTANT_BUFFER: SlangTypeKind = 6;
pub const SLANG_TYPE_KIND_RESOURCE: SlangTypeKind = 7;
pub const SLANG_TYPE_KIND_SAMPLER_STATE: SlangTypeKind = 8;
pub const SLANG_TYPE_KIND_TEXTURE_BUFFER: SlangTypeKind = 9;
pub const SLANG_TYPE_KIND_SHADER_STORAGE_BUFFER: SlangTypeKind = 10;
pub const SLANG_TYPE_KIND_PARAMETER_BLOCK: SlangTypeKind = 11;
pub const SLANG_TYPE_KIND_GENERIC_TYPE_PARAMETER: SlangTypeKind = 12;
pub const SLANG_TYPE_KIND_INTERFACE: SlangTypeKind = 13;
pub const SLANG_TYPE_KIND_OUTPUT_STREAM: SlangTypeKind = 14;
pub const SLANG_TYPE_KIND_MESH_OUTPUT: SlangTypeKind = 15;
pub const SLANG_TYPE_KIND_SPECIALIZED: SlangTypeKind = 16;
pub const SLANG_TYPE_KIND_FEEDBACK: SlangTypeKind = 17;
pub const SLANG_TYPE_KIND_POINTER: SlangTypeKind = 18;
pub const SLANG_TYPE_KIND_DYNAMIC_RESOURCE: SlangTypeKind = 19;
pub const SLANG_TYPE_KIND_COUNT: SlangTypeKind = SLANG_TYPE_KIND_DYNAMIC_RESOURCE + 1;

/// Raw value of the scalar-type classification axis.
pub type SlangScalarType = u32;
pub const SLANG_SCALAR_TYPE_NONE: SlangScalarType = 0;
pub const SLANG_SCALAR_TYPE_VOID: SlangScalarType = 1;
pub const SLANG_SCALAR_TYPE_BOOL: SlangScalarType = 2;
pub const SLANG_SCALAR_TYPE_INT32: SlangScalarType = 3;
pub const SLANG_SCALAR_TYPE_UINT32: SlangScalarType = 4;
pub const SLANG_SCALAR_TYPE_INT64: SlangScalarType = 5;
pub const SLANG_SCALAR_TYPE_UINT64: SlangScalarType = 6;
pub const SLANG_SCALAR_TYPE_FLOAT16: SlangScalarType = 7;
pub const SLANG_SCALAR_TYPE_FLOAT32: SlangScalarType = 8;
pub const SLANG_SCALAR_TYPE_FLOAT64: SlangScalarType = 9;
pub const SLANG_SCALAR_TYPE_INT8: SlangScalarType = 10;
pub const SLANG_SCALAR_TYPE_UINT8: SlangScalarType = 11;
pub const SLANG_SCALAR_TYPE_INT16: SlangScalarType = 12;
pub const SLANG_SCALAR_TYPE_UINT16: SlangScalarType = 13;
pub const SLANG_SCALAR_TYPE_INTPTR: SlangScalarType = 14;
pub const SLANG_SCALAR_TYPE_UINTPT: SlangScalarType = 15;

/// Raw value of the declaration-kind classification axis.
pub type SlangDeclKind = u32;

/// Raw value of the resource-shape classification axis.
pub type SlangResourceShape = u32;

/// Raw value of the resource-access classification axis.
pub type SlangResourceAccess = u32;

/// Raw value of the parameter-category classification axis.
pub type SlangParameterCategory = u32;
pub const SLANG_PARAMETER_CATEGORY_NONE: SlangParameterCategory = 0;
pub const SLANG_PARAMETER_CATEGORY_MIXED: SlangParameterCategory = 1;
pub const SLANG_PARAMETER_CATEGORY_CONSTANT_BUFFER: SlangParameterCategory = 2;
pub const SLANG_PARAMETER_CATEGORY_SHADER_RESOURCE: SlangParameterCategory = 3;
pub const SLANG_PARAMETER_CATEGORY_UNORDERED_ACCESS: SlangParameterCategory = 4;
pub const SLANG_PARAMETER_CATEGORY_VARYING_INPUT: SlangParameterCategory = 5;
pub const SLANG_PARAMETER_CATEGORY_VARYING_OUTPUT: SlangParameterCategory = 6;
pub const SLANG_PARAMETER_CATEGORY_SAMPLER_STATE: SlangParameterCategory = 7;
pub const SLANG_PARAMETER_CATEGORY_UNIFORM: SlangParameterCategory = 8;
pub const SLANG_PARAMETER_CATEGORY_DESCRIPTOR_TABLE_SLOT: SlangParameterCategory = 9;
pub const SLANG_PARAMETER_CATEGORY_SPECIALIZATION_CONSTANT: SlangParameterCategory = 10;
pub const SLANG_PARAMETER_CATEGORY_PUSH_CONSTANT_BUFFER: SlangParameterCategory = 11;
/// HLSL register `space`, Vulkan GLSL `set`.
pub const SLANG_PARAMETER_CATEGORY_REGISTER_SPACE: SlangParameterCategory = 12;
/// A parameter whose type is to be specialized by a global generic type argument.
pub const SLANG_PARAMETER_CATEGORY_GENERIC: SlangParameterCategory = 13;
pub const SLANG_PARAMETER_CATEGORY_RAY_PAYLOAD: SlangParameterCategory = 14;
pub const SLANG_PARAMETER_CATEGORY_HIT_ATTRIBUTES: SlangParameterCategory = 15;
pub const SLANG_PARAMETER_CATEGORY_CALLABLE_PAYLOAD: SlangParameterCategory = 16;
pub const SLANG_PARAMETER_CATEGORY_SHADER_RECORD: SlangParameterCategory = 17;
/// An existential type parameter: a hole that needs a concrete type before
/// specialized code can be generated.
pub const SLANG_PARAMETER_CATEGORY_EXISTENTIAL_TYPE_PARAM: SlangParameterCategory = 18;
/// An existential object parameter: a value that provides data for an
/// interface-type shader parameter.
pub const SLANG_PARAMETER_CATEGORY_EXISTENTIAL_OBJECT_PARAM: SlangParameterCategory = 19;
/// The register space offset for the sub-elements that occupy register spaces.
pub const SLANG_PARAMETER_CATEGORY_SUB_ELEMENT_REGISTER_SPACE: SlangParameterCategory = 20;
/// The input-attachment-index subpass occupancy tracker.
pub const SLANG_PARAMETER_CATEGORY_SUBPASS: SlangParameterCategory = 21;
/// Metal tier-1 argument buffer element id.
pub const SLANG_PARAMETER_CATEGORY_METAL_ARGUMENT_BUFFER_ELEMENT: SlangParameterCategory = 22;
/// Metal attribute inputs.
pub const SLANG_PARAMETER_CATEGORY_METAL_ATTRIBUTE: SlangParameterCategory = 23;
/// Metal payload inputs.
pub const SLANG_PARAMETER_CATEGORY_METAL_PAYLOAD: SlangParameterCategory = 24;
pub const SLANG_PARAMETER_CATEGORY_COUNT: SlangParameterCategory =
    SLANG_PARAMETER_CATEGORY_METAL_PAYLOAD + 1;

/// Raw value of the binding-type classification axis.
pub type SlangBindingType = u32;
pub const SLANG_BINDING_TYPE_UNKNOWN: SlangBindingType = 0;
pub const SLANG_BINDING_TYPE_SAMPLER: SlangBindingType = 1;
pub const SLANG_BINDING_TYPE_TEXTURE: SlangBindingType = 2;
pub const SLANG_BINDING_TYPE_CONSTANT_BUFFER: SlangBindingType = 3;
pub const SLANG_BINDING_TYPE_PARAMETER_BLOCK: SlangBindingType = 4;
pub const SLANG_BINDING_TYPE_TYPED_BUFFER: SlangBindingType = 5;
pub const SLANG_BINDING_TYPE_RAW_BUFFER: SlangBindingType = 6;
pub const SLANG_BINDING_TYPE_COMBINED_TEXTURE_SAMPLER: SlangBindingType = 7;
pub const SLANG_BINDING_TYPE_INPUT_RENDER_TARGET: SlangBindingType = 8;
pub const SLANG_BINDING_TYPE_INLINE_UNIFORM_DATA: SlangBindingType = 9;
pub const SLANG_BINDING_TYPE_RAY_TRACING_ACCELERATION_STRUCTURE: SlangBindingType = 10;
pub const SLANG_BINDING_TYPE_VARYING_INPUT: SlangBindingType = 11;
pub const SLANG_BINDING_TYPE_VARYING_OUTPUT: SlangBindingType = 12;
pub const SLANG_BINDING_TYPE_EXISTENTIAL_VALUE: SlangBindingType = 13;
pub const SLANG_BINDING_TYPE_PUSH_CONSTANT: SlangBindingType = 14;
pub const SLANG_BINDING_TYPE_MUTABLE_FLAG: SlangBindingType = 0x100;
pub const SLANG_BINDING_TYPE_MUTABLE_TETURE: SlangBindingType = SLANG_BINDING_TYPE_TEXTURE
    | SLANG_BINDING_TYPE_MUTABLE_FLAG;
pub const SLANG_BINDING_TYPE_MUTABLE_TYPED_BUFFER: SlangBindingType =
    SLANG_BINDING_TYPE_TYPED_BUFFER | SLANG_BINDING_TYPE_MUTABLE_FLAG;
pub const SLANG_BINDING_TYPE_MUTABLE_RAW_BUFFER: SlangBindingType = SLANG_BINDING_TYPE_RAW_BUFFER
    | SLANG_BINDING_TYPE_MUTABLE_FLAG;
pub const SLANG_BINDING_TYPE_BASE_MASK: SlangBindingType = 0x00FF;
pub const SLANG_BINDING_TYPE_EXT_MASK: SlangBindingType = 0xFF00;

/// Raw value of the layout-rules selection.
pub type SlangLayoutRules = u32;
pub const SLANG_LAYOUT_RULES_DEFAULT: SlangLayoutRules = 0;
pub const SLANG_LAYOUT_RULES_METAL_ARGUMENT_BUFFER_TIER_2: SlangLayoutRules = 1;

/// Raw identifier of a declaration modifier.
pub type SlangModifierID = u32;

/// Raw identifier of an image format.
pub type SlangImageFormat = u32;

/// Count value that marks an unordered, unbounded size.
pub const SLANG_UNORDERED_SIZE: usize = !0;

/// Identifies a downstream (pass-through) compiler.
pub type SlangPassThrough = i32;
pub const SLANG_PASS_THROUGH_NONE: SlangPassThrough = 0;
pub const SLANG_PASS_THROUGH_FXC: SlangPassThrough = 1;
pub const SLANG_PASS_THROUGH_DXC: SlangPassThrough = 2;
pub const SLANG_PASS_THROUGH_GLSLANG: SlangPassThrough = 3;
pub const SLANG_PASS_THROUGH_SPIRV_DIS: SlangPassThrough = 4;
/// Clang C/C++ compiler.
pub const SLANG_PASS_THROUGH_CLANG: SlangPassThrough = 5;
/// Visual Studio C/C++ compiler.
pub const SLANG_PASS_THROUGH_VISUAL_STUDIO: SlangPassThrough = 6;
/// GCC C/C++ compiler.
pub const SLANG_PASS_THROUGH_GCC: SlangPassThrough = 7;
/// Generic C or C++ compiler, decided by the source type.
pub const SLANG_PASS_THROUGH_GENERIC_C_CPP: SlangPassThrough = 8;
/// NVRTC CUDA compiler.
pub const SLANG_PASS_THROGUH_NVRTC: SlangPassThrough = 9;
/// LLVM "compiler", including LLVM and Clang.
pub const SLANG_PASS_THROUGH_LLVM: SlangPassThrough = 10;
/// SPIRV-opt.
pub const SLANG_PASS_THROUGH_SPIRV_OPT: SlangPassThrough = 11;
/// Metal compiler.
pub const SLANG_PASS_THROUGH_METAL: SlangPassThrough = 12;
/// Tint WGSL compiler.
pub const SLANG_PASS_THROUGH_TINT: SlangPassThrough = 13;
/// SPIRV-link.
pub const SLANG_PASS_THROUGH_SPIRV_LINK: SlangPassThrough = 14;
pub const SLANG_PASS_THROUGH_COUNT_OF: SlangPassThrough = SLANG_PASS_THROUGH_SPIRV_LINK + 1;

/// Container format of a saved module archive.
pub type SlangArchiveType = i32;
pub const SLANG_ARCHIVE_TYPE_UNDEFINED: SlangArchiveType = 0;
pub const SLANG_ARCHIVE_TYPE_ZIP: SlangArchiveType = 1;
/// Riff container with no compression.
pub const SLANG_ARCHIVE_TYPE_RIFF: SlangArchiveType = 2;
pub const SLANG_ARCHIVE_TYPE_RIFF_DEFLATE: SlangArchiveType = 3;
pub const SLANG_ARCHIVE_TYPE_RIFF_LZ4: SlangArchiveType = 4;
pub const SLANG_ARCHIVE_TYPE_COUNT_OF: SlangArchiveType = SLANG_ARCHIVE_TYPE_RIFF_LZ4 + 1;

/// Flags that control code generation behavior of a compilation target.
pub type SlangTargetFlags = u32;
/// On a D3D shader model 5.1 or later target, allocate distinct register
/// spaces for parameter blocks. This behavior is no longer enabled
/// unconditionally.
pub const SLANG_TARGET_FLAG_PARAMETER_BLOCKS_USE_REGISTER_SPACES: SlangTargetFlags = 1 << 4;
/// Generate target code that contains all entry points defined in the input
/// source or added to the request, in a single output module.
pub const SLANG_TARGET_FLAG_GENERATE_WHOLE_PROGRAM: SlangTargetFlags = 1 << 8;
/// Dump out the IR between intermediate compilation steps.
pub const SLANG_TARGET_FLAG_DUMP_IR: SlangTargetFlags = 1 << 9;
/// Generate SPIR-V directly rather than through a GLSL intermediate.
pub const SLANG_TARGET_FLAG_GENERATE_SPIRV_DIRECTLY: SlangTargetFlags = 1 << 10;

/// Floating-point precision guarantees requested of a target.
pub type SlangFloatingPointMode = u32;
pub const SLANG_FLOATING_POINT_MODE_DEFAULT: SlangFloatingPointMode = 0;
pub const SLANG_FLOATING_POINT_MODE_FAST: SlangFloatingPointMode = 1;
pub const SLANG_FLOATING_POINT_MODE_PRECISE: SlangFloatingPointMode = 2;

/// Floating-point denormal handling requested of a target.
pub type SlangFpDenormalMode = u32;
pub const SLANG_FP_DENORM_MODE_ANY: SlangFpDenormalMode = 0;
pub const SLANG_FP_DENORM_MODE_PRESERVE: SlangFpDenormalMode = 1;
pub const SLANG_FP_DENORM_MODE_FTZ: SlangFpDenormalMode = 2;

/// Controls emission of line directives in generated source.
pub type SlangLineDirectiveMode = u32;
/// Pick behavior based on the target.
pub const SLANG_LINE_DIRECTIVE_MODE_DEFAULT: SlangLineDirectiveMode = 0;
/// Do not emit line directives at all.
pub const SLANG_LINE_DIRECTIVE_MODE_NONE: SlangLineDirectiveMode = 1;
/// Emit standard C-style line directives.
pub const SLANG_LINE_DIRECTIVE_MODE_STANDARD: SlangLineDirectiveMode = 2;
/// Emit GLSL-style directives with a file number instead of a name.
pub const SLANG_LINE_DIRECTIVE_MODE_GLSL: SlangLineDirectiveMode = 3;
/// Use a source map to track line mappings; no directives appear in the
/// emitted source.
pub const SLANG_LINE_DIRECTIVE_MODE_SOURCE_MAP: SlangLineDirectiveMode = 4;

/// The language a source unit is written in.
pub type SlangSourceLanguage = i32;
pub const SLANG_SOURCE_LANGUAGE_UNKNOWN: SlangSourceLanguage = 0;
pub const SLANG_SOURCE_LANGUAGE_SLANG: SlangSourceLanguage = 1;
pub const SLANG_SOURCE_LANGUAGE_HLSL: SlangSourceLanguage = 2;
pub const SLANG_SOURCE_LANGUAGE_GLSL: SlangSourceLanguage = 3;
pub const SLANG_SOURCE_LANGUAGE_C: SlangSourceLanguage = 4;
pub const SLANG_SOURCE_LANGUAGE_CPP: SlangSourceLanguage = 5;
pub const SLANG_SOURCE_LANGUAGE_CUDA: SlangSourceLanguage = 6;
pub const SLANG_SOURCE_LANGUAGE_SPIRV: SlangSourceLanguage = 7;
pub const SLANG_SOURCE_LANGUAGE_METAL: SlangSourceLanguage = 8;
pub const SLANG_SOURCE_LANGUAGE_WGSL: SlangSourceLanguage = 9;
pub const SLANG_SOURCE_LANGUAGE_COUNT_OF: SlangSourceLanguage = SLANG_SOURCE_LANGUAGE_WGSL + 1;

/// Opaque identifier of a compilation profile; looked up by name at run
/// time, never stable across library versions.
pub type SlangProfileID = u32;
pub const SLANG_PROFILE_UNKNOWN: SlangProfileID = 0;

/// Opaque identifier of a capability atom.
pub type SlangCapabilityID = i32;
pub const SLANG_CAPABILITY_UNKNOWN: SlangCapabilityID = 0;

/// Matrix layout convention of a target.
pub type SlangMatrixLayoutMode = u32;
pub const SLANG_MATRIX_LAYOUT_MODE_UNKNOWN: SlangMatrixLayoutMode = 0;
pub const SLANG_MATRIX_LAYOUT_ROW_MAJOR: SlangMatrixLayoutMode = 1;
pub const SLANG_MATRIX_LAYOUT_COLUMN_MAJOR: SlangMatrixLayoutMode = 2;

/// Pipeline stage of an entry point.
pub type SlangStage = u32;
pub const SLANG_STAGE_NONE: SlangStage = 0;
pub const SLANG_STAGE_VERTEX: SlangStage = 1;
pub const SLANG_STAGE_HULL: SlangStage = 2;
pub const SLANG_STAGE_DOMAIN: SlangStage = 3;
pub const SLANG_STAGE_GEOMETRY: SlangStage = 4;
pub const SLANG_STAGE_FRAGMENT: SlangStage = 5;
pub const SLANG_STAGE_COMPUTE: SlangStage = 6;
pub const SLANG_STAGE_RAY_GENERATION: SlangStage = 7;
pub const SLANG_STAGE_INTERSECTION: SlangStage = 8;
pub const SLANG_STAGE_ANY_HIT: SlangStage = 9;
pub const SLANG_STAGE_CLOSEST_HIT: SlangStage = 10;
pub const SLANG_STAGE_MISS: SlangStage = 11;
pub const SLANG_STAGE_CALLABLE: SlangStage = 12;
pub const SLANG_STAGE_MESH: SlangStage = 13;
pub const SLANG_STAGE_AMPLIFICATION: SlangStage = 14;
pub const SLANG_STAGE_DISPATCH: SlangStage = 15;
pub const SLANG_STAGE_COUNT: SlangStage = SLANG_STAGE_DISPATCH + 1;
/// Alias for the fragment stage.
pub const SLANG_STAGE_PIXEL: SlangStage = SLANG_STAGE_FRAGMENT;

/// The format a compilation target produces.
pub type SlangCompileTarget = i32;
pub const SLANG_TARGET_UNKNOWN: SlangCompileTarget = 0;
pub const SLANG_TARGET_NONE: SlangCompileTarget = 1;
pub const SLANG_GLSL: SlangCompileTarget = 2;
/// Superseded alias; use plain GLSL instead.
pub const SLANG_GLSL_VULKAN_DEPRECATED: SlangCompileTarget = 3;
/// Superseded alias.
pub const SLANG_GLSL_VULKAN_ONE_DESC_DEPRECATED: SlangCompileTarget = 4;
pub const SLANG_HLSL: SlangCompileTarget = 5;
pub const SLANG_SPIRV: SlangCompileTarget = 6;
pub const SLANG_SPIRV_ASM: SlangCompileTarget = 7;
pub const SLANG_DXBC: SlangCompileTarget = 8;
pub const SLANG_DXBC_ASM: SlangCompileTarget = 9;
pub const SLANG_DXIL: SlangCompileTarget = 10;
pub const SLANG_DXIL_ASM: SlangCompileTarget = 11;
/// The C language.
pub const SLANG_C_SOURCE: SlangCompileTarget = 12;
/// C++ code for shared kernels.
pub const SLANG_CPP_SOURCE: SlangCompileTarget = 13;
/// Standalone binary executable for the hosting CPU and OS.
pub const SLANG_HOST_EXECUTABLE: SlangCompileTarget = 14;
/// A shared library of shader kernels for the hosting CPU and OS.
pub const SLANG_SHADER_SHARED_LIBRARY: SlangCompileTarget = 15;
/// A CPU target whose compiled shader code can be run immediately.
pub const SLANG_SHADER_HOST_CALLABLE: SlangCompileTarget = 16;
/// CUDA source.
pub const SLANG_CUDA_SOURCE: SlangCompileTarget = 17;
/// PTX.
pub const SLANG_PTX: SlangCompileTarget = 18;
/// Object code that contains CUDA functions.
pub const SLANG_CUDA_OBJECT_CODE: SlangCompileTarget = 19;
/// Object code usable for later linking.
pub const SLANG_OBJECT_CODE: SlangCompileTarget = 20;
/// C++ code for a host library or executable.
pub const SLANG_HOST_CPP_SOURCE: SlangCompileTarget = 21;
/// Host-callable host code, not kernel or shader code.
pub const SLANG_HOST_HOST_CALLABLE: SlangCompileTarget = 22;
/// C++ PyTorch binding code.
pub const SLANG_CPP_PYTORCH_BINDINGS: SlangCompileTarget = 23;
/// Metal shading language.
pub const SLANG_METAL: SlangCompileTarget = 24;
/// Metal library.
pub const SLANG_METAL_LIB: SlangCompileTarget = 25;
/// Metal library assembly.
pub const SLANG_METAL_LIB_ASM: SlangCompileTarget = 26;
/// A shared library of host code for the hosting CPU and OS.
pub const SLANG_HOST_SHARED_LIBRARY: SlangCompileTarget = 27;
/// WebGPU shading language.
pub const SLANG_WGSL: SlangCompileTarget = 28;
/// SPIR-V assembly via the WebGPU shading language.
pub const SLANG_WGSL_SPIRV_ASM: SlangCompileTarget = 29;
/// SPIR-V via the WebGPU shading language.
pub const SLANG_WGSL_SPIRV: SlangCompileTarget = 30;
/// Bytecode interpreted by the compiler's own virtual machine.
pub const SLANG_HOST_VM: SlangCompileTarget = 31;
pub const SLANG_TARGET_COUNT_OF: SlangCompileTarget = SLANG_HOST_VM + 1;

/// Flags that control compilation of the core builtin module.
pub type CompileCoreModuleFlags = u32;
pub const COMPILE_CORE_MODULE_FLAG_WRITE_DOCUMENTATION: CompileCoreModuleFlags = 0x01;

/// Version of the binding layer's ABI contract.
pub const SLANG_API_VERSION: u32 = 0;
/// The oldest language version a session opened by this layer will use.
pub const SLANG_LANGUAGE_VERSION_2025: u32 = 2025;

} // verus!
