//! Classification axes of the reflection data, as the native ABI encodes
//! them: each is a closed set of named values over a raw integer the native
//! library may extend in future versions, so decoding is total on the known
//! values and absent on the rest.

use vstd::prelude::*;

verus! {

/// What sort of type a reflected type is.
#[derive(Debug, Clone, Copy, PartialEq, Eq, Structural)]
pub enum TypeKind {
    Unspecified,
    Struct,
    Array,
    Matrix,
    Vector,
    Scalar,
    ConstantBuffer,
    Resource,
    SamplerState,
    TextureBuffer,
    ShaderStorageBuffer,
    ParameterBlock,
    GenericTypeParameter,
    Interface,
    OutputStream,
    Specialized,
    Feedback,
    Pointer,
    DynamicResource,
    MeshOutput,
}

impl TypeKind {
    /// The raw ABI value of this classification.
    pub open spec fn spec_raw(self) -> u32 {
        match self {
            TypeKind::Unspecified => 0,
            TypeKind::Struct => 1,
            TypeKind::Array => 2,
            TypeKind::Matrix => 3,
            TypeKind::Vector => 4,
            TypeKind::Scalar => 5,
            TypeKind::ConstantBuffer => 6,
            TypeKind::Resource => 7,
            TypeKind::SamplerState => 8,
            TypeKind::TextureBuffer => 9,
            TypeKind::ShaderStorageBuffer => 10,
            TypeKind::ParameterBlock => 11,
            TypeKind::GenericTypeParameter => 12,
            TypeKind::Interface => 13,
            TypeKind::OutputStream => 14,
            TypeKind::Specialized => 16,
            TypeKind::Feedback => 17,
            TypeKind::Pointer => 18,
            TypeKind::DynamicResource => 19,
            TypeKind::MeshOutput => 15,
        }
    }

    /// The classification a raw ABI value names, if any: future values the
    /// native library may introduce decode to the absent option.
    pub open spec fn spec_from_raw(raw: u32) -> Option<TypeKind> {
        if raw == 0 {
            Some(TypeKind::Unspecified)
        } else if raw == 1 {
            Some(TypeKind::Struct)
        } else if raw == 2 {
            Some(TypeKind::Array)
        } else if raw == 3 {
            Some(TypeKind::Matrix)
        } else if raw == 4 {
            Some(TypeKind::Vector)
        } else if raw == 5 {
            Some(TypeKind::Scalar)
        } else if raw == 6 {
            Some(TypeKind::ConstantBuffer)
        } else if raw == 7 {
            Some(TypeKind::Resource)
        } else if raw == 8 {
            Some(TypeKind::SamplerState)
        } else if raw == 9 {
            Some(TypeKind::TextureBuffer)
        } else if raw == 10 {
            Some(TypeKind::ShaderStorageBuffer)
        } else if raw == 11 {
            Some(TypeKind::ParameterBlock)
        } else if raw == 12 {
            Some(TypeKind::GenericTypeParameter)
        } else if raw == 13 {
            Some(TypeKind::Interface)
        } else if raw == 14 {
            Some(TypeKind::OutputStream)
        } else if raw == 16 {
            Some(TypeKind::Specialized)
        } else if raw == 17 {
            Some(TypeKind::Feedback)
        } else if raw == 18 {
            Some(TypeKind::Pointer)
        } else if raw == 19 {
            Some(TypeKind::DynamicResource)
        } else if raw == 15 {
            Some(TypeKind::MeshOutput)
        } else {
            None
        }
    }

    /// Lowers the classification to its raw ABI value.
    pub fn as_raw(self) -> (r: u32)
        ensures
            r == self.spec_raw(),
    {
        match self {
            TypeKind::Unspecified => 0,
            TypeKind::Struct => 1,
            TypeKind::Array => 2,
            TypeKind::Matrix => 3,
            TypeKind::Vector => 4,
            TypeKind::Scalar => 5,
            TypeKind::ConstantBuffer => 6,
            TypeKind::Resource => 7,
            TypeKind::SamplerState => 8,
            TypeKind::TextureBuffer => 9,
            TypeKind::ShaderStorageBuffer => 10,
            TypeKind::ParameterBlock => 11,
            TypeKind::GenericTypeParameter => 12,
            TypeKind::Interface => 13,
            TypeKind::OutputStream => 14,
            TypeKind::Specialized => 16,
            TypeKind::Feedback => 17,
            TypeKind::Pointer => 18,
            TypeKind::DynamicResource => 19,
            TypeKind::MeshOutput => 15,
        }
    }

    /// Decodes a raw ABI value back to the classification it names.
    pub fn from_raw(raw: u32) -> (r: Option<TypeKind>)
        ensures
            r == TypeKind::spec_from_raw(raw),
    {
        match raw {
            0 => Some(TypeKind::Unspecified),
            1 => Some(TypeKind::Struct),
            2 => Some(TypeKind::Array),
            3 => Some(TypeKind::Matrix),
            4 => Some(TypeKind::Vector),
            5 => Some(TypeKind::Scalar),
            6 => Some(TypeKind::ConstantBuffer),
            7 => Some(TypeKind::Resource),
            8 => Some(TypeKind::SamplerState),
            9 => Some(TypeKind::TextureBuffer),
            10 => Some(TypeKind::ShaderStorageBuffer),
            11 => Some(TypeKind::ParameterBlock),
            12 => Some(TypeKind::GenericTypeParameter),
            13 => Some(TypeKind::Interface),
            14 => Some(TypeKind::OutputStream),
            16 => Some(TypeKind::Specialized),
            17 => Some(TypeKind::Feedback),
            18 => Some(TypeKind::Pointer),
            19 => Some(TypeKind::DynamicResource),
            15 => Some(TypeKind::MeshOutput),
            _ => None,
        }
    }
}

/// Tag round trip: lowering any TypeKind value to its raw integer and
/// decoding that integer back yields the identical value.
pub proof fn lemma_type_kind_round_trip(k: TypeKind)
    ensures
        TypeKind::spec_from_raw(k.spec_raw()) == Some(k),
{
}
/// The scalar element classification of a reflected type.
#[derive(Debug, Clone, Copy, PartialEq, Eq, Structural)]
pub enum ScalarType {
    Unspecified,
    Void,
    Bool,
    Int32,
    UInt32,
    Int64,
    UInt64,
    Float16,
    Float32,
    Float64,
    Int8,
    UInt8,
    Int16,
    UInt16,
}

impl ScalarType {
    /// The raw ABI value of this classification.
    pub open spec fn spec_raw(self) -> u32 {
        match self {
            ScalarType::Unspecified => 0,
            ScalarType::Void => 1,
            ScalarType::Bool => 2,
            ScalarType::Int32 => 3,
            ScalarType::UInt32 => 4,
            ScalarType::Int64 => 5,
            ScalarType::UInt64 => 6,
            ScalarType::Float16 => 7,
            ScalarType::Float32 => 8,
            ScalarType::Float64 => 9,
            ScalarType::Int8 => 10,
            ScalarType::UInt8 => 11,
            ScalarType::Int16 => 12,
            ScalarType::UInt16 => 13,
        }
    }

    /// The classification a raw ABI value names, if any: future values the
    /// native library may introduce decode to the absent option.
    pub open spec fn spec_from_raw(raw: u32) -> Option<ScalarType> {
        if raw == 0 {
            Some(ScalarType::Unspecified)
        } else if raw == 1 {
            Some(ScalarType::Void)
        } else if raw == 2 {
            Some(ScalarType::Bool)
        } else if raw == 3 {
            Some(ScalarType::Int32)
        } else if raw == 4 {
            Some(ScalarType::UInt32)
        } else if raw == 5 {
            Some(ScalarType::Int64)
        } else if raw == 6 {
            Some(ScalarType::UInt64)
        } else if raw == 7 {
            Some(ScalarType::Float16)
        } else if raw == 8 {
            Some(ScalarType::Float32)
        } else if raw == 9 {
            Some(ScalarType::Float64)
        } else if raw == 10 {
            Some(ScalarType::Int8)
        } else if raw == 11 {
            Some(ScalarType::UInt8)
        } else if raw == 12 {
            Some(ScalarType::Int16)
        } else if raw == 13 {
            Some(ScalarType::UInt16)
        } else {
            None
        }
    }

    /// Lowers the classification to its raw ABI value.
    pub fn as_raw(self) -> (r: u32)
        ensures
            r == self.spec_raw(),
    {
        match self {
            ScalarType::Unspecified => 0,
            ScalarType::Void => 1,
            ScalarType::Bool => 2,
            ScalarType::Int32 => 3,
            ScalarType::UInt32 => 4,
            ScalarType::Int64 => 5,
            ScalarType::UInt64 => 6,
            ScalarType::Float16 => 7,
            ScalarType::Float32 => 8,
            ScalarType::Float64 => 9,
            ScalarType::Int8 => 10,
            ScalarType::UInt8 => 11,
            ScalarType::Int16 => 12,
            ScalarType::UInt16 => 13,
        }
    }

    /// Decodes a raw ABI value back to the classification it names.
    pub fn from_raw(raw: u32) -> (r: Option<ScalarType>)
        ensures
            r == ScalarType::spec_from_raw(raw),
    {
        match raw {
            0 => Some(ScalarType::Unspecified),
            1 => Some(ScalarType::Void),
            2 => Some(ScalarType::Bool),
            3 => Some(ScalarType::Int32),
            4 => Some(ScalarType::UInt32),
            5 => Some(ScalarType::Int64),
            6 => Some(ScalarType::UInt64),
            7 => Some(ScalarType::Float16),
            8 => Some(ScalarType::Float32),
            9 => Some(ScalarType::Float64),
            10 => Some(ScalarType::Int8),
            11 => Some(ScalarType::UInt8),
            12 => Some(ScalarType::Int16),
            13 => Some(ScalarType::UInt16),
            _ => None,
        }
    }
}

/// Tag round trip: lowering any ScalarType value to its raw integer and
/// decoding that integer back yields the identical value.
pub proof fn lemma_scalar_type_round_trip(k: ScalarType)
    ensures
        ScalarType::spec_from_raw(k.spec_raw()) == Some(k),
{
}
/// The resource the bytes or slots of a shader parameter are counted against.
#[derive(Debug, Clone, Copy, PartialEq, Eq, Structural)]
pub enum ParameterCategory {
    Unspecified,
    Mixed,
    ConstantBuffer,
    ShaderResource,
    UnorderedAccess,
    VaryingInput,
    VaryingOutput,
    SamplerState,
    Uniform,
    DescriptorTableSlot,
    SpecializationConstant,
    PushConstantBuffer,
    /// HLSL register `space`, Vulkan GLSL `set`.
    RegisterSpace,
    /// A parameter whose type is specialized by a global generic type argument.
    GenericResource,
    RayPayload,
    HitAttributes,
    CallablePayload,
    ShaderRecord,
    /// A hole to fill with a concrete type so that specialized code can be generated.
    ExistentialTypeParam,
    /// A value that provides data for an interface-type shader parameter.
    ExistentialObjectParam,
    /// Register-space offset for sub-elements that occupy register spaces.
    SubElementRegisterSpace,
    /// The input-attachment-index subpass occupancy tracker.
    InputAttachmentIndex,
    /// Metal tier-1 argument buffer element id.
    MetalArgumentBufferElement,
    /// Metal attribute inputs.
    MetalAttribute,
    /// Metal payload inputs.
    MetalPayload,
}

impl ParameterCategory {
    /// The raw ABI value of this classification.
    pub open spec fn spec_raw(self) -> u32 {
        match self {
            ParameterCategory::Unspecified => 0,
            ParameterCategory::Mixed => 1,
            ParameterCategory::ConstantBuffer => 2,
            ParameterCategory::ShaderResource => 3,
            ParameterCategory::UnorderedAccess => 4,
            ParameterCategory::VaryingInput => 5,
            ParameterCategory::VaryingOutput => 6,
            ParameterCategory::SamplerState => 7,
            ParameterCategory::Uniform => 8,
            ParameterCategory::DescriptorTableSlot => 9,
            ParameterCategory::SpecializationConstant => 10,
            ParameterCategory::PushConstantBuffer => 11,
            ParameterCategory::RegisterSpace => 12,
            ParameterCategory::GenericResource => 13,
            ParameterCategory::RayPayload => 14,
            ParameterCategory::HitAttributes => 15,
            ParameterCategory::CallablePayload => 16,
            ParameterCategory::ShaderRecord => 17,
            ParameterCategory::ExistentialTypeParam => 18,
            ParameterCategory::ExistentialObjectParam => 19,
            ParameterCategory::SubElementRegisterSpace => 20,
            ParameterCategory::InputAttachmentIndex => 21,
            ParameterCategory::MetalArgumentBufferElement => 22,
            ParameterCategory::MetalAttribute => 23,
            ParameterCategory::MetalPayload => 24,
        }
    }

    /// The classification a raw ABI value names, if any: future values the
    /// native library may introduce decode to the absent option.
    pub open spec fn spec_from_raw(raw: u32) -> Option<ParameterCategory> {
        if raw == 0 {
            Some(ParameterCategory::Unspecified)
        } else if raw == 1 {
            Some(ParameterCategory::Mixed)
        } else if raw == 2 {
            Some(ParameterCategory::ConstantBuffer)
        } else if raw == 3 {
            Some(ParameterCategory::ShaderResource)
        } else if raw == 4 {
            Some(ParameterCategory::UnorderedAccess)
        } else if raw == 5 {
            Some(ParameterCategory::VaryingInput)
        } else if raw == 6 {
            Some(ParameterCategory::VaryingOutput)
        } else if raw == 7 {
            Some(ParameterCategory::SamplerState)
        } else if raw == 8 {
            Some(ParameterCategory::Uniform)
        } else if raw == 9 {
            Some(ParameterCategory::DescriptorTableSlot)
        } else if raw == 10 {
            Some(ParameterCategory::SpecializationConstant)
        } else if raw == 11 {
            Some(ParameterCategory::PushConstantBuffer)
        } else if raw == 12 {
            Some(ParameterCategory::RegisterSpace)
        } else if raw == 13 {
            Some(ParameterCategory::GenericResource)
        } else if raw == 14 {
            Some(ParameterCategory::RayPayload)
        } else if raw == 15 {
            Some(ParameterCategory::HitAttributes)
        } else if raw == 16 {
            Some(ParameterCategory::CallablePayload)
        } else if raw == 17 {
            Some(ParameterCategory::ShaderRecord)
        } else if raw == 18 {
            Some(ParameterCategory::ExistentialTypeParam)
        } else if raw == 19 {
            Some(ParameterCategory::ExistentialObjectParam)
        } else if raw == 20 {
            Some(ParameterCategory::SubElementRegisterSpace)
        } else if raw == 21 {
            Some(ParameterCategory::InputAttachmentIndex)
        } else if raw == 22 {
            Some(ParameterCategory::MetalArgumentBufferElement)
        } else if raw == 23 {
            Some(ParameterCategory::MetalAttribute)
        } else if raw == 24 {
            Some(ParameterCategory::MetalPayload)
        } else {
            None
        }
    }

    /// Lowers the classification to its raw ABI value.
    pub fn as_raw(self) -> (r: u32)
        ensures
            r == self.spec_raw(),
    {
        match self {
            ParameterCategory::Unspecified => 0,
            ParameterCategory::Mixed => 1,
            ParameterCategory::ConstantBuffer => 2,
            ParameterCategory::ShaderResource => 3,
            ParameterCategory::UnorderedAccess => 4,
            ParameterCategory::VaryingInput => 5,
            ParameterCategory::VaryingOutput => 6,
            ParameterCategory::SamplerState => 7,
            ParameterCategory::Uniform => 8,
            ParameterCategory::DescriptorTableSlot => 9,
            ParameterCategory::SpecializationConstant => 10,
            ParameterCategory::PushConstantBuffer => 11,
            ParameterCategory::RegisterSpace => 12,
            ParameterCategory::GenericResource => 13,
            ParameterCategory::RayPayload => 14,
            ParameterCategory::HitAttributes => 15,
            ParameterCategory::CallablePayload => 16,
            ParameterCategory::ShaderRecord => 17,
            ParameterCategory::ExistentialTypeParam => 18,
            ParameterCategory::ExistentialObjectParam => 19,
            ParameterCategory::SubElementRegisterSpace => 20,
            ParameterCategory::InputAttachmentIndex => 21,
            ParameterCategory::MetalArgumentBufferElement => 22,
            ParameterCategory::MetalAttribute => 23,
            ParameterCategory::MetalPayload => 24,
        }
    }

    /// Decodes a raw ABI value back to the classification it names.
    pub fn from_raw(raw: u32) -> (r: Option<ParameterCategory>)
        ensures
            r == ParameterCategory::spec_from_raw(raw),
    {
        match raw {
            0 => Some(ParameterCategory::Unspecified),
            1 => Some(ParameterCategory::Mixed),
            2 => Some(ParameterCategory::ConstantBuffer),
            3 => Some(ParameterCategory::ShaderResource),
            4 => Some(ParameterCategory::UnorderedAccess),
            5 => Some(ParameterCategory::VaryingInput),
            6 => Some(ParameterCategory::VaryingOutput),
            7 => Some(ParameterCategory::SamplerState),
            8 => Some(ParameterCategory::Uniform),
            9 => Some(ParameterCategory::DescriptorTableSlot),
            10 => Some(ParameterCategory::SpecializationConstant),
            11 => Some(ParameterCategory::PushConstantBuffer),
            12 => Some(ParameterCategory::RegisterSpace),
            13 => Some(ParameterCategory::GenericResource),
            14 => Some(ParameterCategory::RayPayload),
            15 => Some(ParameterCategory::HitAttributes),
            16 => Some(ParameterCategory::CallablePayload),
            17 => Some(ParameterCategory::ShaderRecord),
            18 => Some(ParameterCategory::ExistentialTypeParam),
            19 => Some(ParameterCategory::ExistentialObjectParam),
            20 => Some(ParameterCategory::SubElementRegisterSpace),
            21 => Some(ParameterCategory::InputAttachmentIndex),
            22 => Some(ParameterCategory::MetalArgumentBufferElement),
            23 => Some(ParameterCategory::MetalAttribute),
            24 => Some(ParameterCategory::MetalPayload),
            _ => None,
        }
    }
}

/// Tag round trip: lowering any ParameterCategory value to its raw integer and
/// decoding that integer back yields the identical value.
pub proof fn lemma_parameter_category_round_trip(k: ParameterCategory)
    ensures
        ParameterCategory::spec_from_raw(k.spec_raw()) == Some(k),
{
}
/// How a binding range maps onto target-platform binding slots.
#[derive(Debug, Clone, Copy, PartialEq, Eq, Structural)]
pub enum BindingType {
    Unknown,
    Sampler,
    Texture,
    ConstantBuffer,
    ParameterBlock,
    TypedBuffer,
    RawBuffer,
    CombinedTextureSampler,
    InputRenderTarget,
    InlineUniformData,
    RayTracingAccelerationStructure,
    VaryingInput,
    VaryingOutput,
    ExistentialValue,
    PushConstant,
    MutableFlag,
    MutableTexture,
    MutableTypedBuffer,
    MutableRawBuffer,
    BaseMask,
    ExtMask,
}

impl BindingType {
    /// The raw ABI value of this classification.
    pub open spec fn spec_raw(self) -> u32 {
        match self {
            BindingType::Unknown => 0,
            BindingType::Sampler => 1,
            BindingType::Texture => 2,
            BindingType::ConstantBuffer => 3,
            BindingType::ParameterBlock => 4,
            BindingType::TypedBuffer => 5,
            BindingType::RawBuffer => 6,
            BindingType::CombinedTextureSampler => 7,
            BindingType::InputRenderTarget => 8,
            BindingType::InlineUniformData => 9,
            BindingType::RayTracingAccelerationStructure => 10,
            BindingType::VaryingInput => 11,
            BindingType::VaryingOutput => 12,
            BindingType::ExistentialValue => 13,
            BindingType::PushConstant => 14,
            BindingType::MutableFlag => 256,
            BindingType::MutableTexture => 258,
            BindingType::MutableTypedBuffer => 261,
            BindingType::MutableRawBuffer => 262,
            BindingType::BaseMask => 255,
            BindingType::ExtMask => 65280,
        }
    }

    /// The classification a raw ABI value names, if any: future values the
    /// native library may introduce decode to the absent option.
    pub open spec fn spec_from_raw(raw: u32) -> Option<BindingType> {
        if raw == 0 {
            Some(BindingType::Unknown)
        } else if raw == 1 {
            Some(BindingType::Sampler)
        } else if raw == 2 {
            Some(BindingType::Texture)
        } else if raw == 3 {
            Some(BindingType::ConstantBuffer)
        } else if raw == 4 {
            Some(BindingType::ParameterBlock)
        } else if raw == 5 {
            Some(BindingType::TypedBuffer)
        } else if raw == 6 {
            Some(BindingType::RawBuffer)
        } else if raw == 7 {
            Some(BindingType::CombinedTextureSampler)
        } else if raw == 8 {
            Some(BindingType::InputRenderTarget)
        } else if raw == 9 {
            Some(BindingType::InlineUniformData)
        } else if raw == 10 {
            Some(BindingType::RayTracingAccelerationStructure)
        } else if raw == 11 {
            Some(BindingType::VaryingInput)
        } else if raw == 12 {
            Some(BindingType::VaryingOutput)
        } else if raw == 13 {
            Some(BindingType::ExistentialValue)
        } else if raw == 14 {
            Some(BindingType::PushConstant)
        } else if raw == 256 {
            Some(BindingType::MutableFlag)
        } else if raw == 258 {
            Some(BindingType::MutableTexture)
        } else if raw == 261 {
            Some(BindingType::MutableTypedBuffer)
        } else if raw == 262 {
            Some(BindingType::MutableRawBuffer)
        } else if raw == 255 {
            Some(BindingType::BaseMask)
        } else if raw == 65280 {
            Some(BindingType::ExtMask)
        } else {
            None
        }
    }

    /// Lowers the classification to its raw ABI value.
    pub fn as_raw(self) -> (r: u32)
        ensures
            r == self.spec_raw(),
    {
        match self {
            BindingType::Unknown => 0,
            BindingType::Sampler => 1,
            BindingType::Texture => 2,
            BindingType::ConstantBuffer => 3,
            BindingType::ParameterBlock => 4,
            BindingType::TypedBuffer => 5,
            BindingType::RawBuffer => 6,
            BindingType::CombinedTextureSampler => 7,
            BindingType::InputRenderTarget => 8,
            BindingType::InlineUniformData => 9,
            BindingType::RayTracingAccelerationStructure => 10,
            BindingType::VaryingInput => 11,
            BindingType::VaryingOutput => 12,
            BindingType::ExistentialValue => 13,
            BindingType::PushConstant => 14,
            BindingType::MutableFlag => 256,
            BindingType::MutableTexture => 258,
            BindingType::MutableTypedBuffer => 261,
            BindingType::MutableRawBuffer => 262,
            BindingType::BaseMask => 255,
            BindingType::ExtMask => 65280,
        }
    }

    /// Decodes a raw ABI value back to the classification it names.
    pub fn from_raw(raw: u32) -> (r: Option<BindingType>)
        ensures
            r == BindingType::spec_from_raw(raw),
    {
        match raw {
            0 => Some(BindingType::Unknown),
            1 => Some(BindingType::Sampler),
            2 => Some(BindingType::Texture),
            3 => Some(BindingType::ConstantBuffer),
            4 => Some(BindingType::ParameterBlock),
            5 => Some(BindingType::TypedBuffer),
            6 => Some(BindingType::RawBuffer),
            7 => Some(BindingType::CombinedTextureSampler),
            8 => Some(BindingType::InputRenderTarget),
            9 => Some(BindingType::InlineUniformData),
            10 => Some(BindingType::RayTracingAccelerationStructure),
            11 => Some(BindingType::VaryingInput),
            12 => Some(BindingType::VaryingOutput),
            13 => Some(BindingType::ExistentialValue),
            14 => Some(BindingType::PushConstant),
            256 => Some(BindingType::MutableFlag),
            258 => Some(BindingType::MutableTexture),
            261 => Some(BindingType::MutableTypedBuffer),
            262 => Some(BindingType::MutableRawBuffer),
            255 => Some(BindingType::BaseMask),
            65280 => Some(BindingType::ExtMask),
            _ => None,
        }
    }
}

/// Tag round trip: lowering any BindingType value to its raw integer and
/// decoding that integer back yields the identical value.
pub proof fn lemma_binding_type_round_trip(k: BindingType)
    ensures
        BindingType::spec_from_raw(k.spec_raw()) == Some(k),
{
}
} // verus!
