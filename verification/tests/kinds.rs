use slang::reflection::BindingType;
use slang::reflection::ParameterCategory;
use slang::reflection::ScalarType;
use slang::reflection::TypeKind;
use slang::BuiltinModuleName;
use slang::CompilerOptionName;
use slang::CompilerOptionValueKind;
use slang::ContainerType;
use slang::SpecializationArgKind;

#[test]
fn type_kind_raw_values() {
    assert_eq!(TypeKind::Unspecified.as_raw(), 0);
    assert_eq!(TypeKind::Struct.as_raw(), 1);
    assert_eq!(TypeKind::Scalar.as_raw(), 5);
    assert_eq!(TypeKind::OutputStream.as_raw(), 14);
    assert_eq!(TypeKind::MeshOutput.as_raw(), 15);
    assert_eq!(TypeKind::Specialized.as_raw(), 16);
    assert_eq!(TypeKind::DynamicResource.as_raw(), 19);
}

#[test]
fn type_kind_round_trips_through_raw() {
    let kinds = [
        TypeKind::Unspecified,
        TypeKind::Struct,
        TypeKind::Array,
        TypeKind::Matrix,
        TypeKind::Vector,
        TypeKind::Scalar,
        TypeKind::ConstantBuffer,
        TypeKind::Resource,
        TypeKind::SamplerState,
        TypeKind::TextureBuffer,
        TypeKind::ShaderStorageBuffer,
        TypeKind::ParameterBlock,
        TypeKind::GenericTypeParameter,
        TypeKind::Interface,
        TypeKind::OutputStream,
        TypeKind::Specialized,
        TypeKind::Feedback,
        TypeKind::Pointer,
        TypeKind::DynamicResource,
        TypeKind::MeshOutput,
    ];
    for k in kinds {
        assert_eq!(TypeKind::from_raw(k.as_raw()), Some(k));
    }
    assert_eq!(TypeKind::from_raw(20), None);
    assert_eq!(TypeKind::from_raw(u32::MAX), None);
}

#[test]
fn scalar_type_round_trips_through_raw() {
    let scalars = [
        ScalarType::Unspecified,
        ScalarType::Void,
        ScalarType::Bool,
        ScalarType::Int32,
        ScalarType::UInt32,
        ScalarType::Int64,
        ScalarType::UInt64,
        ScalarType::Float16,
        ScalarType::Float32,
        ScalarType::Float64,
        ScalarType::Int8,
        ScalarType::UInt8,
        ScalarType::Int16,
        ScalarType::UInt16,
    ];
    for s in scalars {
        assert_eq!(ScalarType::from_raw(s.as_raw()), Some(s));
    }
    assert_eq!(ScalarType::Float32.as_raw(), 8);
    assert_eq!(ScalarType::from_raw(14), None);
}

#[test]
fn parameter_category_round_trips_through_raw() {
    let categories = [
        ParameterCategory::Unspecified,
        ParameterCategory::Mixed,
        ParameterCategory::ConstantBuffer,
        ParameterCategory::ShaderResource,
        ParameterCategory::UnorderedAccess,
        ParameterCategory::VaryingInput,
        ParameterCategory::VaryingOutput,
        ParameterCategory::SamplerState,
        ParameterCategory::Uniform,
        ParameterCategory::DescriptorTableSlot,
        ParameterCategory::SpecializationConstant,
        ParameterCategory::PushConstantBuffer,
        ParameterCategory::RegisterSpace,
        ParameterCategory::GenericResource,
        ParameterCategory::RayPayload,
        ParameterCategory::HitAttributes,
        ParameterCategory::CallablePayload,
        ParameterCategory::ShaderRecord,
        ParameterCategory::ExistentialTypeParam,
        ParameterCategory::ExistentialObjectParam,
        ParameterCategory::SubElementRegisterSpace,
        ParameterCategory::InputAttachmentIndex,
        ParameterCategory::MetalArgumentBufferElement,
        ParameterCategory::MetalAttribute,
        ParameterCategory::MetalPayload,
    ];
    for c in categories {
        assert_eq!(ParameterCategory::from_raw(c.as_raw()), Some(c));
    }
    assert_eq!(ParameterCategory::Uniform.as_raw(), 8);
    assert_eq!(ParameterCategory::MetalPayload.as_raw(), 24);
    assert_eq!(ParameterCategory::from_raw(25), None);
}

#[test]
fn binding_type_round_trips_through_raw() {
    let bindings = [
        BindingType::Unknown,
        BindingType::Sampler,
        BindingType::Texture,
        BindingType::ConstantBuffer,
        BindingType::ParameterBlock,
        BindingType::TypedBuffer,
        BindingType::RawBuffer,
        BindingType::CombinedTextureSampler,
        BindingType::InputRenderTarget,
        BindingType::InlineUniformData,
        BindingType::RayTracingAccelerationStructure,
        BindingType::VaryingInput,
        BindingType::VaryingOutput,
        BindingType::ExistentialValue,
        BindingType::PushConstant,
        BindingType::MutableFlag,
        BindingType::MutableTexture,
        BindingType::MutableTypedBuffer,
        BindingType::MutableRawBuffer,
        BindingType::BaseMask,
        BindingType::ExtMask,
    ];
    for b in bindings {
        assert_eq!(BindingType::from_raw(b.as_raw()), Some(b));
    }
    assert_eq!(BindingType::MutableFlag.as_raw(), 0x100);
    assert_eq!(BindingType::MutableTexture.as_raw(), 0x102);
    assert_eq!(BindingType::MutableTypedBuffer.as_raw(), 0x105);
    assert_eq!(BindingType::MutableRawBuffer.as_raw(), 0x106);
    assert_eq!(BindingType::BaseMask.as_raw(), 0x00ff);
    assert_eq!(BindingType::ExtMask.as_raw(), 0xff00);
    assert_eq!(BindingType::from_raw(15), None);
    assert_eq!(BindingType::from_raw(0x101), None);
}

#[test]
fn compiler_option_name_round_trips_through_raw() {
    assert_eq!(CompilerOptionName::MacroDefine.as_raw(), 0);
    assert_eq!(CompilerOptionName::DepFile.as_raw(), 1);
    assert_eq!(CompilerOptionName::Capability.as_raw(), 39);
    assert_eq!(CompilerOptionName::EmitSpirvDirectly.as_raw(), 58);
    assert_eq!(CompilerOptionName::CountOf.as_raw(), 128);
    let sample = [
        CompilerOptionName::MacroDefine,
        CompilerOptionName::Language,
        CompilerOptionName::Target,
        CompilerOptionName::Optimization,
        CompilerOptionName::VulkanBindShift,
        CompilerOptionName::CompilerPath,
        CompilerOptionName::DumpAst,
        CompilerOptionName::FileSystem,
        CompilerOptionName::ArchiveType,
        CompilerOptionName::LanguageVersion,
        CompilerOptionName::CountOfParsableOptions,
        CompilerOptionName::DenormalModeFp64,
        CompilerOptionName::ForceCLayout,
        CompilerOptionName::CountOf,
    ];
    for o in sample {
        assert_eq!(CompilerOptionName::from_raw(o.as_raw()), Some(o));
    }
    assert_eq!(CompilerOptionName::from_raw(129), None);
    assert_eq!(CompilerOptionName::from_raw(-1), None);
}

#[test]
fn small_descriptor_enums_round_trip_through_raw() {
    assert_eq!(BuiltinModuleName::from_raw(BuiltinModuleName::Core.as_raw()), Some(BuiltinModuleName::Core));
    assert_eq!(BuiltinModuleName::from_raw(BuiltinModuleName::GLSL.as_raw()), Some(BuiltinModuleName::GLSL));
    assert_eq!(BuiltinModuleName::from_raw(2), None);
    assert_eq!(CompilerOptionValueKind::Int.as_raw(), 0);
    assert_eq!(CompilerOptionValueKind::Text.as_raw(), 1);
    assert_eq!(CompilerOptionValueKind::from_raw(1), Some(CompilerOptionValueKind::Text));
    assert_eq!(ContainerType::ParameterBlock.as_raw(), 4);
    assert_eq!(ContainerType::from_raw(ContainerType::StructuredBuffer.as_raw()), Some(ContainerType::StructuredBuffer));
    assert_eq!(ContainerType::from_raw(5), None);
    assert_eq!(SpecializationArgKind::Type.as_raw(), 1);
    assert_eq!(SpecializationArgKind::from_raw(2), Some(SpecializationArgKind::Expr));
    assert_eq!(SpecializationArgKind::from_raw(3), None);
}
