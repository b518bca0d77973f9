use slang::reflection::Attribute;
use slang::reflection::AttributeArgument;
use slang::reflection::BindingRangeInfo;
use slang::reflection::BindingType;
use slang::reflection::Decl;
use slang::reflection::DescriptorRangeInfo;
use slang::reflection::DescriptorSetInfo;
use slang::reflection::EntryPoint;
use slang::reflection::Modifier;
use slang::reflection::ParameterCategory;
use slang::reflection::ScalarType;
use slang::reflection::Shader;
use slang::reflection::SubObjectRangeInfo;
use slang::reflection::Type;
use slang::reflection::TypeFieldIterator;
use slang::reflection::TypeKind;
use slang::reflection::TypeLayout;
use slang::reflection::TypeParameter;
use slang::reflection::Variable;
use slang::reflection::VariableLayout;
use slang::reflection::layout::SizeEntry;
use slang::reflection::program::DeclPayload;
use slang::reflection::program::Function;

fn leaf_type(name: &str, kind: TypeKind, scalar: ScalarType) -> Type {
    Type {
        kind,
        name: String::from(name),
        scalar,
        element_count: 0,
        row_count: 0,
        column_count: 0,
        resource_shape: 0,
        resource_access: 0,
        fields: Vec::new(),
        element_type: None,
        resource_result_type: None,
        user_attributes: Vec::new(),
        generic_container: None,
    }
}

fn plain_variable(name: &str) -> Variable {
    Variable {
        name: String::from(name),
        ty: Box::new(leaf_type("float", TypeKind::Scalar, ScalarType::Float32)),
        modifiers: Vec::new(),
        user_attributes: Vec::new(),
        default_value: None,
        generic_container: None,
    }
}

fn leaf_layout(ty: Type) -> TypeLayout {
    TypeLayout {
        ty: Box::new(ty),
        fields: Vec::new(),
        sizes: Vec::new(),
        categories: Vec::new(),
        parameter_category: ParameterCategory::Uniform,
        matrix_layout_mode: 0,
        generic_param_index: -1,
        element_type_layout: None,
        element_var_layout: None,
        container_var_layout: None,
        explicit_counter: None,
        explicit_counter_binding_range_offset: -1,
        pending_data_type_layout: None,
        specialized_type_pending_data_var_layout: None,
        binding_ranges: Vec::new(),
        descriptor_sets: Vec::new(),
        sub_object_ranges: Vec::new(),
    }
}

fn plain_variable_layout(name: &str) -> VariableLayout {
    VariableLayout {
        variable: Box::new(plain_variable(name)),
        type_layout: Box::new(leaf_layout(leaf_type(
            "float",
            TypeKind::Scalar,
            ScalarType::Float32,
        ))),
        offsets: Vec::new(),
        binding_index: 0,
        binding_space: 0,
        image_format: 0,
        semantic_name: None,
        semantic_index: 0,
        stage: 0,
        pending_data_layout: None,
    }
}

fn three_field_struct() -> Type {
    let mut t = leaf_type("Params", TypeKind::Struct, ScalarType::Unspecified);
    t.fields.push(plain_variable("alpha"));
    t.fields.push(plain_variable("beta"));
    t.fields.push(plain_variable("gamma"));
    t
}

#[test]
fn field_iteration_yields_count_items_in_index_order() {
    let t = three_field_struct();
    let mut it = t.iter_field();
    let names: [&str; 3] = ["alpha", "beta", "gamma"];
    let mut seen = 0usize;
    while let Some(v) = it.next() {
        assert_eq!(v.name(), names[seen]);
        seen += 1;
    }
    assert_eq!(seen, t.field_count());
    assert!(it.next().is_none());
}

#[test]
fn field_iteration_restarts_from_a_fresh_window() {
    let t = three_field_struct();
    let mut first = t.iter_field();
    while first.next().is_some() {}
    let mut again = TypeFieldIterator { refl: &t, current: 0, count: t.field_count() };
    assert_eq!(again.next().expect("restart yields the first field").name(), "alpha");
    assert_eq!(again.next().expect("restart yields the second field").name(), "beta");
    assert_eq!(again.next().expect("restart yields the third field").name(), "gamma");
    assert!(again.next().is_none());
}

#[test]
fn empty_window_yields_nothing() {
    let t = leaf_type("void", TypeKind::Unspecified, ScalarType::Void);
    let mut it = t.iter_field();
    assert!(it.next().is_none());
    assert!(it.next().is_none());
}

#[test]
fn indexed_field_access_matches_iteration() {
    let t = three_field_struct();
    assert_eq!(t.field(0).expect("in range").name(), "alpha");
    assert_eq!(t.field(2).expect("in range").name(), "gamma");
    assert!(t.field(3).is_none());
}

#[test]
fn attribute_arguments_answer_by_classification() {
    let a = Attribute {
        name: String::from("range"),
        arguments: vec![
            AttributeArgument::Int(4),
            AttributeArgument::Text(String::from("unit")),
        ],
    };
    assert_eq!(a.argument_count(), 2);
    assert_eq!(a.argument_value_int(0), Ok(4));
    assert!(a.argument_value_int(1).unwrap_err() < 0);
    assert!(a.argument_value_int(2).unwrap_err() < 0);
    assert_eq!(a.argument_value_string(1).expect("string argument"), "unit");
    assert!(a.argument_value_string(0).is_none());
    assert!(a.argument_value_string(9).is_none());
}

#[test]
fn find_user_attribute_by_name_finds_only_what_is_there() {
    let mut t = three_field_struct();
    t.user_attributes.push(Attribute { name: String::from("cold"), arguments: Vec::new() });
    t.user_attributes.push(Attribute { name: String::from("hot"), arguments: Vec::new() });
    let hot = String::from("hot");
    let missing = String::from("warm");
    assert_eq!(t.find_user_attribute_by_name(&hot).expect("present").name(), "hot");
    assert!(t.find_user_attribute_by_name(&missing).is_none());
}

#[test]
fn variable_modifiers_and_default_value() {
    let mut v = plain_variable("count");
    v.modifiers.push(Modifier { id: 11 });
    v.default_value = Some(42);
    assert_eq!(v.find_modifier(11).expect("present").id, 11);
    assert!(v.find_modifier(12).is_none());
    assert!(v.has_default_value());
    assert_eq!(v.default_value_int(), Ok(42));
    let bare = plain_variable("bare");
    assert!(!bare.has_default_value());
    assert!(bare.default_value_int().unwrap_err() < 0);
}

#[test]
fn layout_sizes_answer_per_category() {
    let mut l = leaf_layout(three_field_struct());
    l.sizes.push(SizeEntry {
        category: ParameterCategory::Uniform,
        size: 48,
        stride: 16,
        alignment: 16,
        element_stride: 16,
    });
    assert_eq!(l.size(ParameterCategory::Uniform), 48);
    assert_eq!(l.stride(ParameterCategory::Uniform), 16);
    assert_eq!(l.alignment(ParameterCategory::Uniform), 16);
    assert_eq!(l.element_stride(ParameterCategory::Uniform), 16);
    assert_eq!(l.size(ParameterCategory::ShaderResource), 0);
    assert_eq!(l.alignment(ParameterCategory::ShaderResource), 0);
}

#[test]
fn layout_field_index_search_uses_the_sentinel() {
    let mut l = leaf_layout(three_field_struct());
    l.fields.push(plain_variable_layout("alpha"));
    l.fields.push(plain_variable_layout("beta"));
    let beta = String::from("beta");
    let missing = String::from("delta");
    assert_eq!(l.find_field_index_by_name(&beta), 1);
    assert_eq!(l.find_field_index_by_name(&missing), -1);
}

#[test]
fn binding_range_views_read_their_record() {
    let mut l = leaf_layout(three_field_struct());
    l.binding_ranges.push(BindingRangeInfo {
        binding_type: BindingType::Texture,
        specializable: false,
        binding_count: 2,
        leaf_type_layout: None,
        leaf_variable: None,
        image_format: 7,
        descriptor_set_index: 0,
        first_descriptor_range_index: 0,
        descriptor_range_count: 1,
    });
    l.binding_ranges.push(BindingRangeInfo {
        binding_type: BindingType::ConstantBuffer,
        specializable: true,
        binding_count: 1,
        leaf_type_layout: None,
        leaf_variable: None,
        image_format: 0,
        descriptor_set_index: 0,
        first_descriptor_range_index: 1,
        descriptor_range_count: 1,
    });
    assert_eq!(l.binding_range_count(), 2);
    let mut it = l.iter_binding_range();
    let first = it.next().expect("two ranges");
    assert_eq!(first.ty(), BindingType::Texture);
    assert_eq!(first.binding_count(), 2);
    assert_eq!(first.image_format(), 7);
    assert!(!first.is_specializable());
    let second = it.next().expect("two ranges");
    assert_eq!(second.ty(), BindingType::ConstantBuffer);
    assert!(second.is_specializable());
    assert_eq!(second.first_descriptor_range_index(), 1);
    assert!(it.next().is_none());
}

#[test]
fn descriptor_set_iteration_walks_the_nested_ranges() {
    let mut l = leaf_layout(three_field_struct());
    l.descriptor_sets.push(DescriptorSetInfo {
        space_offset: 3,
        ranges: vec![
            DescriptorRangeInfo {
                index_offset: 0,
                descriptor_count: 1,
                binding_type: BindingType::Sampler,
                category: ParameterCategory::DescriptorTableSlot,
            },
            DescriptorRangeInfo {
                index_offset: 1,
                descriptor_count: 4,
                binding_type: BindingType::Texture,
                category: ParameterCategory::DescriptorTableSlot,
            },
        ],
    });
    assert_eq!(l.descriptor_set_count(), 1);
    let mut sets = l.iter_descriptor_set();
    let set = sets.next().expect("one set");
    assert_eq!(set.space_offset(), 3);
    assert_eq!(set.descriptor_range_count(), 2);
    assert_eq!(set.descriptor_range_type(1), BindingType::Texture);
    let mut ranges = set.iter_descriptor_range();
    let r0 = ranges.next().expect("two ranges");
    assert_eq!(r0.descriptor_count(), 1);
    assert_eq!(r0.ty(), BindingType::Sampler);
    let r1 = ranges.next().expect("two ranges");
    assert_eq!(r1.index_offset(), 1);
    assert_eq!(r1.category(), ParameterCategory::DescriptorTableSlot);
    assert!(ranges.next().is_none());
    assert!(sets.next().is_none());
}

#[test]
fn sub_object_range_views_read_their_record() {
    let mut l = leaf_layout(three_field_struct());
    l.sub_object_ranges.push(SubObjectRangeInfo {
        binding_range_index: 5,
        space_offset: 2,
        offset: None,
    });
    let mut it = l.iter_sub_object_range();
    let r = it.next().expect("one range");
    assert_eq!(r.binding_range_index(), 5);
    assert_eq!(r.space_offset(), 2);
    assert!(r.offset().is_none());
    assert!(it.next().is_none());
}

fn entry_point(name: &str, stage: u32) -> EntryPoint {
    EntryPoint {
        name: String::from(name),
        name_override: None,
        function: Box::new(Function {
            name: String::from(name),
            result_type: Box::new(leaf_type("void", TypeKind::Unspecified, ScalarType::Void)),
            parameters: Vec::new(),
            user_attributes: Vec::new(),
            modifiers: Vec::new(),
            overloads: Vec::new(),
            generic_container: None,
        }),
        parameters: Vec::new(),
        stage,
        compute_thread_group_size: [8, 8, 1],
        compute_wave_size: 32,
        uses_any_sample_rate_input: false,
        var_layout: Box::new(plain_variable_layout(name)),
        result_var_layout: Box::new(plain_variable_layout("result")),
        has_default_constant_buffer: false,
    }
}

#[test]
fn shader_entry_points_are_found_by_name_and_in_order() {
    let program = Shader {
        parameters: vec![plain_variable_layout("globals")],
        type_parameters: vec![TypeParameter {
            name: String::from("T"),
            index: 0,
            constraints: Vec::new(),
        }],
        entry_points: vec![entry_point("vertex_main", 1), entry_point("fragment_main", 5)],
        types: vec![leaf_type("Params", TypeKind::Struct, ScalarType::Unspecified)],
        functions: Vec::new(),
        global_constant_buffer_binding: 0,
        global_constant_buffer_size: 64,
        hashed_strings: vec![String::from("debug_marker")],
    };
    assert_eq!(program.entry_point_count(), 2);
    let frag = String::from("fragment_main");
    let missing = String::from("compute_main");
    assert_eq!(program.find_entry_point_by_name(&frag).expect("present").stage(), 5);
    assert!(program.find_entry_point_by_name(&missing).is_none());
    let t = String::from("T");
    assert_eq!(program.find_type_parameter(&t).expect("present").index(), 0);
    let mut it = program.iter_entry_point();
    assert_eq!(it.next().expect("first").name(), "vertex_main");
    assert_eq!(it.next().expect("second").name(), "fragment_main");
    assert!(it.next().is_none());
    assert_eq!(program.hashed_string(0).expect("present"), "debug_marker");
    assert!(program.hashed_string(1).is_none());
    assert_eq!(program.global_constant_buffer_size(), 64);
    let ep = program.entry_point(0).expect("present");
    assert_eq!(ep.compute_thread_group_size(), [8, 8, 1]);
    assert_eq!(ep.compute_wave_size(), 32);
    let params = String::from("Params");
    let lerp = String::from("lerp");
    assert_eq!(program.find_type_by_name(&params).expect("present").name(), "Params");
    assert!(program.find_function_by_name(&lerp).is_none());
}

#[test]
fn function_overloads_iterate_in_order() {
    let base = Function {
        name: String::from("lerp"),
        result_type: Box::new(leaf_type("float", TypeKind::Scalar, ScalarType::Float32)),
        parameters: vec![plain_variable("a"), plain_variable("b")],
        user_attributes: Vec::new(),
        modifiers: Vec::new(),
        overloads: Vec::new(),
        generic_container: None,
    };
    let mut wide = base;
    wide.overloads.push(Function {
        name: String::from("lerp"),
        result_type: Box::new(leaf_type("double", TypeKind::Scalar, ScalarType::Float64)),
        parameters: Vec::new(),
        user_attributes: Vec::new(),
        modifiers: Vec::new(),
        overloads: Vec::new(),
        generic_container: None,
    });
    assert!(wide.is_overloaded());
    assert_eq!(wide.overload_count(), 1);
    assert_eq!(wide.parameter_count(), 2);
    assert_eq!(wide.parameter(1).expect("present").name(), "b");
    let mut it = wide.iter_parameter();
    assert_eq!(it.next().expect("first").name(), "a");
    assert_eq!(it.next().expect("second").name(), "b");
    assert!(it.next().is_none());
}

#[test]
fn decl_tree_children_and_casts() {
    let child = Decl {
        name: String::from("position"),
        kind: 3,
        payload: DeclPayload::Var(Box::new(plain_variable("position"))),
        ty: None,
        children: Vec::new(),
    };
    let module = Decl {
        name: String::from("geometry"),
        kind: 1,
        payload: DeclPayload::Other,
        ty: None,
        children: vec![child],
    };
    assert_eq!(module.children_count(), 1);
    let mut it = module.iter_child();
    let c = it.next().expect("one child");
    assert_eq!(c.name(), "position");
    assert_eq!(c.as_variable().expect("variable payload").name(), "position");
    assert!(c.as_function().is_none());
    assert!(c.as_generic().is_none());
    assert!(module.as_variable().is_none());
    assert!(it.next().is_none());
}
