use slang::abi::SLANG_API_VERSION;
use slang::abi::SLANG_FLOATING_POINT_MODE_DEFAULT;
use slang::abi::SLANG_LANGUAGE_VERSION_2025;
use slang::abi::SLANG_LINE_DIRECTIVE_MODE_DEFAULT;
use slang::abi::SLANG_MATRIX_LAYOUT_ROW_MAJOR;
use slang::abi::SLANG_PROFILE_UNKNOWN;
use slang::abi::SLANG_TARGET_FLAG_GENERATE_SPIRV_DIRECTLY;
use slang::abi::SLANG_TARGET_UNKNOWN;
use slang::desc::SLANG_GLOBAL_SESSION_DESC_SIZE;
use slang::desc::SLANG_SESSION_DESC_SIZE;
use slang::desc::SLANG_TARGET_DESC_SIZE;
use slang::GlobalSessionDesc;
use slang::PreprocessorMacroDesc;
use slang::SessionDesc;
use slang::SpecializationArg;
use slang::SpecializationArgKind;
use slang::SpecializationArgValue;
use slang::TargetDesc;
use slang::SESSION_FLAGS_NONE;

#[test]
fn recorded_abi_byte_sizes() {
    assert_eq!(SLANG_GLOBAL_SESSION_DESC_SIZE, 80);
    assert_eq!(SLANG_SESSION_DESC_SIZE, 96);
    assert_eq!(SLANG_TARGET_DESC_SIZE, 48);
}

#[test]
fn global_session_desc_default_seeds_its_size() {
    let d = GlobalSessionDesc::default();
    assert_eq!(d.structure_size, SLANG_GLOBAL_SESSION_DESC_SIZE);
    assert_eq!(d.api_version, SLANG_API_VERSION);
    assert_eq!(d.min_language_version, SLANG_LANGUAGE_VERSION_2025);
    assert!(!d.enable_glsl);
    assert_eq!(d.reserved, [0u32; 16]);
}

#[test]
fn target_desc_default_seeds_its_size() {
    let t = TargetDesc::default();
    assert_eq!(t.structure_size, SLANG_TARGET_DESC_SIZE);
    assert_eq!(t.format, SLANG_TARGET_UNKNOWN);
    assert_eq!(t.profile, SLANG_PROFILE_UNKNOWN);
    assert_eq!(t.flags, SLANG_TARGET_FLAG_GENERATE_SPIRV_DIRECTLY);
    assert_eq!(t.floating_point_mode, SLANG_FLOATING_POINT_MODE_DEFAULT);
    assert_eq!(t.line_directive_mode, SLANG_LINE_DIRECTIVE_MODE_DEFAULT);
    assert!(!t.force_glsl_scalar_buffer_layout);
    assert_eq!(t.compiler_option_entries.len(), 0);
}

#[test]
fn empty_session_desc_still_carries_its_true_size() {
    let s = SessionDesc::default();
    assert_eq!(s.structure_size, SLANG_SESSION_DESC_SIZE);
    assert_eq!(s.target_count(), 0);
    assert_eq!(s.search_path_count(), 0);
    assert_eq!(s.preprocessor_macro_count(), 0);
    assert_eq!(s.compiler_option_entry_count(), 0);
    assert_eq!(s.flags, SESSION_FLAGS_NONE);
    assert_eq!(s.default_matrix_layout_mode, SLANG_MATRIX_LAYOUT_ROW_MAJOR);
    assert!(s.file_system.is_none());
    assert!(!s.enable_effect_annotations);
    assert!(!s.allow_glsl_syntax);
    assert!(!s.skip_spirv_validation);
}

#[test]
fn session_desc_counts_follow_the_lists() {
    let mut s = SessionDesc::default();
    s.targets.push(TargetDesc::default());
    s.targets.push(TargetDesc::default());
    s.search_paths.push(String::from("shaders"));
    assert_eq!(s.target_count(), 2);
    assert_eq!(s.search_path_count(), 1);
    assert_eq!(s.structure_size, SLANG_SESSION_DESC_SIZE);
}

#[test]
fn preprocessor_macro_keeps_name_and_value() {
    let m = PreprocessorMacroDesc::new(String::from("WIDTH"), String::from("128"));
    assert_eq!(m.name, "WIDTH");
    assert_eq!(m.value, "128");
}

#[test]
fn specialization_arg_from_expr_announces_its_kind() {
    let a = SpecializationArg::from_expr(String::from("float4"));
    assert_eq!(a.kind, SpecializationArgKind::Expr);
    match &a.value {
        SpecializationArgValue::Expr(e) => assert_eq!(e, "float4"),
        _ => panic!("expression payload expected"),
    }
}
