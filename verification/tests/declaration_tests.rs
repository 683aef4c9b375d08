use shader_bindings::declaration::{process_body, stage_sets, PARAMETER};
use shader_bindings::errors::DeclarationError;
use shader_bindings::glsl::{GLSLTYPE, QUALIFIER};

fn param(quals: &[QUALIFIER], gtype: GLSLTYPE, name: &str) -> PARAMETER {
    PARAMETER {
        qual: quals.to_vec(),
        gtype,
        name: name.to_string(),
    }
}

#[test]
fn stage_sets_split_by_direction() {
    let params = vec![
        param(&[QUALIFIER::VERTEX, QUALIFIER::IN], GLSLTYPE::ArrayVec3, "a_position"),
        param(&[QUALIFIER::UNIFORM, QUALIFIER::IN], GLSLTYPE::Mat4, "u_view"),
        param(&[QUALIFIER::OUT], GLSLTYPE::Vec3, "posColor"),
    ];
    let (ins, outs) = stage_sets(&params).unwrap();
    assert_eq!(
        ins.into_names(),
        vec!["a_position".to_string(), "u_view".to_string()]
    );
    assert_eq!(outs.into_names(), vec!["posColor".to_string()]);
}

#[test]
fn stage_sets_keep_declaration_order() {
    let params = vec![
        param(&[QUALIFIER::IN], GLSLTYPE::Float, "zeta"),
        param(&[QUALIFIER::IN], GLSLTYPE::Float, "alpha"),
        param(&[QUALIFIER::IN], GLSLTYPE::Float, "mid"),
    ];
    let (ins, outs) = stage_sets(&params).unwrap();
    assert_eq!(
        ins.into_names(),
        vec!["zeta".to_string(), "alpha".to_string(), "mid".to_string()]
    );
    assert!(outs.is_empty());
}

#[test]
fn stage_sets_skip_builtins() {
    let params = vec![
        param(&[QUALIFIER::IN], GLSLTYPE::Int, "gl_VertexID"),
        param(&[QUALIFIER::IN], GLSLTYPE::ArrayVec3, "a_position"),
    ];
    let (ins, _outs) = stage_sets(&params).unwrap();
    assert_eq!(ins.into_names(), vec!["a_position".to_string()]);
}

#[test]
fn stage_sets_reject_builtin_with_wrong_type() {
    let params = vec![param(&[QUALIFIER::IN], GLSLTYPE::Float, "gl_VertexID")];
    match stage_sets(&params) {
        Err(DeclarationError::BuiltinTypeMismatch { name, gtype }) => {
            assert_eq!(name, "gl_VertexID");
            assert_eq!(gtype, GLSLTYPE::Float);
        }
        other => panic!("expected a builtin type mismatch, got {:?}", other),
    }
}

#[test]
fn stage_sets_reject_two_storage_classes() {
    let params = vec![param(
        &[QUALIFIER::UNIFORM, QUALIFIER::VERTEX, QUALIFIER::IN],
        GLSLTYPE::Mat4,
        "u_model",
    )];
    match stage_sets(&params) {
        Err(DeclarationError::InvalidQualifiers { name }) => {
            assert_eq!(name, "u_model");
        }
        other => panic!("expected invalid qualifiers, got {:?}", other),
    }
}

#[test]
fn stage_sets_reject_a_thirty_third_input() {
    let mut params = Vec::new();
    for i in 0..33 {
        params.push(param(&[QUALIFIER::IN], GLSLTYPE::Float, &format!("in{}", i)));
    }
    assert!(matches!(
        stage_sets(&params),
        Err(DeclarationError::TooManyNames { .. })
    ));
}

#[test]
fn stage_sets_parameter_with_both_directions() {
    let params = vec![param(
        &[QUALIFIER::BUFFER, QUALIFIER::IN, QUALIFIER::OUT],
        GLSLTYPE::ArrayUint,
        "indices",
    )];
    let (ins, outs) = stage_sets(&params).unwrap();
    assert!(ins.contains("indices"));
    assert!(outs.contains("indices"));
}

#[test]
fn stage_sets_ignore_duplicate_names() {
    let params = vec![
        param(&[QUALIFIER::IN], GLSLTYPE::Float, "twice"),
        param(&[QUALIFIER::IN], GLSLTYPE::Float, "twice"),
    ];
    let (ins, _outs) = stage_sets(&params).unwrap();
    assert_eq!(ins.len(), 1);
}

#[test]
fn process_body_strips_braces() {
    assert_eq!(process_body("{main}"), "main");
    assert_eq!(process_body("{}"), "");
}

#[test]
fn process_body_collapses_separated_plus_tokens() {
    assert_eq!(process_body("{a + + b}"), "a ++ b");
    assert_eq!(process_body("{x +\n+ y}"), "x ++ y");
    assert_eq!(process_body("{a++b}"), "a++b");
}

#[test]
fn process_body_resumes_after_each_collapse() {
    assert_eq!(process_body("{+ + +}"), "++ +");
    assert_eq!(process_body("{x + +\n+ y}"), "x ++\n+ y");
}

#[test]
fn process_body_leaves_lone_plus_alone() {
    assert_eq!(process_body("{a + b}"), "a + b");
    assert_eq!(process_body("{a +}"), "a +");
}
