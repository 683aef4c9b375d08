use shader_bindings::context::BindingContext;
use shader_bindings::declaration::{stage_sets, PARAMETER};
use shader_bindings::errors::{BindingError, CompositionError};
use shader_bindings::glsl::{GLSLTYPE, QUALIFIER};
use shader_bindings::nameset::NameSet;
use shader_bindings::pipe::check_pipe;
use shader_bindings::registry::{
    bind, buffer_usage, complete_bind, logical_length, new_bindings, vec2_elements, BindValue,
    Bindings, BufferUsage, DefaultBinding,
};

fn entry(number: u32, name: &str, gtype: GLSLTYPE, quals: &[QUALIFIER]) -> DefaultBinding {
    DefaultBinding {
        binding_number: number,
        name: name.to_string(),
        data: None,
        length: None,
        gtype,
        qual: quals.to_vec(),
    }
}

fn set_of(list: &[&str]) -> NameSet {
    let mut v = Vec::new();
    for n in list {
        v.push(n.to_string());
    }
    NameSet::construct(&v).unwrap()
}

#[test]
fn pipe_succeeds_when_outputs_are_consumed() {
    let outs = set_of(&["fragmentColor"]);
    let ins = set_of(&["fragmentColor", "color"]);
    assert!(check_pipe(&outs, &ins).is_ok());
}

#[test]
fn pipe_failure_names_the_unconsumed_output() {
    let outs = set_of(&["fragmentColor", "extra"]);
    let ins = set_of(&["fragmentColor"]);
    match check_pipe(&outs, &ins) {
        Err(CompositionError::UnconsumedOutput { output }) => {
            assert_eq!(output, "extra");
        }
        other => panic!("expected an unconsumed output, got {:?}", other),
    }
}

#[test]
fn pipe_empty_output_set_always_composes() {
    let outs = set_of(&[]);
    let ins = set_of(&[]);
    assert!(check_pipe(&outs, &ins).is_ok());
}

fn bind_all_in_order(order: &[&str]) -> BindingContext {
    let mut ctx = BindingContext::new(set_of(&[
        "a_position",
        "u_view",
        "vertexColor",
        "u_proj",
    ]));
    for name in order {
        ctx = ctx.bind(name).unwrap();
    }
    ctx
}

#[test]
fn context_reaches_ready_in_any_order() {
    let names = ["a_position", "u_view", "vertexColor", "u_proj"];
    for a in 0..4 {
        for b in 0..4 {
            for c in 0..4 {
                for d in 0..4 {
                    if a != b && a != c && a != d && b != c && b != d && c != d {
                        let order = [names[a], names[b], names[c], names[d]];
                        let ctx = bind_all_in_order(&order);
                        assert!(ctx.is_ready());
                        assert!(ctx.run().is_ok());
                    }
                }
            }
        }
    }
}

#[test]
fn context_rejects_an_unknown_fifth_name() {
    let ctx = bind_all_in_order(&["a_position", "u_view", "vertexColor", "u_proj"]);
    match ctx.bind("u_model") {
        Err(BindingError::UnknownTarget { name }) => assert_eq!(name, "u_model"),
        Err(other) => panic!("expected an unknown target, got {:?}", other),
        Ok(_) => panic!("an unknown name must not bind"),
    }
}

#[test]
fn context_rejects_binding_a_name_twice() {
    let ctx = BindingContext::new(set_of(&["a_position", "u_view"]));
    let ctx = ctx.bind("a_position").unwrap();
    assert!(matches!(
        ctx.bind("a_position"),
        Err(BindingError::UnknownTarget { .. })
    ));
}

#[test]
fn run_before_all_bindings_is_a_readiness_error() {
    let ctx = bind_all_in_order(&["a_position", "u_view", "vertexColor"]);
    assert!(!ctx.is_ready());
    match ctx.run() {
        Err(e) => assert_eq!(e.missing, vec!["u_proj".to_string()]),
        Ok(()) => panic!("a pending context must not run"),
    }
}

#[test]
fn bind_prefers_the_input_table() {
    let ins = vec![entry(0, "shared", GLSLTYPE::ArrayUint, &[QUALIFIER::VERTEX, QUALIFIER::IN])];
    let outs = vec![entry(1, "shared", GLSLTYPE::ArrayUint, &[QUALIFIER::OUT])];
    let plan = bind(&ins, &outs, &BindValue::UintVector { elements: 3 }, "shared").unwrap();
    assert!(plan.in_table);
    assert_eq!(plan.index, 0);
    assert_eq!(plan.usage, BufferUsage::Vertex);
    assert_eq!(plan.length, 3);
}

#[test]
fn bind_falls_back_to_the_output_table() {
    let ins = vec![entry(0, "a_position", GLSLTYPE::ArrayVec3, &[QUALIFIER::IN])];
    let outs = vec![entry(1, "result", GLSLTYPE::ArrayFloat, &[QUALIFIER::BUFFER, QUALIFIER::OUT])];
    let plan = bind(&ins, &outs, &BindValue::FloatVector { elements: 8 }, "result").unwrap();
    assert!(!plan.in_table);
    assert_eq!(plan.index, 0);
    assert_eq!(plan.usage, BufferUsage::Storage);
    assert_eq!(plan.length, 8);
}

#[test]
fn bind_unknown_name_is_rejected() {
    let ins = vec![entry(0, "a_position", GLSLTYPE::ArrayVec3, &[QUALIFIER::IN])];
    let outs: Vec<DefaultBinding> = Vec::new();
    match bind(&ins, &outs, &BindValue::FloatScalar, "missing") {
        Err(BindingError::UnknownTarget { name }) => assert_eq!(name, "missing"),
        other => panic!("expected an unknown target, got {:?}", other),
    }
}

#[test]
fn bind_vector3_against_mat4_slot_names_the_declared_type() {
    let ins = vec![entry(0, "u_view", GLSLTYPE::Mat4, &[QUALIFIER::UNIFORM, QUALIFIER::IN])];
    let outs: Vec<DefaultBinding> = Vec::new();
    match bind(&ins, &outs, &BindValue::Vector3 { elements: 1 }, "u_view") {
        Err(BindingError::TypeMismatch { name, gtype }) => {
            assert_eq!(name, "u_view");
            assert_eq!(gtype, GLSLTYPE::Mat4);
        }
        other => panic!("expected a type mismatch, got {:?}", other),
    }
}

#[test]
fn bind_matrix_against_mat4_slot_is_uniform_with_fixed_length() {
    let ins = vec![entry(0, "u_view", GLSLTYPE::Mat4, &[QUALIFIER::UNIFORM, QUALIFIER::IN])];
    let outs: Vec<DefaultBinding> = Vec::new();
    let plan = bind(&ins, &outs, &BindValue::Matrix4, "u_view").unwrap();
    assert_eq!(plan.usage, BufferUsage::Uniform);
    assert_eq!(plan.length, 64);
}

#[test]
fn bind_scalar_float_only_against_float_slot() {
    let ins = vec![
        entry(0, "scale", GLSLTYPE::Float, &[QUALIFIER::UNIFORM, QUALIFIER::IN]),
        entry(1, "values", GLSLTYPE::ArrayFloat, &[QUALIFIER::BUFFER, QUALIFIER::IN]),
    ];
    let outs: Vec<DefaultBinding> = Vec::new();
    let plan = bind(&ins, &outs, &BindValue::FloatScalar, "scale").unwrap();
    assert_eq!(plan.length, 1);
    assert!(matches!(
        bind(&ins, &outs, &BindValue::FloatScalar, "values"),
        Err(BindingError::TypeMismatch { .. })
    ));
}

#[test]
fn logical_lengths_per_shape() {
    assert_eq!(logical_length(&BindValue::UintVector { elements: 5 }), 5);
    assert_eq!(logical_length(&BindValue::FloatScalar), 1);
    assert_eq!(logical_length(&BindValue::FloatVector { elements: 7 }), 7);
    assert_eq!(logical_length(&BindValue::Vector2 { elements: 4 }), 4);
    assert_eq!(logical_length(&BindValue::Vector3 { elements: 2 }), 2);
    assert_eq!(logical_length(&BindValue::Matrix4), 64);
}

#[test]
fn vec2_elements_requires_whole_pairs() {
    assert_eq!(vec2_elements(6).unwrap(), 3);
    assert_eq!(vec2_elements(0).unwrap(), 0);
    match vec2_elements(5) {
        Err(BindingError::MalformedCount { elements }) => assert_eq!(elements, 5),
        other => panic!("expected a malformed count, got {:?}", other),
    }
}

#[test]
fn buffer_usage_from_qualifiers() {
    assert_eq!(buffer_usage(&vec![QUALIFIER::VERTEX, QUALIFIER::IN]), BufferUsage::Vertex);
    assert_eq!(buffer_usage(&vec![QUALIFIER::UNIFORM, QUALIFIER::IN]), BufferUsage::Uniform);
    assert_eq!(buffer_usage(&vec![QUALIFIER::BUFFER, QUALIFIER::IN]), BufferUsage::Storage);
    assert_eq!(buffer_usage(&vec![QUALIFIER::IN]), BufferUsage::Storage);
}

#[test]
fn complete_bind_records_handle_and_length() {
    let mut table = vec![
        entry(0, "a_position", GLSLTYPE::ArrayVec3, &[QUALIFIER::VERTEX, QUALIFIER::IN]),
        entry(1, "u_view", GLSLTYPE::Mat4, &[QUALIFIER::UNIFORM, QUALIFIER::IN]),
    ];
    complete_bind(&mut table, 1, 64, 7);
    assert_eq!(table[1].data, Some(7));
    assert_eq!(table[1].length, Some(64));
    assert_eq!(table[1].name, "u_view");
    assert_eq!(table[1].gtype, GLSLTYPE::Mat4);
    assert_eq!(table[0].data, None);
    assert_eq!(table[0].length, None);
}

#[test]
fn complete_bind_overwrites_an_earlier_bind() {
    let mut table = vec![entry(0, "u_view", GLSLTYPE::Mat4, &[QUALIFIER::UNIFORM])];
    complete_bind(&mut table, 0, 64, 1);
    complete_bind(&mut table, 0, 64, 2);
    assert_eq!(table[0].data, Some(2));
}

#[test]
fn new_bindings_reset_resource_fields() {
    let mut table = vec![entry(0, "u_view", GLSLTYPE::Mat4, &[QUALIFIER::UNIFORM, QUALIFIER::IN])];
    complete_bind(&mut table, 0, 64, 9);
    let fresh = new_bindings(&table);
    assert_eq!(fresh.len(), 1);
    assert_eq!(fresh[0].name, "u_view");
    assert_eq!(fresh[0].binding_number, 0);
    assert_eq!(fresh[0].gtype, GLSLTYPE::Mat4);
    assert_eq!(fresh[0].qual, vec![QUALIFIER::UNIFORM, QUALIFIER::IN]);
    assert_eq!(fresh[0].data, None);
    assert_eq!(fresh[0].length, None);
}

#[test]
fn full_assembly_flow() {
    let stage_param = |quals: &[QUALIFIER], gtype: GLSLTYPE, name: &str| PARAMETER {
        qual: quals.to_vec(),
        gtype,
        name: name.to_string(),
    };
    // one vertex stage: two host-bound inputs, one builtin, one output
    let vertex_params = vec![
        stage_param(&[QUALIFIER::VERTEX, QUALIFIER::IN], GLSLTYPE::ArrayVec3, "a_position"),
        stage_param(&[QUALIFIER::UNIFORM, QUALIFIER::IN], GLSLTYPE::Mat4, "u_view"),
        stage_param(&[QUALIFIER::IN], GLSLTYPE::Int, "gl_VertexID"),
        stage_param(&[QUALIFIER::OUT], GLSLTYPE::Vec3, "fragmentColor"),
    ];
    let (ins, outs) = stage_sets(&vertex_params).unwrap();
    // a downstream fragment stage that consumes the vertex output
    let fragment_params = vec![
        stage_param(&[QUALIFIER::IN], GLSLTYPE::Vec3, "fragmentColor"),
        stage_param(&[QUALIFIER::OUT], GLSLTYPE::Vec4, "color"),
    ];
    let (f_ins, _f_outs) = stage_sets(&fragment_params).unwrap();
    assert!(check_pipe(&outs, &f_ins).is_ok());
    // the live registry for the vertex stage's host-bound parameters
    let mut table = vec![
        entry(0, "a_position", GLSLTYPE::ArrayVec3, &[QUALIFIER::VERTEX, QUALIFIER::IN]),
        entry(1, "u_view", GLSLTYPE::Mat4, &[QUALIFIER::UNIFORM, QUALIFIER::IN]),
    ];
    let no_outs: Vec<DefaultBinding> = Vec::new();
    let mut ctx = BindingContext::new(ins);
    assert!(!ctx.is_ready());
    let plan = bind(&table, &no_outs, &BindValue::Vector3 { elements: 3 }, "a_position").unwrap();
    assert_eq!(plan.usage, BufferUsage::Vertex);
    complete_bind(&mut table, plan.index, plan.length, 10);
    ctx = ctx.bind("a_position").unwrap();
    let plan2 = bind(&table, &no_outs, &BindValue::Matrix4, "u_view").unwrap();
    assert_eq!(plan2.usage, BufferUsage::Uniform);
    complete_bind(&mut table, plan2.index, plan2.length, 11);
    ctx = ctx.bind("u_view").unwrap();
    assert!(ctx.is_ready());
    assert!(ctx.run().is_ok());
    assert_eq!(table[0].data, Some(10));
    assert_eq!(table[0].length, Some(3));
    assert_eq!(table[1].data, Some(11));
    assert_eq!(table[1].length, Some(64));
}

#[test]
fn bindings_clone_copies_every_field() {
    let mut table = vec![entry(3, "values", GLSLTYPE::ArrayFloat, &[QUALIFIER::BUFFER])];
    complete_bind(&mut table, 0, 8, 4);
    let copy = Bindings::clone(&table[0]);
    assert_eq!(copy.binding_number, 3);
    assert_eq!(copy.name, "values");
    assert_eq!(copy.data, Some(4));
    assert_eq!(copy.length, Some(8));
    assert_eq!(copy.gtype, GLSLTYPE::ArrayFloat);
    assert_eq!(copy.qual, vec![QUALIFIER::BUFFER]);
}
