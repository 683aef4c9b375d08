//! The GLSL-like type and qualifier model: a closed vocabulary of shader data
//! types with fixed byte sizes, the array-derivation rule, and the storage and
//! direction qualifiers a parameter may carry.

use vstd::prelude::*;
use crate::nameset::string_compare;

verus! {

/// A shader parameter's data type.  The vocabulary is closed: scalars,
/// small vectors, the 4x4 matrix, array variants of the scalar and vector
/// forms, and the opaque sampler/texture kinds.
#[derive(Debug, Clone, Copy, PartialEq, Eq, Structural)]
pub enum GLSLTYPE {
    Bool,
    Int,
    Uint,
    Float,
    Vec2,
    Uvec3,
    Vec3,
    Vec4,
    Mat4,
    ArrayInt,
    ArrayUint,
    ArrayFloat,
    ArrayVec2,
    ArrayVec3,
    ArrayVec4,
    Sampler,
    TextureCube,
    Texture2D,
}

/// A storage-class or data-flow qualifier on a shader parameter.  Direction
/// (`IN`/`OUT`) is independent of storage class (`BUFFER`/`UNIFORM`/`VERTEX`);
/// one parameter may carry both kinds.
#[derive(Debug, Clone, Copy, PartialEq, Eq, Structural)]
pub enum QUALIFIER {
    BUFFER,
    UNIFORM,
    VERTEX,
    IN,
    OUT,
    LOOP,
}

/// The array-derivation rule: at depth exactly 1 a scalar or vector base type
/// maps to its array counterpart; every other depth or base passes through
/// unchanged rather than failing.
pub open spec fn spec_array_type(gtype: GLSLTYPE, depth: i64) -> GLSLTYPE {
    if depth == 1 {
        match gtype {
            GLSLTYPE::Float => GLSLTYPE::ArrayFloat,
            GLSLTYPE::Int => GLSLTYPE::ArrayInt,
            GLSLTYPE::Uint => GLSLTYPE::ArrayUint,
            GLSLTYPE::Vec2 => GLSLTYPE::ArrayVec2,
            GLSLTYPE::Vec3 => GLSLTYPE::ArrayVec3,
            GLSLTYPE::Vec4 => GLSLTYPE::ArrayVec4,
            _ => gtype,
        }
    } else {
        gtype
    }
}

/// Derive the array form of a base type at the given nesting depth.
///
/// Only depth 1 over a scalar or vector base has an array counterpart; any
/// other combination returns the base type unchanged.  The silent fallback is
/// deliberate and documented: callers that consider other depths an error must
/// check before calling.
pub fn array_type(gtype: GLSLTYPE, depth: i64) -> (r: GLSLTYPE)
    ensures
        r == spec_array_type(gtype, depth),
{
    if depth == 1 {
        match gtype {
            GLSLTYPE::Float => GLSLTYPE::ArrayFloat,
            GLSLTYPE::Int => GLSLTYPE::ArrayInt,
            GLSLTYPE::Uint => GLSLTYPE::ArrayUint,
            GLSLTYPE::Vec2 => GLSLTYPE::ArrayVec2,
            GLSLTYPE::Vec3 => GLSLTYPE::ArrayVec3,
            GLSLTYPE::Vec4 => GLSLTYPE::ArrayVec4,
            x => x,
        }
    } else {
        gtype
    }
}

/// The fixed byte size of each sized type; `None` for the array, sampler and
/// texture forms, whose size cannot be queried.
pub open spec fn spec_glsl_size(t: GLSLTYPE) -> Option<usize> {
    match t {
        GLSLTYPE::Bool => Some(4usize),
        GLSLTYPE::Int => Some(4usize),
        GLSLTYPE::Uint => Some(4usize),
        GLSLTYPE::Float => Some(4usize),
        GLSLTYPE::Vec2 => Some(8usize),
        GLSLTYPE::Uvec3 => Some(12usize),
        GLSLTYPE::Vec3 => Some(12usize),
        GLSLTYPE::Vec4 => Some(16usize),
        GLSLTYPE::Mat4 => Some(64usize),
        _ => None::<usize>,
    }
}

/// The byte size of a scalar, vector or matrix type: 4 for the scalars
/// (a shading-language `bool` occupies a full 4-byte word), 8/12/16 for the
/// vectors, 64 for the 4x4 matrix.  A size query on an array, sampler or
/// texture form is unsupported and yields `None`.
pub fn glsl_size(x: &GLSLTYPE) -> (r: Option<usize>)
    ensures
        r == spec_glsl_size(*x),
{
    match x {
        GLSLTYPE::Bool => Some(4),
        GLSLTYPE::Int => Some(4),
        GLSLTYPE::Uint => Some(4),
        GLSLTYPE::Float => Some(4),
        GLSLTYPE::Vec2 => Some(8),
        GLSLTYPE::Uvec3 => Some(12),
        GLSLTYPE::Vec3 => Some(12),
        GLSLTYPE::Vec4 => Some(16),
        GLSLTYPE::Mat4 => Some(64),
        GLSLTYPE::ArrayInt => None,
        GLSLTYPE::ArrayUint => None,
        GLSLTYPE::ArrayFloat => None,
        GLSLTYPE::ArrayVec2 => None,
        GLSLTYPE::ArrayVec3 => None,
        GLSLTYPE::ArrayVec4 => None,
        GLSLTYPE::Sampler => None,
        GLSLTYPE::TextureCube => None,
        GLSLTYPE::Texture2D => None,
    }
}

/// The printed form of each type, as it appears in shader source.
pub open spec fn spec_glsl_name(t: GLSLTYPE) -> Seq<char> {
    match t {
        GLSLTYPE::Bool => "bool"@,
        GLSLTYPE::Float => "float"@,
        GLSLTYPE::Int => "int"@,
        GLSLTYPE::Uint => "uint"@,
        GLSLTYPE::Vec2 => "vec2"@,
        GLSLTYPE::Uvec3 => "uvec3"@,
        GLSLTYPE::Vec3 => "vec3"@,
        GLSLTYPE::Vec4 => "vec4"@,
        GLSLTYPE::Mat4 => "mat4"@,
        GLSLTYPE::ArrayInt => "int[]"@,
        GLSLTYPE::ArrayUint => "uint[]"@,
        GLSLTYPE::ArrayFloat => "float[]"@,
        GLSLTYPE::ArrayVec2 => "vec2[]"@,
        GLSLTYPE::ArrayVec3 => "vec3[]"@,
        GLSLTYPE::ArrayVec4 => "vec4[]"@,
        GLSLTYPE::Sampler => "sampler"@,
        GLSLTYPE::TextureCube => "textureCube"@,
        GLSLTYPE::Texture2D => "texture2D"@,
    }
}

impl GLSLTYPE {
    /// The type name in shader-source spelling, for diagnostics.
    pub fn glsl_name(&self) -> (r: String)
        ensures
            r@ == spec_glsl_name(*self),
    {
        match self {
            GLSLTYPE::Bool => "bool".to_owned(),
            GLSLTYPE::Float => "float".to_owned(),
            GLSLTYPE::Int => "int".to_owned(),
            GLSLTYPE::Uint => "uint".to_owned(),
            GLSLTYPE::Vec2 => "vec2".to_owned(),
            GLSLTYPE::Uvec3 => "uvec3".to_owned(),
            GLSLTYPE::Vec3 => "vec3".to_owned(),
            GLSLTYPE::Vec4 => "vec4".to_owned(),
            GLSLTYPE::Mat4 => "mat4".to_owned(),
            GLSLTYPE::ArrayInt => "int[]".to_owned(),
            GLSLTYPE::ArrayUint => "uint[]".to_owned(),
            GLSLTYPE::ArrayFloat => "float[]".to_owned(),
            GLSLTYPE::ArrayVec2 => "vec2[]".to_owned(),
            GLSLTYPE::ArrayVec3 => "vec3[]".to_owned(),
            GLSLTYPE::ArrayVec4 => "vec4[]".to_owned(),
            GLSLTYPE::Sampler => "sampler".to_owned(),
            GLSLTYPE::TextureCube => "textureCube".to_owned(),
            GLSLTYPE::Texture2D => "texture2D".to_owned(),
        }
    }
}

/// Whether a qualifier list mentions `q`.
pub fn has_qual(p: &[QUALIFIER], q: QUALIFIER) -> (r: bool)
    ensures
        r == p@.contains(q),
{
    let mut i: usize = 0;
    while i < p.len()
        invariant
            i <= p@.len(),
            forall|k: int| 0 <= k < i ==> p@[k] != q,
        decreases p@.len() - i,
    {
        if p[i] == q {
            proof {
                assert(p@[i as int] == q);
            }
            return true;
        }
        i += 1;
    }
    false
}

/// Whether a parameter's qualifier list marks it as a stage input.
pub fn has_in_qual(p: &[QUALIFIER]) -> (r: bool)
    ensures
        r == p@.contains(QUALIFIER::IN),
{
    has_qual(p, QUALIFIER::IN)
}

/// Whether a parameter's qualifier list marks it as a stage output.
pub fn has_out_qual(p: &[QUALIFIER]) -> (r: bool)
    ensures
        r == p@.contains(QUALIFIER::OUT),
{
    has_qual(p, QUALIFIER::OUT)
}

/// The reserved builtin names the graphics API supplies by itself.
pub open spec fn spec_is_gl_builtin(p: Seq<char>) -> bool {
    ||| p == "gl_VertexID"@
    ||| p == "gl_InstanceID"@
    ||| p == "gl_FragCoord"@
    ||| p == "gl_FrontFacing"@
    ||| p == "gl_PointCoord"@
    ||| p == "gl_SampleID"@
    ||| p == "gl_SamplePosition"@
    ||| p == "gl_NumWorkGroups"@
    ||| p == "gl_WorkGroupID"@
    ||| p == "gl_LocalInvocationID"@
    ||| p == "gl_GlobalInvocationID"@
    ||| p == "gl_LocalInvocationIndex"@
}

/// Exact match against the table of builtin variable names.
pub fn is_gl_builtin(p: &str) -> (r: bool)
    ensures
        r == spec_is_gl_builtin(p@),
{
    string_compare(p, "gl_VertexID") || string_compare(p, "gl_InstanceID") || string_compare(
        p,
        "gl_FragCoord",
    ) || string_compare(p, "gl_FrontFacing") || string_compare(p, "gl_PointCoord")
        || string_compare(p, "gl_SampleID") || string_compare(p, "gl_SamplePosition")
        || string_compare(p, "gl_NumWorkGroups") || string_compare(p, "gl_WorkGroupID")
        || string_compare(p, "gl_LocalInvocationID") || string_compare(p, "gl_GlobalInvocationID")
        || string_compare(p, "gl_LocalInvocationIndex")
}

/// Each builtin name's mandated type: a declaration using a builtin name must
/// pair it with exactly this type.
pub open spec fn spec_check_gl_builtin_type(p: Seq<char>, t: GLSLTYPE) -> bool {
    ||| (p == "gl_VertexID"@ && t == GLSLTYPE::Int)
    ||| (p == "gl_InstanceID"@ && t == GLSLTYPE::Int)
    ||| (p == "gl_FragCoord"@ && t == GLSLTYPE::Vec4)
    ||| (p == "gl_FrontFacing"@ && t == GLSLTYPE::Bool)
    ||| (p == "gl_PointCoord"@ && t == GLSLTYPE::Vec2)
    ||| (p == "gl_SampleID"@ && t == GLSLTYPE::Int)
    ||| (p == "gl_SamplePosition"@ && t == GLSLTYPE::Vec2)
    ||| (p == "gl_NumWorkGroups"@ && t == GLSLTYPE::Uvec3)
    ||| (p == "gl_WorkGroupID"@ && t == GLSLTYPE::Uvec3)
    ||| (p == "gl_LocalInvocationID"@ && t == GLSLTYPE::Uvec3)
    ||| (p == "gl_GlobalInvocationID"@ && t == GLSLTYPE::Uvec3)
    ||| (p == "gl_LocalInvocationIndex"@ && t == GLSLTYPE::Uint)
}

/// Whether a declaration that uses a builtin name gives it its mandated type.
pub fn check_gl_builtin_type(p: &str, t: &GLSLTYPE) -> (r: bool)
    ensures
        r == spec_check_gl_builtin_type(p@, *t),
{
    (string_compare(p, "gl_VertexID") && *t == GLSLTYPE::Int) || (string_compare(
        p,
        "gl_InstanceID",
    ) && *t == GLSLTYPE::Int) || (string_compare(p, "gl_FragCoord") && *t == GLSLTYPE::Vec4) || (
    string_compare(p, "gl_FrontFacing") && *t == GLSLTYPE::Bool) || (string_compare(
        p,
        "gl_PointCoord",
    ) && *t == GLSLTYPE::Vec2) || (string_compare(p, "gl_SampleID") && *t == GLSLTYPE::Int) || (
    string_compare(p, "gl_SamplePosition") && *t == GLSLTYPE::Vec2) || (string_compare(
        p,
        "gl_NumWorkGroups",
    ) && *t == GLSLTYPE::Uvec3) || (string_compare(p, "gl_WorkGroupID") && *t == GLSLTYPE::Uvec3)
        || (string_compare(p, "gl_LocalInvocationID") && *t == GLSLTYPE::Uvec3) || (string_compare(
        p,
        "gl_GlobalInvocationID",
    ) && *t == GLSLTYPE::Uvec3) || (string_compare(p, "gl_LocalInvocationIndex") && *t
        == GLSLTYPE::Uint)
}

} // verus!
