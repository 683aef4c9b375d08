//! The dynamic binding registry: a table of declared parameters per stage
//! direction, a tagged description of the value a host wants to bind, the
//! acceptance table from declared type to value shape, and the bind operation
//! that validates a request and records the resulting resource handle.
//!
//! Creating the backing resource itself is the graphics device's job; the
//! registry only decides whether a bind is legal, which slot it fills, what
//! usage class the buffer must have, and what logical length is recorded.

use vstd::prelude::*;
use crate::errors::BindingError;
use crate::glsl::{GLSLTYPE, QUALIFIER};
use crate::nameset::string_compare;

verus! {

/// The logical length recorded for a matrix bind: the matrix's byte size.
pub const MAT4_LENGTH: u64 = 64;

/// One registry entry: a declared parameter and, once a bind call has
/// succeeded, the opaque handle of its backing resource together with the
/// value's logical element count.
#[derive(Debug)]
pub struct DefaultBinding {
    pub binding_number: u32,
    pub name: String,
    pub data: Option<u64>,
    pub length: Option<u64>,
    pub gtype: GLSLTYPE,
    pub qual: Vec<QUALIFIER>,
}

/// A collection of registry entries that can be duplicated so a later
/// assembly starts from its own copy.
pub trait Bindings: Sized {
    fn clone(&self) -> Self;
}

impl Bindings for DefaultBinding {
    fn clone(&self) -> Self {
        DefaultBinding {
            binding_number: self.binding_number,
            name: copy_string(&self.name),
            data: self.data,
            length: self.length,
            gtype: self.gtype,
            qual: copy_quals(&self.qual),
        }
    }
}

/// The shape of a host value offered to a bind call: a tag for the value's
/// kind plus its raw element count.  The byte payload itself stays with the
/// caller; the registry only needs the shape.
#[derive(Debug, Clone, Copy, PartialEq, Eq, Structural)]
pub enum BindValue {
    /// A flat list of unsigned integers.
    UintVector { elements: u64 },
    /// One floating-point scalar.
    FloatScalar,
    /// A flat list of floating-point scalars.
    FloatVector { elements: u64 },
    /// A list of two-component float vectors; `elements` counts vectors.
    Vector2 { elements: u64 },
    /// A list of three-component float vectors; `elements` counts vectors.
    Vector3 { elements: u64 },
    /// One 4x4 float matrix.
    Matrix4,
}

/// The usage class a backing buffer must be created with, derived from the
/// parameter's qualifier list alone.
#[derive(Debug, Clone, Copy, PartialEq, Eq, Structural)]
pub enum BufferUsage {
    /// The parameter is a vertex attribute.
    Vertex,
    /// The parameter is a uniform.
    Uniform,
    /// General read/write host-visible storage.
    Storage,
}

/// A validated bind, ready to be carried out: which table and slot the value
/// goes to, the usage class for the backing buffer, and the logical length to
/// record.
#[derive(Debug, Clone, Copy, PartialEq, Eq, Structural)]
pub struct BindPlan {
    pub in_table: bool,
    pub index: usize,
    pub usage: BufferUsage,
    pub length: u64,
}

/// The acceptance table: which declared types accept a value of each shape.
/// Vector shapes are accepted by the matching vector type or its array form,
/// scalar floats by the float forms, and a matrix only by the matrix type.
pub open spec fn spec_accepts(value: BindValue, gtype: GLSLTYPE) -> bool {
    match value {
        BindValue::UintVector { .. } => gtype == GLSLTYPE::ArrayInt || gtype == GLSLTYPE::ArrayUint,
        BindValue::FloatScalar => gtype == GLSLTYPE::Float,
        BindValue::FloatVector { .. } => gtype == GLSLTYPE::Float || gtype == GLSLTYPE::ArrayFloat,
        BindValue::Vector2 { .. } => gtype == GLSLTYPE::Vec2 || gtype == GLSLTYPE::ArrayVec2,
        BindValue::Vector3 { .. } => gtype == GLSLTYPE::Vec3 || gtype == GLSLTYPE::ArrayVec3,
        BindValue::Matrix4 => gtype == GLSLTYPE::Mat4,
    }
}

/// Whether a slot declared as `gtype` accepts a value of this shape.
pub fn accepts(value: &BindValue, gtype: &GLSLTYPE) -> (r: bool)
    ensures
        r == spec_accepts(*value, *gtype),
{
    match value {
        BindValue::UintVector { .. } => *gtype == GLSLTYPE::ArrayInt || *gtype
            == GLSLTYPE::ArrayUint,
        BindValue::FloatScalar => *gtype == GLSLTYPE::Float,
        BindValue::FloatVector { .. } => *gtype == GLSLTYPE::Float || *gtype
            == GLSLTYPE::ArrayFloat,
        BindValue::Vector2 { .. } => *gtype == GLSLTYPE::Vec2 || *gtype == GLSLTYPE::ArrayVec2,
        BindValue::Vector3 { .. } => *gtype == GLSLTYPE::Vec3 || *gtype == GLSLTYPE::ArrayVec3,
        BindValue::Matrix4 => *gtype == GLSLTYPE::Mat4,
    }
}

/// The logical length recorded for a bound value: the element count for
/// vector and array shapes, 1 for a scalar, and a fixed constant for a
/// matrix.
pub open spec fn spec_logical_length(value: BindValue) -> u64 {
    match value {
        BindValue::UintVector { elements } => elements,
        BindValue::FloatScalar => 1u64,
        BindValue::FloatVector { elements } => elements,
        BindValue::Vector2 { elements } => elements,
        BindValue::Vector3 { elements } => elements,
        BindValue::Matrix4 => MAT4_LENGTH,
    }
}

/// The logical length recorded for a bound value of this shape.
pub fn logical_length(value: &BindValue) -> (r: u64)
    ensures
        r == spec_logical_length(*value),
{
    match value {
        BindValue::UintVector { elements } => *elements,
        BindValue::FloatScalar => 1,
        BindValue::FloatVector { elements } => *elements,
        BindValue::Vector2 { elements } => *elements,
        BindValue::Vector3 { elements } => *elements,
        BindValue::Matrix4 => MAT4_LENGTH,
    }
}

/// Usage class from the qualifier list: `VERTEX` wins, then `UNIFORM`,
/// otherwise the buffer is general storage.  There is no ambiguous fallback:
/// declaration validation admits at most one storage-class qualifier.
pub open spec fn spec_buffer_usage(qual: Seq<QUALIFIER>) -> BufferUsage {
    if qual.contains(QUALIFIER::VERTEX) {
        BufferUsage::Vertex
    } else if qual.contains(QUALIFIER::UNIFORM) {
        BufferUsage::Uniform
    } else {
        BufferUsage::Storage
    }
}

/// Derive the buffer usage class from a parameter's qualifier list.
pub fn buffer_usage(qual: &Vec<QUALIFIER>) -> (r: BufferUsage)
    ensures
        r == spec_buffer_usage(qual@),
{
    if crate::glsl::has_qual(qual.as_slice(), QUALIFIER::VERTEX) {
        BufferUsage::Vertex
    } else if crate::glsl::has_qual(qual.as_slice(), QUALIFIER::UNIFORM) {
        BufferUsage::Uniform
    } else {
        BufferUsage::Storage
    }
}

/// Some entry of the table is declared under this name.
pub open spec fn spec_has_name(s: Seq<DefaultBinding>, name: Seq<char>) -> bool {
    exists|i: int| 0 <= i < s.len() && s[i].name@ == name
}

fn find_binding(table: &Vec<DefaultBinding>, name: &str) -> (r: Option<usize>)
    ensures
        match r {
            Some(i) => {
                &&& i < table@.len()
                &&& table@[i as int].name@ == name@
                &&& forall|k: int| 0 <= k < i ==> table@[k].name@ != name@
            },
            None => !spec_has_name(table@, name@),
        },
{
    let mut i: usize = 0;
    while i < table.len()
        invariant
            i <= table@.len(),
            forall|k: int| 0 <= k < i ==> table@[k].name@ != name@,
        decreases table@.len() - i,
    {
        if string_compare(table[i].name.as_str(), name) {
            return Some(i);
        }
        i += 1;
    }
    None
}

/// Validate a bind request against the declared tables.
///
/// The name is looked up among the required-input entries first, then the
/// produced-output entries; a name absent from both is an unknown target.  A
/// found slot must be declared with a type that accepts the value's shape,
/// else the bind is a type mismatch naming the declared type.  On success the
/// plan fixes the slot, the buffer usage derived from the slot's qualifiers,
/// and the logical length of the value.
pub fn bind(
    bindings: &Vec<DefaultBinding>,
    out_bindings: &Vec<DefaultBinding>,
    value: &BindValue,
    name: &str,
) -> (r: Result<BindPlan, BindingError>)
    ensures
        match r {
            Ok(plan) => {
                let entry = if plan.in_table {
                    bindings@[plan.index as int]
                } else {
                    out_bindings@[plan.index as int]
                };
                &&& plan.in_table ==> {
                    &&& plan.index < bindings@.len()
                    &&& forall|k: int| 0 <= k < plan.index ==> bindings@[k].name@ != name@
                }
                &&& !plan.in_table ==> {
                    &&& plan.index < out_bindings@.len()
                    &&& !spec_has_name(bindings@, name@)
                    &&& forall|k: int| 0 <= k < plan.index ==> out_bindings@[k].name@ != name@
                }
                &&& entry.name@ == name@
                &&& spec_accepts(*value, entry.gtype)
                &&& plan.usage == spec_buffer_usage(entry.qual@)
                &&& plan.length == spec_logical_length(*value)
            },
            Err(e) => match e {
                BindingError::UnknownTarget { name: n } => {
                    &&& n@ == name@
                    &&& !spec_has_name(bindings@, name@)
                    &&& !spec_has_name(out_bindings@, name@)
                },
                BindingError::TypeMismatch { name: n, gtype } => {
                    &&& n@ == name@
                    &&& !spec_accepts(*value, gtype)
                    &&& if spec_has_name(bindings@, name@) {
                        exists|i: int|
                            {
                                &&& 0 <= i < bindings@.len()
                                &&& (#[trigger] bindings@[i]).name@ == name@
                                &&& bindings@[i].gtype == gtype
                                &&& forall|k: int| 0 <= k < i ==> bindings@[k].name@ != name@
                            }
                    } else {
                        exists|i: int|
                            {
                                &&& 0 <= i < out_bindings@.len()
                                &&& (#[trigger] out_bindings@[i]).name@ == name@
                                &&& out_bindings@[i].gtype == gtype
                                &&& forall|k: int| 0 <= k < i ==> out_bindings@[k].name@ != name@
                            }
                    }
                },
                _ => false,
            },
        },
{
    let lookup = match find_binding(bindings, name) {
        Some(i) => (true, i),
        None => match find_binding(out_bindings, name) {
            Some(i) => (false, i),
            None => {
                return Err(BindingError::UnknownTarget { name: name.to_owned() });
            },
        },
    };
    let (in_table, index) = lookup;
    let entry = if in_table {
        &bindings[index]
    } else {
        &out_bindings[index]
    };
    if !accepts(value, &entry.gtype) {
        return Err(BindingError::TypeMismatch { name: name.to_owned(), gtype: entry.gtype });
    }
    let usage = buffer_usage(&entry.qual);
    Ok(BindPlan { in_table, index, usage, length: logical_length(value) })
}

/// A registry entry with its resource fields filled by a successful bind.
pub open spec fn spec_with_resource(
    entry: DefaultBinding,
    data_handle: u64,
    length: u64,
) -> DefaultBinding {
    DefaultBinding {
        binding_number: entry.binding_number,
        name: entry.name,
        data: Some(data_handle),
        length: Some(length),
        gtype: entry.gtype,
        qual: entry.qual,
    }
}

/// Record a carried-out bind: store the backing resource's handle and the
/// value's logical length on the planned slot, leaving every other slot and
/// every other field untouched.  A later bind of the same name before
/// execution simply overwrites these fields.
pub fn complete_bind(table: &mut Vec<DefaultBinding>, index: usize, length: u64, data_handle: u64)
    requires
        index < old(table)@.len(),
    ensures
        final(table)@ == old(table)@.update(
            index as int,
            spec_with_resource(old(table)@[index as int], data_handle, length),
        ),
{
    let entry = table.remove(index);
    let updated = DefaultBinding {
        binding_number: entry.binding_number,
        name: entry.name,
        data: Some(data_handle),
        length: Some(length),
        gtype: entry.gtype,
        qual: entry.qual,
    };
    table.insert(index, updated);
    proof {
        assert(table@ =~= old(table)@.update(
            index as int,
            spec_with_resource(old(table)@[index as int], data_handle, length),
        ));
    }
}

/// Interpret a flat list of floats as two-component vectors: the raw count
/// must split into whole pairs, else the bind is rejected for a malformed
/// element count.
pub fn vec2_elements(count: usize) -> (r: Result<u64, BindingError>)
    ensures
        match r {
            Ok(n) => count % 2 == 0 && n == count as u64 / 2,
            Err(e) => count % 2 != 0 && (e matches BindingError::MalformedCount {
                elements,
            } && elements == count),
        },
{
    if count % 2 == 0 {
        Ok((count / 2) as u64)
    } else {
        Err(BindingError::MalformedCount { elements: count })
    }
}

/// One fresh table from an existing one: the declared fields are copied, the
/// resource fields start unset, so a new assembly begins with no binds done.
pub open spec fn spec_fresh_copy(fresh: DefaultBinding, original: DefaultBinding) -> bool {
    &&& fresh.binding_number == original.binding_number
    &&& fresh.name@ == original.name@
    &&& fresh.gtype == original.gtype
    &&& fresh.qual@ == original.qual@
    &&& fresh.data is None
    &&& fresh.length is None
}

/// Duplicate a table of declared bindings for a fresh pipeline assembly:
/// names, slot numbers, types and qualifiers carry over, resource fields are
/// cleared.
pub fn new_bindings(bindings: &Vec<DefaultBinding>) -> (r: Vec<DefaultBinding>)
    ensures
        r@.len() == bindings@.len(),
        forall|i: int|
            0 <= i < bindings@.len() ==> spec_fresh_copy(#[trigger] r@[i], bindings@[i]),
{
    let mut fresh: Vec<DefaultBinding> = Vec::new();
    let mut i: usize = 0;
    while i < bindings.len()
        invariant
            i <= bindings@.len(),
            fresh@.len() == i,
            forall|k: int| 0 <= k < i ==> spec_fresh_copy(#[trigger] fresh@[k], bindings@[k]),
        decreases bindings@.len() - i,
    {
        let b = &bindings[i];
        fresh.push(
            DefaultBinding {
                binding_number: b.binding_number,
                name: copy_string(&b.name),
                data: None,
                length: None,
                gtype: b.gtype,
                qual: copy_quals(&b.qual),
            },
        );
        i += 1;
    }
    fresh
}

fn copy_string(s: &String) -> (r: String)
    ensures
        r@ == s@,
{
    s.as_str().to_owned()
}

fn copy_quals(qual: &Vec<QUALIFIER>) -> (r: Vec<QUALIFIER>)
    ensures
        r@ == qual@,
{
    let mut out: Vec<QUALIFIER> = Vec::new();
    let mut i: usize = 0;
    proof {
        assert(out@ =~= qual@.take(0));
    }
    while i < qual.len()
        invariant
            i <= qual@.len(),
            out@ == qual@.take(i as int),
        decreases qual@.len() - i,
    {
        out.push(qual[i]);
        proof {
            assert(out@ =~= qual@.take(i + 1));
        }
        i += 1;
    }
    proof {
        assert(qual@.take(qual@.len() as int) =~= qual@);
    }
    out
}

} // verus!
