//! The declaration model: a stage's ordered parameter list is validated and
//! turned into its two requirement name-sets (inputs the host must bind,
//! outputs the stage produces), and the stage's raw body text is normalised
//! for the target shading language's grammar.

use vstd::prelude::*;
use vstd::string::StrSliceExecFns;
use vstd::string::StringExecFns;
use crate::errors::DeclarationError;
use crate::glsl::{
    check_gl_builtin_type, has_qual, is_gl_builtin, spec_check_gl_builtin_type,
    spec_is_gl_builtin, GLSLTYPE, QUALIFIER,
};
use crate::nameset::{spec_construct, NameSet, NAME_CAPACITY};

verus! {

/// One declared shader parameter: its ordered qualifier list, its type, and
/// its identifier.
#[derive(Debug)]
pub struct PARAMETER {
    pub qual: Vec<QUALIFIER>,
    pub gtype: GLSLTYPE,
    pub name: String,
}

impl PARAMETER {
    /// A parameter's identifier is never empty.
    pub open spec fn wf(&self) -> bool {
        self.name@.len() > 0
    }
}

/// A qualifier list asks for at most one storage class, so the usage class
/// of a backing resource is never ambiguous.
pub open spec fn spec_valid_quals(qual: Seq<QUALIFIER>) -> bool {
    &&& !(qual.contains(QUALIFIER::BUFFER) && qual.contains(QUALIFIER::UNIFORM))
    &&& !(qual.contains(QUALIFIER::BUFFER) && qual.contains(QUALIFIER::VERTEX))
    &&& !(qual.contains(QUALIFIER::UNIFORM) && qual.contains(QUALIFIER::VERTEX))
}

/// Whether a qualifier list combines at most one storage class.
pub fn valid_quals(qual: &[QUALIFIER]) -> (r: bool)
    ensures
        r == spec_valid_quals(qual@),
{
    let b = has_qual(qual, QUALIFIER::BUFFER);
    let u = has_qual(qual, QUALIFIER::UNIFORM);
    let v = has_qual(qual, QUALIFIER::VERTEX);
    !((b && u) || (b && v) || (u && v))
}

/// The parameter-local validity checks: an unambiguous storage class, and a
/// builtin name only with its mandated type.
pub open spec fn spec_param_ok(p: PARAMETER) -> bool {
    &&& spec_valid_quals(p.qual@)
    &&& spec_is_gl_builtin(p.name@) ==> spec_check_gl_builtin_type(p.name@, p.gtype)
}

/// The names a stage requires (or produces) in direction `dir`: the names of
/// its non-builtin parameters carrying that direction qualifier, in
/// declaration order, duplicates included.
pub open spec fn spec_requirement_names(params: Seq<PARAMETER>, dir: QUALIFIER) -> Seq<Seq<char>>
    decreases params.len(),
{
    if params.len() == 0 {
        Seq::empty()
    } else {
        let prefix = spec_requirement_names(params.drop_last(), dir);
        let p = params.last();
        if !spec_is_gl_builtin(p.name@) && p.qual@.contains(dir) {
            prefix.push(p.name@)
        } else {
            prefix
        }
    }
}

proof fn lemma_requirement_names_push(params: Seq<PARAMETER>, p: PARAMETER, dir: QUALIFIER)
    ensures
        spec_requirement_names(params.push(p), dir) == if !spec_is_gl_builtin(p.name@)
            && p.qual@.contains(dir) {
            spec_requirement_names(params, dir).push(p.name@)
        } else {
            spec_requirement_names(params, dir)
        },
{
    assert(params.push(p).drop_last() =~= params);
    assert(params.push(p).last() == p);
}

fn requirement_names(params: &Vec<PARAMETER>, dir: QUALIFIER) -> (r: Vec<String>)
    requires
        forall|i: int| 0 <= i < params@.len() ==> (#[trigger] params@[i]).wf(),
    ensures
        r.deep_view() == spec_requirement_names(params@, dir),
        forall|k: int| 0 <= k < r.deep_view().len() ==> (#[trigger] r.deep_view()[k]).len() > 0,
{
    let mut out: Vec<String> = Vec::new();
    let mut i: usize = 0;
    proof {
        assert(params@.take(0) =~= Seq::empty());
        assert(out.deep_view() =~= Seq::<Seq<char>>::empty());
    }
    while i < params.len()
        invariant
            i <= params@.len(),
            forall|k: int| 0 <= k < params@.len() ==> (#[trigger] params@[k]).wf(),
            out.deep_view() == spec_requirement_names(params@.take(i as int), dir),
            forall|k: int|
                0 <= k < out.deep_view().len() ==> (#[trigger] out.deep_view()[k]).len() > 0,
        decreases params@.len() - i,
    {
        proof {
            assert(params@.take(i + 1) =~= params@.take(i as int).push(params@[i as int]));
            lemma_requirement_names_push(params@.take(i as int), params@[i as int], dir);
        }
        let p = &params[i];
        if !is_gl_builtin(p.name.as_str()) && has_qual(p.qual.as_slice(), dir) {
            let ghost old_dv = out.deep_view();
            out.push(p.name.clone());
            proof {
                assert(out.deep_view() =~= old_dv.push(p.name@));
            }
        }
        i += 1;
    }
    proof {
        assert(params@.take(params@.len() as int) =~= params@);
    }
    out
}

/// Turn a stage's validated parameter list into its required-input and
/// produced-output name sets.
///
/// Each parameter must combine at most one storage class and may use a
/// builtin name only with that name's mandated type; the first offender is
/// reported.  Builtin names are then excluded from both sets, since the
/// graphics API supplies them without a host bind.  Every non-builtin `IN`
/// name joins the required-input set and every non-builtin `OUT` name the
/// produced-output set, at the next free slot in declaration order; a stage
/// declaring more distinct names than a set can hold is rejected.
pub fn stage_sets(params: &Vec<PARAMETER>) -> (r: Result<(NameSet, NameSet), DeclarationError>)
    requires
        forall|i: int| 0 <= i < params@.len() ==> (#[trigger] params@[i]).wf(),
    ensures
        match r {
            Ok(sets) => {
                &&& forall|i: int| 0 <= i < params@.len() ==> spec_param_ok(#[trigger] params@[i])
                &&& sets.0.wf()
                &&& sets.1.wf()
                &&& sets.0@ == spec_construct(spec_requirement_names(params@, QUALIFIER::IN))
                &&& sets.1@ == spec_construct(spec_requirement_names(params@, QUALIFIER::OUT))
            },
            Err(e) => match e {
                DeclarationError::InvalidQualifiers { name } => exists|i: int|
                    {
                        &&& 0 <= i < params@.len()
                        &&& !spec_valid_quals((#[trigger] params@[i]).qual@)
                        &&& name@ == params@[i].name@
                    },
                DeclarationError::BuiltinTypeMismatch { name, gtype } => exists|i: int|
                    {
                        &&& 0 <= i < params@.len()
                        &&& spec_is_gl_builtin((#[trigger] params@[i]).name@)
                        &&& !spec_check_gl_builtin_type(params@[i].name@, params@[i].gtype)
                        &&& name@ == params@[i].name@
                        &&& gtype == params@[i].gtype
                    },
                DeclarationError::TooManyNames { name } => {
                    ||| (spec_construct(spec_requirement_names(params@, QUALIFIER::IN)).len()
                        > NAME_CAPACITY && spec_requirement_names(
                        params@,
                        QUALIFIER::IN,
                    ).contains(name@))
                    ||| (spec_construct(spec_requirement_names(params@, QUALIFIER::OUT)).len()
                        > NAME_CAPACITY && spec_requirement_names(
                        params@,
                        QUALIFIER::OUT,
                    ).contains(name@))
                },
            },
        },
{
    let mut i: usize = 0;
    while i < params.len()
        invariant
            i <= params@.len(),
            forall|k: int| 0 <= k < params@.len() ==> (#[trigger] params@[k]).wf(),
            forall|k: int| 0 <= k < i ==> spec_param_ok(#[trigger] params@[k]),
        decreases params@.len() - i,
    {
        let p = &params[i];
        if !valid_quals(p.qual.as_slice()) {
            return Err(DeclarationError::InvalidQualifiers { name: p.name.clone() });
        }
        if is_gl_builtin(p.name.as_str()) && !check_gl_builtin_type(p.name.as_str(), &p.gtype) {
            return Err(
                DeclarationError::BuiltinTypeMismatch { name: p.name.clone(), gtype: p.gtype },
            );
        }
        i += 1;
    }
    let in_names = requirement_names(params, QUALIFIER::IN);
    let out_names = requirement_names(params, QUALIFIER::OUT);
    let ins = match NameSet::construct(&in_names) {
        Ok(set) => set,
        Err(e) => {
            return Err(e);
        },
    };
    let outs = match NameSet::construct(&out_names) {
        Ok(set) => set,
        Err(e) => {
            return Err(e);
        },
    };
    Ok((ins, outs))
}

/// A character the token collapser may skip between two plus signs.
pub open spec fn spec_blank(c: char) -> bool {
    c == ' ' || c == '\n'
}

/// The first position at or after `j` holding a non-blank character, or the
/// text's end.
pub open spec fn spec_skip_blanks(s: Seq<char>, j: int) -> int
    decreases s.len() - j,
    when 0 <= j <= s.len()
{
    if j >= s.len() {
        j
    } else if spec_blank(s[j]) {
        spec_skip_blanks(s, j + 1)
    } else {
        j
    }
}

proof fn lemma_skip_blanks_bounds(s: Seq<char>, j: int)
    requires
        0 <= j <= s.len(),
    ensures
        j <= spec_skip_blanks(s, j) <= s.len(),
    decreases s.len() - j,
{
    if j < s.len() && spec_blank(s[j]) {
        lemma_skip_blanks_bounds(s, j + 1);
    }
}

/// The body-text normalisation, from position `i` on: a `+` followed, across
/// blanks, by another `+` collapses with those blanks into the single token
/// `++`, scanning left to right and resuming after each collapsed pair; any
/// other character is kept as it stands.
pub open spec fn spec_collapse_from(s: Seq<char>, i: int) -> Seq<char>
    decreases s.len() - i,
    when 0 <= i <= s.len()
    via spec_collapse_from_decreases
{
    if i >= s.len() {
        Seq::empty()
    } else if s[i] == '+' && spec_skip_blanks(s, i + 1) < s.len() && s[spec_skip_blanks(s, i + 1)]
        == '+' {
        seq!['+', '+'] + spec_collapse_from(s, spec_skip_blanks(s, i + 1) + 1)
    } else {
        seq![s[i]] + spec_collapse_from(s, i + 1)
    }
}

#[via_fn]
proof fn spec_collapse_from_decreases(s: Seq<char>, i: int) {
    if i < s.len() {
        lemma_skip_blanks_bounds(s, i + 1);
    }
}

/// The whole normalised body text.
pub open spec fn spec_collapse(s: Seq<char>) -> Seq<char> {
    spec_collapse_from(s, 0)
}

fn scan_blanks(inner: &str, start: usize) -> (r: usize)
    requires
        start <= inner@.len(),
    ensures
        start <= r <= inner@.len(),
        r == spec_skip_blanks(inner@, start as int),
{
    let len = inner.unicode_len();
    let mut j = start;
    while j < len
        invariant
            start <= j <= len,
            len == inner@.len(),
            spec_skip_blanks(inner@, start as int) == spec_skip_blanks(inner@, j as int),
        decreases len - j,
    {
        let cj = inner.get_char(j);
        if !(cj == ' ' || cj == '\n') {
            return j;
        }
        j += 1;
    }
    j
}

fn push_char_of(out: &mut String, inner: &str, i: usize)
    requires
        i < inner@.len(),
        inner@.len() <= usize::MAX,
    ensures
        final(out)@ == old(out)@ + seq![inner@[i as int]],
{
    let piece = inner.substring_char(i, i + 1);
    proof {
        assert(piece@ =~= seq![inner@[i as int]]);
    }
    out.append(piece);
}

/// Normalise a stage's raw body text: strip exactly the one enclosing brace
/// pair, then collapse every run of blank-separated `+` tokens into the
/// shading language's `++` token.  The text must be braced; anything else is
/// a caller error.
pub fn process_body(body: &str) -> (r: String)
    requires
        body@.len() >= 2,
        body@[0] == '{',
        body@[body@.len() - 1] == '}',
    ensures
        r@ == spec_collapse(body@.subrange(1, body@.len() - 1)),
{
    let n = body.unicode_len();
    let inner = body.substring_char(1, n - 1);
    let ghost s = inner@;
    let len = inner.unicode_len();
    let mut out = String::new();
    let mut i: usize = 0;
    while i < len
        invariant
            s == inner@,
            len == s.len(),
            i <= len,
            spec_collapse(s) == out@ + spec_collapse_from(s, i as int),
        decreases len - i,
    {
        let c = inner.get_char(i);
        let ghost old_out = out@;
        if c == '+' {
            let j = scan_blanks(inner, i + 1);
            if j < len && inner.get_char(j) == '+' {
                proof {
                    assert(spec_collapse_from(s, i as int) == seq!['+', '+']
                        + spec_collapse_from(s, j + 1));
                    reveal_strlit("++");
                    assert("++"@ =~= seq!['+', '+']);
                }
                out.append("++");
                proof {
                    assert(old_out + (seq!['+', '+'] + spec_collapse_from(s, j + 1)) =~= (old_out
                        + seq!['+', '+']) + spec_collapse_from(s, j + 1));
                }
                i = j + 1;
            } else {
                proof {
                    assert(spec_collapse_from(s, i as int) == seq![s[i as int]]
                        + spec_collapse_from(s, i + 1));
                }
                push_char_of(&mut out, inner, i);
                proof {
                    assert(old_out + (seq![s[i as int]] + spec_collapse_from(s, i + 1)) =~= (
                    old_out + seq![s[i as int]]) + spec_collapse_from(s, i + 1));
                }
                i += 1;
            }
        } else {
            proof {
                assert(spec_collapse_from(s, i as int) == seq![s[i as int]] + spec_collapse_from(
                    s,
                    i + 1,
                ));
            }
            push_char_of(&mut out, inner, i);
            proof {
                assert(old_out + (seq![s[i as int]] + spec_collapse_from(s, i + 1)) =~= (old_out
                    + seq![s[i as int]]) + spec_collapse_from(s, i + 1));
            }
            i += 1;
        }
    }
    proof {
        assert(spec_collapse_from(s, len as int) =~= Seq::<char>::empty());
        assert(out@ + Seq::<char>::empty() =~= out@);
    }
    out
}

} // verus!
