//! Input/output schema introspection.
//!
//! At session construction the native runtime is asked once for every
//! input's and output's name, element type and shape; the answers are
//! recorded in order as [`SessionInputInfo`] and [`SessionOutputInfo`]
//! entries and never change for the life of the session.  Dimensions the
//! native layer reports with a negative sentinel are symbolic ("unknown");
//! they are recorded as `None`, never as literal negative sizes.

use vstd::prelude::*;

use crate::types::ElementType;
use crate::types::spec_element_type_from_raw;

verus! {

/// What the native introspection calls reported for one input or output
/// slot, as plain values: the slot's name, its element-type tag, and its
/// dimensions with negative sentinels still in place.
#[derive(Debug)]
pub struct RawIoInfo {
    pub name: String,
    pub element_type: u32,
    pub dims: Vec<i64>,
}

/// The recorded schema of one session input.
#[derive(Debug, Clone)]
pub struct SessionInputInfo {
    pub name: String,
    pub input_type: ElementType,
    /// Per-dimension size; `None` marks a symbolic (dynamic) dimension.
    pub input_dim: Vec<Option<i64>>,
}

/// The recorded schema of one session output.
#[derive(Debug, Clone)]
pub struct SessionOutputInfo {
    pub name: String,
    pub output_type: ElementType,
    /// Per-dimension size; `None` marks a symbolic (dynamic) dimension.
    pub output_dim: Vec<Option<i64>>,
}

/// How one reported dimension is recorded: negative sentinels become
/// "unknown", everything else is kept as is.
pub open spec fn spec_dim(d: i64) -> Option<i64> {
    if d < 0 {
        Option::None
    } else {
        Option::Some(d)
    }
}

/// How a reported dimension list is recorded.
pub open spec fn spec_dims(dims: Seq<i64>) -> Seq<Option<i64>> {
    dims.map_values(|d: i64| spec_dim(d))
}

/// Record a reported dimension list, translating every negative sentinel
/// to "unknown".
pub fn translate_dims(dims: &Vec<i64>) -> (r: Vec<Option<i64>>)
    ensures
        r@ == spec_dims(dims@),
{
    let mut r: Vec<Option<i64>> = Vec::new();
    let mut i: usize = 0;
    while i < dims.len()
        invariant
            i <= dims.len(),
            r@.len() == i,
            forall|j: int| 0 <= j < i ==> r@[j] == spec_dim(dims@[j]),
        decreases dims.len() - i,
    {
        let d = dims[i];
        if d < 0 {
            r.push(Option::None);
        } else {
            r.push(Option::Some(d));
        }
        i = i + 1;
    }
    proof {
        assert(r@ =~= spec_dims(dims@));
    }
    r
}

/// Whether a recorded input schema entry is exactly the translation of what
/// the native layer reported.
pub open spec fn input_info_matches(info: SessionInputInfo, raw: RawIoInfo) -> bool {
    &&& info.name == raw.name
    &&& info.input_type == spec_element_type_from_raw(raw.element_type)
    &&& info.input_dim@ == spec_dims(raw.dims@)
}

/// Whether a recorded output schema entry is exactly the translation of
/// what the native layer reported.
pub open spec fn output_info_matches(info: SessionOutputInfo, raw: RawIoInfo) -> bool {
    &&& info.name == raw.name
    &&& info.output_type == spec_element_type_from_raw(raw.element_type)
    &&& info.output_dim@ == spec_dims(raw.dims@)
}

/// Record the schema of one input slot.
pub fn get_session_input(raw: &RawIoInfo) -> (info: SessionInputInfo)
    ensures
        input_info_matches(info, *raw),
{
    SessionInputInfo {
        name: raw.name.clone(),
        input_type: ElementType::from_raw(raw.element_type),
        input_dim: translate_dims(&raw.dims),
    }
}

/// Record the schema of one output slot.
pub fn get_session_output(raw: &RawIoInfo) -> (info: SessionOutputInfo)
    ensures
        output_info_matches(info, *raw),
{
    SessionOutputInfo {
        name: raw.name.clone(),
        output_type: ElementType::from_raw(raw.element_type),
        output_dim: translate_dims(&raw.dims),
    }
}

/// Record the full input schema, one entry per reported slot, in the
/// positional order the inference call expects.
pub fn get_session_inputs(raws: &Vec<RawIoInfo>) -> (infos: Vec<SessionInputInfo>)
    ensures
        infos@.len() == raws@.len(),
        forall|i: int| 0 <= i < raws@.len() ==> input_info_matches(#[trigger] infos@[i], raws@[i]),
{
    let mut infos: Vec<SessionInputInfo> = Vec::new();
    let mut i: usize = 0;
    while i < raws.len()
        invariant
            i <= raws.len(),
            infos@.len() == i,
            forall|j: int| 0 <= j < i ==> input_info_matches(#[trigger] infos@[j], raws@[j]),
        decreases raws.len() - i,
    {
        infos.push(get_session_input(&raws[i]));
        i = i + 1;
    }
    infos
}

/// Record the full output schema, one entry per reported slot, in the
/// positional order the inference call expects.
pub fn get_session_outputs(raws: &Vec<RawIoInfo>) -> (infos: Vec<SessionOutputInfo>)
    ensures
        infos@.len() == raws@.len(),
        forall|i: int| 0 <= i < raws@.len() ==> output_info_matches(#[trigger] infos@[i], raws@[i]),
{
    let mut infos: Vec<SessionOutputInfo> = Vec::new();
    let mut i: usize = 0;
    while i < raws.len()
        invariant
            i <= raws.len(),
            infos@.len() == i,
            forall|j: int| 0 <= j < i ==> output_info_matches(#[trigger] infos@[j], raws@[j]),
        decreases raws.len() - i,
    {
        infos.push(get_session_output(&raws[i]));
        i = i + 1;
    }
    infos
}

/// No negative size survives translation: every recorded dimension is
/// either "unknown" or a non-negative literal size.
pub proof fn lemma_schema_dims_never_negative(dims: Seq<i64>)
    ensures
        spec_dims(dims).len() == dims.len(),
        forall|j: int|
            0 <= j < dims.len() ==> (#[trigger] spec_dims(dims)[j] matches Some(d) ==> d >= 0),
{
    assert forall|j: int|
        0 <= j < dims.len() implies (#[trigger] spec_dims(dims)[j] matches Some(d) ==> d >= 0) by {
        assert(spec_dims(dims)[j] == spec_dim(dims[j]));
    }
}

} // verus!
