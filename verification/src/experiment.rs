//! The data model: experiments, their parameters and choices, the evaluation
//! result, and the evaluation errors.

use vstd::prelude::*;
use crate::hashing::spec_hash;

verus! {

/// The choices a parameter offers. Uniform choices are equally likely.
/// Weighted choices carry a weight per label and are selected with
/// probability proportional to the weights; each weight is the 64-bit
/// encoding of the caller's numeric weight and is never interpreted here —
/// the caller that performs the numeric partition scan decodes it.
pub enum Choices {
    Weighted(Vec<(String, u64)>),
    Uniform(Vec<String>),
}

/// A single named parameter within an experiment.
pub struct Param {
    pub name: String,
    pub choices: Choices,
}

/// An experiment: a namespaced name, an ordered sequence of parameters, and
/// a bitmask over `segments.len() * 8` equally sized population buckets.
pub struct Experiment {
    pub name: String,
    pub namespace: String,
    pub params: Vec<Param>,
    pub segments: Vec<u8>,
}

/// The resolved choice for one parameter.
#[derive(Debug)]
pub struct ParamExperience {
    pub name: String,
    pub choice: String,
}

/// The result of evaluating an experiment: one resolved choice per
/// parameter, in the parameters' order.
#[derive(Debug)]
pub struct Experience {
    pub name: String,
    pub namespace: String,
    pub params: Vec<ParamExperience>,
}

/// Why an evaluation returned no experience.
#[derive(Clone, Copy, Debug, PartialEq, Eq, Structural)]
pub enum EvalError {
    /// The user's hash bucket bit is unset: the user is not in the
    /// experiment. Expected and frequent.
    SegmentExcluded,
    /// The weighted partition scan found no boundary above the drawn value.
    /// Unreachable for non-negative weights with a positive sum, barring an
    /// edge case at the exact upper bound.
    ChoiceResolutionFailure,
}

impl EvalError {
    /// A human-readable description of the error.
    pub fn message(&self) -> (r: &'static str)
        ensures
            *self is SegmentExcluded ==> r@ == "segment not activated"@,
            *self is ChoiceResolutionFailure ==> r@ == "could not determine choice"@,
    {
        match self {
            EvalError::SegmentExcluded => "segment not activated",
            EvalError::ChoiceResolutionFailure => "could not determine choice",
        }
    }
}

/// A parameter is well-formed when it offers at least one choice.
pub open spec fn param_wf(p: Param) -> bool {
    match p.choices {
        Choices::Uniform(labels) => labels@.len() > 0,
        Choices::Weighted(weighted) => weighted@.len() > 0,
    }
}

/// An experiment is well-formed when its segment bitmask is non-empty (and
/// small enough that the bit count fits in 64 bits) and every parameter
/// offers at least one choice.
pub open spec fn experiment_wf(e: Experiment) -> bool {
    &&& e.segments@.len() > 0
    &&& e.segments@.len() * 8 <= u64::MAX
    &&& forall|i: int| 0 <= i < e.params@.len() ==> param_wf(#[trigger] e.params@[i])
}

/// The experiment-level eligibility hash: the parameter-name component is
/// empty.
pub open spec fn experiment_hash(e: Experiment, user_id: Seq<char>) -> u64 {
    spec_hash("choices"@, e.namespace@, e.name@, ""@, user_id)
}

/// The hash for parameter `i` of the experiment: independent of the
/// eligibility hash through the parameter-name component.
pub open spec fn param_hash(e: Experiment, user_id: Seq<char>, i: int) -> u64 {
    spec_hash("choices"@, e.namespace@, e.name@, e.params@[i].name@, user_id)
}

/// The weights of a weighted parameter, in declaration order.
pub open spec fn weights_of(p: Param) -> Seq<u64>
    recommends
        p.choices is Weighted,
{
    match p.choices {
        Choices::Weighted(weighted) => weighted@.map_values(|c: (String, u64)| c.1),
        Choices::Uniform(_) => Seq::empty(),
    }
}

/// The label a uniform parameter selects for a hash: the label at index
/// `hash mod len`.
pub open spec fn uniform_pick(labels: Seq<String>, hash: u64) -> Seq<char>
    recommends
        labels.len() > 0,
{
    labels[(hash as int) % (labels.len() as int)]@
}

/// The selected label is the one the parameter's policy picks: for uniform
/// choices exactly `labels[hash mod len]`; for weighted choices one of the
/// declared labels (which one is decided by the caller's numeric partition
/// scan and pinned down at the step that receives the scan's index).
pub open spec fn choice_ok(p: Param, hash: u64, chosen: Seq<char>) -> bool {
    match p.choices {
        Choices::Uniform(labels) => chosen == uniform_pick(labels@, hash),
        Choices::Weighted(weighted) => exists|k: int|
            0 <= k < weighted@.len() && chosen == weighted@[k].0@,
    }
}

/// A resolved entry carries the parameter's name and a label its policy
/// admits for that parameter's hash.
pub open spec fn result_ok(e: Experiment, user_id: Seq<char>, i: int, pe: ParamExperience) -> bool
    recommends
        0 <= i < e.params@.len(),
{
    &&& pe.name@ == e.params@[i].name@
    &&& choice_ok(e.params@[i], param_hash(e, user_id, i), pe.choice@)
}

} // verus!
