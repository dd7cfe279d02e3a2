//! The experiment evaluator: the eligibility gate followed by per-parameter
//! choice resolution.
//!
//! Uniform parameters are resolved here. A weighted parameter's label is
//! chosen by a numeric partition scan over the weights, which works on
//! machine floating point and therefore lives with the caller: evaluation
//! suspends with a [`WeightedQuery`] (the parameter's hash and weights), the
//! caller runs the scan and hands the winning index back to
//! [`Evaluation::supply`], and evaluation resumes. An experiment whose
//! parameters are all uniform is evaluated in one call to [`evaluate`].

use vstd::prelude::*;
use crate::experiment::{
    experiment_hash, experiment_wf, param_hash, param_wf, result_ok, uniform_pick,
    weights_of, Choices, EvalError, Experience, Experiment, Param, ParamExperience,
};
use crate::hashing::hash;
use crate::segment::{segment_admits, valid_segment};

verus! {

/// Selects the uniform label for a hash: the label at index `hash mod len`.
pub fn eval_uniform<'a>(choices: &'a Vec<String>, hash: u64) -> (r: &'a str)
    requires
        choices@.len() > 0,
    ensures
        r@ == uniform_pick(choices@, hash),
{
    let idx: usize = (hash % (choices.len() as u64)) as usize;
    choices[idx].as_str()
}

/// A suspended evaluation's request to the caller: run the numeric
/// partition scan over these weights with this parameter hash, and supply
/// the winning index.
pub struct WeightedQuery {
    pub weights: Vec<u64>,
    pub hash: u64,
}

/// An evaluation suspended at a weighted parameter: the entries resolved so
/// far, and the index of the parameter awaiting its pick.
pub struct Evaluation {
    pub next: usize,
    pub results: Vec<ParamExperience>,
}

/// An evaluation whose user the segment bitmask admits: either complete, or
/// suspended at a weighted parameter together with the query the caller
/// must answer.
pub enum Progress {
    Done(Experience),
    NeedPick(Evaluation, WeightedQuery),
}

/// A complete result: the experiment's name and namespace, and one entry
/// per parameter, in order, each resolved as its policy demands.
pub open spec fn done_ok(x: Experience, e: Experiment, user_id: Seq<char>) -> bool {
    &&& x.name@ == e.name@
    &&& x.namespace@ == e.namespace@
    &&& x.params@.len() == e.params@.len()
    &&& forall|j: int| 0 <= j < e.params@.len() ==> result_ok(e, user_id, j, #[trigger] x.params@[j])
}

impl Evaluation {
    /// A well-formed suspension: the segment bitmask admits the user, every
    /// entry before `next` is resolved as its parameter's policy demands,
    /// and `next` names a weighted parameter.
    pub open spec fn suspended(self, e: Experiment, user_id: Seq<char>) -> bool {
        &&& experiment_wf(e)
        &&& segment_admits(e.segments@, experiment_hash(e, user_id))
        &&& (self.next as int) < e.params@.len()
        &&& e.params@[self.next as int].choices is Weighted
        &&& self.results@.len() == self.next as int
        &&& forall|j: int|
            0 <= j < self.next as int ==> result_ok(e, user_id, j, #[trigger] self.results@[j])
    }
}

/// What `start` and `supply` promise of a returned progress value.
pub open spec fn progress_ok(p: Progress, e: Experiment, user_id: Seq<char>) -> bool {
    match p {
        Progress::Done(x) => done_ok(x, e, user_id),
        Progress::NeedPick(ev, q) => {
            &&& ev.suspended(e, user_id)
            &&& q.hash == param_hash(e, user_id, ev.next as int)
            &&& q.weights@ == weights_of(e.params@[ev.next as int])
        },
    }
}

/// The entries resolved before `from` are kept unchanged, and every
/// parameter resolved past `from` without suspending was uniform.
pub open spec fn run_extends(prior: Seq<ParamExperience>, from: int, p: Progress, e: Experiment) -> bool {
    match p {
        Progress::Done(x) => {
            &&& forall|j: int| 0 <= j < from ==> (#[trigger] x.params@[j]) == prior[j]
            &&& forall|j: int|
                from <= j < e.params@.len() ==> (#[trigger] e.params@[j]).choices is Uniform
        },
        Progress::NeedPick(ev, _) => {
            &&& ev.next as int >= from
            &&& forall|j: int| 0 <= j < from ==> (#[trigger] ev.results@[j]) == prior[j]
            &&& forall|j: int|
                from <= j < ev.next as int ==> (#[trigger] e.params@[j]).choices is Uniform
        },
    }
}

/// The entry records the weighted parameter's name and the label at the
/// supplied index.
pub open spec fn picked_entry(pe: ParamExperience, p: Param, i: int) -> bool
    recommends
        p.choices is Weighted,
{
    match p.choices {
        Choices::Weighted(weighted) => {
            &&& pe.name@ == p.name@
            &&& 0 <= i < weighted@.len()
            &&& pe.choice@ == weighted@[i].0@
        },
        Choices::Uniform(_) => false,
    }
}

/// What `supply(Some(i))` promises beyond `progress_ok`: earlier entries
/// are kept, the awaited parameter's entry holds the label at index `i`,
/// and every further parameter resolved without suspending was uniform.
pub open spec fn supply_extends(before: Evaluation, pick_idx: int, p: Progress, e: Experiment) -> bool {
    match p {
        Progress::Done(x) => {
            &&& forall|j: int| 0 <= j < before.next as int ==> (#[trigger] x.params@[j]) == before.results@[j]
            &&& picked_entry(x.params@[before.next as int], e.params@[before.next as int], pick_idx)
            &&& forall|j: int|
                (before.next as int) < j < e.params@.len()
                    ==> (#[trigger] e.params@[j]).choices is Uniform
        },
        Progress::NeedPick(after, _) => {
            &&& after.next as int > before.next as int
            &&& forall|j: int|
                0 <= j < before.next as int ==> (#[trigger] after.results@[j]) == before.results@[j]
            &&& picked_entry(after.results@[before.next as int], e.params@[before.next as int], pick_idx)
            &&& forall|j: int|
                (before.next as int) < j < (after.next as int)
                    ==> (#[trigger] e.params@[j]).choices is Uniform
        },
    }
}

/// Resolves parameters from index `start_i` on, suspending at the first
/// weighted one.
#[verifier::loop_isolation(false)]
fn run_from(exp: &Experiment, user_id: &str, start_i: usize, results: Vec<ParamExperience>) -> (r:
    Progress)
    requires
        experiment_wf(*exp),
        segment_admits(exp.segments@, experiment_hash(*exp, user_id@)),
        start_i as int <= exp.params@.len(),
        results@.len() == start_i as int,
        forall|j: int|
            0 <= j < start_i as int ==> result_ok(*exp, user_id@, j, #[trigger] results@[j]),
    ensures
        progress_ok(r, *exp, user_id@),
        run_extends(results@, start_i as int, r, *exp),
{
    let ghost prior = results@;
    let mut results = results;
    let mut i: usize = start_i;
    while i < exp.params.len()
        invariant
            experiment_wf(*exp),
            segment_admits(exp.segments@, experiment_hash(*exp, user_id@)),
            start_i as int <= i as int <= exp.params@.len(),
            results@.len() == i as int,
            forall|j: int|
                0 <= j < i as int ==> result_ok(*exp, user_id@, j, #[trigger] results@[j]),
            forall|j: int| 0 <= j < start_i as int ==> results@[j] == prior[j],
            forall|j: int|
                start_i as int <= j < i as int ==> (#[trigger] exp.params@[j]).choices is Uniform,
        decreases exp.params@.len() - i as int,
    {
        let p = &exp.params[i];
        let h = hash("choices", exp.namespace.as_str(), exp.name.as_str(), p.name.as_str(), user_id);
        proof {
            assert(param_wf(exp.params@[i as int]));
            assert(h == param_hash(*exp, user_id@, i as int));
        }
        match &p.choices {
            Choices::Uniform(labels) => {
                let chosen = eval_uniform(labels, h);
                let pe = ParamExperience { name: p.name.as_str().to_owned(), choice: chosen.to_owned() };
                results.push(pe);
            },
            Choices::Weighted(weighted) => {
                let mut weights: Vec<u64> = Vec::new();
                let mut k: usize = 0;
                while k < weighted.len()
                    invariant
                        k as int <= weighted@.len(),
                        weights@.len() == k as int,
                        forall|j: int| 0 <= j < k as int ==> weights@[j] == weighted@[j].1,
                    decreases weighted@.len() - k as int,
                {
                    weights.push(weighted[k].1);
                    k = k + 1;
                }
                proof {
                    assert(weights@ =~= weights_of(exp.params@[i as int]));
                }
                return Progress::NeedPick(
                    Evaluation { next: i, results },
                    WeightedQuery { weights, hash: h },
                );
            },
        }
        i = i + 1;
    }
    Progress::Done(
        Experience {
            name: exp.name.as_str().to_owned(),
            namespace: exp.namespace.as_str().to_owned(),
            params: results,
        },
    )
}

/// Begins an evaluation: computes the experiment-level hash and passes it
/// through the segment gate. An excluded user yields the segment-exclusion
/// error and no parameter is evaluated; an admitted user's parameters are
/// resolved up to the first weighted one.
pub fn start(exp: &Experiment, user_id: &str) -> (r: Result<Progress, EvalError>)
    requires
        experiment_wf(*exp),
    ensures
        r is Err <==> !segment_admits(exp.segments@, experiment_hash(*exp, user_id@)),
        r matches Err(e) ==> e == EvalError::SegmentExcluded,
        r matches Ok(p) ==> progress_ok(p, *exp, user_id@) && run_extends(
            Seq::empty(),
            0,
            p,
            *exp,
        ),
{
    let exp_hash = hash("choices", exp.namespace.as_str(), exp.name.as_str(), "", user_id);
    match valid_segment(&exp.segments, exp_hash) {
        Some(e) => Err(e),
        None => Ok(run_from(exp, user_id, 0, Vec::new())),
    }
}

impl Evaluation {
    /// Resumes a suspended evaluation with the partition scan's answer for
    /// the awaited weighted parameter. No index — the scan found no
    /// partition boundary above its drawn value — fails the whole
    /// evaluation with the choice-resolution error; an index records the
    /// label at that index and resolution continues.
    pub fn supply(self, exp: &Experiment, user_id: &str, pick: Option<usize>) -> (r: Result<
        Progress,
        EvalError,
    >)
        requires
            self.suspended(*exp, user_id@),
            pick matches Some(i) ==> (i as int) < weights_of(
                exp.params@[self.next as int],
            ).len(),
        ensures
            r is Err <==> pick is None,
            r matches Err(e) ==> e == EvalError::ChoiceResolutionFailure,
            match (r, pick) {
                (Ok(p), Some(i)) => progress_ok(p, *exp, user_id@) && supply_extends(
                    self,
                    i as int,
                    p,
                    *exp,
                ),
                _ => true,
            },
    {
        match pick {
            None => Err(EvalError::ChoiceResolutionFailure),
            Some(i) => {
                let p = &exp.params[self.next];
                let label: String = match &p.choices {
                    Choices::Weighted(weighted) => {
                        proof {
                            assert(weights_of(exp.params@[self.next as int]).len()
                                == weighted@.len());
                        }
                        weighted[i].0.as_str().to_owned()
                    },
                    Choices::Uniform(_) => vstd::pervasive::unreached(),
                };
                let pe = ParamExperience { name: p.name.as_str().to_owned(), choice: label };
                proof {
                    assert(picked_entry(pe, exp.params@[self.next as int], i as int));
                    assert(result_ok(*exp, user_id@, self.next as int, pe));
                    assert(exp.params.len() == exp.params@.len());
                }
                let next = self.next + 1;
                let mut results = self.results;
                results.push(pe);
                let ghost pushed = results@;
                let prog = run_from(exp, user_id, next, results);
                proof {
                    assert(forall|j: int|
                        0 <= j < self.next as int ==> pushed[j] == self.results@[j]);
                    assert(pushed[self.next as int] == pe);
                }
                Ok(prog)
            },
        }
    }
}

/// Evaluates an experiment whose parameters are all uniform, in one call:
/// the segment-exclusion error exactly when the bitmask excludes the user,
/// and otherwise an experience with every parameter's label pinned by its
/// hash.
pub fn evaluate(exp: &Experiment, user_id: &str) -> (r: Result<Experience, EvalError>)
    requires
        experiment_wf(*exp),
        forall|j: int|
            0 <= j < exp.params@.len() ==> (#[trigger] exp.params@[j]).choices is Uniform,
    ensures
        r is Err <==> !segment_admits(exp.segments@, experiment_hash(*exp, user_id@)),
        r matches Err(e) ==> e == EvalError::SegmentExcluded,
        r matches Ok(x) ==> done_ok(x, *exp, user_id@),
{
    match start(exp, user_id) {
        Err(e) => Err(e),
        Ok(Progress::Done(x)) => Ok(x),
        Ok(Progress::NeedPick(ev, _)) => {
            proof {
                assert(exp.params@[ev.next as int].choices is Uniform);
            }
            vstd::pervasive::unreached()
        },
    }
}

/// An experiment whose segment bytes are all ones admits every user: with
/// the ensures of `start` and `evaluate`, no evaluation of it is ever
/// segment-excluded.
pub proof fn lemma_full_mask_experiment_admits_all(e: Experiment, user_id: Seq<char>)
    requires
        e.segments@.len() > 0,
        forall|i: int| 0 <= i < e.segments@.len() ==> e.segments@[i] == 0xFFu8,
    ensures
        segment_admits(e.segments@, experiment_hash(e, user_id)),
{
    crate::segment::lemma_full_mask_admits(e.segments@, experiment_hash(e, user_id));
}

/// An experiment whose segment bytes are all zero admits no user: with the
/// ensures of `start` and `evaluate`, every evaluation of it yields the
/// segment-exclusion error, whatever the user id.
pub proof fn lemma_zero_mask_experiment_excludes_all(e: Experiment, user_id: Seq<char>)
    requires
        e.segments@.len() > 0,
        forall|i: int| 0 <= i < e.segments@.len() ==> e.segments@[i] == 0u8,
    ensures
        !segment_admits(e.segments@, experiment_hash(e, user_id)),
{
    crate::segment::lemma_zero_mask_excludes(e.segments@, experiment_hash(e, user_id));
}

} // verus!
