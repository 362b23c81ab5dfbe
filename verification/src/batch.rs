//! Batch extraction: one plan per input, one result per input, in input
//! order. A failing input fills only its own slot; it never aborts the batch.

use vstd::prelude::*;

use crate::args::{Args, ArgsV};
use crate::errors::{ErrV, ExtractError};
use crate::extractor::AudioExtractor;
use crate::format::{format_name, AudioFormat};
use crate::paths::{file_stem_of, file_stem_spec, join_path, join_spec};

verus! {

/// The plan for one input: a configuration whose output joins the output
/// directory with the input's stem and the target format's extension. An
/// input without a file stem cannot name a supported video file and gets an
/// `UnsupportedInputFormat` slot instead.
pub open spec fn batch_plan_spec(
    input: Seq<char>,
    output_dir: Seq<char>,
    format: AudioFormat,
    quality: u32,
    verify: bool,
) -> Result<ArgsV, ErrV> {
    match file_stem_spec(input) {
        None => Err(ErrV::UnsupportedInputFormat(input)),
        Some(stem) => Ok(
            ArgsV {
                input: input,
                output: join_spec(output_dir, stem + seq!['.'] + format_name(format)),
                format: format,
                quality: quality,
                verify: verify,
            },
        ),
    }
}

/// The mathematical image of a sequence of plans.
pub open spec fn plans_view(s: Seq<Result<Args, ExtractError>>) -> Seq<Result<ArgsV, ErrV>> {
    s.map_values(
        |p: Result<Args, ExtractError>|
            match p {
                Ok(a) => Ok(a@),
                Err(e) => Err(e@),
            },
    )
}

/// The mathematical image of a sequence of per-input run outcomes.
pub open spec fn runs_view(s: Seq<Result<(), ExtractError>>) -> Seq<Result<(), ErrV>> {
    s.map_values(
        |r: Result<(), ExtractError>|
            match r {
                Ok(u) => Ok(u),
                Err(e) => Err(e@),
            },
    )
}

/// The mathematical image of a sequence of collected results.
pub open spec fn results_view(s: Seq<Result<String, ExtractError>>) -> Seq<
    Result<Seq<char>, ErrV>,
> {
    s.map_values(
        |r: Result<String, ExtractError>|
            match r {
                Ok(p) => Ok(p@),
                Err(e) => Err(e@),
            },
    )
}

/// What a batch collects: per slot, the plan's error if planning failed, the
/// run's error if the run failed, and otherwise the planned output path.
pub open spec fn batch_results_spec(
    plans: Seq<Result<ArgsV, ErrV>>,
    runs: Seq<Result<(), ErrV>>,
) -> Seq<Result<Seq<char>, ErrV>> {
    Seq::new(
        plans.len(),
        |i: int|
            match plans[i] {
                Err(e) => Err(e),
                Ok(a) => match runs[i] {
                    Ok(u) => Ok(a.output),
                    Err(e) => Err(e),
                },
            },
    )
}

impl AudioExtractor {
    /// Plans a batch: one configuration per input, in input order, each
    /// writing into `output_dir` under the input's stem and the target
    /// format's extension. A slot whose input has no file stem holds that
    /// input's error; the other slots are untouched by it.
    pub fn extract_batch(
        inputs: &Vec<String>,
        output_dir: &String,
        format: AudioFormat,
        quality: u32,
        verify: bool,
    ) -> (plans: Vec<Result<Args, ExtractError>>)
        ensures
            plans_view(plans@) == Seq::new(
                inputs@.len(),
                |i: int| batch_plan_spec(inputs@[i]@, output_dir@, format, quality, verify),
            ),
    {
        let mut plans: Vec<Result<Args, ExtractError>> = Vec::new();
        let n = inputs.len();
        let mut i: usize = 0;
        while i < n
            invariant
                i <= n,
                n == inputs@.len(),
                plans@.len() == i,
                forall|j: int|
                    0 <= j < i ==> plans_view(plans@)[j] == batch_plan_spec(
                        inputs@[j]@,
                        output_dir@,
                        format,
                        quality,
                        verify,
                    ),
            decreases n - i,
        {
            let ghost pre = plans@;
            let input = &inputs[i];
            let plan: Result<Args, ExtractError> = match file_stem_of(input.as_str()) {
                None => Err(ExtractError::UnsupportedInputFormat(input.clone())),
                Some(stem) => {
                    let ghost stem_v = stem@;
                    let mut name = stem;
                    name.append(".");
                    name.append(format.as_str());
                    proof {
                        reveal_strlit(".");
                        assert("."@ =~= seq!['.']);
                        assert(name@ == stem_v + seq!['.'] + format_name(format));
                    }
                    let output = join_path(output_dir.as_str(), name.as_str());
                    Ok(Args { input: input.clone(), output, format, quality, verify })
                },
            };
            proof {
                let pv = match &plan {
                    Ok(a) => Ok::<ArgsV, ErrV>(a@),
                    Err(e) => Err::<ArgsV, ErrV>(e@),
                };
                assert(pv == batch_plan_spec(inputs@[i as int]@, output_dir@, format, quality,
                    verify,
                ));
            }
            plans.push(plan);
            i = i + 1;
            proof {
                assert forall|j: int| 0 <= j < i implies plans_view(plans@)[j] == batch_plan_spec(
                    inputs@[j]@,
                    output_dir@,
                    format,
                    quality,
                    verify,
                ) by {
                    if j < i - 1 {
                        assert(plans@[j] == pre[j]);
                        assert(plans_view(pre)[j] == batch_plan_spec(inputs@[j]@, output_dir@,
                            format,
                            quality,
                            verify,
                        ));
                    } else {
                        assert(plans@[j] == plan);
                    }
                }
            }
        }
        proof {
            assert(plans_view(plans@) =~= Seq::new(
                inputs@.len(),
                |i: int| batch_plan_spec(inputs@[i]@, output_dir@, format, quality, verify),
            ));
        }
        plans
    }
}

/// Collects a batch's results from its plans and the per-input run outcomes,
/// one slot per input, in input order. The outcome reported for a slot whose
/// plan already failed is ignored.
pub fn collect_batch(
    plans: &Vec<Result<Args, ExtractError>>,
    runs: &Vec<Result<(), ExtractError>>,
) -> (results: Vec<Result<String, ExtractError>>)
    requires
        plans@.len() == runs@.len(),
    ensures
        results_view(results@) == batch_results_spec(plans_view(plans@), runs_view(runs@)),
{
    let n = plans.len();
    let mut results: Vec<Result<String, ExtractError>> = Vec::new();
    let mut i: usize = 0;
    while i < n
        invariant
            i <= n,
            n == plans@.len(),
            n == runs@.len(),
            results@.len() == i,
            forall|j: int|
                0 <= j < i ==> results_view(results@)[j] == batch_results_spec(
                    plans_view(plans@),
                    runs_view(runs@),
                )[j],
        decreases n - i,
    {
        let ghost pre = results@;
        let slot: Result<String, ExtractError> = match &plans[i] {
            Err(e) => Err(e.clone()),
            Ok(a) => match &runs[i] {
                Ok(u) => Ok(a.output.clone()),
                Err(e) => Err(e.clone()),
            },
        };
        proof {
            let sv = match &slot {
                Ok(p) => Ok::<Seq<char>, ErrV>(p@),
                Err(e) => Err::<Seq<char>, ErrV>(e@),
            };
            assert(sv == batch_results_spec(plans_view(plans@), runs_view(runs@))[i as int]);
        }
        results.push(slot);
        i = i + 1;
        proof {
            assert forall|j: int| 0 <= j < i implies results_view(results@)[j]
                == batch_results_spec(plans_view(plans@), runs_view(runs@))[j] by {
                if j < i - 1 {
                    assert(results@[j] == pre[j]);
                    assert(results_view(pre)[j] == batch_results_spec(
                        plans_view(plans@),
                        runs_view(runs@),
                    )[j]);
                } else {
                    assert(results@[j] == slot);
                }
            }
        }
    }
    proof {
        assert(results_view(results@) =~= batch_results_spec(plans_view(plans@), runs_view(runs@)));
    }
    results
}

/// One failing input fails only its own slot: over a batch whose other plans
/// and runs all succeeded, the collected results err exactly at the failing
/// index and carry the planned output paths, in order, everywhere else.
pub proof fn lemma_batch_isolates_failures(
    plans: Seq<Result<ArgsV, ErrV>>,
    runs: Seq<Result<(), ErrV>>,
    k: int,
)
    requires
        plans.len() == runs.len(),
        0 <= k < plans.len(),
        forall|i: int| 0 <= i < plans.len() && i != k ==> #[trigger] plans[i] is Ok,
        forall|i: int| 0 <= i < runs.len() && i != k ==> #[trigger] runs[i] is Ok,
        plans[k] is Err || runs[k] is Err,
    ensures
        ({
            let r = batch_results_spec(plans, runs);
            &&& r.len() == plans.len()
            &&& r[k] is Err
            &&& forall|i: int|
                0 <= i < r.len() && i != k ==> #[trigger] r[i] == Ok::<Seq<char>, ErrV>(
                    plans[i]->Ok_0.output,
                )
        }),
{
}

} // verus!
