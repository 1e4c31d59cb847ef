//! The pipeline that every operation runs through: validate, resolve the
//! distribution if it is not resolved yet, call the collaborator, hand on
//! what it found. Each failure becomes an error record of its own kind.

use vstd::prelude::*;
use vstd::string::*;
use crate::distribution::{HandleModel, PythonDistribution, ResolveModel, ResolveRequest};
use crate::error::{ErrorModel, Operation, ScriptError};

verus! {

/// What comes next for a validated request.
#[derive(Debug, PartialEq, Eq)]
pub enum Step<Q> {
    /// The distribution has to be resolved first; the request waits.
    Resolve(ResolveRequest, Q),
    /// The distribution is there: call the collaborator.
    Invoke(Q),
}

/// A step as contracts speak of it.
pub enum StepModel<Q> {
    Resolve(ResolveModel, Q),
    Invoke(Q),
}

impl<Q: View> View for Step<Q> {
    type V = StepModel<Q::V>;

    open spec fn view(&self) -> StepModel<Q::V> {
        match self {
            Step::Resolve(resolve, request) => StepModel::Resolve(resolve@, request@),
            Step::Invoke(request) => StepModel::Invoke(request@),
        }
    }
}

/// What comes next on a handle for a request that was validated: the
/// collaborator's call on a resolved handle, else the resolution. A
/// request that was refused goes no further.
pub open spec fn plan<D, C, Q>(
    handle: HandleModel<D, C>,
    validated: Result<Q, ErrorModel>,
) -> Result<StepModel<Q>, ErrorModel> {
    match validated {
        Err(e) => Err(e),
        Ok(request) => if handle.is_resolved() {
            Ok(StepModel::Invoke(request))
        } else {
            Ok(StepModel::Resolve(handle.resolve_request(), request))
        },
    }
}

impl<D, C> PythonDistribution<D, C> {
    /// What comes next for a validated request: the collaborator's call on
    /// a resolved handle, else the resolution.
    pub fn step<Q: View>(&self, request: Q) -> (r: Step<Q>)
        ensures
            plan(self@, Ok(request@)) is Ok,
            plan(self@, Ok(request@))->Ok_0 == r@,
            self@.is_resolved() ==> r == Step::Invoke(request),
            !self@.is_resolved() ==> r is Resolve && r->Resolve_1 == request,
    {
        match self.resolution_request() {
            Some(resolve) => Step::Resolve(resolve, request),
            None => Step::Invoke(request),
        }
    }

    /// Records how the resolution that a request waited for ended, and
    /// hands the request back for the collaborator's call, or the error of a
    /// failed resolution. The handle changes as
    /// `ensure_distribution_resolved` says.
    pub fn after_resolution<Q>(&mut self, pending: Q, outcome: Result<D, String>) -> (r: Result<
        Q,
        ScriptError,
    >)
        ensures
            final(self)@ == old(self)@.resolved_with(
                match outcome {
                    Ok(d) => Ok(d),
                    Err(e) => Err(e@),
                },
            ),
            old(self)@.is_resolved() || outcome is Ok ==> r is Ok && r->Ok_0 == pending,
            !old(self)@.is_resolved() && outcome is Err ==> r is Err && r->Err_0@
                == Operation::ResolveDistribution.failure(outcome->Err_0@),
    {
        match self.ensure_distribution_resolved(outcome) {
            Ok(()) => Ok(pending),
            Err(e) => Err(Operation::ResolveDistribution.fail(e.as_str())),
        }
    }
}

/// The resolver is asked at most once for a handle. A resolved handle
/// sends every validated request straight to its collaborator, and a
/// handle is resolved from the first success on, whatever is recorded
/// after it.
pub proof fn lemma_resolved_handle_never_asks<D, C, Q>(
    handle: HandleModel<D, C>,
    request: Q,
    first: D,
    later: Result<D, Seq<char>>,
)
    ensures
        handle.is_resolved() ==> plan(handle, Ok(request)) == Ok::<StepModel<Q>, ErrorModel>(
            StepModel::Invoke(request),
        ),
        plan(handle.resolved_with(Ok(first)), Ok(request)) == Ok::<StepModel<Q>, ErrorModel>(
            StepModel::Invoke(request),
        ),
        plan(handle.resolved_with(Ok(first)).resolved_with(later), Ok(request)) == Ok::<
            StepModel<Q>,
            ErrorModel,
        >(StepModel::Invoke(request)),
{
}

/// A request that was refused asks for nothing: neither for a resolution
/// nor for a call.
pub proof fn lemma_refused_request_goes_no_further<D, C, Q>(
    handle: HandleModel<D, C>,
    error: ErrorModel,
)
    ensures
        plan::<D, C, Q>(handle, Err(error)) == Err::<StepModel<Q>, ErrorModel>(error),
{
}

} // verus!
