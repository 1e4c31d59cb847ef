//! The handle of a distribution: what it is made from, and the snapshot
//! and bytecode compiler that it obtains once and then keeps.
//!
//! The handle obtains nothing itself. It says what has to be done next, the
//! embedding does it, and the handle records how that ended.

use vstd::prelude::*;
use vstd::string::*;
use crate::location::{LocationModel, PythonDistributionLocation};
use crate::policy::DistributionFlavor;

verus! {

/// A handle of a distribution. `D` is the snapshot of the resolved
/// distribution and `C` the bytecode compiler made from it; the handle
/// keeps both and looks into neither.
#[derive(Debug)]
pub struct PythonDistribution<D, C> {
    flavor: DistributionFlavor,
    pub source: PythonDistributionLocation,
    dest_dir: String,
    pub distribution: Option<D>,
    compiler: Option<C>,
}

/// A handle as contracts speak of it.
pub struct HandleModel<D, C> {
    pub flavor: DistributionFlavor,
    pub source: LocationModel,
    pub dest_dir: Seq<char>,
    pub distribution: Option<D>,
    pub compiler: Option<C>,
}

/// What resolving a distribution takes: its flavor, where it comes from and
/// the directory to put it in.
#[derive(Debug, PartialEq, Eq)]
pub struct ResolveRequest {
    pub flavor: DistributionFlavor,
    pub location: PythonDistributionLocation,
    pub dest_dir: String,
}

/// A request for resolution as contracts speak of it.
pub struct ResolveModel {
    pub flavor: DistributionFlavor,
    pub location: LocationModel,
    pub dest_dir: Seq<char>,
}

impl View for ResolveRequest {
    type V = ResolveModel;

    open spec fn view(&self) -> ResolveModel {
        ResolveModel { flavor: self.flavor, location: self.location@, dest_dir: self.dest_dir@ }
    }
}

/// What compiling bytecode on a handle needs next.
#[derive(Debug, PartialEq, Eq)]
pub enum CompileStep {
    /// The distribution has to be resolved first.
    Resolve(ResolveRequest),
    /// The distribution is there and its compiler is yet to be made.
    CreateCompiler,
    /// The compiler is there: compile with it.
    Compile,
}

impl<D, C> HandleModel<D, C> {
    /// The distribution has been resolved.
    pub open spec fn is_resolved(self) -> bool {
        self.distribution is Some
    }

    /// What resolving this handle's distribution takes.
    pub open spec fn resolve_request(self) -> ResolveModel {
        ResolveModel { flavor: self.flavor, location: self.source, dest_dir: self.dest_dir }
    }

    /// The handle after an attempt at resolving has ended in `outcome`: a
    /// resolved handle stays as it is, an unresolved one takes the
    /// snapshot, and a failure leaves no trace.
    pub open spec fn resolved_with(self, outcome: Result<D, Seq<char>>) -> Self {
        match outcome {
            Ok(snapshot) if self.distribution is None => HandleModel {
                distribution: Some(snapshot),
                ..self
            },
            _ => self,
        }
    }

    /// The handle after a compiler was made for it, or could not be made:
    /// a compiler that is there stays, a new one is kept only by a resolved
    /// handle that has none.
    pub open spec fn with_compiler(self, made: Result<C, Seq<char>>) -> Self {
        match made {
            Ok(compiler) if self.distribution is Some && self.compiler is None => HandleModel {
                compiler: Some(compiler),
                ..self
            },
            _ => self,
        }
    }

    /// A compiler is held only once the distribution is resolved.
    pub open spec fn wf(self) -> bool {
        self.compiler is Some ==> self.distribution is Some
    }
}

impl<D, C> View for PythonDistribution<D, C> {
    type V = HandleModel<D, C>;

    closed spec fn view(&self) -> HandleModel<D, C> {
        HandleModel {
            flavor: self.flavor,
            source: self.source@,
            dest_dir: self.dest_dir@,
            distribution: self.distribution,
            compiler: self.compiler,
        }
    }
}

impl<D, C> PythonDistribution<D, C> {
    /// An unresolved handle for a distribution of the given flavor, to be
    /// had from `location` and put under `dest_dir`.
    pub fn from_location(
        flavor: DistributionFlavor,
        location: PythonDistributionLocation,
        dest_dir: &str,
    ) -> (r: Self)
        ensures
            r@ == (HandleModel::<D, C> {
                flavor,
                source: location@,
                dest_dir: dest_dir@,
                distribution: None,
                compiler: None,
            }),
            r@.wf(),
    {
        PythonDistribution {
            flavor,
            source: location,
            dest_dir: String::from_str(dest_dir),
            distribution: None,
            compiler: None,
        }
    }

    /// The flavor of the distribution.
    pub fn flavor(&self) -> (r: DistributionFlavor)
        ensures
            r == self@.flavor,
    {
        self.flavor
    }

    /// The directory under which the distribution is put.
    pub fn dest_dir(&self) -> (r: &str)
        ensures
            r@ == self@.dest_dir,
    {
        self.dest_dir.as_str()
    }

    /// Where the distribution comes from.
    pub fn source(&self) -> (r: &PythonDistributionLocation)
        ensures
            r@ == self@.source,
    {
        &self.source
    }

    /// The snapshot of the distribution, once it is resolved.
    pub fn distribution(&self) -> (r: Option<&D>)
        ensures
            r is Some <==> self@.distribution is Some,
            r is Some ==> *r->Some_0 == self@.distribution->Some_0,
    {
        self.distribution.as_ref()
    }

    /// Whether the distribution has been resolved.
    pub fn is_resolved(&self) -> (r: bool)
        ensures
            r == self@.is_resolved(),
    {
        self.distribution.is_some()
    }

    /// What is needed to resolve the distribution, as long as it is not
    /// resolved: a resolved handle asks for nothing.
    pub fn resolution_request(&self) -> (r: Option<ResolveRequest>)
        ensures
            self@.is_resolved() ==> r is None,
            !self@.is_resolved() ==> r is Some && r->Some_0@ == self@.resolve_request(),
    {
        if self.distribution.is_some() {
            None
        } else {
            Some(
                ResolveRequest {
                    flavor: self.flavor,
                    location: self.source.duplicate(),
                    dest_dir: self.dest_dir.clone(),
                },
            )
        }
    }

    /// Records how an attempt at resolving the distribution ended. On a
    /// resolved handle this changes nothing and succeeds, whatever the
    /// outcome says: the snapshot is never replaced. An unresolved handle
    /// keeps the snapshot of a success; a failure is handed back with its
    /// message and leaves the handle unresolved, so that the next call asks
    /// again.
    pub fn ensure_distribution_resolved(&mut self, outcome: Result<D, String>) -> (r: Result<
        (),
        String,
    >)
        ensures
            final(self)@ == old(self)@.resolved_with(
                match outcome {
                    Ok(d) => Ok(d),
                    Err(e) => Err(e@),
                },
            ),
            old(self)@.is_resolved() || outcome is Ok ==> r is Ok && final(self)@.is_resolved(),
            !old(self)@.is_resolved() && outcome is Err ==> r is Err && r->Err_0 == outcome->Err_0
                && !final(self)@.is_resolved(),
            old(self)@.wf() ==> final(self)@.wf(),
    {
        if self.distribution.is_some() {
            return Ok(());
        }
        match outcome {
            Ok(snapshot) => {
                self.distribution = Some(snapshot);
                Ok(())
            },
            Err(e) => Err(e),
        }
    }

    /// What compiling bytecode needs next: the distribution resolved, then
    /// its compiler made, then the compiler itself.
    pub fn compile_bytecode(&self) -> (r: CompileStep)
        ensures
            !self@.is_resolved() ==> r is Resolve && r->Resolve_0@ == self@.resolve_request(),
            self@.is_resolved() && self@.compiler is None ==> r is CreateCompiler,
            self@.is_resolved() && self@.compiler is Some ==> r is Compile,
    {
        match self.resolution_request() {
            Some(request) => CompileStep::Resolve(request),
            None => if self.compiler.is_none() {
                CompileStep::CreateCompiler
            } else {
                CompileStep::Compile
            },
        }
    }

    /// Records how making the compiler ended. A compiler that the handle
    /// already has stays, and the new one is dropped. A handle that is not
    /// resolved keeps none. A failure is handed back with its message.
    pub fn install_compiler(&mut self, made: Result<C, String>) -> (r: Result<(), String>)
        ensures
            final(self)@ == old(self)@.with_compiler(
                match made {
                    Ok(c) => Ok(c),
                    Err(e) => Err(e@),
                },
            ),
            made is Err ==> r is Err && r->Err_0 == made->Err_0,
            made is Ok ==> r is Ok,
            old(self)@.wf() ==> final(self)@.wf(),
    {
        match made {
            Ok(compiler) => {
                if self.distribution.is_some() && self.compiler.is_none() {
                    self.compiler = Some(compiler);
                }
                Ok(())
            },
            Err(e) => Err(e),
        }
    }

    /// Whether the handle has its compiler.
    pub fn has_compiler(&self) -> (r: bool)
        ensures
            r == (self@.compiler is Some),
    {
        self.compiler.is_some()
    }
}

impl<D, C> PythonDistribution<D, C> {
    /// The compiler, to compile with. What is done to the compiler through
    /// the reference changes nothing else of the handle.
    pub fn compiler_mut(&mut self) -> (r: Option<&mut C>)
        ensures
            r is Some <==> old(self)@.compiler is Some,
            r is Some ==> *r->Some_0 == old(self)@.compiler->Some_0,
            r is Some ==> final(self)@ == (HandleModel {
                compiler: Some(*final(r->Some_0)),
                ..old(self)@
            }),
            r is None ==> final(self)@ == old(self)@,
            old(self)@.wf() ==> final(self)@.wf(),
    {
        self.compiler.as_mut()
    }
}

/// A distribution is resolved at most once. After a first success the
/// handle is resolved, so it asks for no resolution again, and whatever is
/// recorded later changes nothing: the first snapshot stays.
pub proof fn lemma_resolved_once<D, C>(
    handle: HandleModel<D, C>,
    first: D,
    later: Result<D, Seq<char>>,
)
    ensures
        handle.resolved_with(Ok(first)).is_resolved(),
        !handle.is_resolved() ==> handle.resolved_with(Ok(first)).distribution == Some(first),
        handle.resolved_with(Ok(first)).resolved_with(later) == handle.resolved_with(Ok(first)),
{
}

/// A failed resolution is not remembered: the handle is as before, and
/// the next attempt is taken as if it were the first.
pub proof fn lemma_failure_not_cached<D, C>(
    handle: HandleModel<D, C>,
    message: Seq<char>,
    next: Result<D, Seq<char>>,
)
    ensures
        handle.resolved_with(Err(message)) == handle,
        handle.resolved_with(Err(message)).resolved_with(next) == handle.resolved_with(next),
{
}

/// The snapshot of a resolved handle is never replaced, and a compiler
/// that the handle holds is never replaced either: neither recording a
/// resolution nor recording a compiler touches what is there. Both keep
/// the rule that a compiler is held only by a resolved handle.
pub proof fn lemma_kept_for_life<D, C>(
    handle: HandleModel<D, C>,
    outcome: Result<D, Seq<char>>,
    made: Result<C, Seq<char>>,
)
    ensures
        handle.is_resolved() ==> handle.resolved_with(outcome) == handle,
        handle.with_compiler(made).distribution == handle.distribution,
        handle.compiler is Some ==> handle.with_compiler(made) == handle,
        handle.resolved_with(outcome).compiler == handle.compiler,
        handle.wf() ==> handle.resolved_with(outcome).wf() && handle.with_compiler(made).wf(),
{
}

} // verus!
