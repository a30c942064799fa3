//! Driving a session over a stack of sources until the input is exhausted.
use crate::directive::Directive;
use crate::scene::{LoadError, Scene};
use crate::session::{Session, Step};
use crate::sources::IncludeStack;
use vstd::prelude::*;

verus! {

/// `trace` lists the sessions that handling `ds` in order goes through,
/// each directive handled with success.
pub open spec fn is_trace(trace: Seq<Session>, ds: Seq<Directive>) -> bool {
    &&& trace.len() == ds.len() + 1
    &&& forall|i: int|
        0 <= i < ds.len() ==> #[trigger] Session::step_post(
            trace[i],
            trace[i + 1],
            ds[i],
            Ok(Step::Continue),
        )
}

/// `post` is what handling `ds` in order, each with success, makes of `pre`.
pub open spec fn runs(pre: Session, ds: Seq<Directive>, post: Session) -> bool {
    exists|trace: Seq<Session>|
        #[trigger] is_trace(trace, ds) && trace[0] == pre && trace.last() == post
}

/// How a load ends when a directive's handling gave `q` instead of going on.
pub open spec fn stops_with(q: Result<Step, LoadError>, r: Result<Scene, LoadError>) -> bool {
    match q {
        Err(e) => r == Err::<Scene, LoadError>(e),
        Ok(Step::Include(_)) => r == Err::<Scene, LoadError>(LoadError::UnresolvedInclude),
        Ok(Step::Continue) => false,
    }
}

/// What ending a load makes of the final session.
pub open spec fn finish_outcome(s: Session) -> Result<Scene, LoadError> {
    if s.stack@.len() > 0 {
        Err(LoadError::UnterminatedScope)
    } else if !s.world_started {
        Err(LoadError::WorldNotStarted)
    } else {
        Ok(s.scene)
    }
}

/// Where a load stands after [`Loader::advance`].
#[derive(Debug)]
pub enum Progress {
    /// The directives of the file at this path are needed next; hand them to
    /// [`Loader::push_source`] and advance again.
    NeedsFile(String),
    /// Every source is exhausted.
    Finished,
}

/// A load in progress: the interpreter session and its active sources.
#[derive(Debug)]
pub struct Loader {
    pub session: Session,
    pub sources: IncludeStack,
}

impl Loader {
    pub open spec fn wf(&self) -> bool {
        self.session.wf() && self.sources.wf()
    }

    /// A load of the given root directives, with a fresh session.
    pub fn new(directives: Vec<Directive>) -> (r: Loader)
        ensures
            r.wf(),
            r.sources.pending() == directives@,
            r.session.is_initial(),
    {
        Loader { session: Session::new(), sources: IncludeStack::new(directives) }
    }

    /// Supplies the directives of a file that [`Loader::advance`] asked for:
    /// they are handled before whatever was pending.
    pub fn push_source(&mut self, directives: Vec<Directive>)
        requires
            old(self).wf(),
        ensures
            final(self).wf(),
            final(self).session == old(self).session,
            final(self).sources.pending() == directives@ + old(self).sources.pending(),
    {
        self.sources.push(directives);
    }

    /// Handles pending directives in order until one asks for another file,
    /// one fails, or nothing is pending.
    pub fn advance(&mut self) -> (r: Result<Progress, LoadError>)
        requires
            old(self).wf(),
        ensures
            final(self).wf(),
            r != Err::<Progress, LoadError>(LoadError::UnresolvedInclude),
            ({
                let pending = old(self).sources.pending();
                exists|k: int, mid: Session|
                    0 <= k <= pending.len() && #[trigger] runs(
                        old(self).session,
                        pending.subrange(0, k),
                        mid,
                    ) && match r {
                        Ok(Progress::Finished) => k == pending.len() && final(self).session == mid
                            && final(self).sources.cursors@.len() == 0,
                        Ok(Progress::NeedsFile(p)) => k < pending.len()
                            && pending[k] == Directive::Include { path: p }
                            && final(self).sources.pending() == pending.subrange(k + 1, pending.len() as int)
                            && Session::step_post(mid, final(self).session, pending[k], Ok(Step::Include(p))),
                        Err(e) => k < pending.len() && Session::step_post(
                            mid,
                            final(self).session,
                            pending[k],
                            Err(e),
                        ),
                    }
            }),
    {
        let ghost all = self.sources.pending();
        let ghost start = self.session;
        let ghost mut k: int = 0;
        let ghost mut trace: Seq<Session> = seq![self.session];
        assert(all.subrange(0, all.len() as int) =~= all);
        loop
            invariant
                self.wf(),
                0 <= k <= all.len(),
                all == old(self).sources.pending(),
                start == old(self).session,
                self.sources.pending() == all.subrange(k, all.len() as int),
                trace.len() == k + 1,
                trace[0] == start,
                trace.last() == self.session,
                forall|i: int|
                    0 <= i < k ==> #[trigger] Session::step_post(
                        trace[i],
                        trace[i + 1],
                        all[i],
                        Ok(Step::Continue),
                    ),
            decreases self.sources.pending().len(),
        {
            proof {
                let ds = all.subrange(0, k);
                assert forall|i: int| 0 <= i < ds.len() implies #[trigger] Session::step_post(
                    trace[i],
                    trace[i + 1],
                    ds[i],
                    Ok(Step::Continue),
                ) by {
                    assert(ds[i] == all[i]);
                }
                assert(is_trace(trace, ds));
                assert(runs(start, ds, self.session));
            }
            let ghost before = self.session;
            let next = self.sources.next();
            match next {
                None => {
                    return Ok(Progress::Finished);
                },
                Some(d) => {
                    proof {
                        assert(d == all[k]);
                        assert(all.subrange(k, all.len() as int).drop_first() =~= all.subrange(
                            k + 1,
                            all.len() as int,
                        ));
                    }
                    let r = self.session.step(d);
                    match r {
                        Err(e) => {
                            return Err(e);
                        },
                        Ok(Step::Continue) => {
                            proof {
                                let t2 = trace.push(self.session);
                                assert forall|i: int| 0 <= i < k + 1 implies #[trigger] Session::step_post(
                                    t2[i],
                                    t2[i + 1],
                                    all[i],
                                    Ok(Step::Continue),
                                ) by {
                                    if i < k {
                                        assert(t2[i] == trace[i] && t2[i + 1] == trace[i + 1]);
                                    }
                                }
                                trace = t2;
                                k = k + 1;
                            }
                        },
                        Ok(Step::Include(path)) => {
                            return Ok(Progress::NeedsFile(path));
                        },
                    }
                },
            }
        }
    }

    /// Ends the load: the scene, provided every scope was closed and the
    /// world block was started.
    pub fn finish(self) -> (r: Result<Scene, LoadError>)
        ensures
            r == finish_outcome(self.session),
    {
        if self.session.stack.len() > 0 {
            return Err(LoadError::UnterminatedScope);
        }
        if !self.session.world_started {
            return Err(LoadError::WorldNotStarted);
        }
        Ok(self.session.scene)
    }
}

impl Scene {
    /// Loads a scene from directives that ask for no other file: they are
    /// handled in order from a fresh session until one fails, and the load
    /// then ends as [`Loader::finish`] does. An `Include` among them ends the
    /// load with `UnresolvedInclude`; to follow it, drive a [`Loader`] and
    /// supply each file it asks for.
    pub fn load(directives: Vec<Directive>) -> (r: Result<Scene, LoadError>)
        ensures
            exists|s0: Session, k: int, mid: Session|
                s0.is_initial() && 0 <= k <= directives@.len() && #[trigger] runs(
                    s0,
                    directives@.subrange(0, k),
                    mid,
                ) && if k == directives@.len() {
                    r == finish_outcome(mid)
                } else {
                    exists|post: Session, q: Result<Step, LoadError>|
                        #[trigger] Session::step_post(mid, post, directives@[k], q) && stops_with(q, r)
                },
    {
        let ghost ds = directives@;
        let mut loader = Loader::new(directives);
        match loader.advance() {
            Err(e) => {
                assert(stops_with(Err(e), Err::<Scene, LoadError>(e)));
                Err(e)
            },
            Ok(Progress::NeedsFile(p)) => {
                assert(stops_with(Ok(Step::Include(p)), Err::<Scene, LoadError>(LoadError::UnresolvedInclude)));
                Err(LoadError::UnresolvedInclude)
            },
            Ok(Progress::Finished) => loader.finish(),
        }
    }
}

} // verus!
