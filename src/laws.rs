//! Properties of the interpreter that relate several directives.
use crate::directive::Directive;
use crate::params::Param;
use crate::scene::{LoadError, Scene};
use crate::loader::{finish_outcome, is_trace};
use crate::session::{unit_of, Session, Step};
use crate::transform::{product_of, scaling_of, translation_of};
use glam::{Mat4, Vec3};
use vstd::prelude::*;

verus! {

/// A matched `AttributeBegin` / `AttributeEnd` pair, with directives between
/// them that leave the scope stack alone, succeeds and restores both the
/// scope depth and every field of the graphics state.
pub proof fn attribute_scope_balances(
    s0: Session,
    s1: Session,
    s2: Session,
    s3: Session,
    r: Result<Step, LoadError>,
)
    requires
        Session::step_post(s0, s1, Directive::AttributeBegin, Ok(Step::Continue)),
        s2.stack@ == s1.stack@,
        Session::step_post(s2, s3, Directive::AttributeEnd, r),
    ensures
        r is Ok,
        s3.stack@ == s0.stack@,
        s3.state.same(&s0.state),
{
}

/// A matched `ObjectBegin` / `ObjectEnd` pair, with directives between them
/// that leave the scope stack and the recorded object alone, succeeds and
/// restores the scope depth and the graphics state.
pub proof fn object_scope_balances(
    s0: Session,
    s1: Session,
    s2: Session,
    s3: Session,
    name: String,
    r: Result<Step, LoadError>,
)
    requires
        Session::step_post(s0, s1, Directive::ObjectBegin { name }, Ok(Step::Continue)),
        s2.stack@ == s1.stack@,
        s2.state.active_object == s1.state.active_object,
        Session::step_post(s2, s3, Directive::ObjectEnd, r),
    ensures
        r is Ok,
        s3.stack@ == s0.stack@,
        s3.state.same(&s0.state),
{
}

/// An `AttributeEnd` with no open scope fails with `UnbalancedScope`, and an
/// `ObjectEnd` outside an object with `ElementNotAllowed`; neither changes
/// the session.
pub proof fn unmatched_end_fails(
    s0: Session,
    s1: Session,
    r: Result<Step, LoadError>,
    s2: Session,
    q: Result<Step, LoadError>,
)
    requires
        s0.stack@.len() == 0,
        Session::step_post(s0, s1, Directive::AttributeEnd, r),
        s0.state.active_object is None,
        Session::step_post(s0, s2, Directive::ObjectEnd, q),
    ensures
        r == Err::<Step, LoadError>(LoadError::UnbalancedScope),
        s1 == s0,
        q == Err::<Step, LoadError>(LoadError::ElementNotAllowed),
        s2 == s0,
{
    assert(unit_of(r) == Err::<(), LoadError>(LoadError::UnbalancedScope));
    assert(unit_of(q) == Err::<(), LoadError>(LoadError::ElementNotAllowed));
}

/// `Translate` then `Scale` post-multiply in that order: the transform
/// becomes `T * translation * scale`.
pub proof fn transforms_post_multiply(
    s0: Session,
    s1: Session,
    s2: Session,
    v: Vec3,
    w: Vec3,
    r1: Result<Step, LoadError>,
    r2: Result<Step, LoadError>,
)
    requires
        Session::step_post(s0, s1, Directive::Translate { v }, r1),
        Session::step_post(s1, s2, Directive::Scale { v: w }, r2),
    ensures
        s2.state.transform == product_of(
            product_of(s0.state.transform, translation_of(v)),
            scaling_of(w),
        ),
{
}

/// Two `ReverseOrientation` directives in a row give back the session they
/// started from, so the flag has the value it started with.
pub proof fn reverse_orientation_twice(
    s0: Session,
    s1: Session,
    s2: Session,
    r1: Result<Step, LoadError>,
    r2: Result<Step, LoadError>,
)
    requires
        Session::step_post(s0, s1, Directive::ReverseOrientation, r1),
        Session::step_post(s1, s2, Directive::ReverseOrientation, r2),
    ensures
        s2 == s0,
        s2.state.reverse_orientation == s0.state.reverse_orientation,
{
}

/// `AttributeBegin`, a new transform, a new material, `AttributeEnd`: the
/// transform and material index are those from before the block, and so is
/// every other field of the graphics state.
pub proof fn attribute_round_trip(
    s0: Session,
    s1: Session,
    s2: Session,
    s3: Session,
    s4: Session,
    m: Mat4,
    ty: String,
    params: Vec<Param>,
    r1: Result<Step, LoadError>,
    r2: Result<Step, LoadError>,
    r3: Result<Step, LoadError>,
    r4: Result<Step, LoadError>,
)
    requires
        Session::step_post(s0, s1, Directive::AttributeBegin, r1),
        Session::step_post(s1, s2, Directive::Transform { m }, r2),
        Session::step_post(s2, s3, Directive::Material { ty, params }, r3),
        Session::step_post(s3, s4, Directive::AttributeEnd, r4),
    ensures
        r4 is Ok,
        s4.state.transform == s0.state.transform,
        s4.state.material_index == s0.state.material_index,
        s4.state.same(&s0.state),
{
}

/// `ObjectInstance` of a name that no `ObjectBegin` declared fails with
/// `NotFound` and leaves the session as it was.
pub proof fn unknown_instance_fails(s0: Session, s1: Session, name: String, r: Result<Step, LoadError>)
    requires
        s0.named_objects.get(name@) is None,
        Session::step_post(s0, s1, Directive::ObjectInstance { name }, r),
    ensures
        r == Err::<Step, LoadError>(LoadError::NotFound),
        s1 == s0,
{
    assert(unit_of(r) == Err::<(), LoadError>(LoadError::NotFound));
}

/// Recording a coordinate system, changing the transform in between by
/// directives that do not redefine that name, then `CoordSysTransform` to
/// it, gives back exactly the transform at recording time.
pub proof fn coordinate_system_round_trip(
    s0: Session,
    s1: Session,
    s2: Session,
    s3: Session,
    name: String,
    r1: Result<Step, LoadError>,
    r3: Result<Step, LoadError>,
)
    requires
        Session::step_post(s0, s1, Directive::CoordinateSystem { name }, r1),
        s2.coord_systems.get(name@) == s1.coord_systems.get(name@),
        Session::step_post(s2, s3, Directive::CoordSysTransform { name }, r3),
    ensures
        r3 is Ok,
        s3.state.transform == s0.state.transform,
{
}


/// How a directive that succeeds changes the number of open scopes.
pub open spec fn scope_delta(d: Directive) -> int {
    match d {
        Directive::AttributeBegin | Directive::ObjectBegin { .. } => 1,
        Directive::AttributeEnd | Directive::ObjectEnd => -1,
        _ => 0,
    }
}

/// Scopes opened minus scopes closed by a list of directives.
pub open spec fn net_scopes(ds: Seq<Directive>) -> int
    decreases ds.len(),
{
    if ds.len() == 0 {
        0
    } else {
        net_scopes(ds.drop_last()) + scope_delta(ds.last())
    }
}

/// A directive handled with success opens, closes or keeps the scopes as
/// its kind says.
pub proof fn step_changes_depth(pre: Session, post: Session, d: Directive)
    requires
        Session::step_post(pre, post, d, Ok(Step::Continue)),
    ensures
        post.stack@.len() == pre.stack@.len() + scope_delta(d),
{
}

/// Along a run where every directive succeeds, the number of saved states
/// grows by the scopes opened and shrinks by the scopes closed.
pub proof fn run_tracks_scopes(trace: Seq<Session>, ds: Seq<Directive>)
    requires
        is_trace(trace, ds),
    ensures
        trace.last().stack@.len() == trace[0].stack@.len() + net_scopes(ds),
    decreases ds.len(),
{
    if ds.len() > 0 {
        let n = ds.len() - 1;
        let t = trace.drop_last();
        let e = ds.drop_last();
        assert forall|i: int| 0 <= i < e.len() implies #[trigger] Session::step_post(
            t[i],
            t[i + 1],
            e[i],
            Ok(Step::Continue),
        ) by {
            assert(Session::step_post(trace[i], trace[i + 1], ds[i], Ok(Step::Continue)));
        }
        run_tracks_scopes(t, e);
        assert(Session::step_post(trace[n], trace[n + 1], ds[n], Ok(Step::Continue)));
        step_changes_depth(trace[n], trace[n + 1], ds[n]);
    }
}

/// A run from no open scope where every directive succeeds but more scopes
/// are opened than closed ends the load with `UnterminatedScope`; one that
/// ends with `Ok` closed every scope it opened.
pub proof fn unclosed_scope_fails(trace: Seq<Session>, ds: Seq<Directive>)
    requires
        is_trace(trace, ds),
        trace[0].stack@.len() == 0,
    ensures
        net_scopes(ds) > 0 ==> finish_outcome(trace.last()) == Err::<Scene, LoadError>(
            LoadError::UnterminatedScope,
        ),
        finish_outcome(trace.last()) is Ok ==> net_scopes(ds) == 0,
{
    run_tracks_scopes(trace, ds);
}


/// Within a run where every directive succeeds, a `Translate` directly
/// followed by a `Scale` leaves `T * translation * scale` as the transform,
/// where `T` is the transform before them.
pub proof fn run_post_multiplies(trace: Seq<Session>, ds: Seq<Directive>, i: int, v: Vec3, w: Vec3)
    requires
        is_trace(trace, ds),
        0 <= i,
        i + 1 < ds.len(),
        ds[i] == (Directive::Translate { v }),
        ds[i + 1] == (Directive::Scale { v: w }),
    ensures
        trace[i + 2].state.transform == product_of(
            product_of(trace[i].state.transform, translation_of(v)),
            scaling_of(w),
        ),
{
    assert(Session::step_post(trace[i], trace[i + 1], ds[i], Ok(Step::Continue)));
    let j = i + 1;
    assert(Session::step_post(trace[j], trace[j + 1], ds[j], Ok(Step::Continue)));
    assert(j + 1 == i + 2);
    transforms_post_multiply(
        trace[i],
        trace[i + 1],
        trace[i + 2],
        v,
        w,
        Ok(Step::Continue),
        Ok(Step::Continue),
    );
}


/// The directives that change only the current transform.
pub open spec fn is_transform_change(d: Directive) -> bool {
    ||| d is Translate
    ||| d is Scale
    ||| d is Rotate
    ||| d is Transform
    ||| d is ConcatTransform
    ||| d is LookAt
    ||| d is Identity
}

/// Along a run where every directive succeeds, directives that change only
/// the current transform keep every recorded coordinate system.
pub proof fn transform_changes_keep_coordinate_systems(
    trace: Seq<Session>,
    ds: Seq<Directive>,
    i: int,
    j: int,
)
    requires
        is_trace(trace, ds),
        0 <= i <= j <= ds.len(),
        forall|n: int| i <= n < j ==> is_transform_change(#[trigger] ds[n]),
    ensures
        trace[j].coord_systems == trace[i].coord_systems,
    decreases j - i,
{
    if i < j {
        let n = j - 1;
        transform_changes_keep_coordinate_systems(trace, ds, i, n);
        assert(is_transform_change(ds[n]));
        assert(Session::step_post(trace[n], trace[n + 1], ds[n], Ok(Step::Continue)));
        assert(n + 1 == j);
    }
}

/// Within a run where every directive succeeds: `CoordinateSystem` at `i`,
/// then only directives that change the current transform, then
/// `CoordSysTransform` of the same name at `j` gives back exactly the
/// transform from before position `i`.
pub proof fn run_coordinate_system_round_trip(
    trace: Seq<Session>,
    ds: Seq<Directive>,
    i: int,
    j: int,
    name: String,
)
    requires
        is_trace(trace, ds),
        0 <= i < j < ds.len(),
        ds[i] == (Directive::CoordinateSystem { name }),
        forall|n: int| i < n < j ==> is_transform_change(#[trigger] ds[n]),
        ds[j] == (Directive::CoordSysTransform { name }),
    ensures
        trace[j + 1].state.transform == trace[i].state.transform,
{
    assert(Session::step_post(trace[i], trace[i + 1], ds[i], Ok(Step::Continue)));
    transform_changes_keep_coordinate_systems(trace, ds, i + 1, j);
    assert(Session::step_post(trace[j], trace[j + 1], ds[j], Ok(Step::Continue)));
    coordinate_system_round_trip(
        trace[i],
        trace[i + 1],
        trace[j],
        trace[j + 1],
        name,
        Ok(Step::Continue),
        Ok(Step::Continue),
    );
}

} // verus!
