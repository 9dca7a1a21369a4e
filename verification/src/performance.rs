//! Frame budgets and the performance telemetry plan of a render plan.

use vstd::prelude::*;
use crate::compositor::{CompositorRenderPlan, CompositorRenderTarget, CompositorRenderTargetKind};
use crate::text::{blank, cat2, decimal, if_msg, is_blank, push_if, quoted, u64_to_decimal, views};

verus! {

#[derive(Clone, Debug)]
pub struct PerformanceTargetBudget {
    pub target_id: String,
    pub target_name: String,
    pub target_kind: CompositorRenderTargetKind,
    pub width: u32,
    pub height: u32,
    pub framerate: u32,
    pub frame_budget_nanos: u64,
    pub render_budget_nanos: u64,
    pub encode_budget_nanos: u64,
    pub max_latency_ms: u32,
    pub max_dropped_frames_per_minute: u32,
    pub pixel_count: u64,
    pub estimated_rgba_bytes_per_frame: u64,
    pub estimated_rgba_bytes_per_second: u64,
}

#[derive(Clone, Debug)]
pub struct PerformanceTelemetryValidation {
    pub ready: bool,
    pub warnings: Vec<String>,
    pub errors: Vec<String>,
}

/// A performance telemetry plan. The CPU and GPU warning thresholds are in hundredths
/// of a percent: 8550 stands for 85.5%.
#[derive(Clone, Debug)]
pub struct PerformanceTelemetryPlan {
    pub version: u32,
    pub scene_id: String,
    pub scene_name: String,
    pub sample_window_seconds: u32,
    pub cpu_warning_hundredths: u32,
    pub gpu_warning_hundredths: u32,
    pub targets: Vec<PerformanceTargetBudget>,
    pub validation: PerformanceTelemetryValidation,
}

/// Nanoseconds per frame at the frame rate (a zero frame rate counts as one).
pub open spec fn frame_budget(framerate: u32) -> u64 {
    (1_000_000_000int / (if framerate == 0 { 1int } else { framerate as int })) as u64
}

pub fn frame_budget_nanos(framerate: u32) -> (r: u64)
    ensures
        r == frame_budget(framerate),
{
    let f: u64 = if framerate == 0 { 1 } else { framerate as u64 };
    1_000_000_000u64 / f
}

/// `value.div_ceil(divisor)`.
pub fn ceil_div_u64(value: u64, divisor: u64) -> (r: u64)
    requires
        divisor > 0,
    ensures
        r as int == (value as int + divisor as int - 1) / (divisor as int),
{
    let q = value / divisor;
    let rem = value % divisor;
    proof {
        assert(value as int == q as int * divisor as int + rem as int) by (nonlinear_arith)
            requires q == value / divisor, rem == value % divisor, divisor > 0;
        if rem == 0 {
            assert((value as int + divisor as int - 1) / (divisor as int) == q as int) by (nonlinear_arith)
                requires value as int == q as int * divisor as int, divisor > 0;
        } else {
            assert((value as int + divisor as int - 1) / (divisor as int) == q as int + 1) by (nonlinear_arith)
                requires value as int == q as int * divisor as int + rem as int, 0 < rem < divisor;
            assert(q < u64::MAX) by (nonlinear_arith)
                requires value as int == q as int * divisor as int + rem as int, 0 < rem < divisor, value <= u64::MAX;
        }
    }
    if rem == 0 {
        q
    } else {
        q + 1
    }
}

/// The budget's arithmetic fits in 64 bits.
pub open spec fn budget_fits(t: CompositorRenderTarget) -> bool {
    &&& t.width as int * t.height as int * 4 <= u64::MAX
    &&& t.width as int * t.height as int * 4 * t.framerate as int <= u64::MAX
}

/// The budget is the target's: its frame budget, 70% of it for rendering and 20% for
/// encoding, twice the frame time as the latency ceiling, 0.5% of a minute's frames (at
/// least one) as the drop allowance, and the RGBA sizes of its frames.
pub open spec fn budget_of(b: PerformanceTargetBudget, t: CompositorRenderTarget) -> bool {
    let fb = frame_budget(t.framerate);
    let pixels = t.width as int * t.height as int;
    let dropped = (t.framerate as int * 60) / 200;
    &&& b.target_id@ == t.id@
    &&& b.target_name@ == t.name@
    &&& b.target_kind == t.kind
    &&& b.width == t.width
    &&& b.height == t.height
    &&& b.framerate == t.framerate
    &&& b.frame_budget_nanos == fb
    &&& b.render_budget_nanos as int == fb as int * 70 / 100
    &&& b.encode_budget_nanos as int == fb as int * 20 / 100
    &&& b.max_latency_ms as int == (fb as int * 2 + 1_000_000 - 1) / 1_000_000
    &&& b.max_dropped_frames_per_minute as int == (if dropped < 1 { 1 } else { dropped })
    &&& b.pixel_count as int == pixels
    &&& b.estimated_rgba_bytes_per_frame as int == pixels * 4
    &&& b.estimated_rgba_bytes_per_second as int == pixels * 4 * t.framerate as int
}

pub fn performance_target_budget(target: &CompositorRenderTarget) -> (r: PerformanceTargetBudget)
    requires
        budget_fits(*target),
    ensures
        budget_of(r, *target),
{
    let fb = frame_budget_nanos(target.framerate);
    assert(fb <= 1_000_000_000);
    let w = target.width as u64;
    let h = target.height as u64;
    let f = target.framerate as u64;
    assert(w * h * 4 * f <= u64::MAX);
    assert(w * h * 4 <= u64::MAX);
    assert(w * h <= u64::MAX) by (nonlinear_arith)
        requires w * h * 4 <= u64::MAX, w >= 0, h >= 0;
    let pixel_count = w * h;
    let bytes_per_frame = pixel_count * 4;
    let bytes_per_second = bytes_per_frame * f;
    let latency = ceil_div_u64(fb * 2, 1_000_000);
    assert(latency <= 2000);
    let dropped = (f * 60) / 200;
    let dropped = if dropped < 1 { 1 } else { dropped };
    assert(dropped <= u32::MAX);
    PerformanceTargetBudget {
        target_id: target.id.clone(),
        target_name: target.name.clone(),
        target_kind: target.kind,
        width: target.width,
        height: target.height,
        framerate: target.framerate,
        frame_budget_nanos: fb,
        render_budget_nanos: fb * 70 / 100,
        encode_budget_nanos: fb * 20 / 100,
        max_latency_ms: latency as u32,
        max_dropped_frames_per_minute: dropped as u32,
        pixel_count,
        estimated_rgba_bytes_per_frame: bytes_per_frame,
        estimated_rgba_bytes_per_second: bytes_per_second,
    }
}

// ---------------------------------------------------------------------------------
// Validation

pub open spec fn budget_id_seen(ts: Seq<PerformanceTargetBudget>, i: int) -> bool {
    exists|j: int| 0 <= j < i && (#[trigger] ts[j]).target_id@ == ts[i].target_id@
}

pub open spec fn budget_errors(ts: Seq<PerformanceTargetBudget>, i: int) -> Seq<Seq<char>> {
    let t = ts[i];
    let id = t.target_id@;
    if_msg(budget_id_seen(ts, i), "duplicate performance target id \""@ + id + "\""@)
        + if_msg(blank(id), "performance target id is required"@)
        + if_msg(blank(t.target_name@), "performance target \""@ + id + "\" name is required"@)
        + if_msg(t.width == 0 || t.height == 0, "performance target \""@ + id + "\" dimensions must be greater than zero"@)
        + if_msg(t.framerate == 0, "performance target \""@ + id + "\" framerate must be greater than zero"@)
        + if_msg(t.frame_budget_nanos == 0 || t.render_budget_nanos == 0,
            "performance target \""@ + id + "\" frame budget must be greater than zero"@)
}

pub open spec fn budget_warnings(t: PerformanceTargetBudget) -> Seq<Seq<char>> {
    if_msg(t.framerate > 120, t.target_name@ + " targets "@ + decimal(t.framerate as nat)
        + " fps; validate frame pacing on target hardware"@)
        + if_msg(t.estimated_rgba_bytes_per_frame > 33_177_600,
            t.target_name@ + " exceeds a 4K RGBA frame budget; validate GPU and encoder load"@)
}

pub open spec fn all_budget_errors(ts: Seq<PerformanceTargetBudget>, k: int) -> Seq<Seq<char>>
    decreases k,
{
    if k <= 0 {
        seq![]
    } else {
        all_budget_errors(ts, k - 1) + budget_errors(ts, k - 1)
    }
}

pub open spec fn all_budget_warnings(ts: Seq<PerformanceTargetBudget>, k: int) -> Seq<Seq<char>>
    decreases k,
{
    if k <= 0 {
        seq![]
    } else {
        all_budget_warnings(ts, k - 1) + budget_warnings(ts[k - 1])
    }
}

/// The RGBA bytes per second of all the targets together.
pub open spec fn total_throughput(ts: Seq<PerformanceTargetBudget>) -> int
    decreases ts.len(),
{
    if ts.len() == 0 {
        0
    } else {
        total_throughput(ts.drop_last()) + ts.last().estimated_rgba_bytes_per_second
    }
}

/// A warning threshold, in hundredths of a percent, that is not above zero or is above
/// 100%.
pub open spec fn percent_invalid(p: u32) -> bool {
    p == 0 || p > 10000
}

/// The errors that `validate_performance_telemetry_plan` reports, in order.
pub open spec fn telemetry_errors(p: PerformanceTelemetryPlan) -> Seq<Seq<char>> {
    if_msg(p.version == 0, "performance telemetry plan version must be greater than zero"@)
        + if_msg(blank(p.scene_id@), "performance telemetry scene id is required"@)
        + if_msg(blank(p.scene_name@), "performance telemetry scene name is required"@)
        + if_msg(p.sample_window_seconds == 0, "performance telemetry sample window must be greater than zero"@)
        + if_msg(percent_invalid(p.cpu_warning_hundredths), "performance telemetry CPU warning percent must be 1-100"@)
        + if_msg(percent_invalid(p.gpu_warning_hundredths), "performance telemetry GPU warning percent must be 1-100"@)
        + all_budget_errors(p.targets@, p.targets@.len() as int)
}

/// The warnings that `validate_performance_telemetry_plan` reports, in order.
pub open spec fn telemetry_warnings(p: PerformanceTelemetryPlan) -> Seq<Seq<char>> {
    let total = total_throughput(p.targets@);
    if_msg(p.targets@.len() == 0, "performance telemetry has no enabled render targets"@)
        + all_budget_warnings(p.targets@, p.targets@.len() as int)
        + if_msg(total > 2_000_000_000, "estimated RGBA throughput is "@ + decimal((total / 1_000_000) as nat)
            + " MB/s across enabled targets"@)
}

fn budget_id_seen_exec(ts: &Vec<PerformanceTargetBudget>, i: usize) -> (r: bool)
    requires
        i < ts@.len(),
    ensures
        r == budget_id_seen(ts@, i as int),
{
    let mut j: usize = 0;
    while j < i
        invariant
            i < ts@.len(),
            j <= i,
            forall|k: int| 0 <= k < j ==> (#[trigger] ts@[k]).target_id@ != ts@[i as int].target_id@,
        decreases i - j,
    {
        if ts[j].target_id == ts[i].target_id {
            return true;
        }
        j = j + 1;
    }
    false
}

#[verifier::rlimit(60)]
fn budget_checks(ts: &Vec<PerformanceTargetBudget>, i: usize, warnings: &mut Vec<String>, errors: &mut Vec<String>)
    requires
        i < ts@.len(),
    ensures
        views(final(errors)@) == views(old(errors)@) + budget_errors(ts@, i as int),
        views(final(warnings)@) == views(old(warnings)@) + budget_warnings(ts@[i as int]),
{
    let t = &ts[i];
    let id = t.target_id.as_str();
    push_if(errors, budget_id_seen_exec(ts, i), quoted("duplicate performance target id \"", id, "\""));
    push_if(errors, is_blank(id), String::from_str("performance target id is required"));
    push_if(errors, is_blank(t.target_name.as_str()), quoted("performance target \"", id, "\" name is required"));
    push_if(errors, t.width == 0 || t.height == 0,
        quoted("performance target \"", id, "\" dimensions must be greater than zero"));
    push_if(errors, t.framerate == 0, quoted("performance target \"", id, "\" framerate must be greater than zero"));
    push_if(errors, t.frame_budget_nanos == 0 || t.render_budget_nanos == 0,
        quoted("performance target \"", id, "\" frame budget must be greater than zero"));
    let fps = u64_to_decimal(t.framerate as u64);
    let mut m = quoted(t.target_name.as_str(), " targets ", fps.as_str());
    m.append(" fps; validate frame pacing on target hardware");
    push_if(warnings, t.framerate > 120, m);
    push_if(warnings, t.estimated_rgba_bytes_per_frame > 33_177_600,
        cat2(t.target_name.as_str(), " exceeds a 4K RGBA frame budget; validate GPU and encoder load"));
    assert(views(errors@) =~= views(old(errors)@) + budget_errors(ts@, i as int));
    assert(views(warnings@) =~= views(old(warnings)@) + budget_warnings(ts@[i as int]));
}

/// Checks a telemetry plan: its header and thresholds, each target budget, and the
/// total RGBA throughput of the targets.
pub fn validate_performance_telemetry_plan(plan: &PerformanceTelemetryPlan) -> (r: PerformanceTelemetryValidation)
    requires
        total_throughput(plan.targets@) <= u64::MAX,
    ensures
        views(r.errors@) == telemetry_errors(*plan),
        views(r.warnings@) == telemetry_warnings(*plan),
        r.ready == (r.errors@.len() == 0),
{
    let mut warnings: Vec<String> = Vec::new();
    let mut errors: Vec<String> = Vec::new();
    assert(views(errors@) =~= Seq::<Seq<char>>::empty());
    assert(views(warnings@) =~= Seq::<Seq<char>>::empty());
    push_if(&mut errors, plan.version == 0, String::from_str("performance telemetry plan version must be greater than zero"));
    push_if(&mut errors, is_blank(plan.scene_id.as_str()), String::from_str("performance telemetry scene id is required"));
    push_if(&mut errors, is_blank(plan.scene_name.as_str()), String::from_str("performance telemetry scene name is required"));
    push_if(&mut errors, plan.sample_window_seconds == 0,
        String::from_str("performance telemetry sample window must be greater than zero"));
    push_if(&mut errors, plan.cpu_warning_hundredths == 0 || plan.cpu_warning_hundredths > 10000,
        String::from_str("performance telemetry CPU warning percent must be 1-100"));
    push_if(&mut errors, plan.gpu_warning_hundredths == 0 || plan.gpu_warning_hundredths > 10000,
        String::from_str("performance telemetry GPU warning percent must be 1-100"));
    push_if(&mut warnings, plan.targets.len() == 0, String::from_str("performance telemetry has no enabled render targets"));
    let ghost e0 = views(errors@);
    let ghost w0 = views(warnings@);
    let ts = &plan.targets;
    let mut total: u64 = 0;
    let mut i: usize = 0;
    while i < ts.len()
        invariant
            ts == &plan.targets,
            i <= ts@.len(),
            total_throughput(ts@) <= u64::MAX,
            total == total_throughput(ts@.subrange(0, i as int)),
            views(errors@) == e0 + all_budget_errors(ts@, i as int),
            views(warnings@) == w0 + all_budget_warnings(ts@, i as int),
        decreases ts@.len() - i,
    {
        budget_checks(ts, i, &mut warnings, &mut errors);
        proof {
            assert(ts@.subrange(0, i + 1 as int).drop_last() =~= ts@.subrange(0, i as int));
            lemma_throughput_prefix_le(ts@, i + 1);
        }
        total = total + ts[i].estimated_rgba_bytes_per_second;
        i = i + 1;
        assert(views(errors@) =~= e0 + all_budget_errors(ts@, i as int));
        assert(views(warnings@) =~= w0 + all_budget_warnings(ts@, i as int));
    }
    assert(ts@.subrange(0, ts@.len() as int) =~= ts@);
    let mb = u64_to_decimal(total / 1_000_000);
    let mut m = cat2("estimated RGBA throughput is ", mb.as_str());
    m.append(" MB/s across enabled targets");
    push_if(&mut warnings, total > 2_000_000_000, m);
    assert(views(errors@) =~= telemetry_errors(*plan));
    assert(views(warnings@) =~= telemetry_warnings(*plan));
    let ready = errors.len() == 0;
    PerformanceTelemetryValidation { ready, warnings, errors }
}

/// A prefix's throughput is at most the whole list's.
pub proof fn lemma_throughput_prefix_le(ts: Seq<PerformanceTargetBudget>, k: int)
    requires
        0 <= k <= ts.len(),
    ensures
        total_throughput(ts.subrange(0, k)) <= total_throughput(ts),
    decreases ts.len() - k,
{
    if k < ts.len() {
        lemma_throughput_prefix_le(ts, k + 1);
        assert(ts.subrange(0, k + 1).drop_last() =~= ts.subrange(0, k));
    } else {
        assert(ts.subrange(0, k) =~= ts);
    }
}

} // verus!

verus! {

/// The enabled targets of a plan, in order.
pub open spec fn enabled_targets(ts: Seq<CompositorRenderTarget>) -> Seq<CompositorRenderTarget>
    decreases ts.len(),
{
    if ts.len() == 0 {
        seq![]
    } else {
        let rest = enabled_targets(ts.drop_last());
        if ts.last().enabled {
            rest.push(ts.last())
        } else {
            rest
        }
    }
}

/// The RGBA bytes per second of the enabled targets together.
pub open spec fn enabled_throughput(ts: Seq<CompositorRenderTarget>) -> int
    decreases ts.len(),
{
    if ts.len() == 0 {
        0
    } else {
        enabled_throughput(ts.drop_last()) + if ts.last().enabled {
            ts.last().width as int * ts.last().height as int * 4 * ts.last().framerate as int
        } else {
            0
        }
    }
}

/// The telemetry plan of a render plan: a budget per enabled target, checked.
pub open spec fn telemetry_plan_built(r: PerformanceTelemetryPlan, render_plan: CompositorRenderPlan) -> bool {
    &&& r.version == 1
    &&& r.scene_id@ == render_plan.graph.scene_id@
    &&& r.scene_name@ == render_plan.graph.scene_name@
    &&& r.sample_window_seconds == 10
    &&& r.cpu_warning_hundredths == 8500
    &&& r.gpu_warning_hundredths == 8500
    &&& r.targets@.len() == enabled_targets(render_plan.targets@).len()
    &&& forall|i: int| 0 <= i < r.targets@.len() ==> budget_of(#[trigger] r.targets@[i],
        enabled_targets(render_plan.targets@)[i])
    &&& views(r.validation.errors@) == telemetry_errors(r)
    &&& views(r.validation.warnings@) == telemetry_warnings(r)
    &&& r.validation.ready == (r.validation.errors@.len() == 0)
}

/// The budgets of the targets can be computed in 64 bits.
pub open spec fn budgets_fit(ts: Seq<CompositorRenderTarget>) -> bool {
    &&& forall|i: int| 0 <= i < ts.len() ==> budget_fits(#[trigger] ts[i])
    &&& enabled_throughput(ts) <= u64::MAX
}

/// The telemetry plan of a render plan: one budget per enabled target, a ten-second
/// sample window and 85% CPU and GPU thresholds; validated.
pub fn build_performance_telemetry_plan(render_plan: &CompositorRenderPlan) -> (r: PerformanceTelemetryPlan)
    requires
        budgets_fit(render_plan.targets@),
    ensures
        telemetry_plan_built(r, *render_plan),
{
    let ts = &render_plan.targets;
    let mut budgets: Vec<PerformanceTargetBudget> = Vec::new();
    let mut i: usize = 0;
    while i < ts.len()
        invariant
            ts == &render_plan.targets,
            i <= ts@.len(),
            forall|j: int| 0 <= j < ts@.len() ==> budget_fits(#[trigger] ts@[j]),
            budgets@.len() == enabled_targets(ts@.subrange(0, i as int)).len(),
            forall|j: int| 0 <= j < budgets@.len() ==> budget_of(#[trigger] budgets@[j],
                enabled_targets(ts@.subrange(0, i as int))[j]),
            total_throughput(budgets@) == enabled_throughput(ts@.subrange(0, i as int)),
        decreases ts@.len() - i,
    {
        assert(ts@.subrange(0, i + 1 as int).drop_last() =~= ts@.subrange(0, i as int));
        if ts[i].enabled {
            let b = performance_target_budget(&ts[i]);
            let ghost prev = budgets@;
            budgets.push(b);
            assert(budgets@.drop_last() =~= prev);
        }
        i = i + 1;
    }
    assert(ts@.subrange(0, ts@.len() as int) =~= ts@);
    let mut plan = PerformanceTelemetryPlan {
        version: 1,
        scene_id: render_plan.graph.scene_id.clone(),
        scene_name: render_plan.graph.scene_name.clone(),
        sample_window_seconds: 10,
        cpu_warning_hundredths: 8500,
        gpu_warning_hundredths: 8500,
        targets: budgets,
        validation: PerformanceTelemetryValidation { ready: true, warnings: Vec::new(), errors: Vec::new() },
    };
    plan.validation = validate_performance_telemetry_plan(&plan);
    plan
}

} // verus!
