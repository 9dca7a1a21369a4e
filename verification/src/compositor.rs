//! The compositor graph of a scene, its render targets and plans, and the pixel
//! arithmetic of the software renderer. Geometry is held as the outcome of its checks:
//! the floating-point transform itself stays with the renderer.

use vstd::prelude::*;
use crate::scene::{SceneSourceKind, SceneSourceBoundsMode};
use crate::text::{blank, cat2, if_msg, is_blank, push_if, push_msg, quoted, views};

verus! {

#[derive(Clone, Copy, Debug, PartialEq, Eq, Structural)]
pub enum CompositorNodeRole {
    Video,
    Audio,
    Overlay,
    Text,
    Group,
}

#[derive(Clone, Copy, Debug, PartialEq, Eq, Structural)]
pub enum CompositorNodeStatus {
    Ready,
    Placeholder,
    PermissionRequired,
    Unavailable,
    Hidden,
}

#[derive(Clone, Copy, Debug, PartialEq, Eq, Structural)]
pub enum CompositorBlendMode {
    Normal,
}

#[derive(Clone, Copy, Debug, PartialEq, Eq, Structural)]
pub enum CompositorScaleMode {
    Stretch,
    Fit,
    Fill,
    Center,
    OriginalSize,
}

#[derive(Clone, Copy, Debug, PartialEq, Eq, Structural)]
pub enum CompositorRendererKind {
    Contract,
    Software,
    Gpu,
}

#[derive(Clone, Copy, Debug, PartialEq, Eq, Structural)]
pub enum CompositorRenderTargetKind {
    Preview,
    Program,
    Recording,
    Stream,
}

#[derive(Clone, Copy, Debug, PartialEq, Eq, Structural)]
pub enum CompositorFrameFormat {
    Rgba8,
    Bgra8,
    Nv12,
}

#[derive(Clone, Debug)]
pub struct CompositorOutput {
    pub width: u32,
    pub height: u32,
    pub background_color: String,
}

/// The outcome of the checks on a node's transform: finite position and rotation,
/// positive size, non-negative crop on each side, opacity within zero and one.
#[derive(Clone, Copy, Debug, PartialEq, Eq, Structural)]
pub struct CompositorGeometryChecks {
    pub position_x_finite: bool,
    pub position_y_finite: bool,
    pub width_positive: bool,
    pub height_positive: bool,
    pub crop_top_non_negative: bool,
    pub crop_right_non_negative: bool,
    pub crop_bottom_non_negative: bool,
    pub crop_left_non_negative: bool,
    pub rotation_finite: bool,
    pub opacity_in_range: bool,
}

#[derive(Clone, Debug)]
pub struct CompositorNode {
    pub id: String,
    pub source_id: String,
    pub name: String,
    pub source_kind: SceneSourceKind,
    pub role: CompositorNodeRole,
    pub parent_source_id: Option<String>,
    pub group_depth: u32,
    pub geometry: CompositorGeometryChecks,
    pub visible: bool,
    pub locked: bool,
    pub z_index: i32,
    pub blend_mode: CompositorBlendMode,
    pub scale_mode: CompositorScaleMode,
    pub status: CompositorNodeStatus,
    pub status_detail: String,
}

#[derive(Clone, Debug)]
pub struct CompositorGraph {
    pub version: u32,
    pub scene_id: String,
    pub scene_name: String,
    pub output: CompositorOutput,
    pub nodes: Vec<CompositorNode>,
}

#[derive(Clone, Debug)]
pub struct CompositorRenderTarget {
    pub id: String,
    pub name: String,
    pub kind: CompositorRenderTargetKind,
    pub width: u32,
    pub height: u32,
    pub framerate: u32,
    pub frame_format: CompositorFrameFormat,
    pub scale_mode: CompositorScaleMode,
    pub enabled: bool,
}

#[derive(Clone, Debug)]
pub struct CompositorRenderPlan {
    pub version: u32,
    pub renderer: CompositorRendererKind,
    pub graph: CompositorGraph,
    pub targets: Vec<CompositorRenderTarget>,
}

#[derive(Clone, Copy, Debug, PartialEq, Eq, Structural)]
pub struct CompositorFrameClock {
    pub frame_index: u64,
    pub framerate: u32,
    pub pts_nanos: u64,
    pub duration_nanos: u64,
}

#[derive(Clone, Debug)]
pub struct CompositorValidation {
    pub ready: bool,
    pub warnings: Vec<String>,
    pub errors: Vec<String>,
}

/// A render target with the default frame format (BGRA) and scale mode (fit), enabled.
pub fn compositor_render_target(
    id: &str,
    name: &str,
    kind: CompositorRenderTargetKind,
    width: u32,
    height: u32,
    framerate: u32,
) -> (r: CompositorRenderTarget)
    ensures
        r.id@ == id@,
        r.name@ == name@,
        r.kind == kind,
        r.width == width,
        r.height == height,
        r.framerate == framerate,
        r.frame_format == CompositorFrameFormat::Bgra8,
        r.scale_mode == CompositorScaleMode::Fit,
        r.enabled,
{
    CompositorRenderTarget {
        id: String::from_str(id),
        name: String::from_str(name),
        kind,
        width,
        height,
        framerate,
        frame_format: CompositorFrameFormat::Bgra8,
        scale_mode: CompositorScaleMode::Fit,
        enabled: true,
    }
}

// ---------------------------------------------------------------------------------
// Graph validation

pub open spec fn node_id_seen(ns: Seq<CompositorNode>, i: int) -> bool {
    exists|j: int| 0 <= j < i && (#[trigger] ns[j]).id@ == ns[i].id@
}

pub open spec fn has_source(ns: Seq<CompositorNode>, source: Seq<char>) -> bool {
    exists|j: int| 0 <= j < ns.len() && (#[trigger] ns[j]).source_id@ == source
}

pub open spec fn node_label(id: Seq<char>, field: Seq<char>) -> Seq<char> {
    "node "@ + id + field
}

pub open spec fn geometry_errors(id: Seq<char>, g: CompositorGeometryChecks) -> Seq<Seq<char>> {
    position_size_errors(id, g) + crop_errors(id, g)
        + if_msg(!g.rotation_finite, node_label(id, " rotation"@) + " must be a finite number"@)
        + if_msg(!g.opacity_in_range, "node "@ + id + " opacity must be between 0 and 1"@)
}

pub open spec fn position_size_errors(id: Seq<char>, g: CompositorGeometryChecks) -> Seq<Seq<char>> {
    if_msg(!g.position_x_finite, node_label(id, " position.x"@) + " must be a finite number"@)
        + if_msg(!g.position_y_finite, node_label(id, " position.y"@) + " must be a finite number"@)
        + if_msg(!g.width_positive, node_label(id, " size.width"@) + " must be greater than zero"@)
        + if_msg(!g.height_positive, node_label(id, " size.height"@) + " must be greater than zero"@)
}

pub open spec fn crop_errors(id: Seq<char>, g: CompositorGeometryChecks) -> Seq<Seq<char>> {
    if_msg(!g.crop_top_non_negative, node_label(id, " crop.top"@) + " must be zero or greater"@)
        + if_msg(!g.crop_right_non_negative, node_label(id, " crop.right"@) + " must be zero or greater"@)
        + if_msg(!g.crop_bottom_non_negative, node_label(id, " crop.bottom"@) + " must be zero or greater"@)
        + if_msg(!g.crop_left_non_negative, node_label(id, " crop.left"@) + " must be zero or greater"@)
}

pub open spec fn parent_errors(ns: Seq<CompositorNode>, n: CompositorNode) -> Seq<Seq<char>> {
    match n.parent_source_id {
        Some(parent) => if_msg(parent@ == n.source_id@, "compositor node \""@ + n.id@ + "\" cannot parent itself"@)
            + if_msg(!has_source(ns, parent@),
                "compositor node \""@ + n.id@ + "\" references missing parent source \""@ + parent@ + "\""@),
        None => seq![],
    }
}

pub open spec fn node_errors(ns: Seq<CompositorNode>, i: int) -> Seq<Seq<char>> {
    let n = ns[i];
    let id = n.id@;
    if_msg(node_id_seen(ns, i), "duplicate compositor node id \""@ + id + "\""@)
        + if_msg(blank(n.source_id@), "compositor node \""@ + id + "\" has no source id"@)
        + if_msg(blank(n.name@), "compositor node \""@ + id + "\" has no name"@)
        + parent_errors(ns, n)
        + geometry_errors(id, n.geometry)
}

pub open spec fn node_warnings(n: CompositorNode) -> Seq<Seq<char>> {
    match n.status {
        CompositorNodeStatus::Placeholder => seq![n.name@ + " is using a placeholder: "@ + n.status_detail@],
        CompositorNodeStatus::PermissionRequired => seq![n.name@ + " requires permission: "@ + n.status_detail@],
        CompositorNodeStatus::Unavailable => seq![n.name@ + " is unavailable: "@ + n.status_detail@],
        _ => seq![],
    }
}

pub open spec fn all_node_errors(ns: Seq<CompositorNode>, k: int) -> Seq<Seq<char>>
    decreases k,
{
    if k <= 0 {
        seq![]
    } else {
        all_node_errors(ns, k - 1) + node_errors(ns, k - 1)
    }
}

pub open spec fn all_node_warnings(ns: Seq<CompositorNode>, k: int) -> Seq<Seq<char>>
    decreases k,
{
    if k <= 0 {
        seq![]
    } else {
        all_node_warnings(ns, k - 1) + node_warnings(ns[k - 1])
    }
}

pub open spec fn visible_count(ns: Seq<CompositorNode>) -> nat
    decreases ns.len(),
{
    if ns.len() == 0 {
        0
    } else {
        visible_count(ns.drop_last()) + if ns.last().visible { 1nat } else { 0nat }
    }
}

/// The errors that `validate_compositor_graph` reports, in order.
pub open spec fn graph_errors(g: CompositorGraph) -> Seq<Seq<char>> {
    if_msg(g.version == 0, "compositor graph version must be greater than zero"@)
        + if_msg(blank(g.scene_id@), "compositor graph scene id is required"@)
        + if_msg(blank(g.scene_name@), "compositor graph scene name is required"@)
        + if_msg(g.output.width == 0 || g.output.height == 0, "compositor output dimensions must be greater than zero"@)
        + if_msg(g.nodes@.len() == 0, "compositor graph must contain at least one node"@)
        + if_msg(visible_count(g.nodes@) == 0, "compositor graph must contain at least one visible node"@)
        + all_node_errors(g.nodes@, g.nodes@.len() as int)
}

/// The warnings that `validate_compositor_graph` reports, in order.
pub open spec fn graph_warnings(g: CompositorGraph) -> Seq<Seq<char>> {
    all_node_warnings(g.nodes@, g.nodes@.len() as int)
}

fn geometry_check(errors: &mut Vec<String>, ok: bool, id: &str, field: &str, suffix: &str)
    ensures
        views(final(errors)@) == views(old(errors)@) + if_msg(!ok, node_label(id@, field@) + suffix@),
{
    let label = quoted("node ", id, field);
    push_if(errors, !ok, cat2(label.as_str(), suffix));
}

fn position_size_errors_exec(id: &str, g: &CompositorGeometryChecks, errors: &mut Vec<String>)
    ensures
        views(final(errors)@) == views(old(errors)@) + position_size_errors(id@, *g),
{
    geometry_check(errors, g.position_x_finite, id, " position.x", " must be a finite number");
    geometry_check(errors, g.position_y_finite, id, " position.y", " must be a finite number");
    geometry_check(errors, g.width_positive, id, " size.width", " must be greater than zero");
    geometry_check(errors, g.height_positive, id, " size.height", " must be greater than zero");
    assert(views(errors@) =~= views(old(errors)@) + position_size_errors(id@, *g));
}

fn crop_errors_exec(id: &str, g: &CompositorGeometryChecks, errors: &mut Vec<String>)
    ensures
        views(final(errors)@) == views(old(errors)@) + crop_errors(id@, *g),
{
    geometry_check(errors, g.crop_top_non_negative, id, " crop.top", " must be zero or greater");
    geometry_check(errors, g.crop_right_non_negative, id, " crop.right", " must be zero or greater");
    geometry_check(errors, g.crop_bottom_non_negative, id, " crop.bottom", " must be zero or greater");
    geometry_check(errors, g.crop_left_non_negative, id, " crop.left", " must be zero or greater");
    assert(views(errors@) =~= views(old(errors)@) + crop_errors(id@, *g));
}

fn geometry_errors_exec(id: &str, g: &CompositorGeometryChecks, errors: &mut Vec<String>)
    ensures
        views(final(errors)@) == views(old(errors)@) + geometry_errors(id@, *g),
{
    position_size_errors_exec(id, g, errors);
    crop_errors_exec(id, g, errors);
    geometry_check(errors, g.rotation_finite, id, " rotation", " must be a finite number");
    push_if(errors, !g.opacity_in_range, quoted("node ", id, " opacity must be between 0 and 1"));
    assert(views(errors@) =~= views(old(errors)@) + geometry_errors(id@, *g));
}

fn node_id_seen_exec(ns: &Vec<CompositorNode>, i: usize) -> (r: bool)
    requires
        i < ns@.len(),
    ensures
        r == node_id_seen(ns@, i as int),
{
    let mut j: usize = 0;
    while j < i
        invariant
            i < ns@.len(),
            j <= i,
            forall|k: int| 0 <= k < j ==> (#[trigger] ns@[k]).id@ != ns@[i as int].id@,
        decreases i - j,
    {
        if ns[j].id == ns[i].id {
            return true;
        }
        j = j + 1;
    }
    false
}

fn has_source_exec(ns: &Vec<CompositorNode>, source: &String) -> (r: bool)
    ensures
        r == has_source(ns@, source@),
{
    let mut j: usize = 0;
    while j < ns.len()
        invariant
            j <= ns@.len(),
            forall|k: int| 0 <= k < j ==> (#[trigger] ns@[k]).source_id@ != source@,
        decreases ns@.len() - j,
    {
        if ns[j].source_id == *source {
            return true;
        }
        j = j + 1;
    }
    false
}

fn parent_errors_exec(ns: &Vec<CompositorNode>, n: &CompositorNode, errors: &mut Vec<String>)
    ensures
        views(final(errors)@) == views(old(errors)@) + parent_errors(ns@, *n),
{
    match &n.parent_source_id {
        Some(parent) => {
            let id = n.id.as_str();
            push_if(errors, *parent == n.source_id, quoted("compositor node \"", id, "\" cannot parent itself"));
            let mut m = quoted("compositor node \"", id, "\" references missing parent source \"");
            m.append(parent.as_str());
            m.append("\"");
            push_if(errors, !has_source_exec(ns, parent), m);
        },
        None => {},
    }
    assert(views(errors@) =~= views(old(errors)@) + parent_errors(ns@, *n));
}

#[verifier::rlimit(100)]
fn node_errors_exec(ns: &Vec<CompositorNode>, i: usize, errors: &mut Vec<String>)
    requires
        i < ns@.len(),
    ensures
        views(final(errors)@) == views(old(errors)@) + node_errors(ns@, i as int),
{
    let n = &ns[i];
    let id = n.id.as_str();
    push_if(errors, node_id_seen_exec(ns, i), quoted("duplicate compositor node id \"", id, "\""));
    push_if(errors, is_blank(n.source_id.as_str()), quoted("compositor node \"", id, "\" has no source id"));
    push_if(errors, is_blank(n.name.as_str()), quoted("compositor node \"", id, "\" has no name"));
    parent_errors_exec(ns, n, errors);
    geometry_errors_exec(id, &n.geometry, errors);
    assert(views(errors@) =~= views(old(errors)@) + node_errors(ns@, i as int));
}

fn node_warnings_exec(n: &CompositorNode, warnings: &mut Vec<String>)
    ensures
        views(final(warnings)@) == views(old(warnings)@) + node_warnings(*n),
{
    let name = n.name.as_str();
    let detail = n.status_detail.as_str();
    match n.status {
        CompositorNodeStatus::Placeholder => push_msg(warnings, quoted(name, " is using a placeholder: ", detail)),
        CompositorNodeStatus::PermissionRequired => push_msg(warnings, quoted(name, " requires permission: ", detail)),
        CompositorNodeStatus::Unavailable => push_msg(warnings, quoted(name, " is unavailable: ", detail)),
        _ => {},
    }
    assert(views(warnings@) =~= views(old(warnings)@) + node_warnings(*n));
}

fn count_visible(ns: &Vec<CompositorNode>) -> (r: usize)
    ensures
        r == visible_count(ns@),
{
    let mut c: usize = 0;
    let mut i: usize = 0;
    while i < ns.len()
        invariant
            i <= ns@.len(),
            c == visible_count(ns@.subrange(0, i as int)),
            c <= i,
        decreases ns@.len() - i,
    {
        assert(ns@.subrange(0, i + 1 as int).drop_last() =~= ns@.subrange(0, i as int));
        if ns[i].visible {
            c = c + 1;
        }
        i = i + 1;
    }
    assert(ns@.subrange(0, ns@.len() as int) =~= ns@);
    c
}

/// Checks a compositor graph: its header and output, that some node is visible, each
/// node's identity, parent and geometry, and each node's status.
pub fn validate_compositor_graph(graph: &CompositorGraph) -> (r: CompositorValidation)
    ensures
        views(r.errors@) == graph_errors(*graph),
        views(r.warnings@) == graph_warnings(*graph),
        r.ready == (r.errors@.len() == 0),
{
    let mut warnings: Vec<String> = Vec::new();
    let mut errors: Vec<String> = Vec::new();
    assert(views(errors@) =~= Seq::<Seq<char>>::empty());
    assert(views(warnings@) =~= Seq::<Seq<char>>::empty());
    let visible = count_visible(&graph.nodes);
    push_if(&mut errors, graph.version == 0, String::from_str("compositor graph version must be greater than zero"));
    push_if(&mut errors, is_blank(graph.scene_id.as_str()), String::from_str("compositor graph scene id is required"));
    push_if(&mut errors, is_blank(graph.scene_name.as_str()), String::from_str("compositor graph scene name is required"));
    push_if(&mut errors, graph.output.width == 0 || graph.output.height == 0,
        String::from_str("compositor output dimensions must be greater than zero"));
    push_if(&mut errors, graph.nodes.len() == 0, String::from_str("compositor graph must contain at least one node"));
    push_if(&mut errors, visible == 0, String::from_str("compositor graph must contain at least one visible node"));
    let ghost e_head = views(errors@);
    let ns = &graph.nodes;
    let mut i: usize = 0;
    while i < ns.len()
        invariant
            ns == &graph.nodes,
            i <= ns@.len(),
            views(errors@) == e_head + all_node_errors(ns@, i as int),
            views(warnings@) == all_node_warnings(ns@, i as int),
        decreases ns@.len() - i,
    {
        node_errors_exec(ns, i, &mut errors);
        node_warnings_exec(&ns[i], &mut warnings);
        i = i + 1;
        assert(views(errors@) =~= e_head + all_node_errors(ns@, i as int));
    }
    assert(views(errors@) =~= graph_errors(*graph));
    let ready = errors.len() == 0;
    CompositorValidation { ready, warnings, errors }
}

} // verus!

verus! {

// ---------------------------------------------------------------------------------
// Nodes of a scene

use crate::scene::{config_get, config_str, config_str_spec, entry_lookup, nested_str, nested_str_spec, ConfigScalar,
    ConfigValue, Scene, SceneSource};
use crate::text::{decimal, str_eq, trim, trim_spec, u64_to_decimal};
use crate::order::{lex_lt, lemma_lex_asymmetric, lemma_lex_irreflexive, lemma_lex_total, lemma_lex_transitive, str_lt};

pub open spec fn role_of(k: SceneSourceKind) -> CompositorNodeRole {
    match k {
        SceneSourceKind::Display | SceneSourceKind::Window | SceneSourceKind::Camera => CompositorNodeRole::Video,
        SceneSourceKind::AudioMeter => CompositorNodeRole::Audio,
        SceneSourceKind::ImageMedia | SceneSourceKind::BrowserOverlay => CompositorNodeRole::Overlay,
        SceneSourceKind::Text => CompositorNodeRole::Text,
        SceneSourceKind::Group => CompositorNodeRole::Group,
    }
}

pub fn node_role(kind: &SceneSourceKind) -> (r: CompositorNodeRole)
    ensures
        r == role_of(*kind),
{
    match kind {
        SceneSourceKind::Display | SceneSourceKind::Window | SceneSourceKind::Camera => CompositorNodeRole::Video,
        SceneSourceKind::AudioMeter => CompositorNodeRole::Audio,
        SceneSourceKind::ImageMedia | SceneSourceKind::BrowserOverlay => CompositorNodeRole::Overlay,
        SceneSourceKind::Text => CompositorNodeRole::Text,
        SceneSourceKind::Group => CompositorNodeRole::Group,
    }
}

pub open spec fn scale_mode_of(m: SceneSourceBoundsMode) -> CompositorScaleMode {
    match m {
        SceneSourceBoundsMode::Stretch => CompositorScaleMode::Stretch,
        SceneSourceBoundsMode::Fit => CompositorScaleMode::Fit,
        SceneSourceBoundsMode::Fill => CompositorScaleMode::Fill,
        SceneSourceBoundsMode::Center => CompositorScaleMode::Center,
        SceneSourceBoundsMode::OriginalSize => CompositorScaleMode::OriginalSize,
    }
}

pub fn node_scale_mode(bounds_mode: &SceneSourceBoundsMode) -> (r: CompositorScaleMode)
    ensures
        r == scale_mode_of(*bounds_mode),
{
    match bounds_mode {
        SceneSourceBoundsMode::Stretch => CompositorScaleMode::Stretch,
        SceneSourceBoundsMode::Fit => CompositorScaleMode::Fit,
        SceneSourceBoundsMode::Fill => CompositorScaleMode::Fill,
        SceneSourceBoundsMode::Center => CompositorScaleMode::Center,
        SceneSourceBoundsMode::OriginalSize => CompositorScaleMode::OriginalSize,
    }
}

/// The configuration holds a non-blank string under the key.
pub open spec fn config_text_present(s: SceneSource, key: Seq<char>) -> bool {
    config_str_spec(s.config@, key) matches Some(v) && !blank(v)
}

fn config_text_present_exec(s: &SceneSource, key: &str) -> (r: bool)
    ensures
        r == config_text_present(*s, key@),
{
    match config_str(&s.config, key) {
        Some(v) => !is_blank(v.as_str()),
        None => false,
    }
}

/// The elements of the source's `child_source_ids` array, when it has one.
pub open spec fn child_array(s: SceneSource) -> Option<Seq<ConfigScalar>> {
    match entry_lookup(s.config@, "child_source_ids"@) {
        Some(ConfigValue::Array(items)) => Some(items@),
        _ => None,
    }
}

/// The trimmed, non-blank string elements of an array, in order.
pub open spec fn child_ids_of(items: Seq<ConfigScalar>) -> Seq<Seq<char>>
    decreases items.len(),
{
    if items.len() == 0 {
        seq![]
    } else {
        let rest = child_ids_of(items.drop_last());
        match items.last() {
            ConfigScalar::Str(x) => if blank(x@) {
                rest
            } else {
                rest.push(trim_spec(x@))
            },
            _ => rest,
        }
    }
}

/// The ids of a group's children.
pub open spec fn group_children(s: SceneSource) -> Seq<Seq<char>> {
    match child_array(s) {
        Some(items) => child_ids_of(items),
        None => seq![],
    }
}

pub fn group_child_ids(s: &SceneSource) -> (r: Vec<String>)
    ensures
        views(r@) == group_children(*s),
{
    let mut out: Vec<String> = Vec::new();
    assert(views(out@) =~= Seq::<Seq<char>>::empty());
    match config_get(&s.config, "child_source_ids") {
        Some(ConfigValue::Array(items)) => {
            let mut i: usize = 0;
            while i < items.len()
                invariant
                    i <= items@.len(),
                    views(out@) == child_ids_of(items@.subrange(0, i as int)),
                decreases items@.len() - i,
            {
                assert(items@.subrange(0, i + 1 as int).drop_last() =~= items@.subrange(0, i as int));
                match &items[i] {
                    ConfigScalar::Str(x) => {
                        if !is_blank(x.as_str()) {
                            push_msg(&mut out, trim(x.as_str()));
                        }
                    },
                    _ => {},
                }
                i = i + 1;
            }
            assert(items@.subrange(0, items@.len() as int) =~= items@);
        },
        _ => {},
    }
    out
}

/// The status of a capture-backed node: ready when its target is configured.
pub open spec fn capture_node_status(s: SceneSource, key: Seq<char>, label: Seq<char>) -> (CompositorNodeStatus, Seq<char>) {
    if config_text_present(s, key) {
        (CompositorNodeStatus::Ready, label + " capture target configured."@)
    } else {
        (CompositorNodeStatus::Placeholder, "No "@ + label + " capture target has been assigned."@)
    }
}

/// The status that an explicit availability entry gives.
pub open spec fn explicit_status(s: SceneSource) -> (CompositorNodeStatus, Seq<char>) {
    let state = nested_str_spec(s.config@, "availability"@, "state"@);
    let detail = match nested_str_spec(s.config@, "availability"@, "detail"@) {
        Some(d) => d,
        None => "Availability has not been checked."@,
    };
    (if state == Some("available"@) {
        CompositorNodeStatus::Ready
    } else if state == Some("permission_required"@) {
        CompositorNodeStatus::PermissionRequired
    } else if state == Some("unavailable"@) {
        CompositorNodeStatus::Unavailable
    } else {
        CompositorNodeStatus::Placeholder
    }, detail)
}

pub open spec fn configured_status(present: bool, ready: Seq<char>, missing: Seq<char>) -> (CompositorNodeStatus, Seq<char>) {
    if present {
        (CompositorNodeStatus::Ready, ready)
    } else {
        (CompositorNodeStatus::Placeholder, missing)
    }
}

/// The status and detail of a source's node.
pub open spec fn node_status_of(s: SceneSource) -> (CompositorNodeStatus, Seq<char>) {
    if !s.visible {
        (CompositorNodeStatus::Hidden, "Source is hidden in the active scene."@)
    } else if entry_lookup(s.config@, "availability"@) is Some {
        explicit_status(s)
    } else {
        match s.kind {
            SceneSourceKind::Display => capture_node_status(s, "display_id"@, "display"@),
            SceneSourceKind::Window => capture_node_status(s, "window_id"@, "window"@),
            SceneSourceKind::Camera => capture_node_status(s, "device_id"@, "camera"@),
            SceneSourceKind::AudioMeter => capture_node_status(s, "device_id"@, "audio device"@),
            SceneSourceKind::ImageMedia => configured_status(config_text_present(s, "asset_uri"@),
                "Media asset configured."@, "No media asset has been selected."@),
            SceneSourceKind::BrowserOverlay => configured_status(config_text_present(s, "url"@),
                "Browser overlay URL configured."@, "No browser overlay URL has been configured."@),
            SceneSourceKind::Text => configured_status(config_text_present(s, "text"@),
                "Text content configured."@, "Text source is empty."@),
            SceneSourceKind::Group => match child_array(s) {
                Some(items) => if items.len() > 0 {
                    (CompositorNodeStatus::Ready, decimal(items.len()) + " child source(s) grouped."@)
                } else {
                    (CompositorNodeStatus::Placeholder, "Group has no child sources."@)
                },
                None => (CompositorNodeStatus::Placeholder, "Group has no child sources."@),
            },
        }
    }
}

fn capture_status(s: &SceneSource, key: &str, label: &str) -> (r: (CompositorNodeStatus, String))
    ensures
        r.0 == capture_node_status(*s, key@, label@).0,
        r.1@ == capture_node_status(*s, key@, label@).1,
{
    if config_text_present_exec(s, key) {
        (CompositorNodeStatus::Ready, cat2(label, " capture target configured."))
    } else {
        (CompositorNodeStatus::Placeholder, quoted("No ", label, " capture target has been assigned."))
    }
}

fn explicit_availability_status(s: &SceneSource) -> (r: (CompositorNodeStatus, String))
    ensures
        r.0 == explicit_status(*s).0,
        r.1@ == explicit_status(*s).1,
{
    let detail = match nested_str(&s.config, "availability", "detail") {
        Some(d) => d,
        None => String::from_str("Availability has not been checked."),
    };
    let status = match nested_str(&s.config, "availability", "state") {
        Some(state) => if str_eq(state.as_str(), "available") {
            CompositorNodeStatus::Ready
        } else if str_eq(state.as_str(), "permission_required") {
            CompositorNodeStatus::PermissionRequired
        } else if str_eq(state.as_str(), "unavailable") {
            CompositorNodeStatus::Unavailable
        } else {
            CompositorNodeStatus::Placeholder
        },
        None => CompositorNodeStatus::Placeholder,
    };
    (status, detail)
}

fn configured(present: bool, ready: &str, missing: &str) -> (r: (CompositorNodeStatus, String))
    ensures
        r.0 == configured_status(present, ready@, missing@).0,
        r.1@ == configured_status(present, ready@, missing@).1,
{
    if present {
        (CompositorNodeStatus::Ready, String::from_str(ready))
    } else {
        (CompositorNodeStatus::Placeholder, String::from_str(missing))
    }
}

/// A visible source that records its availability takes its status from the
/// availability's state: "available" makes it ready, "permission_required" asks for
/// permission, "unavailable" makes it unavailable, and any other state, or none, leaves
/// a placeholder. Its detail is the availability's detail, or says that availability
/// has not been checked. The source's kind plays no part.
pub proof fn lemma_availability_decides_status(s: SceneSource)
    requires
        s.visible,
        entry_lookup(s.config@, "availability"@) is Some,
    ensures
        nested_str_spec(s.config@, "availability"@, "state"@) == Some("available"@) ==> node_status_of(s).0
            == CompositorNodeStatus::Ready,
        nested_str_spec(s.config@, "availability"@, "state"@) == Some("permission_required"@) ==> node_status_of(s).0
            == CompositorNodeStatus::PermissionRequired,
        nested_str_spec(s.config@, "availability"@, "state"@) == Some("unavailable"@) ==> node_status_of(s).0
            == CompositorNodeStatus::Unavailable,
        nested_str_spec(s.config@, "availability"@, "state"@) != Some("available"@) && nested_str_spec(s.config@,
            "availability"@, "state"@) != Some("permission_required"@) && nested_str_spec(s.config@, "availability"@,
            "state"@) != Some("unavailable"@) ==> node_status_of(s).0 == CompositorNodeStatus::Placeholder,
        match nested_str_spec(s.config@, "availability"@, "detail"@) {
            Some(d) => node_status_of(s).1 == d,
            None => node_status_of(s).1 == "Availability has not been checked."@,
        },
{
    reveal_strlit("available");
    reveal_strlit("permission_required");
    reveal_strlit("unavailable");
    assert("available"@.len() != "permission_required"@.len());
    assert("available"@.len() != "unavailable"@.len());
    assert("permission_required"@.len() != "unavailable"@.len());
}

/// The status and detail of a source's node: hidden sources are hidden; an explicit
/// availability entry decides; otherwise whether the source's target is configured.
pub fn node_status(s: &SceneSource) -> (r: (CompositorNodeStatus, String))
    ensures
        r.0 == node_status_of(*s).0,
        r.1@ == node_status_of(*s).1,
{
    if !s.visible {
        return (CompositorNodeStatus::Hidden, String::from_str("Source is hidden in the active scene."));
    }
    if config_get(&s.config, "availability").is_some() {
        return explicit_availability_status(s);
    }
    match s.kind {
        SceneSourceKind::Display => capture_status(s, "display_id", "display"),
        SceneSourceKind::Window => capture_status(s, "window_id", "window"),
        SceneSourceKind::Camera => capture_status(s, "device_id", "camera"),
        SceneSourceKind::AudioMeter => capture_status(s, "device_id", "audio device"),
        SceneSourceKind::ImageMedia => configured(config_text_present_exec(s, "asset_uri"),
            "Media asset configured.", "No media asset has been selected."),
        SceneSourceKind::BrowserOverlay => configured(config_text_present_exec(s, "url"),
            "Browser overlay URL configured.", "No browser overlay URL has been configured."),
        SceneSourceKind::Text => configured(config_text_present_exec(s, "text"),
            "Text content configured.", "Text source is empty."),
        SceneSourceKind::Group => match config_get(&s.config, "child_source_ids") {
            Some(ConfigValue::Array(items)) => if items.len() > 0 {
                let n = u64_to_decimal(items.len() as u64);
                (CompositorNodeStatus::Ready, cat2(n.as_str(), " child source(s) grouped."))
            } else {
                (CompositorNodeStatus::Placeholder, String::from_str("Group has no child sources."))
            },
            _ => (CompositorNodeStatus::Placeholder, String::from_str("Group has no child sources.")),
        },
    }
}

} // verus!

verus! {

// ---------------------------------------------------------------------------------
// ---------------------------------------------------------------------------------
// Groups: the parent of each grouped source and the depth of its nesting

/// A grouped source and the group that holds it.
#[derive(Clone, Debug)]
pub struct ParentLink {
    pub child: String,
    pub parent: String,
}

/// Links as (child, parent) pairs of identifiers.
pub open spec fn link_pairs(links: Seq<ParentLink>) -> Seq<(Seq<char>, Seq<char>)> {
    links.map_values(|l: ParentLink| (l.child@, l.parent@))
}

/// The group that first claims the source, in source order and child order.
pub open spec fn parent_of(ss: Seq<SceneSource>, child: Seq<char>) -> Option<Seq<char>>
    decreases ss.len(),
{
    if ss.len() == 0 {
        None
    } else {
        let earlier = parent_of(ss.drop_last(), child);
        let g = ss.last();
        if earlier is Some {
            earlier
        } else if g.kind == SceneSourceKind::Group && group_children(g).contains(child) {
            Some(g.id@)
        } else {
            None
        }
    }
}

/// The parent recorded for the child: that of its first link.
pub open spec fn link_parent(links: Seq<(Seq<char>, Seq<char>)>, child: Seq<char>) -> Option<Seq<char>>
    decreases links.len(),
{
    if links.len() == 0 {
        None
    } else if links[0].0 == child {
        Some(links[0].1)
    } else {
        link_parent(links.drop_first(), child)
    }
}

/// Links each child of a group that no link claims yet.
pub open spec fn claim_children(
    links: Seq<(Seq<char>, Seq<char>)>,
    children: Seq<Seq<char>>,
    group: Seq<char>,
) -> Seq<(Seq<char>, Seq<char>)>
    decreases children.len(),
{
    if children.len() == 0 {
        links
    } else {
        let before = claim_children(links, children.drop_last(), group);
        if link_parent(before, children.last()) is Some {
            before
        } else {
            before.push((children.last(), group))
        }
    }
}

/// The links of a scene, built in source order and child order.
pub open spec fn scene_links(ss: Seq<SceneSource>) -> Seq<(Seq<char>, Seq<char>)>
    decreases ss.len(),
{
    if ss.len() == 0 {
        seq![]
    } else {
        let before = scene_links(ss.drop_last());
        let g = ss.last();
        if g.kind == SceneSourceKind::Group {
            claim_children(before, group_children(g), g.id@)
        } else {
            before
        }
    }
}

pub proof fn lemma_link_parent_push(links: Seq<(Seq<char>, Seq<char>)>, l: (Seq<char>, Seq<char>), c: Seq<char>)
    ensures
        link_parent(links.push(l), c) == (if link_parent(links, c) is Some {
            link_parent(links, c)
        } else if l.0 == c {
            Some(l.1)
        } else {
            None
        }),
    decreases links.len(),
{
    let pushed = links.push(l);
    assert(pushed[0] == (if links.len() > 0 { links[0] } else { l }));
    if links.len() > 0 {
        assert(pushed.drop_first() =~= links.drop_first().push(l));
        lemma_link_parent_push(links.drop_first(), l, c);
    } else {
        assert(pushed.drop_first() =~= Seq::<(Seq<char>, Seq<char>)>::empty());
        assert(link_parent(Seq::<(Seq<char>, Seq<char>)>::empty(), c) is None);
    }
}

pub proof fn lemma_link_parent_is_linked(links: Seq<(Seq<char>, Seq<char>)>, c: Seq<char>)
    ensures
        link_parent(links, c) matches Some(p) ==> exists|i: int| 0 <= i < links.len() && (#[trigger] links[i]).1 == p,
    decreases links.len(),
{
    if links.len() > 0 && links[0].0 != c {
        lemma_link_parent_is_linked(links.drop_first(), c);
        if link_parent(links.drop_first(), c) is Some {
            let p = link_parent(links.drop_first(), c)->0;
            let i = choose|i: int| 0 <= i < links.drop_first().len() && (#[trigger] links.drop_first()[i]).1 == p;
            assert(links[i + 1].1 == p);
        }
    }
}

proof fn lemma_contains_push(s: Seq<Seq<char>>, x: Seq<char>, c: Seq<char>)
    ensures
        s.push(x).contains(c) <==> (s.contains(c) || x == c),
{
    let t = s.push(x);
    if t.contains(c) {
        let k = choose|k: int| 0 <= k < t.len() && t[k] == c;
        if k < s.len() {
            assert(s[k] == c);
        }
    }
    if s.contains(c) {
        let k = choose|k: int| 0 <= k < s.len() && s[k] == c;
        assert(t[k] == c);
    }
    if x == c {
        assert(t[s.len() as int] == c);
    }
}

proof fn lemma_claim_children(links: Seq<(Seq<char>, Seq<char>)>, children: Seq<Seq<char>>, group: Seq<char>, c: Seq<char>)
    ensures
        link_parent(claim_children(links, children, group), c) == (if link_parent(links, c) is Some {
            link_parent(links, c)
        } else if children.contains(c) {
            Some(group)
        } else {
            None
        }),
    decreases children.len(),
{
    if children.len() > 0 {
        let rest = children.drop_last();
        let x = children.last();
        let before = claim_children(links, rest, group);
        lemma_claim_children(links, rest, group, c);
        lemma_claim_children(links, rest, group, x);
        assert(rest.push(x) =~= children);
        lemma_contains_push(rest, x, c);
        lemma_link_parent_push(before, (x, group), c);
    }
}

/// The links of a scene give each source the group that first claims it.
pub proof fn lemma_scene_links_parent(ss: Seq<SceneSource>, c: Seq<char>)
    ensures
        link_parent(scene_links(ss), c) == parent_of(ss, c),
    decreases ss.len(),
{
    if ss.len() > 0 {
        lemma_scene_links_parent(ss.drop_last(), c);
        let g = ss.last();
        if g.kind == SceneSourceKind::Group {
            lemma_claim_children(scene_links(ss.drop_last()), group_children(g), g.id@, c);
        }
    }
}

fn link_lookup(links: &Vec<ParentLink>, child: &String) -> (r: Option<usize>)
    ensures
        match r {
            Some(i) => i < links@.len() && link_parent(link_pairs(links@), child@) == Some(links@[i as int].parent@),
            None => link_parent(link_pairs(links@), child@) is None,
        },
{
    let ghost pairs = link_pairs(links@);
    let mut i: usize = 0;
    assert(pairs.skip(0) =~= pairs);
    while i < links.len()
        invariant
            pairs == link_pairs(links@),
            i <= links@.len(),
            link_parent(pairs, child@) == link_parent(pairs.skip(i as int), child@),
        decreases links@.len() - i,
    {
        assert(pairs.skip(i as int).drop_first() =~= pairs.skip(i + 1));
        assert(pairs.skip(i as int)[0] == (links@[i as int].child@, links@[i as int].parent@));
        if links[i].child == *child {
            return Some(i);
        }
        i = i + 1;
    }
    assert(pairs.skip(i as int).len() == 0);
    None
}

/// For every grouped source, the group that first claims it.
pub fn group_parent_map(sources: &Vec<SceneSource>) -> (r: Vec<ParentLink>)
    ensures
        link_pairs(r@) == scene_links(sources@),
{
    let mut links: Vec<ParentLink> = Vec::new();
    let mut i: usize = 0;
    assert(link_pairs(links@) =~= scene_links(sources@.subrange(0, 0)));
    while i < sources.len()
        invariant
            i <= sources@.len(),
            link_pairs(links@) == scene_links(sources@.subrange(0, i as int)),
        decreases sources@.len() - i,
    {
        let ghost prefix = sources@.subrange(0, i as int);
        assert(sources@.subrange(0, i + 1 as int).drop_last() =~= prefix);
        let s = &sources[i];
        let is_group = match s.kind {
            SceneSourceKind::Group => true,
            _ => false,
        };
        if is_group {
            let children = group_child_ids(s);
            let mut j: usize = 0;
            assert(views(children@).subrange(0, 0) =~= Seq::<Seq<char>>::empty());
            while j < children.len()
                invariant
                    j <= children@.len(),
                    views(children@) == group_children(*s),
                    link_pairs(links@) == claim_children(scene_links(prefix), views(children@).subrange(0, j as int), s.id@),
                decreases children@.len() - j,
            {
                let ghost old_links = links@;
                let child = &children[j];
                let ghost cj = child@;
                assert(views(children@).subrange(0, j + 1 as int).drop_last() =~= views(children@).subrange(0, j as int));
                assert(views(children@).subrange(0, j + 1 as int).last() == cj);
                let known = link_lookup(&links, child);
                if known.is_none() {
                    let link = ParentLink { child: child.clone(), parent: s.id.clone() };
                    links.push(link);
                    assert(link_pairs(links@) =~= link_pairs(old_links).push((cj, s.id@)));
                }
                j = j + 1;
            }
            assert(views(children@).subrange(0, children@.len() as int) =~= views(children@));
        }
        i = i + 1;
    }
    assert(sources@.subrange(0, sources@.len() as int) =~= sources@);
    links
}

/// The groups that the links name as parents.
pub open spec fn parent_values(links: Seq<(Seq<char>, Seq<char>)>) -> Set<Seq<char>> {
    links.map_values(|l: (Seq<char>, Seq<char>)| l.1).to_set()
}

/// One step up the parent chain leaves fewer unvisited parents.
pub proof fn lemma_walk_step(links: Seq<(Seq<char>, Seq<char>)>, cursor: Seq<char>, visited: Set<Seq<char>>, p: Seq<char>)
    requires
        link_parent(links, cursor) == Some(p),
        !visited.contains(p),
    ensures
        parent_values(links).difference(visited.insert(p)).len()
            < parent_values(links).difference(visited).len(),
{
    lemma_link_parent_is_linked(links, cursor);
    let i = choose|i: int| 0 <= i < links.len() && (#[trigger] links[i]).1 == p;
    let vals = links.map_values(|l: (Seq<char>, Seq<char>)| l.1);
    assert(vals[i] == p);
    assert(parent_values(links).contains(p));
    vstd::seq_lib::seq_to_set_is_finite(vals);
    let d = parent_values(links).difference(visited);
    assert(parent_values(links).difference(visited.insert(p)) =~= d.remove(p));
    assert(d.contains(p));
}

/// How many distinct groups enclose the source, following parents until
/// one repeats.
pub open spec fn depth_walk(links: Seq<(Seq<char>, Seq<char>)>, cursor: Seq<char>, visited: Set<Seq<char>>) -> nat
    decreases parent_values(links).difference(visited).len(),
{
    match link_parent(links, cursor) {
        None => 0,
        Some(p) => if visited.contains(p) {
            0
        } else {
            proof {
                lemma_walk_step(links, cursor, visited, p);
            }
            1 + depth_walk(links, p, visited.insert(p))
        },
    }
}

/// The nesting depth of a source, saturating at `u32::MAX`.
pub open spec fn group_depth_spec(links: Seq<(Seq<char>, Seq<char>)>, source_id: Seq<char>) -> int {
    let d = depth_walk(links, source_id, Set::empty());
    if d > u32::MAX { u32::MAX as int } else { d as int }
}

fn contains_string(v: &Vec<String>, x: &String) -> (r: bool)
    ensures
        r == views(v@).contains(x@),
{
    let mut i: usize = 0;
    while i < v.len()
        invariant
            i <= v@.len(),
            forall|k: int| 0 <= k < i ==> views(v@)[k] != x@,
        decreases v@.len() - i,
    {
        if str_eq(v[i].as_str(), x.as_str()) {
            assert(views(v@)[i as int] == x@);
            return true;
        }
        i = i + 1;
    }
    false
}

/// Counts the groups enclosing `source_id` along the parent links, stopping at
/// the first group seen twice.
pub fn group_depth(source_id: &String, links: &Vec<ParentLink>) -> (r: u32)
    ensures
        r as int == group_depth_spec(link_pairs(links@), source_id@),
{
    let ghost pairs = link_pairs(links@);
    let mut depth: u32 = 0;
    let ghost mut count: nat = 0;
    let mut visited: Vec<String> = Vec::new();
    let ghost mut vis: Set<Seq<char>> = Set::empty();
    let mut cursor: String = source_id.clone();
    loop
        invariant
            pairs == link_pairs(links@),
            forall|x: Seq<char>| vis.contains(x) <==> views(visited@).contains(x),
            depth_walk(pairs, source_id@, Set::empty()) == count + depth_walk(pairs, cursor@, vis),
            depth as int == (if count > u32::MAX { u32::MAX as int } else { count as int }),
        ensures
            depth as int == group_depth_spec(pairs, source_id@),
        decreases parent_values(pairs).difference(vis).len(),
    {
        let found = link_lookup(links, &cursor);
        match found {
            None => {
                return depth;
            },
            Some(k) => {
                let parent = links[k].parent.clone();
                let ghost p = parent@;
                if contains_string(&visited, &parent) {
                    return depth;
                }
                proof {
                    lemma_walk_step(pairs, cursor@, vis, p);
                }
                let ghost old_visited = views(visited@);
                visited.push(parent.clone());
                proof {
                    assert(views(visited@) =~= old_visited.push(p));
                    assert forall|x: Seq<char>| vis.insert(p).contains(x) <==> views(visited@).contains(x) by {
                        lemma_contains_push(old_visited, p, x);
                    }
                    vis = vis.insert(p);
                    count = count + 1;
                }
                depth = depth.saturating_add(1);
                cursor = parent;
            },
        }
    }
}


// ---------------------------------------------------------------------------------
// The graph of a scene

/// The node built from a source, given its parent and its group depth.
pub open spec fn node_from(n: CompositorNode, s: SceneSource, parent: Option<Seq<char>>, depth: int) -> bool {
    &&& n.id@ == "node-"@ + s.id@
    &&& n.source_id@ == s.id@
    &&& n.name@ == s.name@
    &&& n.source_kind == s.kind
    &&& n.role == role_of(s.kind)
    &&& (match n.parent_source_id {
        Some(p) => parent == Some(p@),
        None => parent is None,
    })
    &&& n.group_depth == depth
    &&& n.geometry == s.geometry
    &&& n.visible == s.visible
    &&& n.locked == s.locked
    &&& n.z_index == s.z_index
    &&& n.blend_mode == CompositorBlendMode::Normal
    &&& n.scale_mode == scale_mode_of(s.bounds_mode)
    &&& n.status == node_status_of(s).0
    &&& n.status_detail@ == node_status_of(s).1
}

/// The compositor node of a source, with its parent group and nesting depth.
pub fn build_compositor_node(source: &SceneSource, parent_source_id: Option<String>, group_depth: u32) -> (r:
    CompositorNode)
    ensures
        node_from(r, *source, match parent_source_id {
            Some(p) => Some(p@),
            None => None,
        }, group_depth as int),
{
    let (status, status_detail) = node_status(source);
    CompositorNode {
        id: cat2("node-", source.id.as_str()),
        source_id: source.id.clone(),
        name: source.name.clone(),
        source_kind: source.kind,
        role: node_role(&source.kind),
        parent_source_id,
        group_depth,
        geometry: source.geometry,
        visible: source.visible,
        locked: source.locked,
        z_index: source.z_index,
        blend_mode: CompositorBlendMode::Normal,
        scale_mode: node_scale_mode(&source.bounds_mode),
        status,
        status_detail,
    }
}

/// Source `i` is drawn before source `j`: by z-index, then by identifier, then by
/// position in the scene.
pub open spec fn source_before(ss: Seq<SceneSource>, i: int, j: int) -> bool {
    let a = ss[i];
    let b = ss[j];
    a.z_index < b.z_index || (a.z_index == b.z_index && (lex_lt(a.id@, b.id@) || (a.id@ == b.id@ && i < j)))
}

proof fn lemma_source_before_order(ss: Seq<SceneSource>, i: int, j: int, k: int)
    ensures
        !source_before(ss, i, i),
        i != j ==> (source_before(ss, i, j) || source_before(ss, j, i)),
        source_before(ss, i, j) ==> !source_before(ss, j, i),
        source_before(ss, i, j) && source_before(ss, j, k) ==> source_before(ss, i, k),
{
    lemma_lex_irreflexive(ss[i].id@);
    lemma_lex_total(ss[i].id@, ss[j].id@);
    if lex_lt(ss[i].id@, ss[j].id@) {
        lemma_lex_asymmetric(ss[i].id@, ss[j].id@);
    }
    if lex_lt(ss[j].id@, ss[i].id@) {
        lemma_lex_asymmetric(ss[j].id@, ss[i].id@);
    }
    if lex_lt(ss[i].id@, ss[j].id@) && lex_lt(ss[j].id@, ss[k].id@) {
        lemma_lex_transitive(ss[i].id@, ss[j].id@, ss[k].id@);
    }
}

/// The positions of the sources in drawing order: each position once, each before
/// the next.
pub open spec fn is_render_order(ss: Seq<SceneSource>, order: Seq<usize>) -> bool {
    &&& order.len() == ss.len()
    &&& forall|k: int| 0 <= k < order.len() ==> (#[trigger] order[k]) < ss.len()
    &&& forall|x: usize| x < ss.len() ==> order.contains(x)
    &&& forall|a: int, b: int| 0 <= a < b < order.len() ==> source_before(ss, #[trigger] order[a] as int, #[trigger] order[b] as int)
}

fn source_before_exec(ss: &Vec<SceneSource>, i: usize, j: usize) -> (r: bool)
    requires
        i < ss@.len(),
        j < ss@.len(),
    ensures
        r == source_before(ss@, i as int, j as int),
{
    let a = &ss[i];
    let b = &ss[j];
    if a.z_index != b.z_index {
        return a.z_index < b.z_index;
    }
    if str_lt(a.id.as_str(), b.id.as_str()) {
        return true;
    }
    a.id == b.id && i < j
}

/// Sorts the sources by z-index and then identifier, keeping scene order among equals.
pub fn render_order(sources: &Vec<SceneSource>) -> (r: Vec<usize>)
    ensures
        is_render_order(sources@, r@),
{
    let ghost ss = sources@;
    let mut order: Vec<usize> = Vec::new();
    let mut i: usize = 0;
    while i < sources.len()
        invariant
            ss == sources@,
            i <= ss.len(),
            order@.len() == i,
            forall|k: int| 0 <= k < order@.len() ==> (#[trigger] order@[k]) < i,
            forall|x: usize| x < i ==> order@.contains(x),
            forall|a: int, b: int| 0 <= a < b < order@.len() ==> source_before(ss, #[trigger] order@[a] as int, #[trigger] order@[b] as int),
        decreases ss.len() - i,
    {
        let ghost o = order@;
        let mut k: usize = 0;
        while k < order.len()
            invariant
                ss == sources@,
                o == order@,
                i < ss.len(),
                k <= o.len(),
                forall|m: int| 0 <= m < o.len() ==> (#[trigger] o[m]) < i,
                forall|m: int| 0 <= m < k ==> source_before(ss, #[trigger] o[m] as int, i as int),
            ensures
                k <= o.len(),
                forall|m: int| 0 <= m < k ==> source_before(ss, #[trigger] o[m] as int, i as int),
                k < o.len() ==> source_before(ss, i as int, o[k as int] as int),
            decreases o.len() - k,
        {
            if !source_before_exec(sources, order[k], i) {
                proof {
                    lemma_source_before_order(ss, o[k as int] as int, i as int, 0);
                }
                break;
            }
            k = k + 1;
        }
        order.insert(k, i);
        proof {
            let t = order@;
            assert(t =~= o.subrange(0, k as int).push(i) + o.subrange(k as int, o.len() as int));
            assert forall|a: int, b: int| 0 <= a < b < t.len() implies source_before(ss, #[trigger] t[a] as int, #[trigger] t[b] as int) by {
                if b == k {
                    assert(t[a] == o[a]);
                } else if a == k {
                    assert(t[b] == o[b - 1]);
                    if b - 1 > k {
                        lemma_source_before_order(ss, i as int, o[k as int] as int, o[b - 1] as int);
                    }
                } else if a < k && b > k {
                    assert(t[a] == o[a] && t[b] == o[b - 1]);
                } else if b < k {
                    assert(t[a] == o[a] && t[b] == o[b]);
                } else {
                    assert(t[a] == o[a - 1] && t[b] == o[b - 1]);
                }
            }
            assert forall|x: usize| x < i + 1 implies t.contains(x) by {
                if x == i {
                    assert(t[k as int] == x);
                } else {
                    assert(o.contains(x));
                    let m = choose|m: int| 0 <= m < o.len() && o[m] == x;
                    if m < k {
                        assert(t[m] == x);
                    } else {
                        assert(t[m + 1] == x);
                    }
                }
            }
            assert forall|m: int| 0 <= m < t.len() implies (#[trigger] t[m]) < i + 1 by {
                if m < k {
                    assert(t[m] == o[m]);
                } else if m > k {
                    assert(t[m] == o[m - 1]);
                }
            }
        }
        i = i + 1;
    }
    order
}

/// The drawing order of a scene's sources is determined: any two orders that meet
/// `is_render_order` are the same.
pub proof fn lemma_render_order_unique(ss: Seq<SceneSource>, o1: Seq<usize>, o2: Seq<usize>)
    requires
        is_render_order(ss, o1),
        is_render_order(ss, o2),
    ensures
        o1 == o2,
{
    let before = |i: int, j: int| source_before(ss, i, j);
    assert forall|x: int, y: int| #[trigger] before(x, y) implies !before(y, x) by {
        lemma_source_before_order(ss, x, y, 0);
    }
    assert forall|x: usize| o1.contains(x) <==> o2.contains(x) by {
        if o1.contains(x) {
            let k = choose|k: int| 0 <= k < o1.len() && o1[k] == x;
            assert(o1[k] < ss.len());
        }
        if o2.contains(x) {
            let k = choose|k: int| 0 <= k < o2.len() && o2[k] == x;
            assert(o2[k] < ss.len());
        }
    }
    assert(crate::order::sorted_by(before, o1));
    assert(crate::order::sorted_by(before, o2));
    crate::order::lemma_sorted_by_unique(before, o1, o2);
}

/// The compositor graph of a scene: one node per source, in drawing order.
pub open spec fn graph_of_scene(g: CompositorGraph, scene: Scene) -> bool {
    let ss = scene.sources@;
    &&& g.version == 1
    &&& g.scene_id@ == scene.id@
    &&& g.scene_name@ == scene.name@
    &&& g.output.width == scene.canvas.width
    &&& g.output.height == scene.canvas.height
    &&& g.output.background_color@ == scene.canvas.background_color@
    &&& exists|order: Seq<usize>| #[trigger] is_render_order(ss, order) && g.nodes@.len() == ss.len()
        && forall|k: int| 0 <= k < ss.len() ==> node_from(#[trigger] g.nodes@[k], ss[order[k] as int],
            parent_of(ss, ss[order[k] as int].id@), group_depth_spec(scene_links(ss), ss[order[k] as int].id@))
}

/// Builds the compositor graph of a scene: the sources in drawing order, each with the
/// group that holds it and its nesting depth.
pub fn build_compositor_graph(scene: &Scene) -> (r: CompositorGraph)
    ensures
        graph_of_scene(r, *scene),
{
    let ghost ss = scene.sources@;
    let sources = &scene.sources;
    let order = render_order(sources);
    let links = group_parent_map(sources);
    let mut nodes: Vec<CompositorNode> = Vec::new();
    let mut k: usize = 0;
    while k < order.len()
        invariant
            ss == sources@,
            sources == &scene.sources,
            is_render_order(ss, order@),
            link_pairs(links@) == scene_links(ss),
            k <= order@.len(),
            nodes@.len() == k,
            forall|m: int| 0 <= m < k ==> node_from(#[trigger] nodes@[m], ss[order@[m] as int],
                parent_of(ss, ss[order@[m] as int].id@), group_depth_spec(scene_links(ss), ss[order@[m] as int].id@)),
        decreases order@.len() - k,
    {
        let s = &sources[order[k]];
        let parent = match link_lookup(&links, &s.id) {
            Some(li) => Some(links[li].parent.clone()),
            None => None,
        };
        proof {
            lemma_scene_links_parent(ss, s.id@);
        }
        let depth = group_depth(&s.id, &links);
        let node = build_compositor_node(s, parent, depth);
        nodes.push(node);
        k = k + 1;
    }
    CompositorGraph {
        version: 1,
        scene_id: scene.id.clone(),
        scene_name: scene.name.clone(),
        output: CompositorOutput {
            width: scene.canvas.width,
            height: scene.canvas.height,
            background_color: scene.canvas.background_color.clone(),
        },
        nodes,
    }
}


// ---------------------------------------------------------------------------------
// Render plans

impl crate::text::DeepCopy for CompositorNode {
    fn deep_copy(&self) -> (r: CompositorNode) {
        CompositorNode {
            id: self.id.clone(),
            source_id: self.source_id.clone(),
            name: self.name.clone(),
            source_kind: self.source_kind,
            role: self.role,
            parent_source_id: crate::text::copy_opt_string(&self.parent_source_id),
            group_depth: self.group_depth,
            geometry: self.geometry,
            visible: self.visible,
            locked: self.locked,
            z_index: self.z_index,
            blend_mode: self.blend_mode,
            scale_mode: self.scale_mode,
            status: self.status,
            status_detail: self.status_detail.clone(),
        }
    }
}

/// Two graphs with the same header, output and nodes.
pub open spec fn same_graph(a: CompositorGraph, b: CompositorGraph) -> bool {
    &&& a.version == b.version
    &&& a.scene_id == b.scene_id
    &&& a.scene_name == b.scene_name
    &&& a.output == b.output
    &&& a.nodes@ == b.nodes@
}

impl CompositorGraph {
    /// A copy of the graph.
    pub fn copy(&self) -> (r: CompositorGraph)
        ensures
            same_graph(r, *self),
    {
        CompositorGraph {
            version: self.version,
            scene_id: self.scene_id.clone(),
            scene_name: self.scene_name.clone(),
            output: CompositorOutput {
                width: self.output.width,
                height: self.output.height,
                background_color: self.output.background_color.clone(),
            },
            nodes: crate::text::copy_vec(&self.nodes),
        }
    }
}

/// A render plan for the contract renderer over a copy of the graph.
pub fn build_compositor_render_plan(graph: &CompositorGraph, targets: Vec<CompositorRenderTarget>) -> (r:
    CompositorRenderPlan)
    ensures
        r.version == 1,
        r.renderer == CompositorRendererKind::Contract,
        same_graph(r.graph, *graph),
        r.targets == targets,
{
    CompositorRenderPlan {
        version: 1,
        renderer: CompositorRendererKind::Contract,
        graph: graph.copy(),
        targets,
    }
}

pub open spec fn target_id_seen(ts: Seq<CompositorRenderTarget>, i: int) -> bool {
    exists|j: int| 0 <= j < i && (#[trigger] ts[j]).id@ == ts[i].id@
}

pub open spec fn target_errors(ts: Seq<CompositorRenderTarget>, i: int) -> Seq<Seq<char>> {
    let t = ts[i];
    let id = t.id@;
    if_msg(target_id_seen(ts, i), "duplicate compositor render target id \""@ + id + "\""@)
        + if_msg(blank(id), "compositor render target id is required"@)
        + if_msg(blank(t.name@), "compositor render target \""@ + id + "\" name is required"@)
        + if_msg(t.width == 0 || t.height == 0,
            "compositor render target \""@ + id + "\" dimensions must be greater than zero"@)
        + if_msg(t.framerate == 0, "compositor render target \""@ + id + "\" framerate must be greater than zero"@)
}

pub open spec fn all_target_errors(ts: Seq<CompositorRenderTarget>, k: int) -> Seq<Seq<char>>
    decreases k,
{
    if k <= 0 {
        seq![]
    } else {
        all_target_errors(ts, k - 1) + target_errors(ts, k - 1)
    }
}

pub open spec fn enabled_target_count(ts: Seq<CompositorRenderTarget>) -> nat
    decreases ts.len(),
{
    if ts.len() == 0 {
        0
    } else {
        enabled_target_count(ts.drop_last()) + if ts.last().enabled { 1nat } else { 0nat }
    }
}

pub open spec fn has_enabled_program(ts: Seq<CompositorRenderTarget>) -> bool {
    exists|i: int| 0 <= i < ts.len() && (#[trigger] ts[i]).enabled && ts[i].kind == CompositorRenderTargetKind::Program
}

/// The errors that `validate_compositor_render_plan` reports, in order.
pub open spec fn plan_errors(p: CompositorRenderPlan) -> Seq<Seq<char>> {
    graph_errors(p.graph)
        + if_msg(p.version == 0, "compositor render plan version must be greater than zero"@)
        + if_msg(p.targets@.len() == 0, "compositor render plan must contain at least one target"@)
        + if_msg(enabled_target_count(p.targets@) == 0, "compositor render plan must contain at least one enabled target"@)
        + all_target_errors(p.targets@, p.targets@.len() as int)
}

/// The warnings that `validate_compositor_render_plan` reports, in order.
pub open spec fn plan_warnings(p: CompositorRenderPlan) -> Seq<Seq<char>> {
    graph_warnings(p.graph) + if_msg(!has_enabled_program(p.targets@), "compositor render plan has no enabled program target"@)
}

fn target_id_seen_exec(ts: &Vec<CompositorRenderTarget>, i: usize) -> (r: bool)
    requires
        i < ts@.len(),
    ensures
        r == target_id_seen(ts@, i as int),
{
    let mut j: usize = 0;
    while j < i
        invariant
            i < ts@.len(),
            j <= i,
            forall|k: int| 0 <= k < j ==> (#[trigger] ts@[k]).id@ != ts@[i as int].id@,
        decreases i - j,
    {
        if ts[j].id == ts[i].id {
            return true;
        }
        j = j + 1;
    }
    false
}

#[verifier::rlimit(50)]
fn target_errors_exec(ts: &Vec<CompositorRenderTarget>, i: usize, errors: &mut Vec<String>)
    requires
        i < ts@.len(),
    ensures
        views(final(errors)@) == views(old(errors)@) + target_errors(ts@, i as int),
{
    let t = &ts[i];
    let id = t.id.as_str();
    push_if(errors, target_id_seen_exec(ts, i), quoted("duplicate compositor render target id \"", id, "\""));
    push_if(errors, is_blank(id), String::from_str("compositor render target id is required"));
    push_if(errors, is_blank(t.name.as_str()), quoted("compositor render target \"", id, "\" name is required"));
    push_if(errors, t.width == 0 || t.height == 0,
        quoted("compositor render target \"", id, "\" dimensions must be greater than zero"));
    push_if(errors, t.framerate == 0, quoted("compositor render target \"", id, "\" framerate must be greater than zero"));
    assert(views(errors@) =~= views(old(errors)@) + target_errors(ts@, i as int));
}

fn count_enabled_targets(ts: &Vec<CompositorRenderTarget>) -> (r: usize)
    ensures
        r == enabled_target_count(ts@),
{
    let mut c: usize = 0;
    let mut i: usize = 0;
    while i < ts.len()
        invariant
            i <= ts@.len(),
            c == enabled_target_count(ts@.subrange(0, i as int)),
            c <= i,
        decreases ts@.len() - i,
    {
        assert(ts@.subrange(0, i + 1 as int).drop_last() =~= ts@.subrange(0, i as int));
        if ts[i].enabled {
            c = c + 1;
        }
        i = i + 1;
    }
    assert(ts@.subrange(0, ts@.len() as int) =~= ts@);
    c
}

fn has_enabled_program_exec(ts: &Vec<CompositorRenderTarget>) -> (r: bool)
    ensures
        r == has_enabled_program(ts@),
{
    let mut i: usize = 0;
    while i < ts.len()
        invariant
            i <= ts@.len(),
            forall|k: int| 0 <= k < i ==> !((#[trigger] ts@[k]).enabled && ts@[k].kind == CompositorRenderTargetKind::Program),
        decreases ts@.len() - i,
    {
        if ts[i].enabled && ts[i].kind == CompositorRenderTargetKind::Program {
            return true;
        }
        i = i + 1;
    }
    false
}

/// Checks a render plan: its graph, its version, that some target is enabled, and
/// each target's identity, name, dimensions and framerate; warns when no enabled
/// target is the program.
pub fn validate_compositor_render_plan(plan: &CompositorRenderPlan) -> (r: CompositorValidation)
    ensures
        views(r.errors@) == plan_errors(*plan),
        views(r.warnings@) == plan_warnings(*plan),
        r.ready == (r.errors@.len() == 0),
{
    let graph_validation = validate_compositor_graph(&plan.graph);
    let mut errors = graph_validation.errors;
    let mut warnings = graph_validation.warnings;
    let enabled = count_enabled_targets(&plan.targets);
    push_if(&mut errors, plan.version == 0, String::from_str("compositor render plan version must be greater than zero"));
    push_if(&mut errors, plan.targets.len() == 0, String::from_str("compositor render plan must contain at least one target"));
    push_if(&mut errors, enabled == 0, String::from_str("compositor render plan must contain at least one enabled target"));
    push_if(&mut warnings, !has_enabled_program_exec(&plan.targets),
        String::from_str("compositor render plan has no enabled program target"));
    let ghost head = views(errors@);
    let ts = &plan.targets;
    let mut i: usize = 0;
    while i < ts.len()
        invariant
            ts == &plan.targets,
            i <= ts@.len(),
            views(errors@) == head + all_target_errors(ts@, i as int),
        decreases ts@.len() - i,
    {
        target_errors_exec(ts, i, &mut errors);
        i = i + 1;
        assert(views(errors@) =~= head + all_target_errors(ts@, i as int));
    }
    assert(views(errors@) =~= plan_errors(*plan));
    let ready = errors.len() == 0;
    CompositorValidation { ready, warnings, errors }
}

// ---------------------------------------------------------------------------------
// The frame clock

/// The framerate of the first enabled target, if any.
pub open spec fn first_enabled_framerate(ts: Seq<CompositorRenderTarget>) -> Option<u32>
    decreases ts.len(),
{
    if ts.len() == 0 {
        None
    } else if ts[0].enabled {
        Some(ts[0].framerate)
    } else {
        first_enabled_framerate(ts.drop_first())
    }
}

/// The clock of a frame: the plan runs at the framerate of its first enabled target,
/// or 60; a frame lasts a second divided by that rate (at least one), and starts at
/// its index times that duration, saturating.
pub open spec fn frame_clock_spec(ts: Seq<CompositorRenderTarget>, frame_index: u64) -> CompositorFrameClock {
    let framerate: u32 = match first_enabled_framerate(ts) {
        Some(f) => f,
        None => 60,
    };
    let duration = (1_000_000_000int / (if framerate == 0 { 1int } else { framerate as int })) as u64;
    let pts = if frame_index * duration > u64::MAX { u64::MAX } else { (frame_index * duration) as u64 };
    CompositorFrameClock { frame_index, framerate, pts_nanos: pts, duration_nanos: duration }
}

/// The clock of frame `frame_index` of a plan with these targets.
pub fn compositor_frame_clock(targets: &Vec<CompositorRenderTarget>, frame_index: u64) -> (r: CompositorFrameClock)
    ensures
        r == frame_clock_spec(targets@, frame_index),
{
    let mut framerate: u32 = 60;
    let mut i: usize = 0;
    assert(targets@.skip(0) =~= targets@);
    while i < targets.len()
        invariant_except_break
            i <= targets@.len(),
            framerate == 60,
            first_enabled_framerate(targets@) == first_enabled_framerate(targets@.skip(i as int)),
        ensures
            framerate == (match first_enabled_framerate(targets@) {
                Some(f) => f,
                None => 60,
            }),
        decreases targets@.len() - i,
    {
        assert(targets@.skip(i as int).drop_first() =~= targets@.skip(i + 1));
        if targets[i].enabled {
            framerate = targets[i].framerate;
            break;
        }
        i = i + 1;
        proof {
            if i == targets@.len() {
                assert(targets@.skip(i as int).len() == 0);
            }
        }
    }
    let divisor: u64 = if framerate == 0 { 1 } else { framerate as u64 };
    let duration_nanos: u64 = 1_000_000_000u64 / divisor;
    let pts_nanos: u64 = match frame_index.checked_mul(duration_nanos) {
        Some(p) => p,
        None => u64::MAX,
    };
    CompositorFrameClock { frame_index, framerate, pts_nanos, duration_nanos }
}

} // verus!
