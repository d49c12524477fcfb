//! What the router knows of a page: its elements, its readiness, and what
//! interferes with automation.

use vstd::prelude::*;
use crate::text;

verus! {

/// The HTML attributes of an element, the later of two with one name winning.
#[derive(Debug)]
pub struct Attributes {
    pub entries: Vec<(String, String)>,
}

pub open spec fn attributes_model(s: Seq<(String, String)>) -> Map<Seq<char>, Seq<char>>
    decreases s.len(),
{
    if s.len() == 0 {
        Map::empty()
    } else {
        attributes_model(s.drop_last()).insert(s.last().0@, s.last().1@)
    }
}

impl View for Attributes {
    type V = Map<Seq<char>, Seq<char>>;

    open spec fn view(&self) -> Map<Seq<char>, Seq<char>> {
        attributes_model(self.entries@)
    }
}

proof fn attributes_model_skips(s: Seq<(String, String)>, n: int, key: Seq<char>)
    requires
        0 <= n <= s.len(),
        forall|j: int| n <= j < s.len() ==> (#[trigger] s[j]).0@ != key,
    ensures
        attributes_model(s).get(key) == attributes_model(s.take(n)).get(key),
    decreases s.len(),
{
    if n < s.len() {
        assert(s.drop_last().take(n) =~= s.take(n));
        assert forall|j: int| n <= j < s.drop_last().len() implies (#[trigger] s.drop_last()[j]).0@
            != key by {
            assert(s.drop_last()[j] == s[j]);
        }
        attributes_model_skips(s.drop_last(), n, key);
        assert(s[s.len() - 1].0@ != key);
    } else {
        assert(s.take(n) =~= s);
    }
}

impl Clone for Attributes {
    fn clone(&self) -> (r: Attributes)
        ensures
            r@ == self@,
    {
        let mut entries: Vec<(String, String)> = Vec::new();
        let mut i: usize = 0;
        while i < self.entries.len()
            invariant
                i <= self.entries@.len(),
                entries@ == self.entries@.take(i as int),
            decreases self.entries@.len() - i,
        {
            let entry = &self.entries[i];
            let name = entry.0.clone();
            let value = entry.1.clone();
            entries.push((name, value));
            i += 1;
        }
        assert(entries@ =~= self.entries@);
        Attributes { entries }
    }
}

impl Attributes {
    pub fn new() -> (r: Attributes)
        ensures
            r@ == Map::<Seq<char>, Seq<char>>::empty(),
    {
        Attributes { entries: Vec::new() }
    }

    /// The attributes with `name` set to `value`.
    pub fn with(self, name: &str, value: &str) -> (r: Attributes)
        ensures
            r@ == self@.insert(name@, value@),
    {
        let mut entries = self.entries;
        let ghost before = entries@;
        entries.push((name.to_owned(), value.to_owned()));
        assert(entries@.drop_last() =~= before);
        Attributes { entries }
    }

    /// The value of the attribute `name`.
    pub fn get(&self, name: &str) -> (r: Option<&str>)
        ensures
            crate::json::opt_str_text(r) == self@.get(name@),
    {
        let mut i: usize = self.entries.len();
        while i > 0
            invariant
                i <= self.entries@.len(),
                forall|j: int|
                    i <= j < self.entries@.len() ==> (#[trigger] self.entries@[j]).0@ != name@,
            decreases i,
        {
            i -= 1;
            if text::str_eq(self.entries[i].0.as_str(), name) {
                proof {
                    let s = self.entries@;
                    attributes_model_skips(s, i + 1, name@);
                    assert(s.take(i + 1).drop_last() =~= s.take(i as int));
                    assert(s.take(i + 1).last() == s[i as int]);
                }
                return Some(self.entries[i].1.as_str());
            }
        }
        proof {
            attributes_model_skips(self.entries@, 0, name@);
            assert(self.entries@.take(0) =~= seq![]);
        }
        None
    }

    /// Whether there is an attribute `name`.
    pub fn contains_key(&self, name: &str) -> (r: bool)
        ensures
            r == self@.dom().contains(name@),
    {
        self.get(name).is_some()
    }
}

/// The kinds of interactive elements.
#[derive(Clone, Copy, Debug, PartialEq, Eq, Structural)]
pub enum ElementTag {
    Button,
    Link,
    Input,
    TextArea,
    Select,
    Checkbox,
    Radio,
    Option,
    Other,
}

/// Where an element is drawn, each number as JSON spells it.
#[derive(Debug)]
pub struct BoundingBox {
    pub x: String,
    pub y: String,
    pub width: String,
    pub height: String,
}

/// Where an element is drawn, over texts.
#[verifier::ext_equal]
pub struct BoxModel {
    pub x: Seq<char>,
    pub y: Seq<char>,
    pub width: Seq<char>,
    pub height: Seq<char>,
}

impl View for BoundingBox {
    type V = BoxModel;

    open spec fn view(&self) -> BoxModel {
        BoxModel { x: self.x@, y: self.y@, width: self.width@, height: self.height@ }
    }
}

impl Clone for BoundingBox {
    fn clone(&self) -> (r: BoundingBox)
        ensures
            r@ == self@,
    {
        BoundingBox {
            x: self.x.clone(),
            y: self.y.clone(),
            width: self.width.clone(),
            height: self.height.clone(),
        }
    }
}

/// What the accessibility tree says of an element.
#[derive(Debug)]
pub struct AXInfo {
    pub role: Option<String>,
    pub accessible_name: Option<String>,
    pub accessible_description: Option<String>,
}

/// What the accessibility tree says of an element, over texts.
#[verifier::ext_equal]
pub struct AXModel {
    pub role: Option<Seq<char>>,
    pub accessible_name: Option<Seq<char>>,
    pub accessible_description: Option<Seq<char>>,
}

impl View for AXInfo {
    type V = AXModel;

    open spec fn view(&self) -> AXModel {
        AXModel {
            role: text::opt_text(self.role),
            accessible_name: text::opt_text(self.accessible_name),
            accessible_description: text::opt_text(self.accessible_description),
        }
    }
}

impl Clone for AXInfo {
    fn clone(&self) -> (r: AXInfo)
        ensures
            r@ == self@,
    {
        AXInfo {
            role: text::clone_opt(&self.role),
            accessible_name: text::clone_opt(&self.accessible_name),
            accessible_description: text::clone_opt(&self.accessible_description),
        }
    }
}

/// An element of a snapshot.
#[derive(Debug)]
pub struct Element {
    pub index: u32,
    pub tag: ElementTag,
    pub text: String,
    pub attributes: Attributes,
    pub element_ref: Option<String>,
    pub target_id: Option<String>,
    pub bounding_box: Option<BoundingBox>,
    pub ax_info: Option<AXInfo>,
    pub listeners: Option<Vec<String>>,
    pub depth: Option<u32>,
}

/// What an element is.
#[verifier::ext_equal]
pub struct ElementModel {
    pub index: u32,
    pub tag: ElementTag,
    pub text: Seq<char>,
    pub attributes: Map<Seq<char>, Seq<char>>,
    pub element_ref: Option<Seq<char>>,
    pub target_id: Option<Seq<char>>,
    pub bounding_box: Option<BoxModel>,
    pub ax_info: Option<AXModel>,
    pub listeners: Option<Seq<Seq<char>>>,
    pub depth: Option<u32>,
}

pub open spec fn opt_box(o: Option<BoundingBox>) -> Option<BoxModel> {
    match o {
        Some(b) => Some(b@),
        None => None,
    }
}

pub open spec fn opt_ax(o: Option<AXInfo>) -> Option<AXModel> {
    match o {
        Some(a) => Some(a@),
        None => None,
    }
}

pub open spec fn opt_texts(o: Option<Vec<String>>) -> Option<Seq<Seq<char>>> {
    match o {
        Some(v) => Some(text::texts(v@)),
        None => None,
    }
}

impl View for Element {
    type V = ElementModel;

    open spec fn view(&self) -> ElementModel {
        ElementModel {
            index: self.index,
            tag: self.tag,
            text: self.text@,
            attributes: self.attributes@,
            element_ref: text::opt_text(self.element_ref),
            target_id: text::opt_text(self.target_id),
            bounding_box: opt_box(self.bounding_box),
            ax_info: opt_ax(self.ax_info),
            listeners: opt_texts(self.listeners),
            depth: self.depth,
        }
    }
}

impl Clone for Element {
    fn clone(&self) -> (r: Element)
        ensures
            r@ == self@,
    {
        Element {
            index: self.index,
            tag: self.tag,
            text: self.text.clone(),
            attributes: self.attributes.clone(),
            element_ref: text::clone_opt(&self.element_ref),
            target_id: text::clone_opt(&self.target_id),
            bounding_box: match &self.bounding_box {
                Some(b) => Some(b.clone()),
                None => None,
            },
            ax_info: match &self.ax_info {
                Some(a) => Some(a.clone()),
                None => None,
            },
            listeners: match &self.listeners {
                Some(v) => Some(text::clone_texts(v)),
                None => None,
            },
            depth: self.depth,
        }
    }
}

/// What the elements of a list are.
pub open spec fn element_models(v: Seq<Element>) -> Seq<ElementModel> {
    v.map_values(|e: Element| e@)
}

#[derive(Clone, Copy, Debug, PartialEq, Eq, Structural)]
pub enum ReadinessStatus {
    Inactive,
    Active,
    Degraded,
}

#[derive(Clone, Copy, Debug, PartialEq, Eq, Structural)]
pub enum RouteStability {
    Unknown,
    Stable,
    Transitioning,
}

#[derive(Clone, Copy, Debug, PartialEq, Eq, Structural)]
pub enum OverlayState {
    Absent,
    Development,
    UserBlocking,
}

/// How far a page is from being ready for interaction.
#[derive(Debug)]
pub struct ReadinessInfo {
    pub status: ReadinessStatus,
    pub route_stability: RouteStability,
    pub loading_present: bool,
    pub skeleton_present: bool,
    pub overlay_state: OverlayState,
    pub document_ready_state: Option<String>,
    pub blocking_signals: Vec<String>,
    pub degraded_reason: Option<String>,
}

/// What a readiness report says.
#[verifier::ext_equal]
pub struct ReadinessModel {
    pub status: ReadinessStatus,
    pub route_stability: RouteStability,
    pub loading_present: bool,
    pub skeleton_present: bool,
    pub overlay_state: OverlayState,
    pub document_ready_state: Option<Seq<char>>,
    pub blocking_signals: Seq<Seq<char>>,
    pub degraded_reason: Option<Seq<char>>,
}

impl View for ReadinessInfo {
    type V = ReadinessModel;

    open spec fn view(&self) -> ReadinessModel {
        ReadinessModel {
            status: self.status,
            route_stability: self.route_stability,
            loading_present: self.loading_present,
            skeleton_present: self.skeleton_present,
            overlay_state: self.overlay_state,
            document_ready_state: text::opt_text(self.document_ready_state),
            blocking_signals: text::texts(self.blocking_signals@),
            degraded_reason: text::opt_text(self.degraded_reason),
        }
    }
}

/// The report before anything was observed.
pub open spec fn initial_readiness() -> ReadinessModel {
    ReadinessModel {
        status: ReadinessStatus::Inactive,
        route_stability: RouteStability::Unknown,
        loading_present: false,
        skeleton_present: false,
        overlay_state: OverlayState::Absent,
        document_ready_state: None,
        blocking_signals: seq![],
        degraded_reason: None,
    }
}

impl Default for ReadinessInfo {
    fn default() -> (r: ReadinessInfo)
        ensures
            r@ == initial_readiness(),
    {
        ReadinessInfo {
            status: ReadinessStatus::Inactive,
            route_stability: RouteStability::Unknown,
            loading_present: false,
            skeleton_present: false,
            overlay_state: OverlayState::Absent,
            document_ready_state: None,
            blocking_signals: Vec::new(),
            degraded_reason: None,
        }
    }
}

impl Clone for ReadinessInfo {
    fn clone(&self) -> (r: ReadinessInfo)
        ensures
            r@ == self@,
    {
        ReadinessInfo {
            status: self.status,
            route_stability: self.route_stability,
            loading_present: self.loading_present,
            skeleton_present: self.skeleton_present,
            overlay_state: self.overlay_state,
            document_ready_state: text::clone_opt(&self.document_ready_state),
            blocking_signals: text::clone_texts(&self.blocking_signals),
            degraded_reason: text::clone_opt(&self.degraded_reason),
        }
    }
}

#[derive(Clone, Copy, Debug, PartialEq, Eq, Structural)]
pub enum InterferenceKind {
    InterstitialNavigation,
    PopupHijack,
    OverlayInterference,
    ThirdPartyNoise,
    HumanVerificationRequired,
    UnknownNavigationDrift,
}

#[derive(Clone, Copy, Debug, PartialEq, Eq, Structural)]
pub enum InterferenceRuntimeStatus {
    Inactive,
    Active,
    Degraded,
}

#[derive(Clone, Copy, Debug, PartialEq, Eq, Structural)]
pub enum InterferenceMode {
    Normal,
    PublicWebStable,
    Strict,
}

/// Something that keeps automation from its page.
#[derive(Debug)]
pub struct InterferenceObservation {
    pub kind: InterferenceKind,
    pub summary: String,
    pub current_url: Option<String>,
    pub primary_url: Option<String>,
}

/// What currently interferes with automation.
#[derive(Debug)]
pub struct InterferenceRuntimeInfo {
    pub mode: InterferenceMode,
    pub status: InterferenceRuntimeStatus,
    pub current_interference: Option<InterferenceObservation>,
    pub active_policies: Vec<String>,
    pub handoff_required: bool,
    pub degraded_reason: Option<String>,
}

impl Default for InterferenceRuntimeInfo {
    fn default() -> (r: InterferenceRuntimeInfo)
        ensures
            r.mode == InterferenceMode::Normal,
            r.status == InterferenceRuntimeStatus::Inactive,
            r.current_interference is None,
            r.active_policies@ == Seq::<String>::empty(),
            !r.handoff_required,
            r.degraded_reason is None,
    {
        InterferenceRuntimeInfo {
            mode: InterferenceMode::Normal,
            status: InterferenceRuntimeStatus::Inactive,
            current_interference: None,
            active_policies: Vec::new(),
            handoff_required: false,
            degraded_reason: None,
        }
    }
}

/// A frame of a page.
#[derive(Debug)]
pub struct FrameContextInfo {
    pub frame_id: String,
    pub name: Option<String>,
    pub parent_frame_id: Option<String>,
    pub target_id: Option<String>,
    pub url: Option<String>,
    pub depth: u32,
    pub same_origin_accessible: Option<bool>,
}

/// How far a page is scrolled, each number as JSON spells it.
#[derive(Debug)]
pub struct ScrollPosition {
    pub x: String,
    pub y: String,
    pub at_bottom: bool,
}

/// How the elements of a snapshot were gathered.
#[derive(Debug)]
pub struct SnapshotProjection {
    pub verified: bool,
    pub js_traversal_count: u32,
    pub backend_traversal_count: u32,
    pub resolved_ref_count: u32,
    pub warning: Option<String>,
}

/// A page at one moment.
#[derive(Debug)]
pub struct Snapshot {
    pub snapshot_id: String,
    pub dom_epoch: u64,
    pub frame_context: FrameContextInfo,
    pub frame_lineage: Vec<String>,
    pub url: String,
    pub title: String,
    pub elements: Vec<Element>,
    pub total_count: u32,
    pub truncated: bool,
    pub scroll: ScrollPosition,
    pub timestamp: String,
    pub projection: SnapshotProjection,
    pub viewport_filtered: Option<bool>,
    pub viewport_count: Option<u32>,
}

/// Before anything was observed nothing stands in the way, and nothing is known.
pub proof fn readiness_starts_inactive()
    ensures
        ({
            let r = initial_readiness();
            &&& r.status == ReadinessStatus::Inactive
            &&& r.route_stability == RouteStability::Unknown
            &&& !r.loading_present && !r.skeleton_present
            &&& r.overlay_state == OverlayState::Absent
            &&& r.document_ready_state is None && r.degraded_reason is None
            &&& r.blocking_signals.len() == 0
        }),
{
}

} // verus!
