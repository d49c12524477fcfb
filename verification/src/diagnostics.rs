//! What in the browser's launch policy a web site could detect.

use vstd::prelude::*;
use crate::text;

verus! {

#[derive(Clone, Copy, Debug, PartialEq, Eq, Structural)]
pub enum IdentityProbeStatus {
    Passed,
    Failed,
    Unknown,
}

/// The outcome of the browser's own identity probes.
#[derive(Debug)]
pub struct IdentitySelfProbe {
    pub page_main_world: Option<IdentityProbeStatus>,
    pub iframe_context: Option<IdentityProbeStatus>,
    pub worker_context: Option<IdentityProbeStatus>,
    pub ua_consistency: Option<IdentityProbeStatus>,
    pub webgl_surface: Option<IdentityProbeStatus>,
    pub canvas_surface: Option<IdentityProbeStatus>,
    pub audio_surface: Option<IdentityProbeStatus>,
    pub permissions_surface: Option<IdentityProbeStatus>,
    pub viewport_surface: Option<IdentityProbeStatus>,
    pub touch_surface: Option<IdentityProbeStatus>,
    pub window_metrics_surface: Option<IdentityProbeStatus>,
    pub unsupported_surfaces: Vec<String>,
}

/// How far the stealth patches were installed.
#[derive(Debug)]
pub struct StealthCoverage {
    pub page_hook_failures: Option<u32>,
    pub worker_targets_detected: Option<u32>,
    pub service_worker_targets_detected: Option<u32>,
    pub user_agent_metadata_override: Option<bool>,
    pub self_probe: Option<IdentitySelfProbe>,
}

/// How the browser was launched.
#[derive(Debug)]
pub struct LaunchPolicyInfo {
    pub headless: bool,
    pub stealth_default_enabled: Option<bool>,
    pub user_data_dir: Option<String>,
    pub stealth_coverage: Option<StealthCoverage>,
}

/// Something that a site can detect, and what to do about it.
#[derive(Clone, Copy, Debug)]
pub struct DetectionRisk<'a> {
    pub risk: &'a str,
    pub severity: &'a str,
    pub mitigation: &'a str,
}

/// `risks`, with `risk` at the end where `found` holds.
pub open spec fn risk_if<'a>(
    risks: Seq<DetectionRisk<'a>>,
    found: bool,
    risk: DetectionRisk<'a>,
) -> Seq<DetectionRisk<'a>> {
    if found {
        risks.push(risk)
    } else {
        risks
    }
}

/// A probe that did not vouch for its surface.
pub open spec fn unverified(status: Option<IdentityProbeStatus>) -> bool {
    status == Some(IdentityProbeStatus::Failed) || status == Some(IdentityProbeStatus::Unknown)
}

pub open spec fn positive(count: Option<u32>) -> bool {
    count is Some && count->0 > 0
}

pub open spec fn lists(surfaces: Seq<String>, name: Seq<char>) -> bool {
    exists|i: int| 0 <= i < surfaces.len() && (#[trigger] surfaces[i])@ == name
}

/// The risks of the launch options themselves.
pub open spec fn launch_risks(p: LaunchPolicyInfo) -> Seq<DetectionRisk<'static>> {
    let r = risk_if(
        seq![],
        p.headless,
        DetectionRisk {
            risk: "headless_mode",
            severity: "medium",
            mitigation: "Use --headed for sites with strict headless detection",
        },
    );
    let r = risk_if(
        r,
        p.stealth_default_enabled == Some(false),
        DetectionRisk {
            risk: "stealth_disabled",
            severity: "high",
            mitigation: "Re-enable the default stealth baseline or omit --no-stealth",
        },
    );
    risk_if(
        r,
        p.user_data_dir is None,
        DetectionRisk {
            risk: "no_user_data_dir",
            severity: "low",
            mitigation: "Use --profile or --user-data-dir for a persistent browser profile",
        },
    )
}

/// `risks` followed by those of the page, frame, worker and user-agent probes.
pub open spec fn context_risks(
    risks: Seq<DetectionRisk<'static>>,
    headless: bool,
    coverage: StealthCoverage,
    probe: IdentitySelfProbe,
) -> Seq<DetectionRisk<'static>> {
    let r = risk_if(
        risks,
        probe.page_main_world == Some(IdentityProbeStatus::Failed),
        DetectionRisk {
            risk: "page_identity_probe_failed",
            severity: "high",
            mitigation: "Inspect doctor.launch_policy.stealth_coverage.self_probe.page_main_world and the active stealth patch set",
        },
    );
    let r = risk_if(
        r,
        probe.iframe_context == Some(IdentityProbeStatus::Failed),
        DetectionRisk {
            risk: "iframe_context_unverified",
            severity: "medium",
            mitigation: "Inspect doctor.launch_policy.stealth_coverage.self_probe.iframe_context for iframe identity drift",
        },
    );
    let r = risk_if(
        r,
        unverified(probe.worker_context) && positive(coverage.worker_targets_detected),
        DetectionRisk {
            risk: "worker_context_unverified",
            severity: "medium",
            mitigation: "Inspect doctor.launch_policy.stealth_coverage.self_probe.worker_context for worker identity drift",
        },
    );
    risk_if(
        r,
        headless && unverified(probe.ua_consistency),
        DetectionRisk {
            risk: "ua_consistency_unverified",
            severity: "medium",
            mitigation: "Inspect doctor.launch_policy.stealth_coverage.self_probe.ua_consistency and userAgentMetadata override coverage",
        },
    )
}

/// `risks` followed by those of the fingerprint surfaces.
pub open spec fn surface_risks(
    risks: Seq<DetectionRisk<'static>>,
    coverage: StealthCoverage,
    probe: IdentitySelfProbe,
) -> Seq<DetectionRisk<'static>> {
    let r = risk_if(
        risks,
        unverified(probe.webgl_surface),
        DetectionRisk {
            risk: "webgl_surface_unverified",
            severity: "medium",
            mitigation: "Inspect doctor.launch_policy.stealth_coverage.self_probe.webgl_surface and the active fingerprint profile",
        },
    );
    let r = risk_if(
        r,
        unverified(probe.canvas_surface),
        DetectionRisk {
            risk: "canvas_surface_unverified",
            severity: "medium",
            mitigation: "Inspect doctor.launch_policy.stealth_coverage.self_probe.canvas_surface and the active fingerprint profile",
        },
    );
    let r = risk_if(
        r,
        unverified(probe.audio_surface),
        DetectionRisk {
            risk: "audio_surface_unverified",
            severity: "medium",
            mitigation: "Inspect doctor.launch_policy.stealth_coverage.self_probe.audio_surface and the active fingerprint profile",
        },
    );
    let r = risk_if(
        r,
        unverified(probe.permissions_surface),
        DetectionRisk {
            risk: "permissions_surface_unverified",
            severity: "medium",
            mitigation: "Inspect doctor.launch_policy.stealth_coverage.self_probe.permissions_surface and the active stealth function-cloaking patches",
        },
    );
    let r = risk_if(
        r,
        unverified(probe.viewport_surface),
        DetectionRisk {
            risk: "viewport_surface_unverified",
            severity: "medium",
            mitigation: "Inspect doctor.launch_policy.stealth_coverage.self_probe.viewport_surface and the active environment profile",
        },
    );
    let r = risk_if(
        r,
        unverified(probe.touch_surface),
        DetectionRisk {
            risk: "touch_surface_unverified",
            severity: "medium",
            mitigation: "Inspect doctor.launch_policy.stealth_coverage.self_probe.touch_surface and the active environment profile",
        },
    );
    let r = risk_if(
        r,
        unverified(probe.window_metrics_surface),
        DetectionRisk {
            risk: "window_metrics_surface_unverified",
            severity: "medium",
            mitigation: "Inspect doctor.launch_policy.stealth_coverage.self_probe.window_metrics_surface and the active environment profile",
        },
    );
    risk_if(
        r,
        lists(probe.unsupported_surfaces@, "service_worker"@) && positive(
            coverage.service_worker_targets_detected,
        ),
        DetectionRisk {
            risk: "service_worker_unverified",
            severity: "medium",
            mitigation: "Service worker targets were detected, but the current identity runtime does not yet self-probe that surface",
        },
    )
}

/// The risks of a launch policy, in the order in which they are reported.
pub open spec fn risks_of(p: LaunchPolicyInfo) -> Seq<DetectionRisk<'static>> {
    let launch = launch_risks(p);
    match p.stealth_coverage {
        None => launch,
        Some(coverage) => {
            let r = risk_if(
                launch,
                positive(coverage.page_hook_failures),
                DetectionRisk {
                    risk: "stealth_patch_partial",
                    severity: "medium",
                    mitigation: "Inspect doctor.launch_policy.stealth_coverage for partial page-hook installation failures",
                },
            );
            match coverage.self_probe {
                Some(probe) => surface_risks(
                    context_risks(r, p.headless, coverage, probe),
                    coverage,
                    probe,
                ),
                None => risk_if(
                    r,
                    p.headless && coverage.user_agent_metadata_override != Some(true),
                    DetectionRisk {
                        risk: "ua_metadata_unverified",
                        severity: "medium",
                        mitigation: "Apply protocol-level userAgentMetadata override so UA Client Hints match the cleaned User-Agent",
                    },
                ),
            }
        },
    }
}

fn is_failed(status: Option<IdentityProbeStatus>) -> (r: bool)
    ensures
        r == (status == Some(IdentityProbeStatus::Failed)),
{
    matches!(status, Some(IdentityProbeStatus::Failed))
}

fn is_unverified(status: Option<IdentityProbeStatus>) -> (r: bool)
    ensures
        r == unverified(status),
{
    matches!(status, Some(IdentityProbeStatus::Failed) | Some(IdentityProbeStatus::Unknown))
}

fn is_positive(count: Option<u32>) -> (r: bool)
    ensures
        r == positive(count),
{
    match count {
        Some(n) => n > 0,
        None => false,
    }
}

fn lists_surface(surfaces: &Vec<String>, name: &str) -> (r: bool)
    ensures
        r == lists(surfaces@, name@),
{
    let mut i: usize = 0;
    while i < surfaces.len()
        invariant
            i <= surfaces@.len(),
            forall|j: int| 0 <= j < i ==> (#[trigger] surfaces@[j])@ != name@,
        decreases surfaces@.len() - i,
    {
        if text::str_eq(surfaces[i].as_str(), name) {
            return true;
        }
        i += 1;
    }
    false
}

fn push_risk_if(
    risks: &mut Vec<DetectionRisk<'static>>,
    found: bool,
    risk: DetectionRisk<'static>,
)
    ensures
        final(risks)@ == risk_if(old(risks)@, found, risk),
{
    if found {
        risks.push(risk);
    }
}

/// The capabilities that the daemon reports; it has all of them.
pub open spec fn capabilities() -> Seq<(&'static str, bool)> {
    seq![
        ("a11y_state", true),
        ("bootstrap_blank_tab_cleanup", true),
        ("launch_policy_report", true),
        ("non_blocking_wait", true),
        ("scoped_cookie_clear", true),
        ("startup_locking", true),
        ("highlight_screenshot", true),
        ("state_diff", true),
        ("viewport_filter", true),
        ("js_listener_detection", true),
        ("persistent_js_context", true),
        ("external_cdp_connect", true),
        ("profile_connect", true),
        ("batch_close", true),
        ("cookie_url_filter", true),
        ("env_session_selection", true),
        ("integration_runtime_projection", true),
        ("dialog_runtime_projection", true),
        ("frame_runtime_projection", true),
        ("network_rule_projection", true),
        ("runtime_observatory_projection", true),
        ("state_inspector_projection", true),
        ("readiness_projection", true),
        ("human_verification_handoff_projection", true),
        ("takeover_runtime_projection", true),
        ("orchestration_runtime_projection", true),
        ("trigger_runtime_projection", true),
        ("interference_runtime_projection", true),
        ("interference_recovery", true),
        ("download_runtime_projection", true),
        ("storage_runtime_projection", true),
    ]
}

fn push_context_risks(
    risks: &mut Vec<DetectionRisk<'static>>,
    headless: bool,
    coverage: &StealthCoverage,
    probe: &IdentitySelfProbe,
)
    ensures
        final(risks)@ == context_risks(old(risks)@, headless, *coverage, *probe),
{
    push_risk_if(
        risks,
        is_failed(probe.page_main_world),
        DetectionRisk {
            risk: "page_identity_probe_failed",
            severity: "high",
            mitigation: "Inspect doctor.launch_policy.stealth_coverage.self_probe.page_main_world and the active stealth patch set",
        },
    );
    push_risk_if(
        risks,
        is_failed(probe.iframe_context),
        DetectionRisk {
            risk: "iframe_context_unverified",
            severity: "medium",
            mitigation: "Inspect doctor.launch_policy.stealth_coverage.self_probe.iframe_context for iframe identity drift",
        },
    );
    push_risk_if(
        risks,
        is_unverified(probe.worker_context) && is_positive(coverage.worker_targets_detected),
        DetectionRisk {
            risk: "worker_context_unverified",
            severity: "medium",
            mitigation: "Inspect doctor.launch_policy.stealth_coverage.self_probe.worker_context for worker identity drift",
        },
    );
    push_risk_if(
        risks,
        headless && is_unverified(probe.ua_consistency),
        DetectionRisk {
            risk: "ua_consistency_unverified",
            severity: "medium",
            mitigation: "Inspect doctor.launch_policy.stealth_coverage.self_probe.ua_consistency and userAgentMetadata override coverage",
        },
    );
}

fn push_surface_risks(
    risks: &mut Vec<DetectionRisk<'static>>,
    coverage: &StealthCoverage,
    probe: &IdentitySelfProbe,
)
    ensures
        final(risks)@ == surface_risks(old(risks)@, *coverage, *probe),
{
    push_risk_if(
        risks,
        is_unverified(probe.webgl_surface),
        DetectionRisk {
            risk: "webgl_surface_unverified",
            severity: "medium",
            mitigation: "Inspect doctor.launch_policy.stealth_coverage.self_probe.webgl_surface and the active fingerprint profile",
        },
    );
    push_risk_if(
        risks,
        is_unverified(probe.canvas_surface),
        DetectionRisk {
            risk: "canvas_surface_unverified",
            severity: "medium",
            mitigation: "Inspect doctor.launch_policy.stealth_coverage.self_probe.canvas_surface and the active fingerprint profile",
        },
    );
    push_risk_if(
        risks,
        is_unverified(probe.audio_surface),
        DetectionRisk {
            risk: "audio_surface_unverified",
            severity: "medium",
            mitigation: "Inspect doctor.launch_policy.stealth_coverage.self_probe.audio_surface and the active fingerprint profile",
        },
    );
    push_risk_if(
        risks,
        is_unverified(probe.permissions_surface),
        DetectionRisk {
            risk: "permissions_surface_unverified",
            severity: "medium",
            mitigation: "Inspect doctor.launch_policy.stealth_coverage.self_probe.permissions_surface and the active stealth function-cloaking patches",
        },
    );
    push_risk_if(
        risks,
        is_unverified(probe.viewport_surface),
        DetectionRisk {
            risk: "viewport_surface_unverified",
            severity: "medium",
            mitigation: "Inspect doctor.launch_policy.stealth_coverage.self_probe.viewport_surface and the active environment profile",
        },
    );
    push_risk_if(
        risks,
        is_unverified(probe.touch_surface),
        DetectionRisk {
            risk: "touch_surface_unverified",
            severity: "medium",
            mitigation: "Inspect doctor.launch_policy.stealth_coverage.self_probe.touch_surface and the active environment profile",
        },
    );
    push_risk_if(
        risks,
        is_unverified(probe.window_metrics_surface),
        DetectionRisk {
            risk: "window_metrics_surface_unverified",
            severity: "medium",
            mitigation: "Inspect doctor.launch_policy.stealth_coverage.self_probe.window_metrics_surface and the active environment profile",
        },
    );
    push_risk_if(
        risks,
        lists_surface(&probe.unsupported_surfaces, "service_worker") && is_positive(
            coverage.service_worker_targets_detected,
        ),
        DetectionRisk {
            risk: "service_worker_unverified",
            severity: "medium",
            mitigation: "Service worker targets were detected, but the current identity runtime does not yet self-probe that surface",
        },
    );
}

/// The risks of a launch policy, in the order in which they are reported.
pub fn detection_risks(launch_policy: &LaunchPolicyInfo) -> (r: Vec<DetectionRisk<'static>>)
    ensures
        r@ == risks_of(*launch_policy),
{
    let mut risks: Vec<DetectionRisk<'static>> = Vec::new();
    push_risk_if(
        &mut risks,
        launch_policy.headless,
        DetectionRisk {
            risk: "headless_mode",
            severity: "medium",
            mitigation: "Use --headed for sites with strict headless detection",
        },
    );
    push_risk_if(
        &mut risks,
        matches!(launch_policy.stealth_default_enabled, Some(false)),
        DetectionRisk {
            risk: "stealth_disabled",
            severity: "high",
            mitigation: "Re-enable the default stealth baseline or omit --no-stealth",
        },
    );
    push_risk_if(
        &mut risks,
        launch_policy.user_data_dir.is_none(),
        DetectionRisk {
            risk: "no_user_data_dir",
            severity: "low",
            mitigation: "Use --profile or --user-data-dir for a persistent browser profile",
        },
    );
    if let Some(coverage) = &launch_policy.stealth_coverage {
        push_risk_if(
            &mut risks,
            is_positive(coverage.page_hook_failures),
            DetectionRisk {
                risk: "stealth_patch_partial",
                severity: "medium",
                mitigation: "Inspect doctor.launch_policy.stealth_coverage for partial page-hook installation failures",
            },
        );
        if let Some(probe) = &coverage.self_probe {
            push_context_risks(&mut risks, launch_policy.headless, coverage, probe);
            push_surface_risks(&mut risks, coverage, probe);
        } else {
            let overridden = matches!(coverage.user_agent_metadata_override, Some(true));
            push_risk_if(
                &mut risks,
                launch_policy.headless && !overridden,
                DetectionRisk {
                    risk: "ua_metadata_unverified",
                    severity: "medium",
                    mitigation: "Apply protocol-level userAgentMetadata override so UA Client Hints match the cleaned User-Agent",
                },
            );
        }
    }
    risks
}

/// What the daemon can do, each by its name.
pub fn agent_capabilities() -> (r: Vec<(&'static str, bool)>)
    ensures
        r@ == capabilities(),
{
    let r: Vec<(&'static str, bool)> = vec![
        ("a11y_state", true),
        ("bootstrap_blank_tab_cleanup", true),
        ("launch_policy_report", true),
        ("non_blocking_wait", true),
        ("scoped_cookie_clear", true),
        ("startup_locking", true),
        ("highlight_screenshot", true),
        ("state_diff", true),
        ("viewport_filter", true),
        ("js_listener_detection", true),
        ("persistent_js_context", true),
        ("external_cdp_connect", true),
        ("profile_connect", true),
        ("batch_close", true),
        ("cookie_url_filter", true),
        ("env_session_selection", true),
        ("integration_runtime_projection", true),
        ("dialog_runtime_projection", true),
        ("frame_runtime_projection", true),
        ("network_rule_projection", true),
        ("runtime_observatory_projection", true),
        ("state_inspector_projection", true),
        ("readiness_projection", true),
        ("human_verification_handoff_projection", true),
        ("takeover_runtime_projection", true),
        ("orchestration_runtime_projection", true),
        ("trigger_runtime_projection", true),
        ("interference_runtime_projection", true),
        ("interference_recovery", true),
        ("download_runtime_projection", true),
        ("storage_runtime_projection", true),
    ];
    assert(r@ =~= capabilities());
    r
}

/// Whether a risk of a name is among those that are reported.
pub open spec fn reported<'a>(risks: Seq<DetectionRisk<'a>>, name: Seq<char>) -> bool {
    exists|i: int| 0 <= i < risks.len() && (#[trigger] risks[i]).risk@ == name
}

proof fn reported_where_found(name: Seq<char>)
    ensures
        forall|risks: Seq<DetectionRisk<'static>>, found: bool, risk: DetectionRisk<'static>|
            #[trigger]
            reported(risk_if(risks, found, risk), name) <==> reported(risks, name) || (found
                && risk.risk@ == name),
        !reported(Seq::<DetectionRisk<'static>>::empty(), name),
{
    assert forall|risks: Seq<DetectionRisk<'static>>, found: bool, risk: DetectionRisk<'static>|
        #[trigger]
        reported(risk_if(risks, found, risk), name) <==> reported(risks, name) || (found
            && risk.risk@ == name) by {
        let all = risk_if(risks, found, risk);
        if reported(risks, name) {
            let i = choose|i: int| 0 <= i < risks.len() && (#[trigger] risks[i]).risk@ == name;
            assert(all[i] == risks[i]);
        }
        if found && risk.risk@ == name {
            assert(all[risks.len() as int] == risk);
        }
        if reported(all, name) {
            let i = choose|i: int| 0 <= i < all.len() && (#[trigger] all[i]).risk@ == name;
            if i < risks.len() {
                assert(risks[i] == all[i]);
            }
        }
    }
}

/// A risk is reported exactly where its own cause is found: each cause reports one risk, and
/// nothing is reported without its cause. Probes speak of their risks only where there is a
/// probe, and the metadata of the user agent only where there is none.
pub proof fn risks_are_reported_for_their_causes(p: LaunchPolicyInfo, name: Seq<char>)
    ensures
        ({
            let launch = (p.headless && name == "headless_mode"@) || (p.stealth_default_enabled
                == Some(false) && name == "stealth_disabled"@) || (p.user_data_dir is None && name
                == "no_user_data_dir"@);
            let r = reported(risks_of(p), name);
            &&& p.stealth_coverage is None ==> (r <==> launch)
            &&& p.stealth_coverage matches Some(c) ==> {
                let hooks = (c.page_hook_failures matches Some(n) && n > 0) && name
                    == "stealth_patch_partial"@;
                let off = |s: Option<IdentityProbeStatus>|
                    s == Some(IdentityProbeStatus::Failed) || s == Some(
                        IdentityProbeStatus::Unknown,
                    );
                match c.self_probe {
                    None => r <==> launch || hooks || (p.headless && c.user_agent_metadata_override
                        != Some(true) && name == "ua_metadata_unverified"@),
                    Some(probe) => r <==> launch || hooks || (probe.page_main_world == Some(
                        IdentityProbeStatus::Failed,
                    ) && name == "page_identity_probe_failed"@) || (probe.iframe_context == Some(
                        IdentityProbeStatus::Failed,
                    ) && name == "iframe_context_unverified"@) || (off(probe.worker_context) && (
                    c.worker_targets_detected matches Some(n) && n > 0) && name
                        == "worker_context_unverified"@) || (p.headless && off(probe.ua_consistency)
                        && name == "ua_consistency_unverified"@) || (off(probe.webgl_surface) && name
                        == "webgl_surface_unverified"@) || (off(probe.canvas_surface) && name
                        == "canvas_surface_unverified"@) || (off(probe.audio_surface) && name
                        == "audio_surface_unverified"@) || (off(probe.permissions_surface) && name
                        == "permissions_surface_unverified"@) || (off(probe.viewport_surface) && name
                        == "viewport_surface_unverified"@) || (off(probe.touch_surface) && name
                        == "touch_surface_unverified"@) || (off(probe.window_metrics_surface) && name
                        == "window_metrics_surface_unverified"@) || (lists(
                        probe.unsupported_surfaces@,
                        "service_worker"@,
                    ) && (c.service_worker_targets_detected matches Some(n) && n > 0) && name
                        == "service_worker_unverified"@),
                }
            }
        }),
{
    reported_where_found(name);
    launch_reports(p, name);
    if let Some(c) = p.stealth_coverage {
        if let Some(probe) = c.self_probe {
            let r = risk_if(
                launch_risks(p),
                positive(c.page_hook_failures),
                DetectionRisk {
                    risk: "stealth_patch_partial",
                    severity: "medium",
                    mitigation: "Inspect doctor.launch_policy.stealth_coverage for partial page-hook installation failures",
                },
            );
            context_reports(r, p.headless, c, probe, name);
            surface_reports(context_risks(r, p.headless, c, probe), c, probe, name);
        }
    }
}

proof fn launch_reports(p: LaunchPolicyInfo, name: Seq<char>)
    ensures
        reported(launch_risks(p), name) <==> (p.headless && name == "headless_mode"@) || (
        p.stealth_default_enabled == Some(false) && name == "stealth_disabled"@) || (p.user_data_dir
            is None && name == "no_user_data_dir"@),
{
    reported_where_found(name);
}

proof fn context_reports(
    risks: Seq<DetectionRisk<'static>>,
    headless: bool,
    coverage: StealthCoverage,
    probe: IdentitySelfProbe,
    name: Seq<char>,
)
    ensures
        reported(context_risks(risks, headless, coverage, probe), name) <==> reported(risks, name)
            || (probe.page_main_world == Some(IdentityProbeStatus::Failed) && name
            == "page_identity_probe_failed"@) || (probe.iframe_context == Some(
            IdentityProbeStatus::Failed,
        ) && name == "iframe_context_unverified"@) || (unverified(probe.worker_context) && positive(
            coverage.worker_targets_detected,
        ) && name == "worker_context_unverified"@) || (headless && unverified(probe.ua_consistency)
            && name == "ua_consistency_unverified"@),
{
    reported_where_found(name);
}

proof fn surface_reports(
    risks: Seq<DetectionRisk<'static>>,
    coverage: StealthCoverage,
    probe: IdentitySelfProbe,
    name: Seq<char>,
)
    ensures
        reported(surface_risks(risks, coverage, probe), name) <==> reported(risks, name) || (
        unverified(probe.webgl_surface) && name == "webgl_surface_unverified"@) || (unverified(
            probe.canvas_surface,
        ) && name == "canvas_surface_unverified"@) || (unverified(probe.audio_surface) && name
            == "audio_surface_unverified"@) || (unverified(probe.permissions_surface) && name
            == "permissions_surface_unverified"@) || (unverified(probe.viewport_surface) && name
            == "viewport_surface_unverified"@) || (unverified(probe.touch_surface) && name
            == "touch_surface_unverified"@) || (unverified(probe.window_metrics_surface) && name
            == "window_metrics_surface_unverified"@) || (lists(
            probe.unsupported_surfaces@,
            "service_worker"@,
        ) && positive(coverage.service_worker_targets_detected) && name
            == "service_worker_unverified"@),
{
    reported_where_found(name);
}

/// The daemon has every capability that it reports.
pub proof fn reported_capabilities_are_there(i: int)
    requires
        0 <= i < capabilities().len(),
    ensures
        capabilities()[i].1,
{
}

/// How grave a risk of a name is: high where the baseline is off or the page gives itself
/// away, low where only the profile is a fresh one, and else medium.
pub open spec fn grade(name: Seq<char>) -> Seq<char> {
    if name == "stealth_disabled"@ || name == "page_identity_probe_failed"@ {
        "high"@
    } else if name == "no_user_data_dir"@ {
        "low"@
    } else {
        "medium"@
    }
}

/// Whether every risk is as grave as its name says.
pub open spec fn graded<'a>(risks: Seq<DetectionRisk<'a>>) -> bool {
    forall|i: int|
        0 <= i < risks.len() ==> (#[trigger] risks[i]).severity@ == grade(risks[i].risk@)
}

/// Every risk that is reported is as grave as its cause.
pub proof fn risks_are_as_grave_as_their_causes(p: LaunchPolicyInfo)
    ensures
        graded(risks_of(p)),
{
    graded_where_found();
    launch_grades();
    launch_graded(p);
    if let Some(c) = p.stealth_coverage {
        let r = risk_if(
            launch_risks(p),
            positive(c.page_hook_failures),
            DetectionRisk {
                risk: "stealth_patch_partial",
                severity: "medium",
                mitigation: "Inspect doctor.launch_policy.stealth_coverage for partial page-hook installation failures",
            },
        );
        assert(graded(r));
        if let Some(probe) = c.self_probe {
            context_graded(r, p.headless, c, probe);
            surface_graded(context_risks(r, p.headless, c, probe), c, probe);
        }
    }
}

proof fn graded_where_found()
    ensures
        forall|risks: Seq<DetectionRisk<'static>>, found: bool, one: DetectionRisk<'static>|
            graded(risks) && one.severity@ == grade(one.risk@) ==> graded(
                #[trigger] risk_if(risks, found, one),
            ),
{
}

proof fn launch_graded(p: LaunchPolicyInfo)
    ensures
        graded(launch_risks(p)),
{
    graded_where_found();
    launch_grades();
}

proof fn context_graded(
    risks: Seq<DetectionRisk<'static>>,
    headless: bool,
    coverage: StealthCoverage,
    probe: IdentitySelfProbe,
)
    requires
        graded(risks),
    ensures
        graded(context_risks(risks, headless, coverage, probe)),
{
    graded_where_found();
    context_grades();
}

proof fn surface_graded(
    risks: Seq<DetectionRisk<'static>>,
    coverage: StealthCoverage,
    probe: IdentitySelfProbe,
)
    requires
        graded(risks),
    ensures
        graded(surface_risks(risks, coverage, probe)),
{
    graded_where_found();
    surface_grades();
    more_surface_grades();
}

proof fn launch_grades()
    ensures
        grade("headless_mode"@) == "medium"@,
        grade("stealth_disabled"@) == "high"@,
        grade("no_user_data_dir"@) == "low"@,
        grade("stealth_patch_partial"@) == "medium"@,
        grade("ua_metadata_unverified"@) == "medium"@,
{
    reveal_strlit("headless_mode");
    reveal_strlit("stealth_disabled");
    reveal_strlit("no_user_data_dir");
    reveal_strlit("stealth_patch_partial");
    reveal_strlit("ua_metadata_unverified");
    reveal_strlit("page_identity_probe_failed");
    assert("headless_mode"@.len() != "stealth_disabled"@.len());
    assert("headless_mode"@.len() != "page_identity_probe_failed"@.len());
    assert("headless_mode"@.len() != "no_user_data_dir"@.len());
    assert("stealth_disabled"@.len() != "page_identity_probe_failed"@.len());
    assert("stealth_disabled"@[0] != "no_user_data_dir"@[0]);
    assert("no_user_data_dir"@[0] != "stealth_disabled"@[0]);
    assert("no_user_data_dir"@.len() != "page_identity_probe_failed"@.len());
    assert("stealth_patch_partial"@.len() != "stealth_disabled"@.len());
    assert("stealth_patch_partial"@.len() != "page_identity_probe_failed"@.len());
    assert("stealth_patch_partial"@.len() != "no_user_data_dir"@.len());
    assert("ua_metadata_unverified"@.len() != "stealth_disabled"@.len());
    assert("ua_metadata_unverified"@.len() != "page_identity_probe_failed"@.len());
    assert("ua_metadata_unverified"@.len() != "no_user_data_dir"@.len());
}

proof fn context_grades()
    ensures
        grade("page_identity_probe_failed"@) == "high"@,
        grade("iframe_context_unverified"@) == "medium"@,
        grade("worker_context_unverified"@) == "medium"@,
        grade("ua_consistency_unverified"@) == "medium"@,
{
    reveal_strlit("page_identity_probe_failed");
    reveal_strlit("iframe_context_unverified");
    reveal_strlit("worker_context_unverified");
    reveal_strlit("ua_consistency_unverified");
    reveal_strlit("stealth_disabled");
    reveal_strlit("no_user_data_dir");
    assert("page_identity_probe_failed"@.len() != "stealth_disabled"@.len());
    assert("page_identity_probe_failed"@.len() != "no_user_data_dir"@.len());
    assert("iframe_context_unverified"@.len() != "stealth_disabled"@.len());
    assert("iframe_context_unverified"@.len() != "page_identity_probe_failed"@.len());
    assert("iframe_context_unverified"@.len() != "no_user_data_dir"@.len());
    assert("worker_context_unverified"@.len() != "stealth_disabled"@.len());
    assert("worker_context_unverified"@.len() != "page_identity_probe_failed"@.len());
    assert("worker_context_unverified"@.len() != "no_user_data_dir"@.len());
    assert("ua_consistency_unverified"@.len() != "stealth_disabled"@.len());
    assert("ua_consistency_unverified"@.len() != "page_identity_probe_failed"@.len());
    assert("ua_consistency_unverified"@.len() != "no_user_data_dir"@.len());
}

proof fn surface_grades()
    ensures
        grade("webgl_surface_unverified"@) == "medium"@,
        grade("canvas_surface_unverified"@) == "medium"@,
        grade("audio_surface_unverified"@) == "medium"@,
        grade("permissions_surface_unverified"@) == "medium"@,
{
    reveal_strlit("webgl_surface_unverified");
    reveal_strlit("canvas_surface_unverified");
    reveal_strlit("audio_surface_unverified");
    reveal_strlit("permissions_surface_unverified");
    reveal_strlit("stealth_disabled");
    reveal_strlit("page_identity_probe_failed");
    reveal_strlit("no_user_data_dir");
    assert("webgl_surface_unverified"@.len() != "stealth_disabled"@.len());
    assert("webgl_surface_unverified"@.len() != "page_identity_probe_failed"@.len());
    assert("webgl_surface_unverified"@.len() != "no_user_data_dir"@.len());
    assert("canvas_surface_unverified"@.len() != "stealth_disabled"@.len());
    assert("canvas_surface_unverified"@.len() != "page_identity_probe_failed"@.len());
    assert("canvas_surface_unverified"@.len() != "no_user_data_dir"@.len());
    assert("audio_surface_unverified"@.len() != "stealth_disabled"@.len());
    assert("audio_surface_unverified"@.len() != "page_identity_probe_failed"@.len());
    assert("audio_surface_unverified"@.len() != "no_user_data_dir"@.len());
    assert("permissions_surface_unverified"@.len() != "stealth_disabled"@.len());
    assert("permissions_surface_unverified"@.len() != "page_identity_probe_failed"@.len());
    assert("permissions_surface_unverified"@.len() != "no_user_data_dir"@.len());
}

proof fn more_surface_grades()
    ensures
        grade("viewport_surface_unverified"@) == "medium"@,
        grade("touch_surface_unverified"@) == "medium"@,
        grade("window_metrics_surface_unverified"@) == "medium"@,
        grade("service_worker_unverified"@) == "medium"@,
{
    reveal_strlit("viewport_surface_unverified");
    reveal_strlit("touch_surface_unverified");
    reveal_strlit("window_metrics_surface_unverified");
    reveal_strlit("service_worker_unverified");
    reveal_strlit("stealth_disabled");
    reveal_strlit("page_identity_probe_failed");
    reveal_strlit("no_user_data_dir");
    assert("viewport_surface_unverified"@.len() != "stealth_disabled"@.len());
    assert("viewport_surface_unverified"@.len() != "page_identity_probe_failed"@.len());
    assert("viewport_surface_unverified"@.len() != "no_user_data_dir"@.len());
    assert("touch_surface_unverified"@.len() != "stealth_disabled"@.len());
    assert("touch_surface_unverified"@.len() != "page_identity_probe_failed"@.len());
    assert("touch_surface_unverified"@.len() != "no_user_data_dir"@.len());
    assert("window_metrics_surface_unverified"@.len() != "stealth_disabled"@.len());
    assert("window_metrics_surface_unverified"@.len() != "page_identity_probe_failed"@.len());
    assert("window_metrics_surface_unverified"@.len() != "no_user_data_dir"@.len());
    assert("service_worker_unverified"@.len() != "stealth_disabled"@.len());
    assert("service_worker_unverified"@.len() != "page_identity_probe_failed"@.len());
    assert("service_worker_unverified"@.len() != "no_user_data_dir"@.len());
}

} // verus!
