//! Command lines that lead on from an interactability assessment.

use vstd::prelude::*;
use vstd::string::*;
use crate::json::{self, Json, JsonModel};
use crate::json_text;
use crate::model::{Element, ElementTag};
use crate::text;
use super::{BlockerModel, InteractabilityAssessment};

verus! {

/// A command line and why to run it.
#[derive(Debug)]
pub struct CommandHint {
    pub command: String,
    pub reason: String,
}

/// What a hint says.
#[verifier::ext_equal]
pub struct HintModel {
    pub command: Seq<char>,
    pub reason: Seq<char>,
}

impl View for CommandHint {
    type V = HintModel;

    open spec fn view(&self) -> HintModel {
        HintModel { command: self.command@, reason: self.reason@ }
    }
}

pub open spec fn hint_models(v: Seq<CommandHint>) -> Seq<HintModel> {
    v.map_values(|h: CommandHint| h@)
}

pub fn interactability_command_hint(command: &str, reason: &str) -> (r: CommandHint)
    ensures
        r@ == (HintModel { command: command@, reason: reason@ }),
{
    CommandHint { command: command.to_owned(), reason: reason.to_owned() }
}

/// The target itself is what is not ready, so that it can be waited for.
pub open spec fn waitable(b: BlockerModel) -> bool {
    b.code == "disabled_element"@ || b.code == "aria_disabled"@
}

pub open spec fn has_waitable(blockers: Seq<BlockerModel>) -> bool {
    exists|i: int| 0 <= i < blockers.len() && waitable(#[trigger] blockers[i])
}

/// The page, not the target, is what is not ready.
pub open spec fn page_level(b: BlockerModel) -> bool {
    b.surface == "runtime.readiness"@ || b.surface == "runtime.interference"@
}

pub open spec fn has_page_level(blockers: Seq<BlockerModel>) -> bool {
    exists|i: int| 0 <= i < blockers.len() && page_level(#[trigger] blockers[i])
}

/// A blocker that a click on the right element can clear.
pub open spec fn recoverable(b: BlockerModel) -> bool {
    ||| b.code == "overlay_present"@
    ||| b.code == "route_transitioning"@
    ||| b.code == "loading_present"@
    ||| b.code == "skeleton_present"@
}

pub fn interactability_has_target_waitable_blocker(assessment: &InteractabilityAssessment) -> (r:
    bool)
    ensures
        r == has_waitable(assessment@.blocker_details),
{
    let details = &assessment.blocker_details;
    let ghost models = super::blocker_models(details@);
    let mut i: usize = 0;
    while i < details.len()
        invariant
            i <= details@.len(),
            models == super::blocker_models(details@),
            models == assessment@.blocker_details,
            forall|j: int| 0 <= j < i ==> !waitable(#[trigger] models[j]),
        decreases details@.len() - i,
    {
        let code = details[i].code.as_str();
        if text::str_eq(code, "disabled_element") || text::str_eq(code, "aria_disabled") {
            assert(waitable(models[i as int]));
            return true;
        }
        i += 1;
    }
    false
}

pub fn interactability_has_page_level_blocker(assessment: &InteractabilityAssessment) -> (r: bool)
    ensures
        r == has_page_level(assessment@.blocker_details),
{
    let details = &assessment.blocker_details;
    let ghost models = super::blocker_models(details@);
    let mut i: usize = 0;
    while i < details.len()
        invariant
            i <= details@.len(),
            models == super::blocker_models(details@),
            models == assessment@.blocker_details,
            forall|j: int| 0 <= j < i ==> !page_level(#[trigger] models[j]),
        decreases details@.len() - i,
    {
        let surface = details[i].surface.as_str();
        if text::str_eq(surface, "runtime.readiness") || text::str_eq(
            surface,
            "runtime.interference",
        ) {
            assert(page_level(models[i as int]));
            return true;
        }
        i += 1;
    }
    false
}

/// Clicking the element may clear all that blocks it.
pub open spec fn recovery_candidate(tag: ElementTag, blockers: Seq<BlockerModel>) -> bool {
    &&& tag == ElementTag::Button || tag == ElementTag::Link || tag == ElementTag::Other
    &&& blockers.len() > 0
    &&& forall|i: int| 0 <= i < blockers.len() ==> recoverable(#[trigger] blockers[i])
}

pub fn interactability_is_direct_recovery_candidate(
    element: &Element,
    assessment: &InteractabilityAssessment,
) -> (r: bool)
    ensures
        r == recovery_candidate(element.tag, assessment@.blocker_details),
{
    if !matches!(element.tag, ElementTag::Button | ElementTag::Link | ElementTag::Other) {
        return false;
    }
    let details = &assessment.blocker_details;
    let ghost models = super::blocker_models(details@);
    let mut i: usize = 0;
    while i < details.len()
        invariant
            i <= details@.len(),
            models == super::blocker_models(details@),
            models == assessment@.blocker_details,
            forall|j: int| 0 <= j < i ==> recoverable(#[trigger] models[j]),
        decreases details@.len() - i,
    {
        let code = details[i].code.as_str();
        if !(text::str_eq(code, "overlay_present") || text::str_eq(code, "route_transitioning")
            || text::str_eq(code, "loading_present") || text::str_eq(code, "skeleton_present")) {
            assert(!recoverable(models[i as int]));
            return false;
        }
        i += 1;
    }
    details.len() > 0
}

/// The option that names the first locator of a request, with its value
/// quoted.
pub open spec fn locator_option(request: JsonModel) -> Option<Seq<Seq<char>>> {
    if json::text_member(request, "selector"@) is Some {
        Some(seq!["--selector"@, json_text::json_literal(json::text_member(request, "selector"@)->0)])
    } else if json::text_member(request, "target_text"@) is Some {
        Some(seq!["--target-text"@, json_text::json_literal(json::text_member(request, "target_text"@)->0)])
    } else if json::text_member(request, "role"@) is Some {
        Some(seq!["--role"@, json_text::json_literal(json::text_member(request, "role"@)->0)])
    } else if json::text_member(request, "label"@) is Some {
        Some(seq!["--label"@, json_text::json_literal(json::text_member(request, "label"@)->0)])
    } else if json::text_member(request, "testid"@) is Some {
        Some(seq!["--testid"@, json_text::json_literal(json::text_member(request, "testid"@)->0)])
    } else {
        None
    }
}

/// `parts`, with `flag` at the end where the member `key` is true.
pub open spec fn flag_if(
    parts: Seq<Seq<char>>,
    request: JsonModel,
    key: Seq<char>,
    flag: Seq<char>,
) -> Seq<Seq<char>> {
    if json::member(request, key) == Some(JsonModel::Bool(true)) {
        parts.push(flag)
    } else {
        parts
    }
}

/// `parts`, with the option `--nth` where the request has that number.
pub open spec fn nth_if(parts: Seq<Seq<char>>, request: JsonModel) -> Seq<Seq<char>> {
    match json::member(request, "nth"@) {
        Some(v) => match json::uint_of(v) {
            Some(n) => parts.push("--nth"@).push(text::decimal(n as nat)),
            None => parts,
        },
        None => parts,
    }
}

/// The options that select, on a command line, what a request selects.
pub open spec fn locator_parts(request: JsonModel) -> Option<Seq<Seq<char>>> {
    match locator_option(request) {
        Some(parts) => {
            let parts = flag_if(parts, request, "first"@, "--first"@);
            let parts = flag_if(parts, request, "last"@, "--last"@);
            let parts = nth_if(parts, request);
            let parts = flag_if(parts, request, "topmost"@, "--topmost"@);
            let parts = flag_if(parts, request, "visible"@, "--visible"@);
            Some(flag_if(parts, request, "prefer_enabled"@, "--prefer-enabled"@))
        },
        None => None,
    }
}

fn push_part(parts: &mut Vec<String>, part: String)
    ensures
        text::texts(final(parts)@) == text::texts(old(parts)@).push(part@),
{
    parts.push(part);
    assert(text::texts(parts@) =~= text::texts(old(parts)@).push(part@));
}

fn push_flag_if(parts: &mut Vec<String>, request: &Json, key: &str, flag: &str)
    ensures
        text::texts(final(parts)@) == flag_if(text::texts(old(parts)@), request@, key@, flag@),
{
    if let Some(value) = request.get(key) {
        if matches!(value, Json::Bool(true)) {
            push_part(parts, flag.to_owned());
        }
    }
}

fn option_parts(flag: &str, value: &str) -> (r: Vec<String>)
    ensures
        text::texts(r@) == seq![flag@, json_text::json_literal(value@)],
{
    let mut parts: Vec<String> = Vec::new();
    parts.push(flag.to_owned());
    parts.push(json_text::json_string(value));
    assert(text::texts(parts@) =~= seq![flag@, json_text::json_literal(value@)]);
    parts
}

/// What an optional list of strings spells.
pub open spec fn opt_texts(o: Option<Vec<String>>) -> Option<Seq<Seq<char>>> {
    match o {
        Some(v) => Some(text::texts(v@)),
        None => None,
    }
}

fn locator_option_parts(request: &Json) -> (r: Option<Vec<String>>)
    ensures
        opt_texts(r) == locator_option(request@),
{
    if let Some(value) = request.get_str("selector") {
        return Some(option_parts("--selector", value));
    }
    if let Some(value) = request.get_str("target_text") {
        return Some(option_parts("--target-text", value));
    }
    if let Some(value) = request.get_str("role") {
        return Some(option_parts("--role", value));
    }
    if let Some(value) = request.get_str("label") {
        return Some(option_parts("--label", value));
    }
    if let Some(value) = request.get_str("testid") {
        return Some(option_parts("--testid", value));
    }
    None
}

/// The options that select, on a command line, what the request selects.
pub fn interactability_locator_parts(locator_request: &Json) -> (r: Option<Vec<String>>)
    ensures
        opt_texts(r) == locator_parts(locator_request@),
{
    let mut parts = match locator_option_parts(locator_request) {
        Some(parts) => parts,
        None => {
            return None;
        },
    };
    push_flag_if(&mut parts, locator_request, "first", "--first");
    push_flag_if(&mut parts, locator_request, "last", "--last");
    if let Some(value) = locator_request.get("nth") {
        if let Some(nth) = value.as_u64() {
            push_part(&mut parts, "--nth".to_owned());
            push_part(&mut parts, text::decimal_string(nth));
        }
    }
    push_flag_if(&mut parts, locator_request, "topmost", "--topmost");
    push_flag_if(&mut parts, locator_request, "visible", "--visible");
    push_flag_if(&mut parts, locator_request, "prefer_enabled", "--prefer-enabled");
    Some(parts)
}

/// The command line that waits for the target.
pub open spec fn wait_command(request: JsonModel) -> Option<Seq<char>> {
    match locator_parts(request) {
        Some(parts) => Some(
            text::joined(
                (seq!["rub wait"@] + parts).push("--state"@).push("interactable"@),
                " "@,
            ),
        ),
        None => None,
    }
}

/// The command line that clicks the target.
pub open spec fn click_command(request: JsonModel) -> Option<Seq<char>> {
    match locator_parts(request) {
        Some(parts) => Some(text::joined(seq!["rub click"@] + parts, " "@)),
        None => None,
    }
}

fn with_parts(command: &str, parts: &Vec<String>) -> (r: Vec<String>)
    ensures
        text::texts(r@) == seq![command@] + text::texts(parts@),
{
    let mut out: Vec<String> = Vec::new();
    out.push(command.to_owned());
    let mut i: usize = 0;
    assert(text::texts(out@) =~= seq![command@] + text::texts(parts@).take(0));
    while i < parts.len()
        invariant
            i <= parts@.len(),
            text::texts(out@) == seq![command@] + text::texts(parts@).take(i as int),
        decreases parts@.len() - i,
    {
        let ghost before = text::texts(out@);
        out.push(parts[i].clone());
        assert(text::texts(out@) =~= before.push(parts@[i as int]@));
        assert(before.push(parts@[i as int]@) =~= seq![command@] + text::texts(parts@).take(i + 1));
        i += 1;
    }
    assert(text::texts(parts@).take(i as int) =~= text::texts(parts@));
    out
}

/// The command line that waits for the requested target.
pub fn interactability_wait_command(locator_request: &Json) -> (r: Option<String>)
    ensures
        text::opt_text(r) == wait_command(locator_request@),
{
    match interactability_locator_parts(locator_request) {
        Some(parts) => {
            let mut line = with_parts("rub wait", &parts);
            push_part(&mut line, "--state".to_owned());
            push_part(&mut line, "interactable".to_owned());
            Some(text::join(&line, " "))
        },
        None => None,
    }
}

/// The command line that clicks the target, where that may clear what blocks it.
pub open spec fn direct_click(
    tag: ElementTag,
    blockers: Seq<BlockerModel>,
    request: JsonModel,
) -> Option<Seq<char>> {
    if has_waitable(blockers) || !recovery_candidate(tag, blockers) {
        None
    } else {
        click_command(request)
    }
}

pub fn interactability_direct_click_command(
    element: &Element,
    assessment: &InteractabilityAssessment,
    locator_request: &Json,
) -> (r: Option<String>)
    ensures
        text::opt_text(r) == direct_click(
            element.tag,
            assessment@.blocker_details,
            locator_request@,
        ),
{
    if interactability_has_target_waitable_blocker(assessment)
        || !interactability_is_direct_recovery_candidate(element, assessment) {
        return None;
    }
    match interactability_locator_parts(locator_request) {
        Some(parts) => {
            let line = with_parts("rub click", &parts);
            Some(text::join(&line, " "))
        },
        None => None,
    }
}

/// `hints`, with one more where there is a command for it.
pub open spec fn hint_if(
    hints: Seq<HintModel>,
    command: Option<Seq<char>>,
    reason: Seq<char>,
) -> Seq<HintModel> {
    match command {
        Some(command) => hints.push(HintModel { command, reason }),
        None => hints,
    }
}

/// The command lines that lead on from an assessment, best first.
pub open spec fn next_command_hints(
    tag: ElementTag,
    blockers: Seq<BlockerModel>,
    request: JsonModel,
) -> Seq<HintModel> {
    let hints = hint_if(
        seq![],
        direct_click(tag, blockers, request),
        "try the direct activation path; this target may be the control that clears the current page-level blocker"@,
    );
    let hints = hint_if(
        hints,
        if has_waitable(blockers) {
            wait_command(request)
        } else {
            None
        },
        "wait for this target to become interactable before retrying the action"@,
    );
    let hints = hint_if(
        hints,
        if has_page_level(blockers) {
            Some("rub explain blockers"@)
        } else {
            None
        },
        "inspect the dominant page-level blocker in the current runtime"@,
    );
    hints.push(
        HintModel {
            command: "rub explain locator ..."@,
            reason: "confirm the exact target if you still need to disambiguate candidates"@,
        },
    )
}

fn push_hint(hints: &mut Vec<CommandHint>, command: &str, reason: &str)
    ensures
        hint_models(final(hints)@) == hint_models(old(hints)@).push(
            HintModel { command: command@, reason: reason@ },
        ),
{
    hints.push(interactability_command_hint(command, reason));
    assert(hint_models(hints@) =~= hint_models(old(hints)@).push(
        HintModel { command: command@, reason: reason@ },
    ));
}

/// The command lines that lead on from an assessment, best first.
pub fn interactability_next_command_hints(
    element: &Element,
    assessment: &InteractabilityAssessment,
    locator_request: &Json,
) -> (r: Vec<CommandHint>)
    ensures
        hint_models(r@) == next_command_hints(
            element.tag,
            assessment@.blocker_details,
            locator_request@,
        ),
{
    let mut hints: Vec<CommandHint> = Vec::new();
    assert(hint_models(hints@) =~= seq![]);
    if let Some(command) = interactability_direct_click_command(
        element,
        assessment,
        locator_request,
    ) {
        push_hint(
            &mut hints,
            command.as_str(),
            "try the direct activation path; this target may be the control that clears the current page-level blocker",
        );
    }
    if interactability_has_target_waitable_blocker(assessment) {
        if let Some(command) = interactability_wait_command(locator_request) {
            push_hint(
                &mut hints,
                command.as_str(),
                "wait for this target to become interactable before retrying the action",
            );
        }
    }
    if interactability_has_page_level_blocker(assessment) {
        push_hint(
            &mut hints,
            "rub explain blockers",
            "inspect the dominant page-level blocker in the current runtime",
        );
    }
    push_hint(
        &mut hints,
        "rub explain locator ...",
        "confirm the exact target if you still need to disambiguate candidates",
    );
    hints
}

/// A target that can be waited for is never offered as one to click.
pub proof fn waitable_targets_are_not_clicked(
    tag: ElementTag,
    blockers: Seq<BlockerModel>,
    request: JsonModel,
)
    requires
        has_waitable(blockers),
    ensures
        direct_click(tag, blockers, request) is None,
{
}

/// A click is offered exactly where nothing on the target itself is to be waited for, the
/// target is of a kind that is clicked, something blocks it, a click can clear all that
/// does, and a command line can name it.
pub proof fn clicks_are_offered_where_they_clear_the_way(
    tag: ElementTag,
    blockers: Seq<BlockerModel>,
    request: JsonModel,
)
    ensures
        direct_click(tag, blockers, request) is Some <==> {
            &&& click_command(request) is Some
            &&& tag == ElementTag::Button || tag == ElementTag::Link || tag == ElementTag::Other
            &&& blockers.len() > 0
            &&& forall|i: int|
                0 <= i < blockers.len() ==> {
                    let code = (#[trigger] blockers[i]).code;
                    code == "overlay_present"@ || code == "route_transitioning"@ || code
                        == "loading_present"@ || code == "skeleton_present"@
                }
        },
        direct_click(tag, blockers, request) is Some ==> direct_click(tag, blockers, request)
            == click_command(request),
{
    reveal_strlit("disabled_element");
    reveal_strlit("aria_disabled");
    reveal_strlit("overlay_present");
    reveal_strlit("route_transitioning");
    reveal_strlit("loading_present");
    reveal_strlit("skeleton_present");
    assert("disabled_element"@.len() != "aria_disabled"@.len());
    assert("disabled_element"@.len() != "overlay_present"@.len());
    assert("disabled_element"@.len() != "route_transitioning"@.len());
    assert("disabled_element"@.len() != "loading_present"@.len());
    assert("disabled_element"@[0] != "skeleton_present"@[0]);
    assert("aria_disabled"@.len() != "overlay_present"@.len());
    assert("aria_disabled"@.len() != "route_transitioning"@.len());
    assert("aria_disabled"@.len() != "loading_present"@.len());
    assert("aria_disabled"@.len() != "skeleton_present"@.len());
    assert("overlay_present"@.len() != "route_transitioning"@.len());
    assert("overlay_present"@[0] != "loading_present"@[0]);
    assert("overlay_present"@.len() != "skeleton_present"@.len());
    assert("route_transitioning"@.len() != "loading_present"@.len());
    assert("route_transitioning"@.len() != "skeleton_present"@.len());
    assert("loading_present"@.len() != "skeleton_present"@.len());
    if direct_click(tag, blockers, request) is Some {
        assert forall|i: int| 0 <= i < blockers.len() implies ({
            let code = (#[trigger] blockers[i]).code;
            code == "overlay_present"@ || code == "route_transitioning"@ || code
                == "loading_present"@ || code == "skeleton_present"@
        }) by {
            assert(recoverable(blockers[i]));
        }
    }
    if forall|i: int|
        0 <= i < blockers.len() ==> {
            let code = (#[trigger] blockers[i]).code;
            code == "overlay_present"@ || code == "route_transitioning"@ || code
                == "loading_present"@ || code == "skeleton_present"@
        } {
        assert(!has_waitable(blockers)) by {
            if has_waitable(blockers) {
                let i = choose|i: int| 0 <= i < blockers.len() && waitable(#[trigger] blockers[i]);
                assert(recoverable(blockers[i]));
            }
        }
        assert forall|i: int| 0 <= i < blockers.len() implies recoverable(
            #[trigger] blockers[i],
        ) by {}
    }
}

/// A command line names a target by the first text that its request gives, quoted; a
/// request that gives none cannot be named.
pub proof fn command_lines_name_the_first_text(request: JsonModel)
    ensures
        ({
            let given = |key: Seq<char>| json::text_member(request, key);
            let r = locator_option(request);
            &&& given("selector"@) matches Some(x) ==> r == Some(
                seq!["--selector"@, json_text::json_literal(x)],
            )
            &&& given("selector"@) is None ==> (given("target_text"@) matches Some(x) ==> r == Some(
                seq!["--target-text"@, json_text::json_literal(x)],
            ))
            &&& given("selector"@) is None && given("target_text"@) is None ==> (given("role"@)
                matches Some(x) ==> r == Some(seq!["--role"@, json_text::json_literal(x)]))
            &&& given("selector"@) is None && given("target_text"@) is None && given("role"@)
                is None ==> (given("label"@) matches Some(x) ==> r == Some(
                seq!["--label"@, json_text::json_literal(x)],
            ))
            &&& given("selector"@) is None && given("target_text"@) is None && given("role"@)
                is None && given("label"@) is None ==> (given("testid"@) matches Some(x) ==> r
                == Some(seq!["--testid"@, json_text::json_literal(x)]))
            &&& r is None <==> given("selector"@) is None && given("target_text"@) is None && given(
                "role"@,
            ) is None && given("label"@) is None && given("testid"@) is None
            &&& locator_parts(request) is Some <==> r is Some
            &&& wait_command(request) is Some <==> r is Some
            &&& click_command(request) is Some <==> r is Some
        }),
{
}

/// A command line carries the selection and the ranking of its request: each flag exactly
/// where the request sets it, and nothing beside them and what names the target.
pub proof fn command_lines_carry_the_flags(request: JsonModel, part: Seq<char>)
    requires
        locator_option(request) is Some,
    ensures
        ({
            let flag = |key: Seq<char>| json::member(request, key) == Some(JsonModel::Bool(true));
            locator_parts(request)->0.contains(part) <==> {
                ||| locator_option(request)->0.contains(part)
                ||| flag("first"@) && part == "--first"@
                ||| flag("last"@) && part == "--last"@
                ||| flag("topmost"@) && part == "--topmost"@
                ||| flag("visible"@) && part == "--visible"@
                ||| flag("prefer_enabled"@) && part == "--prefer-enabled"@
                ||| json::uint_member(request, "nth"@) matches Some(n) && (part == "--nth"@ || part
                    == text::decimal(n as nat))
            }
        }),
        locator_parts(request)->0.len() >= 2,
        locator_parts(request)->0[0] == locator_option(request)->0[0],
        locator_parts(request)->0[1] == locator_option(request)->0[1],
{
    assert forall|parts: Seq<Seq<char>>, one: Seq<char>| #[trigger]
        parts.push(one).contains(part) <==> parts.contains(part) || one == part by {
        let all = parts.push(one);
        if parts.contains(part) {
            let i = choose|i: int| 0 <= i < parts.len() && parts[i] == part;
            assert(all[i] == part);
        }
        if one == part {
            assert(all[parts.len() as int] == part);
        }
        if all.contains(part) {
            let i = choose|i: int| 0 <= i < all.len() && all[i] == part;
            if i < parts.len() {
                assert(parts[i] == part);
            }
        }
    }
}

/// The command lines that lead on are a click, a wait and a look at the page, each exactly
/// where it helps and in that order, and behind them always one to confirm the target.
pub proof fn next_commands_go_in_order(
    tag: ElementTag,
    blockers: Seq<BlockerModel>,
    request: JsonModel,
)
    ensures
        ({
            let r = next_command_hints(tag, blockers, request);
            let click = direct_click(tag, blockers, request);
            let waits = has_waitable(blockers) && wait_command(request) is Some;
            &&& r.len() > 0
            &&& r.last().command == "rub explain locator ..."@
            &&& click matches Some(command) ==> r[0].command == command
            &&& waits ==> r[0].command == wait_command(request)->0
            &&& has_page_level(blockers) ==> r.len() >= 2 && r[r.len() - 2].command
                == "rub explain blockers"@
            &&& r.len() == 1 + (if click is Some {
                1int
            } else {
                0int
            }) + (if waits {
                1int
            } else {
                0int
            }) + if has_page_level(blockers) {
                1int
            } else {
                0int
            }
        }),
{
    if has_waitable(blockers) {
        waitable_targets_are_not_clicked(tag, blockers, request);
    }
}

/// A command line that waits is the one that names the target, for the state in which it
/// can be acted on; a command line that clicks names it alike.
pub proof fn command_lines_wait_and_click(request: JsonModel)
    requires
        locator_parts(request) is Some,
    ensures
        wait_command(request) == Some(
            text::joined(seq!["rub wait"@] + locator_parts(request)->0, " "@) + " "@ + "--state"@
                + " "@ + "interactable"@,
        ),
        click_command(request) == Some(
            text::joined(seq!["rub click"@] + locator_parts(request)->0, " "@),
        ),
{
    let base = seq!["rub wait"@] + locator_parts(request)->0;
    assert(base.push("--state"@).push("interactable"@).drop_last() =~= base.push("--state"@));
    assert(base.push("--state"@).drop_last() =~= base);
    reveal_with_fuel(text::joined, 3);
}

} // verus!
