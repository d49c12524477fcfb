//! How an interaction target is described to a client.

use vstd::prelude::*;
use crate::element_semantics as semantics;
use crate::element_semantics::{ax_name_str, ax_role_str, or_str};
use crate::model::{self, BoundingBox, BoxModel, Element, ElementModel, ElementTag};
use crate::json::{self, Json, JsonModel, JsonObject, NumberModel};
use crate::text;

verus! {

/// The element carries the attribute `disabled`.
pub open spec fn disabled(element: ElementModel) -> bool {
    element.attributes.dom().contains("disabled"@)
}

/// The element is marked as disabled for assistive technology.
pub open spec fn aria_disabled(element: ElementModel) -> bool {
    match element.attributes.get("aria-disabled"@) {
        Some(value) => text::same_ignoring_ascii_case(value, "true"@),
        None => false,
    }
}

pub fn is_disabled(element: &Element) -> (r: bool)
    ensures
        r == disabled(element@),
{
    element.attributes.contains_key("disabled")
}

pub fn is_aria_disabled(element: &Element) -> (r: bool)
    ensures
        r == aria_disabled(element@),
{
    match element.attributes.get("aria-disabled") {
        Some(value) => text::eq_ignore_ascii_case(value, "true"),
        None => false,
    }
}

/// The value of an attribute, unless it is blank.
pub open spec fn attribute(element: ElementModel, key: Seq<char>) -> Option<Seq<char>> {
    match element.attributes.get(key) {
        Some(value) => if text::trimmed(value).len() > 0 {
            Some(value)
        } else {
            None
        },
        None => None,
    }
}

pub fn attribute_value<'a>(element: &'a Element, key: &str) -> (r: Option<&'a str>)
    ensures
        json::opt_str_text(r) == attribute(element@, key@),
{
    match element.attributes.get(key) {
        Some(value) => if text::trim(value).is_empty() {
            None
        } else {
            Some(value)
        },
        None => None,
    }
}

/// The trimmed text, unless it is empty.
pub open spec fn non_empty(s: Seq<char>) -> Option<Seq<char>> {
    if text::trimmed(s).len() > 0 {
        Some(text::trimmed(s))
    } else {
        None
    }
}

pub fn non_empty_string(value: &str) -> (r: Option<&str>)
    ensures
        json::opt_str_text(r) == non_empty(value@),
{
    let trimmed = text::trim(value);
    if trimmed.is_empty() {
        None
    } else {
        Some(trimmed)
    }
}

/// The role that an element has by its kind.
pub open spec fn implicit_role(tag: ElementTag) -> Seq<char> {
    match tag {
        ElementTag::Button => "button"@,
        ElementTag::Link => "link"@,
        ElementTag::Input | ElementTag::TextArea => "textbox"@,
        ElementTag::Select => "combobox"@,
        ElementTag::Checkbox => "checkbox"@,
        ElementTag::Radio => "radio"@,
        ElementTag::Option => "option"@,
        ElementTag::Other => "generic"@,
    }
}

/// The role of an element: from the accessibility tree, else from its `role`
/// attribute, else from its kind.
pub open spec fn role_of(element: ElementModel) -> Seq<char> {
    text::trimmed(
        match semantics::or(semantics::ax_role(element.ax_info), attribute(element, "role"@)) {
            Some(role) => role,
            None => implicit_role(element.tag),
        },
    )
}

/// The label of an element: the first that there is of its accessible name,
/// its text, and its labelling attributes.
pub open spec fn label_of(element: ElementModel) -> Seq<char> {
    let label = semantics::or(semantics::ax_name(element.ax_info), non_empty(element.text));
    let label = semantics::or(label, attribute(element, "aria-label"@));
    let label = semantics::or(label, attribute(element, "placeholder"@));
    let label = semantics::or(label, attribute(element, "name"@));
    let label = semantics::or(label, attribute(element, "value"@));
    let label = semantics::or(label, attribute(element, "title"@));
    let label = semantics::or(label, attribute(element, "alt"@));
    match label {
        Some(s) => text::trimmed(s),
        None => Seq::empty(),
    }
}

fn implicit_role_str(tag: ElementTag) -> (r: &'static str)
    ensures
        r@ == implicit_role(tag),
{
    match tag {
        ElementTag::Button => "button",
        ElementTag::Link => "link",
        ElementTag::Input | ElementTag::TextArea => "textbox",
        ElementTag::Select => "combobox",
        ElementTag::Checkbox => "checkbox",
        ElementTag::Radio => "radio",
        ElementTag::Option => "option",
        ElementTag::Other => "generic",
    }
}

pub fn interactability_role(element: &Element) -> (r: String)
    ensures
        r@ == role_of(element@),
{
    let role = match or_str(ax_role_str(&element.ax_info), attribute_value(element, "role")) {
        Some(role) => role,
        None => implicit_role_str(element.tag),
    };
    text::trim(role).to_owned()
}

pub fn interactability_label(element: &Element) -> (r: String)
    ensures
        r@ == label_of(element@),
{
    let label = or_str(ax_name_str(&element.ax_info), non_empty_string(element.text.as_str()));
    let label = or_str(label, attribute_value(element, "aria-label"));
    let label = or_str(label, attribute_value(element, "placeholder"));
    let label = or_str(label, attribute_value(element, "name"));
    let label = or_str(label, attribute_value(element, "value"));
    let label = or_str(label, attribute_value(element, "title"));
    let label = or_str(label, attribute_value(element, "alt"));
    match label {
        Some(s) => text::trim(s).to_owned(),
        None => String::new(),
    }
}

/// The flags of a target, each present exactly when its condition holds.
pub open spec fn flags_of(element: ElementModel) -> Seq<&'static str> {
    let flags: Seq<&'static str> = seq![];
    let flags = if disabled(element) {
        flags.push("disabled")
    } else {
        flags
    };
    let flags = if aria_disabled(element) {
        flags.push("aria_disabled")
    } else {
        flags
    };
    if element.bounding_box is None {
        flags.push("bbox_unavailable")
    } else {
        flags
    }
}

pub fn interactability_target_flags(element: &Element) -> (r: Vec<&'static str>)
    ensures
        r@ == flags_of(element@),
{
    let mut flags: Vec<&'static str> = Vec::new();
    if is_disabled(element) {
        flags.push("disabled");
    }
    if is_aria_disabled(element) {
        flags.push("aria_disabled");
    }
    if element.bounding_box.is_none() {
        flags.push("bbox_unavailable");
    }
    flags
}

/// The name of an element's kind.
pub open spec fn tag_name(tag: ElementTag) -> Seq<char> {
    match tag {
        ElementTag::Button => "button"@,
        ElementTag::Link => "link"@,
        ElementTag::Input => "input"@,
        ElementTag::TextArea => "textarea"@,
        ElementTag::Select => "select"@,
        ElementTag::Checkbox => "checkbox"@,
        ElementTag::Radio => "radio"@,
        ElementTag::Option => "option"@,
        ElementTag::Other => "other"@,
    }
}

pub fn tag_str(tag: ElementTag) -> (r: &'static str)
    ensures
        r@ == tag_name(tag),
{
    match tag {
        ElementTag::Button => "button",
        ElementTag::Link => "link",
        ElementTag::Input => "input",
        ElementTag::TextArea => "textarea",
        ElementTag::Select => "select",
        ElementTag::Checkbox => "checkbox",
        ElementTag::Radio => "radio",
        ElementTag::Option => "option",
        ElementTag::Other => "other",
    }
}

pub open spec fn float_model(s: Seq<char>) -> JsonModel {
    JsonModel::Number(NumberModel::Float(s))
}

/// What a bounding box says; `null` where there is none.
pub open spec fn bbox_model(bbox: Option<BoxModel>) -> JsonModel {
    match bbox {
        Some(b) => JsonModel::Object(
            Map::<Seq<char>, JsonModel>::empty().insert("x"@, float_model(b.x)).insert(
                "y"@,
                float_model(b.y),
            ).insert("width"@, float_model(b.width)).insert("height"@, float_model(b.height)),
        ),
        None => JsonModel::Null,
    }
}

pub fn box_value(b: &BoundingBox) -> (r: Json)
    ensures
        r@ == bbox_model(Some(b@)),
{
    Json::Object(
        JsonObject::new().with("x", json::float_value(b.x.as_str())).with(
            "y",
            json::float_value(b.y.as_str()),
        ).with("width", json::float_value(b.width.as_str())).with(
            "height",
            json::float_value(b.height.as_str()),
        ),
    )
}

pub fn bbox_value(bbox: &Option<BoundingBox>) -> (r: Json)
    ensures
        r@ == bbox_model(model::opt_box(*bbox)),
{
    match bbox {
        Some(b) => box_value(b),
        None => Json::Null,
    }
}

/// How a target is described.
pub open spec fn target_summary(element: ElementModel) -> JsonModel {
    JsonModel::Object(
        Map::<Seq<char>, JsonModel>::empty().insert(
            "index"@,
            JsonModel::Number(NumberModel::Int(element.index as int)),
        ).insert("tag"@, JsonModel::Text(tag_name(element.tag))).insert(
            "text"@,
            JsonModel::Text(element.text),
        ).insert("role"@, JsonModel::Text(role_of(element))).insert(
            "label"@,
            JsonModel::Text(label_of(element)),
        ).insert("element_ref"@, json::opt_text_model(element.element_ref)).insert(
            "bbox"@,
            bbox_model(element.bounding_box),
        ).insert("flags"@, json::texts_model(flags_of(element).map_values(|s: &'static str| s@))),
    )
}

pub fn interactability_target_summary(element: &Element) -> (r: Json)
    ensures
        r@ == target_summary(element@),
{
    let role = interactability_role(element);
    let label = interactability_label(element);
    let flags = interactability_target_flags(element);
    Json::Object(
        JsonObject::new().with("index", json::uint_value(element.index as u64)).with(
            "tag",
            json::text_value(tag_str(element.tag)),
        ).with("text", json::text_value(element.text.as_str())).with(
            "role",
            json::text_value(role.as_str()),
        ).with("label", json::text_value(label.as_str())).with(
            "element_ref",
            json::opt_text_value(&element.element_ref),
        ).with("bbox", bbox_value(&element.bounding_box)).with("flags", json::words_value(&flags)),
    )
}

/// A target is marked exactly by what keeps it from use: `disabled`, `aria-disabled` in any
/// case, and that its box is not known.
pub proof fn targets_are_marked_by_what_they_are(e: ElementModel)
    ensures
        aria_disabled(e) <==> e.attributes.dom().contains("aria-disabled"@)
            && text::same_ignoring_ascii_case(e.attributes["aria-disabled"@], "true"@),
        disabled(e) <==> e.attributes.dom().contains("disabled"@),
        flags_of(e).len() == (if disabled(e) {
            1int
        } else {
            0int
        }) + (if aria_disabled(e) {
            1int
        } else {
            0int
        }) + if e.bounding_box is None {
            1int
        } else {
            0int
        },
        disabled(e) ==> flags_of(e)[0]@ == "disabled"@,
        aria_disabled(e) ==> flags_of(e)[if disabled(e) {
            1int
        } else {
            0int
        }]@ == "aria_disabled"@,
        e.bounding_box is None ==> flags_of(e).last()@ == "bbox_unavailable"@,
{
}

/// Kinds go by different names.
pub proof fn tags_are_told_apart(a: ElementTag, b: ElementTag)
    ensures
        tag_name(a) == tag_name(b) <==> a == b,
{
    reveal_strlit("button");
    reveal_strlit("link");
    reveal_strlit("input");
    reveal_strlit("textarea");
    reveal_strlit("select");
    reveal_strlit("checkbox");
    reveal_strlit("radio");
    reveal_strlit("option");
    reveal_strlit("other");
    assert("button"@.len() != "link"@.len());
    assert("button"@.len() != "input"@.len());
    assert("button"@.len() != "textarea"@.len());
    assert("button"@[0] != "select"@[0]);
    assert("button"@.len() != "checkbox"@.len());
    assert("button"@.len() != "radio"@.len());
    assert("button"@[0] != "option"@[0]);
    assert("button"@.len() != "other"@.len());
    assert("link"@.len() != "input"@.len());
    assert("link"@.len() != "textarea"@.len());
    assert("link"@.len() != "select"@.len());
    assert("link"@.len() != "checkbox"@.len());
    assert("link"@.len() != "radio"@.len());
    assert("link"@.len() != "option"@.len());
    assert("link"@.len() != "other"@.len());
    assert("input"@.len() != "textarea"@.len());
    assert("input"@.len() != "select"@.len());
    assert("input"@.len() != "checkbox"@.len());
    assert("input"@[0] != "radio"@[0]);
    assert("input"@.len() != "option"@.len());
    assert("input"@[0] != "other"@[0]);
    assert("textarea"@.len() != "select"@.len());
    assert("textarea"@[0] != "checkbox"@[0]);
    assert("textarea"@.len() != "radio"@.len());
    assert("textarea"@.len() != "option"@.len());
    assert("textarea"@.len() != "other"@.len());
    assert("select"@.len() != "checkbox"@.len());
    assert("select"@.len() != "radio"@.len());
    assert("select"@[0] != "option"@[0]);
    assert("select"@.len() != "other"@.len());
    assert("checkbox"@.len() != "radio"@.len());
    assert("checkbox"@.len() != "option"@.len());
    assert("checkbox"@.len() != "other"@.len());
    assert("radio"@.len() != "option"@.len());
    assert("radio"@[0] != "other"@[0]);
    assert("option"@.len() != "other"@.len());
}

/// A target is described with its number, its kind, what it says and its box.
pub proof fn targets_are_described_as_they_are(e: ElementModel)
    ensures
        ({
            let r = target_summary(e);
            &&& json::member(r, "index"@) == Some(json::number(e.index as int))
            &&& json::member(r, "tag"@) == Some(JsonModel::Text(tag_name(e.tag)))
            &&& json::member(r, "text"@) == Some(JsonModel::Text(e.text))
            &&& json::member(r, "role"@) == Some(JsonModel::Text(role_of(e)))
            &&& json::member(r, "label"@) == Some(JsonModel::Text(label_of(e)))
            &&& json::member(r, "element_ref"@) == Some(json::opt_text_model(e.element_ref))
            &&& json::member(r, "bbox"@) == Some(bbox_model(e.bounding_box))
        }),
        e.bounding_box matches Some(b) ==> {
            &&& json::member(bbox_model(e.bounding_box), "x"@) == Some(float_model(b.x))
            &&& json::member(bbox_model(e.bounding_box), "y"@) == Some(float_model(b.y))
            &&& json::member(bbox_model(e.bounding_box), "width"@) == Some(float_model(b.width))
            &&& json::member(bbox_model(e.bounding_box), "height"@) == Some(float_model(b.height))
        },
{
    reveal_strlit("index");
    reveal_strlit("tag");
    reveal_strlit("text");
    reveal_strlit("role");
    reveal_strlit("label");
    reveal_strlit("element_ref");
    reveal_strlit("bbox");
    reveal_strlit("flags");
    assert("index"@.len() != "tag"@.len());
    assert("index"@.len() != "text"@.len());
    assert("index"@.len() != "role"@.len());
    assert("index"@[0] != "label"@[0]);
    assert("index"@.len() != "element_ref"@.len());
    assert("index"@.len() != "bbox"@.len());
    assert("index"@[0] != "flags"@[0]);
    assert("tag"@.len() != "text"@.len());
    assert("tag"@.len() != "role"@.len());
    assert("tag"@.len() != "label"@.len());
    assert("tag"@.len() != "element_ref"@.len());
    assert("tag"@.len() != "bbox"@.len());
    assert("tag"@.len() != "flags"@.len());
    assert("text"@[0] != "role"@[0]);
    assert("text"@.len() != "label"@.len());
    assert("text"@.len() != "element_ref"@.len());
    assert("text"@[0] != "bbox"@[0]);
    assert("text"@.len() != "flags"@.len());
    assert("role"@.len() != "label"@.len());
    assert("role"@.len() != "element_ref"@.len());
    assert("role"@[0] != "bbox"@[0]);
    assert("role"@.len() != "flags"@.len());
    assert("label"@.len() != "element_ref"@.len());
    assert("label"@.len() != "bbox"@.len());
    assert("label"@[0] != "flags"@[0]);
    assert("element_ref"@.len() != "bbox"@.len());
    assert("element_ref"@.len() != "flags"@.len());
    assert("bbox"@.len() != "flags"@.len());
    reveal_strlit("x");
    reveal_strlit("y");
    reveal_strlit("width");
    reveal_strlit("height");
    assert("x"@[0] != "y"@[0]);
    assert("x"@.len() != "width"@.len());
    assert("x"@.len() != "height"@.len());
    assert("y"@.len() != "width"@.len());
    assert("y"@.len() != "height"@.len());
    assert("width"@.len() != "height"@.len());
}

/// The role and the label that a target is described with are those that locators go by,
/// but for what can be edited in place, whose role they describe by its kind.
pub proof fn descriptions_agree_with_locators(e: ElementModel)
    ensures
        label_of(e) == semantics::label_of(e),
        e.tag != ElementTag::Other || !semantics::content_editable(e) ==> role_of(e)
            == semantics::role_of(e),
{
    attribute_agrees(e, "aria-label"@);
    attribute_agrees(e, "placeholder"@);
    attribute_agrees(e, "name"@);
    attribute_agrees(e, "value"@);
    attribute_agrees(e, "title"@);
    attribute_agrees(e, "alt"@);
    attribute_agrees(e, "role"@);
}

proof fn attribute_agrees(e: ElementModel, key: Seq<char>)
    ensures
        attribute(e, key) is Some <==> semantics::attribute(e, key) is Some,
        attribute(e, key) is Some ==> text::trimmed(attribute(e, key)->0) == text::trimmed(
            semantics::attribute(e, key)->0,
        ),
{
    if e.attributes.dom().contains(key) {
        text::trimmed_idempotent(e.attributes[key]);
    }
}

/// Each kind of element has its role.
pub proof fn kinds_of_elements_have_their_roles(x: ElementTag)
    ensures
        x == ElementTag::Button ==> implicit_role(x) == "button"@,
        x == ElementTag::Link ==> implicit_role(x) == "link"@,
        x == ElementTag::Input || x == ElementTag::TextArea ==> implicit_role(x) == "textbox"@,
        x == ElementTag::Select ==> implicit_role(x) == "combobox"@,
        x == ElementTag::Checkbox ==> implicit_role(x) == "checkbox"@,
        x == ElementTag::Radio ==> implicit_role(x) == "radio"@,
        x == ElementTag::Option ==> implicit_role(x) == "option"@,
        x == ElementTag::Other ==> implicit_role(x) == "generic"@,
{
}

/// Each kind of element goes by its own name.
pub proof fn tags_go_by_their_names(x: ElementTag)
    ensures
        x == ElementTag::Button <==> tag_name(x) == "button"@,
        x == ElementTag::Link <==> tag_name(x) == "link"@,
        x == ElementTag::Input <==> tag_name(x) == "input"@,
        x == ElementTag::TextArea <==> tag_name(x) == "textarea"@,
        x == ElementTag::Select <==> tag_name(x) == "select"@,
        x == ElementTag::Checkbox <==> tag_name(x) == "checkbox"@,
        x == ElementTag::Radio <==> tag_name(x) == "radio"@,
        x == ElementTag::Option <==> tag_name(x) == "option"@,
        x == ElementTag::Other <==> tag_name(x) == "other"@,
{
    reveal_strlit("button");
    reveal_strlit("link");
    reveal_strlit("input");
    reveal_strlit("textarea");
    reveal_strlit("select");
    reveal_strlit("checkbox");
    reveal_strlit("radio");
    reveal_strlit("option");
    reveal_strlit("other");
    assert("button"@.len() != "link"@.len());
    assert("button"@.len() != "input"@.len());
    assert("button"@.len() != "textarea"@.len());
    assert("button"@[0] != "select"@[0]);
    assert("button"@.len() != "checkbox"@.len());
    assert("button"@.len() != "radio"@.len());
    assert("button"@[0] != "option"@[0]);
    assert("button"@.len() != "other"@.len());
    assert("link"@.len() != "input"@.len());
    assert("link"@.len() != "textarea"@.len());
    assert("link"@.len() != "select"@.len());
    assert("link"@.len() != "checkbox"@.len());
    assert("link"@.len() != "radio"@.len());
    assert("link"@.len() != "option"@.len());
    assert("link"@.len() != "other"@.len());
    assert("input"@.len() != "textarea"@.len());
    assert("input"@.len() != "select"@.len());
    assert("input"@.len() != "checkbox"@.len());
    assert("input"@[0] != "radio"@[0]);
    assert("input"@.len() != "option"@.len());
    assert("input"@[0] != "other"@[0]);
    assert("textarea"@.len() != "select"@.len());
    assert("textarea"@[0] != "checkbox"@[0]);
    assert("textarea"@.len() != "radio"@.len());
    assert("textarea"@.len() != "option"@.len());
    assert("textarea"@.len() != "other"@.len());
    assert("select"@.len() != "checkbox"@.len());
    assert("select"@.len() != "radio"@.len());
    assert("select"@[0] != "option"@[0]);
    assert("select"@.len() != "other"@.len());
    assert("checkbox"@.len() != "radio"@.len());
    assert("checkbox"@.len() != "option"@.len());
    assert("checkbox"@.len() != "other"@.len());
    assert("radio"@.len() != "option"@.len());
    assert("radio"@[0] != "other"@[0]);
    assert("option"@.len() != "other"@.len());
}

} // verus!
