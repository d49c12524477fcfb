//! What an element of a snapshot means: its role, its label, its state.

use vstd::prelude::*;
use crate::json;
use crate::model::{self, AXInfo, AXModel, BoxModel, Element, ElementModel, ElementTag};
use crate::text;

verus! {

/// The trimmed text, unless it is empty.
pub open spec fn nonblank(s: Seq<char>) -> Option<Seq<char>> {
    if text::trimmed(s).len() > 0 {
        Some(text::trimmed(s))
    } else {
        None
    }
}

pub fn non_empty(value: &str) -> (r: Option<&str>)
    ensures
        json::opt_str_text(r) == nonblank(value@),
{
    let trimmed = text::trim(value);
    if trimmed.is_empty() {
        None
    } else {
        Some(trimmed)
    }
}

/// The trimmed value of an attribute, unless it is blank.
pub open spec fn attribute(element: ElementModel, key: Seq<char>) -> Option<Seq<char>> {
    match element.attributes.get(key) {
        Some(value) => nonblank(value),
        None => None,
    }
}

pub fn attr<'a>(element: &'a Element, key: &str) -> (r: Option<&'a str>)
    ensures
        json::opt_str_text(r) == attribute(element@, key@),
{
    match element.attributes.get(key) {
        Some(value) => non_empty(value),
        None => None,
    }
}

/// The attribute has the value, up to the case of ASCII letters.
pub open spec fn attribute_is(element: ElementModel, key: Seq<char>, expected: Seq<char>) -> bool {
    match element.attributes.get(key) {
        Some(value) => text::same_ignoring_ascii_case(value, expected),
        None => false,
    }
}

pub fn attr_is(element: &Element, key: &str, expected: &str) -> (r: bool)
    ensures
        r == attribute_is(element@, key@, expected@),
{
    match element.attributes.get(key) {
        Some(value) => text::eq_ignore_ascii_case(value, expected),
        None => false,
    }
}

/// The element is one that its user can edit in place.
pub open spec fn content_editable(element: ElementModel) -> bool {
    match element.attributes.get("contenteditable"@) {
        Some(value) => !text::same_ignoring_ascii_case(value, "false"@),
        None => false,
    }
}

pub fn is_content_editable(element: &Element) -> (r: bool)
    ensures
        r == content_editable(element@),
{
    match element.attributes.get("contenteditable") {
        Some(value) => !text::eq_ignore_ascii_case(value, "false"),
        None => false,
    }
}

/// The role that an element has by its kind.
pub open spec fn implicit_role(element: ElementModel) -> Seq<char> {
    match element.tag {
        ElementTag::Button => "button"@,
        ElementTag::Link => "link"@,
        ElementTag::Input | ElementTag::TextArea => "textbox"@,
        ElementTag::Select => "combobox"@,
        ElementTag::Checkbox => "checkbox"@,
        ElementTag::Radio => "radio"@,
        ElementTag::Option => "option"@,
        ElementTag::Other => if content_editable(element) {
            "textbox"@
        } else {
            "generic"@
        },
    }
}

pub fn fallback_role(element: &Element) -> (r: &'static str)
    ensures
        r@ == implicit_role(element@),
{
    match element.tag {
        ElementTag::Button => "button",
        ElementTag::Link => "link",
        ElementTag::Input | ElementTag::TextArea => "textbox",
        ElementTag::Select => "combobox",
        ElementTag::Checkbox => "checkbox",
        ElementTag::Radio => "radio",
        ElementTag::Option => "option",
        ElementTag::Other => if is_content_editable(element) {
            "textbox"
        } else {
            "generic"
        },
    }
}

pub open spec fn ax_role(info: Option<AXModel>) -> Option<Seq<char>> {
    match info {
        Some(info) => info.role,
        None => None,
    }
}

pub open spec fn ax_name(info: Option<AXModel>) -> Option<Seq<char>> {
    match info {
        Some(info) => info.accessible_name,
        None => None,
    }
}

/// The first of two that is present.
pub open spec fn or(a: Option<Seq<char>>, b: Option<Seq<char>>) -> Option<Seq<char>> {
    match a {
        Some(s) => Some(s),
        None => b,
    }
}

pub(crate) fn or_str<'a>(a: Option<&'a str>, b: Option<&'a str>) -> (r: Option<&'a str>)
    ensures
        json::opt_str_text(r) == or(json::opt_str_text(a), json::opt_str_text(b)),
{
    match a {
        Some(s) => Some(s),
        None => b,
    }
}

pub(crate) fn ax_role_str(info: &Option<AXInfo>) -> (r: Option<&str>)
    ensures
        json::opt_str_text(r) == ax_role(model::opt_ax(*info)),
{
    match info {
        Some(info) => match &info.role {
            Some(role) => Some(role.as_str()),
            None => None,
        },
        None => None,
    }
}

pub(crate) fn ax_name_str(info: &Option<AXInfo>) -> (r: Option<&str>)
    ensures
        json::opt_str_text(r) == ax_name(model::opt_ax(*info)),
{
    match info {
        Some(info) => match &info.accessible_name {
            Some(name) => Some(name.as_str()),
            None => None,
        },
        None => None,
    }
}

/// The role of an element: from the accessibility tree, else from its `role`
/// attribute, else from its kind.
pub open spec fn role_of(element: ElementModel) -> Seq<char> {
    text::trimmed(
        match or(ax_role(element.ax_info), attribute(element, "role"@)) {
            Some(role) => role,
            None => implicit_role(element),
        },
    )
}

pub fn semantic_role(element: &Element) -> (r: String)
    ensures
        r@ == role_of(element@),
{
    let role = match or_str(ax_role_str(&element.ax_info), attr(element, "role")) {
        Some(role) => role,
        None => fallback_role(element),
    };
    text::trim(role).to_owned()
}

/// The label of an element: the first that there is of its accessible name,
/// its text, and its labelling attributes.
pub open spec fn label_of(element: ElementModel) -> Seq<char> {
    let label = or(ax_name(element.ax_info), nonblank(element.text));
    let label = or(label, attribute(element, "aria-label"@));
    let label = or(label, attribute(element, "placeholder"@));
    let label = or(label, attribute(element, "name"@));
    let label = or(label, attribute(element, "value"@));
    let label = or(label, attribute(element, "title"@));
    let label = or(label, attribute(element, "alt"@));
    match label {
        Some(s) => text::trimmed(s),
        None => Seq::empty(),
    }
}

pub fn accessible_label(element: &Element) -> (r: String)
    ensures
        r@ == label_of(element@),
{
    let label = or_str(ax_name_str(&element.ax_info), non_empty(element.text.as_str()));
    let label = or_str(label, attr(element, "aria-label"));
    let label = or_str(label, attr(element, "placeholder"));
    let label = or_str(label, attr(element, "name"));
    let label = or_str(label, attr(element, "value"));
    let label = or_str(label, attr(element, "title"));
    let label = or_str(label, attr(element, "alt"));
    match label {
        Some(s) => text::trim(s).to_owned(),
        None => String::new(),
    }
}

/// The identifier that an element has for tests.
pub open spec fn test_id_of(element: ElementModel) -> Option<Seq<char>> {
    or(
        or(attribute(element, "data-testid"@), attribute(element, "data-test-id"@)),
        attribute(element, "data-test"@),
    )
}

pub fn test_id(element: &Element) -> (r: Option<&str>)
    ensures
        json::opt_str_text(r) == test_id_of(element@),
{
    let id = or_str(attr(element, "data-testid"), attr(element, "data-test-id"));
    or_str(id, attr(element, "data-test"))
}

/// What kind of text control an element is, where text can safely be written
/// to it.
pub open spec fn text_target_kind(element: ElementModel) -> Option<Seq<char>> {
    match element.tag {
        ElementTag::Input | ElementTag::TextArea => Some("plain_text_control"@),
        ElementTag::Other => if content_editable(element) {
            if attribute_is(element, "role"@, "textbox"@) {
                Some("semantic_textbox"@)
            } else {
                Some("contenteditable"@)
            }
        } else {
            None
        },
        _ => None,
    }
}

pub fn editor_safe_text_target_kind(element: &Element) -> (r: Option<&'static str>)
    ensures
        json::opt_str_text(r) == text_target_kind(element@),
{
    match element.tag {
        ElementTag::Input | ElementTag::TextArea => Some("plain_text_control"),
        ElementTag::Other => if is_content_editable(element) {
            if attr_is(element, "role", "textbox") {
                Some("semantic_textbox")
            } else {
                Some("contenteditable")
            }
        } else {
            None
        },
        _ => None,
    }
}

/// The length of a number's text before its exponent.
pub open spec fn mantissa_len(s: Seq<char>) -> int
    decreases s.len(),
{
    if s.len() == 0 || s[0] == 'e' || s[0] == 'E' {
        0
    } else {
        1 + mantissa_len(s.drop_first())
    }
}

/// The text spells a number greater than zero: it has no sign, and a digit
/// other than zero before its exponent.
pub open spec fn positive(s: Seq<char>) -> bool {
    &&& s.len() > 0 && s[0] != '-'
    &&& exists|i: int| 0 <= i < mantissa_len(s) && '1' <= #[trigger] s[i] <= '9'
}

fn is_positive(s: &str) -> (r: bool)
    ensures
        r == positive(s@),
{
    let chars = text::chars_of(s);
    if chars.len() == 0 || chars[0] == '-' {
        return false;
    }
    let mut i: usize = 0;
    assert(chars@.skip(0) =~= chars@);
    while i < chars.len()
        invariant
            i <= chars@.len(),
            chars@ == s@,
            chars@.len() > 0 && chars@[0] != '-',
            mantissa_len(chars@) == i + mantissa_len(chars@.skip(i as int)),
            forall|j: int| 0 <= j < i ==> !('1' <= #[trigger] chars@[j] <= '9'),
        decreases chars@.len() - i,
    {
        assert(chars@.skip(i as int).drop_first() =~= chars@.skip(i + 1));
        let c = chars[i];
        if c == 'e' || c == 'E' {
            return false;
        }
        if '1' <= c && c <= '9' {
            proof {
                mantissa_len_nonnegative(chars@.skip(i + 1));
            }
            return true;
        }
        i += 1;
    }
    false
}

proof fn mantissa_len_nonnegative(s: Seq<char>)
    ensures
        mantissa_len(s) >= 0,
    decreases s.len(),
{
    if s.len() > 0 && s[0] != 'e' && s[0] != 'E' {
        mantissa_len_nonnegative(s.drop_first());
    }
}

/// The element has an area on the page.
pub open spec fn visible_bbox(bbox: Option<BoxModel>) -> bool {
    bbox matches Some(b) && positive(b.width) && positive(b.height)
}

pub fn has_snapshot_visible_bbox(element: &Element) -> (r: bool)
    ensures
        r == visible_bbox(element@.bounding_box),
{
    match &element.bounding_box {
        Some(b) => is_positive(b.width.as_str()) && is_positive(b.height.as_str()),
        None => false,
    }
}

/// The element is disabled.
pub open spec fn disabled(element: ElementModel) -> bool {
    element.attributes.dom().contains("disabled"@) || attribute_is(
        element,
        "aria-disabled"@,
        "true"@,
    )
}

pub fn is_disabled_in_snapshot(element: &Element) -> (r: bool)
    ensures
        r == disabled(element@),
{
    element.attributes.contains_key("disabled") || attr_is(element, "aria-disabled", "true")
}

/// The element is a text control that cannot be written to.
pub open spec fn readonly(element: ElementModel) -> bool {
    text_target_kind(element) is Some && (element.attributes.dom().contains("readonly"@)
        || attribute_is(element, "aria-readonly"@, "true"@))
}

pub fn is_readonly_in_snapshot(element: &Element) -> (r: bool)
    ensures
        r == readonly(element@),
{
    editor_safe_text_target_kind(element).is_some() && (element.attributes.contains_key("readonly")
        || attr_is(element, "aria-readonly", "true"))
}

pub fn is_prefer_enabled_blocked_in_snapshot(element: &Element) -> (r: bool)
    ensures
        r == (disabled(element@) || readonly(element@)),
{
    is_disabled_in_snapshot(element) || is_readonly_in_snapshot(element)
}

/// The role that the accessibility tree gives goes before the `role` attribute, and that
/// before the role of the element's kind; a blank attribute is as good as none.
pub proof fn roles_go_by_tree_attribute_and_kind(e: ElementModel)
    ensures
        ({
            let tree = match e.ax_info {
                Some(info) => info.role,
                None => None,
            };
            let attribute = e.attributes.dom().contains("role"@) && !text::blank(
                e.attributes["role"@],
            );
            &&& tree matches Some(role) ==> role_of(e) == text::trimmed(role)
            &&& tree is None && attribute ==> role_of(e) == text::trimmed(e.attributes["role"@])
            &&& tree is None && !attribute ==> role_of(e) == text::trimmed(implicit_role(e))
        }),
{
    if e.attributes.dom().contains("role"@) {
        text::blank_texts_trim_to_nothing(e.attributes["role"@]);
        text::trimmed_idempotent(e.attributes["role"@]);
    }
}

/// Kinds have the role that a client knows them by; what its user can edit in place is a
/// text box.
pub proof fn kinds_have_their_roles(e: ElementModel)
    ensures
        e.tag == ElementTag::Button ==> implicit_role(e) == "button"@,
        e.tag == ElementTag::Link ==> implicit_role(e) == "link"@,
        e.tag == ElementTag::Input || e.tag == ElementTag::TextArea ==> implicit_role(e)
            == "textbox"@,
        e.tag == ElementTag::Select ==> implicit_role(e) == "combobox"@,
        e.tag == ElementTag::Checkbox ==> implicit_role(e) == "checkbox"@,
        e.tag == ElementTag::Radio ==> implicit_role(e) == "radio"@,
        e.tag == ElementTag::Option ==> implicit_role(e) == "option"@,
        e.tag == ElementTag::Other ==> implicit_role(e) == if e.attributes.dom().contains(
            "contenteditable"@,
        ) && !text::same_ignoring_ascii_case(e.attributes["contenteditable"@], "false"@) {
            "textbox"@
        } else {
            "generic"@
        },
{
}

/// The label of an element is the first that there is of its accessible name, its text,
/// `aria-label`, `placeholder`, `name`, `value`, `title` and `alt`, without blanks around
/// it; all but the accessible name count only where they are not blank.
pub proof fn labels_go_in_order(e: ElementModel)
    ensures
        ({
            let name = match e.ax_info {
                Some(info) => info.accessible_name,
                None => None,
            };
            let given = |key: Seq<char>|
                e.attributes.dom().contains(key) && !text::blank(e.attributes[key]);
            let own = |key: Seq<char>| text::trimmed(e.attributes[key]);
            let silent = name is None && text::blank(e.text);
            &&& name matches Some(n) ==> label_of(e) == text::trimmed(n)
            &&& name is None && !text::blank(e.text) ==> label_of(e) == text::trimmed(e.text)
            &&& silent && given("aria-label"@) ==> label_of(e) == own("aria-label"@)
            &&& silent && !given("aria-label"@) && given("placeholder"@) ==> label_of(e) == own(
                "placeholder"@,
            )
            &&& silent && !given("aria-label"@) && !given("placeholder"@) && given("name"@) ==> label_of(
                e,
            ) == own("name"@)
            &&& silent && !given("aria-label"@) && !given("placeholder"@) && !given("name"@) && given(
                "value"@,
            ) ==> label_of(e) == own("value"@)
            &&& silent && !given("aria-label"@) && !given("placeholder"@) && !given("name"@) && !given(
                "value"@,
            ) && given("title"@) ==> label_of(e) == own("title"@)
            &&& silent && !given("aria-label"@) && !given("placeholder"@) && !given("name"@) && !given(
                "value"@,
            ) && !given("title"@) && given("alt"@) ==> label_of(e) == own("alt"@)
            &&& silent && !given("aria-label"@) && !given("placeholder"@) && !given("name"@) && !given(
                "value"@,
            ) && !given("title"@) && !given("alt"@) ==> label_of(e).len() == 0
        }),
{
    text::blank_texts_trim_to_nothing(e.text);
    text::trimmed_idempotent(e.text);
    attribute_is_trimmed(e, "aria-label"@);
    attribute_is_trimmed(e, "placeholder"@);
    attribute_is_trimmed(e, "name"@);
    attribute_is_trimmed(e, "value"@);
    attribute_is_trimmed(e, "title"@);
    attribute_is_trimmed(e, "alt"@);
}

/// An attribute counts where it is there and not blank, and then without the blanks around
/// it.
pub proof fn attribute_is_trimmed(e: ElementModel, key: Seq<char>)
    ensures
        attribute(e, key) is Some <==> e.attributes.dom().contains(key) && !text::blank(
            e.attributes[key],
        ),
        attribute(e, key) matches Some(v) ==> v == text::trimmed(e.attributes[key])
            && text::trimmed(v) == v,
{
    if e.attributes.dom().contains(key) {
        text::blank_texts_trim_to_nothing(e.attributes[key]);
        text::trimmed_idempotent(e.attributes[key]);
    }
}

/// A test identifier is the first that there is of `data-testid`, `data-test-id` and
/// `data-test`.
pub proof fn test_ids_go_in_order(e: ElementModel)
    ensures
        attribute(e, "data-testid"@) is Some ==> test_id_of(e) == attribute(e, "data-testid"@),
        attribute(e, "data-testid"@) is None && attribute(e, "data-test-id"@) is Some
            ==> test_id_of(e) == attribute(e, "data-test-id"@),
        attribute(e, "data-testid"@) is None && attribute(e, "data-test-id"@) is None
            ==> test_id_of(e) == attribute(e, "data-test"@),
{
}

/// An element is disabled exactly where it has the attribute, whatever its value, or where
/// `aria-disabled` is true in any case.
pub proof fn disabled_elements_say_so(e: ElementModel)
    ensures
        e.attributes.dom().contains("disabled"@) ==> disabled(e),
        !e.attributes.dom().contains("disabled"@) ==> (disabled(e) <==> e.attributes.dom().contains(
            "aria-disabled"@,
        ) && text::same_ignoring_ascii_case(e.attributes["aria-disabled"@], "true"@)),
{
}

/// Only what takes text can be read-only, and it is where it has the attribute, whatever
/// its value, or where `aria-readonly` is true in any case.
pub proof fn readonly_elements_say_so(e: ElementModel)
    ensures
        text_target_kind(e) is None ==> !readonly(e),
        text_target_kind(e) is Some && e.attributes.dom().contains("readonly"@) ==> readonly(e),
        text_target_kind(e) is Some && !e.attributes.dom().contains("readonly"@) ==> (readonly(e)
            <==> e.attributes.dom().contains("aria-readonly"@) && text::same_ignoring_ascii_case(
            e.attributes["aria-readonly"@],
            "true"@,
        )),
{
}

/// Text is taken by inputs, text areas and what can be edited in place; the last is a text
/// box where its role says so.
pub proof fn text_is_taken_by_editors(e: ElementModel)
    ensures
        ({
            let plain = e.tag == ElementTag::Input || e.tag == ElementTag::TextArea;
            let edited = e.tag == ElementTag::Other && e.attributes.dom().contains(
                "contenteditable"@,
            ) && !text::same_ignoring_ascii_case(e.attributes["contenteditable"@], "false"@);
            let boxed = e.attributes.dom().contains("role"@) && text::same_ignoring_ascii_case(
                e.attributes["role"@],
                "textbox"@,
            );
            &&& text_target_kind(e) is Some <==> plain || edited
            &&& plain ==> text_target_kind(e) == Some("plain_text_control"@)
            &&& edited && boxed ==> text_target_kind(e) == Some("semantic_textbox"@)
            &&& edited && !boxed ==> text_target_kind(e) == Some("contenteditable"@)
        }),
{
}

/// An element has an area exactly where its box is known and both its width and its height
/// are more than zero: written without a minus, with a digit other than zero before any
/// exponent.
pub proof fn areas_need_width_and_height(width: Seq<char>, height: Seq<char>, b: BoxModel)
    ensures
        !visible_bbox(None),
        visible_bbox(Some(b)) <==> positive(b.width) && positive(b.height),
        positive(width) <==> width.len() > 0 && width[0] != '-' && exists|i: int|
            0 <= i < width.len() && '1' <= #[trigger] width[i] <= '9' && forall|j: int|
                0 <= j < i ==> (#[trigger] width[j]) != 'e' && width[j] != 'E',
{
    mantissa_ends_at_the_exponent(width);
    if positive(width) {
        let i = choose|i: int| 0 <= i < mantissa_len(width) && '1' <= #[trigger] width[i] <= '9';
        assert('1' <= width[i] <= '9');
    }
    if width.len() > 0 && width[0] != '-' && exists|i: int|
        0 <= i < width.len() && '1' <= #[trigger] width[i] <= '9' && forall|j: int|
            0 <= j < i ==> (#[trigger] width[j]) != 'e' && width[j] != 'E' {
        let i = choose|i: int|
            0 <= i < width.len() && '1' <= #[trigger] width[i] <= '9' && forall|j: int|
                0 <= j < i ==> (#[trigger] width[j]) != 'e' && width[j] != 'E';
        if i >= mantissa_len(width) {
            let k = mantissa_len(width);
            assert(width[k] == 'e' || width[k] == 'E');
            assert(k < i || k == i);
        }
    }
}

proof fn mantissa_ends_at_the_exponent(s: Seq<char>)
    ensures
        0 <= mantissa_len(s) <= s.len(),
        forall|j: int| 0 <= j < mantissa_len(s) ==> (#[trigger] s[j]) != 'e' && s[j] != 'E',
        mantissa_len(s) < s.len() ==> s[mantissa_len(s)] == 'e' || s[mantissa_len(s)] == 'E',
    decreases s.len(),
{
    if s.len() > 0 && s[0] != 'e' && s[0] != 'E' {
        let rest = s.drop_first();
        mantissa_ends_at_the_exponent(rest);
        assert forall|j: int| 0 <= j < mantissa_len(s) implies (#[trigger] s[j]) != 'e' && s[j]
            != 'E' by {
            if j > 0 {
                assert(rest[j - 1] == s[j]);
            }
        }
    }
}

} // verus!
