//! The arguments of interaction requests.

use vstd::prelude::*;
use crate::error::{self, ErrorCode, RubError};
use crate::json;
use crate::locator::LocatorRequestArgs;
use crate::text;

verus! {

/// How a target is clicked.
#[derive(Clone, Copy, Debug, PartialEq, Eq, Structural)]
pub enum ClickGesture {
    Single,
    Double,
    Right,
}

/// A click, on an element or at a point, whose numbers are as JSON spells them.
#[derive(Debug)]
pub struct ClickArgs {
    pub gesture: Option<String>,
    pub xy: Option<(String, String)>,
    pub locator: LocatorRequestArgs,
}

/// Keys that go to what has the focus.
#[derive(Debug)]
pub struct KeysArgs {
    pub keys: String,
}

/// Text for an element, or for what has the focus.
#[derive(Debug)]
pub struct TextEntryArgs {
    pub text: String,
    pub clear: bool,
    pub locator: LocatorRequestArgs,
}

#[derive(Debug)]
pub struct HoverArgs {
    pub locator: LocatorRequestArgs,
}

/// A file for a file input.
#[derive(Debug)]
pub struct UploadArgs {
    pub path: String,
    pub locator: LocatorRequestArgs,
}

/// An option of a select element.
#[derive(Debug)]
pub struct SelectArgs {
    pub value: String,
    pub locator: LocatorRequestArgs,
}

pub open spec fn gesture_name(gesture: ClickGesture) -> Seq<char> {
    match gesture {
        ClickGesture::Single => "single"@,
        ClickGesture::Double => "double"@,
        ClickGesture::Right => "right"@,
    }
}

/// Two gestures never share a name.
pub proof fn gesture_name_injective(a: ClickGesture, b: ClickGesture)
    requires
        gesture_name(a) == gesture_name(b),
    ensures
        a == b,
{
    reveal_strlit("single");
    reveal_strlit("double");
    reveal_strlit("right");
    assert("single"@[0] != "double"@[0]);
}

/// The gesture of a click; without one it is a single click.
pub open spec fn gesture_outcome(
    gesture: Option<Seq<char>>,
    r: Result<ClickGesture, RubError>,
) -> bool {
    let name = match gesture {
        Some(name) => name,
        None => "single"@,
    };
    match r {
        Ok(g) => name == gesture_name(g),
        Err(e) => (forall|g: ClickGesture| name != #[trigger] gesture_name(g)) && e@
            == error::plain(ErrorCode::InvalidInput, "Unsupported click gesture: "@ + name),
    }
}

pub fn requested_click_gesture(gesture: Option<&str>) -> (r: Result<ClickGesture, RubError>)
    ensures
        gesture_outcome(json::opt_str_text(gesture), r),
{
    let name = match gesture {
        Some(name) => name,
        None => "single",
    };
    if text::str_eq(name, "single") {
        Ok(ClickGesture::Single)
    } else if text::str_eq(name, "double") {
        Ok(ClickGesture::Double)
    } else if text::str_eq(name, "right") {
        Ok(ClickGesture::Right)
    } else {
        let message = text::cat2("Unsupported click gesture: ", name);
        Err(RubError::domain(ErrorCode::InvalidInput, message.as_str()))
    }
}

/// The command that a click is reported under, whatever its gesture.
pub fn click_command_name(gesture: ClickGesture) -> (r: &'static str)
    ensures
        r@ == "click"@,
{
    match gesture {
        ClickGesture::Single => "click",
        ClickGesture::Double | ClickGesture::Right => "click",
    }
}

pub fn click_gesture_name(gesture: ClickGesture) -> (r: &'static str)
    ensures
        r@ == gesture_name(gesture),
{
    match gesture {
        ClickGesture::Single => "single",
        ClickGesture::Double => "double",
        ClickGesture::Right => "right",
    }
}

/// Each gesture goes by its own name.
pub proof fn gestures_go_by_their_names(x: ClickGesture)
    ensures
        x == ClickGesture::Single <==> gesture_name(x) == "single"@,
        x == ClickGesture::Double <==> gesture_name(x) == "double"@,
        x == ClickGesture::Right <==> gesture_name(x) == "right"@,
{
    reveal_strlit("single");
    reveal_strlit("double");
    reveal_strlit("right");
    assert("single"@[0] != "double"@[0]);
    assert("single"@.len() != "right"@.len());
    assert("double"@.len() != "right"@.len());
}

} // verus!
