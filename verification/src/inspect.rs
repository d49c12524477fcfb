//! Routing of inspection requests.

use vstd::prelude::*;
use crate::error::{self, ErrorCode, ErrorModel, RubError};
use crate::json::{self, Json, JsonModel};
use crate::text;

verus! {

/// Which handler answers an inspection.
#[derive(Clone, Copy, Debug, PartialEq, Eq, Structural)]
pub enum InspectHandler {
    Page,
    Read,
    List,
    Storage,
    Network,
}

/// An inspection, with the arguments that its handler gets.
#[derive(Debug)]
pub struct InspectRoute {
    pub handler: InspectHandler,
    pub sub: String,
    pub args: Json,
}

/// The handler of a subcommand.
pub open spec fn handler_of(sub: Seq<char>) -> Option<InspectHandler> {
    if sub == "page"@ {
        Some(InspectHandler::Page)
    } else if sub == "text"@ || sub == "html"@ || sub == "value"@ || sub == "attributes"@ || sub
        == "bbox"@ {
        Some(InspectHandler::Read)
    } else if sub == "list"@ {
        Some(InspectHandler::List)
    } else if sub == "storage"@ {
        Some(InspectHandler::Storage)
    } else if sub == "network"@ || sub == "curl"@ {
        Some(InspectHandler::Network)
    } else {
        None
    }
}

/// The arguments without the member that chose the handler.
pub open spec fn without_sub(args: JsonModel) -> JsonModel {
    match args {
        JsonModel::Object(members) => JsonModel::Object(members.remove("sub"@)),
        other => other,
    }
}

/// Takes the member that chose the handler out of the arguments; a handler
/// that accepts known members only would reject it.
pub fn strip_inspect_routing_key(args: &Json) -> (r: Json)
    ensures
        r@ == without_sub(args@),
{
    match args {
        Json::Object(object) => Json::Object(object.without("sub")),
        other => other.clone(),
    }
}

fn handler_for(sub: &str) -> (r: Option<InspectHandler>)
    ensures
        r == handler_of(sub@),
{
    if text::str_eq(sub, "page") {
        Some(InspectHandler::Page)
    } else if text::str_eq(sub, "text") || text::str_eq(sub, "html") || text::str_eq(sub, "value")
        || text::str_eq(sub, "attributes") || text::str_eq(sub, "bbox") {
        Some(InspectHandler::Read)
    } else if text::str_eq(sub, "list") {
        Some(InspectHandler::List)
    } else if text::str_eq(sub, "storage") {
        Some(InspectHandler::Storage)
    } else if text::str_eq(sub, "network") || text::str_eq(sub, "curl") {
        Some(InspectHandler::Network)
    } else {
        None
    }
}

/// Finds the handler of an inspection.
pub fn route_inspect(args: &Json) -> (r: Result<InspectRoute, RubError>)
    ensures
        match json::text_member(args@, "sub"@) {
            None => error::err_model(r) == Some(
                ErrorModel::Internal("Missing 'sub' argument for inspect"@),
            ),
            Some(sub) => match handler_of(sub) {
                Some(handler) => r is Ok && r->Ok_0.handler == handler && r->Ok_0.sub@ == sub
                    && r->Ok_0.args@ == without_sub(args@),
                None => error::err_model(r) == Some(
                    error::plain(
                        ErrorCode::InvalidInput,
                        "Unknown inspect subcommand: '"@ + sub
                            + "'. Valid: page, text, html, value, attributes, bbox, list, storage, network, curl"@,
                    ),
                ),
            },
        },
{
    let sub = match args.get_str("sub") {
        Some(sub) => sub,
        None => {
            return Err(RubError::Internal("Missing 'sub' argument for inspect".to_owned()));
        },
    };
    match handler_for(sub) {
        Some(handler) => Ok(
            InspectRoute { handler, sub: sub.to_owned(), args: strip_inspect_routing_key(args) },
        ),
        None => {
            let message = text::cat3(
                "Unknown inspect subcommand: '",
                sub,
                "'. Valid: page, text, html, value, attributes, bbox, list, storage, network, curl",
            );
            Err(RubError::domain(ErrorCode::InvalidInput, message.as_str()))
        },
    }
}

/// A handler never sees the member that chose it, and sees every other as it
/// was.
pub proof fn handlers_do_not_see_the_routing_key(args: JsonModel, key: Seq<char>)
    ensures
        json::member(without_sub(args), "sub"@) is None,
        key != "sub"@ ==> json::member(without_sub(args), key) == json::member(args, key),
{
}

/// Each subcommand has one handler: readings of an element share theirs, and so do the two
/// that show the network; any other word has none.
pub proof fn subcommands_have_one_handler(sub: Seq<char>)
    ensures
        handler_of(sub) == Some(InspectHandler::Page) <==> sub == "page"@,
        handler_of(sub) == Some(InspectHandler::Read) <==> sub == "text"@ || sub == "html"@ || sub
            == "value"@ || sub == "attributes"@ || sub == "bbox"@,
        handler_of(sub) == Some(InspectHandler::List) <==> sub == "list"@,
        handler_of(sub) == Some(InspectHandler::Storage) <==> sub == "storage"@,
        handler_of(sub) == Some(InspectHandler::Network) <==> sub == "network"@ || sub == "curl"@,
{
    reveal_strlit("page");
    reveal_strlit("text");
    reveal_strlit("html");
    reveal_strlit("value");
    reveal_strlit("attributes");
    reveal_strlit("bbox");
    reveal_strlit("list");
    reveal_strlit("storage");
    reveal_strlit("network");
    reveal_strlit("curl");
    assert("page"@[0] != "text"@[0]);
    assert("page"@[0] != "html"@[0]);
    assert("page"@.len() != "value"@.len());
    assert("page"@.len() != "attributes"@.len());
    assert("page"@[0] != "bbox"@[0]);
    assert("page"@[0] != "list"@[0]);
    assert("page"@.len() != "storage"@.len());
    assert("page"@.len() != "network"@.len());
    assert("page"@[0] != "curl"@[0]);
    assert("text"@[0] != "html"@[0]);
    assert("text"@.len() != "value"@.len());
    assert("text"@.len() != "attributes"@.len());
    assert("text"@[0] != "bbox"@[0]);
    assert("text"@[0] != "list"@[0]);
    assert("text"@.len() != "storage"@.len());
    assert("text"@.len() != "network"@.len());
    assert("text"@[0] != "curl"@[0]);
    assert("html"@.len() != "value"@.len());
    assert("html"@.len() != "attributes"@.len());
    assert("html"@[0] != "bbox"@[0]);
    assert("html"@[0] != "list"@[0]);
    assert("html"@.len() != "storage"@.len());
    assert("html"@.len() != "network"@.len());
    assert("html"@[0] != "curl"@[0]);
    assert("value"@.len() != "attributes"@.len());
    assert("value"@.len() != "bbox"@.len());
    assert("value"@.len() != "list"@.len());
    assert("value"@.len() != "storage"@.len());
    assert("value"@.len() != "network"@.len());
    assert("value"@.len() != "curl"@.len());
    assert("attributes"@.len() != "bbox"@.len());
    assert("attributes"@.len() != "list"@.len());
    assert("attributes"@.len() != "storage"@.len());
    assert("attributes"@.len() != "network"@.len());
    assert("attributes"@.len() != "curl"@.len());
    assert("bbox"@[0] != "list"@[0]);
    assert("bbox"@.len() != "storage"@.len());
    assert("bbox"@.len() != "network"@.len());
    assert("bbox"@[0] != "curl"@[0]);
    assert("list"@.len() != "storage"@.len());
    assert("list"@.len() != "network"@.len());
    assert("list"@[0] != "curl"@[0]);
    assert("storage"@[0] != "network"@[0]);
    assert("storage"@.len() != "curl"@.len());
    assert("network"@.len() != "curl"@.len());
}

/// An inspection is routed exactly where it names a handler, with the name and without the
/// routing key.
pub proof fn inspections_are_routed_by_their_names(args: Json, r: Result<InspectRoute, RubError>)
    requires
        call_ensures(route_inspect, (&args,), r),
    ensures
        r is Ok <==> (json::member(args@, "sub"@) matches Some(JsonModel::Text(sub)) && handler_of(
            sub,
        ) is Some),
        r matches Ok(route) ==> handler_of(route.sub@) == Some(route.handler) && json::member(
            args@,
            "sub"@,
        ) == Some(JsonModel::Text(route.sub@)) && json::member(route.args@, "sub"@) is None,
{
    handlers_do_not_see_the_routing_key(args@, "sub"@);
}

} // verus!
