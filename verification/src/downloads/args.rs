//! What a download request asks for.

use vstd::prelude::*;
use crate::error::{self, ErrorCode, RubError};
use crate::json::{self, Json, JsonModel};
use crate::text;
use super::projection::{DownloadEntry, DownloadState};

verus! {

/// The kinds of download request.
#[derive(Clone, Copy, Debug, PartialEq, Eq, Structural)]
pub enum DownloadSubcommand {
    Wait,
    Cancel,
    Save,
}

/// The kind that a request names.
pub open spec fn subcommand_named(name: Seq<char>) -> Option<DownloadSubcommand> {
    if name == "wait"@ {
        Some(DownloadSubcommand::Wait)
    } else if name == "cancel"@ {
        Some(DownloadSubcommand::Cancel)
    } else if name == "save"@ {
        Some(DownloadSubcommand::Save)
    } else {
        None
    }
}

/// The name of the kind in a request; waiting where it has none.
pub open spec fn requested_subcommand(args: JsonModel) -> Seq<char> {
    match json::text_member(args, "sub"@) {
        Some(name) => name,
        None => "wait"@,
    }
}

impl DownloadSubcommand {
    /// Which kind of download request this is.
    pub fn parse(args: &Json) -> (r: Result<DownloadSubcommand, RubError>)
        ensures
            match r {
                Ok(sub) => subcommand_named(requested_subcommand(args@)) == Some(sub),
                Err(e) => subcommand_named(requested_subcommand(args@)) is None && e@
                    == error::plain(
                    ErrorCode::InvalidInput,
                    "Unknown download subcommand: '"@ + requested_subcommand(args@) + "'"@,
                ),
            },
    {
        let name = match args.get_str("sub") {
            Some(name) => name,
            None => "wait",
        };
        if text::str_eq(name, "wait") {
            return Ok(DownloadSubcommand::Wait);
        }
        if text::str_eq(name, "cancel") {
            return Ok(DownloadSubcommand::Cancel);
        }
        if text::str_eq(name, "save") {
            return Ok(DownloadSubcommand::Save);
        }
        let message = text::cat3("Unknown download subcommand: '", name, "'");
        Err(RubError::domain(ErrorCode::InvalidInput, message.as_str()))
    }
}

/// A request to wait for a download.
#[derive(Debug)]
pub struct DownloadWaitArgs {
    pub id: Option<String>,
    pub state: Option<String>,
    pub timeout_ms: Option<u64>,
}

/// A request to cancel a download.
#[derive(Debug)]
pub struct DownloadCancelArgs {
    pub id: String,
}

/// What a client can wait for.
#[derive(Clone, Copy, Debug, PartialEq, Eq, Structural)]
pub enum DownloadWaitState {
    Started,
    InProgress,
    Completed,
    Failed,
    Canceled,
    Terminal,
}

pub open spec fn wait_label(state: DownloadWaitState) -> Seq<char> {
    match state {
        DownloadWaitState::Started => "started"@,
        DownloadWaitState::InProgress => "in_progress"@,
        DownloadWaitState::Completed => "completed"@,
        DownloadWaitState::Failed => "failed"@,
        DownloadWaitState::Canceled => "canceled"@,
        DownloadWaitState::Terminal => "terminal"@,
    }
}

pub fn wait_state_label(state: DownloadWaitState) -> (r: &'static str)
    ensures
        r@ == wait_label(state),
{
    match state {
        DownloadWaitState::Started => "started",
        DownloadWaitState::InProgress => "in_progress",
        DownloadWaitState::Completed => "completed",
        DownloadWaitState::Failed => "failed",
        DownloadWaitState::Canceled => "canceled",
        DownloadWaitState::Terminal => "terminal",
    }
}

/// What a name of a state means.
pub open spec fn wait_state_named(name: Seq<char>) -> Option<DownloadWaitState> {
    if name == "started"@ {
        Some(DownloadWaitState::Started)
    } else if name == "in_progress"@ {
        Some(DownloadWaitState::InProgress)
    } else if name == "completed"@ {
        Some(DownloadWaitState::Completed)
    } else if name == "failed"@ {
        Some(DownloadWaitState::Failed)
    } else if name == "canceled"@ {
        Some(DownloadWaitState::Canceled)
    } else if name == "terminal"@ {
        Some(DownloadWaitState::Terminal)
    } else {
        None
    }
}

/// The state that a request waits for; completion where it names none.
pub open spec fn requested_state(value: Option<Seq<char>>) -> Seq<char> {
    match value {
        Some(name) => name,
        None => "completed"@,
    }
}

/// What reading the name of a state gives.
pub open spec fn parsed_wait_state(value: Option<Seq<char>>) -> Result<
    DownloadWaitState,
    error::ErrorModel,
> {
    match wait_state_named(requested_state(value)) {
        Some(state) => Ok(state),
        None => Err(
            error::plain(
                ErrorCode::InvalidInput,
                "Unknown download wait state '"@ + requested_state(value) + "'"@,
            ),
        ),
    }
}

pub fn parse_wait_state(value: Option<&str>) -> (r: Result<DownloadWaitState, RubError>)
    ensures
        match r {
            Ok(state) => parsed_wait_state(json::opt_str_text(value)) == Ok::<
                DownloadWaitState,
                error::ErrorModel,
            >(state),
            Err(e) => parsed_wait_state(json::opt_str_text(value)) == Err::<
                DownloadWaitState,
                error::ErrorModel,
            >(e@),
        },
{
    let name = match value {
        Some(name) => name,
        None => "completed",
    };
    if text::str_eq(name, "started") {
        return Ok(DownloadWaitState::Started);
    }
    if text::str_eq(name, "in_progress") {
        return Ok(DownloadWaitState::InProgress);
    }
    if text::str_eq(name, "completed") {
        return Ok(DownloadWaitState::Completed);
    }
    if text::str_eq(name, "failed") {
        return Ok(DownloadWaitState::Failed);
    }
    if text::str_eq(name, "canceled") {
        return Ok(DownloadWaitState::Canceled);
    }
    if text::str_eq(name, "terminal") {
        return Ok(DownloadWaitState::Terminal);
    }
    let message = text::cat3("Unknown download wait state '", name, "'");
    Err(RubError::domain(ErrorCode::InvalidInput, message.as_str()))
}

/// Whether a download in a state is what a client waits for.
pub open spec fn awaited(state: DownloadState, desired: DownloadWaitState) -> bool {
    match desired {
        DownloadWaitState::Started => state == DownloadState::Started,
        DownloadWaitState::InProgress => state == DownloadState::InProgress,
        DownloadWaitState::Completed => state == DownloadState::Completed,
        DownloadWaitState::Failed => state == DownloadState::Failed,
        DownloadWaitState::Canceled => state == DownloadState::Canceled,
        DownloadWaitState::Terminal => state == DownloadState::Completed || state
            == DownloadState::Failed || state == DownloadState::Canceled,
    }
}

pub fn matches_wait_state(download: &DownloadEntry, desired: DownloadWaitState) -> (r: bool)
    ensures
        r == awaited(download.state, desired),
{
    match desired {
        DownloadWaitState::Started => download.state == DownloadState::Started,
        DownloadWaitState::InProgress => download.state == DownloadState::InProgress,
        DownloadWaitState::Completed => download.state == DownloadState::Completed,
        DownloadWaitState::Failed => download.state == DownloadState::Failed,
        DownloadWaitState::Canceled => download.state == DownloadState::Canceled,
        DownloadWaitState::Terminal => matches!(
            download.state,
            DownloadState::Completed | DownloadState::Failed | DownloadState::Canceled
        ),
    }
}

/// The label of a state names the state.
pub proof fn label_names_its_state(state: DownloadWaitState)
    ensures
        wait_state_named(wait_label(state)) == Some(state),
{
    reveal_strlit("started");
    reveal_strlit("in_progress");
    reveal_strlit("completed");
    reveal_strlit("failed");
    reveal_strlit("canceled");
    reveal_strlit("terminal");
    assert("started"@[0] == 's');
    assert("in_progress"@[0] == 'i');
    assert("completed"@[1] == 'o');
    assert("canceled"@[1] == 'a');
    assert("failed"@[0] == 'f');
    assert("terminal"@[0] == 't');
    assert("completed"@[0] == 'c');
    assert("canceled"@[0] == 'c');
}

/// A download that ended stays what a client waits for who waits for its end,
/// and one that goes on never is.
pub proof fn terminal_states_are_the_ends(state: DownloadState)
    ensures
        awaited(state, DownloadWaitState::Terminal) <==> state != DownloadState::Started && state
            != DownloadState::InProgress,
{
}

/// Every state is what a client waits for who names that state; who waits for the end
/// waits for any state in which nothing more comes.
pub proof fn states_are_awaited_by_their_names(state: DownloadState, desired: DownloadWaitState)
    ensures
        desired != DownloadWaitState::Terminal ==> (awaited(state, desired) <==> wait_label(desired)
            == super::projection::state_label(state)),
        awaited(state, DownloadWaitState::Terminal) <==> state == DownloadState::Completed || state
            == DownloadState::Failed || state == DownloadState::Canceled,
{
    reveal_strlit("started");
    reveal_strlit("in_progress");
    reveal_strlit("completed");
    reveal_strlit("failed");
    reveal_strlit("canceled");
    reveal_strlit("terminal");
    assert("started"@.len() != "in_progress"@.len());
    assert("started"@.len() != "completed"@.len());
    assert("started"@.len() != "failed"@.len());
    assert("started"@.len() != "canceled"@.len());
    assert("started"@.len() != "terminal"@.len());
    assert("in_progress"@.len() != "completed"@.len());
    assert("in_progress"@.len() != "failed"@.len());
    assert("in_progress"@.len() != "canceled"@.len());
    assert("in_progress"@.len() != "terminal"@.len());
    assert("completed"@.len() != "failed"@.len());
    assert("completed"@.len() != "canceled"@.len());
    assert("completed"@.len() != "terminal"@.len());
    assert("failed"@.len() != "canceled"@.len());
    assert("failed"@.len() != "terminal"@.len());
    assert("canceled"@[0] != "terminal"@[0]);
}

/// A name of a state is read as the state that goes by it; no name at all is read as
/// completed, and any other text is refused.
pub proof fn states_are_read_by_their_labels(value: Option<Seq<char>>)
    ensures
        value is None ==> parsed_wait_state(value) == Ok::<DownloadWaitState, error::ErrorModel>(
            DownloadWaitState::Completed,
        ),
        value matches Some(name) ==> match parsed_wait_state(value) {
            Ok(state) => wait_label(state) == name,
            Err(error::ErrorModel::Domain(e)) => e.code == ErrorCode::InvalidInput && forall|
                state: DownloadWaitState,
            | #[trigger]
                wait_label(state) != name,
            Err(_) => false,
        },
{
    reveal_strlit("started");
    reveal_strlit("in_progress");
    reveal_strlit("completed");
    reveal_strlit("failed");
    reveal_strlit("canceled");
    reveal_strlit("terminal");
    assert("started"@.len() != "in_progress"@.len());
    assert("started"@.len() != "completed"@.len());
    assert("started"@.len() != "failed"@.len());
    assert("started"@.len() != "canceled"@.len());
    assert("started"@.len() != "terminal"@.len());
    assert("in_progress"@.len() != "completed"@.len());
    assert("in_progress"@.len() != "failed"@.len());
    assert("in_progress"@.len() != "canceled"@.len());
    assert("in_progress"@.len() != "terminal"@.len());
    assert("completed"@.len() != "failed"@.len());
    assert("completed"@.len() != "canceled"@.len());
    assert("completed"@.len() != "terminal"@.len());
    assert("failed"@.len() != "canceled"@.len());
    assert("failed"@.len() != "terminal"@.len());
    assert("canceled"@[0] != "terminal"@[0]);
}

/// The kinds of request go by their names: `wait`, `cancel` and `save`; a request that
/// names none waits.
pub proof fn subcommands_go_by_their_names(args: JsonModel, name: Seq<char>)
    ensures
        subcommand_named(name) == Some(DownloadSubcommand::Wait) <==> name == "wait"@,
        subcommand_named(name) == Some(DownloadSubcommand::Cancel) <==> name == "cancel"@,
        subcommand_named(name) == Some(DownloadSubcommand::Save) <==> name == "save"@,
        json::text_member(args, "sub"@) is None ==> subcommand_named(requested_subcommand(args))
            == Some(DownloadSubcommand::Wait),
        json::text_member(args, "sub"@) matches Some(sub) ==> requested_subcommand(args) == sub,
{
    reveal_strlit("wait");
    reveal_strlit("cancel");
    reveal_strlit("save");
    assert("wait"@.len() != "cancel"@.len());
    assert("wait"@[0] != "save"@[0]);
    assert("cancel"@.len() != "save"@.len());
}

/// Each state that can be waited for goes by its own name.
pub proof fn awaited_states_go_by_their_names(x: DownloadWaitState)
    ensures
        x == DownloadWaitState::Started <==> wait_label(x) == "started"@,
        x == DownloadWaitState::InProgress <==> wait_label(x) == "in_progress"@,
        x == DownloadWaitState::Completed <==> wait_label(x) == "completed"@,
        x == DownloadWaitState::Failed <==> wait_label(x) == "failed"@,
        x == DownloadWaitState::Canceled <==> wait_label(x) == "canceled"@,
        x == DownloadWaitState::Terminal <==> wait_label(x) == "terminal"@,
{
    reveal_strlit("started");
    reveal_strlit("in_progress");
    reveal_strlit("completed");
    reveal_strlit("failed");
    reveal_strlit("canceled");
    reveal_strlit("terminal");
    assert("started"@.len() != "in_progress"@.len());
    assert("started"@.len() != "completed"@.len());
    assert("started"@.len() != "failed"@.len());
    assert("started"@.len() != "canceled"@.len());
    assert("started"@.len() != "terminal"@.len());
    assert("in_progress"@.len() != "completed"@.len());
    assert("in_progress"@.len() != "failed"@.len());
    assert("in_progress"@.len() != "canceled"@.len());
    assert("in_progress"@.len() != "terminal"@.len());
    assert("completed"@.len() != "failed"@.len());
    assert("completed"@.len() != "canceled"@.len());
    assert("completed"@.len() != "terminal"@.len());
    assert("failed"@.len() != "canceled"@.len());
    assert("failed"@.len() != "terminal"@.len());
    assert("canceled"@[0] != "terminal"@[0]);
}

} // verus!
