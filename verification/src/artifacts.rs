//! Marks on the files and paths that an answer mentions.

use vstd::prelude::*;
use crate::json::{self, Json, JsonModel, JsonObject};

verus! {

/// How a written file was committed.
#[derive(Clone, Copy, Debug, PartialEq, Eq, Structural)]
pub enum FileCommitOutcome {
    Durable,
    Published,
}

/// The durability of a file that the daemon only reads.
pub const INPUT_ARTIFACT_DURABILITY: &'static str = "external_input_reference";

/// The object with a member set; anything else as it is.
pub open spec fn marked(payload: JsonModel, key: Seq<char>, mark: JsonModel) -> JsonModel {
    match payload {
        JsonModel::Object(members) => JsonModel::Object(members.insert(key, mark)),
        other => other,
    }
}

/// Sets a member of an object; anything else stays as it is.
pub fn mark(payload: &mut Json, key: &str, value: Json)
    ensures
        final(payload)@ == marked(old(payload)@, key@, value@),
{
    match payload {
        Json::Object(object) => {
            object.insert(key, value);
        },
        _ => {},
    }
}

/// The mark of a file that a command wrote or read.
pub open spec fn artifact_state(
    artifact_authority: Seq<char>,
    upstream_truth: Seq<char>,
    durability: Seq<char>,
) -> JsonModel {
    JsonModel::Object(
        Map::<Seq<char>, JsonModel>::empty().insert(
            "truth_level"@,
            JsonModel::Text("command_artifact"@),
        ).insert("artifact_authority"@, JsonModel::Text(artifact_authority)).insert(
            "upstream_truth"@,
            JsonModel::Text(upstream_truth),
        ).insert("control_role"@, JsonModel::Text("display_only"@)).insert(
            "durability"@,
            JsonModel::Text(durability),
        ),
    )
}

pub fn annotate_file_artifact_state(
    artifact: &mut Json,
    artifact_authority: &str,
    upstream_truth: &str,
    durability: &str,
)
    ensures
        final(artifact)@ == marked(
            old(artifact)@,
            "artifact_state"@,
            artifact_state(artifact_authority@, upstream_truth@, durability@),
        ),
{
    let state = JsonObject::new().with("truth_level", json::text_value("command_artifact")).with(
        "artifact_authority",
        json::text_value(artifact_authority),
    ).with("upstream_truth", json::text_value(upstream_truth)).with(
        "control_role",
        json::text_value("display_only"),
    ).with("durability", json::text_value(durability));
    mark(artifact, "artifact_state", Json::Object(state));
}

/// The mark of a path that an answer mentions.
pub open spec fn path_state(
    truth_level: Seq<char>,
    path_authority: Seq<char>,
    upstream_truth: Seq<char>,
    path_kind: Seq<char>,
) -> JsonModel {
    JsonModel::Object(
        Map::<Seq<char>, JsonModel>::empty().insert(
            "truth_level"@,
            JsonModel::Text(truth_level),
        ).insert("path_authority"@, JsonModel::Text(path_authority)).insert(
            "upstream_truth"@,
            JsonModel::Text(upstream_truth),
        ).insert("path_kind"@, JsonModel::Text(path_kind)).insert(
            "control_role"@,
            JsonModel::Text("display_only"@),
        ),
    )
}

/// The mark of a path that an answer mentions.
pub fn path_state_value(
    truth_level: &str,
    path_authority: &str,
    upstream_truth: &str,
    path_kind: &str,
) -> (r: Json)
    ensures
        r@ == path_state(truth_level@, path_authority@, upstream_truth@, path_kind@),
{
    Json::Object(
        JsonObject::new().with("truth_level", json::text_value(truth_level)).with(
            "path_authority",
            json::text_value(path_authority),
        ).with("upstream_truth", json::text_value(upstream_truth)).with(
            "path_kind",
            json::text_value(path_kind),
        ).with("control_role", json::text_value("display_only")),
    )
}

pub fn annotate_named_path_reference_state(
    payload: &mut Json,
    state_field: &str,
    truth_level: &str,
    path_authority: &str,
    upstream_truth: &str,
    path_kind: &str,
)
    ensures
        final(payload)@ == marked(
            old(payload)@,
            state_field@,
            path_state(truth_level@, path_authority@, upstream_truth@, path_kind@),
        ),
{
    mark(
        payload,
        state_field,
        path_state_value(truth_level, path_authority, upstream_truth, path_kind),
    );
}

/// Marks the path that a client named.
pub fn annotate_path_reference_state(
    payload: &mut Json,
    path_authority: &str,
    upstream_truth: &str,
    path_kind: &str,
)
    ensures
        final(payload)@ == marked(
            old(payload)@,
            "path_state"@,
            path_state("input_path_reference"@, path_authority@, upstream_truth@, path_kind@),
        ),
{
    annotate_named_path_reference_state(
        payload,
        "path_state",
        "input_path_reference",
        path_authority,
        upstream_truth,
        path_kind,
    );
}

/// Marks a path of the daemon itself.
pub fn annotate_operator_path_reference_state(
    payload: &mut Json,
    state_field: &str,
    path_authority: &str,
    upstream_truth: &str,
    path_kind: &str,
)
    ensures
        final(payload)@ == marked(
            old(payload)@,
            state_field@,
            path_state("operator_path_reference"@, path_authority@, upstream_truth@, path_kind@),
        ),
{
    annotate_named_path_reference_state(
        payload,
        state_field,
        "operator_path_reference",
        path_authority,
        upstream_truth,
        path_kind,
    );
}

/// The durability of a file that was written.
pub fn output_artifact_durability(outcome: FileCommitOutcome) -> (r: &'static str)
    ensures
        r@ == match outcome {
            FileCommitOutcome::Durable => "durable"@,
            FileCommitOutcome::Published => "published"@,
        },
{
    match outcome {
        FileCommitOutcome::Durable => "durable",
        FileCommitOutcome::Published => "published",
    }
}

/// A mark is set on an object, and nothing else of it changes; what is no object stays.
pub proof fn marks_change_one_member(
    payload: JsonModel,
    key: Seq<char>,
    mark: JsonModel,
    other: Seq<char>,
)
    ensures
        payload is Object ==> json::member(marked(payload, key, mark), key) == Some(mark),
        other != key ==> json::member(marked(payload, key, mark), other) == json::member(
            payload,
            other,
        ),
        !(payload is Object) ==> marked(payload, key, mark) == payload,
{
}

/// The mark of a file says what vouches for it, and the mark of a path what it stands for.
pub proof fn marks_say_what_vouches(
    level: Seq<char>,
    authority: Seq<char>,
    truth: Seq<char>,
    last: Seq<char>,
)
    ensures
        ({
            let file = artifact_state(authority, truth, last);
            &&& json::member(file, "truth_level"@) == Some(JsonModel::Text("command_artifact"@))
            &&& json::member(file, "artifact_authority"@) == Some(JsonModel::Text(authority))
            &&& json::member(file, "upstream_truth"@) == Some(JsonModel::Text(truth))
            &&& json::member(file, "control_role"@) == Some(JsonModel::Text("display_only"@))
            &&& json::member(file, "durability"@) == Some(JsonModel::Text(last))
        }),
        ({
            let path = path_state(level, authority, truth, last);
            &&& json::member(path, "truth_level"@) == Some(JsonModel::Text(level))
            &&& json::member(path, "path_authority"@) == Some(JsonModel::Text(authority))
            &&& json::member(path, "upstream_truth"@) == Some(JsonModel::Text(truth))
            &&& json::member(path, "control_role"@) == Some(JsonModel::Text("display_only"@))
            &&& json::member(path, "path_kind"@) == Some(JsonModel::Text(last))
        }),
{
    reveal_strlit("truth_level");
    reveal_strlit("artifact_authority");
    reveal_strlit("upstream_truth");
    reveal_strlit("control_role");
    reveal_strlit("durability");
    assert("truth_level"@.len() != "artifact_authority"@.len());
    assert("truth_level"@.len() != "upstream_truth"@.len());
    assert("truth_level"@.len() != "control_role"@.len());
    assert("truth_level"@.len() != "durability"@.len());
    assert("artifact_authority"@.len() != "upstream_truth"@.len());
    assert("artifact_authority"@.len() != "control_role"@.len());
    assert("artifact_authority"@.len() != "durability"@.len());
    assert("upstream_truth"@.len() != "control_role"@.len());
    assert("upstream_truth"@.len() != "durability"@.len());
    assert("control_role"@.len() != "durability"@.len());
    reveal_strlit("truth_level");
    reveal_strlit("path_authority");
    reveal_strlit("upstream_truth");
    reveal_strlit("control_role");
    reveal_strlit("path_kind");
    assert("truth_level"@.len() != "path_authority"@.len());
    assert("truth_level"@.len() != "upstream_truth"@.len());
    assert("truth_level"@.len() != "control_role"@.len());
    assert("truth_level"@.len() != "path_kind"@.len());
    assert("path_authority"@[0] != "upstream_truth"@[0]);
    assert("path_authority"@.len() != "control_role"@.len());
    assert("path_authority"@.len() != "path_kind"@.len());
    assert("upstream_truth"@.len() != "control_role"@.len());
    assert("upstream_truth"@.len() != "path_kind"@.len());
    assert("control_role"@.len() != "path_kind"@.len());
}

} // verus!
