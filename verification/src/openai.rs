//! The decisions taken while working with the assistant service: how a run is
//! polled, what text a reply carries, what is answered to the tool calls of a run,
//! and how assistant definitions are read. The requests themselves are sent by the
//! program around the library.

use crate::task::{Task, Tasks};
use vstd::prelude::*;

verus! {

/// The status of a run of an assistant on a thread.
#[derive(Debug, Clone, Copy, PartialEq, Eq, Structural)]
pub enum RunStatus {
    Queued,
    InProgress,
    RequiresAction,
    Cancelling,
    Cancelled,
    Failed,
    Completed,
    Incomplete,
    Expired,
}

/// What to do after reading the status of a run.
#[derive(Debug, Clone, Copy, PartialEq, Eq, Structural)]
pub enum PollAction {
    /// The run is done: read the latest message of the thread and return it.
    ReadReply,
    /// The run failed: there is no reply.
    GiveUp,
    /// The run waits for the outputs of its tool calls: answer them.
    AnswerToolCalls,
    /// The run is not done yet: wait and read its status again.
    KeepWaiting,
}

/// One step of polling a run: the action, and whether the status is read again
/// (after a pause of one second) when the action does not return a reply.
#[derive(Debug, Clone, Copy, PartialEq, Eq, Structural)]
pub struct PollStep {
    pub action: PollAction,
    pub keep_polling: bool,
}

/// The action taken on a status.
pub open spec fn action_for(status: RunStatus) -> PollAction {
    match status {
        RunStatus::Completed => PollAction::ReadReply,
        RunStatus::Failed => PollAction::GiveUp,
        RunStatus::RequiresAction => PollAction::AnswerToolCalls,
        _ => PollAction::KeepWaiting,
    }
}

/// Whether a status ends the polling.
pub open spec fn ends_polling(status: RunStatus) -> bool {
    status == RunStatus::Completed || status == RunStatus::Failed
}

/// Decides what to do with the status just read from a run.
pub fn poll_step(status: RunStatus) -> (step: PollStep)
    ensures
        step.action == action_for(status),
        step.keep_polling == !ends_polling(status),
{
    match status {
        RunStatus::Completed => PollStep { action: PollAction::ReadReply, keep_polling: false },
        RunStatus::Failed => PollStep { action: PollAction::GiveUp, keep_polling: false },
        RunStatus::RequiresAction => PollStep {
            action: PollAction::AnswerToolCalls,
            keep_polling: true,
        },
        _ => PollStep { action: PollAction::KeepWaiting, keep_polling: true },
    }
}

/// The line logged for a status that carries nothing else worth showing.
pub open spec fn status_notice_text(status: RunStatus) -> Option<Seq<char>> {
    match status {
        RunStatus::Queued => Some("--- Run Queued"@),
        RunStatus::Cancelling => Some("--- Run Cancelling"@),
        RunStatus::Cancelled => Some("--- Run Cancelled"@),
        RunStatus::Expired => Some("--- Run Expired"@),
        RunStatus::InProgress => Some("--- In Progress ..."@),
        RunStatus::Incomplete => Some("--- Run Incomplete"@),
        _ => None,
    }
}

/// The line logged for a status; `None` for the completed, failed and
/// action-requiring statuses, whose log shows the run itself.
pub fn status_notice(status: RunStatus) -> (line: Option<&'static str>)
    ensures
        line is Some <==> status_notice_text(status) is Some,
        line matches Some(l) ==> status_notice_text(status) == Some(l@),
{
    match status {
        RunStatus::Queued => Some("--- Run Queued"),
        RunStatus::Cancelling => Some("--- Run Cancelling"),
        RunStatus::Cancelled => Some("--- Run Cancelled"),
        RunStatus::Expired => Some("--- Run Expired"),
        RunStatus::InProgress => Some("--- In Progress ..."),
        RunStatus::Incomplete => Some("--- Run Incomplete"),
        _ => None,
    }
}

/// One part of the content of a message.
#[derive(Debug, Clone)]
pub enum MessageContent {
    Text(String),
    ImageFile,
    ImageUrl,
    Refusal(String),
}

/// Whether a part of a message is an image.
pub open spec fn is_image(content: MessageContent) -> bool {
    content is ImageFile || content is ImageUrl
}

/// The text a part of a message carries: its text, or the refusal.
pub open spec fn content_text(content: MessageContent) -> Seq<char> {
    match content {
        MessageContent::Text(t) => t@,
        MessageContent::Refusal(r) => r@,
        _ => Seq::empty(),
    }
}

/// The text of a reply: that of its first part, which must not be an image.
pub fn message_text(content: &Vec<MessageContent>) -> (text: String)
    requires
        content@.len() > 0,
        !is_image(content@[0]),
    ensures
        text@ == content_text(content@[0]),
{
    match &content[0] {
        MessageContent::Text(t) => t.clone(),
        MessageContent::Refusal(r) => r.clone(),
        _ => String::new(),
    }
}

/// The answer to one tool call of a run.
#[derive(Debug, Clone)]
pub struct ToolOutput {
    pub tool_call_id: Option<String>,
    pub output: Option<String>,
}

/// A tool call of a run: its id, and the task it asks to create.
#[derive(Debug, Clone)]
pub struct ToolCall {
    pub id: String,
    pub task: Task,
}

/// The tasks and the answers made of the tool calls of a run.
pub struct ToolCallResults {
    /// The tasks asked for, in the order of the calls; they are saved.
    pub save: Tasks,
    /// One answer for each call, in order: the call's id and the task's title.
    pub outputs: Vec<ToolOutput>,
}

/// Collects the tasks that the tool calls of a run ask for, and answers each call
/// with the title of its task.
pub fn collect_tool_calls(calls: Vec<ToolCall>) -> (res: ToolCallResults)
    ensures
        res.save.tasks@.len() == calls@.len(),
        res.outputs@.len() == calls@.len(),
        forall|i: int|
            0 <= i < calls@.len() ==> {
                &&& #[trigger] res.save.tasks@[i] == calls@[i].task
                &&& res.outputs@[i].tool_call_id == Some(calls@[i].id)
                &&& res.outputs@[i].output == Some(calls@[i].task.title)
            },
{
    let mut save = Tasks::new();
    let mut outputs: Vec<ToolOutput> = Vec::new();
    for call in it: calls
        invariant
            save.tasks@.len() == it.index(),
            outputs@.len() == it.index(),
            forall|i: int|
                0 <= i < it.index() ==> {
                    &&& #[trigger] save.tasks@[i] == it.seq()[i].task
                    &&& outputs@[i].tool_call_id == Some(it.seq()[i].id)
                    &&& outputs@[i].output == Some(it.seq()[i].task.title)
                },
    {
        let title = call.task.title.clone();
        outputs.push(ToolOutput { tool_call_id: Some(call.id), output: Some(title) });
        save.tasks.push(call.task);
    }
    ToolCallResults { save, outputs }
}

/// The format an assistant is asked to answer in.
#[derive(Debug, Clone, Copy, PartialEq, Eq, Structural)]
pub enum ResponseFormatKind {
    Text,
    JsonObject,
    JsonSchema,
}

/// The format named in an assistant definition: `JsonObject`, `Text` or
/// `JsonSchema`; anything else, or no name, means text.
pub open spec fn response_format_for(tag: Option<Seq<char>>) -> ResponseFormatKind {
    match tag {
        Some(t) => if t == "JsonObject"@ {
            ResponseFormatKind::JsonObject
        } else if t == "JsonSchema"@ {
            ResponseFormatKind::JsonSchema
        } else {
            ResponseFormatKind::Text
        },
        None => ResponseFormatKind::Text,
    }
}

/// The characters of an optional text.
pub open spec fn opt_str_view(s: Option<&str>) -> Option<Seq<char>> {
    match s {
        Some(t) => Some(t@),
        None => None,
    }
}

/// Reads the response format named in an assistant definition.
pub fn response_format_kind(tag: Option<&str>) -> (kind: ResponseFormatKind)
    ensures
        kind == response_format_for(opt_str_view(tag)),
{
    match tag {
        Some(t) => {
            let t = t.to_owned();
            if t == "JsonObject".to_owned() {
                ResponseFormatKind::JsonObject
            } else if t == "JsonSchema".to_owned() {
                ResponseFormatKind::JsonSchema
            } else {
                ResponseFormatKind::Text
            }
        },
        None => ResponseFormatKind::Text,
    }
}

/// The text of a field of a definition: the field's text, or empty where the field
/// is missing or not a string.
pub open spec fn text_or_empty_view(s: Option<Seq<char>>) -> Seq<char> {
    match s {
        Some(t) => t,
        None => Seq::empty(),
    }
}

/// The text of a field of a definition, empty where it is missing.
pub fn text_or_empty(s: Option<&str>) -> (t: String)
    ensures
        t@ == text_or_empty_view(opt_str_view(s)),
{
    match s {
        Some(v) => v.to_owned(),
        None => String::new(),
    }
}

#[verifier::external_type_specification]
#[verifier::external_body]
pub struct ExJsonValue(serde_json::Value);

#[verifier::external_type_specification]
#[verifier::external_body]
pub struct ExJsonError(serde_json::Error);

/// Whether `serde_json::from_str::<Value>` reads `text` as JSON.
pub uninterp spec fn json_parses(text: Seq<char>) -> bool;

/// What `value[key].as_str()` gives for the value that `serde_json::from_str` reads
/// from `text`: the field's string, or `None` where the field is missing or is not a
/// string (or the value is not an object).
pub uninterp spec fn json_str_field(text: Seq<char>, key: Seq<char>) -> Option<Seq<char>>;

/// What `value[key].as_bool()` gives for the value read from `text`.
pub uninterp spec fn json_bool_field(text: Seq<char>, key: Seq<char>) -> Option<bool>;

/// What `value[key].to_string()` gives for the value read from `text`: the field
/// written as JSON, `null` where it is missing.
pub uninterp spec fn json_field_text(text: Seq<char>, key: Seq<char>) -> Seq<char>;

/// The characters of an optional owned text.
pub open spec fn opt_string_view(s: Option<String>) -> Option<Seq<char>> {
    match s {
        Some(t) => Some(t@),
        None => None,
    }
}

/// Fields read from a JSON object, in the order of the keys asked for.
pub struct JsonFields {
    /// String fields.
    pub strs: Vec<Option<String>>,
    /// Boolean fields.
    pub bools: Vec<Option<bool>>,
    /// Fields written as JSON text.
    pub texts: Vec<String>,
}

/// Reads `text` with `serde_json::from_str::<Value>` and picks fields out of the value
/// with `value[key]`: `as_str` for each of `str_keys`, `as_bool` for each of
/// `bool_keys`, and `to_string` for each of `value_keys`. Claimed: it succeeds exactly
/// where the text is JSON, each field is the one named for it, and a field written as
/// JSON text is JSON again (`Display` for `Value` writes JSON; a `Value` holds no
/// number that JSON cannot write).
#[verifier::external_body]
fn read_json_fields(
    text: &str,
    str_keys: &Vec<&str>,
    bool_keys: &Vec<&str>,
    value_keys: &Vec<&str>,
) -> (r: Result<JsonFields, serde_json::Error>)
    ensures
        r is Ok <==> json_parses(text@),
        r matches Ok(f) ==> f.strs@.len() == str_keys@.len() && forall|i: int|
            0 <= i < str_keys@.len() ==> opt_string_view(#[trigger] f.strs@[i]) == json_str_field(
                text@,
                str_keys@[i]@,
            ),
        r matches Ok(f) ==> f.bools@.len() == bool_keys@.len() && forall|i: int|
            0 <= i < bool_keys@.len() ==> #[trigger] f.bools@[i] == json_bool_field(
                text@,
                bool_keys@[i]@,
            ),
        r matches Ok(f) ==> f.texts@.len() == value_keys@.len() && forall|i: int|
            0 <= i < value_keys@.len() ==> (#[trigger] f.texts@[i])@ == json_field_text(
                text@,
                value_keys@[i]@,
            ),
        r matches Ok(f) ==> forall|i: int|
            0 <= i < f.texts@.len() ==> json_parses((#[trigger] f.texts@[i])@),
{
    let v: serde_json::Value = serde_json::from_str(text)?;
    Ok(JsonFields {
        strs: str_keys.iter().map(|k| v[*k].as_str().map(|s| s.to_owned())).collect(),
        bools: bool_keys.iter().map(|k| v[*k].as_bool()).collect(),
        texts: value_keys.iter().map(|k| v[*k].to_string()).collect(),
    })
}

/// Reads `text` with `serde_json::from_str::<Value>`. Claimed: it succeeds exactly
/// where the text is JSON. Nothing is claimed of the value, which is handed on.
#[verifier::external_body]
fn parse_json_value(text: &str) -> (r: Result<serde_json::Value, serde_json::Error>)
    ensures
        r is Ok <==> json_parses(text@),
{
    serde_json::from_str(text)
}

/// The JSON value of a text, to be handed to a request: it is read exactly where the
/// text is JSON, as the texts of the definitions read here always are.
pub fn json_value(text: &str) -> (r: Result<serde_json::Value, serde_json::Error>)
    ensures
        r is Ok <==> json_parses(text@),
{
    parse_json_value(text)
}

/// A string field as read, for [`text_or_empty`].
fn field_str(f: &Option<String>) -> (s: Option<&str>)
    ensures
        opt_str_view(s) == opt_string_view(*f),
{
    match f {
        Some(t) => Some(t.as_str()),
        None => None,
    }
}

/// A function that an assistant may call, as its definition file gives it.
#[derive(Debug, Clone)]
pub struct FunctionDefinition {
    pub name: String,
    pub description: String,
    pub strict: bool,
    /// The `parameters` field written as JSON.
    pub parameters: String,
}

/// Reads a function definition file: its `name` and `description` (empty where
/// missing or not a string), its `strict` flag (false where missing or not a
/// boolean) and its `parameters`. The text must be JSON.
pub fn function_definition_from_json(text: &str) -> (r: Result<FunctionDefinition, serde_json::Error>)
    ensures
        r is Ok <==> json_parses(text@),
        r matches Ok(def) ==> def.name@ == text_or_empty_view(json_str_field(text@, "name"@)),
        r matches Ok(def) ==> def.description@ == text_or_empty_view(
            json_str_field(text@, "description"@),
        ),
        r matches Ok(def) ==> def.strict == (json_bool_field(text@, "strict"@) == Some(true)),
        r matches Ok(def) ==> def.parameters@ == json_field_text(text@, "parameters"@),
        r matches Ok(def) ==> json_parses(def.parameters@),
{
    let str_keys = vec!["name", "description"];
    let bool_keys = vec!["strict"];
    let value_keys = vec!["parameters"];
    let fields = match read_json_fields(text, &str_keys, &bool_keys, &value_keys) {
        Ok(f) => f,
        Err(e) => return Err(e),
    };
    let JsonFields { strs, bools, texts } = fields;
    let name = text_or_empty(field_str(&strs[0]));
    let description = text_or_empty(field_str(&strs[1]));
    let strict = match bools[0] {
        Some(b) => b,
        None => false,
    };
    let parameters = texts[0].clone();
    Ok(FunctionDefinition { name, description, strict, parameters })
}

/// An assistant, as its definition file gives it.
#[derive(Debug, Clone)]
pub struct AssistantDefinition {
    pub name: String,
    pub description: String,
    pub instructions: String,
    pub model: String,
    /// The format asked for, from the `response_format` name.
    pub response_format: ResponseFormatKind,
    /// The `json_schema` field written as JSON.
    pub json_schema: String,
    /// The `temperature` field written as JSON.
    pub temperature: String,
    /// The `top_p` field written as JSON.
    pub top_p: String,
}

/// Reads an assistant definition file: its `name`, `description`, `instructions` and
/// `model` (empty where missing or not a string), the response format it names, and
/// its `json_schema`, `temperature` and `top_p` fields as JSON text. The text must be
/// JSON.
pub fn assistant_definition_from_json(text: &str) -> (r: Result<AssistantDefinition, serde_json::Error>)
    ensures
        r is Ok <==> json_parses(text@),
        r matches Ok(def) ==> def.name@ == text_or_empty_view(json_str_field(text@, "name"@)),
        r matches Ok(def) ==> def.description@ == text_or_empty_view(
            json_str_field(text@, "description"@),
        ),
        r matches Ok(def) ==> def.instructions@ == text_or_empty_view(
            json_str_field(text@, "instructions"@),
        ),
        r matches Ok(def) ==> def.model@ == text_or_empty_view(json_str_field(text@, "model"@)),
        r matches Ok(def) ==> def.response_format == response_format_for(
            json_str_field(text@, "response_format"@),
        ),
        r matches Ok(def) ==> def.json_schema@ == json_field_text(text@, "json_schema"@),
        r matches Ok(def) ==> def.temperature@ == json_field_text(text@, "temperature"@),
        r matches Ok(def) ==> def.top_p@ == json_field_text(text@, "top_p"@),
        r matches Ok(def) ==> json_parses(def.json_schema@),
{
    let str_keys = vec!["name", "description", "instructions", "model", "response_format"];
    let bool_keys: Vec<&str> = Vec::new();
    let value_keys = vec!["json_schema", "temperature", "top_p"];
    let fields = match read_json_fields(text, &str_keys, &bool_keys, &value_keys) {
        Ok(f) => f,
        Err(e) => return Err(e),
    };
    let name = text_or_empty(field_str(&fields.strs[0]));
    let description = text_or_empty(field_str(&fields.strs[1]));
    let instructions = text_or_empty(field_str(&fields.strs[2]));
    let model = text_or_empty(field_str(&fields.strs[3]));
    let response_format = response_format_kind(field_str(&fields.strs[4]));
    let json_schema = fields.texts[0].clone();
    let temperature = fields.texts[1].clone();
    let top_p = fields.texts[2].clone();
    Ok(AssistantDefinition {
        name,
        description,
        instructions,
        model,
        response_format,
        json_schema,
        temperature,
        top_p,
    })
}

/// The structured-output schema of an assistant, as its `json_schema` field gives it.
#[derive(Debug, Clone)]
pub struct JsonSchemaDefinition {
    /// The `name` field written as JSON.
    pub name: String,
    /// The `description` field written as JSON.
    pub description: String,
    /// The `strict` flag, where it is a boolean.
    pub strict: Option<bool>,
    /// The `schema` field written as JSON.
    pub schema: String,
}

/// Reads the `json_schema` field of an assistant definition, given as JSON text: its
/// `name` and `description` written as JSON, its `strict` flag and its `schema`.
pub fn json_schema_definition(text: &str) -> (r: Result<JsonSchemaDefinition, serde_json::Error>)
    ensures
        r is Ok <==> json_parses(text@),
        r matches Ok(def) ==> def.name@ == json_field_text(text@, "name"@),
        r matches Ok(def) ==> def.description@ == json_field_text(text@, "description"@),
        r matches Ok(def) ==> def.strict == json_bool_field(text@, "strict"@),
        r matches Ok(def) ==> def.schema@ == json_field_text(text@, "schema"@),
        r matches Ok(def) ==> json_parses(def.schema@),
{
    let str_keys: Vec<&str> = Vec::new();
    let bool_keys = vec!["strict"];
    let value_keys = vec!["name", "description", "schema"];
    let fields = match read_json_fields(text, &str_keys, &bool_keys, &value_keys) {
        Ok(f) => f,
        Err(e) => return Err(e),
    };
    let JsonFields { strs: _, bools, texts } = fields;
    let name = texts[0].clone();
    let description = texts[1].clone();
    let strict = bools[0];
    let schema = texts[2].clone();
    Ok(JsonSchemaDefinition { name, description, strict, schema })
}

/// Whether a file of the function folder is read: its extension is `json`.
pub fn is_json_extension(extension: Option<&str>) -> (b: bool)
    ensures
        b == (opt_str_view(extension) == Some("json"@)),
{
    match extension {
        Some(e) => e.to_owned() == "json".to_owned(),
        None => false,
    }
}

/// A file of the function folder: its extension, and its text where it was read
/// and is valid UTF-8.
#[derive(Debug, Clone)]
pub struct AssetFile {
    pub extension: Option<String>,
    /// `None` where the file was not read or its bytes are not UTF-8.
    pub text: Option<String>,
}

/// Why the function folder could not be read.
#[derive(Debug)]
pub enum AssetError {
    /// A definition file is not valid UTF-8.
    NotUtf8,
    /// A definition file is not JSON.
    Json(serde_json::Error),
}

/// The kind of the first failing definition file.
#[derive(Debug, Clone, Copy, PartialEq, Eq, Structural)]
pub enum AssetFailure {
    NotUtf8,
    NotJson,
}

/// Whether a file of the function folder is a definition file.
pub open spec fn is_definition_file(f: AssetFile) -> bool {
    opt_string_view(f.extension) == Some("json"@)
}

/// The definition files among the files of the folder, in their order.
pub open spec fn definition_files(files: Seq<AssetFile>) -> Seq<AssetFile>
    decreases files.len(),
{
    if files.len() == 0 {
        Seq::empty()
    } else if is_definition_file(files.last()) {
        definition_files(files.drop_last()).push(files.last())
    } else {
        definition_files(files.drop_last())
    }
}

/// How the first definition file that cannot be read fails, if one does: its text is
/// missing, or it is not JSON.
pub open spec fn first_failure(files: Seq<AssetFile>) -> Option<AssetFailure>
    decreases files.len(),
{
    if files.len() == 0 {
        None
    } else {
        match first_failure(files.drop_last()) {
            Some(f) => Some(f),
            None => if !is_definition_file(files.last()) {
                None
            } else {
                match files.last().text {
                    None => Some(AssetFailure::NotUtf8),
                    Some(t) => if json_parses(t@) {
                        None
                    } else {
                        Some(AssetFailure::NotJson)
                    },
                }
            },
        }
    }
}

/// Whether a function definition is the one that a definition file's text gives.
pub open spec fn describes(def: FunctionDefinition, text: Seq<char>) -> bool {
    &&& def.name@ == text_or_empty_view(json_str_field(text, "name"@))
    &&& def.description@ == text_or_empty_view(json_str_field(text, "description"@))
    &&& def.strict == (json_bool_field(text, "strict"@) == Some(true))
    &&& def.parameters@ == json_field_text(text, "parameters"@)
}

/// Reads the function folder: the definitions of its `json` files, in the order of
/// the files; other files are passed over. The first definition file that is not
/// UTF-8 or not JSON stops the reading with that error.
pub fn function_definitions(files: &Vec<AssetFile>) -> (r: Result<Vec<FunctionDefinition>, AssetError>)
    ensures
        r is Ok <==> first_failure(files@) is None,
        r matches Ok(defs) ==> defs@.len() == definition_files(files@).len() && forall|k: int|
            0 <= k < defs@.len() ==> describes(
                #[trigger] defs@[k],
                definition_files(files@)[k].text.unwrap()@,
            ),
        r matches Err(AssetError::NotUtf8) ==> first_failure(files@) == Some(AssetFailure::NotUtf8),
        r matches Err(AssetError::Json(_)) ==> first_failure(files@) == Some(AssetFailure::NotJson),
{
    let mut defs: Vec<FunctionDefinition> = Vec::new();
    let mut i: usize = 0;
    while i < files.len()
        invariant
            i <= files@.len(),
            first_failure(files@.take(i as int)) is None,
            defs@.len() == definition_files(files@.take(i as int)).len(),
            forall|k: int|
                0 <= k < defs@.len() ==> {
                    &&& (#[trigger] definition_files(files@.take(i as int))[k]).text is Some
                    &&& describes(defs@[k], definition_files(files@.take(i as int))[k].text.unwrap()@)
                },
        decreases files@.len() - i,
    {
        let ghost before = files@.take(i as int);
        let ghost after = files@.take(i as int + 1);
        assert(after.drop_last() =~= before);
        assert(after.last() == files@[i as int]);
        let file = &files[i];
        let ext = match &file.extension {
            Some(e) => Some(e.as_str()),
            None => None,
        };
        if is_json_extension(ext) {
            match &file.text {
                None => {
                    assert(first_failure(after) == Some(AssetFailure::NotUtf8));
                    proof { lemma_failure_persists(files@, i as int + 1); }
                    return Err(AssetError::NotUtf8);
                },
                Some(t) => match function_definition_from_json(t.as_str()) {
                    Ok(d) => {
                        defs.push(d);
                        assert(definition_files(after) =~= definition_files(before).push(files@[i as int]));
                    },
                    Err(e) => {
                        assert(first_failure(after) == Some(AssetFailure::NotJson));
                        proof { lemma_failure_persists(files@, i as int + 1); }
                        return Err(AssetError::Json(e));
                    },
                },
            }
        } else {
            assert(definition_files(after) == definition_files(before));
        }
        i = i + 1;
    }
    assert(files@.take(i as int) =~= files@);
    Ok(defs)
}

/// Once a definition file fails, reading more files leaves that failure first.
proof fn lemma_failure_persists(files: Seq<AssetFile>, n: int)
    requires
        0 <= n <= files.len(),
        first_failure(files.take(n)) is Some,
    ensures
        first_failure(files) == first_failure(files.take(n)),
    decreases files.len() - n,
{
    if n < files.len() {
        assert(files.take(n + 1).drop_last() =~= files.take(n));
        lemma_failure_persists(files, n + 1);
    } else {
        assert(files.take(n) =~= files);
    }
}

/// The folder, among the assets, that holds the function definitions.
pub fn functions_dir() -> (dir: &'static str)
    ensures
        dir@ == "assistants/task_creator/functions"@,
{
    "assistants/task_creator/functions"
}

/// The asset file of the assistant called `name`: `assistants/<name>.json`.
pub fn assistant_path(name: &str) -> (path: String)
    ensures
        path@ == "assistants/"@ + name@ + ".json"@,
{
    let mut path = "assistants/".to_owned();
    path.append(name);
    path.append(".json");
    path
}

/// The line logged once an assistant is deleted: its name, or its id where it has
/// no name.
pub fn assistant_deleted_notice(name: Option<String>, id: &str) -> (line: String)
    ensures
        line@ == "Assistant deleted: "@ + match name {
            Some(n) => n@,
            None => id@,
        },
{
    let mut line = "Assistant deleted: ".to_owned();
    match name {
        Some(n) => line.append(n.as_str()),
        None => line.append(id),
    }
    line
}

/// The header put before a user's message: the date and the user's name.
pub fn pre_prompt(date: &str, user: &str) -> (text: String)
    ensures
        text@ == "Date: "@ + date@ + "\nUser: "@ + user@ + "\nMessage: "@,
{
    let mut text = "Date: ".to_owned();
    text.append(date);
    text.append("\nUser: ");
    text.append(user);
    text.append("\nMessage: ");
    text
}

/// The text of a reply's part is carried whole: a text part gives all of its text,
/// a refusal all of the refusal.
pub proof fn lemma_reply_text_is_whole(t: String)
    ensures
        content_text(MessageContent::Text(t)) == t@,
        content_text(MessageContent::Refusal(t)) == t@,
        !is_image(MessageContent::Text(t)),
        !is_image(MessageContent::Refusal(t)),
        is_image(MessageContent::ImageFile),
        is_image(MessageContent::ImageUrl),
{
}

/// A field of a definition is read whole where it is a string, and empty where it is
/// missing or not a string.
pub proof fn lemma_fields_read_whole(t: Seq<char>)
    ensures
        text_or_empty_view(Some(t)) == t,
        text_or_empty_view(None) == Seq::<char>::empty(),
{
}

/// The views of optional texts keep the text whole.
pub proof fn lemma_optional_texts_kept(s: String, r: &str)
    ensures
        opt_string_view(Some(s)) == Some(s@),
        opt_string_view(None) == Option::<Seq<char>>::None,
        opt_str_view(Some(r)) == Some(r@),
        opt_str_view(None) == Option::<Seq<char>>::None,
{
}

/// The format named `JsonObject` asks for a JSON object and the one named
/// `JsonSchema` for a JSON schema; any other name, and no name, asks for text.
pub proof fn lemma_response_format_names(t: Seq<char>)
    ensures
        response_format_for(Some("JsonObject"@)) == ResponseFormatKind::JsonObject,
        response_format_for(Some("JsonSchema"@)) == ResponseFormatKind::JsonSchema,
        t != "JsonObject"@ && t != "JsonSchema"@ ==> response_format_for(Some(t))
            == ResponseFormatKind::Text,
        response_format_for(None) == ResponseFormatKind::Text,
{
    reveal_strlit("JsonObject");
    reveal_strlit("JsonSchema");
    assert("JsonSchema"@[4] != "JsonObject"@[4]);
}

/// The lines logged while a run is not done yet.
pub proof fn lemma_status_notices()
    ensures
        status_notice_text(RunStatus::Queued) == Some("--- Run Queued"@),
        status_notice_text(RunStatus::InProgress) == Some("--- In Progress ..."@),
        status_notice_text(RunStatus::Cancelling) == Some("--- Run Cancelling"@),
        status_notice_text(RunStatus::Cancelled) == Some("--- Run Cancelled"@),
        status_notice_text(RunStatus::Expired) == Some("--- Run Expired"@),
        status_notice_text(RunStatus::Incomplete) == Some("--- Run Incomplete"@),
        status_notice_text(RunStatus::Completed) is None,
        status_notice_text(RunStatus::Failed) is None,
        status_notice_text(RunStatus::RequiresAction) is None,
{
}

/// The definition files of a folder are exactly its `json` files, in order: a file
/// added at the end is kept where its extension is `json` and passed over otherwise.
pub proof fn lemma_definition_files_are_the_json_files(files: Seq<AssetFile>, f: AssetFile)
    ensures
        opt_string_view(f.extension) == Some("json"@) ==> definition_files(files.push(f))
            == definition_files(files).push(f),
        opt_string_view(f.extension) != Some("json"@) ==> definition_files(files.push(f))
            == definition_files(files),
        definition_files(Seq::<AssetFile>::empty()) == Seq::<AssetFile>::empty(),
{
    assert(files.push(f).drop_last() =~= files);
}

/// A folder fails on its first definition file that is not UTF-8 (no text) or not
/// JSON; files that are not definition files never make it fail.
pub proof fn lemma_first_failure_is_the_first_bad_definition(files: Seq<AssetFile>, f: AssetFile)
    requires
        first_failure(files) is None,
    ensures
        opt_string_view(f.extension) != Some("json"@) ==> first_failure(files.push(f)) is None,
        opt_string_view(f.extension) == Some("json"@) && f.text is None ==> first_failure(
            files.push(f),
        ) == Some(AssetFailure::NotUtf8),
        opt_string_view(f.extension) == Some("json"@) ==> (f.text matches Some(t) ==> (
        first_failure(files.push(f)) is None <==> json_parses(t@))),
        opt_string_view(f.extension) == Some("json"@) ==> (f.text matches Some(t) ==> (
        !json_parses(t@) ==> first_failure(files.push(f)) == Some(AssetFailure::NotJson))),
{
    assert(files.push(f).drop_last() =~= files);
}

/// A function definition fits a file's text when its name, description, `strict`
/// flag and parameters are the file's fields: the strings read whole (empty where
/// missing), the flag true only where the field is `true`, the parameters as JSON.
pub proof fn lemma_describes_fields(def: FunctionDefinition, text: Seq<char>)
    ensures
        describes(def, text) <==> {
            &&& (json_str_field(text, "name"@) matches Some(n) ==> def.name@ == n)
            &&& (json_str_field(text, "name"@) is None ==> def.name@.len() == 0)
            &&& (json_str_field(text, "description"@) matches Some(d) ==> def.description@ == d)
            &&& (json_str_field(text, "description"@) is None ==> def.description@.len() == 0)
            &&& def.strict == (json_bool_field(text, "strict"@) == Some(true))
            &&& def.parameters@ == json_field_text(text, "parameters"@)
        },
{
    if json_str_field(text, "name"@) is None && def.name@.len() == 0 {
        assert(def.name@ =~= Seq::<char>::empty());
    }
    if json_str_field(text, "description"@) is None && def.description@.len() == 0 {
        assert(def.description@ =~= Seq::<char>::empty());
    }
}

/// A polled run comes back with a reply exactly when it completed, ends without one
/// exactly when it failed, and is read again for every other status.
pub proof fn lemma_polling_ends_only_when_done(status: RunStatus)
    ensures
        (action_for(status) == PollAction::ReadReply) <==> status == RunStatus::Completed,
        (action_for(status) == PollAction::GiveUp) <==> status == RunStatus::Failed,
        !ends_polling(status) <==> (action_for(status) == PollAction::KeepWaiting || action_for(
            status,
        ) == PollAction::AnswerToolCalls),
        (action_for(status) == PollAction::AnswerToolCalls) <==> status
            == RunStatus::RequiresAction,
        ends_polling(status) <==> (status == RunStatus::Completed || status == RunStatus::Failed),
{
}

} // verus!
