use tuidui::openai::{
    assistant_definition_from_json, assistant_deleted_notice, assistant_path, collect_tool_calls,
    function_definition_from_json, function_definitions, functions_dir, AssetError, AssetFile, json_schema_definition, json_value, is_json_extension, message_text, poll_step, pre_prompt,
    response_format_kind, status_notice, text_or_empty, MessageContent, PollAction, PollStep,
    ResponseFormatKind, RunStatus, ToolCall,
};
use tuidui::task::{Task, TaskState};

fn task(title: &str) -> Task {
    Task {
        title: title.to_string(),
        description: None,
        due_date: None,
        state: TaskState::Pending,
        priority: None,
        time_estimation_minutes: None,
        tags: None,
        created_at: None,
        modified_at: None,
        deleted_at: None,
    }
}

#[test]
fn polling_steps() {
    assert_eq!(poll_step(RunStatus::Completed), PollStep { action: PollAction::ReadReply, keep_polling: false });
    assert_eq!(poll_step(RunStatus::Failed), PollStep { action: PollAction::GiveUp, keep_polling: false });
    assert_eq!(
        poll_step(RunStatus::RequiresAction),
        PollStep { action: PollAction::AnswerToolCalls, keep_polling: true }
    );
    for s in [
        RunStatus::Queued,
        RunStatus::InProgress,
        RunStatus::Cancelling,
        RunStatus::Cancelled,
        RunStatus::Incomplete,
        RunStatus::Expired,
    ] {
        assert_eq!(poll_step(s), PollStep { action: PollAction::KeepWaiting, keep_polling: true });
    }
}

#[test]
fn status_notices() {
    assert_eq!(status_notice(RunStatus::Queued), Some("--- Run Queued"));
    assert_eq!(status_notice(RunStatus::InProgress), Some("--- In Progress ..."));
    assert_eq!(status_notice(RunStatus::Cancelling), Some("--- Run Cancelling"));
    assert_eq!(status_notice(RunStatus::Cancelled), Some("--- Run Cancelled"));
    assert_eq!(status_notice(RunStatus::Expired), Some("--- Run Expired"));
    assert_eq!(status_notice(RunStatus::Incomplete), Some("--- Run Incomplete"));
    assert_eq!(status_notice(RunStatus::Completed), None);
    assert_eq!(status_notice(RunStatus::Failed), None);
    assert_eq!(status_notice(RunStatus::RequiresAction), None);
}

#[test]
fn reply_text_is_first_part() {
    let content = vec![MessageContent::Text("{\"tasks\": []}".to_string()), MessageContent::ImageFile];
    assert_eq!(message_text(&content), "{\"tasks\": []}");
    let content = vec![MessageContent::Refusal("no".to_string())];
    assert_eq!(message_text(&content), "no");
}

#[test]
fn tool_calls_are_saved_and_answered_with_titles() {
    let res = collect_tool_calls(vec![
        ToolCall { id: "call_1".to_string(), task: task("Write report") },
        ToolCall { id: "call_2".to_string(), task: task("Call Bob") },
    ]);
    let titles: Vec<&str> = res.save.tasks.iter().map(|t| t.title.as_str()).collect();
    assert_eq!(titles, vec!["Write report", "Call Bob"]);
    assert_eq!(res.outputs.len(), 2);
    assert_eq!(res.outputs[0].tool_call_id.as_deref(), Some("call_1"));
    assert_eq!(res.outputs[0].output.as_deref(), Some("Write report"));
    assert_eq!(res.outputs[1].tool_call_id.as_deref(), Some("call_2"));
    assert_eq!(res.outputs[1].output.as_deref(), Some("Call Bob"));
    let none = collect_tool_calls(vec![]);
    assert!(none.save.tasks.is_empty() && none.outputs.is_empty());
}

#[test]
fn response_formats() {
    assert_eq!(response_format_kind(Some("JsonObject")), ResponseFormatKind::JsonObject);
    assert_eq!(response_format_kind(Some("JsonSchema")), ResponseFormatKind::JsonSchema);
    assert_eq!(response_format_kind(Some("Text")), ResponseFormatKind::Text);
    assert_eq!(response_format_kind(Some("json_object")), ResponseFormatKind::Text);
    assert_eq!(response_format_kind(None), ResponseFormatKind::Text);
}

#[test]
fn definition_fields_default_to_empty() {
    assert_eq!(text_or_empty(Some("x")), "x");
    assert_eq!(text_or_empty(None), "");
}

#[test]
fn function_definition_reads_its_file() {
    let f = function_definition_from_json(
        r#"{"name": "create_task", "description": "Create a task", "strict": true,
            "parameters": {"type": "object"}}"#,
    )
    .unwrap();
    assert_eq!(f.name, "create_task");
    assert_eq!(f.description, "Create a task");
    assert!(f.strict);
    assert_eq!(f.parameters, r#"{"type":"object"}"#);
    assert_eq!(json_value(&f.parameters).unwrap()["type"], "object");
}

#[test]
fn function_definition_defaults() {
    let f = function_definition_from_json(r#"{"name": 3, "strict": "yes"}"#).unwrap();
    assert_eq!(f.name, "");
    assert_eq!(f.description, "");
    assert!(!f.strict);
    assert_eq!(f.parameters, "null");
    assert!(json_value(&f.parameters).unwrap().is_null());
    let f = function_definition_from_json("[1, 2]").unwrap();
    assert_eq!(f.name, "");
    assert!(!f.strict);
    assert!(function_definition_from_json("{not json").is_err());
    assert!(function_definition_from_json("").is_err());
}

#[test]
fn assistant_definition_reads_its_file() {
    let a = assistant_definition_from_json(
        r#"{"name": "n", "instructions": "be brief", "model": "gpt-4o",
            "temperature": 0.5, "response_format": "JsonSchema",
            "json_schema": {"name": "tasks", "strict": true, "schema": {"type": "object"}}}"#,
    )
    .unwrap();
    assert_eq!(a.name, "n");
    assert_eq!(a.description, "");
    assert_eq!(a.instructions, "be brief");
    assert_eq!(a.model, "gpt-4o");
    assert_eq!(a.response_format, ResponseFormatKind::JsonSchema);
    assert_eq!(a.temperature, "0.5");
    assert_eq!(a.top_p, "null");
    let schema = json_schema_definition(&a.json_schema).unwrap();
    assert_eq!(schema.name, "\"tasks\"");
    assert_eq!(schema.description, "null");
    assert_eq!(schema.strict, Some(true));
    assert_eq!(schema.schema, r#"{"type":"object"}"#);
    assert_eq!(json_value(&schema.schema).unwrap()["type"], "object");
    let missing = json_schema_definition(&plain_schema_text()).unwrap();
    assert_eq!(missing.name, "null");
    assert_eq!(missing.schema, "null");
    assert!(json_value("{oops").is_err());
    let plain = assistant_definition_from_json(r#"{"response_format": "JsonObject"}"#).unwrap();
    assert_eq!(plain.response_format, ResponseFormatKind::JsonObject);
    assert_eq!(plain.json_schema, "null");
    let none = assistant_definition_from_json("{}").unwrap();
    assert_eq!(none.response_format, ResponseFormatKind::Text);
    assert!(assistant_definition_from_json("{").is_err());
}

#[test]
fn asset_paths() {
    assert_eq!(assistant_path("task_creator"), "assistants/task_creator.json");
    assert_eq!(functions_dir(), "assistants/task_creator/functions");
    assert!(is_json_extension(Some("json")));
    assert!(!is_json_extension(Some("JSON")));
    assert!(!is_json_extension(Some("txt")));
    assert!(!is_json_extension(None));
}

#[test]
fn notices_and_prompts() {
    assert_eq!(assistant_deleted_notice(Some("Planner".to_string()), "asst_1"), "Assistant deleted: Planner");
    assert_eq!(assistant_deleted_notice(None, "asst_1"), "Assistant deleted: asst_1");
    assert_eq!(pre_prompt("2024-10-31", "Roland"), "Date: 2024-10-31\nUser: Roland\nMessage: ");
}

fn plain_schema_text() -> String {
    assistant_definition_from_json("{}").unwrap().json_schema
}

fn file(ext: Option<&str>, text: Option<&str>) -> AssetFile {
    AssetFile { extension: ext.map(str::to_string), text: text.map(str::to_string) }
}

#[test]
fn function_folder_reads_json_files_in_order() {
    let files = vec![
        file(Some("json"), Some(r#"{"name": "a", "strict": true}"#)),
        file(Some("md"), None),
        file(None, Some("not json at all")),
        file(Some("json"), Some(r#"{"name": "b", "parameters": [1]}"#)),
    ];
    let defs = function_definitions(&files).unwrap();
    assert_eq!(defs.len(), 2);
    assert_eq!(defs[0].name, "a");
    assert!(defs[0].strict);
    assert_eq!(defs[0].parameters, "null");
    assert_eq!(defs[1].name, "b");
    assert!(!defs[1].strict);
    assert_eq!(defs[1].parameters, "[1]");
    assert!(function_definitions(&vec![]).unwrap().is_empty());
}

#[test]
fn function_folder_stops_at_first_bad_file() {
    let files = vec![
        file(Some("json"), Some("{}")),
        file(Some("json"), None),
        file(Some("json"), Some("{broken")),
    ];
    assert!(matches!(function_definitions(&files), Err(AssetError::NotUtf8)));
    let files = vec![
        file(Some("json"), Some("{broken")),
        file(Some("json"), None),
    ];
    assert!(matches!(function_definitions(&files), Err(AssetError::Json(_))));
    let files = vec![file(Some("txt"), None), file(Some("JSON"), Some("{broken"))];
    assert!(function_definitions(&files).unwrap().is_empty());
}
