use openscad_mcp_server::catalogue::{item_json_type, json_type, parameter_fields, tool_catalogue, ParamKind};
use openscad_mcp_server::error::OpenSCADError;
use openscad_mcp_server::replies::{
    exported_reply, metadata_saved_reply, parameters_error_reply, preview_reply, suggestions_reply,
    unknown_tool_reply, write_failed_reply, written_reply, ReplyContent, ToolReply,
};
use openscad_mcp_server::report::{design_report, param_line_text, DesignSummary, ParamSummary};
use openscad_mcp_server::requests::{parse_tool_call, same_text, ArgValue, ToolCall};
use openscad_mcp_server::server::server_identity;

fn text(s: &str) -> ArgValue {
    ArgValue::Text(s.to_string())
}

fn args(pairs: Vec<(&str, ArgValue)>) -> Vec<(String, ArgValue)> {
    pairs.into_iter().map(|(k, v)| (k.to_string(), v)).collect()
}

fn only_text(reply: &ToolReply) -> String {
    assert_eq!(reply.contents.len(), 1);
    match &reply.contents[0] {
        ReplyContent::Text(t) => t.clone(),
        ReplyContent::Image { .. } => panic!("expected text"),
    }
}

#[test]
fn catalogue_lists_five_tools() {
    let tools = tool_catalogue();
    let names: Vec<&str> = tools.iter().map(|t| t.name.as_str()).collect();
    assert_eq!(
        names,
        vec!["write_scad", "render_preview", "export_stl", "save_design_metadata", "get_design_suggestions"]
    );
    let params: Vec<&str> = tools[3].params.iter().map(|p| p.name.as_str()).collect();
    assert_eq!(params, vec!["filename", "name", "description", "parameters", "suggested_modifications"]);
    assert!(tools[3].params[3].kind == ParamKind::ParameterList);
    assert!(tools[3].params[4].kind == ParamKind::TextList);
    assert_eq!(tools[1].description, "Render the OpenSCAD file to a PNG preview image");
    assert_eq!(tools[2].params[1].name, "output_name");
}

fn full_args(tool: &openscad_mcp_server::catalogue::ToolSpec, skip: Option<usize>) -> Vec<(String, ArgValue)> {
    let mut v = Vec::new();
    for (i, p) in tool.params.iter().enumerate() {
        if Some(i) == skip {
            continue;
        }
        let value = match p.kind {
            ParamKind::Text => text("value"),
            _ => ArgValue::List(vec![Some("a".to_string())]),
        };
        v.push((p.name.clone(), value));
    }
    v
}

fn tool_of(call: &ToolCall) -> &'static str {
    match call {
        ToolCall::WriteScad { .. } => "write_scad",
        ToolCall::RenderPreview { .. } => "render_preview",
        ToolCall::ExportStl { .. } => "export_stl",
        ToolCall::SaveDesignMetadata { .. } => "save_design_metadata",
        ToolCall::GetDesignSuggestions { .. } => "get_design_suggestions",
        ToolCall::Unknown { .. } => "unknown",
    }
}

#[test]
fn every_listed_tool_is_handled() {
    for tool in tool_catalogue() {
        let call = parse_tool_call(&tool.name, &full_args(&tool, None)).unwrap();
        assert_eq!(tool_of(&call), tool.name);
        for k in 0..tool.params.len() {
            assert!(parse_tool_call(&tool.name, &full_args(&tool, Some(k))).is_err());
        }
    }
    match parse_tool_call("frobnicate", &args(vec![])).unwrap() {
        ToolCall::Unknown { name } => assert_eq!(name, "frobnicate"),
        _ => panic!("expected an unknown tool"),
    }
}

#[test]
fn parse_write_scad() {
    let call = parse_tool_call("write_scad", &args(vec![("code", text("cube(1);")), ("filename", text("c"))])).unwrap();
    match call {
        ToolCall::WriteScad { filename, code } => {
            assert_eq!(filename, "c");
            assert_eq!(code, "cube(1);");
        }
        _ => panic!("wrong call"),
    }
    assert_eq!(
        parse_tool_call("write_scad", &args(vec![("code", text("x"))])).err(),
        Some("Missing filename parameter".to_string())
    );
    assert_eq!(
        parse_tool_call("write_scad", &args(vec![("filename", text("c")), ("code", ArgValue::Other)])).err(),
        Some("Missing code parameter".to_string())
    );
}

#[test]
fn parse_other_tools() {
    assert_eq!(
        parse_tool_call("render_preview", &args(vec![])).err(),
        Some("Missing filename parameter".to_string())
    );
    assert_eq!(
        parse_tool_call("export_stl", &args(vec![("filename", text("c"))])).err(),
        Some("Missing output_name parameter".to_string())
    );
    match parse_tool_call("export_stl", &args(vec![("filename", text("c")), ("output_name", text("o"))])).unwrap() {
        ToolCall::ExportStl { filename, output_name } => {
            assert_eq!(filename, "c");
            assert_eq!(output_name, "o");
        }
        _ => panic!("wrong call"),
    }
    assert_eq!(
        parse_tool_call("get_design_suggestions", &args(vec![("filename", ArgValue::List(vec![]))])).err(),
        Some("Missing filename".to_string())
    );
}

#[test]
fn parse_save_design_metadata() {
    let base = || {
        vec![
            ("filename", text("c")),
            ("name", text("Cube")),
            ("description", text("A cube")),
            ("parameters", ArgValue::List(vec![None])),
            ("suggested_modifications", ArgValue::List(vec![Some("taller".to_string()), None, Some("round".to_string())])),
        ]
    };
    match parse_tool_call("save_design_metadata", &args(base())).unwrap() {
        ToolCall::SaveDesignMetadata { filename, name, description, suggested_modifications } => {
            assert_eq!(filename, "c");
            assert_eq!(name, "Cube");
            assert_eq!(description, "A cube");
            assert_eq!(suggested_modifications, vec!["taller", "round"]);
        }
        _ => panic!("wrong call"),
    }
    let expected = ["Missing filename", "Missing name", "Missing description", "Missing parameters", "Missing suggested_modifications"];
    for (k, msg) in expected.iter().enumerate() {
        let mut a = base();
        a.remove(k);
        assert_eq!(parse_tool_call("save_design_metadata", &args(a)).err(), Some(msg.to_string()));
    }
    let mut a = base();
    a[3].1 = text("not a list");
    assert_eq!(parse_tool_call("save_design_metadata", &args(a)).err(), Some("Missing parameters".to_string()));
}

#[test]
fn first_argument_of_a_name_counts() {
    let a = args(vec![("filename", text("first")), ("filename", text("second"))]);
    match parse_tool_call("render_preview", &a).unwrap() {
        ToolCall::RenderPreview { filename } => assert_eq!(filename, "first"),
        _ => panic!("wrong call"),
    }
}

#[test]
fn same_text_compares_characters() {
    assert!(same_text("abc", "abc"));
    assert!(!same_text("abc", "abd"));
    assert!(!same_text("abc", "ab"));
}

#[test]
fn written_reply_carries_base64_previews() {
    let reply = written_reply(
        "/w/c.scad",
        Ok(vec![Some(b"hello".to_vec()), None, Some(vec![0xff, 0x00])]),
    );
    assert!(!reply.is_error);
    assert_eq!(reply.contents.len(), 3);
    match &reply.contents[0] {
        ReplyContent::Text(t) => assert_eq!(
            t,
            "Wrote /w/c.scad. Preview (isometric, front, top, right, back, top-right, top-left):"
        ),
        _ => panic!("expected text"),
    }
    match &reply.contents[1] {
        ReplyContent::Image { data, mime_type } => {
            assert_eq!(data, "aGVsbG8=");
            assert_eq!(mime_type, "image/png");
        }
        _ => panic!("expected image"),
    }
    match &reply.contents[2] {
        ReplyContent::Image { data, .. } => assert_eq!(data, "/wA="),
        _ => panic!("expected image"),
    }
    let reply = written_reply("/w/c.scad", Ok(vec![]));
    assert_eq!(reply.contents.len(), 1);
}

#[test]
fn preview_reply_carries_the_image() {
    let r = preview_reply(Ok((
        "/w/my_model.scad".to_string(),
        "/w/my_model_preview.png".to_string(),
        Some(b"hi".to_vec()),
    )));
    assert!(!r.is_error);
    assert_eq!(r.contents.len(), 2);
    match &r.contents[0] {
        ReplyContent::Text(t) => assert_eq!(t, "Rendered /w/my_model.scad to /w/my_model_preview.png."),
        _ => panic!("expected text"),
    }
    match &r.contents[1] {
        ReplyContent::Image { data, mime_type } => {
            assert_eq!(data, "aGk=");
            assert_eq!(mime_type, "image/png");
        }
        _ => panic!("expected image"),
    }
}

#[test]
fn parameter_definition_fields() {
    let fields = parameter_fields();
    let names: Vec<&str> = fields.iter().map(|f| f.name.as_str()).collect();
    assert_eq!(names, vec!["name", "description", "param_type", "min", "max", "step", "default"]);
    let required: Vec<&str> = fields.iter().filter(|f| f.required).map(|f| f.name.as_str()).collect();
    assert_eq!(required, vec!["name", "description", "param_type"]);
    assert_eq!(fields[2].allowed, vec!["number", "string", "boolean"]);
    assert_eq!(fields[3].json_type.as_deref(), Some("number"));
    assert_eq!(fields[6].json_type, None);
}

#[test]
fn written_reply_without_preview() {
    let reply = written_reply("/w/c.scad", Err("All render angles failed".to_string()));
    assert!(!reply.is_error);
    assert_eq!(only_text(&reply), "Wrote /w/c.scad (preview unavailable: All render angles failed)");
}

#[test]
fn error_and_success_replies() {
    let r = write_failed_reply("permission denied");
    assert!(r.is_error);
    assert_eq!(only_text(&r), "Error: permission denied");

    let r = preview_reply(Ok(("/w/c.scad".to_string(), "/w/c_preview.png".to_string(), None)));
    assert!(!r.is_error);
    assert_eq!(only_text(&r), "Rendered /w/c.scad to /w/c_preview.png.");
    let r = preview_reply(Err("SCAD file not found: /w/c.scad".to_string()));
    assert!(r.is_error);
    assert_eq!(only_text(&r), "Error rendering preview: SCAD file not found: /w/c.scad");

    let r = exported_reply(Ok("/w/o.stl".to_string()));
    assert!(!r.is_error);
    assert_eq!(
        only_text(&r),
        "STL exported to /w/o.stl on the user's local machine. Do NOT attempt to copy or move this file \u{2014} it is a local path that only the user can access."
    );
    let r = exported_reply(Err("OpenSCAD export failed: x".to_string()));
    assert!(r.is_error);
    assert_eq!(only_text(&r), "Error exporting STL: OpenSCAD export failed: x");

    let r = parameters_error_reply("missing field `name`");
    assert!(r.is_error);
    assert_eq!(only_text(&r), "Error parsing parameters: missing field `name`");

    let r = metadata_saved_reply("c", Ok(()));
    assert!(!r.is_error);
    assert_eq!(only_text(&r), "Metadata saved for c. Parameters and suggestions are now available for iteration.");
    let r = metadata_saved_reply("c", Err("disk full".to_string()));
    assert!(r.is_error);
    assert_eq!(only_text(&r), "Error saving metadata: disk full");

    let r = unknown_tool_reply("frobnicate");
    assert!(r.is_error);
    assert_eq!(only_text(&r), "Unknown tool: frobnicate");

    let r = suggestions_reply(Err("Metadata file not found: /w/c.meta.json".to_string()));
    assert!(r.is_error);
    assert_eq!(
        only_text(&r),
        "No metadata found for this design. Save metadata first with save_design_metadata. Error: Metadata file not found: /w/c.meta.json"
    );
}

fn sample_design() -> DesignSummary {
    DesignSummary {
        name: "Guard".to_string(),
        description: "Doorknob guard".to_string(),
        parameters: vec![
            ParamSummary {
                name: "height".to_string(),
                param_type: "number".to_string(),
                min: Some("10".to_string()),
                max: Some("50.5".to_string()),
                default_value: Some("20".to_string()),
            },
            ParamSummary {
                name: "label".to_string(),
                param_type: "string".to_string(),
                min: Some("1".to_string()),
                max: None,
                default_value: None,
            },
        ],
        suggested_modifications: vec!["thicker walls".to_string(), "add fillet".to_string()],
    }
}

#[test]
fn design_report_layout() {
    assert_eq!(
        design_report(&sample_design()),
        "Design: Guard\n\nDoorknob guard\n\nParameters:\n  - height: number (range: 10-50.5) [default: 20]\n  - label: string\n\nSuggested modifications:\n  - thicker walls\n  - add fillet"
    );
    let empty = DesignSummary {
        name: "E".to_string(),
        description: "".to_string(),
        parameters: vec![],
        suggested_modifications: vec![],
    };
    assert_eq!(design_report(&empty), "Design: E\n\n\n\nParameters:\n\n\nSuggested modifications:\n  - ");
    let r = suggestions_reply(Ok(sample_design()));
    assert!(!r.is_error);
    assert_eq!(only_text(&r), design_report(&sample_design()));
}

#[test]
fn param_lines() {
    let p = ParamSummary {
        name: "w".to_string(),
        param_type: "boolean".to_string(),
        min: None,
        max: None,
        default_value: Some("true".to_string()),
    };
    assert_eq!(param_line_text(&p), "  - w: boolean [default: true]");
}

#[test]
fn error_messages() {
    assert_eq!(OpenSCADError::NotInstalled.message(), "OpenSCAD not installed");
    assert_eq!(OpenSCADError::InvalidFile("x.scad".to_string()).message(), "Invalid SCAD file: x.scad");
    assert_eq!(OpenSCADError::RenderFailed("timeout".to_string()).message(), "Render failed: timeout");
    let io = std::io::Error::new(std::io::ErrorKind::Other, "disk on fire");
    assert_eq!(OpenSCADError::Io(io).message(), "IO error: disk on fire");
}

#[test]
fn identity() {
    let id = server_identity();
    assert_eq!(id.name, "openscad-mcp-server");
    assert_eq!(id.version, "0.1.0");
}

#[test]
fn json_types_of_parameters() {
    assert_eq!(json_type(ParamKind::Text), "string");
    assert_eq!(json_type(ParamKind::TextList), "array");
    assert_eq!(json_type(ParamKind::ParameterList), "array");
    assert_eq!(item_json_type(ParamKind::Text), None);
    assert_eq!(item_json_type(ParamKind::TextList), Some("string".to_string()));
    assert_eq!(item_json_type(ParamKind::ParameterList), Some("object".to_string()));
}
