//! The tools the server offers, with the parameters each one requires.

use vstd::prelude::*;

verus! {

/// What a tool parameter holds.
#[derive(Clone, Copy, PartialEq, Eq, Structural)]
pub enum ParamKind {
    /// A string.
    Text,
    /// A list of parameter definitions (objects with a name, a description,
    /// a type and an optional range, step and default).
    ParameterList,
    /// A list of strings.
    TextList,
}

/// A parameter of a tool; every parameter that a tool lists is required.
pub struct ToolParam {
    pub name: String,
    pub description: String,
    pub kind: ParamKind,
}

/// A tool: its name, what it does, and its parameters in order.
pub struct ToolSpec {
    pub name: String,
    pub description: String,
    pub params: Vec<ToolParam>,
}

/// A tool parameter as text.
pub struct ParamModel {
    pub name: Seq<char>,
    pub description: Seq<char>,
    pub kind: ParamKind,
}

/// A tool as text.
pub struct ToolModel {
    pub name: Seq<char>,
    pub description: Seq<char>,
    pub params: Seq<ParamModel>,
}

impl View for ToolParam {
    type V = ParamModel;

    open spec fn view(&self) -> ParamModel {
        ParamModel { name: self.name@, description: self.description@, kind: self.kind }
    }
}

impl View for ToolSpec {
    type V = ToolModel;

    open spec fn view(&self) -> ToolModel {
        ToolModel {
            name: self.name@,
            description: self.description@,
            params: self.params@.map_values(|p: ToolParam| p@),
        }
    }
}

/// The parameter description shared by the tools that take a design file.
pub open spec fn design_file_param() -> Seq<char> {
    "Name of the .scad file, optionally with subfolder, e.g. 'doorknob_guard/v3'"@
}

/// The parameter description shared by the tools that take a design name.
pub open spec fn design_name_param() -> Seq<char> {
    "Design filename, optionally with subfolder, e.g. 'doorknob_guard/v3'"@
}

/// The tools, in the order in which they are listed.
pub open spec fn catalogue() -> Seq<ToolModel> {
    seq![
        ToolModel {
            name: "write_scad"@,
            description: "Write OpenSCAD code to a .scad file and render a preview. IMPORTANT: always display the returned preview image to the user in your response so they can see the design."@,
            params: seq![
                ParamModel { name: "filename"@, description: design_file_param(), kind: ParamKind::Text },
                ParamModel { name: "code"@, description: "OpenSCAD code to write"@, kind: ParamKind::Text },
            ],
        },
        ToolModel {
            name: "render_preview"@,
            description: "Render the OpenSCAD file to a PNG preview image"@,
            params: seq![
                ParamModel {
                    name: "filename"@,
                    description: "Name of the .scad file to open, optionally with subfolder, e.g. 'doorknob_guard/v3'"@,
                    kind: ParamKind::Text,
                },
            ],
        },
        ToolModel {
            name: "export_stl"@,
            description: "Export the OpenSCAD model to STL format for 3D printing"@,
            params: seq![
                ParamModel { name: "filename"@, description: design_file_param(), kind: ParamKind::Text },
                ParamModel {
                    name: "output_name"@,
                    description: "Name for the output STL file, optionally with subfolder, e.g. 'doorknob_guard/final'"@,
                    kind: ParamKind::Text,
                },
            ],
        },
        ToolModel {
            name: "save_design_metadata"@,
            description: "Save design parameters and suggested modifications for faster iteration"@,
            params: seq![
                ParamModel { name: "filename"@, description: design_name_param(), kind: ParamKind::Text },
                ParamModel { name: "name"@, description: "Human-readable design name"@, kind: ParamKind::Text },
                ParamModel {
                    name: "description"@,
                    description: "Brief description of the design"@,
                    kind: ParamKind::Text,
                },
                ParamModel {
                    name: "parameters"@,
                    description: "Array of parameter definitions with names, types, and ranges"@,
                    kind: ParamKind::ParameterList,
                },
                ParamModel {
                    name: "suggested_modifications"@,
                    description: "List of suggested next steps or modifications"@,
                    kind: ParamKind::TextList,
                },
            ],
        },
        ToolModel {
            name: "get_design_suggestions"@,
            description: "Get suggested modifications and parameter constraints for a design"@,
            params: seq![
                ParamModel { name: "filename"@, description: design_name_param(), kind: ParamKind::Text },
            ],
        },
    ]
}

fn param(name: &str, description: &str, kind: ParamKind) -> (p: ToolParam)
    ensures
        p@ == (ParamModel { name: name@, description: description@, kind }),
{
    ToolParam { name: String::from_str(name), description: String::from_str(description), kind }
}

fn tool(name: &str, description: &str, params: Vec<ToolParam>) -> (t: ToolSpec)
    ensures
        t.name@ == name@,
        t.description@ == description@,
        t.params@ == params@,
{
    ToolSpec { name: String::from_str(name), description: String::from_str(description), params }
}

/// The tools the server lists, each with its parameters.
pub fn tool_catalogue() -> (tools: Vec<ToolSpec>)
    ensures
        tools@.map_values(|t: ToolSpec| t@) == catalogue(),
{
    let design_file = "Name of the .scad file, optionally with subfolder, e.g. 'doorknob_guard/v3'";
    let design_name = "Design filename, optionally with subfolder, e.g. 'doorknob_guard/v3'";

    let mut ps: Vec<ToolParam> = Vec::new();
    ps.push(param("filename", design_file, ParamKind::Text));
    ps.push(param("code", "OpenSCAD code to write", ParamKind::Text));
    let write_scad = tool(
        "write_scad",
        "Write OpenSCAD code to a .scad file and render a preview. IMPORTANT: always display the returned preview image to the user in your response so they can see the design.",
        ps,
    );
    assert(write_scad@.params =~= catalogue()[0].params);
    assert(write_scad@ == catalogue()[0]);

    let mut ps: Vec<ToolParam> = Vec::new();
    ps.push(
        param(
            "filename",
            "Name of the .scad file to open, optionally with subfolder, e.g. 'doorknob_guard/v3'",
            ParamKind::Text,
        ),
    );
    let render_preview = tool("render_preview", "Render the OpenSCAD file to a PNG preview image", ps);
    assert(render_preview@.params =~= catalogue()[1].params);
    assert(render_preview@ == catalogue()[1]);

    let mut ps: Vec<ToolParam> = Vec::new();
    ps.push(param("filename", design_file, ParamKind::Text));
    ps.push(
        param(
            "output_name",
            "Name for the output STL file, optionally with subfolder, e.g. 'doorknob_guard/final'",
            ParamKind::Text,
        ),
    );
    let export_stl = tool("export_stl", "Export the OpenSCAD model to STL format for 3D printing", ps);
    assert(export_stl@.params =~= catalogue()[2].params);
    assert(export_stl@ == catalogue()[2]);

    let mut ps: Vec<ToolParam> = Vec::new();
    ps.push(param("filename", design_name, ParamKind::Text));
    ps.push(param("name", "Human-readable design name", ParamKind::Text));
    ps.push(param("description", "Brief description of the design", ParamKind::Text));
    ps.push(
        param(
            "parameters",
            "Array of parameter definitions with names, types, and ranges",
            ParamKind::ParameterList,
        ),
    );
    ps.push(
        param(
            "suggested_modifications",
            "List of suggested next steps or modifications",
            ParamKind::TextList,
        ),
    );
    let save_metadata = tool(
        "save_design_metadata",
        "Save design parameters and suggested modifications for faster iteration",
        ps,
    );
    assert(save_metadata@.params =~= catalogue()[3].params);
    assert(save_metadata@ == catalogue()[3]);

    let mut ps: Vec<ToolParam> = Vec::new();
    ps.push(param("filename", design_name, ParamKind::Text));
    let suggestions = tool(
        "get_design_suggestions",
        "Get suggested modifications and parameter constraints for a design",
        ps,
    );
    assert(suggestions@.params =~= catalogue()[4].params);
    assert(suggestions@ == catalogue()[4]);

    let mut tools: Vec<ToolSpec> = Vec::new();
    tools.push(write_scad);
    tools.push(render_preview);
    tools.push(export_stl);
    tools.push(save_metadata);
    tools.push(suggestions);
    assert(tools@.map_values(|t: ToolSpec| t@) =~= catalogue());
    tools
}

/// A field of a parameter definition, that is of an item of the
/// "parameters" list: its JSON type (none for a value of any type), the
/// values it is limited to (none when it is not), and whether it is required.
pub struct FieldSpec {
    pub name: String,
    pub json_type: Option<String>,
    pub allowed: Vec<String>,
    pub required: bool,
}

/// A field of a parameter definition as text.
pub struct FieldModel {
    pub name: Seq<char>,
    pub json_type: Option<Seq<char>>,
    pub allowed: Seq<Seq<char>>,
    pub required: bool,
}

impl View for FieldSpec {
    type V = FieldModel;

    open spec fn view(&self) -> FieldModel {
        FieldModel {
            name: self.name@,
            json_type: match self.json_type {
                Some(t) => Some(t@),
                None => None,
            },
            allowed: self.allowed@.map_values(|a: String| a@),
            required: self.required,
        }
    }
}

/// The fields of a parameter definition, in order.
pub open spec fn parameter_fields_spec() -> Seq<FieldModel> {
    seq![
        FieldModel { name: "name"@, json_type: Some("string"@), allowed: seq![], required: true },
        FieldModel { name: "description"@, json_type: Some("string"@), allowed: seq![], required: true },
        FieldModel {
            name: "param_type"@,
            json_type: Some("string"@),
            allowed: seq!["number"@, "string"@, "boolean"@],
            required: true,
        },
        FieldModel { name: "min"@, json_type: Some("number"@), allowed: seq![], required: false },
        FieldModel { name: "max"@, json_type: Some("number"@), allowed: seq![], required: false },
        FieldModel { name: "step"@, json_type: Some("number"@), allowed: seq![], required: false },
        FieldModel { name: "default"@, json_type: None, allowed: seq![], required: false },
    ]
}

fn field(name: &str, json_type: Option<&str>, allowed: Vec<String>, required: bool) -> (f: FieldSpec)
    ensures
        f.name@ == name@,
        f.json_type matches Some(t) <==> json_type matches Some(u),
        f.json_type matches Some(t) ==> t@ == json_type->0@,
        f.allowed@ == allowed@,
        f.required == required,
{
    let json_type = match json_type {
        Some(t) => Some(String::from_str(t)),
        None => None,
    };
    FieldSpec { name: String::from_str(name), json_type, allowed, required }
}

/// The fields of a parameter definition, which each item of the
/// "parameters" list of `save_design_metadata` is checked against.
pub fn parameter_fields() -> (fields: Vec<FieldSpec>)
    ensures
        fields@.map_values(|f: FieldSpec| f@) == parameter_fields_spec(),
{
    let mut kinds: Vec<String> = Vec::new();
    kinds.push(String::from_str("number"));
    kinds.push(String::from_str("string"));
    kinds.push(String::from_str("boolean"));
    let mut fields: Vec<FieldSpec> = Vec::new();
    fields.push(field("name", Some("string"), Vec::new(), true));
    fields.push(field("description", Some("string"), Vec::new(), true));
    fields.push(field("param_type", Some("string"), kinds, true));
    fields.push(field("min", Some("number"), Vec::new(), false));
    fields.push(field("max", Some("number"), Vec::new(), false));
    fields.push(field("step", Some("number"), Vec::new(), false));
    fields.push(field("default", None, Vec::new(), false));
    proof {
        let v = fields@.map_values(|f: FieldSpec| f@);
        let w = parameter_fields_spec();
        assert forall|i: int| 0 <= i < 7 implies #[trigger] v[i].allowed =~= w[i].allowed by {}
        assert forall|i: int| 0 <= i < 7 implies #[trigger] v[i] == w[i] by {
            assert(v[i].allowed =~= w[i].allowed);
        }
        assert(v =~= w);
    }
    fields
}

/// How a parameter definition holds the value of one of its fields.
#[derive(PartialEq, Eq, Structural)]
pub enum FieldHolds {
    /// A string.
    Text,
    /// A number.
    Number,
    /// A value of any JSON type.
    AnyValue,
}

/// The fields a parameter definition has: how each holds its value and
/// whether the definition must have it. Its name, description and type are
/// strings and must be given; its lower and upper bounds and its step are
/// numbers, and its default is any value; each of these four may be left
/// out. No other name is a field.
pub open spec fn definition_field(name: Seq<char>) -> Option<(FieldHolds, bool)> {
    if name == "name"@ || name == "description"@ || name == "param_type"@ {
        Some((FieldHolds::Text, true))
    } else if name == "min"@ || name == "max"@ || name == "step"@ {
        Some((FieldHolds::Number, false))
    } else if name == "default"@ {
        Some((FieldHolds::AnyValue, false))
    } else {
        None
    }
}

/// The JSON type that a value so held is read from; none for any value.
pub open spec fn held_json_type(h: FieldHolds) -> Option<Seq<char>> {
    match h {
        FieldHolds::Text => Some("string"@),
        FieldHolds::Number => Some("number"@),
        FieldHolds::AnyValue => None,
    }
}

/// The field is one a parameter definition has, listed with the JSON type
/// its value is read from, and required exactly when the definition must
/// have it.
pub open spec fn listed_as_read(f: FieldModel) -> bool {
    match definition_field(f.name) {
        Some((holds, required)) => f.json_type == held_json_type(holds) && f.required == required,
        None => false,
    }
}

proof fn lemma_field_names_distinct()
    ensures
        "name"@ != "description"@,
        "name"@ != "param_type"@,
        "name"@ != "min"@,
        "name"@ != "max"@,
        "name"@ != "step"@,
        "name"@ != "default"@,
        "description"@ != "param_type"@,
        "description"@ != "min"@,
        "description"@ != "max"@,
        "description"@ != "step"@,
        "description"@ != "default"@,
        "param_type"@ != "min"@,
        "param_type"@ != "max"@,
        "param_type"@ != "step"@,
        "param_type"@ != "default"@,
        "min"@ != "max"@,
        "min"@ != "step"@,
        "min"@ != "default"@,
        "max"@ != "step"@,
        "max"@ != "default"@,
        "step"@ != "default"@,
{
    reveal_strlit("name");
    reveal_strlit("description");
    reveal_strlit("param_type");
    reveal_strlit("min");
    reveal_strlit("max");
    reveal_strlit("step");
    reveal_strlit("default");
    assert("name"@.len() != "description"@.len());
    assert("name"@.len() != "param_type"@.len());
    assert("name"@.len() != "min"@.len());
    assert("name"@.len() != "max"@.len());
    assert("name"@[0] != "step"@[0]);
    assert("name"@.len() != "default"@.len());
    assert("description"@.len() != "param_type"@.len());
    assert("description"@.len() != "min"@.len());
    assert("description"@.len() != "max"@.len());
    assert("description"@.len() != "step"@.len());
    assert("description"@.len() != "default"@.len());
    assert("param_type"@.len() != "min"@.len());
    assert("param_type"@.len() != "max"@.len());
    assert("param_type"@.len() != "step"@.len());
    assert("param_type"@.len() != "default"@.len());
    assert("min"@[1] != "max"@[1]);
    assert("min"@.len() != "step"@.len());
    assert("min"@.len() != "default"@.len());
    assert("max"@.len() != "step"@.len());
    assert("max"@.len() != "default"@.len());
    assert("step"@.len() != "default"@.len());
}

/// The schema lists each field of a parameter definition exactly as the
/// definition is read: every listed field is a field of the definition,
/// listed with the JSON type its value is read from and required exactly
/// when the definition must have it; every field of the definition is
/// listed; and the type of a parameter is one of "number", "string" and
/// "boolean".
pub proof fn lemma_listed_fields_match_definition()
    ensures
        forall|i: int|
            0 <= i < parameter_fields_spec().len() ==> listed_as_read(
                #[trigger] parameter_fields_spec()[i],
            ),
        forall|name: Seq<char>|
            #[trigger] definition_field(name) is Some ==> exists|i: int|
                0 <= i < parameter_fields_spec().len() && #[trigger] parameter_fields_spec()[i].name
                    == name,
        parameter_fields_spec()[2].name == "param_type"@,
        parameter_fields_spec()[2].allowed == seq!["number"@, "string"@, "boolean"@],
{
    lemma_field_names_distinct();
    let fs = parameter_fields_spec();
    assert forall|name: Seq<char>| #[trigger] definition_field(name) is Some implies exists|i: int|
        0 <= i < fs.len() && #[trigger] fs[i].name == name by {
        if name == "name"@ {
            assert(fs[0].name == name);
        } else if name == "description"@ {
            assert(fs[1].name == name);
        } else if name == "param_type"@ {
            assert(fs[2].name == name);
        } else if name == "min"@ {
            assert(fs[3].name == name);
        } else if name == "max"@ {
            assert(fs[4].name == name);
        } else if name == "step"@ {
            assert(fs[5].name == name);
        } else {
            assert(fs[6].name == name);
        }
    }
}

/// The JSON type of a parameter's value.
pub open spec fn json_type_spec(kind: ParamKind) -> Seq<char> {
    match kind {
        ParamKind::Text => "string"@,
        _ => "array"@,
    }
}

/// The JSON type of the items of a list parameter; none for a text.
pub open spec fn item_json_type_spec(kind: ParamKind) -> Option<Seq<char>> {
    match kind {
        ParamKind::Text => None,
        ParamKind::ParameterList => Some("object"@),
        ParamKind::TextList => Some("string"@),
    }
}

/// The JSON type of a parameter's value.
pub fn json_type(kind: ParamKind) -> (t: String)
    ensures
        t@ == json_type_spec(kind),
{
    match kind {
        ParamKind::Text => String::from_str("string"),
        _ => String::from_str("array"),
    }
}

/// The JSON type of the items of a list parameter; none for a text.
pub fn item_json_type(kind: ParamKind) -> (t: Option<String>)
    ensures
        match item_json_type_spec(kind) {
            Some(u) => t matches Some(s) && s@ == u,
            None => t is None,
        },
{
    match kind {
        ParamKind::Text => None,
        ParamKind::ParameterList => Some(String::from_str("object")),
        ParamKind::TextList => Some(String::from_str("string")),
    }
}

} // verus!
