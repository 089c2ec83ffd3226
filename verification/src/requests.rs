//! Decoding a tool request into the call it asks for.

use vstd::prelude::*;
use crate::catalogue::{catalogue, ParamKind, ParamModel};

verus! {

/// An argument of a tool request, as far as the tools read it.
pub enum ArgValue {
    /// A string.
    Text(String),
    /// A list; each item is its text where the item is a string.
    List(Vec<Option<String>>),
    /// Any other value.
    Other,
}

/// The value given for `key`: the first argument of that name.
pub open spec fn arg_lookup(args: Seq<(String, ArgValue)>, key: Seq<char>) -> Option<ArgValue>
    decreases args.len(),
{
    if args.len() == 0 {
        None
    } else if args[0].0@ == key {
        Some(args[0].1)
    } else {
        arg_lookup(args.drop_first(), key)
    }
}

/// The text given for `key`, when a string was given.
pub open spec fn text_arg(args: Seq<(String, ArgValue)>, key: Seq<char>) -> Option<Seq<char>> {
    match arg_lookup(args, key) {
        Some(ArgValue::Text(s)) => Some(s@),
        _ => None,
    }
}

/// The items given for `key`, when a list was given.
pub open spec fn list_arg(args: Seq<(String, ArgValue)>, key: Seq<char>) -> Option<Seq<Option<String>>> {
    match arg_lookup(args, key) {
        Some(ArgValue::List(items)) => Some(items@),
        _ => None,
    }
}

/// The string items of a list, in order; other items are passed over.
pub open spec fn string_items(items: Seq<Option<String>>) -> Seq<Seq<char>>
    decreases items.len(),
{
    if items.len() == 0 {
        Seq::empty()
    } else {
        let rest = string_items(items.drop_last());
        match items.last() {
            Some(s) => rest.push(s@),
            None => rest,
        }
    }
}

/// Whether a list item is a string.
pub open spec fn is_string_item() -> spec_fn(Option<String>) -> bool {
    |item: Option<String>| item is Some
}

/// The text of a list item that is a string.
pub open spec fn item_text() -> spec_fn(Option<String>) -> Seq<char> {
    |item: Option<String>|
        match item {
            Some(s) => s@,
            None => Seq::empty(),
        }
}

/// The string items of a list are exactly its items that are strings, each
/// by its text, in the order of the list; nothing else is kept and none of
/// them is left out.
pub proof fn lemma_string_items_are_the_strings(items: Seq<Option<String>>)
    ensures
        string_items(items) == items.filter(is_string_item()).map_values(item_text()),
    decreases items.len(),
{
    reveal(Seq::filter);
    let kept = items.filter(is_string_item());
    if items.len() == 0 {
        assert(kept.map_values(item_text()) =~= Seq::<Seq<char>>::empty());
    } else {
        lemma_string_items_are_the_strings(items.drop_last());
        let front = items.drop_last().filter(is_string_item());
        match items.last() {
            Some(s) => {
                assert(kept == front.push(items.last()));
                assert(front.push(items.last()).map_values(item_text()) =~= front.map_values(
                    item_text(),
                ).push(s@));
            },
            None => {
                assert(kept == front);
            },
        }
    }
}

/// A list made only of strings gives every one of them, in order.
pub proof fn lemma_all_strings_kept(items: Seq<Option<String>>)
    requires
        forall|i: int| 0 <= i < items.len() ==> #[trigger] items[i] is Some,
    ensures
        string_items(items).len() == items.len(),
        forall|i: int| 0 <= i < items.len() ==> string_items(items)[i] == (#[trigger] items[i])->0@,
    decreases items.len(),
{
    if items.len() > 0 {
        let front = items.drop_last();
        assert forall|i: int| 0 <= i < front.len() implies #[trigger] front[i] is Some by {
            assert(front[i] == items[i]);
        }
        lemma_all_strings_kept(front);
        assert(items[items.len() - 1] is Some);
        assert forall|i: int| 0 <= i < items.len() implies string_items(items)[i] == (#[trigger] items[i])->0@ by {
            if i < front.len() {
                assert(front[i] == items[i]);
                assert(front[i]->0@ == string_items(front)[i]);
            }
        }
    }
}

/// The string items of two lists one after the other are those of the
/// first list followed by those of the second.
pub proof fn lemma_string_items_concat(a: Seq<Option<String>>, b: Seq<Option<String>>)
    ensures
        string_items(a + b) == string_items(a) + string_items(b),
    decreases b.len(),
{
    if b.len() == 0 {
        assert(a + b =~= a);
        assert(string_items(a) + string_items(b) =~= string_items(a));
    } else {
        lemma_string_items_concat(a, b.drop_last());
        assert((a + b).drop_last() =~= a + b.drop_last());
        assert((a + b).last() == b.last());
        match b.last() {
            Some(s) => {
                assert(string_items(a) + string_items(b.drop_last()).push(s@) =~= (string_items(a)
                    + string_items(b.drop_last())).push(s@));
            },
            None => {},
        }
    }
}

/// A decoded tool request.
pub enum ToolCall {
    WriteScad { filename: String, code: String },
    RenderPreview { filename: String },
    ExportStl { filename: String, output_name: String },
    /// The parameter definitions are read from the request's "parameters"
    /// list by the caller.
    SaveDesignMetadata {
        filename: String,
        name: String,
        description: String,
        suggested_modifications: Vec<String>,
    },
    GetDesignSuggestions { filename: String },
    Unknown { name: String },
}

/// A decoded tool request as text.
pub enum CallModel {
    WriteScad { filename: Seq<char>, code: Seq<char> },
    RenderPreview { filename: Seq<char> },
    ExportStl { filename: Seq<char>, output_name: Seq<char> },
    SaveDesignMetadata {
        filename: Seq<char>,
        name: Seq<char>,
        description: Seq<char>,
        suggested_modifications: Seq<Seq<char>>,
    },
    GetDesignSuggestions { filename: Seq<char> },
    Unknown { name: Seq<char> },
}

impl View for ToolCall {
    type V = CallModel;

    open spec fn view(&self) -> CallModel {
        match self {
            ToolCall::WriteScad { filename, code } => CallModel::WriteScad {
                filename: filename@,
                code: code@,
            },
            ToolCall::RenderPreview { filename } => CallModel::RenderPreview { filename: filename@ },
            ToolCall::ExportStl { filename, output_name } => CallModel::ExportStl {
                filename: filename@,
                output_name: output_name@,
            },
            ToolCall::SaveDesignMetadata { filename, name, description, suggested_modifications } =>
                CallModel::SaveDesignMetadata {
                filename: filename@,
                name: name@,
                description: description@,
                suggested_modifications: suggested_modifications@.map_values(|s: String| s@),
            },
            ToolCall::GetDesignSuggestions { filename } => CallModel::GetDesignSuggestions {
                filename: filename@,
            },
            ToolCall::Unknown { name } => CallModel::Unknown { name: name@ },
        }
    }
}

/// What a request for the tool `tool` with the arguments `args` asks for,
/// or, when a required argument is missing or not of its kind, the message
/// that says so. Arguments are checked in the order the tool lists them.
pub open spec fn decode_call(tool: Seq<char>, args: Seq<(String, ArgValue)>) -> Result<CallModel, Seq<char>> {
    if tool == "write_scad"@ {
        match (text_arg(args, "filename"@), text_arg(args, "code"@)) {
            (None, _) => Err("Missing filename parameter"@),
            (Some(_), None) => Err("Missing code parameter"@),
            (Some(filename), Some(code)) => Ok(CallModel::WriteScad { filename, code }),
        }
    } else if tool == "render_preview"@ {
        match text_arg(args, "filename"@) {
            None => Err("Missing filename parameter"@),
            Some(filename) => Ok(CallModel::RenderPreview { filename }),
        }
    } else if tool == "export_stl"@ {
        match (text_arg(args, "filename"@), text_arg(args, "output_name"@)) {
            (None, _) => Err("Missing filename parameter"@),
            (Some(_), None) => Err("Missing output_name parameter"@),
            (Some(filename), Some(output_name)) => Ok(CallModel::ExportStl { filename, output_name }),
        }
    } else if tool == "save_design_metadata"@ {
        if text_arg(args, "filename"@) is None {
            Err("Missing filename"@)
        } else if text_arg(args, "name"@) is None {
            Err("Missing name"@)
        } else if text_arg(args, "description"@) is None {
            Err("Missing description"@)
        } else if list_arg(args, "parameters"@) is None {
            Err("Missing parameters"@)
        } else if list_arg(args, "suggested_modifications"@) is None {
            Err("Missing suggested_modifications"@)
        } else {
            Ok(
                CallModel::SaveDesignMetadata {
                    filename: text_arg(args, "filename"@)->0,
                    name: text_arg(args, "name"@)->0,
                    description: text_arg(args, "description"@)->0,
                    suggested_modifications: string_items(list_arg(args, "suggested_modifications"@)->0),
                },
            )
        }
    } else if tool == "get_design_suggestions"@ {
        match text_arg(args, "filename"@) {
            None => Err("Missing filename"@),
            Some(filename) => Ok(CallModel::GetDesignSuggestions { filename }),
        }
    } else {
        Ok(CallModel::Unknown { name: tool })
    }
}

/// Whether two texts are equal.
pub fn same_text(a: &str, b: &str) -> (same: bool)
    ensures
        same == (a@ == b@),
{
    String::from_str(a) == String::from_str(b)
}

/// The argument given for `key`, if any.
fn find_arg<'a>(args: &'a Vec<(String, ArgValue)>, key: &str) -> (found: Option<&'a ArgValue>)
    ensures
        match arg_lookup(args@, key@) {
            Some(v) => found matches Some(f) && *f == v,
            None => found is None,
        },
{
    let mut i: usize = 0;
    assert(args@.skip(0) =~= args@);
    while i < args.len()
        invariant
            0 <= i <= args.len(),
            arg_lookup(args@, key@) == arg_lookup(args@.skip(i as int), key@),
        decreases args.len() - i,
    {
        assert(args@.skip(i as int)[0] == args@[i as int]);
        if same_text(args[i].0.as_str(), key) {
            return Some(&args[i].1);
        }
        assert(args@.skip(i as int).drop_first() =~= args@.skip(i as int + 1));
        i = i + 1;
    }
    None
}

/// The text given for `key`, when a string was given.
fn find_text(args: &Vec<(String, ArgValue)>, key: &str) -> (text: Option<String>)
    ensures
        match text_arg(args@, key@) {
            Some(t) => text matches Some(s) && s@ == t,
            None => text is None,
        },
{
    match find_arg(args, key) {
        Some(ArgValue::Text(s)) => Some(s.clone()),
        _ => None,
    }
}

/// The string items given for `key`, when a list was given.
fn find_string_items(args: &Vec<(String, ArgValue)>, key: &str) -> (items: Option<Vec<String>>)
    ensures
        match list_arg(args@, key@) {
            Some(l) => items matches Some(v) && v@.map_values(|s: String| s@) == string_items(l),
            None => items is None,
        },
{
    match find_arg(args, key) {
        Some(ArgValue::List(list)) => {
            let mut out: Vec<String> = Vec::new();
            let mut i: usize = 0;
            while i < list.len()
                invariant
                    0 <= i <= list.len(),
                    out@.map_values(|s: String| s@) == string_items(list@.take(i as int)),
                decreases list.len() - i,
            {
                assert(list@.take(i as int + 1).drop_last() =~= list@.take(i as int));
                match &list[i] {
                    Some(s) => {
                        let c = s.clone();
                        out.push(c);
                        assert(out@.map_values(|s: String| s@) =~= out@.drop_last().map_values(
                            |s: String| s@,
                        ).push(c@));
                    },
                    None => {},
                }
                i = i + 1;
            }
            assert(list@.take(list.len() as int) =~= list@);
            Some(out)
        },
        _ => None,
    }
}

fn missing(message: &str) -> (r: Result<ToolCall, String>)
    ensures
        r matches Err(e) && e@ == message@,
{
    Err(String::from_str(message))
}

/// Decodes a request for the tool `tool` with the arguments `args`: the
/// call it asks for, or the message that names the first required argument
/// that is missing or not of its kind.
pub fn parse_tool_call(tool: &str, args: &Vec<(String, ArgValue)>) -> (r: Result<ToolCall, String>)
    ensures
        match r {
            Ok(call) => decode_call(tool@, args@) == Ok::<CallModel, Seq<char>>(call@),
            Err(e) => decode_call(tool@, args@) == Err::<CallModel, Seq<char>>(e@),
        },
{
    if same_text(tool, "write_scad") {
        let filename = match find_text(args, "filename") {
            Some(f) => f,
            None => return missing("Missing filename parameter"),
        };
        let code = match find_text(args, "code") {
            Some(c) => c,
            None => return missing("Missing code parameter"),
        };
        Ok(ToolCall::WriteScad { filename, code })
    } else if same_text(tool, "render_preview") {
        match find_text(args, "filename") {
            Some(filename) => Ok(ToolCall::RenderPreview { filename }),
            None => missing("Missing filename parameter"),
        }
    } else if same_text(tool, "export_stl") {
        let filename = match find_text(args, "filename") {
            Some(f) => f,
            None => return missing("Missing filename parameter"),
        };
        let output_name = match find_text(args, "output_name") {
            Some(o) => o,
            None => return missing("Missing output_name parameter"),
        };
        Ok(ToolCall::ExportStl { filename, output_name })
    } else if same_text(tool, "save_design_metadata") {
        let filename = match find_text(args, "filename") {
            Some(f) => f,
            None => return missing("Missing filename"),
        };
        let name = match find_text(args, "name") {
            Some(n) => n,
            None => return missing("Missing name"),
        };
        let description = match find_text(args, "description") {
            Some(d) => d,
            None => return missing("Missing description"),
        };
        match find_arg(args, "parameters") {
            Some(ArgValue::List(_)) => {},
            _ => return missing("Missing parameters"),
        }
        let suggested_modifications = match find_string_items(args, "suggested_modifications") {
            Some(s) => s,
            None => return missing("Missing suggested_modifications"),
        };
        Ok(ToolCall::SaveDesignMetadata { filename, name, description, suggested_modifications })
    } else if same_text(tool, "get_design_suggestions") {
        match find_text(args, "filename") {
            Some(filename) => Ok(ToolCall::GetDesignSuggestions { filename }),
            None => missing("Missing filename"),
        }
    } else {
        Ok(ToolCall::Unknown { name: String::from_str(tool) })
    }
}

/// The request gives parameter `p` as its kind asks: text for a text
/// parameter, a list for a list parameter.
pub open spec fn provides(args: Seq<(String, ArgValue)>, p: ParamModel) -> bool {
    match p.kind {
        ParamKind::Text => text_arg(args, p.name) is Some,
        _ => list_arg(args, p.name) is Some,
    }
}

/// The name of the tool a decoded call is for.
pub open spec fn call_name(c: CallModel) -> Seq<char> {
    match c {
        CallModel::WriteScad { .. } => "write_scad"@,
        CallModel::RenderPreview { .. } => "render_preview"@,
        CallModel::ExportStl { .. } => "export_stl"@,
        CallModel::SaveDesignMetadata { .. } => "save_design_metadata"@,
        CallModel::GetDesignSuggestions { .. } => "get_design_suggestions"@,
        CallModel::Unknown { name } => name,
    }
}

proof fn lemma_tool_names_distinct()
    ensures
        "write_scad"@ != "render_preview"@,
        "write_scad"@ != "export_stl"@,
        "write_scad"@ != "save_design_metadata"@,
        "write_scad"@ != "get_design_suggestions"@,
        "render_preview"@ != "export_stl"@,
        "render_preview"@ != "save_design_metadata"@,
        "render_preview"@ != "get_design_suggestions"@,
        "export_stl"@ != "save_design_metadata"@,
        "export_stl"@ != "get_design_suggestions"@,
        "save_design_metadata"@ != "get_design_suggestions"@,
{
    reveal_strlit("write_scad");
    reveal_strlit("render_preview");
    reveal_strlit("export_stl");
    reveal_strlit("save_design_metadata");
    reveal_strlit("get_design_suggestions");
    assert("write_scad"@.len() != "render_preview"@.len());
    assert("write_scad"@.len() == "export_stl"@.len());
    assert("write_scad"@[0] != "export_stl"@[0]);
    assert("write_scad"@.len() != "save_design_metadata"@.len());
    assert("write_scad"@.len() != "get_design_suggestions"@.len());
    assert("render_preview"@.len() != "export_stl"@.len());
    assert("render_preview"@.len() != "save_design_metadata"@.len());
    assert("render_preview"@.len() != "get_design_suggestions"@.len());
    assert("export_stl"@.len() != "save_design_metadata"@.len());
    assert("export_stl"@.len() != "get_design_suggestions"@.len());
    assert("save_design_metadata"@.len() != "get_design_suggestions"@.len());
}

/// Every tool the server lists is one that it handles: a request that gives
/// each parameter the tool lists, in the kind listed, decodes to a call of
/// that very tool; a request that leaves out any listed parameter, or gives
/// it in another kind, is refused as invalid.
pub proof fn lemma_listed_tools_are_handled(i: int, args: Seq<(String, ArgValue)>)
    requires
        0 <= i < catalogue().len(),
    ensures
        (forall|j: int|
            0 <= j < catalogue()[i].params.len() ==> provides(args, #[trigger] catalogue()[i].params[j]))
            ==> (decode_call(catalogue()[i].name, args) matches Ok(c) && !(c is Unknown) && call_name(c)
            == catalogue()[i].name),
        (exists|j: int|
            0 <= j < catalogue()[i].params.len() && !provides(args, #[trigger] catalogue()[i].params[j]))
            ==> decode_call(catalogue()[i].name, args) is Err,
{
    lemma_tool_names_distinct();
    let ps = catalogue()[i].params;
    if forall|j: int| 0 <= j < ps.len() ==> provides(args, #[trigger] ps[j]) {
        assert(provides(args, ps[0]));
        if ps.len() > 1 {
            assert(provides(args, ps[1]));
        }
        if i == 3 {
            assert(provides(args, ps[2]));
            assert(provides(args, ps[3]));
            assert(provides(args, ps[4]));
        }
    }
    if exists|j: int| 0 <= j < ps.len() && !provides(args, #[trigger] ps[j]) {
        let j = choose|j: int| 0 <= j < ps.len() && !provides(args, #[trigger] ps[j]);
        assert(!provides(args, ps[j]));
    }
}

/// A request for a tool the server does not list decodes to an unknown
/// call that carries the requested name, whatever its arguments.
pub proof fn lemma_unlisted_tools_are_unknown(tool: Seq<char>, args: Seq<(String, ArgValue)>)
    requires
        forall|i: int| 0 <= i < catalogue().len() ==> #[trigger] catalogue()[i].name != tool,
    ensures
        decode_call(tool, args) == Ok::<CallModel, Seq<char>>(CallModel::Unknown { name: tool }),
{
    assert(catalogue()[0].name != tool);
    assert(catalogue()[1].name != tool);
    assert(catalogue()[2].name != tool);
    assert(catalogue()[3].name != tool);
    assert(catalogue()[4].name != tool);
}

/// The text a decoded call carries for the argument named `key`, if it
/// carries one.
pub open spec fn call_text(c: CallModel, key: Seq<char>) -> Option<Seq<char>> {
    match c {
        CallModel::WriteScad { filename, code } => if key == "filename"@ {
            Some(filename)
        } else if key == "code"@ {
            Some(code)
        } else {
            None
        },
        CallModel::RenderPreview { filename } => if key == "filename"@ {
            Some(filename)
        } else {
            None
        },
        CallModel::ExportStl { filename, output_name } => if key == "filename"@ {
            Some(filename)
        } else if key == "output_name"@ {
            Some(output_name)
        } else {
            None
        },
        CallModel::SaveDesignMetadata { filename, name, description, .. } => if key == "filename"@ {
            Some(filename)
        } else if key == "name"@ {
            Some(name)
        } else if key == "description"@ {
            Some(description)
        } else {
            None
        },
        CallModel::GetDesignSuggestions { filename } => if key == "filename"@ {
            Some(filename)
        } else {
            None
        },
        CallModel::Unknown { .. } => None,
    }
}

/// The list of texts a decoded call carries for the argument named `key`,
/// if it carries one.
pub open spec fn call_texts(c: CallModel, key: Seq<char>) -> Option<Seq<Seq<char>>> {
    match c {
        CallModel::SaveDesignMetadata { suggested_modifications, .. } => if key
            == "suggested_modifications"@ {
            Some(suggested_modifications)
        } else {
            None
        },
        _ => None,
    }
}

/// The call carries parameter `p` as the request gave it: a text
/// parameter as the text given under its name, a list of texts as the
/// string items of the list given under its name. A list of parameter
/// definitions is not carried: the caller reads it from the request.
pub open spec fn carries(c: CallModel, args: Seq<(String, ArgValue)>, p: ParamModel) -> bool {
    match p.kind {
        ParamKind::Text => call_text(c, p.name) == text_arg(args, p.name),
        ParamKind::TextList => call_texts(c, p.name) == Some(string_items(list_arg(args, p.name)->0)),
        ParamKind::ParameterList => true,
    }
}

proof fn lemma_argument_names_distinct()
    ensures
        "code"@ != "filename"@,
        "output_name"@ != "filename"@,
        "name"@ != "filename"@,
        "description"@ != "filename"@,
        "description"@ != "name"@,
{
    reveal_strlit("filename");
    reveal_strlit("code");
    reveal_strlit("output_name");
    reveal_strlit("name");
    reveal_strlit("description");
    assert("code"@.len() != "filename"@.len());
    assert("output_name"@.len() != "filename"@.len());
    assert("name"@.len() != "filename"@.len());
    assert("description"@.len() != "filename"@.len());
    assert("description"@.len() != "name"@.len());
}

/// A decoded call carries what the request gave: for a tool the server
/// lists, a request that decodes carries, under the name of each text
/// parameter of the tool, exactly the text given for that name, and under
/// the name of each list of texts, exactly the string items of the list
/// given for that name, all of them and in order.
pub proof fn lemma_decoded_calls_carry_arguments(i: int, args: Seq<(String, ArgValue)>)
    requires
        0 <= i < catalogue().len(),
    ensures
        decode_call(catalogue()[i].name, args) matches Ok(c) ==> forall|j: int|
            0 <= j < catalogue()[i].params.len() ==> carries(
                c,
                args,
                #[trigger] catalogue()[i].params[j],
            ),
{
    lemma_tool_names_distinct();
    lemma_argument_names_distinct();
    let ps = catalogue()[i].params;
    if decode_call(catalogue()[i].name, args) is Ok {
        let c = decode_call(catalogue()[i].name, args)->Ok_0;
        assert forall|j: int| 0 <= j < ps.len() implies carries(c, args, #[trigger] ps[j]) by {
            if i == 3 {
                assert(list_arg(args, "suggested_modifications"@) is Some);
            }
        }
    }
}

} // verus!
