//! The tool registry: the fixed set of tools the model may invoke, the
//! parameters each of them takes, and the dispatch from an invocation's name
//! and arguments to the request that the tool is to carry out.

use vstd::prelude::*;
use vstd::string::StringExecFns;
use crate::json::{json_string_members, parse_json, string_member, string_members};
use crate::types::{clone_option, option_view};

verus! {

/// One parameter of a tool, as its JSON schema describes it.
#[derive(Debug, PartialEq, Eq)]
pub struct ToolParameter {
    pub name: String,
    pub kind: String,
    pub description: String,
    pub required: bool,
}

/// A tool as advertised to the model.
#[derive(Debug, PartialEq, Eq)]
pub struct ToolDefinition {
    pub name: String,
    pub description: String,
    pub parameters: Vec<ToolParameter>,
}

/// A parameter as a mathematical value.
pub struct ToolParameterView {
    pub name: Seq<char>,
    pub kind: Seq<char>,
    pub description: Seq<char>,
    pub required: bool,
}

/// A tool definition as a mathematical value.
pub struct ToolDefinitionView {
    pub name: Seq<char>,
    pub description: Seq<char>,
    pub parameters: Seq<ToolParameterView>,
}

impl View for ToolParameter {
    type V = ToolParameterView;

    open spec fn view(&self) -> ToolParameterView {
        ToolParameterView {
            name: self.name@,
            kind: self.kind@,
            description: self.description@,
            required: self.required,
        }
    }
}

/// The views of a sequence of parameters, in order.
pub open spec fn parameter_views(parameters: Seq<ToolParameter>) -> Seq<ToolParameterView> {
    Seq::new(parameters.len(), |i: int| parameters[i]@)
}

impl View for ToolDefinition {
    type V = ToolDefinitionView;

    open spec fn view(&self) -> ToolDefinitionView {
        ToolDefinitionView {
            name: self.name@,
            description: self.description@,
            parameters: parameter_views(self.parameters@),
        }
    }
}

/// The views of a sequence of definitions, in order.
pub open spec fn definition_views(definitions: Seq<ToolDefinition>) -> Seq<ToolDefinitionView> {
    Seq::new(definitions.len(), |i: int| definitions[i]@)
}

/// A parameter of JSON type `string`.
pub open spec fn string_parameter(
    name: Seq<char>,
    description: Seq<char>,
    required: bool,
) -> ToolParameterView {
    ToolParameterView { name, kind: "string"@, description, required }
}

/// The registry: the five tools, ordered by name.
pub open spec fn tool_catalog() -> Seq<ToolDefinitionView> {
    seq![
        ToolDefinitionView {
            name: "calculate"@,
            description: "Evaluate a mathematical expression"@,
            parameters: seq![
                string_parameter("expression"@, "Mathematical expression to evaluate"@, true),
            ],
        },
        ToolDefinitionView {
            name: "final_answer"@,
            description: "Provide the final answer for the analysis"@,
            parameters: seq![string_parameter("answer"@, "The final analysis result"@, true)],
        },
        ToolDefinitionView {
            name: "find_all_matching_files"@,
            description: "Find files matching a pattern in a directory"@,
            parameters: seq![
                string_parameter("directory"@, "Directory to search in"@, true),
                string_parameter(
                    "pattern"@,
                    "Optional regex pattern to match filenames"@,
                    false,
                ),
            ],
        },
        ToolDefinitionView {
            name: "read_file"@,
            description: "Read the contents of a file"@,
            parameters: seq![string_parameter("file_path"@, "Path to the file to read"@, true)],
        },
        ToolDefinitionView {
            name: "search_code"@,
            description: "Search for code matching a query in a directory"@,
            parameters: seq![
                string_parameter("directory"@, "Directory to search in"@, true),
                string_parameter("query"@, "Search query"@, true),
            ],
        },
    ]
}

/// Whether the registry holds a tool of this name.
pub open spec fn registered(name: Seq<char>) -> bool {
    exists|i: int| 0 <= i < tool_catalog().len() && (#[trigger] tool_catalog()[i]).name == name
}

fn make_parameter(name: &str, description: &str, required: bool) -> (p: ToolParameter)
    ensures
        p@ == string_parameter(name@, description@, required),
{
    ToolParameter {
        name: String::from_str(name),
        kind: String::from_str("string"),
        description: String::from_str(description),
        required,
    }
}

fn make_definition(name: &str, description: &str, parameters: Vec<ToolParameter>) -> (d:
    ToolDefinition)
    ensures
        d@ == (ToolDefinitionView {
            name: name@,
            description: description@,
            parameters: parameter_views(parameters@),
        }),
{
    ToolDefinition {
        name: String::from_str(name),
        description: String::from_str(description),
        parameters,
    }
}

fn one_parameter(name: &str, description: &str) -> (v: Vec<ToolParameter>)
    ensures
        parameter_views(v@) == seq![string_parameter(name@, description@, true)],
{
    let mut v: Vec<ToolParameter> = Vec::new();
    v.push(make_parameter(name, description, true));
    assert(parameter_views(v@) =~= seq![string_parameter(name@, description@, true)]);
    v
}

fn two_parameters(
    first: &str,
    first_description: &str,
    second: &str,
    second_description: &str,
    second_required: bool,
) -> (v: Vec<ToolParameter>)
    ensures
        parameter_views(v@) == seq![
            string_parameter(first@, first_description@, true),
            string_parameter(second@, second_description@, second_required),
        ],
{
    let mut v: Vec<ToolParameter> = Vec::new();
    v.push(make_parameter(first, first_description, true));
    v.push(make_parameter(second, second_description, second_required));
    assert(parameter_views(v@) =~= seq![
        string_parameter(first@, first_description@, true),
        string_parameter(second@, second_description@, second_required),
    ]);
    v
}

/// Builds the registry.
pub fn create_tool_map() -> (tools: Vec<ToolDefinition>)
    ensures
        definition_views(tools@) == tool_catalog(),
{
    let mut tools: Vec<ToolDefinition> = Vec::new();
    tools.push(
        make_definition(
            "calculate",
            "Evaluate a mathematical expression",
            one_parameter("expression", "Mathematical expression to evaluate"),
        ),
    );
    tools.push(
        make_definition(
            "final_answer",
            "Provide the final answer for the analysis",
            one_parameter("answer", "The final analysis result"),
        ),
    );
    tools.push(
        make_definition(
            "find_all_matching_files",
            "Find files matching a pattern in a directory",
            two_parameters(
                "directory",
                "Directory to search in",
                "pattern",
                "Optional regex pattern to match filenames",
                false,
            ),
        ),
    );
    tools.push(
        make_definition(
            "read_file",
            "Read the contents of a file",
            one_parameter("file_path", "Path to the file to read"),
        ),
    );
    tools.push(
        make_definition(
            "search_code",
            "Search for code matching a query in a directory",
            two_parameters(
                "directory",
                "Directory to search in",
                "query",
                "Search query",
                true,
            ),
        ),
    );
    assert(definition_views(tools@) =~= tool_catalog());
    tools
}

/// The string arguments of a tool invocation, by parameter name.
#[derive(Debug, PartialEq, Eq)]
pub struct ToolArguments {
    pub directory: Option<String>,
    pub pattern: Option<String>,
    pub file_path: Option<String>,
    pub query: Option<String>,
    pub expression: Option<String>,
    pub answer: Option<String>,
}

/// The arguments as mathematical values.
pub struct ToolArgumentsView {
    pub directory: Option<Seq<char>>,
    pub pattern: Option<Seq<char>>,
    pub file_path: Option<Seq<char>>,
    pub query: Option<Seq<char>>,
    pub expression: Option<Seq<char>>,
    pub answer: Option<Seq<char>>,
}

impl View for ToolArguments {
    type V = ToolArgumentsView;

    open spec fn view(&self) -> ToolArgumentsView {
        ToolArgumentsView {
            directory: option_view(self.directory),
            pattern: option_view(self.pattern),
            file_path: option_view(self.file_path),
            query: option_view(self.query),
            expression: option_view(self.expression),
            answer: option_view(self.answer),
        }
    }
}

/// The member of a JSON object under `key`, if it is a string.
pub open spec fn member(members: Map<Seq<char>, Seq<char>>, key: Seq<char>) -> Option<Seq<char>> {
    if members.contains_key(key) {
        Some(members[key])
    } else {
        None
    }
}

/// The tool arguments that a JSON object with these string members holds.
pub open spec fn arguments_from(members: Map<Seq<char>, Seq<char>>) -> ToolArgumentsView {
    ToolArgumentsView {
        directory: member(members, "directory"@),
        pattern: member(members, "pattern"@),
        file_path: member(members, "file_path"@),
        query: member(members, "query"@),
        expression: member(members, "expression"@),
        answer: member(members, "answer"@),
    }
}

/// Reads the tool arguments out of a parsed JSON value.
pub fn read_arguments(value: &serde_json::Value) -> (args: ToolArguments)
    ensures
        args@ == arguments_from(string_members(*value)),
{
    ToolArguments {
        directory: string_member(value, "directory"),
        pattern: string_member(value, "pattern"),
        file_path: string_member(value, "file_path"),
        query: string_member(value, "query"),
        expression: string_member(value, "expression"),
        answer: string_member(value, "answer"),
    }
}

/// What a payload holds as tool arguments; nothing if it is not valid JSON.
pub open spec fn parsed_arguments(payload: Seq<char>) -> Option<ToolArgumentsView> {
    match json_string_members(payload) {
        Some(members) => Some(arguments_from(members)),
        None => None,
    }
}

/// Parses the argument payload of a tool invocation. Returns nothing exactly
/// when the payload is not valid JSON.
pub fn parse_arguments(payload: &str) -> (r: Option<ToolArguments>)
    ensures
        match parsed_arguments(payload@) {
            Some(args) => r is Some && r->0@ == args,
            None => r is None,
        },
{
    match parse_json(payload) {
        Ok(value) => Some(read_arguments(&value)),
        Err(_) => None,
    }
}

/// What a tool is asked to do, with the arguments it needs.
#[derive(Debug, PartialEq, Eq)]
pub enum ToolRequest {
    FindFiles { directory: String, pattern: Option<String> },
    ReadFile { file_path: String },
    SearchCode { directory: String, query: String },
    Calculate { expression: String },
    FinalAnswer { answer: String },
}

/// A tool request as a mathematical value.
pub enum ToolRequestView {
    FindFiles { directory: Seq<char>, pattern: Option<Seq<char>> },
    ReadFile { file_path: Seq<char> },
    SearchCode { directory: Seq<char>, query: Seq<char> },
    Calculate { expression: Seq<char> },
    FinalAnswer { answer: Seq<char> },
}

impl View for ToolRequest {
    type V = ToolRequestView;

    open spec fn view(&self) -> ToolRequestView {
        match self {
            ToolRequest::FindFiles { directory, pattern } => ToolRequestView::FindFiles {
                directory: directory@,
                pattern: option_view(*pattern),
            },
            ToolRequest::ReadFile { file_path } => ToolRequestView::ReadFile {
                file_path: file_path@,
            },
            ToolRequest::SearchCode { directory, query } => ToolRequestView::SearchCode {
                directory: directory@,
                query: query@,
            },
            ToolRequest::Calculate { expression } => ToolRequestView::Calculate {
                expression: expression@,
            },
            ToolRequest::FinalAnswer { answer } => ToolRequestView::FinalAnswer {
                answer: answer@,
            },
        }
    }
}

/// Why a tool invocation cannot be carried out.
#[derive(Debug, PartialEq, Eq)]
pub enum ToolError {
    /// No tool of this name is registered.
    UnknownTool(String),
    /// The arguments lack this required string parameter.
    MalformedArguments(String),
    /// The tool could not run at all; its message.
    Failed(String),
}

/// A tool error as a mathematical value.
pub enum ToolErrorView {
    UnknownTool(Seq<char>),
    MalformedArguments(Seq<char>),
    Failed(Seq<char>),
}

impl View for ToolError {
    type V = ToolErrorView;

    open spec fn view(&self) -> ToolErrorView {
        match self {
            ToolError::UnknownTool(name) => ToolErrorView::UnknownTool(name@),
            ToolError::MalformedArguments(parameter) => ToolErrorView::MalformedArguments(
                parameter@,
            ),
            ToolError::Failed(message) => ToolErrorView::Failed(message@),
        }
    }
}

impl Clone for ToolError {
    fn clone(&self) -> (r: Self)
        ensures
            r@ == self@,
    {
        match self {
            ToolError::UnknownTool(name) => ToolError::UnknownTool(name.clone()),
            ToolError::MalformedArguments(parameter) => ToolError::MalformedArguments(
                parameter.clone(),
            ),
            ToolError::Failed(message) => ToolError::Failed(message.clone()),
        }
    }
}

/// The message of a tool error.
pub open spec fn tool_error_message(error: ToolErrorView) -> Seq<char> {
    match error {
        ToolErrorView::UnknownTool(name) => "Unknown tool: "@ + name,
        ToolErrorView::MalformedArguments(parameter) => "Missing "@ + parameter + " parameter"@,
        ToolErrorView::Failed(message) => message,
    }
}

impl ToolError {
    /// A sentence that says what went wrong.
    pub fn message(&self) -> (r: String)
        ensures
            r@ == tool_error_message(self@),
    {
        match self {
            ToolError::UnknownTool(name) => String::from_str("Unknown tool: ").concat(
                name.as_str(),
            ),
            ToolError::MalformedArguments(parameter) => String::from_str("Missing ").concat(
                parameter.as_str(),
            ).concat(" parameter"),
            ToolError::Failed(message) => message.clone(),
        }
    }
}

/// The argument under a parameter name, if it is given.
pub open spec fn argument(args: ToolArgumentsView, parameter: Seq<char>) -> Option<Seq<char>> {
    if parameter == "directory"@ {
        args.directory
    } else if parameter == "pattern"@ {
        args.pattern
    } else if parameter == "file_path"@ {
        args.file_path
    } else if parameter == "query"@ {
        args.query
    } else if parameter == "expression"@ {
        args.expression
    } else if parameter == "answer"@ {
        args.answer
    } else {
        None
    }
}

/// The request when the required parameter is present, else the error that
/// names it.
pub open spec fn require(
    value: Option<Seq<char>>,
    parameter: Seq<char>,
    request: ToolRequestView,
) -> Result<ToolRequestView, ToolErrorView> {
    if value is Some {
        Ok(request)
    } else {
        Err(ToolErrorView::MalformedArguments(parameter))
    }
}

/// The dispatch rule: which request an invocation of tool `name` with these
/// arguments makes, or why it makes none.
pub open spec fn dispatch(name: Seq<char>, args: ToolArgumentsView) -> Result<
    ToolRequestView,
    ToolErrorView,
> {
    if name == "find_all_matching_files"@ {
        require(
            args.directory,
            "directory"@,
            ToolRequestView::FindFiles { directory: args.directory->0, pattern: args.pattern },
        )
    } else if name == "read_file"@ {
        require(
            args.file_path,
            "file_path"@,
            ToolRequestView::ReadFile { file_path: args.file_path->0 },
        )
    } else if name == "search_code"@ {
        if args.directory is None {
            Err(ToolErrorView::MalformedArguments("directory"@))
        } else {
            require(
                args.query,
                "query"@,
                ToolRequestView::SearchCode { directory: args.directory->0, query: args.query->0 },
            )
        }
    } else if name == "calculate"@ {
        require(
            args.expression,
            "expression"@,
            ToolRequestView::Calculate { expression: args.expression->0 },
        )
    } else if name == "final_answer"@ {
        require(
            args.answer,
            "answer"@,
            ToolRequestView::FinalAnswer { answer: args.answer->0 },
        )
    } else {
        Err(ToolErrorView::UnknownTool(name))
    }
}

fn missing(parameter: &str) -> (r: Result<ToolRequest, ToolError>)
    ensures
        r is Err,
        r matches Err(e) && e@ == ToolErrorView::MalformedArguments(parameter@),
{
    Err(ToolError::MalformedArguments(String::from_str(parameter)))
}

/// Dispatches a tool invocation: checks that the tool is registered and that
/// its required string parameters are present, and returns the request to
/// carry out.
pub fn dispatch_tool(tool_name: &str, args: &ToolArguments) -> (r: Result<ToolRequest, ToolError>)
    ensures
        match dispatch(tool_name@, args@) {
            Ok(request) => r is Ok && r->Ok_0@ == request,
            Err(error) => r is Err && r->Err_0@ == error,
        },
{
    if tool_name.eq("find_all_matching_files") {
        match &args.directory {
            Some(directory) => Ok(
                ToolRequest::FindFiles {
                    directory: directory.clone(),
                    pattern: clone_option(&args.pattern),
                },
            ),
            None => missing("directory"),
        }
    } else if tool_name.eq("read_file") {
        match &args.file_path {
            Some(file_path) => Ok(ToolRequest::ReadFile { file_path: file_path.clone() }),
            None => missing("file_path"),
        }
    } else if tool_name.eq("search_code") {
        match &args.directory {
            Some(directory) => match &args.query {
                Some(query) => Ok(
                    ToolRequest::SearchCode { directory: directory.clone(), query: query.clone() },
                ),
                None => missing("query"),
            },
            None => missing("directory"),
        }
    } else if tool_name.eq("calculate") {
        match &args.expression {
            Some(expression) => Ok(ToolRequest::Calculate { expression: expression.clone() }),
            None => missing("expression"),
        }
    } else if tool_name.eq("final_answer") {
        match &args.answer {
            Some(answer) => Ok(ToolRequest::FinalAnswer { answer: answer.clone() }),
            None => missing("answer"),
        }
    } else {
        Err(ToolError::UnknownTool(String::from_str(tool_name)))
    }
}

/// An invocation is refused as unknown exactly when the registry holds no
/// tool of its name, whatever its arguments.
pub proof fn lemma_unknown_iff_unregistered(name: Seq<char>, args: ToolArgumentsView)
    ensures
        dispatch(name, args) == Err::<ToolRequestView, ToolErrorView>(
            ToolErrorView::UnknownTool(name),
        ) <==> !registered(name),
{
    let catalog = tool_catalog();
    if name == "calculate"@ {
        assert(catalog[0].name == name);
    } else if name == "final_answer"@ {
        assert(catalog[1].name == name);
    } else if name == "find_all_matching_files"@ {
        assert(catalog[2].name == name);
    } else if name == "read_file"@ {
        assert(catalog[3].name == name);
    } else if name == "search_code"@ {
        assert(catalog[4].name == name);
    }
}

/// A registered tool is dispatched exactly when every parameter that its
/// definition marks as required is among the arguments.
pub proof fn lemma_dispatch_needs_required(i: int, args: ToolArgumentsView)
    requires
        0 <= i < tool_catalog().len(),
    ensures
        dispatch(tool_catalog()[i].name, args) is Ok <==> forall|k: int|
            0 <= k < tool_catalog()[i].parameters.len() && (
            #[trigger] tool_catalog()[i].parameters[k]).required ==> argument(
                args,
                tool_catalog()[i].parameters[k].name,
            ) is Some,
{
    reveal_strlit("calculate");
    reveal_strlit("final_answer");
    reveal_strlit("find_all_matching_files");
    reveal_strlit("read_file");
    reveal_strlit("search_code");
    reveal_strlit("directory");
    reveal_strlit("pattern");
    reveal_strlit("file_path");
    reveal_strlit("query");
    reveal_strlit("expression");
    reveal_strlit("answer");
    assert("calculate"@.len() == 9 && "calculate"@[0] == 'c');
    assert("final_answer"@.len() == 12);
    assert("find_all_matching_files"@.len() == 23);
    assert("read_file"@.len() == 9 && "read_file"@[0] == 'r');
    assert("search_code"@.len() == 11);
    assert("directory"@.len() == 9 && "directory"@[0] == 'd');
    assert("pattern"@.len() == 7);
    assert("file_path"@.len() == 9 && "file_path"@[0] == 'f');
    assert("query"@.len() == 5);
    assert("expression"@.len() == 10);
    assert("answer"@.len() == 6);
    let tool = tool_catalog()[i];
    if i == 0 {
        assert(tool.parameters[0].required);
        assert(argument(args, tool.parameters[0].name) == args.expression);
    } else if i == 1 {
        assert(tool.parameters[0].required);
        assert(argument(args, tool.parameters[0].name) == args.answer);
    } else if i == 2 {
        assert(tool.parameters[0].required);
        assert(!tool.parameters[1].required);
        assert(argument(args, tool.parameters[0].name) == args.directory);
    } else if i == 3 {
        assert(tool.parameters[0].required);
        assert(argument(args, tool.parameters[0].name) == args.file_path);
    } else {
        assert(tool.parameters[0].required);
        assert(tool.parameters[1].required);
        assert(argument(args, tool.parameters[0].name) == args.directory);
        assert(argument(args, tool.parameters[1].name) == args.query);
    }
}

} // verus!
