//! The chat-completion request that asks the model for a commit: the diff is
//! handed over as the result of a `get_diff` call, and the model must answer
//! by calling `commit` with a title and a description.
use vstd::prelude::*;

verus! {

pub const MODEL: &'static str = "gpt-3.5-turbo-16k";

pub const MAX_TOKENS: u16 = 2000;

pub const SYSTEM_PROMPT: &'static str = "You are an experienced programmer who writes great commit messages.";

pub const DIFF_FUNCTION: &'static str = "get_diff";

pub const DIFF_FUNCTION_DESCRIPTION: &'static str = "Returns the output of `git diff HEAD` as a string.";

pub const COMMIT_FUNCTION: &'static str = "commit";

pub const COMMIT_FUNCTION_DESCRIPTION: &'static str = "Creates a commit with the given title and a description.";

pub const NO_ARGUMENTS: &'static str = "{}";

#[derive(Debug, Clone, Copy, PartialEq, Eq, Structural)]
pub enum Role {
    System,
    Assistant,
    Function,
}

/// The JSON schema of a function's parameters.
#[derive(Debug, Clone, Copy, PartialEq, Eq, Structural)]
pub enum Parameters {
    /// An object with no properties.
    Nothing,
    /// The shape of a commit: a `title` and a `description`, both strings.
    CommitShape,
}

#[derive(Debug, Clone, PartialEq, Eq)]
pub struct FunctionCall {
    pub name: String,
    pub arguments: String,
}

#[derive(Debug, Clone, PartialEq, Eq)]
pub struct Message {
    pub role: Role,
    pub content: String,
    pub name: Option<String>,
    pub function_call: Option<FunctionCall>,
}

#[derive(Debug, Clone, PartialEq, Eq)]
pub struct FunctionDecl {
    pub name: String,
    pub description: String,
    pub parameters: Parameters,
}

#[derive(Debug, Clone, PartialEq, Eq)]
pub struct CompletionRequest {
    pub model: String,
    pub max_tokens: u16,
    pub messages: Vec<Message>,
    pub functions: Vec<FunctionDecl>,
    /// The function that the model must call.
    pub forced_function: String,
}

pub open spec fn name_view(name: Option<String>) -> Option<Seq<char>> {
    match name {
        Some(n) => Some(n@),
        None => None,
    }
}

pub open spec fn call_view(call: Option<FunctionCall>) -> Option<(Seq<char>, Seq<char>)> {
    match call {
        Some(c) => Some((c.name@, c.arguments@)),
        None => None,
    }
}

pub open spec fn message_is(
    m: Message,
    role: Role,
    content: Seq<char>,
    name: Option<Seq<char>>,
    call: Option<(Seq<char>, Seq<char>)>,
) -> bool {
    &&& m.role == role
    &&& m.content@ == content
    &&& name_view(m.name) == name
    &&& call_view(m.function_call) == call
}

pub open spec fn function_is(f: FunctionDecl, name: Seq<char>, description: Seq<char>, parameters: Parameters) -> bool {
    f.name@ == name && f.description@ == description && f.parameters == parameters
}

fn message(role: Role, content: &str, name: Option<&str>, call: Option<(&str, &str)>) -> (r: Message)
    ensures
        message_is(
            r,
            role,
            content@,
            match name {
                Some(n) => Some(n@),
                None => None,
            },
            match call {
                Some(c) => Some((c.0@, c.1@)),
                None => None,
            },
        ),
{
    let name = match name {
        Some(n) => Some(String::from_str(n)),
        None => None,
    };
    let function_call = match call {
        Some(c) => Some(FunctionCall { name: String::from_str(c.0), arguments: String::from_str(c.1) }),
        None => None,
    };
    Message { role, content: String::from_str(content), name, function_call }
}

fn function(name: &str, description: &str, parameters: Parameters) -> (r: FunctionDecl)
    ensures
        function_is(r, name@, description@, parameters),
{
    FunctionDecl { name: String::from_str(name), description: String::from_str(description), parameters }
}

/// The request for a commit message about `diff`, which it carries unchanged.
pub fn completion_request(diff: &str) -> (r: CompletionRequest)
    ensures
        r.model@ == MODEL@,
        r.max_tokens == MAX_TOKENS,
        r.messages@.len() == 3,
        message_is(r.messages@[0], Role::System, SYSTEM_PROMPT@, None, None),
        message_is(r.messages@[1], Role::Assistant, seq![], None, Some((DIFF_FUNCTION@, NO_ARGUMENTS@))),
        message_is(r.messages@[2], Role::Function, diff@, Some(DIFF_FUNCTION@), None),
        r.functions@.len() == 2,
        function_is(r.functions@[0], DIFF_FUNCTION@, DIFF_FUNCTION_DESCRIPTION@, Parameters::Nothing),
        function_is(r.functions@[1], COMMIT_FUNCTION@, COMMIT_FUNCTION_DESCRIPTION@, Parameters::CommitShape),
        r.forced_function@ == COMMIT_FUNCTION@,
{
    let nothing = "";
    proof {
        reveal_strlit("");
    }
    assert(nothing@ =~= Seq::<char>::empty());
    let messages = vec![
        message(Role::System, SYSTEM_PROMPT, None, None),
        message(Role::Assistant, nothing, None, Some((DIFF_FUNCTION, NO_ARGUMENTS))),
        message(Role::Function, diff, Some(DIFF_FUNCTION), None),
    ];
    let functions = vec![
        function(DIFF_FUNCTION, DIFF_FUNCTION_DESCRIPTION, Parameters::Nothing),
        function(COMMIT_FUNCTION, COMMIT_FUNCTION_DESCRIPTION, Parameters::CommitShape),
    ];
    CompletionRequest {
        model: String::from_str(MODEL),
        max_tokens: MAX_TOKENS,
        messages,
        functions,
        forced_function: String::from_str(COMMIT_FUNCTION),
    }
}

} // verus!
