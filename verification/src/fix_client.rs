//! The exchange with the fix service: the request for one finding, and
//! what is read from the answer.

use crate::issue::{Issue, IssueView};
use crate::json::{
    element_of, json_document, json_element, json_error_text, json_member, json_text, json_view,
    member_of, parse_json, text_of, JsonView,
};
use crate::text::{decimal_of_nat, lines_of, push_decimal, split_lines};
use vstd::prelude::*;
use vstd::string::*;

verus! {

/// Why no fix came back for a finding.
#[derive(Clone, Debug, PartialEq, Eq)]
pub enum FixError {
    /// The request did not reach the service, or no answer came back.
    Transport(String),
    /// The service answered with a status that is no success.
    Status(u16),
    /// The body of the answer is no JSON document.
    Malformed(String),
    /// The answer holds no text at `choices[0].message.content`.
    MissingContent,
}

/// One message of a chat request.
#[derive(Clone, Debug, PartialEq, Eq)]
pub struct ChatMessage {
    pub role: String,
    pub content: String,
}

/// The body of a request to the fix service.
#[derive(Clone, Debug, PartialEq, Eq)]
pub struct ChatRequest {
    pub model: String,
    pub messages: Vec<ChatMessage>,
}

/// A chat message as plain values.
pub struct ChatMessageView {
    pub role: Seq<char>,
    pub content: Seq<char>,
}

/// A chat request as plain values.
pub struct ChatRequestView {
    pub model: Seq<char>,
    pub messages: Seq<ChatMessageView>,
}

impl View for ChatMessage {
    type V = ChatMessageView;

    open spec fn view(&self) -> ChatMessageView {
        ChatMessageView { role: self.role@, content: self.content@ }
    }
}

impl View for ChatRequest {
    type V = ChatRequestView;

    open spec fn view(&self) -> ChatRequestView {
        ChatRequestView {
            model: self.model@,
            messages: self.messages@.map_values(|m: ChatMessage| m@),
        }
    }
}

/// The line of `lines` that `row` points to, rows counting from one; the
/// empty line where `row` points to none.
pub open spec fn line_at(lines: Seq<Seq<char>>, row: nat) -> Seq<char> {
    if 1 <= row <= lines.len() {
        lines[row - 1]
    } else {
        Seq::empty()
    }
}

/// The prompt for one finding: its message, the line it points to, and the
/// whole text of the file.
pub open spec fn prompt_text(message: Seq<char>, line: Seq<char>, content: Seq<char>) -> Seq<
    char,
> {
    "Fix the following issue in the Python code:\n\nIssue description:\n"@ + message
        + "\n\nProblematic line:\n"@ + line + "\n\nHere's the current content of the file:\n\n"@
        + content
        + "\n\nPlease provide only the entire fixed content of the file addressing the issue listed above, do not provide any explanation, do not wrap the response with backticks."@
}

/// The request for a fix of `issue` in a file that now reads `content`.
pub open spec fn request_for(issue: IssueView, content: Seq<char>) -> ChatRequestView {
    ChatRequestView {
        model: "gpt-4o-mini"@,
        messages: seq![
            ChatMessageView {
                role: "system"@,
                content: "You are an automated bot that fixes Python code issues based on the provided issue report."@,
            },
            ChatMessageView {
                role: "user"@,
                content: prompt_text(issue.message, line_at(lines_of(content), issue.row), content),
            },
        ],
    }
}

/// The text that an answer of the service holds as the new content of the
/// file, if it holds one.
pub open spec fn content_in(document: JsonView) -> Option<Seq<char>> {
    text_of(
        member_of(
            member_of(element_of(member_of(document, "choices"@), 0), "message"@),
            "content"@,
        ),
    )
}

/// Whether a status code reports success.
pub open spec fn is_success(status: u16) -> bool {
    200 <= status < 300
}

/// Where the service is reached.
pub fn endpoint() -> (url: &'static str)
    ensures
        url@ == "https://api.openai.com/v1/chat/completions"@,
{
    "https://api.openai.com/v1/chat/completions"
}

/// The line that `row` points to in `content`, or the empty line.
pub fn problem_line(content: &str, row: u32) -> (line: String)
    ensures
        line@ == line_at(lines_of(content@), row as nat),
{
    let lines = split_lines(content);
    if row >= 1 && (row as usize) - 1 < lines.len() {
        let index = (row as usize) - 1;
        lines[index].clone()
    } else {
        String::new()
    }
}

/// The prompt that asks for a fix of `issue` in `content`.
pub fn build_prompt(issue: &Issue, content: &str) -> (prompt: String)
    ensures
        prompt@ == prompt_text(
            issue@.message,
            line_at(lines_of(content@), issue@.row),
            content@,
        ),
{
    let line = problem_line(content, issue.location.row);
    let mut prompt = String::from_str(
        "Fix the following issue in the Python code:\n\nIssue description:\n",
    );
    prompt.append(issue.message.as_str());
    prompt.append("\n\nProblematic line:\n");
    prompt.append(line.as_str());
    prompt.append("\n\nHere's the current content of the file:\n\n");
    prompt.append(content);
    prompt.append(
        "\n\nPlease provide only the entire fixed content of the file addressing the issue listed above, do not provide any explanation, do not wrap the response with backticks.",
    );
    prompt
}

/// The request to send for `issue` when the file reads `content`.
pub fn fix_request(issue: &Issue, content: &str) -> (request: ChatRequest)
    ensures
        request@ == request_for(issue@, content@),
{
    let system = ChatMessage {
        role: String::from_str("system"),
        content: String::from_str(
            "You are an automated bot that fixes Python code issues based on the provided issue report.",
        ),
    };
    let user = ChatMessage { role: String::from_str("user"), content: build_prompt(issue, content) };
    let mut messages: Vec<ChatMessage> = Vec::new();
    messages.push(system);
    messages.push(user);
    let request = ChatRequest { model: String::from_str("gpt-4o-mini"), messages };
    assert(request@.messages == request_for(issue@, content@).messages);
    request
}

/// The new content that a parsed answer holds.
pub fn reply_content(document: &serde_json::Value) -> (content: Option<String>)
    ensures
        match content {
            Some(text) => content_in(json_view(*document)) == Some(text@),
            None => content_in(json_view(*document)) is None,
        },
{
    let choices = json_member(document, "choices");
    let first = json_element(choices, 0);
    let message = json_member(first, "message");
    let content = json_member(message, "content");
    match json_text(content) {
        Some(text) => Some(String::from_str(text)),
        None => None,
    }
}

/// What a body means that was parsed, or found to be no JSON document.
pub open spec fn answer_of_document(document: Option<JsonView>, answer: Result<String, FixError>)
    -> bool {
    match document {
        None => answer matches Err(FixError::Malformed(_)),
        Some(json) => match content_in(json) {
            Some(text) => answer matches Ok(new_content) && new_content@ == text,
            None => answer == Err::<String, FixError>(FixError::MissingContent),
        },
    }
}

/// What an answer of the service means: a status that is no success is an
/// error whatever the body says; else the body decides.
pub open spec fn answer_of(status: u16, document: Option<JsonView>, answer: Result<
    String,
    FixError,
>) -> bool {
    if !is_success(status) {
        answer == Err::<String, FixError>(FixError::Status(status))
    } else {
        answer_of_document(document, answer)
    }
}

/// The document of a parsed body as plain values; none for a body that
/// was refused.
pub open spec fn document_of(parsed: Result<serde_json::Value, serde_json::Error>) -> Option<
    JsonView,
> {
    match parsed {
        Ok(document) => Some(json_view(document)),
        Err(_) => None,
    }
}

/// Reads the body of an answer once it was parsed. A body that is no
/// JSON document is an error, and so is a document without a text at
/// `choices[0].message.content`. That text is handed out as it is:
/// nothing is asked of it.
pub fn read_body(parsed: Result<serde_json::Value, serde_json::Error>) -> (answer: Result<
    String,
    FixError,
>)
    ensures
        answer_of_document(document_of(parsed), answer),
{
    match parsed {
        Err(error) => Err(FixError::Malformed(json_error_text(&error))),
        Ok(document) => match reply_content(&document) {
            Some(text) => Ok(text),
            None => Err(FixError::MissingContent),
        },
    }
}

/// Reads the answer of the service from its status and the bytes of its
/// body.
pub fn interpret_response(status: u16, body: &[u8]) -> (answer: Result<String, FixError>)
    ensures
        answer_of(status, json_document(body@), answer),
{
    if status < 200 || status >= 300 {
        return Err(FixError::Status(status));
    }
    read_body(parse_json(body))
}

impl FixError {
    /// The message of the error as plain text.
    pub open spec fn message_text(self) -> Seq<char> {
        match self {
            FixError::Transport(reason) => reason@,
            FixError::Status(status) => "Fix service answered with status "@ + decimal_of_nat(
                status as nat,
            ),
            FixError::Malformed(reason) => "error decoding response body: "@ + reason@,
            FixError::MissingContent => "Failed to parse response content"@,
        }
    }

    /// A message that says what went wrong.
    pub fn message(&self) -> (text: String)
        ensures
            text@ == self.message_text(),
    {
        match self {
            FixError::Transport(reason) => reason.clone(),
            FixError::Status(status) => {
                let mut text = String::from_str("Fix service answered with status ");
                push_decimal(&mut text, *status as u64);
                text
            },
            FixError::Malformed(reason) => {
                let mut text = String::from_str("error decoding response body: ");
                text.append(reason.as_str());
                text
            },
            FixError::MissingContent => String::from_str("Failed to parse response content"),
        }
    }
}

} // verus!
