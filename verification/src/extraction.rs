//! Turning the text of a document into a graph with the help of a completion
//! model.
//!
//! An [`Extraction`] asks for one request to be sent to the model, reads the
//! answer, takes the JSON text out of its wrapping and asks for that text to
//! be decoded into a graph. Where no model is configured the extraction is
//! finished at once, with a fixed graph.

use crate::fence::{is_tag_char, lemma_fenced_text_is_unwrapped, strip_code_fences, unfenced};
use crate::graph::{GraphData, GraphDataView, GraphEdge, GraphEdgeView, GraphNode, GraphNodeView};
use crate::json::{
    element, entry_texts, json_element, json_member, json_object, json_text, member, object_of,
    string_of,
};
use crate::protocol::{unexpected_reply, unexpected_reply_text};
use crate::text::trim;
use serde_json::Value;
use vstd::prelude::*;

verus! {

/// The number of characters of a document that are shown to the model.
pub const PROMPT_LIMIT: usize = 4000;

/// What the model is asked to do, up to the place of the document's text.
pub open spec fn instructions() -> Seq<char> {
    "Extract entities (nodes) and relationships (edges) from the following text to build a knowledge graph. Return ONLY a JSON object with two keys: 'nodes' (list of objects with 'label', 'name', 'properties') and 'edges' (list of objects with 'source' (name), 'target' (name), 'relationship', 'properties'). Text: "@
}

/// The role that the model is given.
pub open spec fn system_message() -> Seq<char> {
    "You are a helpful assistant that extracts knowledge graphs from text."@
}

/// The part of a document that is shown to the model: its first
/// `PROMPT_LIMIT` characters, or all of it where it has no more.
pub open spec fn excerpt(document: Seq<char>) -> Seq<char> {
    if document.len() > PROMPT_LIMIT {
        document.take(PROMPT_LIMIT as int)
    } else {
        document
    }
}

/// The prompt for a document: the instructions, then the excerpt.
pub open spec fn prompt_text(document: Seq<char>) -> Seq<char> {
    instructions() + excerpt(document)
}

/// The authorization that goes with a request made under `api_key`.
pub open spec fn bearer_text(api_key: Seq<char>) -> Seq<char> {
    "Bearer "@ + api_key
}

/// Whether an HTTP status reports success.
pub open spec fn is_success(status: u16) -> bool {
    200 <= status < 300
}

/// The text of the first completion in a model's response, where the
/// response has one: the string at `choices[0].message.content`.
pub open spec fn completion_content_of(response: Value) -> Option<Seq<char>> {
    json_text(
        json_member(
            json_member(json_element(json_member(response, "choices"@), 0), "message"@),
            "content"@,
        ),
    )
}

/// The graph that stands in where no model is configured.
pub open spec fn fallback() -> GraphDataView {
    GraphDataView {
        nodes: seq![
            GraphNodeView {
                label: "Person"@,
                name: "John Doe"@,
                properties: json_object(seq![("role"@, "Engineer"@)]),
            },
            GraphNodeView {
                label: "Company"@,
                name: "Readur Corp"@,
                properties: json_object(seq![("industry"@, "Tech"@)]),
            },
        ],
        edges: seq![
            GraphEdgeView {
                source: "John Doe"@,
                target: "Readur Corp"@,
                relationship: "WORKS_FOR"@,
                properties: json_object(Seq::empty()),
            },
        ],
    }
}

/// A request for one completion.
#[derive(Debug, PartialEq, Eq)]
pub struct CompletionRequest {
    /// Where the request goes.
    pub url: String,
    /// The value of the authorization header.
    pub authorization: String,
    /// The model that is to answer.
    pub model: String,
    /// The message that sets the model's role.
    pub system: String,
    /// The message that the model is to answer.
    pub prompt: String,
}

/// A request, as a mathematical value.
pub struct CompletionRequestView {
    pub url: Seq<char>,
    pub authorization: Seq<char>,
    pub model: Seq<char>,
    pub system: Seq<char>,
    pub prompt: Seq<char>,
}

impl View for CompletionRequest {
    type V = CompletionRequestView;

    open spec fn view(&self) -> CompletionRequestView {
        CompletionRequestView {
            url: self.url@,
            authorization: self.authorization@,
            model: self.model@,
            system: self.system@,
            prompt: self.prompt@,
        }
    }
}

impl CompletionRequestView {
    /// The request that asks `model` at `url`, under `api_key`, for the graph
    /// of `document`.
    pub open spec fn new(
        url: Seq<char>,
        api_key: Seq<char>,
        model: Seq<char>,
        document: Seq<char>,
    ) -> CompletionRequestView {
        CompletionRequestView {
            url,
            authorization: bearer_text(api_key),
            model,
            system: system_message(),
            prompt: prompt_text(document),
        }
    }
}

/// Why a model's answer could not be read.
#[derive(Debug, PartialEq, Eq)]
pub enum ParseError {
    /// The body of the response is not JSON; the cause is attached.
    Body(String),
    /// The response holds no completion text.
    MissingContent,
    /// The completion is not the JSON of a graph; the cause is attached.
    Graph(String),
}

/// Why an extraction failed.
#[derive(Debug, PartialEq, Eq)]
pub enum ExtractionError {
    /// The request could not be sent; the cause is attached.
    Transport(String),
    /// The model's service answered with a status other than success.
    Upstream { status: u16, status_text: String },
    /// The answer could not be read.
    Parse(ParseError),
}

/// A parse error, as a mathematical value.
pub enum ParseErrorView {
    Body(Seq<char>),
    MissingContent,
    Graph(Seq<char>),
}

/// An extraction error, as a mathematical value.
pub enum ExtractionErrorView {
    Transport(Seq<char>),
    Upstream { status: u16, status_text: Seq<char> },
    Parse(ParseErrorView),
}

impl View for ParseError {
    type V = ParseErrorView;

    open spec fn view(&self) -> ParseErrorView {
        match self {
            ParseError::Body(cause) => ParseErrorView::Body(cause@),
            ParseError::MissingContent => ParseErrorView::MissingContent,
            ParseError::Graph(cause) => ParseErrorView::Graph(cause@),
        }
    }
}

impl View for ExtractionError {
    type V = ExtractionErrorView;

    open spec fn view(&self) -> ExtractionErrorView {
        match self {
            ExtractionError::Transport(cause) => ExtractionErrorView::Transport(cause@),
            ExtractionError::Upstream { status, status_text } => ExtractionErrorView::Upstream {
                status: *status,
                status_text: status_text@,
            },
            ExtractionError::Parse(error) => ExtractionErrorView::Parse(error@),
        }
    }
}

impl ExtractionErrorView {
    /// The sentence that reports this error.
    pub open spec fn message(self) -> Seq<char> {
        match self {
            ExtractionErrorView::Transport(cause) => "Failed to send request to LLM: "@ + cause,
            ExtractionErrorView::Upstream { status_text, .. } => "LLM API returned error: "@
                + status_text,
            ExtractionErrorView::Parse(ParseErrorView::Body(cause)) => {
                "Failed to parse LLM response: "@ + cause
            },
            ExtractionErrorView::Parse(ParseErrorView::MissingContent) => {
                "Invalid response format from LLM"@
            },
            ExtractionErrorView::Parse(ParseErrorView::Graph(cause)) => {
                "Failed to parse GraphData JSON: "@ + cause
            },
        }
    }
}

impl ExtractionError {
    /// The sentence that reports this error.
    pub fn message(&self) -> (text: String)
        ensures
            text@ == self@.message(),
    {
        match self {
            ExtractionError::Transport(cause) => String::from_str(
                "Failed to send request to LLM: ",
            ).concat(cause.as_str()),
            ExtractionError::Upstream { status_text, .. } => String::from_str(
                "LLM API returned error: ",
            ).concat(status_text.as_str()),
            ExtractionError::Parse(ParseError::Body(cause)) => String::from_str(
                "Failed to parse LLM response: ",
            ).concat(cause.as_str()),
            ExtractionError::Parse(ParseError::MissingContent) => String::from_str(
                "Invalid response format from LLM",
            ),
            ExtractionError::Parse(ParseError::Graph(cause)) => String::from_str(
                "Failed to parse GraphData JSON: ",
            ).concat(cause.as_str()),
        }
    }
}

/// Writes the prompt for a document.
pub fn build_prompt(document: &str) -> (prompt: String)
    ensures
        prompt@ == prompt_text(document@),
{
    let length = document.unicode_len();
    let shown = if length > PROMPT_LIMIT {
        document.substring_char(0, PROMPT_LIMIT)
    } else {
        document
    };
    String::from_str(
        "Extract entities (nodes) and relationships (edges) from the following text to build a knowledge graph. Return ONLY a JSON object with two keys: 'nodes' (list of objects with 'label', 'name', 'properties') and 'edges' (list of objects with 'source' (name), 'target' (name), 'relationship', 'properties'). Text: ",
    ).concat(shown)
}

/// Writes the authorization that goes with a request made under `api_key`.
pub fn bearer(api_key: &str) -> (authorization: String)
    ensures
        authorization@ == bearer_text(api_key@),
{
    String::from_str("Bearer ").concat(api_key)
}

/// Whether an HTTP status reports success.
pub fn status_is_success(status: u16) -> (success: bool)
    ensures
        success == is_success(status),
{
    200 <= status && status < 300
}

/// Finds the text of the first completion in a model's response.
pub fn completion_content(response: &Value) -> (content: Option<String>)
    ensures
        match content {
            Some(found) => completion_content_of(*response) == Some(found@),
            None => completion_content_of(*response) is None,
        },
{
    let choices = member(response, "choices");
    let first = element(choices, 0);
    let message = member(first, "message");
    let content = member(message, "content");
    match string_of(content) {
        Some(found) => Some(String::from_str(found)),
        None => None,
    }
}

/// Builds the graph that stands in where no model is configured.
pub fn fallback_graph() -> (graph: GraphData)
    ensures
        graph@ == fallback(),
{
    let mut role: Vec<(String, String)> = Vec::new();
    role.push((String::from_str("role"), String::from_str("Engineer")));
    assert(entry_texts(role@) =~= seq![("role"@, "Engineer"@)]);
    let mut industry: Vec<(String, String)> = Vec::new();
    industry.push((String::from_str("industry"), String::from_str("Tech")));
    assert(entry_texts(industry@) =~= seq![("industry"@, "Tech"@)]);
    let none: Vec<(String, String)> = Vec::new();
    assert(entry_texts(none@) =~= Seq::empty());
    let mut nodes: Vec<GraphNode> = Vec::new();
    nodes.push(
        GraphNode {
            label: String::from_str("Person"),
            name: String::from_str("John Doe"),
            properties: object_of(&role),
        },
    );
    nodes.push(
        GraphNode {
            label: String::from_str("Company"),
            name: String::from_str("Readur Corp"),
            properties: object_of(&industry),
        },
    );
    let mut edges: Vec<GraphEdge> = Vec::new();
    edges.push(
        GraphEdge {
            source: String::from_str("John Doe"),
            target: String::from_str("Readur Corp"),
            relationship: String::from_str("WORKS_FOR"),
            properties: object_of(&none),
        },
    );
    let graph = GraphData { nodes, edges };
    assert(graph@.nodes =~= fallback().nodes);
    assert(graph@.edges =~= fallback().edges);
    graph
}

/// What came of the action that an extraction asked for.
#[derive(Debug, PartialEq)]
pub enum ExtractionEvent {
    /// The request was sent and answered with this status.
    Responded { status: u16, status_text: String },
    /// The body of the response was read, and is this JSON document.
    Body(Value),
    /// The JSON text was decoded into this graph.
    Decoded(GraphData),
    /// The action failed, for this cause.
    Failed(String),
}

/// An extraction event, as a mathematical value.
pub enum ExtractionEventView {
    Responded { status: u16, status_text: Seq<char> },
    Body(Value),
    Decoded(GraphDataView),
    Failed(Seq<char>),
}

impl View for ExtractionEvent {
    type V = ExtractionEventView;

    open spec fn view(&self) -> ExtractionEventView {
        match self {
            ExtractionEvent::Responded { status, status_text } => ExtractionEventView::Responded {
                status: *status,
                status_text: status_text@,
            },
            ExtractionEvent::Body(body) => ExtractionEventView::Body(*body),
            ExtractionEvent::Decoded(graph) => ExtractionEventView::Decoded(graph@),
            ExtractionEvent::Failed(cause) => ExtractionEventView::Failed(cause@),
        }
    }
}

impl ExtractionEventView {
    /// Why the pending action failed, where this event is not the success
    /// that was awaited.
    pub open spec fn cause(self) -> Seq<char> {
        match self {
            ExtractionEventView::Failed(cause) => cause,
            _ => unexpected_reply(),
        }
    }
}

impl ExtractionEvent {
    /// Why the pending action failed, where this event is not the success
    /// that was awaited.
    fn cause(self) -> (cause: String)
        ensures
            cause@ == self@.cause(),
    {
        match self {
            ExtractionEvent::Failed(cause) => cause,
            _ => unexpected_reply_text(),
        }
    }
}

/// An extraction: what the caller is to do next, or how it ended.
#[derive(Debug, PartialEq)]
pub enum Extraction {
    /// Send this request, once, and report the status of the response.
    Send(CompletionRequest),
    /// Read the body of the response as JSON and report it.
    ReadBody,
    /// Decode this JSON text into a graph and report it.
    Decode(String),
    /// Nothing: the extraction has produced this graph.
    Done(GraphData),
    /// Nothing: the extraction has failed.
    Failed(ExtractionError),
}

/// An extraction, as a mathematical value.
pub enum ExtractionView {
    Send(CompletionRequestView),
    ReadBody,
    Decode(Seq<char>),
    Done(GraphDataView),
    Failed(ExtractionErrorView),
}

impl View for Extraction {
    type V = ExtractionView;

    open spec fn view(&self) -> ExtractionView {
        match self {
            Extraction::Send(request) => ExtractionView::Send(request@),
            Extraction::ReadBody => ExtractionView::ReadBody,
            Extraction::Decode(json) => ExtractionView::Decode(json@),
            Extraction::Done(graph) => ExtractionView::Done(graph@),
            Extraction::Failed(error) => ExtractionView::Failed(error@),
        }
    }
}

impl ExtractionView {
    /// The extraction is over, one way or the other.
    pub open spec fn is_finished(self) -> bool {
        self is Done || self is Failed
    }

    /// The state that follows when the pending action went as `event` says.
    ///
    /// A finished extraction stays as it is. After the request, a status of
    /// success leads on to the body, any other status is an upstream error,
    /// and any other event a transport error. After the body was read, the
    /// completion in it is taken out of its wrapping and handed on to be
    /// decoded; a body without completion text, and any other event, is a
    /// parse error. After the decoding the graph is the result, and any other
    /// event is a parse error.
    pub open spec fn advance(self, event: ExtractionEventView) -> ExtractionView {
        match self {
            ExtractionView::Done(_) => self,
            ExtractionView::Failed(_) => self,
            ExtractionView::Send(_) => match event {
                ExtractionEventView::Responded { status, status_text } => if is_success(status) {
                    ExtractionView::ReadBody
                } else {
                    ExtractionView::Failed(ExtractionErrorView::Upstream { status, status_text })
                },
                _ => ExtractionView::Failed(ExtractionErrorView::Transport(event.cause())),
            },
            ExtractionView::ReadBody => match event {
                ExtractionEventView::Body(body) => match completion_content_of(body) {
                    Some(completion) => ExtractionView::Decode(unfenced(completion)),
                    None => ExtractionView::Failed(
                        ExtractionErrorView::Parse(ParseErrorView::MissingContent),
                    ),
                },
                _ => ExtractionView::Failed(
                    ExtractionErrorView::Parse(ParseErrorView::Body(event.cause())),
                ),
            },
            ExtractionView::Decode(_) => match event {
                ExtractionEventView::Decoded(graph) => ExtractionView::Done(graph),
                _ => ExtractionView::Failed(
                    ExtractionErrorView::Parse(ParseErrorView::Graph(event.cause())),
                ),
            },
        }
    }
}

/// A fenced answer is decoded as the text inside the fence. Where the
/// completion in the body of a response is a text on a line of its own
/// between an opening fence, whatever its tag, and a closing fence, what is
/// handed on to be decoded is that text, trimmed.
pub proof fn lemma_fenced_completion_is_decoded(body: Value, tag: Seq<char>, text: Seq<char>)
    requires
        forall|i: int| 0 <= i < tag.len() ==> is_tag_char(#[trigger] tag[i]),
        completion_content_of(body) == Some("```"@ + tag + "\n"@ + text + "\n```"@),
    ensures
        ExtractionView::ReadBody.advance(ExtractionEventView::Body(body)) == ExtractionView::Decode(
            trim(text),
        ),
{
    lemma_fenced_text_is_unwrapped(tag, text);
}

/// The model is asked once. After any event, an extraction does not ask for
/// a request to be sent: only a fresh extraction does.
pub proof fn lemma_request_is_sent_once(extraction: ExtractionView, event: ExtractionEventView)
    ensures
        !(extraction.advance(event) is Send),
{
}

impl Extraction {
    /// Starts an extraction from the text of a document. With a key, the
    /// first action is to send the request for that text; without one the
    /// extraction is done, with the stand-in graph, whatever the text.
    pub fn start(api_key: Option<&str>, url: &str, model: &str, document: &str) -> (extraction:
        Extraction)
        ensures
            extraction@ == match api_key {
                Some(key) => ExtractionView::Send(
                    CompletionRequestView::new(url@, key@, model@, document@),
                ),
                None => ExtractionView::Done(fallback()),
            },
    {
        match api_key {
            Some(key) => Extraction::Send(
                CompletionRequest {
                    url: String::from_str(url),
                    authorization: bearer(key),
                    model: String::from_str(model),
                    system: String::from_str(
                        "You are a helpful assistant that extracts knowledge graphs from text.",
                    ),
                    prompt: build_prompt(document),
                },
            ),
            None => Extraction::Done(fallback_graph()),
        }
    }

    /// Whether the extraction is over.
    pub fn is_finished(&self) -> (finished: bool)
        ensures
            finished == self@.is_finished(),
    {
        match self {
            Extraction::Done(_) => true,
            Extraction::Failed(_) => true,
            _ => false,
        }
    }

    /// Takes note of how the pending action went, and moves on.
    pub fn advance(self, event: ExtractionEvent) -> (next: Extraction)
        ensures
            next@ == self@.advance(event@),
    {
        match self {
            Extraction::Done(graph) => Extraction::Done(graph),
            Extraction::Failed(error) => Extraction::Failed(error),
            Extraction::Send(_) => match event {
                ExtractionEvent::Responded { status, status_text } => if status_is_success(status) {
                    Extraction::ReadBody
                } else {
                    Extraction::Failed(ExtractionError::Upstream { status, status_text })
                },
                other => Extraction::Failed(ExtractionError::Transport(other.cause())),
            },
            Extraction::ReadBody => match event {
                ExtractionEvent::Body(body) => match completion_content(&body) {
                    Some(completion) => Extraction::Decode(strip_code_fences(completion.as_str())),
                    None => Extraction::Failed(ExtractionError::Parse(ParseError::MissingContent)),
                },
                other => Extraction::Failed(
                    ExtractionError::Parse(ParseError::Body(other.cause())),
                ),
            },
            Extraction::Decode(_) => match event {
                ExtractionEvent::Decoded(graph) => Extraction::Done(graph),
                other => Extraction::Failed(
                    ExtractionError::Parse(ParseError::Graph(other.cause())),
                ),
            },
        }
    }
}

} // verus!
