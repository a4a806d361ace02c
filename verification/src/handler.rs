//! The decisions of the command handler.
//!
//! The chat platform delivers events; the caller receives them, talks to the
//! query service and sends the reply. Which events are answered, with which
//! query, and what the reply says is decided here. Nothing is kept from one
//! event to the next.

use crate::client::{outcome_view, request_for, ForwardError, ForwardErrorView};
use crate::message::{ChatMessage, ChatMessageView};
use crate::render::{render, render_view};
use crate::types::{
    ChatMessageInput, ChatMessageInputView, ChatMessageOutput, ChatMessageOutputView,
};
use vstd::prelude::*;

verus! {

/// The value of one argument of a command invocation.
#[derive(Clone, Debug, PartialEq, Eq)]
pub enum OptionValue {
    /// A string argument.
    Text(String),
    /// An argument of any other kind.
    Other,
}

/// Mathematical model of an [`OptionValue`].
pub enum OptionValueView {
    Text(Seq<char>),
    Other,
}

impl View for OptionValue {
    type V = OptionValueView;

    open spec fn view(&self) -> OptionValueView {
        match self {
            OptionValue::Text(text) => OptionValueView::Text(text@),
            OptionValue::Other => OptionValueView::Other,
        }
    }
}

impl DeepView for OptionValue {
    type V = OptionValueView;

    open spec fn deep_view(&self) -> OptionValueView {
        self@
    }
}

/// An event delivered by the chat platform.
#[derive(Clone, Debug, PartialEq, Eq)]
pub enum InboundEvent {
    /// A command was invoked, with its arguments in order.
    Command { name: String, options: Vec<OptionValue> },
    /// Any other interaction.
    Other,
}

/// Mathematical model of an [`InboundEvent`].
pub enum InboundEventView {
    Command { name: Seq<char>, options: Seq<OptionValueView> },
    Other,
}

impl View for InboundEvent {
    type V = InboundEventView;

    open spec fn view(&self) -> InboundEventView {
        match self {
            InboundEvent::Command { name, options } => InboundEventView::Command {
                name: name@,
                options: options.deep_view(),
            },
            InboundEvent::Other => InboundEventView::Other,
        }
    }
}

/// The name of the one command that the relay answers.
pub open spec fn command_name() -> Seq<char> {
    "bot"@
}

/// The query that a list of arguments carries: the text of the first
/// argument where that is a string, and the empty text otherwise.
pub open spec fn query_text(options: Seq<OptionValueView>) -> Seq<char> {
    if options.len() > 0 {
        match options[0] {
            OptionValueView::Text(text) => text,
            OptionValueView::Other => Seq::empty(),
        }
    } else {
        Seq::empty()
    }
}

/// Extracts the query from the arguments of a command invocation. A missing
/// first argument, or one that is no string, gives the empty query.
pub fn extract_query(options: &Vec<OptionValue>) -> (query: String)
    ensures
        query@ == query_text(options.deep_view()),
{
    if options.len() > 0 {
        match &options[0] {
            OptionValue::Text(text) => text.clone(),
            OptionValue::Other => String::new(),
        }
    } else {
        String::new()
    }
}

/// The request that an event calls for: one for an invocation of the relay's
/// command, carrying its query and no credential; none for anything else.
pub open spec fn request_of(event: InboundEventView) -> Option<ChatMessageInputView> {
    match event {
        InboundEventView::Command { name, options } => if name == command_name() {
            Some(ChatMessageInputView { api_key: None, body: query_text(options) })
        } else {
            None
        },
        InboundEventView::Other => None,
    }
}

/// Decides what an event calls for: `Some` request to forward to the query
/// service where the event invokes the relay's command, `None` where the
/// event is to be ignored.
pub fn on_event(event: &InboundEvent) -> (request: Option<ChatMessageInput>)
    ensures
        request.deep_view() == request_of(event@),
{
    match event {
        InboundEvent::Command { name, options } => {
            let relay_command: String = "bot".to_owned();
            if *name == relay_command {
                Some(request_for(extract_query(options)))
            } else {
                None
            }
        },
        InboundEvent::Other => None,
    }
}

/// The text sent where a query failed, whatever the failure was.
pub open spec fn apology() -> Seq<char> {
    "Sorry, there was an error processing your request."@
}

/// The reply to an invocation, given the outcome of its query: the rendered
/// reply of the service, or the apology with no attachments.
pub open spec fn reply_view(
    outcome: Result<ChatMessageOutputView, ForwardErrorView>,
) -> ChatMessageView {
    match outcome {
        Ok(reply) => render_view(reply),
        Err(_) => ChatMessageView { text: apology(), attachments: Seq::empty() },
    }
}

/// Builds the reply to an invocation from the outcome of its query. The
/// kind and detail of a failure are not shown to the user.
pub fn reply_for(outcome: Result<ChatMessageOutput, ForwardError>) -> (msg: ChatMessage)
    ensures
        msg@ == reply_view(outcome_view(outcome)),
{
    match outcome {
        Ok(reply) => render(reply),
        Err(_) => {
            let msg = ChatMessage {
                text: "Sorry, there was an error processing your request.".to_owned(),
                attachments: Vec::new(),
            };
            assert(msg.attachments.deep_view() =~= Seq::empty());
            msg
        },
    }
}

/// A parameter of a command that takes a string.
#[derive(Clone, Debug, PartialEq, Eq)]
pub struct TextParameter {
    pub name: String,
    pub description: String,
    /// Whether an invocation must give the parameter.
    pub required: bool,
}

/// Mathematical model of a [`TextParameter`].
pub struct TextParameterView {
    pub name: Seq<char>,
    pub description: Seq<char>,
    pub required: bool,
}

impl View for TextParameter {
    type V = TextParameterView;

    open spec fn view(&self) -> TextParameterView {
        TextParameterView {
            name: self.name@,
            description: self.description@,
            required: self.required,
        }
    }
}

impl DeepView for TextParameter {
    type V = TextParameterView;

    open spec fn deep_view(&self) -> TextParameterView {
        self@
    }
}

/// A command as it is registered with the chat platform.
#[derive(Clone, Debug, PartialEq, Eq)]
pub struct CommandDefinition {
    pub name: String,
    pub description: String,
    /// The parameters, in the order in which an invocation gives them.
    pub parameters: Vec<TextParameter>,
}

/// Mathematical model of a [`CommandDefinition`].
pub struct CommandDefinitionView {
    pub name: Seq<char>,
    pub description: Seq<char>,
    pub parameters: Seq<TextParameterView>,
}

impl View for CommandDefinition {
    type V = CommandDefinitionView;

    open spec fn view(&self) -> CommandDefinitionView {
        CommandDefinitionView {
            name: self.name@,
            description: self.description@,
            parameters: self.parameters.deep_view(),
        }
    }
}

/// The relay's command: it bears the name that [`on_event`] answers to and
/// has one parameter, the required string `query`.
pub open spec fn relay_command() -> CommandDefinitionView {
    CommandDefinitionView {
        name: command_name(),
        description: "Forward a query to the target service"@,
        parameters: seq![
            TextParameterView {
                name: "query"@,
                description: "The query to forward"@,
                required: true,
            },
        ],
    }
}

/// The one command to register, globally and once, when the chat platform
/// reports the connection ready.
pub fn command_definition() -> (definition: CommandDefinition)
    ensures
        definition@ == relay_command(),
{
    let mut parameters: Vec<TextParameter> = Vec::new();
    parameters.push(
        TextParameter {
            name: "query".to_owned(),
            description: "The query to forward".to_owned(),
            required: true,
        },
    );
    assert(parameters.deep_view() =~= relay_command().parameters);
    CommandDefinition {
        name: "bot".to_owned(),
        description: "Forward a query to the target service".to_owned(),
        parameters,
    }
}

} // verus!
