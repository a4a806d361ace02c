//! Rendering of a reply into a chat message.
//!
//! The message text is the reply's body. A non-empty list of transactions
//! becomes a first attachment, structured data a second one.

use crate::json::{pretty_json, pretty_text, to_pretty};
use crate::listing::{transactions_attachment, transactions_view};
use crate::message::{Attachment, AttachmentView, ChatMessage, ChatMessageView, ColorTag};
use crate::types::{ChatMessageOutput, ChatMessageOutputView, RawTxInput, RawTxView};
use vstd::prelude::*;

verus! {

/// Pretty-printed JSON inside a JSON code fence.
pub open spec fn fenced_json(text: Seq<char>) -> Seq<char> {
    "```json\n"@ + text + "\n```"@
}

/// What stands between the opening and the closing marker of a JSON code
/// fence.
pub open spec fn unfenced(body: Seq<char>) -> Seq<char> {
    body.subrange("```json\n"@.len() as int, body.len() - "\n```"@.len())
}

/// Inside the fence stands the pretty-printed text itself, character for
/// character: stripping the fence markers gives it back.
pub proof fn fence_keeps_text(text: Seq<char>)
    ensures
        unfenced(fenced_json(text)) == text,
{
    assert(unfenced(fenced_json(text)) =~= text);
}

/// The body shown where structured data could not be pretty-printed.
pub open spec fn placeholder_body() -> Seq<char> {
    "```\nUnable to format structured data\n```"@
}

/// The body of the structured-data attachment for the outcome of
/// pretty-printing: the fenced text, or the placeholder where it failed.
pub open spec fn structured_body(pretty: Option<Seq<char>>) -> Seq<char> {
    match pretty {
        Some(text) => fenced_json(text),
        None => placeholder_body(),
    }
}

/// The attachment that shows structured data, given the outcome of
/// pretty-printing it.
pub open spec fn structured_view(pretty: Option<Seq<char>>) -> AttachmentView {
    AttachmentView {
        title: "Additional Data"@,
        body: structured_body(pretty),
        color_tag: ColorTag::Info,
    }
}

/// Builds the structured-data attachment from the outcome of pretty-printing
/// the data. A failure yields the placeholder body; the failure itself is
/// not shown.
pub fn structured_attachment(pretty: Result<String, serde_json::Error>) -> (attachment: Attachment)
    ensures
        attachment@ == structured_view(pretty_text(pretty)),
        pretty is Err ==> attachment.body@ == placeholder_body(),
{
    let body: String = match pretty {
        Ok(text) => {
            let mut fenced: String = "```json\n".to_owned();
            fenced.append(text.as_str());
            fenced.append("\n```");
            fenced
        },
        Err(_) => "```\nUnable to format structured data\n```".to_owned(),
    };
    Attachment { title: "Additional Data".to_owned(), body, color_tag: ColorTag::Info }
}

/// Whether a reply has transactions to show: a list that is present and not
/// empty.
pub open spec fn has_transactions(txs: Option<Seq<RawTxView>>) -> bool {
    txs is Some && txs->0.len() > 0
}

/// The attachments that a list of transactions contributes: one where
/// there are transactions to show, none otherwise.
pub open spec fn transactions_section(txs: Option<Seq<RawTxView>>) -> Seq<AttachmentView> {
    if has_transactions(txs) {
        seq![transactions_view(txs->0)]
    } else {
        Seq::empty()
    }
}

/// The attachments that structured data contributes: one where data is
/// present, whatever pretty-printing made of it, none where it is absent.
pub open spec fn data_section(pretty: Option<Option<Seq<char>>>) -> Seq<AttachmentView> {
    match pretty {
        Some(outcome) => seq![structured_view(outcome)],
        None => Seq::empty(),
    }
}

/// The message for a reply with the given body and transactions, where
/// `pretty` is absent for a reply without structured data and otherwise holds
/// the outcome of pretty-printing it. Transactions come first.
pub open spec fn rendered(
    body: Seq<char>,
    txs: Option<Seq<RawTxView>>,
    pretty: Option<Option<Seq<char>>>,
) -> ChatMessageView {
    ChatMessageView { text: body, attachments: transactions_section(txs) + data_section(pretty) }
}

/// The outcome of each pretty-printing attempt as plain text.
pub open spec fn pretty_outcome(
    pretty: Option<Result<String, serde_json::Error>>,
) -> Option<Option<Seq<char>>> {
    match pretty {
        Some(r) => Some(pretty_text(r)),
        None => None,
    }
}

/// Renders a reply whose structured data, if any, has already been handed to
/// the pretty-printer: `pretty` is `None` for a reply without structured
/// data, and otherwise what the pretty-printer returned.
pub fn render_with(
    body: String,
    tx_array: Option<Vec<RawTxInput>>,
    pretty: Option<Result<String, serde_json::Error>>,
) -> (msg: ChatMessage)
    ensures
        msg@ == rendered(body@, tx_array.deep_view(), pretty_outcome(pretty)),
        msg.text@ == body@,
        !has_transactions(tx_array.deep_view()) && pretty is None ==> msg.attachments.len() == 0,
        has_transactions(tx_array.deep_view()) && pretty is Some ==> (msg@.attachments.len() == 2
            && msg@.attachments[0] == transactions_view(tx_array.deep_view()->0)
            && msg@.attachments[1] == structured_view(pretty_text(pretty->0))),
        pretty is Some && pretty->0 is Err ==> msg@.attachments.last().body == placeholder_body(),
{
    let mut attachments: Vec<Attachment> = Vec::new();
    match tx_array {
        Some(txs) => {
            if txs.len() > 0 {
                attachments.push(transactions_attachment(&txs));
            }
        },
        None => {},
    }
    match pretty {
        Some(outcome) => {
            attachments.push(structured_attachment(outcome));
        },
        None => {},
    }
    assert(attachments.deep_view() =~= transactions_section(tx_array.deep_view()) + data_section(
        pretty_outcome(pretty),
    ));
    ChatMessage { text: body, attachments }
}

/// What pretty-printing makes of a reply's structured data: absent where
/// the reply has none.
pub open spec fn pretty_of(data: Option<serde_json::Value>) -> Option<Option<Seq<char>>> {
    match data {
        Some(value) => Some(pretty_json(value)),
        None => None,
    }
}

/// The message that a reply is rendered into.
pub open spec fn render_view(resp: ChatMessageOutputView) -> ChatMessageView {
    rendered(resp.body, resp.tx_array, pretty_of(resp.structured_data))
}

/// Renders a reply into a chat message. Never fails: structured data that
/// cannot be pretty-printed is shown as a placeholder.
pub fn render(resp: ChatMessageOutput) -> (msg: ChatMessage)
    ensures
        msg@ == render_view(resp@),
        msg.text@ == resp.body@,
        !has_transactions(resp@.tx_array) && resp@.structured_data is None
            ==> msg.attachments.len() == 0,
        has_transactions(resp@.tx_array) && resp@.structured_data is Some ==> (
        msg@.attachments.len() == 2 && msg@.attachments[0] == transactions_view(
            resp@.tx_array->0,
        ) && msg@.attachments[1] == structured_view(pretty_json(resp@.structured_data->0))),
        resp@.structured_data is Some && pretty_json(resp@.structured_data->0) is None
            ==> msg@.attachments.last().body == placeholder_body(),
        resp@.structured_data is Some && pretty_json(resp@.structured_data->0) is Some
            ==> unfenced(msg@.attachments.last().body) == pretty_json(resp@.structured_data->0)->0,
{
    proof {
        if resp@.structured_data is Some && pretty_json(resp@.structured_data->0) is Some {
            fence_keeps_text(pretty_json(resp@.structured_data->0)->0);
        }
    }
    let pretty: Option<Result<String, serde_json::Error>> = match &resp.structured_data {
        Some(value) => Some(to_pretty(value)),
        None => None,
    };
    render_with(resp.body, resp.tx_array, pretty)
}

} // verus!
