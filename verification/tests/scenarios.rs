use chat_relay::client::{on_status, request_for, AfterStatus, ForwardError};
use chat_relay::handler::{on_event, reply_for, InboundEvent, OptionValue};
use chat_relay::message::{ChatMessage, ColorTag};
use chat_relay::types::{ChatMessageOutput, RawTxInput};
use serde_json::Value;

fn text_field(object: &Value, key: &str) -> String {
    object[key].as_str().unwrap().to_string()
}

fn optional_text_field(object: &Value, key: &str) -> Option<String> {
    object.get(key).and_then(|v| v.as_str()).map(|s| s.to_string())
}

fn decode_reply(wire: &str) -> Result<ChatMessageOutput, String> {
    let value: Value = serde_json::from_str(wire).map_err(|e| e.to_string())?;
    let tx_array = match value.get("tx_array") {
        None | Some(Value::Null) => None,
        Some(list) => Some(
            list.as_array()
                .unwrap()
                .iter()
                .map(|tx| RawTxInput {
                    chain_id: tx["chain_id"].as_i64().unwrap(),
                    to_address: text_field(tx, "to_address"),
                    input_bytes: text_field(tx, "input_bytes"),
                    description: optional_text_field(tx, "description"),
                    description_short: optional_text_field(tx, "description_short"),
                })
                .collect(),
        ),
    };
    let structured_data = match value.get("structured_data") {
        None | Some(Value::Null) => None,
        Some(data) => Some(data.clone()),
    };
    Ok(ChatMessageOutput { body: text_field(&value, "body"), tx_array, structured_data })
}

fn relay(query: &str, status: u16, wire: &str) -> ChatMessage {
    let event = InboundEvent::Command {
        name: "bot".to_string(),
        options: vec![OptionValue::Text(query.to_string())],
    };
    let request = on_event(&event).unwrap();
    assert_eq!(request.body, query);
    assert_eq!(request.body, request_for(query.to_string()).body);
    let outcome = match on_status(status) {
        AfterStatus::Decode(state) => state.finish(decode_reply(wire)),
        AfterStatus::Explain(state) => state.finish(Ok(wire.to_string())),
    };
    reply_for(outcome)
}

const APOLOGY: &str = "Sorry, there was an error processing your request.";

#[test]
fn hello_is_answered_with_hi() {
    let msg = relay("hello", 200, r#"{"body":"hi","tx_array":null,"structured_data":null}"#);
    assert_eq!(msg.text, "hi");
    assert_eq!(msg.attachments.len(), 0);
}

#[test]
fn done_with_one_transaction_and_data() {
    let wire = r#"{"body":"done","tx_array":[{"chain_id":1,"to_address":"0xabc","input_bytes":"0x","description":"transfer","description_short":"tx"}],"structured_data":{"ok":true}}"#;
    let msg = relay("send it", 200, wire);
    assert_eq!(msg.text, "done");
    assert_eq!(msg.attachments.len(), 2);
    let listing = &msg.attachments[0];
    assert_eq!(listing.title, "Transactions");
    assert_eq!(listing.color_tag, ColorTag::Success);
    for part in ["Transaction #1", "Chain ID: 1", "To: 0xabc", "Description: transfer"] {
        assert!(listing.body.contains(part), "{}", part);
    }
    let data = &msg.attachments[1];
    assert_eq!(data.title, "Additional Data");
    assert_eq!(data.color_tag, ColorTag::Info);
    assert_eq!(data.body, "```json\n{\n  \"ok\": true\n}\n```");
}

#[test]
fn backend_failure_is_answered_with_the_apology() {
    let msg = relay("hello", 500, "boom");
    assert_eq!(msg.text, APOLOGY);
    assert!(msg.attachments.is_empty());
}

#[test]
fn unparsable_success_is_answered_with_the_apology() {
    let msg = relay("hello", 200, "not json");
    assert_eq!(msg.text, APOLOGY);
    assert!(msg.attachments.is_empty());
}

#[test]
fn unparsable_success_is_no_backend_error() {
    let outcome = match on_status(200) {
        AfterStatus::Decode(state) => state.finish(decode_reply("not json")),
        AfterStatus::Explain(_) => panic!("200 is a success"),
    };
    assert!(matches!(outcome, Err(ForwardError::Transport { .. })));
}
