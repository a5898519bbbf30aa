use edgen_server::model::ModelError;
use edgen_server::openai::{
    chat_preload_outcome, chat_prompt, chunk_choice, configured_model, resolve_chat_model,
    frame_chunk, stop_words_of,
    transcription_model_error, AssistantFunctionStub, AssistantToolCall, ChatCompletionError,
    ChatCompletionUsage, ChatMessage, ChatMessages, ContentPart, StopWords, UserContent,
};

#[test]
fn content_part_text() {
    let t = ContentPart::Text { text: "hi".to_string() };
    assert_eq!(t.to_text(), "hi");
    let i = ContentPart::ImageUrl { url: "http://x/a.png".to_string(), detail: None };
    assert_eq!(i.to_text(), "<IMAGE http://x/a.png>");
    let d = ContentPart::ImageUrl {
        url: "http://x/a.png".to_string(),
        detail: Some("high".to_string()),
    };
    assert_eq!(d.to_text(), "<IMAGE http://x/a.png> (high)");
}

#[test]
fn chat_messages_render_in_order() {
    let msgs = ChatMessages(vec![
        ChatMessage::System { content: Some("be brief".to_string()), name: None },
        ChatMessage::User { content: UserContent::Text("hello".to_string()), name: None },
        ChatMessage::Assistant {
            content: Some("hi".to_string()),
            name: None,
            tool_calls: Some(vec![AssistantToolCall {
                id: "1".to_string(),
                type_: "function".to_string(),
                function: AssistantFunctionStub {
                    name: "f".to_string(),
                    arguments: "{}".to_string(),
                },
            }]),
        },
        ChatMessage::User {
            content: UserContent::Parts(vec![
                ContentPart::Text { text: "look: ".to_string() },
                ContentPart::ImageUrl { url: "u".to_string(), detail: None },
            ]),
            name: Some("bob".to_string()),
        },
        ChatMessage::Tool { content: Some("42".to_string()), tool_call_id: "1".to_string() },
        ChatMessage::System { content: None, name: None },
    ]);
    assert_eq!(
        msgs.to_text(),
        "<|SYSTEM|>be brief<|USER|>hello<|ASSISTANT|>hi<|USER|>look: <IMAGE u><|TOOL|>42"
    );
    assert_eq!(
        chat_prompt(&msgs),
        "<|SYSTEM|>be brief<|USER|>hello<|ASSISTANT|>hi<|USER|>look: <IMAGE u><|TOOL|>42<|ASSISTANT|>"
    );
}

#[test]
fn empty_conversation_prompt() {
    assert_eq!(chat_prompt(&ChatMessages(vec![])), "<|ASSISTANT|>");
}

#[test]
fn configured_model_is_trimmed() {
    assert_eq!(configured_model("  tiny.gguf \n"), Some("tiny.gguf".to_string()));
    assert_eq!(configured_model("   "), None);
    assert_eq!(configured_model(""), None);
}

#[test]
fn chat_model_resolution() {
    assert_eq!(resolve_chat_model(" m.gguf "), Ok("m.gguf".to_string()));
    assert_eq!(
        resolve_chat_model("  "),
        Err(ChatCompletionError::NoSuchModel { model_name: String::new() })
    );
}

#[test]
fn preload_failures_map_per_endpoint() {
    assert_eq!(chat_preload_outcome("m", Ok(())), Ok(()));
    assert_eq!(
        chat_preload_outcome("m", Err(ModelError::API("down".to_string()))),
        Err(ChatCompletionError::NoSuchModel { model_name: "m".to_string() })
    );
    assert_eq!(transcription_model_error("w"), ModelError::FileNotFound("w".to_string()));
}

#[test]
fn chunk_choice_carries_content() {
    let c = chunk_choice("tok".to_string());
    assert_eq!(c.index, 0);
    assert_eq!(c.finish_reason, None);
    assert_eq!(c.delta.role, None);
    assert_eq!(c.delta.content, Some("tok".to_string()));
}

#[test]
fn usage_is_plain_data() {
    let u = ChatCompletionUsage { completion_tokens: 1, prompt_tokens: 2, total_tokens: 3 };
    assert_eq!(u, ChatCompletionUsage { completion_tokens: 1, prompt_tokens: 2, total_tokens: 3 });
}

#[test]
fn request_stop_words() {
    assert_eq!(stop_words_of(None), Vec::<String>::new());
    assert_eq!(stop_words_of(Some(StopWords::One("END".to_string()))), vec!["END"]);
    assert_eq!(
        stop_words_of(Some(StopWords::Many(vec!["a".to_string(), "b".to_string()]))),
        vec!["a", "b"]
    );
}

#[test]
fn framed_chunk_fields() {
    let c = frame_chunk("tok".to_string(), "id-1".to_string(), 1700000000, "edgen-0.1.0".to_string());
    assert_eq!(c.id, "id-1");
    assert_eq!(c.created, 1700000000);
    assert_eq!(c.model, "main");
    assert_eq!(c.system_fingerprint, "edgen-0.1.0");
    assert_eq!(c.object, "text_completion");
    assert_eq!(c.choices.len(), 1);
    assert_eq!(c.choices[0].delta.content, Some("tok".to_string()));
}
