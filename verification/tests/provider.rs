use kissbot_agent::effective::EffectiveLLMConfig;
use kissbot_agent::json::{Json, JsonNumber};
use kissbot_agent::message::Message;
use kissbot_agent::provider::{
    AnthropicProvider, ModelResponse, OpenAiProvider, OpenAiRequestThinking, OpenAiRequestToolCall, ToolConfig,
    DEFAULT_ANTHROPIC_MAX_TOKENS,
};

fn openai() -> OpenAiProvider {
    OpenAiProvider { base_url: "https://api.deepseek.com".into(), api_key: "sk-test".into() }
}

fn anthropic() -> AnthropicProvider {
    AnthropicProvider { base_url: "https://api.anthropic.com".into(), api_key: "sk-test".into() }
}

fn sample_llm_cfg() -> EffectiveLLMConfig {
    EffectiveLLMConfig {
        provider: "deepseek".into(),
        model: "deepseek-4-flash".into(),
        max_tokens: Some(2048),
        temperature: Some(0.3f32.to_bits()),
        thinking: None,
        reasoning_effort: None,
    }
}

fn s(t: &str) -> Json {
    Json::Str(t.into())
}

fn obj(members: Vec<(&str, Json)>) -> Json {
    Json::Object(members.into_iter().map(|(k, v)| (k.to_string(), v)).collect())
}

fn arr(items: Vec<Json>) -> Json {
    Json::Array(items)
}

fn num(n: u64) -> Json {
    Json::Number(JsonNumber::PosInt(n))
}

fn sys(content: &str) -> Message {
    Message::System { content: content.into() }
}

fn usr(content: &str) -> Message {
    Message::User { content: content.into() }
}

fn assistant(content: Json, reasoning_content: Json, tool_calls: Json) -> Message {
    Message::Assistant { content, reasoning_content, tool_calls }
}

fn tool_msg(id: &str, content: &str) -> Message {
    Message::Tool { tool_call_id: id.into(), content: content.into() }
}

fn read_tool() -> ToolConfig {
    ToolConfig { name: "read".into(), description: "读取文本文件".into(), parameters: obj(vec![("type", s("object"))]) }
}

fn wire_tool_calls() -> Json {
    arr(vec![obj(vec![
        ("id", s("c1")),
        ("type", s("function")),
        ("function", obj(vec![("name", s("read")), ("arguments", s("{\"path\":\"/a\"}"))])),
    ])])
}

fn text(value: &Option<String>) -> Option<&str> {
    value.as_deref()
}

fn jstr(j: &Json) -> Option<String> {
    j.as_string()
}

fn json_eq(a: &Json, b: &Json) -> bool {
    match (a, b) {
        (Json::Null, Json::Null) => true,
        (Json::Bool(x), Json::Bool(y)) => x == y,
        (Json::Number(x), Json::Number(y)) => x == y,
        (Json::Str(x), Json::Str(y)) => x == y,
        (Json::Array(x), Json::Array(y)) => x.len() == y.len() && x.iter().zip(y.iter()).all(|(p, q)| json_eq(p, q)),
        (Json::Object(x), Json::Object(y)) => {
            x.len() == y.len() && x.iter().zip(y.iter()).all(|(p, q)| p.0 == q.0 && json_eq(&p.1, &q.1))
        },
        _ => false,
    }
}

fn openai_reply(message: Json, finish: &str) -> Json {
    obj(vec![("choices", arr(vec![obj(vec![("message", message), ("finish_reason", s(finish))])]))])
}

fn parse_openai(data: Json) -> ModelResponse {
    openai().parse_response(data)
}

#[test]
fn openai_build_request_includes_params_and_messages() {
    let llm_cfg = sample_llm_cfg();
    let body = openai().build_request(&llm_cfg, vec![sys("你是助手"), usr("你好")], &vec![]);
    assert_eq!(body.model.as_str(), "deepseek-4-flash");
    assert_eq!(body.max_tokens, Some(2048));
    assert_eq!(body.temperature.map(f32::from_bits), Some(0.3_f32));
    assert!(!body.stream, "非流式请求");
    assert!(body.tools.is_none(), "无工具不构造 tools");
    assert!(body.thinking.is_none(), "未配置 thinking");
    assert!(body.reasoning_effort.is_none(), "未配置 reasoning_effort");
    assert!(matches!(&body.messages[0], Message::System { content } if content.as_str() == "你是助手"));
    assert!(matches!(&body.messages[1], Message::User { content } if content.as_str() == "你好"));
}

#[test]
fn openai_build_request_omits_optional_params_when_none() {
    let mut llm_cfg = sample_llm_cfg();
    llm_cfg.max_tokens = None;
    llm_cfg.temperature = None;
    llm_cfg.thinking = None;
    llm_cfg.reasoning_effort = None;
    let body = openai().build_request(&llm_cfg, vec![usr("你好")], &vec![]);
    assert!(body.max_tokens.is_none(), "max_tokens 未配置不应传");
    assert!(body.temperature.is_none(), "temperature 未配置不应传");
    assert!(body.thinking.is_none(), "thinking 未配置不应传");
    assert!(body.reasoning_effort.is_none(), "reasoning_effort 未配置不应传");
    assert_eq!(body.model, "deepseek-4-flash");
    assert!(!body.stream);
}

#[test]
fn openai_build_request_maps_thinking_and_reasoning_effort() {
    let mut llm_cfg = sample_llm_cfg();
    llm_cfg.thinking = Some("enabled".to_string());
    llm_cfg.reasoning_effort = Some("high".to_string());
    let body = openai().build_request(&llm_cfg, vec![usr("你好")], &vec![]);
    assert_eq!(body.thinking, Some(OpenAiRequestThinking::Enabled));
    assert_eq!(body.reasoning_effort.as_deref(), Some("high"));
    assert_eq!(body.temperature.map(f32::from_bits), Some(0.3_f32));
}

#[test]
fn openai_build_request_maps_disabled_thinking() {
    let mut llm_cfg = sample_llm_cfg();
    llm_cfg.thinking = Some("disabled".to_string());
    let body = openai().build_request(&llm_cfg, vec![usr("你好")], &vec![]);
    assert_eq!(body.thinking, Some(OpenAiRequestThinking::Disabled));
}

#[test]
fn openai_build_request_drops_unknown_thinking_value() {
    let mut llm_cfg = sample_llm_cfg();
    llm_cfg.thinking = Some("bogus".to_string());
    let body = openai().build_request(&llm_cfg, vec![usr("你好")], &vec![]);
    assert!(body.thinking.is_none(), "未知取值不构造 thinking");
}

#[test]
fn openai_build_request_includes_tools_when_present() {
    let llm_cfg = sample_llm_cfg();
    let tools = vec![read_tool()];
    let body = openai().build_request(&llm_cfg, vec![usr("查一下")], &tools);
    let tools = body.tools.expect("有工具应构造 tools");
    assert_eq!(tools.len(), 1);
    let OpenAiRequestToolCall::Function { function } = &tools[0];
    assert_eq!(function.name, "read");
    assert_eq!(function.description, "读取文本文件");
    assert_eq!(jstr(&function.parameters.get("type")).as_deref(), Some("object"));
}

#[test]
fn openai_build_request_omits_tools_when_empty() {
    let llm_cfg = sample_llm_cfg();
    let body = openai().build_request(&llm_cfg, vec![usr("你好")], &vec![]);
    assert!(body.tools.is_none(), "无工具不构造 tools");
}

#[test]
fn openai_build_request_passes_through_tool_and_result_messages() {
    let llm_cfg = sample_llm_cfg();
    let msgs = vec![assistant(Json::Null, Json::Null, wire_tool_calls()), tool_msg("c1", "内容")];
    let body = openai().build_request(&llm_cfg, msgs, &vec![]);
    match &body.messages[0] {
        Message::Assistant { content, reasoning_content, tool_calls } => {
            assert!(content.is_null() && reasoning_content.is_null());
            assert!(json_eq(tool_calls, &wire_tool_calls()), "tool_calls 原样透传");
            assert_eq!(jstr(&tool_calls.at(0).get("function").get("arguments")).as_deref(), Some(r#"{"path":"/a"}"#));
        },
        _ => panic!("assistant expected"),
    }
    assert!(matches!(&body.messages[1], Message::Tool { tool_call_id, content } if tool_call_id == "c1" && content == "内容"));
}

#[test]
fn openai_build_request_serializes_reasoning_content_when_present() {
    let llm_cfg = sample_llm_cfg();
    let msgs = vec![sys("设定"), assistant(s("回答"), s("思考"), Json::Null)];
    let body = openai().build_request(&llm_cfg, msgs, &vec![]);
    assert_eq!(body.messages.len(), 2);
    match &body.messages[1] {
        Message::Assistant { content, reasoning_content, tool_calls } => {
            assert_eq!(jstr(content).as_deref(), Some("回答"));
            assert_eq!(jstr(reasoning_content).as_deref(), Some("思考"));
            assert!(tool_calls.is_null());
        },
        _ => panic!("assistant expected"),
    }
}

#[test]
fn openai_parse_response_extracts_content_and_finish_reason() {
    let resp = parse_openai(openai_reply(obj(vec![("content", s("答案"))]), "stop"));
    assert_eq!(text(&resp.content), Some("答案"));
    assert_eq!(text(&resp.finish_reason), Some("stop"));
    assert_eq!(text(&resp.reasoning_content), None, "无 reasoning_content 字段");
    assert_eq!(text(&resp.thinking), None, "无 <think> 标签");
    assert!(resp.tool_calls.is_none(), "无 tool_calls 字段");
    assert_eq!(resp.total_tokens, 0, "缺 usage 回退 0");
}

#[test]
fn openai_parse_response_extracts_tool_calls() {
    let data = openai_reply(obj(vec![("content", Json::Null), ("tool_calls", wire_tool_calls())]), "tool_calls");
    let resp = parse_openai(data);
    let tool_calls = resp.tool_calls.as_ref().expect("应解析出 tool_calls");
    assert_eq!(tool_calls.len(), 1);
    assert_eq!(tool_calls[0].id.as_str(), "c1");
    assert_eq!(tool_calls[0].name.as_str(), "read");
    assert_eq!(jstr(&tool_calls[0].data.arguments).as_deref(), Some(r#"{"path":"/a"}"#));
    assert!(tool_calls[0].data.result.is_null() && tool_calls[0].data.error.is_null(), "执行前 result/error 为空");
    assert!(json_eq(&resp.raw_tool_calls, &wire_tool_calls()), "raw_tool_calls 原样保留");
    assert!(resp.content.is_none(), "content 为 null → None");
    assert_eq!(text(&resp.finish_reason), Some("tool_calls"));
}

#[test]
fn openai_parse_response_no_tool_calls_by_default() {
    let resp = parse_openai(openai_reply(obj(vec![("content", s("答案"))]), "stop"));
    assert!(resp.tool_calls.is_none(), "无 tool_calls 字段时为 None");
    assert!(resp.raw_tool_calls.is_null(), "raw_tool_calls 为 Null");
}

#[test]
fn openai_parse_response_skips_tool_call_missing_id_or_name() {
    let calls = arr(vec![
        obj(vec![("function", obj(vec![("name", s("read")), ("arguments", s("{}"))]))]),
        obj(vec![("id", s("c2")), ("function", obj(vec![("arguments", s("{}"))]))]),
        obj(vec![("id", s("c3")), ("function", obj(vec![("name", s("write")), ("arguments", s("{}"))]))]),
    ]);
    let resp = parse_openai(openai_reply(obj(vec![("content", s("答案")), ("tool_calls", calls)]), "tool_calls"));
    let tool_calls = resp.tool_calls.as_ref().expect("应解析出 tool_calls");
    assert_eq!(tool_calls.len(), 1, "仅完整条目保留");
    assert_eq!(tool_calls[0].id.as_str(), "c3");
}

#[test]
fn openai_parse_response_reasoning_and_thinking_independent() {
    let resp = parse_openai(openai_reply(
        obj(vec![("content", s("<think>标签思考</think>答案")), ("reasoning_content", s("API推理"))]),
        "stop",
    ));
    assert_eq!(text(&resp.content), Some("答案"), "<think> 标签应剥离");
    assert_eq!(text(&resp.reasoning_content), Some("API推理"), "reasoning_content 独立取 API 字段");
    assert_eq!(text(&resp.thinking), Some("标签思考"), "thinking 独立取标签内容");
}

#[test]
fn openai_parse_response_only_thinking_when_no_api_field() {
    let resp = parse_openai(openai_reply(obj(vec![("content", s("<think>思考</think>答案"))]), "stop"));
    assert!(resp.reasoning_content.is_none(), "无 API 字段 → None");
    assert_eq!(text(&resp.thinking), Some("思考"));
}

#[test]
fn openai_parse_response_extracts_reasoning_content() {
    let resp = parse_openai(openai_reply(obj(vec![("content", s("答案")), ("reasoning_content", s("思考"))]), "stop"));
    assert_eq!(text(&resp.content), Some("答案"));
    assert_eq!(text(&resp.reasoning_content), Some("思考"));
    assert!(resp.thinking.is_none(), "仅 API 字段无标签时 thinking 为 None");
}

#[test]
fn openai_parse_response_falls_back_to_think_tag() {
    let resp = parse_openai(openai_reply(obj(vec![("content", s("<think>思考</think>答案"))]), "stop"));
    assert_eq!(text(&resp.content), Some("答案"), "<think> 标签应剥离");
    assert!(resp.reasoning_content.is_none(), "标签内容不合并到 reasoning_content");
    assert_eq!(text(&resp.thinking), Some("思考"), "标签内容独立取 thinking");
}

#[test]
fn openai_parse_response_empty_api_reasoning_is_kept_as_empty_string() {
    let resp = parse_openai(openai_reply(
        obj(vec![("content", s("<think>思考</think>答案")), ("reasoning_content", s(""))]),
        "stop",
    ));
    assert_eq!(text(&resp.content), Some("答案"), "<think> 标签应剥离");
    assert_eq!(text(&resp.reasoning_content), Some(""), "空串 reasoning_content 取值为空串");
    assert_eq!(text(&resp.thinking), Some("思考"), "标签内容独立取 thinking");
}

#[test]
fn openai_parse_response_no_thinking_when_both_empty() {
    let resp = parse_openai(openai_reply(obj(vec![("content", s("答案"))]), "stop"));
    assert!(resp.reasoning_content.is_none());
    assert!(resp.thinking.is_none());
}

#[test]
fn openai_parse_response_keeps_raw_fields() {
    let resp = parse_openai(openai_reply(
        obj(vec![("content", s("<think>思考</think>答案")), ("reasoning_content", s("API推理"))]),
        "stop",
    ));
    assert!(json_eq(&resp.raw_content, &s("<think>思考</think>答案")), "raw_content 未被剥标签");
    assert!(json_eq(&resp.raw_reasoning_content, &s("API推理")));
}

#[test]
fn openai_parse_response_extracts_total_tokens() {
    let data = obj(vec![
        ("choices", arr(vec![obj(vec![("message", obj(vec![("content", s("答案"))])), ("finish_reason", s("stop"))])])),
        ("usage", obj(vec![("prompt_tokens", num(10)), ("completion_tokens", num(5)), ("total_tokens", num(15))])),
    ]);
    let resp = parse_openai(data);
    assert_eq!(resp.total_tokens, 15, "应取 usage.total_tokens");
}

#[test]
fn openai_parse_response_missing_usage_defaults_zero() {
    let resp = parse_openai(openai_reply(obj(vec![("content", s("答案"))]), "stop"));
    assert_eq!(resp.total_tokens, 0, "缺 usage 回退 0");
}

#[test]
fn anthropic_build_request_separates_system_messages() {
    let llm_cfg = sample_llm_cfg();
    let body = anthropic().build_request(&llm_cfg, vec![sys("设定"), usr("hi")], &vec![]);
    assert_eq!(jstr(&body.get("system")).as_deref(), Some("设定"));
    match body.get("messages") {
        Json::Array(items) => assert_eq!(items.len(), 1, "system 不应出现在 messages"),
        _ => panic!("messages expected"),
    }
    assert_eq!(jstr(&body.get("messages").at(0).get("role")).as_deref(), Some("user"));
    assert_eq!(jstr(&body.get("messages").at(0).get("content")).as_deref(), Some("hi"));
    assert_eq!(body.get("max_tokens").as_u64(), Some(2048));
    assert_eq!(jstr(&body.get("model")).as_deref(), Some("deepseek-4-flash"));
}

#[test]
fn anthropic_build_request_joins_multiple_system_messages() {
    let llm_cfg = sample_llm_cfg();
    let body = anthropic().build_request(&llm_cfg, vec![sys("第一段"), sys("第二段"), usr("hi")], &vec![]);
    assert_eq!(jstr(&body.get("system")).as_deref(), Some("第一段\n第二段"), "多段 system 以换行拼接");
    match body.get("messages") {
        Json::Array(items) => assert_eq!(items.len(), 1),
        _ => panic!("messages expected"),
    }
}

#[test]
fn anthropic_build_request_defaults_max_tokens_when_unset() {
    let mut llm_cfg = sample_llm_cfg();
    llm_cfg.max_tokens = None;
    let body = anthropic().build_request(&llm_cfg, vec![usr("hi")], &vec![]);
    assert_eq!(body.get("max_tokens").as_u64(), Some(DEFAULT_ANTHROPIC_MAX_TOKENS as u64));
    assert_eq!(body.get("max_tokens").as_u64(), Some(65535));
}

#[test]
fn anthropic_build_request_omits_optional_params_when_none() {
    let mut llm_cfg = sample_llm_cfg();
    llm_cfg.temperature = None;
    llm_cfg.thinking = None;
    llm_cfg.reasoning_effort = None;
    let body = anthropic().build_request(&llm_cfg, vec![usr("hi")], &vec![]);
    assert!(body.get("temperature").is_null(), "temperature 未配置不应传");
    assert!(body.get("thinking").is_null(), "thinking 未配置不应传");
    assert!(body.get("output_config").is_null(), "reasoning_effort 未配置不应传 output_config");
}

#[test]
fn anthropic_build_request_omits_system_when_absent() {
    let llm_cfg = sample_llm_cfg();
    let body = anthropic().build_request(&llm_cfg, vec![usr("hi")], &vec![]);
    assert!(body.get("system").is_null(), "无 system 消息不应发送 system 字段");
}

#[test]
fn anthropic_build_request_drops_tool_messages() {
    let llm_cfg = sample_llm_cfg();
    let msgs = vec![usr("hi"), tool_msg("c1", "内容"), assistant(s("回答"), Json::Null, wire_tool_calls())];
    let body = anthropic().build_request(&llm_cfg, msgs, &vec![]);
    match body.get("messages") {
        Json::Array(items) => assert_eq!(items.len(), 2, "Tool 消息被丢弃"),
        _ => panic!("messages expected"),
    }
    assert_eq!(jstr(&body.get("messages").at(0).get("role")).as_deref(), Some("user"));
    assert_eq!(jstr(&body.get("messages").at(1).get("role")).as_deref(), Some("assistant"));
    assert_eq!(jstr(&body.get("messages").at(1).get("content")).as_deref(), Some("回答"));
}

#[test]
fn anthropic_build_request_passes_thinking_and_output_config() {
    let mut llm_cfg = sample_llm_cfg();
    llm_cfg.thinking = Some("enabled".to_string());
    llm_cfg.reasoning_effort = Some("high".to_string());
    let body = anthropic().build_request(&llm_cfg, vec![usr("hi")], &vec![]);
    assert_eq!(jstr(&body.get("thinking").get("type")).as_deref(), Some("enabled"), "thinking 原样作为 type");
    assert_eq!(jstr(&body.get("output_config").get("effort")).as_deref(), Some("high"));
    match body.get("temperature") {
        Json::Number(JsonNumber::Float32(bits)) => assert_eq!(f32::from_bits(bits), 0.3_f32),
        _ => panic!("temperature expected"),
    }
}

fn anthropic_reply(blocks: Vec<Json>) -> Json {
    obj(vec![("content", arr(blocks)), ("stop_reason", s("end_turn"))])
}

fn block(ty: &str, field: &str, value: &str) -> Json {
    obj(vec![("type", s(ty)), (field, s(value))])
}

#[test]
fn anthropic_parse_response_extracts_text_and_stop_reason() {
    let resp = anthropic().parse_response(anthropic_reply(vec![block("text", "text", "答复")]));
    assert_eq!(text(&resp.content), Some("答复"));
    assert_eq!(text(&resp.finish_reason), Some("end_turn"));
    assert!(resp.tool_calls.is_none(), "anthropic 分支暂不解析工具调用");
    assert!(resp.reasoning_content.is_none());
    assert!(resp.thinking.is_none());
}

#[test]
fn anthropic_parse_response_reasoning_and_thinking_independent() {
    let resp = anthropic().parse_response(anthropic_reply(vec![
        block("thinking", "thinking", "API推理"),
        block("text", "text", "<think>标签思考</think>答复"),
    ]));
    assert_eq!(text(&resp.content), Some("答复"));
    assert_eq!(text(&resp.reasoning_content), Some("API推理"));
    assert_eq!(text(&resp.thinking), Some("标签思考"));
}

#[test]
fn anthropic_parse_response_extracts_thinking_block() {
    let resp = anthropic().parse_response(anthropic_reply(vec![
        block("thinking", "thinking", "思考过程"),
        block("text", "text", "答复"),
    ]));
    assert_eq!(text(&resp.content), Some("答复"));
    assert_eq!(text(&resp.reasoning_content), Some("思考过程"), "thinking block → reasoning_content");
    assert!(resp.thinking.is_none(), "无标签时 thinking 为 None");
}

#[test]
fn anthropic_parse_response_falls_back_to_think_tag() {
    let resp = anthropic().parse_response(anthropic_reply(vec![block("text", "text", "<think>思考</think>答复")]));
    assert_eq!(text(&resp.content), Some("答复"));
    assert!(resp.reasoning_content.is_none(), "无 thinking block → None");
    assert_eq!(text(&resp.thinking), Some("思考"), "标签内容独立取 thinking");
}

#[test]
fn anthropic_parse_response_empty_thinking_block_is_kept_as_empty_string() {
    let resp = anthropic().parse_response(anthropic_reply(vec![
        block("thinking", "thinking", ""),
        block("text", "text", "<think>思考</think>答复"),
    ]));
    assert_eq!(text(&resp.content), Some("答复"), "<think> 标签应剥离");
    assert_eq!(text(&resp.reasoning_content), Some(""), "空串 thinking block 取值为空串");
    assert_eq!(text(&resp.thinking), Some("思考"), "标签内容独立取 thinking");
}

#[test]
fn anthropic_parse_response_uses_first_text_and_thinking_blocks() {
    let resp = anthropic().parse_response(anthropic_reply(vec![
        block("text", "text", "第一段"),
        block("thinking", "thinking", "推理一"),
        block("text", "text", "第二段"),
        block("thinking", "thinking", "推理二"),
    ]));
    assert_eq!(text(&resp.content), Some("第一段"));
    assert_eq!(text(&resp.reasoning_content), Some("推理一"));
}

#[test]
fn anthropic_parse_response_total_tokens_always_zero() {
    let resp = anthropic().parse_response(anthropic_reply(vec![block("text", "text", "答复")]));
    assert_eq!(resp.total_tokens, 0, "anthropic 暂固定 0");
}

#[test]
fn endpoints_drop_trailing_slashes() {
    let p = OpenAiProvider { base_url: "https://x.com//".into(), api_key: "k".into() };
    assert_eq!(p.chat_url(), "https://x.com/chat/completions");
    assert_eq!(p.models_url(), "https://x.com/models");
    let a = AnthropicProvider { base_url: "https://y.com".into(), api_key: "k".into() };
    assert_eq!(a.messages_url(), "https://y.com/v1/messages");
    assert_eq!(a.models_url(), "https://y.com/v1/models");
}

#[test]
fn model_ids_reads_string_ids() {
    let data = obj(vec![("data", arr(vec![obj(vec![("id", s("m1"))]), obj(vec![("x", s("m2"))]), obj(vec![("id", s("m3"))])]))]);
    assert_eq!(kissbot_agent::provider::model_ids(&data), vec!["m1".to_string(), "m3".to_string()]);
    assert!(kissbot_agent::provider::model_ids(&obj(vec![])).is_empty());
}
