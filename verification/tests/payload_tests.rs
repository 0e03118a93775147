use askrepo_service::env_map::EnvMap;
use askrepo_service::payload::{env_object, tag_array, NewSandboxPayload};
use serde_json::Value;

fn parse(text: &str) -> Value {
    serde_json::from_str(text).unwrap()
}

fn mention() -> Value {
    parse("{\"mention_id\":\"12345\"}")
}

fn env_of(pairs: &[(&str, &str)]) -> EnvMap {
    let mut env = EnvMap::new();
    for (name, value) in pairs {
        env.insert(name.to_string(), value.to_string());
    }
    env
}

#[test]
fn new_payload_sets_the_metadata_only() {
    let payload = NewSandboxPayload::new(mention());
    assert_eq!(payload.metadata, mention());
    assert_eq!(payload.description, None);
    assert!(payload.tags.is_empty());
    assert_eq!(payload.instructions, None);
    assert_eq!(payload.setup, None);
    assert_eq!(payload.startup_task, None);
    assert!(payload.env.is_empty());
    assert_eq!(payload.idle_timeout_seconds, None);
    assert_eq!(payload.inference_model, None);
}

#[test]
fn metadata_only_payload_has_exactly_one_field() {
    let sent = NewSandboxPayload::new(mention()).to_json();
    let members = sent.as_object().unwrap();
    assert_eq!(members.len(), 1);
    assert_eq!(members.get("metadata"), Some(&mention()));
    for name in [
        "description",
        "tags",
        "instructions",
        "setup",
        "startup_task",
        "env",
        "idle_timeout_seconds",
        "inference_model",
    ] {
        assert!(!members.contains_key(name), "{}", name);
    }
    assert_eq!(sent.to_string(), "{\"metadata\":{\"mention_id\":\"12345\"}}");
}

#[test]
fn metadata_of_any_kind_is_sent_as_it_is() {
    for text in ["null", "true", "12.5", "\"text\"", "[1,[2,{}]]", "{\"a\":{\"b\":[null]}}"] {
        let sent = NewSandboxPayload::new(parse(text)).to_json();
        let members = sent.as_object().unwrap();
        assert_eq!(members.len(), 1);
        assert_eq!(members.get("metadata"), Some(&parse(text)));
    }
}

#[test]
fn env_is_sent_name_for_name_and_value_for_value() {
    let env = env_of(&[("TOKEN", "abc"), ("EMPTY", ""), ("caf\u{e9}", "\"quoted\"\n")]);
    let sent = NewSandboxPayload::new(mention()).with_env(env).to_json();
    let members = sent.as_object().unwrap();
    assert_eq!(members.len(), 2);
    let sent_env = members.get("env").unwrap().as_object().unwrap();
    assert_eq!(sent_env.len(), 3);
    assert_eq!(sent_env.get("TOKEN"), Some(&Value::String("abc".to_string())));
    assert_eq!(sent_env.get("EMPTY"), Some(&Value::String("".to_string())));
    assert_eq!(sent_env.get("caf\u{e9}"), Some(&Value::String("\"quoted\"\n".to_string())));
    let read_back = parse(&sent.to_string());
    assert_eq!(read_back, sent);
}

#[test]
fn empty_env_is_not_sent() {
    let sent = NewSandboxPayload::new(mention()).with_env(EnvMap::new()).to_json();
    let members = sent.as_object().unwrap();
    assert!(!members.contains_key("env"));
    assert_eq!(members.len(), 1);
}

#[test]
fn empty_tags_are_not_sent() {
    let sent = NewSandboxPayload::new(mention()).with_tags(Vec::new()).to_json();
    let members = sent.as_object().unwrap();
    assert!(!members.contains_key("tags"));
    assert_eq!(members.len(), 1);
}

#[test]
fn tags_are_sent_in_their_order() {
    let tags = vec!["mention-12345".to_string(), "b".to_string(), "a".to_string(), "b".to_string()];
    let sent = NewSandboxPayload::new(mention()).with_tags(tags).to_json();
    assert_eq!(
        sent,
        parse("{\"metadata\":{\"mention_id\":\"12345\"},\"tags\":[\"mention-12345\",\"b\",\"a\",\"b\"]}")
    );
}

#[test]
fn unset_description_and_timeout_are_not_sent() {
    let sent = NewSandboxPayload::new(mention())
        .with_description(Some("first".to_string()))
        .with_idle_timeout(Some(5))
        .with_description(None)
        .with_idle_timeout(None)
        .to_json();
    assert_eq!(sent, parse("{\"metadata\":{\"mention_id\":\"12345\"}}"));
}

#[test]
fn empty_texts_are_sent_when_they_are_set() {
    let sent = NewSandboxPayload::new(mention())
        .with_description(Some(String::new()))
        .with_instructions(String::new())
        .with_startup_task(String::new())
        .to_json();
    assert_eq!(
        sent,
        parse(
            "{\"metadata\":{\"mention_id\":\"12345\"},\"description\":\"\",\"instructions\":\"\",\"startup_task\":\"\"}"
        )
    );
}

#[test]
fn idle_timeout_is_sent_as_the_number_it_is() {
    for secs in [0, 1, 900, -1, i32::MAX, i32::MIN] {
        let sent = NewSandboxPayload::new(mention()).with_idle_timeout(Some(secs)).to_json();
        let members = sent.as_object().unwrap();
        assert_eq!(members.len(), 2);
        assert_eq!(members.get("idle_timeout_seconds"), Some(&Value::from(secs)));
        assert_eq!(members.get("idle_timeout_seconds").unwrap().as_i64(), Some(secs as i64));
    }
}

#[test]
fn every_field_that_is_set_is_sent() {
    let mut payload = NewSandboxPayload::new(mention())
        .with_description(Some("answers a mention".to_string()))
        .with_tags(vec!["mention-12345".to_string()])
        .with_instructions("be brief".to_string())
        .with_idle_timeout(Some(600))
        .with_env(env_of(&[("TWITTER_BEARER_TOKEN", "bearer")]))
        .with_startup_task("reply".to_string());
    payload.setup = Some("setup.sh".to_string());
    payload.inference_model = Some("model-x".to_string());
    let expected = parse(
        "{\"metadata\":{\"mention_id\":\"12345\"},\
          \"description\":\"answers a mention\",\
          \"tags\":[\"mention-12345\"],\
          \"instructions\":\"be brief\",\
          \"setup\":\"setup.sh\",\
          \"startup_task\":\"reply\",\
          \"env\":{\"TWITTER_BEARER_TOKEN\":\"bearer\"},\
          \"idle_timeout_seconds\":600,\
          \"inference_model\":\"model-x\"}",
    );
    assert_eq!(payload.to_json(), expected);
}

#[test]
fn setters_can_be_called_in_any_order() {
    let one = NewSandboxPayload::new(mention())
        .with_tags(vec!["t".to_string()])
        .with_startup_task("task".to_string())
        .with_env(env_of(&[("A", "1"), ("B", "2")]))
        .with_instructions("i".to_string());
    let other = NewSandboxPayload::new(mention())
        .with_instructions("i".to_string())
        .with_env(env_of(&[("B", "2"), ("A", "1")]))
        .with_startup_task("task".to_string())
        .with_tags(vec!["t".to_string()]);
    assert_eq!(one.to_json(), other.to_json());
}

#[test]
fn setters_replace_what_was_set_before() {
    let payload = NewSandboxPayload::new(mention())
        .with_tags(vec!["old".to_string()])
        .with_tags(vec!["new".to_string()])
        .with_instructions("old".to_string())
        .with_instructions("new".to_string())
        .with_env(env_of(&[("OLD", "1")]))
        .with_env(env_of(&[("NEW", "2")]));
    assert_eq!(payload.tags, vec!["new".to_string()]);
    assert_eq!(payload.instructions, Some("new".to_string()));
    assert_eq!(payload.env.get("OLD"), None);
    assert_eq!(payload.env.get("NEW"), Some(&"2".to_string()));
}

#[test]
fn tag_array_is_an_array_of_strings() {
    assert_eq!(tag_array(&Vec::new()), parse("[]"));
    assert_eq!(tag_array(&vec!["a".to_string(), "".to_string()]), parse("[\"a\",\"\"]"));
}

#[test]
fn env_object_is_an_object_of_strings() {
    assert_eq!(env_object(&EnvMap::new()), parse("{}"));
    assert_eq!(env_object(&env_of(&[("A", "1"), ("B", "")])), parse("{\"A\":\"1\",\"B\":\"\"}"));
}

#[test]
fn payload_can_be_sent_again() {
    let payload = NewSandboxPayload::new(mention())
        .with_tags(vec!["mention-12345".to_string()])
        .with_env(env_of(&[("A", "1")]));
    let first = payload.to_json();
    let second = payload.to_json();
    assert_eq!(first, second);
    assert_eq!(payload.metadata, mention());
    assert_eq!(payload.tags, vec!["mention-12345".to_string()]);
}
