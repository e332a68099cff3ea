use grammarbot::{Error, Json, JsonError, Response};

fn to_json(v: &serde_json::Value) -> Json {
    match v {
        serde_json::Value::Null => Json::Null,
        serde_json::Value::Bool(b) => Json::Bool(*b),
        serde_json::Value::Number(n) => match (n.as_u64(), n.as_i64()) {
            (Some(u), _) => Json::UInt(u),
            (None, Some(i)) => Json::NegInt(i),
            _ => Json::Fraction,
        },
        serde_json::Value::String(s) => Json::Str(s.clone()),
        serde_json::Value::Array(a) => Json::Array(a.iter().map(to_json).collect()),
        serde_json::Value::Object(m) => {
            Json::Object(m.iter().map(|(k, v)| (k.clone(), to_json(v))).collect())
        }
    }
}

fn parse(text: &str) -> Json {
    to_json(&serde_json::from_str::<serde_json::Value>(text).unwrap())
}

const SAMPLE: &str = r#"{
  "software": {"name": "GrammarBot", "version": "4.3.1", "apiVersion": 1,
               "premium": false, "premiumHint": "You might be missing errors",
               "status": ""},
  "warnings": {"incompleteResults": false},
  "language": {"name": "English (US)", "code": "en-US",
               "detectedLanguage": {"name": "English (US)", "code": "en-US"}},
  "matches": [
    {"message": "Statistics suggests that 'there' might be the correct word here.",
     "shortMessage": "",
     "replacements": [{"value": "there"}],
     "offset": 27, "length": 5,
     "context": {"text": "I can't remember how to go their.", "offset": 27, "length": 5},
     "sentence": "I can't remember how to go their.",
     "type": {"typeName": "Hint"},
     "rule": {"id": "CONFUSION_RULE", "description": "Statistically detect wrong use of words",
              "issueType": "non-conformance",
              "category": {"id": "TYPOS", "name": "Possible Typo"}}}
  ]
}"#;

fn sample_without(member: &str) -> Json {
    let mut v: serde_json::Value = serde_json::from_str(SAMPLE).unwrap();
    v["matches"][0].as_object_mut().unwrap().remove(member);
    to_json(&v)
}

#[test]
fn known_bad_sentence_match() {
    let r = Response::from_reply(Ok(Ok(parse(SAMPLE)))).unwrap();
    assert!(!r.matches.is_empty());
    let m = &r.matches[0];
    assert_eq!(m.offset, 27);
    assert_eq!(m.length, 5);
    assert_eq!(m.rule.id, "CONFUSION_RULE");
    assert_eq!(m.rule.category.id, "TYPOS");
    assert_eq!(m.rule.category.name, "Possible Typo");
    assert_eq!(m.rule.issue_type, "non-conformance");
    assert_eq!(m.type_.name, "Hint");
    assert_eq!(m.replacements.len(), 1);
    assert_eq!(m.replacements[0].value, "there");
    assert_eq!(m.context.text, "I can't remember how to go their.");
    assert_eq!(m.context.offset, 27);
    assert_eq!(m.sentence, "I can't remember how to go their.");
}

#[test]
fn sample_top_level_fields() {
    let r = Response::from_reply(Ok(Ok(parse(SAMPLE)))).unwrap();
    assert_eq!(r.software.name, "GrammarBot");
    assert_eq!(r.software.version, "4.3.1");
    assert_eq!(r.software.api_version, 1);
    assert!(!r.software.premium);
    assert_eq!(r.software.premium_hint, "You might be missing errors");
    assert_eq!(r.software.status, "");
    assert!(!r.warnings.incomplete_results);
    assert_eq!(r.language.code, "en-US");
    assert_eq!(r.language.detected_language.name, "English (US)");
}

#[test]
fn missing_rule_is_invalid_json() {
    let r = Response::from_reply(Ok(Ok(sample_without("rule"))));
    assert!(matches!(r, Err(Error::InvalidJSON { source: JsonError::Schema })));
}

#[test]
fn missing_offset_is_invalid_json() {
    let r = Response::from_json(&sample_without("offset"));
    assert!(r.is_none());
}

#[test]
fn wrong_type_is_invalid_json() {
    let mut v: serde_json::Value = serde_json::from_str(SAMPLE).unwrap();
    v["warnings"]["incompleteResults"] = serde_json::Value::String("no".to_string());
    let r = Response::from_reply(Ok(Ok(to_json(&v))));
    assert!(matches!(r, Err(Error::InvalidJSON { source: JsonError::Schema })));
}

#[test]
fn api_version_out_of_range() {
    let mut v: serde_json::Value = serde_json::from_str(SAMPLE).unwrap();
    v["software"]["apiVersion"] = serde_json::Value::from(256u64);
    assert!(Response::from_json(&to_json(&v)).is_none());
    v["software"]["apiVersion"] = serde_json::Value::from(255u64);
    assert_eq!(Response::from_json(&to_json(&v)).unwrap().software.api_version, 255);
}

#[test]
fn offset_limits() {
    let mut v: serde_json::Value = serde_json::from_str(SAMPLE).unwrap();
    v["matches"][0]["offset"] = serde_json::Value::from(4294967295u64);
    assert_eq!(Response::from_json(&to_json(&v)).unwrap().matches[0].offset, u32::MAX);
    v["matches"][0]["offset"] = serde_json::Value::from(4294967296u64);
    assert!(Response::from_json(&to_json(&v)).is_none());
    v["matches"][0]["offset"] = serde_json::Value::from(-1i64);
    assert!(Response::from_json(&to_json(&v)).is_none());
    v["matches"][0]["offset"] = serde_json::Value::from(1.5f64);
    assert!(Response::from_json(&to_json(&v)).is_none());
}

#[test]
fn empty_matches_and_extra_members() {
    let mut v: serde_json::Value = serde_json::from_str(SAMPLE).unwrap();
    v["matches"] = serde_json::Value::Array(Vec::new());
    v["unused"] = serde_json::Value::from(3u64);
    let r = Response::from_json(&to_json(&v)).unwrap();
    assert!(r.matches.is_empty());
}

#[test]
fn not_an_object() {
    assert!(Response::from_json(&Json::Null).is_none());
    assert!(Response::from_json(&Json::Array(Vec::new())).is_none());
}

#[test]
fn transport_failure_is_request_failed() {
    let r = Response::from_reply(Err("connection refused".to_string()));
    match r {
        Err(Error::RequestFailed { message }) => assert_eq!(message, "connection refused"),
        _ => panic!("expected a request failure"),
    }
}

#[test]
fn unreachable_host_is_request_failed() {
    let sent = reqwest::Client::new().get("http://127.0.0.1:1/v2/check").send();
    let reply = match sent {
        Ok(_) => panic!("nothing should listen there"),
        Err(e) => Err(e.to_string()),
    };
    assert!(matches!(Response::from_reply(reply), Err(Error::RequestFailed { .. })));
}

#[test]
fn unreadable_body_is_invalid_json() {
    let err = serde_json::from_str::<serde_json::Value>("{not json").unwrap_err();
    let reply = Ok(Err(JsonError::Syntax { message: err.to_string() }));
    assert!(matches!(
        Response::from_reply(reply),
        Err(Error::InvalidJSON { source: JsonError::Syntax { .. } })
    ));
}

#[test]
fn first_duplicate_member_is_read() {
    let j = Json::Object(vec![
        ("value".to_string(), Json::Str("a".to_string())),
        ("value".to_string(), Json::Str("b".to_string())),
    ]);
    let r = grammarbot::Replacement::from_json(&j).unwrap();
    assert_eq!(r.value, "a");
}
