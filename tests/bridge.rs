use go_template::{
    check_nul_escape, marshal, prepare_invocation, prepare_render, prepare_serialized,
    serialization_outcome, serialize_data, translate, BoundaryField, ErrorKind, GuardStep, MissingKeyPolicy, Render, RenderOptions, ResultGuard, Slot, TemplateError,
};
use serde::ser::{Error as _, SerializeStruct};
use serde::{Serialize, Serializer};

struct Person {
    name: String,
    age: u32,
}

impl Serialize for Person {
    fn serialize<S: Serializer>(&self, serializer: S) -> Result<S::Ok, S::Error> {
        let mut s = serializer.serialize_struct("Person", 2)?;
        s.serialize_field("name", &self.name)?;
        s.serialize_field("age", &self.age)?;
        s.end()
    }
}

struct NonSerializable;

impl Serialize for NonSerializable {
    fn serialize<S: Serializer>(&self, _serializer: S) -> Result<S::Ok, S::Error> {
        Err(S::Error::custom("failed to serialize intentionally"))
    }
}

fn invalid(field: BoundaryField, position: usize) -> TemplateError {
    TemplateError { kind: ErrorKind::InvalidInput { field, position }, message: String::new() }
}

fn execution(message: &str) -> TemplateError {
    TemplateError { kind: ErrorKind::Execution, message: message.to_string() }
}

fn terminated(s: &str) -> Vec<u8> {
    let mut v = s.as_bytes().to_vec();
    v.push(0);
    v
}

/// Drives a guard as it asks, with the given texts, and counts the releases.
fn drive(output: &str, error: &str) -> (Result<String, TemplateError>, Vec<Slot>) {
    let mut guard = ResultGuard::new();
    let mut released = Vec::new();
    loop {
        match guard.next_step() {
            GuardStep::Copy(Slot::Output) => guard.record_copy(Slot::Output, output.to_string()),
            GuardStep::Copy(Slot::Error) => guard.record_copy(Slot::Error, error.to_string()),
            GuardStep::Release(slot) => {
                released.push(slot);
                guard.record_release(slot);
            }
            GuardStep::Finish => return (guard.finish(), released),
        }
    }
}

#[test]
fn marshal_appends_terminator() {
    assert_eq!(marshal("abc", BoundaryField::Template).unwrap(), vec![97, 98, 99, 0]);
}

#[test]
fn marshal_empty_is_just_terminator() {
    assert_eq!(marshal("", BoundaryField::Data).unwrap(), vec![0]);
}

#[test]
fn marshal_keeps_utf8_bytes() {
    assert_eq!(marshal("é", BoundaryField::Template).unwrap(), vec![0xc3, 0xa9, 0]);
}

#[test]
fn marshal_refuses_first_nul() {
    assert_eq!(
        marshal("a\0b\0", BoundaryField::Template),
        Err(invalid(BoundaryField::Template, 1))
    );
}

#[test]
fn options_default_is_safe() {
    let o = RenderOptions::new();
    assert!(o.escape_html);
    assert_eq!(o.missing_key, MissingKeyPolicy::ErrorOnMissing);
    assert!(!o.missing_key_zero());
    assert_eq!(RenderOptions::default(), o);
}

#[test]
fn options_setters_change_one_field() {
    let o = RenderOptions::new().escape_html(false);
    assert_eq!(o, RenderOptions { escape_html: false, missing_key: MissingKeyPolicy::ErrorOnMissing });
    let p = o.missing_key(MissingKeyPolicy::ZeroOnMissing);
    assert_eq!(p, RenderOptions { escape_html: false, missing_key: MissingKeyPolicy::ZeroOnMissing });
    assert!(p.missing_key_zero());
}

#[test]
fn prepare_invocation_builds_request() {
    let o = RenderOptions::new().missing_key(MissingKeyPolicy::ZeroOnMissing);
    let inv = prepare_invocation("Hi {{.x}}", "{\"x\":1}", o).unwrap();
    assert_eq!(inv.template_buffer(), terminated("Hi {{.x}}").as_slice());
    assert_eq!(inv.data_buffer(), terminated("{\"x\":1}").as_slice());
    assert!(inv.escape_html());
    assert!(inv.missing_key_zero());
}

#[test]
fn prepare_invocation_template_nul_first() {
    let r = prepare_invocation("x\0", "\0", RenderOptions::new());
    assert_eq!(
        r.err(),
        Some(invalid(BoundaryField::Template, 1))
    );
}

#[test]
fn prepare_invocation_data_nul() {
    let r = prepare_invocation("x", "ab\0", RenderOptions::new());
    assert_eq!(r.err(), Some(invalid(BoundaryField::Data, 2)));
}

#[test]
fn serialize_data_is_compact_json() {
    let p = Person { name: "MoYan".to_string(), age: 30 };
    assert_eq!(serialize_data(&p).unwrap(), "{\"name\":\"MoYan\",\"age\":30}");
}

#[test]
fn serialize_data_reports_failure() {
    let e = serialize_data(&NonSerializable).unwrap_err();
    assert_eq!(e.kind, ErrorKind::Serialization);
    assert!(e.message.contains("failed to serialize intentionally"));
}

#[test]
fn prepare_render_moyan_request() {
    let p = Person { name: "MoYan".to_string(), age: 30 };
    let template = "Hello, {{.name}}! You are {{.age}} years old.";
    let inv = prepare_render(template, &p, RenderOptions::new()).unwrap();
    assert_eq!(inv.template_buffer(), terminated(template).as_slice());
    assert_eq!(inv.data_buffer(), terminated("{\"name\":\"MoYan\",\"age\":30}").as_slice());
    assert!(inv.escape_html());
    assert!(!inv.missing_key_zero());
}

#[test]
fn prepare_render_serialization_failure() {
    let r = prepare_render("Hello, {{.Name}}!", &NonSerializable, RenderOptions::new());
    let e = r.err().unwrap();
    assert_eq!(e.kind, ErrorKind::Serialization);
    assert!(e.message.contains("failed to serialize intentionally"));
}

#[test]
fn prepare_render_template_nul() {
    let p = Person { name: "a".to_string(), age: 1 };
    let r = prepare_render("{{.name}}\0", &p, RenderOptions::new());
    assert_eq!(
        r.err(),
        Some(invalid(BoundaryField::Template, 9))
    );
}

#[test]
fn prepare_render_template_nul_before_serializing() {
    let r = prepare_render("\0", &NonSerializable, RenderOptions::new());
    assert_eq!(
        r.err(),
        Some(invalid(BoundaryField::Template, 0))
    );
}

#[test]
fn prepare_render_data_nul_is_refused() {
    let p = Person { name: "a\0b".to_string(), age: 1 };
    let r = prepare_render("{{.name}}", &p, RenderOptions::new());
    assert_eq!(r.err(), Some(invalid(BoundaryField::Data, 10)));
}

#[test]
fn prepare_render_data_nul_in_key_is_refused() {
    let mut m = serde_json::Map::new();
    m.insert("k\0".to_string(), serde_json::Value::Bool(true));
    let r = prepare_render("x", &serde_json::Value::Object(m), RenderOptions::new());
    assert_eq!(r.err(), Some(invalid(BoundaryField::Data, 3)));
}

#[test]
fn prepare_render_escaped_backslash_is_kept() {
    let p = Person { name: "\\u0000".to_string(), age: 1 };
    let inv = prepare_render("{{.name}}", &p, RenderOptions::new()).unwrap();
    assert_eq!(
        inv.data_buffer(),
        terminated("{\"name\":\"\\\\u0000\",\"age\":1}").as_slice()
    );
}

#[test]
fn check_nul_escape_finds_escape() {
    assert_eq!(check_nul_escape("[\"x\\u0000\"]"), Err(invalid(BoundaryField::Data, 3)));
}

#[test]
fn check_nul_escape_skips_escaped_backslash() {
    assert_eq!(check_nul_escape("[\"\\\\u0000\"]"), Ok(()));
    assert_eq!(check_nul_escape("[\"\\\\\\u0000\"]"), Err(invalid(BoundaryField::Data, 4)));
}

#[test]
fn check_nul_escape_other_escapes_pass() {
    assert_eq!(check_nul_escape("[\"\\u0001\\n\\u00000\"]"), Err(invalid(BoundaryField::Data, 10)));
    assert_eq!(check_nul_escape("[\"\\u0001\\t\"]"), Ok(()));
    assert_eq!(check_nul_escape("\\"), Ok(()));
    assert_eq!(check_nul_escape(""), Ok(()));
}

#[test]
fn prepare_invocation_data_escape_refused() {
    let r = prepare_invocation("x", "{\"a\":\"\\u0000\"}", RenderOptions::new());
    assert_eq!(r.err(), Some(invalid(BoundaryField::Data, 6)));
}

#[test]
fn serialization_outcome_passes_text() {
    assert_eq!(serialization_outcome(Ok("{}".to_string())), Ok("{}".to_string()));
}

#[test]
fn serialization_outcome_carries_message() {
    let raw = serde_json::from_str::<serde_json::Value>("{").unwrap_err();
    let text = raw.to_string();
    let e = serialization_outcome(Err(raw)).unwrap_err();
    assert_eq!(e.kind, ErrorKind::Serialization);
    assert_eq!(e.message, text);
}

#[test]
fn prepare_serialized_passes_failure_on() {
    let failure = TemplateError { kind: ErrorKind::Serialization, message: "bad".to_string() };
    let r = prepare_serialized("ok", Err(failure.clone()), RenderOptions::new());
    assert_eq!(r.err(), Some(failure.clone()));
    let r = prepare_serialized("\0", Err(failure), RenderOptions::new());
    assert_eq!(r.err(), Some(invalid(BoundaryField::Template, 0)));
}

#[test]
fn prepare_serialized_builds_request() {
    let inv = prepare_serialized("t", Ok("[1]".to_string()), RenderOptions::new()).unwrap();
    assert_eq!(inv.template_buffer(), terminated("t").as_slice());
    assert_eq!(inv.data_buffer(), terminated("[1]").as_slice());
}

#[test]
fn error_to_string_texts() {
    let e = prepare_render("Hello, {{.Name}}!", &NonSerializable, RenderOptions::new()).err().unwrap();
    assert!(e.to_string().contains("Failed to serialize data to JSON"));
    assert!(e.to_string().contains("failed to serialize intentionally"));
    assert_eq!(execution("boom").to_string(), "Go Template Error: boom");
    assert_eq!(
        invalid(BoundaryField::Template, 0).to_string(),
        "Go Template Error: Failed to convert template content to CString"
    );
    assert_eq!(
        invalid(BoundaryField::Data, 0).to_string(),
        "Go Template Error: Failed to convert JSON data string to CString"
    );
}

#[test]
fn options_change_only_flags() {
    let p = Person { name: "<b>&'\"".to_string(), age: 2 };
    let a = prepare_render("{{.name}}", &p, RenderOptions::new().escape_html(false)).unwrap();
    let b = prepare_render("{{.name}}", &p, RenderOptions::new().missing_key(MissingKeyPolicy::ZeroOnMissing)).unwrap();
    assert_eq!(a.template_buffer(), b.template_buffer());
    assert_eq!(a.data_buffer(), b.data_buffer());
    assert!(!a.escape_html() && b.escape_html());
    assert!(!a.missing_key_zero() && b.missing_key_zero());
}

#[test]
fn builder_defaults_and_build() {
    let p = Person { name: "Alice".to_string(), age: 30 };
    let r = Render::new("User: {{.name}}", &p);
    assert_eq!(r.options(), RenderOptions::new());
    let r = r.escape_html(false).missing_key(MissingKeyPolicy::ZeroOnMissing);
    assert_eq!(r.options(), RenderOptions { escape_html: false, missing_key: MissingKeyPolicy::ZeroOnMissing });
    let inv = r.build().unwrap();
    assert_eq!(inv.data_buffer(), terminated("{\"name\":\"Alice\",\"age\":30}").as_slice());
    assert!(!inv.escape_html());
    assert!(inv.missing_key_zero());
}

#[test]
fn builder_serialization_failure() {
    let r = Render::new("x", &NonSerializable).build();
    assert_eq!(r.err().map(|e| e.kind), Some(ErrorKind::Serialization));
}

#[test]
fn translate_success() {
    assert_eq!(
        translate("Hello, MoYan! You are 30 years old.".to_string(), String::new()),
        Ok("Hello, MoYan! You are 30 years old.".to_string())
    );
}

#[test]
fn translate_empty_output() {
    assert_eq!(translate(String::new(), String::new()), Ok(String::new()));
}

#[test]
fn translate_parse_error() {
    let msg = "Failed to parse HTML template: template: tpl:1: unclosed action";
    assert_eq!(
        translate(String::new(), msg.to_string()),
        Err(execution(msg))
    );
}

#[test]
fn translate_error_wins_over_output() {
    assert_eq!(
        translate("partial".to_string(), "boom".to_string()),
        Err(execution("boom"))
    );
}

#[test]
fn guard_copies_then_releases_each_once() {
    let mut guard = ResultGuard::new();
    assert_eq!(guard.next_step(), GuardStep::Copy(Slot::Output));
    guard.record_copy(Slot::Output, "out".to_string());
    assert_eq!(guard.next_step(), GuardStep::Copy(Slot::Error));
    guard.record_copy(Slot::Error, String::new());
    assert_eq!(guard.next_step(), GuardStep::Release(Slot::Output));
    guard.record_release(Slot::Output);
    assert_eq!(guard.next_step(), GuardStep::Release(Slot::Error));
    guard.record_release(Slot::Error);
    assert_eq!(guard.next_step(), GuardStep::Finish);
    assert_eq!(guard.finish(), Ok("out".to_string()));
}

#[test]
fn guard_outcome_on_engine_error() {
    let (r, released) = drive("ignored", "missing key");
    assert_eq!(r, Err(execution("missing key")));
    assert_eq!(released, vec![Slot::Output, Slot::Error]);
}

#[test]
fn guard_n_renders_release_two_each() {
    let mut total = 0usize;
    for i in 0..7 {
        let text = format!("render {}", i);
        let (r, released) = drive(&text, "");
        assert_eq!(r, Ok(text));
        total += released.len();
    }
    assert_eq!(total, 14);
}
