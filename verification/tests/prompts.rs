use hass_mcp::error::ServerError;
use hass_mcp::prompts::{
    code_review_prompt, example_prompt, get_all_prompts, get_prompt_by_name, render, substitute,
    substitute_entries, substitution_text, ArgumentSpec, PromptDefinition, PromptRegistry,
};
use hass_mcp::text::{has_prefix, same_text};
use serde_json::{Number, Value};

type Object = serde_json::Map<String, Value>;

fn arg(name: &str, required: bool) -> ArgumentSpec {
    ArgumentSpec { name: name.to_string(), description: None, required }
}

fn text_args(entries: &[(&str, &str)]) -> Object {
    let mut m = Object::new();
    for (k, v) in entries {
        m.insert(k.to_string(), Value::String(v.to_string()));
    }
    m
}

#[test]
fn render_replaces_a_required_argument() {
    let spec = vec![arg("name", true)];
    let out = render("Hi {name}", Some(text_args(&[("name", "Ada")])), &spec);
    assert_eq!(out, Ok("Hi Ada".to_string()));
}

#[test]
fn render_without_placeholders_returns_the_template() {
    let spec = vec![arg("name", false)];
    let args = text_args(&[("name", "Ada"), ("other", "x")]);
    assert_eq!(render("plain text", Some(args), &spec), Ok("plain text".to_string()));
    assert_eq!(render("plain text", None, &spec), Ok("plain text".to_string()));
    assert_eq!(render("", Some(Object::new()), &spec), Ok(String::new()));
}

#[test]
fn render_reports_the_missing_required_argument() {
    let prompt = code_review_prompt();
    let out = prompt.process(Some(text_args(&[("language", "rust")])));
    assert_eq!(out, Err(ServerError::MissingArgument("code".to_string())));
}

#[test]
fn render_reports_the_first_missing_argument_in_schema_order() {
    let prompt = code_review_prompt();
    let out = prompt.process(Some(Object::new()));
    assert_eq!(out, Err(ServerError::MissingArgument("language".to_string())));
    let spec = vec![arg("a", false), arg("b", true), arg("c", true)];
    let out = render("x", Some(text_args(&[("c", "1")])), &spec);
    assert_eq!(out, Err(ServerError::MissingArgument("b".to_string())));
}

#[test]
fn render_with_absent_arguments_fails_when_one_is_required() {
    let spec = vec![arg("name", true)];
    assert_eq!(
        render("Hi {name}", None, &spec),
        Err(ServerError::MissingArgument("name".to_string()))
    );
}

#[test]
fn render_with_absent_arguments_and_no_required_one_keeps_the_template() {
    let spec = vec![arg("name", false)];
    assert_eq!(render("Hi {name}", None, &spec), Ok("Hi {name}".to_string()));
    let none: Vec<ArgumentSpec> = Vec::new();
    assert_eq!(render("Hi {name}", None, &none), Ok("Hi {name}".to_string()));
}

#[test]
fn render_replaces_every_occurrence() {
    let prompt = code_review_prompt();
    let out = prompt.process(Some(text_args(&[("language", "rust"), ("code", "fn main() {}")])));
    assert_eq!(
        out,
        Ok("Please review this rust code, and provide me the top 3 things I need to do to improve it:\n\nrust\nfn main() {}\n".to_string())
    );
}

#[test]
fn render_ignores_extra_arguments_and_leaves_unknown_placeholders() {
    let spec = vec![arg("a", true)];
    let args = text_args(&[("a", "1"), ("zzz", "unused")]);
    assert_eq!(render("{a} {b} {a}", Some(args), &spec), Ok("1 {b} 1".to_string()));
}

#[test]
fn render_substitutes_in_key_order_over_earlier_results() {
    let spec: Vec<ArgumentSpec> = Vec::new();
    let args = text_args(&[("b", "X"), ("a", "{b}")]);
    assert_eq!(render("{a}", Some(args), &spec), Ok("X".to_string()));
    let args = text_args(&[("a", "Y"), ("b", "{a}")]);
    assert_eq!(render("{b}", Some(args), &spec), Ok("{a}".to_string()));
}

#[test]
fn render_prints_other_values_as_json() {
    let spec: Vec<ArgumentSpec> = Vec::new();
    let mut inner = Object::new();
    inner.insert("k".to_string(), Value::Number(Number::from(1)));
    let mut args = Object::new();
    args.insert("n".to_string(), Value::Number(Number::from(42)));
    args.insert("b".to_string(), Value::Bool(true));
    args.insert("z".to_string(), Value::Null);
    args.insert("o".to_string(), Value::Object(inner));
    args.insert(
        "l".to_string(),
        Value::Array(vec![Value::String("a".to_string()), Value::Number(Number::from(2))]),
    );
    args.insert("s".to_string(), Value::String("plain \"text\"".to_string()));
    let out = render("{n}|{b}|{z}|{o}|{l}|{s}", Some(args), &spec);
    assert_eq!(out, Ok("42|true|null|{\"k\":1}|[\"a\",2]|plain \"text\"".to_string()));
}

#[test]
fn substitution_text_of_strings_and_other_values() {
    assert_eq!(substitution_text(&Value::String("hello".to_string())), "hello");
    assert_eq!(substitution_text(&Value::Bool(false)), "false");
    assert_eq!(substitution_text(&Value::Number(Number::from(7))), "7");
    assert_eq!(substitution_text(&Value::Array(Vec::new())), "[]");
}

#[test]
fn substitute_replaces_the_token_of_one_key() {
    assert_eq!(substitute("a {k} b {k}{k}", "k", "v"), "a v b vv");
    assert_eq!(substitute("no token", "k", "v"), "no token");
    assert_eq!(substitute("{k", "k", "v"), "{k");
    assert_eq!(substitute("{}", "", "v"), "v");
    assert_eq!(substitute("{{k}}", "k", "{k}"), "{{k}}");
}

#[test]
fn substitute_entries_goes_through_the_entries_in_order() {
    let entries = vec![
        ("a".to_string(), Value::String("{b}".to_string())),
        ("b".to_string(), Value::Number(Number::from(3))),
    ];
    assert_eq!(substitute_entries("{a}-{b}", &entries), "3-3");
    let reversed = vec![
        ("b".to_string(), Value::Number(Number::from(3))),
        ("a".to_string(), Value::String("{b}".to_string())),
    ];
    assert_eq!(substitute_entries("{a}-{b}", &reversed), "{b}-3");
    assert_eq!(substitute_entries("{a}", &Vec::new()), "{a}");
}

#[test]
fn has_prefix_and_same_text() {
    assert!(has_prefix("light.kitchen", "light."));
    assert!(has_prefix("light.", "light."));
    assert!(has_prefix("anything", ""));
    assert!(!has_prefix("ligh", "light."));
    assert!(!has_prefix("xlight.a", "light."));
    assert!(same_text("abc", "abc"));
    assert!(same_text("", ""));
    assert!(!same_text("abc", "abd"));
    assert!(!same_text("abc", "ab"));
    assert!(!same_text("ab", "abc"));
    assert!(same_text("h\u{e9}", "h\u{e9}"));
}

#[test]
fn prompt_definition_new_keeps_its_parts() {
    let p = PromptDefinition::new("n", Some("d"), vec![arg("a", true)], "t {a}");
    assert_eq!(p.name, "n");
    assert_eq!(p.description, Some("d".to_string()));
    assert_eq!(p.arguments, vec![arg("a", true)]);
    assert_eq!(p.template, "t {a}");
    let q = PromptDefinition::new("n", None, Vec::new(), "");
    assert_eq!(q.description, None);
    let copy = p.clone();
    assert_eq!(copy, p);
}

#[test]
fn to_mcp_prompt_lists_name_description_and_arguments() {
    let p = example_prompt();
    let d = p.to_mcp_prompt();
    assert_eq!(d.name, "example_prompt");
    assert_eq!(
        d.description,
        Some("This is an example prompt that takes one argument, message".to_string())
    );
    let arguments = d.arguments.expect("arguments are listed");
    assert_eq!(arguments.len(), 1);
    assert_eq!(arguments[0].name, "message");
    assert_eq!(arguments[0].description, Some("A message to put in the prompt".to_string()));
    assert!(arguments[0].required);
}

#[test]
fn builtin_registry_holds_the_two_prompts() {
    let registry = PromptRegistry::builtin();
    let listed = registry.list();
    assert_eq!(listed.len(), 2);
    assert_eq!(listed[0].name, "example_prompt");
    assert_eq!(listed[1].name, "code_review");
    let code_review = registry.get("code_review").expect("code_review is built in");
    assert_eq!(code_review.arguments.len(), 2);
    assert_eq!(code_review.arguments[0].name, "language");
    assert_eq!(code_review.arguments[0].description, Some("Programming language".to_string()));
    assert_eq!(code_review.arguments[1].name, "code");
    assert_eq!(code_review.arguments[1].description, Some("Code to review".to_string()));
    assert!(code_review.arguments[0].required && code_review.arguments[1].required);
    assert!(registry.get("example_prompt").is_some());
    assert!(registry.get("Example_prompt").is_none());
    assert!(registry.get("").is_none());
}

#[test]
fn get_all_prompts_and_get_prompt_by_name() {
    let registry = PromptRegistry::builtin();
    let all = get_all_prompts(&registry);
    assert_eq!(all.len(), 2);
    assert_eq!(all[0], example_prompt().to_mcp_prompt());
    assert_eq!(all[1], code_review_prompt().to_mcp_prompt());
    assert_eq!(get_prompt_by_name(&registry, "example_prompt"), Some(&example_prompt()));
    assert_eq!(get_prompt_by_name(&registry, "code_review"), Some(&code_review_prompt()));
    assert_eq!(get_prompt_by_name(&registry, "nonexistent"), None);
    assert_eq!(
        example_prompt().template,
        "This is an example prompt with your message here: '{message}'"
    );
}
