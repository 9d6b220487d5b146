//! Prompt templates: their argument schema, the rendering of a template
//! against supplied arguments, and the catalogue of built-in prompts.

use crate::error::ServerError;
use crate::json::{
    has_key, map_contains_key, map_entries, map_into_entries, pairs, value_as_str, value_json,
    value_string, value_to_json,
};
use crate::text::{
    lemma_replace_absent, occurs, occurs_at, replace_all, replace_text, same_text,
};
use vstd::prelude::*;
use vstd::string::*;

verus! {

/// One declared argument of a prompt.
#[derive(Debug, PartialEq)]
pub struct ArgumentSpec {
    pub name: String,
    pub description: Option<String>,
    pub required: bool,
}

impl Clone for ArgumentSpec {
    fn clone(&self) -> (r: Self)
        ensures
            r == *self,
    {
        ArgumentSpec {
            name: self.name.clone(),
            description: clone_text_option(&self.description),
            required: self.required,
        }
    }
}

/// A copy of an optional text.
pub fn clone_text_option(text: &Option<String>) -> (r: Option<String>)
    ensures
        r == *text,
{
    match text {
        Some(s) => Some(s.clone()),
        None => None,
    }
}

/// A copy of an argument schema.
pub fn clone_arguments(arguments: &Vec<ArgumentSpec>) -> (r: Vec<ArgumentSpec>)
    ensures
        r@ == arguments@,
{
    let mut copy: Vec<ArgumentSpec> = Vec::new();
    let mut i: usize = 0;
    while i < arguments.len()
        invariant
            i <= arguments.len(),
            copy@ == arguments@.take(i as int),
        decreases arguments.len() - i,
    {
        copy.push(arguments[i].clone());
        assert(arguments@.take(i as int).push(arguments@[i as int]) =~= arguments@.take(i + 1));
        i += 1;
    }
    assert(arguments@.take(arguments@.len() as int) =~= arguments@);
    copy
}

/// The token that stands for the argument `key` in a template: the key
/// between braces.
pub open spec fn placeholder(key: Seq<char>) -> Seq<char> {
    seq!['{'] + key + seq!['}']
}

/// The text put in for a value: a string's own text, and the JSON text of
/// any other value.
pub open spec fn substitution(v: serde_json::Value) -> Seq<char> {
    match value_string(v) {
        Some(s) => s,
        None => value_json(v),
    }
}

/// The template after the entries were substituted one after the other,
/// first entry first, each over the result of the one before.
pub open spec fn substitute_all(
    template: Seq<char>,
    entries: Seq<(Seq<char>, serde_json::Value)>,
) -> Seq<char>
    decreases entries.len(),
{
    if entries.len() == 0 {
        template
    } else {
        replace_all(
            substitute_all(template, entries.drop_last()),
            placeholder(entries.last().0),
            substitution(entries.last().1),
        )
    }
}

/// What rendering reads of an argument schema: each argument's name and
/// whether it is required.
pub open spec fn schema(spec: Seq<ArgumentSpec>) -> Seq<(Seq<char>, bool)> {
    spec.map_values(|a: ArgumentSpec| (a.name@, a.required))
}

/// The name of the first required argument, in schema order, that no entry
/// supplies.
pub open spec fn first_missing(
    schema: Seq<(Seq<char>, bool)>,
    entries: Seq<(Seq<char>, serde_json::Value)>,
) -> Option<Seq<char>>
    decreases schema.len(),
{
    if schema.len() == 0 {
        None
    } else if schema[0].1 && !has_key(entries, schema[0].0) {
        Some(schema[0].0)
    } else {
        first_missing(schema.drop_first(), entries)
    }
}

/// What rendering gives: the name of the first missing required argument,
/// or else the template with every entry substituted.
pub open spec fn rendering(
    template: Seq<char>,
    schema: Seq<(Seq<char>, bool)>,
    entries: Seq<(Seq<char>, serde_json::Value)>,
) -> Result<Seq<char>, Seq<char>> {
    match first_missing(schema, entries) {
        Some(name) => Err(name),
        None => Ok(substitute_all(template, entries)),
    }
}

/// Whether `r` is the outcome `expected`: the rendered text, or the error
/// that names the missing argument.
pub open spec fn is_rendering(
    r: Result<String, ServerError>,
    expected: Result<Seq<char>, Seq<char>>,
) -> bool {
    match expected {
        Ok(t) => r matches Ok(text) && text@ == t,
        Err(name) => r matches Err(ServerError::MissingArgument(n)) && n@ == name,
    }
}

/// Rendering fails exactly when some required argument is not supplied.
pub proof fn lemma_missing_iff_required_absent(
    schema: Seq<(Seq<char>, bool)>,
    entries: Seq<(Seq<char>, serde_json::Value)>,
)
    ensures
        first_missing(schema, entries) is Some <==> exists|k: int|
            0 <= k < schema.len() && (#[trigger] schema[k]).1 && !has_key(entries, schema[k].0),
    decreases schema.len(),
{
    if schema.len() > 0 {
        let rest = schema.drop_first();
        lemma_missing_iff_required_absent(rest, entries);
        if schema[0].1 && !has_key(entries, schema[0].0) {
        } else {
            if first_missing(rest, entries) is Some {
                let k = choose|k: int|
                    0 <= k < rest.len() && (#[trigger] rest[k]).1 && !has_key(entries, rest[k].0);
                assert(schema[k + 1] == rest[k]);
            }
            if exists|k: int|
                0 <= k < schema.len() && (#[trigger] schema[k]).1 && !has_key(
                    entries,
                    schema[k].0,
                ) {
                let k = choose|k: int|
                    0 <= k < schema.len() && (#[trigger] schema[k]).1 && !has_key(
                        entries,
                        schema[k].0,
                    );
                assert(rest[k - 1] == schema[k]);
            }
        }
    }
}

/// The entries that an optional argument object supplies: none when it is
/// absent.
pub open spec fn supplied(args: Option<serde_json::Map<String, serde_json::Value>>) -> Seq<
    (Seq<char>, serde_json::Value),
> {
    match args {
        Some(m) => map_entries(m),
        None => Seq::empty(),
    }
}

/// A template without an opening brace holds no placeholder.
pub open spec fn free_of_placeholders(template: Seq<char>) -> bool {
    forall|i: int| 0 <= i < template.len() ==> template[i] != '{'
}

/// Substituting into a template that holds no placeholder changes nothing,
/// whatever the arguments are.
pub proof fn lemma_substitute_without_placeholders(
    template: Seq<char>,
    entries: Seq<(Seq<char>, serde_json::Value)>,
)
    requires
        free_of_placeholders(template),
    ensures
        substitute_all(template, entries) == template,
    decreases entries.len(),
{
    if entries.len() > 0 {
        lemma_substitute_without_placeholders(template, entries.drop_last());
        let pat = placeholder(entries.last().0);
        if occurs(template, pat) {
            let i = choose|i: int| occurs_at(template, pat, i);
            assert(template.subrange(i, i + pat.len())[0] == pat[0]);
            assert(template[i] == '{');
        }
        lemma_replace_absent(template, pat, substitution(entries.last().1));
    }
}

/// Substituting entries none of whose placeholders occurs in the template
/// changes nothing.
pub proof fn lemma_substitute_unreferenced(
    template: Seq<char>,
    entries: Seq<(Seq<char>, serde_json::Value)>,
)
    requires
        forall|k: int|
            0 <= k < entries.len() ==> !occurs(template, placeholder(#[trigger] entries[k].0)),
    ensures
        substitute_all(template, entries) == template,
    decreases entries.len(),
{
    if entries.len() > 0 {
        let front = entries.drop_last();
        assert forall|k: int| 0 <= k < front.len() implies !occurs(
            template,
            placeholder(#[trigger] front[k].0),
        ) by {
            assert(front[k] == entries[k]);
        }
        lemma_substitute_unreferenced(template, front);
        let last = entries[entries.len() - 1];
        lemma_replace_absent(template, placeholder(last.0), substitution(last.1));
    }
}

/// Rendering a template that holds no placeholder gives the template back
/// unchanged, whatever arguments are supplied, as long as they include the
/// required ones.
pub proof fn lemma_render_without_placeholders(
    template: Seq<char>,
    schema: Seq<(Seq<char>, bool)>,
    entries: Seq<(Seq<char>, serde_json::Value)>,
)
    requires
        free_of_placeholders(template),
        first_missing(schema, entries) is None,
    ensures
        rendering(template, schema, entries) == Ok::<Seq<char>, Seq<char>>(template),
{
    lemma_substitute_without_placeholders(template, entries);
}

/// The text to put in for a value.
pub fn substitution_text(v: &serde_json::Value) -> (r: String)
    ensures
        r@ == substitution(*v),
{
    match value_as_str(v) {
        Some(s) => s.to_owned(),
        None => value_to_json(v),
    }
}

/// The template with every occurrence of the placeholder of `key` replaced
/// by `text`.
pub fn substitute(template: &str, key: &str, text: &str) -> (r: String)
    ensures
        r@ == replace_all(template@, placeholder(key@), text@),
{
    proof {
        reveal_strlit("{");
        reveal_strlit("}");
    }
    let token = String::from_str("{").concat(key).concat("}");
    assert(token@ =~= placeholder(key@));
    replace_text(template, token.as_str(), text)
}

/// The template with the entries substituted in order.
pub fn substitute_entries(template: &str, entries: &Vec<(String, serde_json::Value)>) -> (r: String)
    ensures
        r@ == substitute_all(template@, pairs(entries@)),
{
    let mut result = template.to_owned();
    let mut i: usize = 0;
    while i < entries.len()
        invariant
            i <= entries.len(),
            result@ == substitute_all(template@, pairs(entries@).take(i as int)),
        decreases entries.len() - i,
    {
        let text = substitution_text(&entries[i].1);
        result = substitute(result.as_str(), entries[i].0.as_str(), text.as_str());
        proof {
            let upto = pairs(entries@).take(i + 1);
            assert(upto.drop_last() =~= pairs(entries@).take(i as int));
            assert(upto.last() == (entries@[i as int].0@, entries@[i as int].1));
        }
        i += 1;
    }
    assert(pairs(entries@).take(entries@.len() as int) =~= pairs(entries@));
    result
}

/// The first required argument that `args` does not supply, if any.
pub fn find_missing(
    spec: &Vec<ArgumentSpec>,
    args: &Option<serde_json::Map<String, serde_json::Value>>,
) -> (r: Option<String>)
    ensures
        match first_missing(schema(spec@), supplied(*args)) {
            Some(name) => r matches Some(n) && n@ == name,
            None => r is None,
        },
{
    let mut i: usize = 0;
    let ghost all = schema(spec@);
    assert(all.subrange(0, all.len() as int) =~= all);
    while i < spec.len()
        invariant
            i <= spec.len(),
            all == schema(spec@),
            first_missing(all, supplied(*args)) == first_missing(
                all.subrange(i as int, all.len() as int),
                supplied(*args),
            ),
        decreases spec.len() - i,
    {
        let present = match args {
            Some(m) => map_contains_key(m, spec[i].name.as_str()),
            None => false,
        };
        proof {
            let rest = all.subrange(i as int, all.len() as int);
            assert(rest[0] == (spec@[i as int].name@, spec@[i as int].required));
            assert(rest.drop_first() =~= all.subrange(i + 1, all.len() as int));
        }
        if spec[i].required && !present {
            return Some(spec[i].name.clone());
        }
        i += 1;
    }
    None
}

/// Renders a template against the supplied arguments.
///
/// Fails with the name of the first required argument that is not
/// supplied; an absent argument object supplies nothing. Otherwise every
/// supplied entry is substituted for its placeholder, in the map's order.
/// Placeholders without an entry stay as they are, and entries without a
/// placeholder change nothing.
pub fn render(
    template: &str,
    args: Option<serde_json::Map<String, serde_json::Value>>,
    spec: &Vec<ArgumentSpec>,
) -> (r: Result<String, ServerError>)
    ensures
        is_rendering(r, rendering(template@, schema(spec@), supplied(args))),
{
    match find_missing(spec, &args) {
        Some(name) => Err(ServerError::MissingArgument(name)),
        None => {
            let entries: Vec<(String, serde_json::Value)> = match args {
                Some(m) => map_into_entries(m),
                None => Vec::new(),
            };
            assert(pairs(entries@) =~= supplied(args));
            Ok(substitute_entries(template, &entries))
        },
    }
}

/// The characters of an optional text.
pub open spec fn text_of(text: Option<String>) -> Option<Seq<char>> {
    match text {
        Some(s) => Some(s@),
        None => None,
    }
}

/// The description of each argument of a schema, in order.
pub open spec fn argument_notes(spec: Seq<ArgumentSpec>) -> Seq<Option<Seq<char>>> {
    spec.map_values(|a: ArgumentSpec| text_of(a.description))
}

/// One prompt: a named template with the arguments it declares.
#[derive(Debug, PartialEq)]
pub struct PromptDefinition {
    pub name: String,
    pub description: Option<String>,
    pub arguments: Vec<ArgumentSpec>,
    pub template: String,
}

/// A prompt as it is listed to callers: everything but the template.
#[derive(Debug, PartialEq)]
pub struct PromptDescriptor {
    pub name: String,
    pub description: Option<String>,
    pub arguments: Option<Vec<ArgumentSpec>>,
}

/// Whether `d` lists the prompt `p`.
pub open spec fn describes(d: PromptDescriptor, p: PromptDefinition) -> bool {
    d.name == p.name && d.description == p.description && (d.arguments matches Some(a) && a@
        == p.arguments@)
}

impl Clone for PromptDefinition {
    fn clone(&self) -> (r: Self)
        ensures
            r.name == self.name,
            r.description == self.description,
            r.arguments@ == self.arguments@,
            r.template == self.template,
    {
        PromptDefinition {
            name: self.name.clone(),
            description: clone_text_option(&self.description),
            arguments: clone_arguments(&self.arguments),
            template: self.template.clone(),
        }
    }
}

impl PromptDefinition {
    /// A prompt made of its parts.
    pub fn new(
        name: &str,
        description: Option<&str>,
        arguments: Vec<ArgumentSpec>,
        template: &str,
    ) -> (p: Self)
        ensures
            p.name@ == name@,
            match description {
                Some(d) => text_of(p.description) == Some(d@),
                None => p.description is None,
            },
            p.arguments == arguments,
            p.template@ == template@,
    {
        let description = match description {
            Some(d) => Some(d.to_owned()),
            None => None,
        };
        PromptDefinition { name: name.to_owned(), description, arguments, template: template.to_owned() }
    }

    /// The prompt as it is listed to callers.
    pub fn to_mcp_prompt(&self) -> (d: PromptDescriptor)
        ensures
            describes(d, *self),
    {
        PromptDescriptor {
            name: self.name.clone(),
            description: clone_text_option(&self.description),
            arguments: Some(clone_arguments(&self.arguments)),
        }
    }

    /// Renders this prompt's template against the supplied arguments.
    pub fn process(&self, arguments: Option<serde_json::Map<String, serde_json::Value>>) -> (r:
        Result<String, ServerError>)
        ensures
            is_rendering(r, rendering(self.template@, schema(self.arguments@), supplied(arguments))),
    {
        render(self.template.as_str(), arguments, &self.arguments)
    }
}

/// The schema of the example prompt: one required message.
pub open spec fn example_schema() -> Seq<(Seq<char>, bool)> {
    seq![("message"@, true)]
}

/// The template of the example prompt.
pub open spec fn example_template() -> Seq<char> {
    "This is an example prompt with your message here: '{message}'"@
}

/// The schema of the code review prompt: a required language and the
/// required code.
pub open spec fn code_review_schema() -> Seq<(Seq<char>, bool)> {
    seq![("language"@, true), ("code"@, true)]
}

/// The template of the code review prompt.
pub open spec fn code_review_template() -> Seq<char> {
    "Please review this {language} code, and provide me the top 3 things I need to do to improve it:\n\n{language}\n{code}\n"@
}

/// Whether a name, a description and arguments are those of the example
/// prompt.
pub open spec fn is_example(
    name: Seq<char>,
    description: Option<Seq<char>>,
    arguments: Seq<ArgumentSpec>,
) -> bool {
    &&& name == "example_prompt"@
    &&& description == Some("This is an example prompt that takes one argument, message"@)
    &&& schema(arguments) == example_schema()
    &&& argument_notes(arguments) == seq![Some("A message to put in the prompt"@)]
}

/// Whether a name, a description and arguments are those of the code
/// review prompt.
pub open spec fn is_code_review(
    name: Seq<char>,
    description: Option<Seq<char>>,
    arguments: Seq<ArgumentSpec>,
) -> bool {
    &&& name == "code_review"@
    &&& description == Some("This is an example prompt that takes one argument, message"@)
    &&& schema(arguments) == code_review_schema()
    &&& argument_notes(arguments) == seq![Some("Programming language"@), Some("Code to review"@)]
}

/// Whether `p` is the built-in example prompt.
pub open spec fn is_example_prompt(p: PromptDefinition) -> bool {
    is_example(p.name@, text_of(p.description), p.arguments@) && p.template@ == example_template()
}

/// Whether `p` is the built-in code review prompt.
pub open spec fn is_code_review_prompt(p: PromptDefinition) -> bool {
    is_code_review(p.name@, text_of(p.description), p.arguments@) && p.template@
        == code_review_template()
}

/// The template and schema of the built-in prompt of a given name.
pub open spec fn builtin_prompt(name: Seq<char>) -> Option<(Seq<char>, Seq<(Seq<char>, bool)>)> {
    if name == "example_prompt"@ {
        Some((example_template(), example_schema()))
    } else if name == "code_review"@ {
        Some((code_review_template(), code_review_schema()))
    } else {
        None
    }
}

/// A required argument with a description.
pub fn required_argument(name: &str, description: &str) -> (a: ArgumentSpec)
    ensures
        a.name@ == name@,
        text_of(a.description) == Some(description@),
        a.required,
{
    ArgumentSpec { name: name.to_owned(), description: Some(description.to_owned()), required: true }
}

/// The built-in example prompt.
pub fn example_prompt() -> (p: PromptDefinition)
    ensures
        is_example_prompt(p),
{
    let mut arguments: Vec<ArgumentSpec> = Vec::new();
    arguments.push(required_argument("message", "A message to put in the prompt"));
    assert(schema(arguments@) =~= example_schema());
    assert(argument_notes(arguments@) =~= seq![Some("A message to put in the prompt"@)]);
    PromptDefinition::new(
        "example_prompt",
        Some("This is an example prompt that takes one argument, message"),
        arguments,
        "This is an example prompt with your message here: '{message}'",
    )
}

/// The built-in code review prompt.
pub fn code_review_prompt() -> (p: PromptDefinition)
    ensures
        is_code_review_prompt(p),
{
    let mut arguments: Vec<ArgumentSpec> = Vec::new();
    arguments.push(required_argument("language", "Programming language"));
    arguments.push(required_argument("code", "Code to review"));
    assert(schema(arguments@) =~= code_review_schema());
    assert(argument_notes(arguments@) =~= seq![
        Some("Programming language"@),
        Some("Code to review"@),
    ]);
    PromptDefinition::new(
        "code_review",
        Some("This is an example prompt that takes one argument, message"),
        arguments,
        "Please review this {language} code, and provide me the top 3 things I need to do to improve it:\n\n{language}\n{code}\n",
    )
}

/// A read-only table of prompts, looked up by name.
#[derive(Debug, PartialEq)]
pub struct PromptRegistry {
    prompts: Vec<PromptDefinition>,
}

impl View for PromptRegistry {
    type V = Seq<PromptDefinition>;

    closed spec fn view(&self) -> Seq<PromptDefinition> {
        self.prompts@
    }
}

impl PromptRegistry {
    /// No two prompts of the table share a name.
    pub open spec fn wf(&self) -> bool {
        forall|i: int, j: int| 0 <= i < j < self@.len() ==> self@[i].name@ != self@[j].name@
    }

    /// The table of the built-in prompts: the example prompt, then the
    /// code review prompt.
    pub fn builtin() -> (r: Self)
        ensures
            r.wf(),
            r@.len() == 2,
            is_example_prompt(r@[0]),
            is_code_review_prompt(r@[1]),
    {
        let mut prompts: Vec<PromptDefinition> = Vec::new();
        prompts.push(example_prompt());
        prompts.push(code_review_prompt());
        proof {
            lemma_builtin_names_differ();
        }
        PromptRegistry { prompts }
    }

    /// Every prompt as it is listed to callers, in the table's order.
    pub fn list(&self) -> (r: Vec<PromptDescriptor>)
        ensures
            r@.len() == self@.len(),
            forall|i: int| 0 <= i < r@.len() ==> describes(#[trigger] r@[i], self@[i]),
    {
        let mut listed: Vec<PromptDescriptor> = Vec::new();
        let mut i: usize = 0;
        while i < self.prompts.len()
            invariant
                i <= self.prompts.len(),
                listed@.len() == i,
                forall|k: int| 0 <= k < i ==> describes(#[trigger] listed@[k], self.prompts@[k]),
            decreases self.prompts.len() - i,
        {
            listed.push(self.prompts[i].to_mcp_prompt());
            i += 1;
        }
        listed
    }

    /// The prompt of the given name, if the table holds one.
    pub fn get(&self, name: &str) -> (r: Option<&PromptDefinition>)
        ensures
            match r {
                Some(p) => p.name@ == name@ && exists|i: int|
                    0 <= i < self@.len() && #[trigger] self@[i] == *p,
                None => forall|i: int| 0 <= i < self@.len() ==> (#[trigger] self@[i]).name@ != name@,
            },
    {
        let mut i: usize = 0;
        while i < self.prompts.len()
            invariant
                i <= self.prompts.len(),
                forall|k: int| 0 <= k < i ==> (#[trigger] self.prompts@[k]).name@ != name@,
            decreases self.prompts.len() - i,
        {
            if same_text(self.prompts[i].name.as_str(), name) {
                assert(self@[i as int] == self.prompts@[i as int]);
                return Some(&self.prompts[i]);
            }
            i += 1;
        }
        None
    }
}

/// The two built-in prompts have different names.
pub proof fn lemma_builtin_names_differ()
    ensures
        "example_prompt"@ != "code_review"@,
{
    reveal_strlit("example_prompt");
    reveal_strlit("code_review");
    assert("example_prompt"@.len() != "code_review"@.len());
}

/// Every prompt of a table as it is listed to callers, in the table's
/// order.
pub fn get_all_prompts(registry: &PromptRegistry) -> (r: Vec<PromptDescriptor>)
    ensures
        r@.len() == registry@.len(),
        forall|i: int| 0 <= i < r@.len() ==> describes(#[trigger] r@[i], registry@[i]),
{
    registry.list()
}

/// The prompt of the given name in a table, if the table holds one.
pub fn get_prompt_by_name<'a>(registry: &'a PromptRegistry, name: &str) -> (r: Option<
    &'a PromptDefinition,
>)
    ensures
        match r {
            Some(p) => p.name@ == name@ && exists|i: int|
                0 <= i < registry@.len() && #[trigger] registry@[i] == *p,
            None => forall|i: int|
                0 <= i < registry@.len() ==> (#[trigger] registry@[i]).name@ != name@,
        },
{
    registry.get(name)
}

} // verus!
