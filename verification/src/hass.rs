//! The server's own state and decisions: the entities last fetched, the
//! tools it offers, the request each tool sends to the backend, and what
//! each answer of the backend leads to.

use crate::error::{BackendFailure, ConfigKey, ServerError};
use crate::json::clone_value;
use crate::prompts::{
    builtin_prompt, describes, get_all_prompts, get_prompt_by_name, is_code_review, is_code_review_prompt, is_example,
    is_example_prompt, is_rendering, lemma_builtin_names_differ, rendering, supplied, text_of,
    PromptDescriptor, PromptRegistry,
};
use crate::text::{has_prefix, same_text};
use vstd::prelude::*;
use vstd::string::*;

verus! {

/// One device or sensor as the backend reports it.
#[derive(Debug, PartialEq)]
pub struct Entity {
    pub attributes: serde_json::Value,
    pub entity_id: String,
    pub last_changed: String,
    pub state: String,
}

impl Clone for Entity {
    fn clone(&self) -> (r: Self)
        ensures
            r == *self,
    {
        Entity {
            attributes: clone_value(&self.attributes),
            entity_id: self.entity_id.clone(),
            last_changed: self.last_changed.clone(),
            state: self.state.clone(),
        }
    }
}

impl Entity {
    /// An entity made of its parts.
    pub fn new(
        entity_id: String,
        state: String,
        last_changed: String,
        attributes: serde_json::Value,
    ) -> (e: Self)
        ensures
            e.entity_id == entity_id,
            e.state == state,
            e.last_changed == last_changed,
            e.attributes == attributes,
    {
        Entity { attributes, entity_id, last_changed, state }
    }
}

/// A list of entities as a whole.
#[derive(Debug, PartialEq)]
pub struct EntitiesData {
    pub _entities: Vec<Entity>,
}

/// Whether an identifier belongs to a light, a switch or a sensor.
pub open spec fn is_supported_id(id: Seq<char>) -> bool {
    "light."@.is_prefix_of(id) || "switch."@.is_prefix_of(id) || "sensor."@.is_prefix_of(id)
}

/// The entities that the server keeps.
pub open spec fn supported() -> spec_fn(Entity) -> bool {
    |e: Entity| is_supported_id(e.entity_id@)
}

/// Whether an identifier belongs to a light, a switch or a sensor.
pub fn is_supported(id: &str) -> (r: bool)
    ensures
        r == is_supported_id(id@),
{
    has_prefix(id, "light.") || has_prefix(id, "switch.") || has_prefix(id, "sensor.")
}

/// The lights, switches and sensors among `fetched`, in the order in which
/// they came.
pub fn retain_supported(fetched: &Vec<Entity>) -> (kept: Vec<Entity>)
    ensures
        kept@ == fetched@.filter(supported()),
{
    let mut kept: Vec<Entity> = Vec::new();
    let mut i: usize = 0;
    proof {
        reveal(Seq::filter);
        assert(fetched@.take(0).filter(supported()) =~= Seq::<Entity>::empty());
    }
    while i < fetched.len()
        invariant
            i <= fetched.len(),
            kept@ == fetched@.take(i as int).filter(supported()),
        decreases fetched.len() - i,
    {
        proof {
            fetched@.take(i as int).lemma_filter_push(fetched@[i as int], supported());
            assert(fetched@.take(i as int).push(fetched@[i as int]) =~= fetched@.take(i + 1));
        }
        if is_supported(fetched[i].entity_id.as_str()) {
            kept.push(fetched[i].clone());
        }
        i += 1;
    }
    assert(fetched@.take(fetched@.len() as int) =~= fetched@);
    kept
}

/// What is kept of a fetch holds only lights, switches and sensors, holds
/// every one of them that was fetched, and is no longer than what was
/// fetched.
pub proof fn lemma_kept_are_the_supported(fetched: Seq<Entity>)
    ensures
        forall|i: int|
            0 <= i < fetched.filter(supported()).len() ==> is_supported_id(
                (#[trigger] fetched.filter(supported())[i]).entity_id@,
            ),
        forall|i: int|
            0 <= i < fetched.len() && is_supported_id((#[trigger] fetched[i]).entity_id@)
                ==> fetched.filter(supported()).contains(fetched[i]),
        fetched.filter(supported()).len() <= fetched.len(),
{
    broadcast use vstd::seq_lib::group_filter_ensures;

    let kept = fetched.filter(supported());
    assert forall|i: int| 0 <= i < kept.len() implies is_supported_id(
        (#[trigger] kept[i]).entity_id@,
    ) by {
        assert(supported()(kept[i]));
    }
    assert forall|i: int|
        0 <= i < fetched.len() && is_supported_id((#[trigger] fetched[i]).entity_id@) implies kept.contains(
        fetched[i],
    ) by {
        assert(supported()(fetched[i]));
    }
}

/// Every kept entity was fetched.
pub proof fn lemma_kept_was_fetched(fetched: Seq<Entity>, i: int)
    requires
        0 <= i < fetched.filter(supported()).len(),
    ensures
        exists|a: int| 0 <= a < fetched.len() && fetched[a] == fetched.filter(supported())[i],
    decreases fetched.len(),
{
    reveal(Seq::filter);
    let front = fetched.drop_last();
    if i < front.filter(supported()).len() {
        lemma_kept_was_fetched(front, i);
        let a = choose|a: int| 0 <= a < front.len() && front[a] == front.filter(supported())[i];
        assert(fetched[a] == fetched.filter(supported())[i]);
    } else {
        assert(fetched[fetched.len() - 1] == fetched.filter(supported())[i]);
    }
}

/// Kept entities stand in the order in which they were fetched: of two of
/// them, the earlier one was fetched earlier.
pub proof fn lemma_kept_in_fetched_order(fetched: Seq<Entity>, i: int, j: int)
    requires
        0 <= i < j < fetched.filter(supported()).len(),
    ensures
        exists|a: int, b: int|
            0 <= a < b < fetched.len() && fetched[a] == fetched.filter(supported())[i]
                && fetched[b] == fetched.filter(supported())[j],
    decreases fetched.len(),
{
    reveal(Seq::filter);
    let kept = fetched.filter(supported());
    let front = fetched.drop_last();
    if j < front.filter(supported()).len() {
        lemma_kept_in_fetched_order(front, i, j);
        let (a, b) = choose|a: int, b: int|
            0 <= a < b < front.len() && front[a] == front.filter(supported())[i] && front[b]
                == front.filter(supported())[j];
        assert(fetched[a] == kept[i] && fetched[b] == kept[j]);
    } else {
        lemma_kept_was_fetched(front, i);
        let a = choose|a: int| 0 <= a < front.len() && front[a] == front.filter(supported())[i];
        let b = fetched.len() - 1;
        assert(fetched[a] == kept[i] && fetched[b] == kept[j]);
    }
}

/// A copy of a list of entities.
pub fn clone_entities(entities: &Vec<Entity>) -> (r: Vec<Entity>)
    ensures
        r@ == entities@,
{
    let mut copy: Vec<Entity> = Vec::new();
    let mut i: usize = 0;
    while i < entities.len()
        invariant
            i <= entities.len(),
            copy@ == entities@.take(i as int),
        decreases entities.len() - i,
    {
        copy.push(entities[i].clone());
        assert(entities@.take(i as int).push(entities@[i as int]) =~= entities@.take(i + 1));
        i += 1;
    }
    assert(entities@.take(entities@.len() as int) =~= entities@);
    copy
}

/// A call of one of the server's tools.
#[derive(Debug, PartialEq)]
pub enum ToolCall {
    /// Fetch the lights, switches and sensors.
    GetEntities,
    /// Switch the named entity on.
    TurnOn(String),
    /// Switch the named entity off.
    TurnOff(String),
}

/// The call that a tool name and an optional entity identifier stand for:
/// none for an unknown name, and none for a switching tool without an
/// identifier.
pub open spec fn call_named(name: Seq<char>, entity_id: Option<String>) -> Option<ToolCall> {
    if name == "get_entities"@ {
        Some(ToolCall::GetEntities)
    } else if name == "turn_on_entity"@ {
        match entity_id {
            Some(id) => Some(ToolCall::TurnOn(id)),
            None => None,
        }
    } else if name == "turn_off_entity"@ {
        match entity_id {
            Some(id) => Some(ToolCall::TurnOff(id)),
            None => None,
        }
    } else {
        None
    }
}

/// Whether a name is that of a tool that switches an entity.
pub open spec fn is_switch_name(name: Seq<char>) -> bool {
    name == "turn_on_entity"@ || name == "turn_off_entity"@
}

/// Reads a tool call from its name and its optional entity identifier. A
/// switching tool without an identifier lacks its parameter; any name but
/// the three is an unknown tool.
pub fn parse_call(name: &str, entity_id: Option<String>) -> (r: Result<ToolCall, ServerError>)
    ensures
        match r {
            Ok(call) => call_named(name@, entity_id) == Some(call),
            Err(e) => call_named(name@, entity_id) is None && if is_switch_name(name@) {
                e matches ServerError::MissingParameter(p) && p@ == "entity_id"@
            } else {
                e matches ServerError::UnknownTool(n) && n@ == name@
            },
        },
{
    if same_text(name, "get_entities") {
        Ok(ToolCall::GetEntities)
    } else if same_text(name, "turn_on_entity") {
        match entity_id {
            Some(id) => Ok(ToolCall::TurnOn(id)),
            None => Err(ServerError::MissingParameter(String::from_str("entity_id"))),
        }
    } else if same_text(name, "turn_off_entity") {
        match entity_id {
            Some(id) => Ok(ToolCall::TurnOff(id)),
            None => Err(ServerError::MissingParameter(String::from_str("entity_id"))),
        }
    } else {
        Err(ServerError::UnknownTool(name.to_owned()))
    }
}

/// How a request is sent.
#[derive(Debug, Clone, Copy, PartialEq, Eq, Structural)]
pub enum Method {
    Get,
    Post,
}

/// A request to the backend, ready to be sent.
#[derive(Debug, PartialEq)]
pub struct BackendRequest {
    pub method: Method,
    pub url: String,
    /// The value of the `Authorization` header.
    pub authorization: String,
    /// The value of the `Content-Type` header.
    pub content_type: String,
    /// The identifier to send as `entity_id` in a JSON body, if the
    /// request has a body.
    pub entity_id: Option<String>,
}

/// The path on the backend that a call goes to.
pub open spec fn call_path(call: ToolCall) -> Seq<char> {
    match call {
        ToolCall::GetEntities => "/api/states"@,
        ToolCall::TurnOn(_) => "/api/services/light/turn_on"@,
        ToolCall::TurnOff(_) => "/api/services/light/turn_off"@,
    }
}

/// How a call is sent.
pub open spec fn call_method(call: ToolCall) -> Method {
    match call {
        ToolCall::GetEntities => Method::Get,
        _ => Method::Post,
    }
}

/// The entity that a call switches, if it switches one.
pub open spec fn call_target(call: ToolCall) -> Option<Seq<char>> {
    match call {
        ToolCall::GetEntities => None,
        ToolCall::TurnOn(id) => Some(id@),
        ToolCall::TurnOff(id) => Some(id@),
    }
}

/// Whether `request` is the request that `call` sends with the given token
/// to the given host.
pub open spec fn is_request_for(
    request: BackendRequest,
    call: ToolCall,
    token: Seq<char>,
    endpoint: Seq<char>,
) -> bool {
    &&& request.method == call_method(call)
    &&& request.url@ == "http://"@ + endpoint + ":8123"@ + call_path(call)
    &&& request.authorization@ == "Bearer "@ + token
    &&& request.content_type@ == "application/json"@
    &&& text_of(request.entity_id) == call_target(call)
}

/// The request that a call sends, or the configuration value that is
/// missing: the token is looked for first, then the host.
pub fn plan_request(call: &ToolCall, token: Option<&str>, endpoint: Option<&str>) -> (r: Result<
    BackendRequest,
    ServerError,
>)
    ensures
        match (token, endpoint) {
            (None, _) => r == Err::<BackendRequest, ServerError>(
                ServerError::ConfigurationError(ConfigKey::Token),
            ),
            (Some(_), None) => r == Err::<BackendRequest, ServerError>(
                ServerError::ConfigurationError(ConfigKey::Endpoint),
            ),
            (Some(t), Some(e)) => r matches Ok(request) && is_request_for(request, *call, t@, e@),
        },
{
    let token = match token {
        Some(t) => t,
        None => {
            return Err(ServerError::ConfigurationError(ConfigKey::Token));
        },
    };
    let endpoint = match endpoint {
        Some(e) => e,
        None => {
            return Err(ServerError::ConfigurationError(ConfigKey::Endpoint));
        },
    };
    let base = String::from_str("http://").concat(endpoint).concat(":8123");
    let authorization = String::from_str("Bearer ").concat(token);
    let content_type = String::from_str("application/json");
    Ok(
        match call {
            ToolCall::GetEntities => BackendRequest {
                method: Method::Get,
                url: base.concat("/api/states"),
                authorization,
                content_type,
                entity_id: None,
            },
            ToolCall::TurnOn(id) => BackendRequest {
                method: Method::Post,
                url: base.concat("/api/services/light/turn_on"),
                authorization,
                content_type,
                entity_id: Some(id.clone()),
            },
            ToolCall::TurnOff(id) => BackendRequest {
                method: Method::Post,
                url: base.concat("/api/services/light/turn_off"),
                authorization,
                content_type,
                entity_id: Some(id.clone()),
            },
        },
    )
}

/// What came back from the backend.
#[derive(Debug, PartialEq)]
pub enum BackendReply {
    /// The request could not be sent or no answer came; the text says why.
    Unreachable(String),
    /// The backend answered: the HTTP status code, and the status as the
    /// transport prints it.
    Status(u16, String),
}

/// Whether a status is one of success: 200 to 299.
pub open spec fn is_success(status: u16) -> bool {
    200 <= status < 300
}

/// The failure that a reply amounts to, if it is one, for a fetch or for a
/// command.
pub open spec fn reply_failure(fetching: bool, reply: BackendReply) -> Option<BackendFailure> {
    match reply {
        BackendReply::Unreachable(reason) => Some(
            if fetching {
                BackendFailure::Fetch(reason)
            } else {
                BackendFailure::Send(reason)
            },
        ),
        BackendReply::Status(code, status) => if is_success(code) {
            None
        } else {
            Some(BackendFailure::Status(code, status))
        },
    }
}

/// Passes a reply of success and turns any other into a backend error that
/// carries the status or the transport's message.
pub fn check_reply(fetching: bool, reply: BackendReply) -> (r: Result<(), ServerError>)
    ensures
        match reply_failure(fetching, reply) {
            Some(failure) => r == Err::<(), ServerError>(ServerError::BackendError(failure)),
            None => r is Ok,
        },
{
    match reply {
        BackendReply::Unreachable(reason) => Err(
            ServerError::BackendError(
                if fetching {
                    BackendFailure::Fetch(reason)
                } else {
                    BackendFailure::Send(reason)
                },
            ),
        ),
        BackendReply::Status(code, status) => {
            if 200 <= code && code < 300 {
                Ok(())
            } else {
                Err(ServerError::BackendError(BackendFailure::Status(code, status)))
            }
        },
    }
}

/// The text that confirms that an entity was switched on, or off.
pub open spec fn confirmation(on: bool, entity_id: Seq<char>) -> Seq<char> {
    if on {
        "Succesfully turned on light: "@ + entity_id
    } else {
        "Succesfully turned off light: "@ + entity_id
    }
}

/// What a switching call ends in: the backend's failure, or else the
/// confirmation for its direction.
pub open spec fn is_switch_result(
    r: Result<String, ServerError>,
    on: bool,
    entity_id: Seq<char>,
    reply: BackendReply,
) -> bool {
    match reply_failure(false, reply) {
        Some(failure) => r == Err::<String, ServerError>(ServerError::BackendError(failure)),
        None => r matches Ok(text) && text@ == confirmation(on, entity_id),
    }
}

/// What a fetch ends in, and what is kept after it. A backend failure comes
/// first and leaves what was kept; then a body that did not decode is a
/// parse error and leaves what was kept; of a decoded body the lights,
/// switches and sensors are kept and returned, in the order in which they
/// came.
pub open spec fn is_fetch_result(
    r: Result<Vec<Entity>, ServerError>,
    before: Seq<Entity>,
    after: Seq<Entity>,
    reply: BackendReply,
    decoded: Result<Vec<Entity>, String>,
) -> bool {
    match reply_failure(true, reply) {
        Some(failure) => after == before && r == Err::<Vec<Entity>, ServerError>(
            ServerError::BackendError(failure),
        ),
        None => match decoded {
            Ok(fetched) => after == fetched@.filter(supported()) && (r matches Ok(kept) && kept@
                == fetched@.filter(supported())),
            Err(reason) => after == before && r == Err::<Vec<Entity>, ServerError>(
                ServerError::ParseError(reason),
            ),
        },
    }
}

/// What a finished tool call hands to the caller.
#[derive(Debug, PartialEq)]
pub enum ToolOutput {
    /// The entities kept from a fetch.
    Entities(Vec<Entity>),
    /// A text.
    Text(String),
}

/// The result of a call seen as the result of a fetch, if it can be one.
pub open spec fn as_fetch_result(r: Result<ToolOutput, ServerError>) -> Option<
    Result<Vec<Entity>, ServerError>,
> {
    match r {
        Ok(ToolOutput::Entities(kept)) => Some(Ok(kept)),
        Ok(ToolOutput::Text(_)) => None,
        Err(e) => Some(Err(e)),
    }
}

/// The result of a call seen as the result of a switching call, if it can
/// be one.
pub open spec fn as_switch_result(r: Result<ToolOutput, ServerError>) -> Option<
    Result<String, ServerError>,
> {
    match r {
        Ok(ToolOutput::Text(text)) => Some(Ok(text)),
        Ok(ToolOutput::Entities(_)) => None,
        Err(e) => Some(Err(e)),
    }
}

/// A tool call whose configuration was found complete: the call and the
/// request that it sends. Only `Entities::begin_call` makes one, so a call
/// is never finished before its configuration was looked at.
#[derive(Debug, PartialEq)]
pub struct PendingCall {
    call: ToolCall,
    request: BackendRequest,
}

impl PendingCall {
    /// The call that is under way.
    pub closed spec fn call(&self) -> ToolCall {
        self.call
    }

    /// The request that the call sends.
    pub closed spec fn planned(&self) -> BackendRequest {
        self.request
    }

    /// The request to send, once.
    pub fn request(&self) -> (r: &BackendRequest)
        ensures
            *r == self.planned(),
    {
        &self.request
    }

    /// Whether the body of the reply is to be decoded: only for a fetch
    /// that the backend answered with success.
    pub fn wants_body(&self, reply: &BackendReply) -> (r: bool)
        ensures
            r == (self.call() is GetEntities && reply_failure(true, *reply) is None),
    {
        match (&self.call, reply) {
            (ToolCall::GetEntities, BackendReply::Status(code, _)) => 200 <= *code && *code < 300,
            _ => false,
        }
    }
}

/// One tool as it is listed to callers.
#[derive(Debug, PartialEq)]
pub struct ToolInfo {
    pub name: String,
    pub description: String,
    /// The names of the tool's parameters, each a string.
    pub parameters: Vec<String>,
}

/// Whether `tool` has the given name and description and takes no
/// parameter, or the one named `entity_id`.
pub open spec fn is_tool(
    tool: ToolInfo,
    name: Seq<char>,
    description: Seq<char>,
    takes_entity: bool,
) -> bool {
    &&& tool.name@ == name
    &&& tool.description@ == description
    &&& tool.parameters@.len() == if takes_entity { 1nat } else { 0nat }
    &&& takes_entity ==> tool.parameters@[0]@ == "entity_id"@
}

/// Builds the listing of one tool.
pub fn tool_info(name: &str, description: &str, takes_entity: bool) -> (tool: ToolInfo)
    ensures
        is_tool(tool, name@, description@, takes_entity),
{
    let mut parameters: Vec<String> = Vec::new();
    if takes_entity {
        parameters.push(String::from_str("entity_id"));
    }
    ToolInfo { name: name.to_owned(), description: description.to_owned(), parameters }
}

/// What the server says of itself when a caller connects.
#[derive(Debug, PartialEq)]
pub struct ServerInfo {
    pub protocol_version: String,
    /// Whether prompts are offered.
    pub prompts: bool,
    /// Whether tools are offered.
    pub tools: bool,
    pub instructions: Option<String>,
}

/// The instructions handed to a caller.
pub open spec fn instructions_text() -> Seq<char> {
    "This server is used to retrieve entities from my home assistant. It will get you lights and other smart home devices. It can also be used to control lights with the turn_on_entity and turn_off_entity tools. When running get_entities tool you will get the light, switch, and sensor entitites."@
}

/// Whether `info` is this server's description: the protocol version, both
/// capabilities, and the instructions.
pub open spec fn is_server_info(info: ServerInfo) -> bool {
    &&& info.protocol_version@ == "2024-11-05"@
    &&& info.prompts
    &&& info.tools
    &&& text_of(info.instructions) == Some(instructions_text())
}

/// Whether every entity of a sequence is a light, a switch or a sensor.
pub open spec fn all_supported(entities: Seq<Entity>) -> bool {
    forall|i: int|
        0 <= i < entities.len() ==> is_supported_id((#[trigger] entities[i]).entity_id@)
}

/// The entities last put in, held as one sequence that is only ever
/// replaced as a whole and read as a whole.
#[derive(Debug, PartialEq)]
pub struct EntityCache {
    entities: Vec<Entity>,
}

impl View for EntityCache {
    type V = Seq<Entity>;

    closed spec fn view(&self) -> Seq<Entity> {
        self.entities@
    }
}

impl EntityCache {
    /// An empty cache.
    pub fn new() -> (c: Self)
        ensures
            c@ == Seq::<Entity>::empty(),
    {
        EntityCache { entities: Vec::new() }
    }

    /// Puts `entities` in place of everything held so far.
    pub fn replace(&mut self, entities: Vec<Entity>)
        ensures
            final(self)@ == entities@,
    {
        self.entities = entities;
    }

    /// A copy of the entities held.
    pub fn snapshot(&self) -> (r: Vec<Entity>)
        ensures
            r@ == self@,
    {
        clone_entities(&self.entities)
    }
}

/// The server: the entities kept from the last fetch, which are lights,
/// switches and sensors only, the table of built-in prompts, made once
/// when the server is, and whether a caller has connected.
#[derive(Debug, PartialEq)]
pub struct Entities {
    entities: EntityCache,
    prompts: PromptRegistry,
    initialized: bool,
}

impl View for Entities {
    type V = Seq<Entity>;

    closed spec fn view(&self) -> Seq<Entity> {
        self.entities@
    }
}

impl Entities {
    /// Every entity kept is a light, a switch or a sensor, and the table
    /// of prompts holds the two built-in prompts under different names.
    #[verifier::type_invariant]
    spec fn well_formed(self) -> bool {
        &&& all_supported(self.entities@)
        &&& self.prompts.wf()
        &&& self.prompts@.len() == 2
        &&& is_example_prompt(self.prompts@[0])
        &&& is_code_review_prompt(self.prompts@[1])
    }

    /// Whether a caller has connected.
    pub closed spec fn is_initialized(&self) -> bool {
        self.initialized
    }

    /// A server that has fetched nothing and that no caller has connected
    /// to.
    pub fn new() -> (s: Self)
        ensures
            s@ == Seq::<Entity>::empty(),
            !s.is_initialized(),
    {
        Entities {
            entities: EntityCache::new(),
            prompts: PromptRegistry::builtin(),
            initialized: false,
        }
    }

    /// Whether a caller has connected.
    pub fn initialized(&self) -> (r: bool)
        ensures
            r == self.is_initialized(),
    {
        self.initialized
    }

    /// A copy of the entities kept: lights, switches and sensors only.
    pub fn snapshot(&self) -> (r: Vec<Entity>)
        ensures
            r@ == self@,
            all_supported(r@),
    {
        proof {
            use_type_invariant(self);
        }
        self.entities.snapshot()
    }

    /// The server's description of itself.
    pub fn get_info(&self) -> (info: ServerInfo)
        ensures
            is_server_info(info),
    {
        ServerInfo {
            protocol_version: String::from_str("2024-11-05"),
            prompts: true,
            tools: true,
            instructions: Some(
                String::from_str(
                    "This server is used to retrieve entities from my home assistant. It will get you lights and other smart home devices. It can also be used to control lights with the turn_on_entity and turn_off_entity tools. When running get_entities tool you will get the light, switch, and sensor entitites.",
                ),
            ),
        }
    }

    /// Connects a caller: the server is initialized from then on, keeps
    /// what it holds, and describes itself.
    pub fn initialize(&mut self) -> (info: ServerInfo)
        ensures
            final(self).is_initialized(),
            final(self)@ == old(self)@,
            is_server_info(info),
    {
        proof {
            use_type_invariant(&*self);
        }
        self.initialized = true;
        self.get_info()
    }

    /// The three tools, as they are listed to callers.
    pub fn list_tools(&self) -> (tools: Vec<ToolInfo>)
        ensures
            tools@.len() == 3,
            is_tool(
                tools@[0],
                "get_entities"@,
                "Get all available Ligths, Switches, Sensors and their current states"@,
                false,
            ),
            is_tool(tools@[1], "turn_on_entity"@, "Turn on a given entity"@, true),
            is_tool(tools@[2], "turn_off_entity"@, "Turn off a given entity"@, true),
    {
        let mut tools: Vec<ToolInfo> = Vec::new();
        tools.push(
            tool_info(
                "get_entities",
                "Get all available Ligths, Switches, Sensors and their current states",
                false,
            ),
        );
        tools.push(tool_info("turn_on_entity", "Turn on a given entity", true));
        tools.push(tool_info("turn_off_entity", "Turn off a given entity", true));
        tools
    }

    /// Begins a tool call: the token is looked for first, then the host,
    /// and a missing one ends the call before anything is sent. Otherwise
    /// the call is under way with the request that it sends.
    pub fn begin_call(&self, call: ToolCall, token: Option<&str>, endpoint: Option<&str>) -> (r:
        Result<PendingCall, ServerError>)
        ensures
            match (token, endpoint) {
                (None, _) => r == Err::<PendingCall, ServerError>(
                    ServerError::ConfigurationError(ConfigKey::Token),
                ),
                (Some(_), None) => r == Err::<PendingCall, ServerError>(
                    ServerError::ConfigurationError(ConfigKey::Endpoint),
                ),
                (Some(t), Some(e)) => r matches Ok(pending) && pending.call() == call
                    && is_request_for(pending.planned(), call, t@, e@),
            },
    {
        match plan_request(&call, token, endpoint) {
            Ok(request) => Ok(PendingCall { call, request }),
            Err(e) => Err(e),
        }
    }

    /// Ends a call that is under way, with what came back from the
    /// backend. A fetch ends as `get_entities` does, a switching call as
    /// `turn_on_entity` or `turn_off_entity` does; only a fetch changes what
    /// is kept. The decoded body is looked at only where `wants_body` asks
    /// for it.
    pub fn finish_call(
        &mut self,
        pending: PendingCall,
        reply: BackendReply,
        decoded: Result<Vec<Entity>, String>,
    ) -> (r: Result<ToolOutput, ServerError>)
        ensures
            final(self).is_initialized() == old(self).is_initialized(),
            match pending.call() {
                ToolCall::GetEntities => as_fetch_result(r) matches Some(fetched)
                    && is_fetch_result(fetched, old(self)@, final(self)@, reply, decoded),
                ToolCall::TurnOn(id) => final(self)@ == old(self)@ && (as_switch_result(
                    r,
                ) matches Some(switched) && is_switch_result(switched, true, id@, reply)),
                ToolCall::TurnOff(id) => final(self)@ == old(self)@ && (as_switch_result(
                    r,
                ) matches Some(switched) && is_switch_result(switched, false, id@, reply)),
            },
    {
        match pending.call {
            ToolCall::GetEntities => match self.get_entities(reply, decoded) {
                Ok(kept) => Ok(ToolOutput::Entities(kept)),
                Err(e) => Err(e),
            },
            ToolCall::TurnOn(id) => match self.turn_on_entity(id.as_str(), reply) {
                Ok(text) => Ok(ToolOutput::Text(text)),
                Err(e) => Err(e),
            },
            ToolCall::TurnOff(id) => match self.turn_off_entity(id.as_str(), reply) {
                Ok(text) => Ok(ToolOutput::Text(text)),
                Err(e) => Err(e),
            },
        }
    }

    /// Ends a fetch. A reply that is a failure is returned as a backend
    /// error and leaves the server as it was. After a reply of success, a
    /// body that did not decode is a parse error and leaves the server as
    /// it was; of a decoded body the lights, switches and sensors are kept,
    /// in the order in which they came, in place of everything kept before,
    /// and are returned.
    pub fn get_entities(&mut self, reply: BackendReply, decoded: Result<Vec<Entity>, String>) -> (r:
        Result<Vec<Entity>, ServerError>)
        ensures
            final(self).is_initialized() == old(self).is_initialized(),
            is_fetch_result(r, old(self)@, final(self)@, reply, decoded),
    {
        proof {
            use_type_invariant(&*self);
        }
        match check_reply(true, reply) {
            Err(e) => Err(e),
            Ok(_) => match decoded {
                Ok(fetched) => {
                    let kept = retain_supported(&fetched);
                    proof {
                        lemma_kept_are_the_supported(fetched@);
                    }
                    let mut fresh = EntityCache::new();
                    fresh.replace(clone_entities(&kept));
                    self.entities = fresh;
                    Ok(kept)
                },
                Err(reason) => Err(ServerError::ParseError(reason)),
            },
        }
    }

    /// Ends a call that switches an entity on: the confirmation that names
    /// the entity and says that it was turned on, or the backend's failure.
    pub fn turn_on_entity(&self, entity_id: &str, reply: BackendReply) -> (r: Result<
        String,
        ServerError,
    >)
        ensures
            is_switch_result(r, true, entity_id@, reply),
    {
        match check_reply(false, reply) {
            Ok(_) => Ok(String::from_str("Succesfully turned on light: ").concat(entity_id)),
            Err(e) => Err(e),
        }
    }

    /// Ends a call that switches an entity off: the confirmation that names
    /// the entity and says that it was turned off, or the backend's
    /// failure.
    pub fn turn_off_entity(&self, entity_id: &str, reply: BackendReply) -> (r: Result<
        String,
        ServerError,
    >)
        ensures
            is_switch_result(r, false, entity_id@, reply),
    {
        match check_reply(false, reply) {
            Ok(_) => Ok(String::from_str("Succesfully turned off light: ").concat(entity_id)),
            Err(e) => Err(e),
        }
    }

    /// The prompts as they are listed to callers: always all of them.
    pub fn list_prompts(&self) -> (r: Vec<PromptDescriptor>)
        ensures
            r@.len() == 2,
            r@[0].arguments matches Some(a) && is_example(
                r@[0].name@,
                text_of(r@[0].description),
                a@,
            ),
            r@[1].arguments matches Some(a) && is_code_review(
                r@[1].name@,
                text_of(r@[1].description),
                a@,
            ),
    {
        proof {
            use_type_invariant(self);
        }
        let listed = get_all_prompts(&self.prompts);
        assert(describes(listed@[0], self.prompts@[0]));
        assert(describes(listed@[1], self.prompts@[1]));
        listed
    }

    /// Resolves a prompt: the built-in prompt of that name, rendered
    /// against the arguments. Fails when no prompt has the name, and with
    /// the name of the first required argument that is not supplied.
    pub fn get_prompt(
        &self,
        name: &str,
        arguments: Option<serde_json::Map<String, serde_json::Value>>,
    ) -> (r: Result<String, ServerError>)
        ensures
            match builtin_prompt(name@) {
                Some((template, schema)) => is_rendering(
                    r,
                    rendering(template, schema, supplied(arguments)),
                ),
                None => r matches Err(ServerError::PromptNotFound),
            },
    {
        proof {
            use_type_invariant(self);
            lemma_builtin_names_differ();
        }
        match get_prompt_by_name(&self.prompts, name) {
            Some(prompt) => prompt.process(arguments),
            None => Err(ServerError::PromptNotFound),
        }
    }
}

} // verus!
