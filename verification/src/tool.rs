//! Tools: what a tool is, the registry that holds them by name, and the one
//! tool there is, `send_message`, with its input.

use crate::json::{
    json_of, no_entries, object_get, object_insert, object_new, object_of, value_as_str,
    value_from_array, value_from_object, value_from_string, Json, JsonObject,
};
use crate::protocol::{ErrorKind, McpError, McpErrorView};
use crate::schema::{
    has_no_schema_url, lemma_stripped_has_no_schema_url, strip_schema_url, without_schema_url,
};
use vstd::prelude::*;

verus! {

/// The validated input of `send_message`.
#[derive(Clone, Debug, PartialEq, Eq)]
pub struct SendMessageRequest {
    pub content: String,
}

/// What a registered tool does when it is called.
#[derive(Clone, Copy, PartialEq, Eq, Debug)]
pub enum ToolHandler {
    /// Delivers the `content` of the input to the configured channel.
    SendMessage,
}

/// A tool as it is advertised and dispatched.
#[derive(Clone, Debug, PartialEq, Eq)]
pub struct Tool {
    pub name: String,
    pub description: String,
    pub input_schema: JsonObject,
    pub output_schema: Option<JsonObject>,
    pub handler: ToolHandler,
}

/// A tool as contracts see it: texts as sequences, schemas as maps.
pub struct ToolView {
    pub name: Seq<char>,
    pub description: Seq<char>,
    pub input_schema: Map<Seq<char>, Json>,
    pub output_schema: Option<Map<Seq<char>, Json>>,
    pub handler: ToolHandler,
}

impl View for Tool {
    type V = ToolView;

    open spec fn view(&self) -> ToolView {
        ToolView {
            name: self.name@,
            description: self.description@,
            input_schema: object_of(self.input_schema),
            output_schema: match self.output_schema {
                Some(schema) => Some(object_of(schema)),
                None => None,
            },
            handler: self.handler,
        }
    }
}

impl ToolView {
    /// The same tool, advertised without schema identifiers.
    pub open spec fn without_schema_url(self) -> ToolView {
        ToolView {
            name: self.name,
            description: self.description,
            input_schema: without_schema_url(self.input_schema),
            output_schema: match self.output_schema {
                Some(schema) => Some(without_schema_url(schema)),
                None => None,
            },
            handler: self.handler,
        }
    }
}

/// A tool advertised without schema identifiers has none left, neither in its
/// input schema nor in its output schema; its name, its description and its
/// handler are what they were.
pub proof fn lemma_tool_without_schema_url(tool: ToolView)
    ensures
        has_no_schema_url(tool.without_schema_url().input_schema),
        tool.without_schema_url().output_schema is Some <==> tool.output_schema is Some,
        tool.without_schema_url().output_schema matches Some(schema) ==> has_no_schema_url(schema),
        tool.without_schema_url().name == tool.name,
        tool.without_schema_url().description == tool.description,
        tool.without_schema_url().handler == tool.handler,
{
    lemma_stripped_has_no_schema_url(tool.input_schema);
    if tool.output_schema is Some {
        lemma_stripped_has_no_schema_url(tool.output_schema->Some_0);
    }
}

/// The schema of `send_message`'s input as it is generated: an object with
/// one required property, `content`, a string.
pub open spec fn input_schema_model() -> Map<Seq<char>, Json> {
    no_entries().insert(
        "$schema"@,
        Json::Text("https://json-schema.org/draft/2020-12/schema"@),
    ).insert("title"@, Json::Text("SendMessageRequest"@)).insert(
        "type"@,
        Json::Text("object"@),
    ).insert(
        "properties"@,
        Json::Object(
            no_entries().insert(
                "content"@,
                Json::Object(no_entries().insert("type"@, Json::Text("string"@))),
            ),
        ),
    ).insert("required"@, Json::Array(seq![Json::Text("content"@)]))
}

/// The `send_message` tool as it is registered.
pub open spec fn send_message_tool() -> ToolView {
    ToolView {
        name: "send_message"@,
        description: "Send a message to the configured channel"@,
        input_schema: input_schema_model(),
        output_schema: None,
        handler: ToolHandler::SendMessage,
    }
}

/// The input that `send_message` accepts: an object whose `content` is a
/// string. Other entries are ignored.
pub open spec fn accepts(arguments: Map<Seq<char>, Json>) -> bool {
    arguments.contains_key("content"@) && arguments["content"@] is Text
}

/// What `send_message` makes of its input: the content, or the error that
/// says what is wrong with the input.
pub open spec fn request_of(arguments: Map<Seq<char>, Json>) -> Result<Seq<char>, McpErrorView> {
    if !arguments.contains_key("content"@) {
        Err(
            McpErrorView {
                kind: ErrorKind::InvalidParams,
                message: "failed to deserialize parameters: missing field `content`"@,
                data: None,
            },
        )
    } else {
        match arguments["content"@] {
            Json::Text(content) => Ok(content),
            _ => Err(
                McpErrorView {
                    kind: ErrorKind::InvalidParams,
                    message: "failed to deserialize parameters: field `content` is not a string"@,
                    data: None,
                },
            ),
        }
    }
}

/// Whether a value is of the JSON type that a schema names by `name`.
pub open spec fn has_type(value: Json, name: Seq<char>) -> bool {
    if name == "string"@ {
        value is Text
    } else if name == "boolean"@ {
        value is Bool
    } else if name == "number"@ {
        value is Number
    } else if name == "array"@ {
        value is Array
    } else if name == "object"@ {
        value is Object
    } else if name == "null"@ {
        value is Null
    } else {
        true
    }
}

/// Whether a value fits the schema of one property, as far as that schema
/// names a `type`.
pub open spec fn property_admits(property: Json, value: Json) -> bool {
    property matches Json::Object(keywords) ==> (keywords.contains_key("type"@) ==> (
    keywords["type"@] matches Json::Text(name) ==> has_type(value, name)))
}

/// Whether an input fits a schema, as far as the schema speaks through
/// `required` and through the `type` of each of its `properties`.
pub open spec fn schema_admits(schema: Map<Seq<char>, Json>, arguments: Map<Seq<char>, Json>)
    -> bool {
    &&& schema.contains_key("required"@) ==> (schema["required"@] matches Json::Array(names)
        ==> forall|i: int|
        0 <= i < names.len() ==> (#[trigger] names[i] matches Json::Text(name)
            ==> arguments.contains_key(name)))
    &&& schema.contains_key("properties"@) ==> (schema["properties"@] matches Json::Object(
        properties,
    ) ==> forall|name: Seq<char>|
        properties.contains_key(name) && #[trigger] arguments.contains_key(name)
            ==> property_admits(properties[name], arguments[name]))
}

/// The schema of `send_message` has no `metadata`, so that stripping it
/// removes the top-level schema identifier and nothing else.
pub proof fn lemma_stripped_input_schema()
    ensures
        without_schema_url(input_schema_model()) == input_schema_model().remove("$schema"@),
{
    reveal_strlit("metadata");
    reveal_strlit("$schema");
    reveal_strlit("title");
    reveal_strlit("type");
    reveal_strlit("properties");
    reveal_strlit("required");
    assert("metadata"@[0] == 'm');
    assert(!input_schema_model().remove("$schema"@).contains_key("metadata"@));
}

/// The advertised schema and the handler agree: an input fits the schema
/// of `send_message` exactly when the handler accepts it, and the same holds
/// of the schema without its schema identifier.
pub proof fn lemma_schema_matches_handler(arguments: Map<Seq<char>, Json>)
    ensures
        schema_admits(input_schema_model(), arguments) <==> accepts(arguments),
        schema_admits(without_schema_url(input_schema_model()), arguments) <==> accepts(arguments),
{
    lemma_stripped_input_schema();
    reveal_strlit("required");
    reveal_strlit("properties");
    reveal_strlit("$schema");
    assert("required"@[0] == 'r');
    assert("$schema"@.len() == 7);
    let names = seq![Json::Text("content"@)];
    assert(names[0] == Json::Text("content"@));
}

impl SendMessageRequest {
    /// The schema of the input, as generated.
    pub fn input_schema() -> (schema: JsonObject)
        ensures
            object_of(schema) == input_schema_model(),
    {
        let mut content = object_new();
        let _ = object_insert(
            &mut content,
            String::from_str("type"),
            value_from_string(String::from_str("string")),
        );
        let mut properties = object_new();
        let _ = object_insert(
            &mut properties,
            String::from_str("content"),
            value_from_object(content),
        );
        let mut required: Vec<serde_json::Value> = Vec::new();
        required.push(value_from_string(String::from_str("content")));
        let required = value_from_array(required);
        assert(json_of(required)->Array_0 =~= seq![Json::Text("content"@)]);
        let mut schema = object_new();
        let _ = object_insert(
            &mut schema,
            String::from_str("$schema"),
            value_from_string(String::from_str("https://json-schema.org/draft/2020-12/schema")),
        );
        let _ = object_insert(
            &mut schema,
            String::from_str("title"),
            value_from_string(String::from_str("SendMessageRequest")),
        );
        let _ = object_insert(
            &mut schema,
            String::from_str("type"),
            value_from_string(String::from_str("object")),
        );
        let _ = object_insert(
            &mut schema,
            String::from_str("properties"),
            value_from_object(properties),
        );
        let _ = object_insert(&mut schema, String::from_str("required"), required);
        schema
    }

    /// Validates the input of a call against the shape that `send_message`
    /// takes. `Ok` exactly when `arguments` has a string under `content`.
    pub fn from_arguments(arguments: &JsonObject) -> (request: Result<SendMessageRequest, McpError>)
        ensures
            request is Ok <==> accepts(object_of(*arguments)),
            match request {
                Ok(r) => request_of(object_of(*arguments)) == Ok::<Seq<char>, McpErrorView>(
                    r.content@,
                ),
                Err(e) => request_of(object_of(*arguments)) == Err::<Seq<char>, McpErrorView>(e@),
            },
    {
        match object_get(arguments, "content") {
            None => Err(
                McpError::invalid_params(
                    String::from_str("failed to deserialize parameters: missing field `content`"),
                    None,
                ),
            ),
            Some(value) => match value_as_str(value) {
                Some(content) => Ok(SendMessageRequest { content: String::from_str(content) }),
                None => Err(
                    McpError::invalid_params(
                        String::from_str(
                            "failed to deserialize parameters: field `content` is not a string",
                        ),
                        None,
                    ),
                ),
            },
        }
    }
}

impl Tool {
    /// The `send_message` tool.
    pub fn send_message() -> (tool: Tool)
        ensures
            tool@ == send_message_tool(),
    {
        Tool {
            name: String::from_str("send_message"),
            description: String::from_str("Send a message to the configured channel"),
            input_schema: SendMessageRequest::input_schema(),
            output_schema: None,
            handler: ToolHandler::SendMessage,
        }
    }
}

/// The registry: tools by name, no name twice. Tools keep the order in
/// which their names were first registered.
#[derive(Clone, Debug)]
pub struct ToolRouter {
    routes: Vec<Tool>,
}

impl View for ToolRouter {
    type V = Seq<ToolView>;

    closed spec fn view(&self) -> Seq<ToolView> {
        Seq::new(self.routes.len() as nat, |i: int| self.routes[i]@)
    }
}

/// No two tools of the list have the same name.
pub open spec fn names_are_unique(tools: Seq<ToolView>) -> bool {
    forall|i: int, j: int|
        0 <= i < tools.len() && 0 <= j < tools.len() && i != j ==> #[trigger] tools[i].name
            != #[trigger] tools[j].name
}

/// Whether a tool of this name is in the list.
pub open spec fn is_registered(tools: Seq<ToolView>, name: Seq<char>) -> bool {
    exists|i: int| 0 <= i < tools.len() && #[trigger] tools[i].name == name
}

/// Whether position `i` is the first of the list that holds a tool of this
/// name.
pub open spec fn is_position_of(tools: Seq<ToolView>, name: Seq<char>, i: int) -> bool {
    &&& 0 <= i < tools.len()
    &&& tools[i].name == name
    &&& forall|k: int| 0 <= k < i ==> (#[trigger] tools[k]).name != name
}

/// The position of the tool of this name, where one is registered.
pub open spec fn position_of(tools: Seq<ToolView>, name: Seq<char>) -> int {
    choose|i: int| is_position_of(tools, name, i)
}

/// The list after registering `tool`: it takes the place of the tool that
/// had its name, or the end of the list if there was none.
pub open spec fn with_route(tools: Seq<ToolView>, tool: ToolView) -> Seq<ToolView> {
    if is_registered(tools, tool.name) {
        tools.update(position_of(tools, tool.name), tool)
    } else {
        tools.push(tool)
    }
}

impl ToolRouter {
    /// The registry's invariant.
    pub open spec fn wf(&self) -> bool {
        names_are_unique(self@)
    }

    /// A registry without tools.
    pub fn new() -> (router: ToolRouter)
        ensures
            router@ == Seq::<ToolView>::empty(),
            router.wf(),
    {
        ToolRouter { routes: Vec::new() }
    }

    /// How many tools are registered.
    pub fn len(&self) -> (n: usize)
        ensures
            n == self@.len(),
    {
        self.routes.len()
    }

    /// The tool at a position of the list, if the list is that long.
    pub fn route(&self, index: usize) -> (tool: Option<&Tool>)
        ensures
            tool is Some <==> index < self@.len(),
            tool matches Some(t) ==> t@ == self@[index as int],
    {
        if index < self.routes.len() {
            Some(&self.routes[index])
        } else {
            None
        }
    }

    /// Where in the list the tool of this name stands.
    pub fn position(&self, name: &str) -> (found: Option<usize>)
        ensures
            found is Some <==> is_registered(self@, name@),
            found matches Some(i) ==> is_position_of(self@, name@, i as int),
    {
        let wanted = String::from_str(name);
        let mut i: usize = 0;
        while i < self.routes.len()
            invariant
                i <= self.routes.len(),
                wanted@ == name@,
                forall|k: int| 0 <= k < i ==> (#[trigger] self@[k]).name != name@,
            decreases self.routes.len() - i,
        {
            if self.routes[i].name == wanted {
                assert(self@[i as int].name == name@);
                return Some(i);
            }
            i = i + 1;
        }
        None
    }

    /// The tool of this name, if one is registered.
    pub fn get(&self, name: &str) -> (found: Option<&Tool>)
        ensures
            found is Some <==> is_registered(self@, name@),
            found matches Some(tool) ==> exists|i: int|
                is_position_of(self@, name@, i) && tool@ == #[trigger] self@[i],
    {
        match self.position(name) {
            Some(i) => Some(&self.routes[i]),
            None => None,
        }
    }

    /// Registers a tool under its name.
    pub fn add_route(&mut self, tool: Tool)
        ensures
            final(self)@ == with_route(old(self)@, tool@),
            old(self).wf() ==> final(self).wf(),
    {
        proof {
            if self.wf() {
                lemma_with_route(self@, tool@);
            }
            if is_registered(self@, tool@.name) {
                lemma_position_of(self@, tool@.name);
            }
        }
        match self.position(tool.name.as_str()) {
            Some(i) => {
                let ghost before = self@;
                self.routes.set(i, tool);
                assert(self@ =~= before.update(i as int, tool@));
            },
            None => {
                self.routes.push(tool);
            },
        }
    }

    /// Removes the schema identifier from every schema that is advertised.
    pub fn strip_schema_urls(&mut self)
        ensures
            final(self)@ == old(self)@.map_values(|tool: ToolView| tool.without_schema_url()),
            old(self).wf() ==> final(self).wf(),
    {
        let ghost before = self@;
        let mut i: usize = 0;
        while i < self.routes.len()
            invariant
                i <= self.routes.len(),
                self@.len() == before.len(),
                forall|k: int| 0 <= k < i ==> #[trigger] self@[k] == before[k].without_schema_url(),
                forall|k: int| i <= k < before.len() ==> #[trigger] self@[k] == before[k],
            decreases self.routes.len() - i,
        {
            let ghost prior = self@;
            let input_schema = strip_schema_url(&self.routes[i].input_schema);
            let output_schema = match &self.routes[i].output_schema {
                Some(schema) => Some(strip_schema_url(schema)),
                None => None,
            };
            let route = &mut self.routes[i];
            route.input_schema = input_schema;
            route.output_schema = output_schema;
            assert(self@[i as int] == prior[i as int].without_schema_url());
            assert forall|k: int| 0 <= k < self@.len() && k != i implies #[trigger] self@[k]
                == prior[k] by {}
            i = i + 1;
        }
    }
}

proof fn lemma_first_position_before(tools: Seq<ToolView>, name: Seq<char>, j: int)
    requires
        0 <= j < tools.len(),
        tools[j].name == name,
    ensures
        exists|i: int| is_position_of(tools, name, i),
    decreases j,
{
    if exists|k: int| 0 <= k < j && (#[trigger] tools[k]).name == name {
        let k = choose|k: int| 0 <= k < j && (#[trigger] tools[k]).name == name;
        lemma_first_position_before(tools, name, k);
    } else {
        assert(is_position_of(tools, name, j));
    }
}

/// A registered name has a first position, and that is its position.
pub proof fn lemma_position_of(tools: Seq<ToolView>, name: Seq<char>)
    requires
        is_registered(tools, name),
    ensures
        is_position_of(tools, name, position_of(tools, name)),
{
    let j = choose|j: int| 0 <= j < tools.len() && #[trigger] tools[j].name == name;
    lemma_first_position_before(tools, name, j);
}

/// Registering a tool keeps names unique and makes its name known.
pub proof fn lemma_with_route(tools: Seq<ToolView>, tool: ToolView)
    requires
        names_are_unique(tools),
    ensures
        names_are_unique(with_route(tools, tool)),
        is_registered(with_route(tools, tool), tool.name),
{
    let after = with_route(tools, tool);
    if is_registered(tools, tool.name) {
        lemma_position_of(tools, tool.name);
        let p = position_of(tools, tool.name);
        assert(after[p].name == tool.name);
        assert forall|i: int, j: int|
            0 <= i < after.len() && 0 <= j < after.len() && i != j implies #[trigger] after[i].name
            != #[trigger] after[j].name by {
            assert(after[i].name == tools[i].name);
            assert(after[j].name == tools[j].name);
        }
    } else {
        assert(after[tools.len() as int].name == tool.name);
        assert forall|i: int, j: int|
            0 <= i < after.len() && 0 <= j < after.len() && i != j implies #[trigger] after[i].name
            != #[trigger] after[j].name by {
            if i < tools.len() {
                assert(after[i].name == tools[i].name);
            }
            if j < tools.len() {
                assert(after[j].name == tools[j].name);
            }
        }
    }
}

} // verus!
