//! The schema by which a service describes itself.

use crate::handler::ServiceHandler;
use crate::json;
use crate::json::{Json, Value};
use crate::protocol;
use crate::streaming::StreamMode;
use std::sync::Arc;
use vstd::prelude::*;

verus! {

#[derive(Debug)]
pub struct ServiceCapability {
    pub name: String,
    pub description: String,
    pub version: Option<String>,
}

/// The mathematical model of a [`ServiceCapability`].
pub struct CapabilityView {
    pub name: Seq<char>,
    pub description: Seq<char>,
    pub version: Option<Seq<char>>,
}

impl View for ServiceCapability {
    type V = CapabilityView;

    open spec fn view(&self) -> CapabilityView {
        CapabilityView {
            name: self.name@,
            description: self.description@,
            version: protocol::opt_text(self.version),
        }
    }
}

impl Clone for ServiceCapability {
    fn clone(&self) -> (r: ServiceCapability)
        ensures
            r@ == self@,
    {
        ServiceCapability {
            name: self.name.clone(),
            description: self.description.clone(),
            version: protocol::copy_opt(&self.version),
        }
    }
}

#[derive(Debug)]
pub struct ServiceSchema {
    pub service_name: String,
    pub version: String,
    pub input_schema: Value,
    pub output_schema: Value,
    pub state_schema: Option<Value>,
    pub capabilities: Vec<ServiceCapability>,
    pub streaming_modes: Vec<String>,
    pub metadata: Value,
}

/// The mathematical model of a [`ServiceSchema`].
pub struct SchemaView {
    pub service_name: Seq<char>,
    pub version: Seq<char>,
    pub input_schema: Json,
    pub output_schema: Json,
    pub state_schema: Option<Json>,
    pub capabilities: Seq<CapabilityView>,
    pub streaming_modes: Seq<Seq<char>>,
    pub metadata: Json,
}

pub open spec fn capability_views(caps: Seq<ServiceCapability>) -> Seq<CapabilityView> {
    caps.map_values(|c: ServiceCapability| c@)
}

impl View for ServiceSchema {
    type V = SchemaView;

    open spec fn view(&self) -> SchemaView {
        SchemaView {
            service_name: self.service_name@,
            version: self.version@,
            input_schema: self.input_schema@,
            output_schema: self.output_schema@,
            state_schema: json::opt_model(self.state_schema),
            capabilities: capability_views(self.capabilities@),
            streaming_modes: protocol::texts(self.streaming_modes@),
            metadata: self.metadata@,
        }
    }
}

impl Clone for ServiceSchema {
    fn clone(&self) -> (r: ServiceSchema)
        ensures
            r@ == self@,
    {
        let mut capabilities: Vec<ServiceCapability> = Vec::new();
        let mut i: usize = 0;
        while i < self.capabilities.len()
            invariant
                i <= self.capabilities@.len(),
                capabilities@.len() == i,
                forall|j: int|
                    0 <= j < i ==> (#[trigger] capabilities@[j])@ == self.capabilities@[j]@,
            decreases self.capabilities.len() - i,
        {
            capabilities.push(self.capabilities[i].clone());
            i = i + 1;
        }
        assert(capability_views(capabilities@) =~= capability_views(self.capabilities@));
        ServiceSchema {
            service_name: self.service_name.clone(),
            version: self.version.clone(),
            input_schema: self.input_schema.clone(),
            output_schema: self.output_schema.clone(),
            state_schema: json::copy_opt(&self.state_schema),
            capabilities,
            streaming_modes: protocol::copy_texts(&self.streaming_modes),
            metadata: self.metadata.clone(),
        }
    }
}

/// `{"type": name}`
pub open spec fn type_json(name: Seq<char>) -> Json {
    json::object1("type"@, Json::String(name))
}

/// An object schema with two properties.
pub open spec fn object_schema(n1: Seq<char>, s1: Json, n2: Seq<char>, s2: Json) -> Json {
    json::object2(
        "type"@,
        Json::String("object"@),
        "properties"@,
        json::object2(n1, s1, n2, s2),
    )
}

/// The schema of a service of which only the name and the version are known.
pub open spec fn plain_schema(service_name: Seq<char>, version: Seq<char>) -> SchemaView {
    SchemaView {
        service_name,
        version,
        input_schema: object_schema(
            "method"@,
            type_json("string"@),
            "payload"@,
            type_json("object"@),
        ),
        output_schema: object_schema(
            "status"@,
            type_json("string"@),
            "payload"@,
            Json::Object(Seq::empty()),
        ),
        state_schema: None,
        capabilities: Seq::empty(),
        streaming_modes: seq!["result"@],
        metadata: Json::Object(Seq::empty()),
    }
}

fn type_value(name: &str) -> (r: Value)
    ensures
        r@ == type_json(name@),
{
    Value::object1("type", Value::text(name))
}

fn object_schema_value(n1: &str, s1: Value, n2: &str, s2: Value) -> (r: Value)
    ensures
        r@ == object_schema(n1@, s1@, n2@, s2@),
{
    Value::object2(
        "type",
        Value::text("object"),
        "properties",
        Value::object2(n1, s1, n2, s2),
    )
}

/// The names of stream modes.
pub open spec fn labels(modes: Seq<StreamMode>) -> Seq<Seq<char>> {
    modes.map_values(|m: StreamMode| m.label())
}

impl ServiceSchema {
    pub fn new(service_name: &str, version: &str) -> (r: ServiceSchema)
        ensures
            r@ == plain_schema(service_name@, version@),
    {
        let capabilities: Vec<ServiceCapability> = Vec::new();
        assert(capability_views(capabilities@) =~= Seq::empty());
        ServiceSchema {
            service_name: service_name.to_string(),
            version: version.to_string(),
            input_schema: object_schema_value(
                "method",
                type_value("string"),
                "payload",
                type_value("object"),
            ),
            output_schema: object_schema_value(
                "status",
                type_value("string"),
                "payload",
                Value::empty_object(),
            ),
            state_schema: None,
            capabilities,
            streaming_modes: protocol::one_text("result"),
            metadata: Value::empty_object(),
        }
    }

    pub fn with_input_schema(self, schema: Value) -> (r: ServiceSchema)
        ensures
            r@ == (SchemaView { input_schema: schema@, ..self@ }),
    {
        ServiceSchema { input_schema: schema, ..self }
    }

    pub fn with_output_schema(self, schema: Value) -> (r: ServiceSchema)
        ensures
            r@ == (SchemaView { output_schema: schema@, ..self@ }),
    {
        ServiceSchema { output_schema: schema, ..self }
    }

    pub fn with_state_schema(self, schema: Value) -> (r: ServiceSchema)
        ensures
            r@ == (SchemaView { state_schema: Some(schema@), ..self@ }),
    {
        ServiceSchema { state_schema: Some(schema), ..self }
    }

    pub fn with_capabilities(self, caps: Vec<ServiceCapability>) -> (r: ServiceSchema)
        ensures
            r@ == (SchemaView { capabilities: capability_views(caps@), ..self@ }),
    {
        ServiceSchema { capabilities: caps, ..self }
    }

    pub fn with_streaming_modes(self, modes: Vec<StreamMode>) -> (r: ServiceSchema)
        ensures
            r@ == (SchemaView { streaming_modes: labels(modes@), ..self@ }),
    {
        let mut names: Vec<String> = Vec::new();
        let mut i: usize = 0;
        while i < modes.len()
            invariant
                i <= modes@.len(),
                names@.len() == i,
                forall|j: int| 0 <= j < i ==> (#[trigger] names@[j])@ == modes@[j].label(),
            decreases modes.len() - i,
        {
            names.push(modes[i].as_str().to_string());
            i = i + 1;
        }
        assert(protocol::texts(names@) =~= labels(modes@));
        ServiceSchema { streaming_modes: names, ..self }
    }

    pub fn with_metadata(self, metadata: Value) -> (r: ServiceSchema)
        ensures
            r@ == (SchemaView { metadata: metadata@, ..self@ }),
    {
        ServiceSchema { metadata, ..self }
    }
}

/// What can describe itself by a schema.
pub trait ServiceSchemaProvider: Send + Sync {
    fn get_schema(&self) -> (r: ServiceSchema)
        ensures
            true,
        default_ensures
            r@ == plain_schema("unknown"@, "1.0"@),
    {
        ServiceSchema::new("unknown", "1.0")
    }
}

impl<T: ServiceHandler> ServiceSchemaProvider for T {

}

impl<T: ServiceHandler> ServiceSchemaProvider for Arc<T> {
    fn get_schema(&self) -> (r: ServiceSchema)
        ensures
            r@ == plain_schema((*self).name(), "1.0"@),
    {
        ServiceSchema::new(self.service_name(), "1.0")
    }
}

/// The schema of a service of which only the name and the version are known tells
/// these, what a request and a response look like, and that whole results can be
/// streamed. It claims nothing else.
pub proof fn law_plain_schema_tells_name_and_version(service_name: Seq<char>, version: Seq<char>)
    ensures
        ({
            let s = plain_schema(service_name, version);
            let of_type = |name: Seq<char>| Json::Object(seq![("type"@, Json::String(name))]);
            &&& s.service_name == service_name
            &&& s.version == version
            &&& s.state_schema is None
            &&& s.capabilities.len() == 0
            &&& s.streaming_modes == seq!["result"@]
            &&& s.metadata == Json::Object(Seq::empty())
            &&& s.input_schema == Json::Object(
                seq![
                    ("type"@, Json::String("object"@)),
                    (
                        "properties"@,
                        Json::Object(
                            seq![
                                ("method"@, of_type("string"@)),
                                ("payload"@, of_type("object"@)),
                            ],
                        ),
                    ),
                ],
            )
            &&& s.output_schema == Json::Object(
                seq![
                    ("type"@, Json::String("object"@)),
                    (
                        "properties"@,
                        Json::Object(
                            seq![
                                ("status"@, of_type("string"@)),
                                ("payload"@, Json::Object(Seq::empty())),
                            ],
                        ),
                    ),
                ],
            )
        }),
{
}

/// Each part of a schema is set without the others; the modes are written by their names.
pub proof fn law_parts_are_set_one_by_one(
    s: ServiceSchema,
    v: Value,
    input: ServiceSchema,
    output: ServiceSchema,
    state: ServiceSchema,
    meta: ServiceSchema,
    modes: Vec<StreamMode>,
    streaming: ServiceSchema,
    i: int,
)
    requires
        call_ensures(ServiceSchema::with_input_schema, (s, v), input),
        call_ensures(ServiceSchema::with_output_schema, (s, v), output),
        call_ensures(ServiceSchema::with_state_schema, (s, v), state),
        call_ensures(ServiceSchema::with_metadata, (s, v), meta),
        call_ensures(ServiceSchema::with_streaming_modes, (s, modes), streaming),
        0 <= i < modes@.len(),
    ensures
        input@ == (SchemaView { input_schema: v@, ..s@ }),
        output@ == (SchemaView { output_schema: v@, ..s@ }),
        state@ == (SchemaView { state_schema: Some(v@), ..s@ }),
        meta@ == (SchemaView { metadata: v@, ..s@ }),
        streaming@.streaming_modes.len() == modes@.len(),
        streaming@.streaming_modes[i] == modes@[i].label(),
        streaming@.service_name == s@.service_name && streaming@.input_schema == s@.input_schema,
{
}

/// The schema of a service is under its name and version.
pub proof fn law_new_schema_is_of_its_service(name: &str, version: &str, s: ServiceSchema)
    requires
        call_ensures(ServiceSchema::new, (name, version), s),
    ensures
        s.service_name@ == name@ && s.version@ == version@,
        s.capabilities@.len() == 0 && s.state_schema is None,
{
    assert(capability_views(s.capabilities@).len() == s.capabilities@.len());
}

} // verus!
