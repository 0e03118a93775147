//! The request that asks for a new sandbox, and the JSON document that is
//! sent for it.

use serde_json::Value;
use vstd::prelude::*;
use crate::env_map::{pairs_map, EnvMap};
use crate::json::{
    json_array, json_doc, json_docs, json_integer, json_members, json_object, json_text,
    no_members, JsonDoc,
};

verus! {

/// The JSON strings of a sequence of texts, one for one.
pub open spec fn text_docs(texts: Seq<String>) -> Seq<JsonDoc> {
    texts.map_values(|s: String| JsonDoc::Text(s@))
}

/// The members of the JSON object that spells out a mapping from names to
/// texts: the same names, each with its text as a JSON string.
pub open spec fn text_members(texts: Map<Seq<char>, Seq<char>>) -> Map<Seq<char>, JsonDoc> {
    texts.map_values(|s: Seq<char>| JsonDoc::Text(s))
}

/// The JSON string of a text that may be unset.
pub open spec fn optional_text(value: Option<String>) -> Option<JsonDoc> {
    match value {
        Some(text) => Some(JsonDoc::Text(text@)),
        None => None,
    }
}

/// `members` with the document `value`, where there is one, under `name`.
pub open spec fn with_member(
    members: Map<Seq<char>, JsonDoc>,
    name: Seq<char>,
    value: Option<JsonDoc>,
) -> Map<Seq<char>, JsonDoc> {
    match value {
        Some(doc) => members.insert(name, doc),
        None => members,
    }
}

/// The sandbox that is asked for.
#[derive(Debug)]
pub struct NewSandboxPayload {
    pub metadata: Value,
    pub description: Option<String>,
    pub tags: Vec<String>,
    pub instructions: Option<String>,
    pub setup: Option<String>,
    pub startup_task: Option<String>,
    pub env: EnvMap,
    pub idle_timeout_seconds: Option<i32>,
    pub inference_model: Option<String>,
}

impl NewSandboxPayload {
    /// Whether nothing but the metadata is set.
    pub open spec fn only_metadata(&self) -> bool {
        &&& self.description is None
        &&& self.tags@.len() == 0
        &&& self.instructions is None
        &&& self.setup is None
        &&& self.startup_task is None
        &&& self.env@ == Map::<Seq<char>, Seq<char>>::empty()
        &&& self.idle_timeout_seconds is None
        &&& self.inference_model is None
    }

    /// What is sent under the name `name` for this request, if anything.
    /// The metadata is always sent. Each other field is sent exactly when it
    /// is set: for the tags and the variables, when there is at least one.
    /// Nothing is sent under any other name.
    pub open spec fn wire_member(&self, name: Seq<char>) -> Option<JsonDoc> {
        if name == "metadata"@ {
            Some(json_doc(self.metadata))
        } else if name == "description"@ {
            optional_text(self.description)
        } else if name == "tags"@ {
            if self.tags@.len() > 0 {
                Some(JsonDoc::Array(text_docs(self.tags@)))
            } else {
                None
            }
        } else if name == "instructions"@ {
            optional_text(self.instructions)
        } else if name == "setup"@ {
            optional_text(self.setup)
        } else if name == "startup_task"@ {
            optional_text(self.startup_task)
        } else if name == "env"@ {
            if self.env@ == Map::<Seq<char>, Seq<char>>::empty() {
                None
            } else {
                Some(JsonDoc::Object(text_members(self.env@)))
            }
        } else if name == "idle_timeout_seconds"@ {
            match self.idle_timeout_seconds {
                Some(secs) => Some(JsonDoc::Integer(secs as int)),
                None => None,
            }
        } else if name == "inference_model"@ {
            optional_text(self.inference_model)
        } else {
            None
        }
    }

    /// The members of the JSON object sent for this request.
    pub open spec fn wire_members(&self) -> Map<Seq<char>, JsonDoc> {
        Map::new(
            |name: Seq<char>| self.wire_member(name) is Some,
            |name: Seq<char>| self.wire_member(name)->Some_0,
        )
    }

    /// The JSON document sent for this request.
    pub open spec fn wire_document(&self) -> JsonDoc {
        JsonDoc::Object(self.wire_members())
    }

    /// A request that sets the metadata and nothing else.
    pub fn new(metadata: Value) -> (r: Self)
        ensures
            r.metadata == metadata,
            r.only_metadata(),
    {
        NewSandboxPayload {
            metadata,
            description: None,
            tags: Vec::new(),
            instructions: None,
            setup: None,
            startup_task: None,
            env: EnvMap::new(),
            idle_timeout_seconds: None,
            inference_model: None,
        }
    }

    /// The same request with the description set, or unset.
    pub fn with_description(self, description: Option<String>) -> (r: Self)
        ensures
            r == (NewSandboxPayload { description, ..self }),
    {
        let mut payload = self;
        payload.description = description;
        payload
    }

    /// The same request with these tags.
    pub fn with_tags(self, tags: Vec<String>) -> (r: Self)
        ensures
            r == (NewSandboxPayload { tags, ..self }),
    {
        let mut payload = self;
        payload.tags = tags;
        payload
    }

    /// The same request with these instructions.
    pub fn with_instructions(self, instructions: String) -> (r: Self)
        ensures
            r == (NewSandboxPayload { instructions: Some(instructions), ..self }),
    {
        let mut payload = self;
        payload.instructions = Some(instructions);
        payload
    }

    /// The same request with the idle timeout set, or unset. The number is
    /// taken as it is, whatever its sign.
    pub fn with_idle_timeout(self, secs: Option<i32>) -> (r: Self)
        ensures
            r == (NewSandboxPayload { idle_timeout_seconds: secs, ..self }),
    {
        let mut payload = self;
        payload.idle_timeout_seconds = secs;
        payload
    }

    /// The same request with these variables.
    pub fn with_env(self, env: EnvMap) -> (r: Self)
        ensures
            r == (NewSandboxPayload { env, ..self }),
    {
        let mut payload = self;
        payload.env = env;
        payload
    }

    /// The same request with this startup task.
    pub fn with_startup_task(self, task: String) -> (r: Self)
        ensures
            r == (NewSandboxPayload { startup_task: Some(task), ..self }),
    {
        let mut payload = self;
        payload.startup_task = Some(task);
        payload
    }

    /// The JSON document sent for this request.
    pub fn to_json(&self) -> (r: Value)
        ensures
            json_doc(r) == self.wire_document(),
    {
        let mut members = serde_json::Map::new();
        members.insert("metadata".to_owned(), self.metadata.clone());
        insert_text(&mut members, "description", &self.description);
        if self.tags.len() > 0 {
            members.insert("tags".to_owned(), tag_array(&self.tags));
        }
        insert_text(&mut members, "instructions", &self.instructions);
        insert_text(&mut members, "setup", &self.setup);
        insert_text(&mut members, "startup_task", &self.startup_task);
        if !self.env.is_empty() {
            members.insert("env".to_owned(), env_object(&self.env));
        }
        match self.idle_timeout_seconds {
            Some(secs) => {
                members.insert("idle_timeout_seconds".to_owned(), json_integer(secs));
            },
            None => {},
        }
        insert_text(&mut members, "inference_model", &self.inference_model);
        proof {
            lemma_member_names_differ();
            assert(json_members(members) =~= self.wire_members());
        }
        json_object(members)
    }
}

/// The nine names under which a request is sent differ from one another.
proof fn lemma_member_names_differ()
    ensures
        "metadata"@.len() == 8,
        "description"@.len() == 11,
        "tags"@.len() == 4,
        "instructions"@.len() == 12,
        "setup"@.len() == 5,
        "startup_task"@.len() == 12,
        "env"@.len() == 3,
        "idle_timeout_seconds"@.len() == 20,
        "inference_model"@.len() == 15,
        "instructions"@[0] == 'i',
        "startup_task"@[0] == 's',
{
    reveal_strlit("metadata");
    reveal_strlit("description");
    reveal_strlit("tags");
    reveal_strlit("instructions");
    reveal_strlit("setup");
    reveal_strlit("startup_task");
    reveal_strlit("env");
    reveal_strlit("idle_timeout_seconds");
    reveal_strlit("inference_model");
}

/// Adds the text `value`, where there is one, to `members` under `name`.
fn insert_text(members: &mut serde_json::Map<String, Value>, name: &str, value: &Option<String>)
    ensures
        json_members(*final(members)) == with_member(
            json_members(*old(members)),
            name@,
            optional_text(*value),
        ),
{
    match value {
        Some(text) => {
            members.insert(name.to_owned(), json_text(text.clone()));
        },
        None => {},
    }
}

/// The JSON array of the tags, in their order.
pub fn tag_array(tags: &Vec<String>) -> (r: Value)
    ensures
        json_doc(r) == JsonDoc::Array(text_docs(tags@)),
{
    let mut items: Vec<Value> = Vec::new();
    let mut i: usize = 0;
    while i < tags.len()
        invariant
            i <= tags@.len(),
            items@.len() == i,
            json_docs(items@) == text_docs(tags@.take(i as int)),
        decreases tags@.len() - i,
    {
        let ghost before = items@;
        let item = json_text(tags[i].clone());
        items.push(item);
        proof {
            let texts = tags@.take(i + 1);
            assert forall|j: int| 0 <= j < items@.len() implies json_docs(items@)[j] == text_docs(
                texts,
            )[j] by {
                if j < i {
                    assert(json_docs(before)[j] == text_docs(tags@.take(i as int))[j]);
                }
            }
            assert(json_docs(items@) =~= text_docs(texts));
        }
        i += 1;
    }
    assert(tags@.take(i as int) =~= tags@);
    json_array(items)
}

/// Binding a name to a text and then taking the JSON strings gives what
/// binding the name to the JSON string of the text gives.
proof fn lemma_text_members_insert(
    texts: Map<Seq<char>, Seq<char>>,
    name: Seq<char>,
    value: Seq<char>,
)
    ensures
        text_members(texts.insert(name, value)) == text_members(texts).insert(
            name,
            JsonDoc::Text(value),
        ),
{
    assert(text_members(texts.insert(name, value)) =~= text_members(texts).insert(
        name,
        JsonDoc::Text(value),
    ));
}

/// The JSON object of the variables: each name with its value as a JSON
/// string.
pub fn env_object(env: &EnvMap) -> (r: Value)
    ensures
        json_doc(r) == JsonDoc::Object(text_members(env@)),
{
    let pairs = env.pairs();
    let mut members = serde_json::Map::new();
    let mut i: usize = 0;
    assert(text_members(pairs_map(pairs@.take(0))) =~= no_members());
    while i < pairs.len()
        invariant
            i <= pairs@.len(),
            json_members(members) == text_members(pairs_map(pairs@.take(i as int))),
        decreases pairs@.len() - i,
    {
        let name = pairs[i].0.clone();
        let value = pairs[i].1.clone();
        proof {
            let before = pairs@.take(i as int);
            let after = pairs@.take(i + 1);
            assert(after.drop_last() =~= before);
            assert(after.last() == pairs@[i as int]);
            lemma_text_members_insert(pairs_map(before), name@, value@);
        }
        members.insert(name, json_text(value));
        i += 1;
    }
    assert(pairs@.take(i as int) =~= pairs@);
    json_object(members)
}

/// A request with nothing but the metadata set is sent as an object of one
/// member, the metadata: no other name is in it.
pub proof fn lemma_only_metadata_on_wire(payload: NewSandboxPayload)
    requires
        payload.only_metadata(),
    ensures
        payload.wire_members() == Map::<Seq<char>, JsonDoc>::empty().insert(
            "metadata"@,
            json_doc(payload.metadata),
        ),
        payload.wire_members().dom() == set!["metadata"@],
        payload.wire_members().dom().len() == 1,
{
    assert(payload.wire_members() =~= Map::<Seq<char>, JsonDoc>::empty().insert(
        "metadata"@,
        json_doc(payload.metadata),
    ));
    assert(payload.wire_members().dom() =~= set!["metadata"@]);
}

/// The variables of a request are sent exactly when there is one. They are
/// then sent as the object `env` with the same names, each name with the
/// value it has in the request.
pub proof fn lemma_env_on_wire(payload: NewSandboxPayload)
    ensures
        payload.env@ == Map::<Seq<char>, Seq<char>>::empty()
            ==> !payload.wire_members().contains_key("env"@),
        payload.env@ != Map::<Seq<char>, Seq<char>>::empty() ==> payload.wire_members().contains_key(
            "env"@,
        ) && payload.wire_members()["env"@] == JsonDoc::Object(text_members(payload.env@)),
        forall|name: Seq<char>|
            text_members(payload.env@).contains_key(name) <==> payload.env@.contains_key(name),
        forall|name: Seq<char>|
            payload.env@.contains_key(name) ==> text_members(payload.env@)[name] == JsonDoc::Text(
                payload.env@[name],
            ),
{
    lemma_member_names_differ();
}

} // verus!
