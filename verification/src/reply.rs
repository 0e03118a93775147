//! What the replies of the sandbox service mean: a status and a body are
//! read as the answer to a listing or to a creation, or as a failure.

use serde_json::Value;
use vstd::prelude::*;
use vstd::slice::slice_to_vec;
use crate::error::{texts, Call, ClientError, DecodeFault, Failure, Operation};
use crate::json::{json_doc, json_docs, json_member, json_parsed, parse_json, JsonDoc};
use crate::tsbx::SandboxRecord;

verus! {

/// Whether a status is a success: one of the statuses from 200 to 299.
pub open spec fn success(status: u16) -> bool {
    200 <= status < 300
}

/// Whether a status is a success.
pub fn is_success(status: u16) -> (r: bool)
    ensures
        r == success(status),
{
    200 <= status && status < 300
}

/// What a listing says: whether it lists any sandbox. A listing is a JSON
/// object whose member `items` is an array; what the array holds is not
/// looked at.
pub open spec fn listing_of(doc: JsonDoc) -> Result<bool, DecodeFault> {
    match doc {
        JsonDoc::Object(members) => if members.contains_key("items"@) {
            match members["items"@] {
                JsonDoc::Array(items) => Ok(items.len() > 0),
                _ => Err(DecodeFault::UnexpectedType),
            }
        } else {
            Err(DecodeFault::MissingField)
        },
        _ => Err(DecodeFault::MissingField),
    }
}

/// The identifier that a record holds. A record is a JSON object whose
/// member `id` is a string; other members are not looked at.
pub open spec fn record_of(doc: JsonDoc) -> Result<Seq<char>, DecodeFault> {
    match doc {
        JsonDoc::Object(members) => if members.contains_key("id"@) {
            match members["id"@] {
                JsonDoc::Text(id) => Ok(id),
                _ => Err(DecodeFault::UnexpectedType),
            }
        } else {
            Err(DecodeFault::MissingField)
        },
        _ => Err(DecodeFault::MissingField),
    }
}

/// The document in the reply to `operation`. A status that is no success is
/// a remote failure that carries the status and the body as they came; a
/// success whose body is no JSON is a decode failure.
pub open spec fn reply_document(operation: Call, status: u16, body: Seq<u8>) -> Result<
    JsonDoc,
    Failure,
> {
    if !success(status) {
        Err(Failure::Remote { operation, status, body })
    } else {
        match json_parsed(body) {
            Some(doc) => Ok(doc),
            None => Err(Failure::Decode { operation, fault: DecodeFault::InvalidJson }),
        }
    }
}

/// What the reply to a listing by `tag` means: whether a sandbox exists.
pub open spec fn exists_outcome(tag: Seq<char>, status: u16, body: Seq<u8>) -> Result<
    bool,
    Failure,
> {
    let operation = Call::ListSandboxes { tag };
    match reply_document(operation, status, body) {
        Err(failure) => Err(failure),
        Ok(doc) => match listing_of(doc) {
            Ok(any) => Ok(any),
            Err(fault) => Err(Failure::Decode { operation, fault }),
        },
    }
}

/// What the reply to the creation of a sandbox of `tags` means: the
/// identifier of the new sandbox.
pub open spec fn create_outcome(tags: Seq<Seq<char>>, status: u16, body: Seq<u8>) -> Result<
    Seq<char>,
    Failure,
> {
    let operation = Call::CreateSandbox { tags };
    match reply_document(operation, status, body) {
        Err(failure) => Err(failure),
        Ok(doc) => match record_of(doc) {
            Ok(id) => Ok(id),
            Err(fault) => Err(Failure::Decode { operation, fault }),
        },
    }
}

/// Reads a listing: whether it lists any sandbox.
pub fn listing_has_items(doc: &Value) -> (r: Result<bool, DecodeFault>)
    ensures
        r == listing_of(json_doc(*doc)),
{
    match json_member(doc, "items") {
        Some(items) => match items.as_array() {
            Some(list) => {
                assert(json_docs(list@).len() == list@.len());
                Ok(list.len() > 0)
            },
            None => Err(DecodeFault::UnexpectedType),
        },
        None => Err(DecodeFault::MissingField),
    }
}

/// Reads a record: the sandbox of the identifier that the record holds.
pub fn record_from(doc: &Value) -> (r: Result<SandboxRecord, DecodeFault>)
    ensures
        match r {
            Ok(record) => record_of(json_doc(*doc)) == Ok::<_, DecodeFault>(record.id@),
            Err(fault) => record_of(json_doc(*doc)) == Err::<Seq<char>, _>(fault),
        },
{
    match json_member(doc, "id") {
        Some(id) => match id.as_str() {
            Some(text) => Ok(SandboxRecord { id: text.to_owned() }),
            None => Err(DecodeFault::UnexpectedType),
        },
        None => Err(DecodeFault::MissingField),
    }
}

/// Reads the reply to `operation`: the JSON document in the body of a
/// success.
pub fn reply_json(operation: Operation, status: u16, body: &[u8]) -> (r: Result<Value, ClientError>)
    ensures
        match r {
            Ok(doc) => reply_document(operation@, status, body@) == Ok::<_, Failure>(json_doc(doc)),
            Err(e) => reply_document(operation@, status, body@) == Err::<JsonDoc, _>(e@),
        },
{
    if !is_success(status) {
        return Err(ClientError::Remote { operation, status, body: slice_to_vec(body) });
    }
    match parse_json(body) {
        Ok(doc) => Ok(doc),
        Err(_) => Err(ClientError::Decode { operation, fault: DecodeFault::InvalidJson }),
    }
}

/// What a reply whose body could not be read means. Under a status that is
/// no success it is a remote failure without a body, and else a transport
/// failure: the reply was not received.
pub open spec fn unread_outcome(operation: Call, status: u16, detail: Seq<char>) -> Failure {
    if success(status) {
        Failure::Transport { operation, detail }
    } else {
        Failure::Remote { operation, status, body: Seq::empty() }
    }
}

/// The failure that stands for a reply to `operation` of which the status
/// came and the body could not be read; `detail` says why it could not.
pub fn unread_reply(operation: Operation, status: u16, detail: String) -> (r: ClientError)
    ensures
        r@ == unread_outcome(operation@, status, detail@),
{
    if is_success(status) {
        ClientError::Transport { operation, detail }
    } else {
        ClientError::Remote { operation, status, body: Vec::new() }
    }
}

/// The listing by `tag` as the call that a failure names.
fn listing(tag: &str) -> (r: Operation)
    ensures
        r@ == (Call::ListSandboxes { tag: tag@ }),
{
    Operation::ListSandboxes { tag: tag.to_owned() }
}

/// The creation of a sandbox of `tags` as the call that a failure names.
fn creation(tags: &Vec<String>) -> (r: Operation)
    ensures
        r@ == (Call::CreateSandbox { tags: texts(tags@) }),
{
    let mut copy: Vec<String> = Vec::new();
    let mut i: usize = 0;
    while i < tags.len()
        invariant
            i <= tags@.len(),
            copy@ == tags@.take(i as int),
        decreases tags@.len() - i,
    {
        copy.push(tags[i].clone());
        i += 1;
        assert(copy@ =~= tags@.take(i as int));
    }
    assert(tags@.take(i as int) =~= tags@);
    Operation::CreateSandbox { tags: copy }
}

/// Reads the reply to a listing by `tag`: whether a sandbox of that tag
/// exists. A failure names the listing and the tag.
pub fn sandbox_exists_reply(tag: &str, status: u16, body: &[u8]) -> (r: Result<bool, ClientError>)
    ensures
        match r {
            Ok(any) => exists_outcome(tag@, status, body@) == Ok::<_, Failure>(any),
            Err(e) => exists_outcome(tag@, status, body@) == Err::<bool, _>(e@),
        },
{
    let doc = match reply_json(listing(tag), status, body) {
        Ok(doc) => doc,
        Err(e) => { return Err(e); },
    };
    match listing_has_items(&doc) {
        Ok(any) => Ok(any),
        Err(fault) => Err(ClientError::Decode { operation: listing(tag), fault }),
    }
}

/// Reads the reply to the creation of a sandbox of `tags`: the new
/// sandbox. A failure names the creation and the tags.
pub fn create_sandbox_reply(tags: &Vec<String>, status: u16, body: &[u8]) -> (r: Result<
    SandboxRecord,
    ClientError,
>)
    ensures
        match r {
            Ok(record) => create_outcome(texts(tags@), status, body@) == Ok::<_, Failure>(
                record.id@,
            ),
            Err(e) => create_outcome(texts(tags@), status, body@) == Err::<Seq<char>, _>(e@),
        },
{
    let doc = match reply_json(creation(tags), status, body) {
        Ok(doc) => doc,
        Err(e) => { return Err(e); },
    };
    match record_from(&doc) {
        Ok(record) => Ok(record),
        Err(fault) => Err(ClientError::Decode { operation: creation(tags), fault }),
    }
}

/// A listing that was received with a success says that a sandbox exists
/// exactly when its `items` hold at least one element, whatever the
/// elements are.
pub proof fn lemma_listing_emptiness(
    tag: Seq<char>,
    status: u16,
    body: Seq<u8>,
    members: Map<Seq<char>, JsonDoc>,
    items: Seq<JsonDoc>,
)
    requires
        success(status),
        json_parsed(body) == Some(JsonDoc::Object(members)),
        members.contains_key("items"@),
        members["items"@] == JsonDoc::Array(items),
    ensures
        exists_outcome(tag, status, body) == Ok::<bool, Failure>(items.len() > 0),
{
}

/// A reply whose status is no success is a remote failure for both calls,
/// with the status and the body as they came, whatever the body holds, and
/// with what the call was about.
pub proof fn lemma_remote_failure(tag: Seq<char>, tags: Seq<Seq<char>>, status: u16, body: Seq<u8>)
    requires
        !success(status),
    ensures
        exists_outcome(tag, status, body) == Err::<bool, Failure>(
            Failure::Remote { operation: Call::ListSandboxes { tag }, status, body },
        ),
        create_outcome(tags, status, body) == Err::<Seq<char>, Failure>(
            Failure::Remote { operation: Call::CreateSandbox { tags }, status, body },
        ),
{
}

/// A success whose body is JSON without the member that the call expects,
/// `items` for a listing and `id` for a creation, is a decode failure.
pub proof fn lemma_missing_member(
    tag: Seq<char>,
    tags: Seq<Seq<char>>,
    status: u16,
    body: Seq<u8>,
    doc: JsonDoc,
)
    requires
        success(status),
        json_parsed(body) == Some(doc),
    ensures
        !(doc matches JsonDoc::Object(members) && members.contains_key("items"@))
            ==> exists_outcome(tag, status, body) == Err::<bool, Failure>(
            Failure::Decode {
                operation: Call::ListSandboxes { tag },
                fault: DecodeFault::MissingField,
            },
        ),
        !(doc matches JsonDoc::Object(members) && members.contains_key("id"@)) ==> create_outcome(
            tags,
            status,
            body,
        ) == Err::<Seq<char>, Failure>(
            Failure::Decode {
                operation: Call::CreateSandbox { tags },
                fault: DecodeFault::MissingField,
            },
        ),
{
}

} // verus!
