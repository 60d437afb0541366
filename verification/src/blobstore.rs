//! What a blob store is asked, and what its answers stand for.

use vstd::prelude::*;
use vstd::string::*;

use crate::text::{cut_before_first, quote};

verus! {

use crate::text::{lemma_before_first, quoted, texts};
use vstd::utf8::encode_utf8;

/// Asks for a part of an object.
#[derive(Debug)]
pub struct GetObjectRequest {
    pub object_id: String,
    pub container_id: String,
    pub range_start: Option<u64>,
    pub range_end: Option<u64>,
}

/// A piece of an object.
#[derive(Debug)]
pub struct Chunk {
    pub object_id: String,
    pub container_id: String,
    pub bytes: Vec<u8>,
    pub offset: u64,
    pub is_last: bool,
}

#[derive(Debug)]
pub struct GetObjectResponse {
    pub success: bool,
    pub error: Option<String>,
    pub initial_chunk: Option<Chunk>,
}

/// Names an object.
#[derive(Debug)]
pub struct ContainerObject {
    pub container_id: String,
    pub object_id: String,
}

/// Asks to remove objects.
#[derive(Debug)]
pub struct RemoveObjectsRequest {
    pub container_id: String,
    pub objects: Vec<String>,
}

/// What became of one object that was to be removed.
#[derive(Debug)]
pub struct ItemResult {
    pub key: String,
    pub success: bool,
    pub error: Option<String>,
}

/// Asks for the objects of a container.
#[derive(Debug)]
pub struct ListObjectsRequest {
    pub container_id: String,
    pub max_items: Option<u32>,
}

#[derive(Debug)]
pub struct ObjectMetadata {
    pub object_id: String,
    pub container_id: String,
    pub content_length: u64,
}

#[derive(Debug)]
pub struct ListObjectsResponse {
    pub objects: Vec<ObjectMetadata>,
    pub is_last: bool,
    pub continuation: Option<String>,
}

/// What is known of a container: its name and the second it was made in.
#[derive(Debug)]
pub struct ContainerInfo {
    pub name: String,
    pub created_at: u64,
}

/// What is known of an object.
#[derive(Debug)]
pub struct ObjectInfo {
    pub name: String,
    pub container: String,
    pub size: u64,
    pub created_at: u64,
}

/// Why an answer of a blob store is not taken.
#[derive(Debug)]
pub enum BlobError {
    /// The object was not handed out; the store may say why.
    GetObject(Option<String>),
    /// A piece of another object was handed out than was asked for.
    OtherObject { found: String, asked: String },
    /// A piece of an object of another container was handed out than was asked
    /// for.
    OtherContainer { found: String, asked: String },
    /// The container was made before 1970.
    Timestamp,
    /// The store wants the rest of an object of which there is none.
    StreamId,
    /// An object was not removed, for this reason.
    Item(String),
    /// An object was not removed, for no reason.
    NotRemoved(String),
    /// There are more objects than were listed.
    NotLast,
    /// The objects are listed in parts.
    Continued,
}

/// A text that is short and simple enough to be shown: at most 40 bytes, no
/// space and no end of line.
pub open spec fn showable(s: Seq<char>) -> bool {
    encode_utf8(s).len() <= 40 && !s.contains(' ') && !s.contains('\n')
}

/// A condition that does not hold of two texts. The texts are shown where both
/// can be.
pub open spec fn failed_condition(condition: Seq<char>, found: Seq<char>, asked: Seq<char>) -> Seq<
    char,
> {
    let text = "Condition failed: `"@ + condition + "`"@;
    if showable(quoted(found)) && showable(quoted(asked)) {
        text + " ("@ + quoted(found) + " vs "@ + quoted(asked) + ")"@
    } else {
        text
    }
}

fn can_show(s: &String) -> (r: bool)
    ensures
        r == showable(s@),
{
    proof {
        lemma_before_first(s@, ' ');
        lemma_before_first(s@, '\n');
    }
    s.as_str().as_bytes().len() <= 40 && cut_before_first(s, ' ').is_none() && cut_before_first(
        s,
        '\n',
    ).is_none()
}

fn tell_failed_condition(condition: &str, found: &String, asked: &String) -> (r: String)
    ensures
        r@ == failed_condition(condition@, found@, asked@),
{
    let mut text = "Condition failed: `".to_owned();
    text.append(condition);
    text.append("`");
    let found = quote(found.as_str());
    let asked = quote(asked.as_str());
    if can_show(&found) && can_show(&asked) {
        text.append(" (");
        text.append(found.as_str());
        text.append(" vs ");
        text.append(asked.as_str());
        text.append(")");
    }
    text
}

impl BlobError {
    /// What the caller is told. Why an object was not handed out stands behind
    /// it, where the store says so.
    pub open spec fn text(self) -> Seq<char> {
        match self {
            BlobError::GetObject(_) => "failed to get object response"@,
            BlobError::OtherObject { found, asked } => failed_condition(
                "object_id == name"@,
                found@,
                asked@,
            ),
            BlobError::OtherContainer { found, asked } => failed_condition(
                "container_id == container"@,
                found@,
                asked@,
            ),
            BlobError::Timestamp => "timestamp seconds do not fit in `u64`"@,
            BlobError::StreamId => "provider returned an unexpected stream ID"@,
            BlobError::Item(why) => why@,
            BlobError::NotRemoved(key) => "failed to delete object `"@ + key@ + "`"@,
            BlobError::NotLast => "Condition failed: `is_last`"@,
            BlobError::Continued => "chunked responses not supported"@,
        }
    }

    /// What the caller is told.
    pub fn message(&self) -> (r: String)
        ensures
            r@ == self.text(),
    {
        match self {
            BlobError::GetObject(_) => "failed to get object response".to_owned(),
            BlobError::OtherObject { found, asked } => tell_failed_condition(
                "object_id == name",
                found,
                asked,
            ),
            BlobError::OtherContainer { found, asked } => tell_failed_condition(
                "container_id == container",
                found,
                asked,
            ),
            BlobError::Timestamp => "timestamp seconds do not fit in `u64`".to_owned(),
            BlobError::StreamId => "provider returned an unexpected stream ID".to_owned(),
            BlobError::Item(why) => why.clone(),
            BlobError::NotRemoved(key) => {
                let mut text = "failed to delete object `".to_owned();
                text.append(key.as_str());
                text.append("`");
                text
            },
            BlobError::NotLast => "Condition failed: `is_last`".to_owned(),
            BlobError::Continued => "chunked responses not supported".to_owned(),
        }
    }
}

/// Asks for the part of an object from byte `start` to byte `end`, both
/// included.
pub fn get_data_request(container: &String, name: &String, start: u64, end: u64) -> (r:
    GetObjectRequest)
    ensures
        r.object_id@ == name@,
        r.container_id@ == container@,
        r.range_start == Some(start),
        r.range_end == Some(end),
{
    GetObjectRequest {
        object_id: name.clone(),
        container_id: container.clone(),
        range_start: Some(start),
        range_end: Some(end),
    }
}

/// The bytes of an object and how many they are. Success with no piece stands
/// for an empty object.
pub fn get_data_result(
    response: GetObjectResponse,
    container: &String,
    name: &String,
) -> (r: Result<(Vec<u8>, u64), BlobError>)
    ensures
        match (response.success, response.initial_chunk, response.error) {
            (_, _, Some(err)) => r == Err::<(Vec<u8>, u64), BlobError>(
                BlobError::GetObject(Some(err)),
            ),
            (false, _, None) => r == Err::<(Vec<u8>, u64), BlobError>(BlobError::GetObject(None)),
            (true, None, None) => r matches Ok(data) && data.0@.len() == 0 && data.1 == 0,
            (true, Some(chunk), None) => if chunk.object_id@ != name@ {
                r matches Err(BlobError::OtherObject { found, asked }) && found == chunk.object_id
                    && asked@ == name@
            } else if chunk.container_id@ != container@ {
                r matches Err(BlobError::OtherContainer { found, asked }) && found
                    == chunk.container_id && asked@ == container@
            } else {
                r matches Ok(data) && data.0 == chunk.bytes && data.1 == chunk.bytes@.len()
            },
        },
{
    match (response.success, response.initial_chunk, response.error) {
        (_, _, Some(err)) => Err(BlobError::GetObject(Some(err))),
        (false, _, None) => Err(BlobError::GetObject(None)),
        (true, None, None) => Ok((Vec::new(), 0)),
        (true, Some(chunk), None) => {
            if chunk.object_id != *name {
                return Err(
                    BlobError::OtherObject { found: chunk.object_id, asked: name.clone() },
                );
            }
            if chunk.container_id != *container {
                return Err(
                    BlobError::OtherContainer { found: chunk.container_id, asked: container.clone() },
                );
            }
            let size: u64 = chunk.bytes.len() as u64;
            Ok((chunk.bytes, size))
        },
    }
}

/// What is known of a container, from its name and the second it was made in,
/// if that is known.
pub fn container_info_result(container_id: String, created_at: Option<i64>) -> (r: Result<
    ContainerInfo,
    BlobError,
>)
    ensures
        match created_at {
            Some(seconds) => if seconds < 0 {
                r == Err::<ContainerInfo, BlobError>(BlobError::Timestamp)
            } else {
                r matches Ok(info) && info.name == container_id && info.created_at == seconds
            },
            None => r matches Ok(info) && info.name == container_id && info.created_at == 0,
        },
{
    match created_at {
        Some(seconds) => match u64::try_from(seconds) {
            Ok(created_at) => Ok(ContainerInfo { name: container_id, created_at }),
            Err(_) => Err(BlobError::Timestamp),
        },
        None => Ok(ContainerInfo { name: container_id, created_at: 0 }),
    }
}

/// Names an object to ask whether it is there.
pub fn has_object_request(container: &String, name: String) -> (r: ContainerObject)
    ensures
        r.container_id@ == container@,
        r.object_id == name,
{
    ContainerObject { container_id: container.clone(), object_id: name }
}

/// A whole object in one piece.
pub fn write_data_request(container: &String, name: String, bytes: Vec<u8>) -> (r: Chunk)
    ensures
        r.object_id == name,
        r.container_id@ == container@,
        r.bytes == bytes,
        r.offset == 0,
        r.is_last,
{
    Chunk { object_id: name, container_id: container.clone(), bytes, offset: 0, is_last: true }
}

/// An object that was written in one piece is written; the store asks for no
/// more of it.
pub fn write_data_result(stream_id: Option<String>) -> (r: Result<(), BlobError>)
    ensures
        r == if stream_id is None {
            Ok(())
        } else {
            Err(BlobError::StreamId)
        },
{
    match stream_id {
        Some(_) => Err(BlobError::StreamId),
        None => Ok(()),
    }
}

/// Asks to remove objects.
pub fn delete_objects_request(container: &String, names: Vec<String>) -> (r: RemoveObjectsRequest)
    ensures
        r.container_id@ == container@,
        r.objects == names,
{
    RemoveObjectsRequest { container_id: container.clone(), objects: names }
}

/// An object was removed and nothing went wrong.
pub open spec fn removed(item: ItemResult) -> bool {
    item.success && item.error is None
}

/// Objects are removed where each of them was; else the first that was not
/// decides what went wrong.
pub fn delete_objects_result(items: &Vec<ItemResult>) -> (r: Result<(), BlobError>)
    ensures
        match r {
            Ok(()) => forall|i: int| 0 <= i < items@.len() ==> removed(#[trigger] items@[i]),
            Err(e) => exists|i: int|
                {
                    &&& 0 <= i < items@.len()
                    &&& !removed(#[trigger] items@[i])
                    &&& forall|j: int| 0 <= j < i ==> removed(#[trigger] items@[j])
                    &&& match items@[i].error {
                        Some(text) => e matches BlobError::Item(why) && why@ == text@,
                        None => e matches BlobError::NotRemoved(key) && key@ == items@[i].key@,
                    }
                },
        },
{
    let mut i: usize = 0;
    while i < items.len()
        invariant
            i <= items@.len(),
            forall|j: int| 0 <= j < i ==> removed(#[trigger] items@[j]),
        decreases items@.len() - i,
    {
        let item = &items[i];
        assert(items@[i as int] == item);
        match &item.error {
            Some(text) => {
                assert(!removed(items@[i as int]));
                return Err(BlobError::Item(text.clone()));
            },
            None => {},
        }
        if !item.success {
            assert(!removed(items@[i as int]));
            return Err(BlobError::NotRemoved(item.key.clone()));
        }
        i = i + 1;
    }
    Ok(())
}

/// Asks for all objects of a container at once.
pub fn list_objects_request(container: &String) -> (r: ListObjectsRequest)
    ensures
        r.container_id@ == container@,
        r.max_items == Some(u32::MAX),
{
    ListObjectsRequest { container_id: container.clone(), max_items: Some(u32::MAX) }
}

/// The names of objects.
pub open spec fn object_ids(objects: Seq<ObjectMetadata>) -> Seq<Seq<char>> {
    Seq::new(objects.len(), |i: int| objects[i].object_id@)
}

/// The names of the objects of a container. A list in parts is not taken.
pub fn list_objects_result(response: &ListObjectsResponse) -> (r: Result<Vec<String>, BlobError>)
    ensures
        if !response.is_last {
            r == Err::<Vec<String>, BlobError>(BlobError::NotLast)
        } else if response.continuation is Some {
            r == Err::<Vec<String>, BlobError>(BlobError::Continued)
        } else {
            r matches Ok(names) && texts(names@) == object_ids(response.objects@)
        },
{
    if !response.is_last {
        return Err(BlobError::NotLast);
    }
    if response.continuation.is_some() {
        return Err(BlobError::Continued);
    }
    let mut names: Vec<String> = Vec::new();
    let mut i: usize = 0;
    while i < response.objects.len()
        invariant
            i <= response.objects@.len(),
            names@.len() == i,
            forall|j: int| 0 <= j < i ==> (#[trigger] names@[j])@ == response.objects@[j].object_id@,
        decreases response.objects@.len() - i,
    {
        names.push(response.objects[i].object_id.clone());
        i = i + 1;
    }
    assert(texts(names@) =~= object_ids(response.objects@));
    Ok(names)
}

/// What is known of an object. Nothing is known of when it was made.
pub fn object_info_result(metadata: ObjectMetadata) -> (r: ObjectInfo)
    ensures
        r.name == metadata.object_id,
        r.container == metadata.container_id,
        r.size == metadata.content_length,
        r.created_at == 0,
{
    ObjectInfo {
        name: metadata.object_id,
        container: metadata.container_id,
        size: metadata.content_length,
        created_at: 0,
    }
}

/// What the caller of a blob store is told of each failure. Two texts that
/// should be equal are shown in quotes where each then has at most 40 bytes and
/// neither space nor end of line.
pub proof fn failed_stores_are_told(why: String, key: String, found: String, asked: String)
    ensures
        BlobError::GetObject(None).text() == "failed to get object response"@,
        BlobError::GetObject(Some(why)).text() == "failed to get object response"@,
        BlobError::Timestamp.text() == "timestamp seconds do not fit in `u64`"@,
        BlobError::StreamId.text() == "provider returned an unexpected stream ID"@,
        BlobError::Item(why).text() == why@,
        BlobError::NotRemoved(key).text() == "failed to delete object `"@ + key@ + "`"@,
        BlobError::NotLast.text() == "Condition failed: `is_last`"@,
        BlobError::Continued.text() == "chunked responses not supported"@,
        ({
            let shown = encode_utf8(quoted(found@)).len() <= 40 && encode_utf8(
                quoted(asked@),
            ).len() <= 40 && !quoted(found@).contains(' ') && !quoted(asked@).contains(' ')
                && !quoted(found@).contains('\n') && !quoted(asked@).contains('\n');
            let object = "Condition failed: `"@ + "object_id == name"@ + "`"@;
            let container = "Condition failed: `"@ + "container_id == container"@ + "`"@;
            let values = quoted(found@) + " vs "@ + quoted(asked@);
            &&& BlobError::OtherObject { found, asked }.text() == if shown {
                object + " ("@ + values + ")"@
            } else {
                object
            }
            &&& BlobError::OtherContainer { found, asked }.text() == if shown {
                container + " ("@ + values + ")"@
            } else {
                container
            }
        }),
{
    let object = "Condition failed: `"@ + "object_id == name"@ + "`"@;
    let container = "Condition failed: `"@ + "container_id == container"@ + "`"@;
    let values = quoted(found@) + " vs "@ + quoted(asked@);
    assert(object + " ("@ + quoted(found@) + " vs "@ + quoted(asked@) + ")"@ =~= object + " ("@
        + values + ")"@);
    assert(container + " ("@ + quoted(found@) + " vs "@ + quoted(asked@) + ")"@ =~= container
        + " ("@ + values + ")"@);
}

/// An object counts as removed where the store says so and names no error.
pub proof fn removed_objects_have_no_error(item: ItemResult)
    ensures
        removed(item) <==> item.success && item.error is None,
{
}

/// The names of a list of objects are those of its objects, in order.
pub proof fn listed_objects_are_named(objects: Seq<ObjectMetadata>, i: int)
    requires
        0 <= i < objects.len(),
    ensures
        object_ids(objects).len() == objects.len(),
        object_ids(objects)[i] == objects[i].object_id@,
{
}

} // verus!
