//! Typed API calls and the generic contract that turns them into wire
//! requests.
//!
//! Every remote method is one value type; the core treats them generically
//! through [`Method`]: a call knows its declared response type and how to
//! produce a well-formed request descriptor.

use vstd::prelude::*;

use crate::errors::RequestBuildError;
use crate::request::{build_request, Field, FieldValue, PlainValue, RequestBody, RequestDescriptor};
use crate::types::{ChatId, User};
use crate::update::{AllowedUpdate, RawUpdate};

verus! {

/// The capability of a typed call: produce the request descriptor that
/// performs it, and declare the type its response payload decodes into.
pub trait Method {
    /// The type the call's response payload decodes into.
    type Response;

    /// Produces the protocol-level request descriptor for this call.
    ///
    /// Building is pure and performs no I/O; whenever it succeeds, the
    /// descriptor is well formed: non-empty path, verb agreeing with the
    /// body, and no file field inside a JSON body.
    fn get_request(&self) -> (r: Result<RequestDescriptor, RequestBuildError>)
        ensures
            r matches Ok(d) ==> d.wf(),
    ;
}

/// Returns basic information about the bot in form of a User object.
#[derive(Clone, Copy, Debug)]
pub struct GetMe;

impl Method for GetMe {
    type Response = User;

    fn get_request(&self) -> (r: Result<RequestDescriptor, RequestBuildError>)
        ensures
            r matches Ok(d) ==> d.wf(),
            r matches Ok(d) && d.verb is Get && d.path@ == "getMe"@ && d.body is Empty,
    {
        proof {
            reveal_strlit("getMe");
        }
        Ok(build_request(String::from_str("getMe"), Vec::new()))
    }
}

/// Delete a chat photo.
///
/// Photos can't be changed for private chats. The bot must be an
/// administrator in the chat for this to work and must have the appropriate
/// admin rights. In regular groups this method will only work if the
/// "All Members Are Admins" setting is off in the target group.
#[derive(Clone, Debug, PartialEq)]
pub struct DeleteChatPhoto {
    /// Unique identifier for the target chat.
    chat_id: ChatId,
}

impl DeleteChatPhoto {
    /// Creates a new DeleteChatPhoto.
    ///
    /// # Arguments
    ///
    /// * chat_id - Unique identifier for the target chat
    pub fn new(chat_id: ChatId) -> (r: Self)
        ensures
            r.spec_chat_id() == chat_id,
    {
        DeleteChatPhoto { chat_id }
    }

    /// The identifier of the chat whose photo the call deletes.
    pub closed spec fn spec_chat_id(self) -> ChatId {
        self.chat_id
    }

    /// The JSON value the call's one parameter encodes to: the numeric chat
    /// id as an integer field, the channel username as a text field.
    pub open spec fn spec_chat_id_value(self) -> FieldValue {
        match self.spec_chat_id() {
            ChatId::Id(id) => FieldValue::Plain(PlainValue::Integer(id)),
            ChatId::Username(name) => FieldValue::Plain(PlainValue::Text(name)),
        }
    }
}

impl Method for DeleteChatPhoto {
    type Response = bool;

    fn get_request(&self) -> (r: Result<RequestDescriptor, RequestBuildError>)
        ensures
            r matches Ok(d) ==> d.wf(),
            r matches Ok(d) && d.verb is Post && d.path@ == "deleteChatPhoto"@ && (
            d.body matches RequestBody::Json(fs) && fs@.len() == 1 && fs@[0].name@ == "chat_id"@
                && fs@[0].value == self.spec_chat_id_value()),
    {
        proof {
            reveal_strlit("deleteChatPhoto");
            reveal_strlit("chat_id");
        }
        let value = match &self.chat_id {
            ChatId::Id(id) => FieldValue::Plain(PlainValue::Integer(*id)),
            ChatId::Username(name) => FieldValue::Plain(PlainValue::Text(name.clone())),
        };
        let mut fields: Vec<Field> = Vec::new();
        fields.push(Field { name: String::from_str("chat_id"), value });
        Ok(build_request(String::from_str("deleteChatPhoto"), fields))
    }
}

/// The smallest number of updates one fetch may ask for.
pub const MIN_FETCH_LIMIT: i64 = 1;

/// The largest number of updates one fetch may ask for.
pub const MAX_FETCH_LIMIT: i64 = 100;

/// Receive incoming updates: the fetch-updates call the long-polling source
/// issues, with an advancing offset, a bounded batch limit, a server-side
/// wait and an optional filter over update kinds.
#[derive(Clone, Debug, PartialEq)]
pub struct GetUpdates {
    /// Identifier of the first update to be returned.
    pub offset: i64,
    /// Limit on the number of updates to be retrieved; bounded.
    pub limit: i64,
    /// Server-side long-poll wait, in seconds.
    pub timeout: i64,
    /// The update kinds the caller wants to receive, when it filters.
    pub allowed_updates: Option<Vec<AllowedUpdate>>,
}

impl GetUpdates {
    /// The call's parameters are well formed when the limit lies in the
    /// bounded range and the server-side wait is not negative.
    pub open spec fn wf(self) -> bool {
        &&& MIN_FETCH_LIMIT <= self.limit <= MAX_FETCH_LIMIT
        &&& self.timeout >= 0
    }

    /// Creates a new fetch-updates call.
    pub fn new(
        offset: i64,
        limit: i64,
        timeout: i64,
        allowed_updates: Option<Vec<AllowedUpdate>>,
    ) -> (r: Self)
        requires
            MIN_FETCH_LIMIT <= limit <= MAX_FETCH_LIMIT,
            timeout >= 0,
        ensures
            r == (GetUpdates { offset, limit, timeout, allowed_updates }),
            r.wf(),
    {
        GetUpdates { offset, limit, timeout, allowed_updates }
    }

    /// What the JSON parameter set of a fetch-updates call holds: the
    /// offset, limit and timeout as integer fields under their wire names,
    /// and, exactly when the caller filters, the allowed kinds as a list of
    /// their wire names.
    pub open spec fn spec_fields_ok(self, fs: Seq<Field>) -> bool {
        &&& fs.len() == if self.allowed_updates is Some {
            4int
        } else {
            3int
        }
        &&& fs[0].name@ == "offset"@
        &&& fs[0].value == FieldValue::Plain(PlainValue::Integer(self.offset))
        &&& fs[1].name@ == "limit"@
        &&& fs[1].value == FieldValue::Plain(PlainValue::Integer(self.limit))
        &&& fs[2].name@ == "timeout"@
        &&& fs[2].value == FieldValue::Plain(PlainValue::Integer(self.timeout))
        &&& self.allowed_updates matches Some(list) ==> {
            &&& fs[3].name@ == "allowed_updates"@
            &&& fs[3].value matches FieldValue::Plain(PlainValue::TextList(names))
            &&& names@.len() == list@.len()
            &&& forall|k: int|
                0 <= k < list@.len() ==> #[trigger] names@[k]@ == list@[k].spec_wire_name()@
        }
    }
}

impl Method for GetUpdates {
    type Response = Vec<RawUpdate>;

    fn get_request(&self) -> (r: Result<RequestDescriptor, RequestBuildError>)
        ensures
            r matches Ok(d) ==> d.wf(),
            r matches Ok(d) && d.verb is Post && d.path@ == "getUpdates"@ && (
            d.body matches RequestBody::Json(fs) && self.spec_fields_ok(fs@)),
    {
        proof {
            reveal_strlit("getUpdates");
            reveal_strlit("offset");
            reveal_strlit("limit");
            reveal_strlit("timeout");
            reveal_strlit("allowed_updates");
        }
        let mut fields: Vec<Field> = Vec::new();
        fields.push(
            Field {
                name: String::from_str("offset"),
                value: FieldValue::Plain(PlainValue::Integer(self.offset)),
            },
        );
        fields.push(
            Field {
                name: String::from_str("limit"),
                value: FieldValue::Plain(PlainValue::Integer(self.limit)),
            },
        );
        fields.push(
            Field {
                name: String::from_str("timeout"),
                value: FieldValue::Plain(PlainValue::Integer(self.timeout)),
            },
        );
        if let Some(allowed) = &self.allowed_updates {
            let mut names: Vec<String> = Vec::new();
            let mut i: usize = 0;
            while i < allowed.len()
                invariant
                    i <= allowed@.len(),
                    names@.len() == i,
                    forall|k: int|
                        0 <= k < i ==> #[trigger] names@[k]@ == allowed@[k].spec_wire_name()@,
                decreases allowed@.len() - i,
            {
                names.push(String::from_str(allowed[i].wire_name()));
                i = i + 1;
            }
            fields.push(
                Field {
                    name: String::from_str("allowed_updates"),
                    value: FieldValue::Plain(PlainValue::TextList(names)),
                },
            );
        }
        Ok(build_request(String::from_str("getUpdates"), fields))
    }
}

} // verus!
