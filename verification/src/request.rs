//! The request builder: from the parameter set of a typed call to a wire
//! request descriptor.
//!
//! The encoding rule is fixed: a call whose parameters include a file-bearing
//! field is encoded as a multipart body with one part per field — files as
//! binary parts preserving the supplied filename and content type, everything
//! else as text parts under the same snake_case field name the JSON encoding
//! would use. A call without a file field is encoded as a JSON body of the
//! whole parameter set. GET is used only for calls with no body-bearing
//! parameters; POST otherwise.

use vstd::prelude::*;

verus! {

/// HTTP verb of a wire request.
#[derive(Clone, Copy, Debug, PartialEq, Eq, Structural)]
pub enum Verb {
    /// Used only for calls with no body-bearing parameters.
    Get,
    /// Used for every call that carries a body.
    Post,
}

/// A plain, non-file parameter value.
#[derive(Clone, Debug, PartialEq)]
pub enum PlainValue {
    /// An integer parameter.
    Integer(i64),
    /// A boolean parameter.
    Boolean(bool),
    /// A textual parameter.
    Text(String),
    /// A list of textual values, such as the names of allowed update kinds.
    TextList(Vec<String>),
}

/// A file attachment: raw bytes with the filename and content type that the
/// multipart encoding must preserve.
#[derive(Clone, Debug, PartialEq)]
pub struct FileValue {
    /// Filename to present for the uploaded bytes.
    pub filename: String,
    /// Declared content type of the bytes, when one is supplied.
    pub content_type: Option<String>,
    /// The raw bytes of the file.
    pub data: Vec<u8>,
}

/// The value of one named parameter of a typed call.
#[derive(Clone, Debug, PartialEq)]
pub enum FieldValue {
    /// A plain value, serialized as JSON or as a multipart text part.
    Plain(PlainValue),
    /// A file attachment, forcing the multipart encoding.
    File(FileValue),
}

/// One named parameter of a typed call, under the snake_case name its JSON
/// encoding uses.
#[derive(Clone, Debug, PartialEq)]
pub struct Field {
    /// The field's wire name.
    pub name: String,
    /// The field's value.
    pub value: FieldValue,
}

/// One part of a multipart body.
#[derive(Clone, Debug, PartialEq)]
pub enum Part {
    /// A text part: a plain field under its wire name.
    Text {
        /// The part's name, equal to the originating field's wire name.
        name: String,
        /// The plain value the part carries.
        value: PlainValue,
    },
    /// A binary part carrying a file.
    File {
        /// The part's name, equal to the originating field's wire name.
        name: String,
        /// The file the part carries.
        file: FileValue,
    },
}

/// How a request's body is encoded.
#[derive(Clone, Debug, PartialEq)]
pub enum RequestBody {
    /// No body at all.
    Empty,
    /// The whole parameter set serialized as one JSON object, field by field.
    Json(Vec<Field>),
    /// An ordered list of named parts, one per field.
    Multipart(Vec<Part>),
}

/// A protocol-level request descriptor: everything the transport needs to
/// perform one call.
#[derive(Clone, Debug, PartialEq)]
pub struct RequestDescriptor {
    /// The HTTP verb.
    pub verb: Verb,
    /// The remote method name; never empty.
    pub path: String,
    /// The body encoding.
    pub body: RequestBody,
}

/// True if some field of the parameter set carries a file.
pub open spec fn spec_has_file(fields: Seq<Field>) -> bool {
    exists|i: int| 0 <= i < fields.len() && fields[i].value is File
}

/// The multipart part a field maps to: files become binary parts, everything
/// else text parts, each under the field's own wire name.
pub open spec fn spec_part_of(f: Field) -> Part {
    match f.value {
        FieldValue::Plain(v) => Part::Text { name: f.name, value: v },
        FieldValue::File(file) => Part::File { name: f.name, file },
    }
}

impl RequestBody {
    /// A body is well formed when a JSON body holds no file field: files are
    /// representable only in the multipart encoding.
    pub open spec fn wf(self) -> bool {
        match self {
            RequestBody::Json(fields) => !spec_has_file(fields@),
            _ => true,
        }
    }
}

impl RequestDescriptor {
    /// A descriptor is well formed when its path is non-empty, its body is
    /// well formed, and its verb agrees with its body: GET exactly when there
    /// is no body.
    pub open spec fn wf(self) -> bool {
        &&& self.path@.len() > 0
        &&& self.body.wf()
        &&& (self.verb is Get <==> self.body is Empty)
    }
}

/// Encodes a parameter set as a request body, per the fixed rule: no fields
/// means no body; a file field anywhere means one multipart part per field,
/// in field order; otherwise the whole set as one JSON body.
pub fn build_body(fields: Vec<Field>) -> (r: RequestBody)
    ensures
        r.wf(),
        fields@.len() == 0 ==> r is Empty,
        fields@.len() > 0 && !spec_has_file(fields@) ==> (r matches RequestBody::Json(fs)
            && fs@ == fields@),
        fields@.len() > 0 && spec_has_file(fields@) ==> (r matches RequestBody::Multipart(ps)
            && ps@ == fields@.map_values(|f: Field| spec_part_of(f))),
{
    if fields.len() == 0 {
        return RequestBody::Empty;
    }
    let mut has_file = false;
    let mut i: usize = 0;
    while i < fields.len()
        invariant
            i <= fields@.len(),
            has_file == (exists|j: int| 0 <= j < i && #[trigger] fields@[j].value is File),
        decreases fields@.len() - i,
    {
        if let FieldValue::File(_) = &fields[i].value {
            has_file = true;
            proof {
                assert(fields@[i as int].value is File);
            }
        }
        i = i + 1;
    }
    proof {
        assert(has_file == spec_has_file(fields@));
    }
    if !has_file {
        return RequestBody::Json(fields);
    }
    let ghost all = fields@;
    let mut rest = fields;
    let mut parts: Vec<Part> = Vec::new();
    while rest.len() > 0
        invariant
            parts@.len() + rest@.len() == all.len(),
            parts@ == all.take(parts@.len() as int).map_values(|f: Field| spec_part_of(f)),
            rest@ == all.skip(parts@.len() as int),
        decreases rest@.len(),
    {
        let ghost k = parts@.len() as int;
        let f = rest.remove(0);
        proof {
            assert(f == all[k]);
            assert(rest@ =~= all.skip(k + 1));
        }
        let part = match f.value {
            FieldValue::Plain(v) => Part::Text { name: f.name, value: v },
            FieldValue::File(file) => Part::File { name: f.name, file },
        };
        parts.push(part);
        proof {
            assert(parts@ =~= all.take(k + 1).map_values(|f: Field| spec_part_of(f)));
        }
    }
    proof {
        assert(all.take(all.len() as int) =~= all);
    }
    RequestBody::Multipart(parts)
}

/// Builds a request descriptor from a parameter set whose method name may
/// come from untrusted input: an empty name cannot address any remote method
/// and is rejected before any network work; everything else builds as
/// [`build_request`] does.
pub fn try_build_request(path: String, fields: Vec<Field>) -> (r: Result<
    RequestDescriptor,
    crate::errors::RequestBuildError,
>)
    ensures
        path@.len() == 0 <==> r == Err::<RequestDescriptor, crate::errors::RequestBuildError>(
            crate::errors::RequestBuildError::EmptyParameter,
        ),
        path@.len() > 0 ==> (r matches Ok(d) && d.wf() && d.path == path && d.verb == (
        if fields@.len() == 0 {
            Verb::Get
        } else {
            Verb::Post
        })),
        path@.len() > 0 && fields@.len() > 0 && !spec_has_file(fields@) ==> (
        r matches Ok(d) && d.body matches RequestBody::Json(fs) && fs@ == fields@),
        path@.len() > 0 && fields@.len() > 0 && spec_has_file(fields@) ==> (r matches Ok(d)
            && d.body matches RequestBody::Multipart(ps) && ps@ == fields@.map_values(
            |f: Field| spec_part_of(f),
        )),
{
    if path.as_str().unicode_len() == 0 {
        Err(crate::errors::RequestBuildError::EmptyParameter)
    } else {
        Ok(build_request(path, fields))
    }
}

/// Builds the full request descriptor for a call: the given remote method
/// name, the body encoded from the parameter set by the fixed rule, and GET
/// exactly when the call has no body-bearing parameters.
pub fn build_request(path: String, fields: Vec<Field>) -> (r: RequestDescriptor)
    requires
        path@.len() > 0,
    ensures
        r.wf(),
        r.path == path,
        r.verb == (if fields@.len() == 0 {
            Verb::Get
        } else {
            Verb::Post
        }),
        fields@.len() == 0 ==> r.body is Empty,
        fields@.len() > 0 && !spec_has_file(fields@) ==> (r.body matches RequestBody::Json(fs)
            && fs@ == fields@),
        fields@.len() > 0 && spec_has_file(fields@) ==> (r.body matches RequestBody::Multipart(
            ps,
        ) && ps@ == fields@.map_values(|f: Field| spec_part_of(f))),
{
    let verb = if fields.len() == 0 {
        Verb::Get
    } else {
        Verb::Post
    };
    let body = build_body(fields);
    RequestDescriptor { verb, path, body }
}

} // verus!
