use vstd::prelude::*;
use vstd::string::StringSliceAdditionalSpecFns;
use vstd::utf8::encode_utf8;

use crate::json::{push_bytes, push_str, utf8};
use crate::identity::SERVICE;
use crate::reply::{STATUS_INTERNAL_ERROR, STATUS_OK, STATUS_UNAVAILABLE, STATUS_UNPROCESSABLE};

verus! {

/// One documented response of an operation: its status, its description and the schema of its
/// JSON body, where it has one.
pub struct DocumentedResponse {
    pub status: u16,
    pub description: &'static str,
    pub schema: Option<&'static str>,
}

/// A documented response, as values.
pub struct ResponseDoc {
    pub status: u16,
    pub description: Seq<char>,
    pub schema: Option<Seq<char>>,
}

impl View for DocumentedResponse {
    type V = ResponseDoc;

    open spec fn view(&self) -> ResponseDoc {
        ResponseDoc {
            status: self.status,
            description: self.description@,
            schema: match self.schema {
                Some(s) => Some(s@),
                None => None,
            },
        }
    }
}

/// The responses documented for `GET /`.
pub open spec fn index_responses_spec() -> Seq<ResponseDoc> {
    seq![ResponseDoc { status: STATUS_OK, description: ""@, schema: Some("Info"@) }]
}

/// The responses documented for `POST /`.
pub open spec fn evaluate_responses_spec() -> Seq<ResponseDoc> {
    seq![
        ResponseDoc { status: STATUS_OK, description: ""@, schema: Some("ConeVolumeResponse"@) },
        ResponseDoc {
            status: STATUS_UNPROCESSABLE,
            description: "a dependency rejected an input (forwarded)"@,
            schema: None,
        },
        ResponseDoc {
            status: STATUS_INTERNAL_ERROR,
            description: "a dependency returned a malformed result"@,
            schema: None,
        },
        ResponseDoc {
            status: STATUS_UNAVAILABLE,
            description: "a dependency is unavailable"@,
            schema: None,
        },
    ]
}

/// The responses documented for `GET /`.
pub fn index_responses() -> (responses: Vec<DocumentedResponse>)
    ensures
        responses@.map_values(|r: DocumentedResponse| r@) == index_responses_spec(),
{
    let mut responses: Vec<DocumentedResponse> = Vec::new();
    responses.push(DocumentedResponse { status: STATUS_OK, description: "", schema: Some("Info") });
    proof {
        assert(responses@.map_values(|r: DocumentedResponse| r@) =~= index_responses_spec());
    }
    responses
}

/// The responses documented for `POST /`.
pub fn evaluate_responses() -> (responses: Vec<DocumentedResponse>)
    ensures
        responses@.map_values(|r: DocumentedResponse| r@) == evaluate_responses_spec(),
{
    let mut responses: Vec<DocumentedResponse> = Vec::new();
    responses.push(
        DocumentedResponse { status: STATUS_OK, description: "", schema: Some("ConeVolumeResponse") },
    );
    responses.push(
        DocumentedResponse {
            status: STATUS_UNPROCESSABLE,
            description: "a dependency rejected an input (forwarded)",
            schema: None,
        },
    );
    responses.push(
        DocumentedResponse {
            status: STATUS_INTERNAL_ERROR,
            description: "a dependency returned a malformed result",
            schema: None,
        },
    );
    responses.push(
        DocumentedResponse {
            status: STATUS_UNAVAILABLE,
            description: "a dependency is unavailable",
            schema: None,
        },
    );
    proof {
        assert(responses@.map_values(|r: DocumentedResponse| r@) =~= evaluate_responses_spec());
    }
    responses
}

/// The three decimal digits of a status code.
pub open spec fn status_digits(status: u16) -> Seq<u8> {
    seq![(48 + status / 100) as u8, (48 + (status / 10) % 10) as u8, (48 + status % 10) as u8]
}

/// Appends the three decimal digits of `status`.
fn push_status(out: &mut Vec<u8>, status: u16)
    requires
        100 <= status <= 999,
    ensures
        final(out)@ == old(out)@ + status_digits(status),
{
    out.push(48 + (status / 100) as u8);
    out.push(48 + ((status / 10) % 10) as u8);
    out.push(48 + (status % 10) as u8);
    assert(out@ =~= old(out)@ + status_digits(status));
}

/// A JSON reference to a component schema.
pub open spec fn schema_ref_json(name: Seq<char>) -> Seq<u8> {
    utf8("{\"application/json\":{\"schema\":{\"$ref\":\"#/components/schemas/") + encode_utf8(name)
        + utf8("\"}}}")
}

/// The start of one entry of a JSON `responses` object: `"STATUS":{"description":"D"`.
pub open spec fn response_head_json(r: ResponseDoc) -> Seq<u8> {
    utf8("\"") + status_digits(r.status) + utf8("\":{\"description\":\"") + encode_utf8(
        r.description,
    ) + utf8("\"")
}

/// The content of a response with a JSON body of schema `name`: `,"content":C`; nothing for a
/// response without a body.
pub open spec fn content_json(schema: Option<Seq<char>>) -> Seq<u8> {
    match schema {
        Some(name) => utf8(",\"content\":") + schema_ref_json(name),
        None => Seq::empty(),
    }
}

/// One entry of a JSON `responses` object: `"STATUS":{"description":"D"[,"content":C]}`.
pub open spec fn response_json(r: ResponseDoc) -> Seq<u8> {
    response_head_json(r) + content_json(r.schema) + utf8("}")
}

/// Pieces of JSON text joined by commas.
pub open spec fn joined(items: Seq<Seq<u8>>) -> Seq<u8>
    decreases items.len(),
{
    if items.len() == 0 {
        Seq::empty()
    } else if items.len() == 1 {
        items[0]
    } else {
        joined(items.drop_last()) + utf8(",") + items.last()
    }
}

/// The JSON `responses` object of an operation.
pub open spec fn responses_json(rs: Seq<ResponseDoc>) -> Seq<u8> {
    utf8("{") + joined(rs.map_values(|r: ResponseDoc| response_json(r))) + utf8("}")
}

/// Whether every documented status is an HTTP status code.
pub open spec fn statuses_valid(rs: Seq<ResponseDoc>) -> bool {
    forall|i: int| 0 <= i < rs.len() ==> 100 <= #[trigger] rs[i].status <= 999
}

/// Appends the start of one entry of a JSON `responses` object.
fn push_response_head(out: &mut Vec<u8>, r: &DocumentedResponse)
    requires
        100 <= r.status <= 999,
    ensures
        final(out)@ == old(out)@ + response_head_json(r@),
{
    push_str(out, "\"");
    push_status(out, r.status);
    push_str(out, "\":{\"description\":\"");
    push_str(out, r.description);
    push_str(out, "\"");
    assert(out@ =~= old(out)@ + response_head_json(r@));
}

/// Appends the content of a response whose body has the schema `schema`, if it has one.
fn push_content(out: &mut Vec<u8>, schema: Option<&'static str>)
    ensures
        final(out)@ == old(out)@ + content_json(
            match schema {
                Some(name) => Some(name@),
                None => None,
            },
        ),
{
    match schema {
        Some(name) => {
            push_str(out, ",\"content\":");
            push_str(out, "{\"application/json\":{\"schema\":{\"$ref\":\"#/components/schemas/");
            push_str(out, name);
            push_str(out, "\"}}}");
            assert(out@ =~= old(out)@ + content_json(Some(name@)));
        },
        None => {
            assert(out@ =~= old(out)@ + content_json(None));
        },
    }
}

/// Appends one entry of a JSON `responses` object.
fn push_response(out: &mut Vec<u8>, r: &DocumentedResponse)
    requires
        100 <= r.status <= 999,
    ensures
        final(out)@ == old(out)@ + response_json(r@),
{
    push_response_head(out, r);
    push_content(out, r.schema);
    push_str(out, "}");
    assert(out@ =~= old(out)@ + response_json(r@));
}

/// Appends the JSON `responses` object of an operation.
fn push_responses(out: &mut Vec<u8>, rs: &Vec<DocumentedResponse>)
    requires
        statuses_valid(rs@.map_values(|r: DocumentedResponse| r@)),
    ensures
        final(out)@ == old(out)@ + responses_json(rs@.map_values(|r: DocumentedResponse| r@)),
{
    let ghost docs = rs@.map_values(|r: DocumentedResponse| r@);
    let ghost items = docs.map_values(|r: ResponseDoc| response_json(r));
    push_str(out, "{");
    let ghost start = out@;
    let n = rs.len();
    let mut i: usize = 0;
    while i < n
        invariant
            n == rs@.len(),
            i <= n,
            docs == rs@.map_values(|r: DocumentedResponse| r@),
            items == docs.map_values(|r: ResponseDoc| response_json(r)),
            statuses_valid(docs),
            out@ == start + joined(items.take(i as int)),
        decreases n - i,
    {
        assert(docs[i as int] == rs@[i as int]@);
        assert(100 <= docs[i as int].status <= 999);
        if i > 0 {
            push_str(out, ",");
        }
        push_response(out, &rs[i]);
        assert(items.take(i + 1).drop_last() =~= items.take(i as int));
        assert(items.take(i + 1).last() == items[i as int]);
        i = i + 1;
    }
    assert(items.take(n as int) =~= items);
    push_str(out, "}");
    assert(out@ =~= old(out)@ + responses_json(docs));
}

/// The document up to the title of the service.
pub const DOC_OPEN: &'static str = "{\"openapi\":\"3.1.0\",\"info\":{\"title\":\"";

/// From the title of the service up to the operation of `GET /`.
pub const DOC_INFO: &'static str = "\",\"version\":\"0.1.0\"},\"paths\":{\"/\":{\"get\":";

/// The operation of `GET /` up to its responses.
pub const INDEX_OPERATION: &'static str = "{\"summary\":\"`GET /` \u{2014} service identity (srvcs service standard).\",\"operationId\":\"index\",\"responses\":";

/// The operation of `POST /` up to its responses.
pub const EVALUATE_OPERATION: &'static str = "{\"summary\":\"`POST /` \u{2014} compute the volume of a cone, `V = (1/3) * pi * r^2 * height`.\",\"description\":\"This service owns the *control flow* but delegates every arithmetic step to\\nits float primitives, exactly as specified:\\n\\n1. `p = pi()` \u{2014} `srvcs-pi`, a constant service called with an empty body;\\n2. `r2 = floatmultiply(radius, radius)`;\\n3. `base = floatmultiply(p, r2)`;\\n4. `col = floatmultiply(base, height)` \u{2014} the volume of the enclosing\\n   cylinder;\\n5. `result = floatdivide(col, 3)`.\\n\\nIt never validates operands itself: any `422` a dependency raises (e.g. a\\nnon-numeric radius) is forwarded verbatim. If a dependency is unreachable it\\nreports itself degraded (`503`).\",\"operationId\":\"evaluate\",\"requestBody\":{\"content\":{\"application/json\":{\"schema\":{\"$ref\":\"#/components/schemas/EvalRequest\"}}},\"required\":true},\"responses\":";

/// From the operation of `POST /` to the end: the component schemas.
pub const DOC_CLOSE: &'static str = "}},\"components\":{\"schemas\":{\"ConeVolumeResponse\":{\"type\":\"object\",\"required\":[\"radius\",\"height\",\"result\"],\"properties\":{\"height\":{\"type\":\"object\"},\"radius\":{\"type\":\"object\"},\"result\":{\"type\":\"number\",\"format\":\"double\"}}},\"EvalRequest\":{\"type\":\"object\",\"required\":[\"radius\",\"height\"],\"properties\":{\"height\":{\"type\":\"object\",\"description\":\"The height of the cone.\"},\"radius\":{\"type\":\"object\",\"description\":\"The radius of the cone's circular base.\"}}},\"Info\":{\"type\":\"object\",\"required\":[\"service\",\"concern\",\"depends_on\"],\"properties\":{\"concern\":{\"type\":\"string\"},\"depends_on\":{\"type\":\"array\",\"items\":{\"type\":\"string\"}},\"service\":{\"type\":\"string\"}}}}}}";

/// The OpenAPI operation object of `GET /`, as JSON text.
pub open spec fn index_operation_json() -> Seq<u8> {
    utf8(INDEX_OPERATION) + responses_json(index_responses_spec()) + utf8("}")
}

/// The OpenAPI operation object of `POST /`, as JSON text.
pub open spec fn evaluate_operation_json() -> Seq<u8> {
    utf8(EVALUATE_OPERATION) + responses_json(evaluate_responses_spec()) + utf8("}")
}

/// The OpenAPI document of this service, as JSON text.
pub open spec fn document_json() -> Seq<u8> {
    utf8(DOC_OPEN) + utf8(SERVICE) + utf8(DOC_INFO) + index_operation_json() + utf8(",\"post\":")
        + evaluate_operation_json() + utf8(DOC_CLOSE)
}

/// The OpenAPI operation object of `GET /`, as JSON text.
pub fn index_operation() -> (text: Vec<u8>)
    ensures
        text@ == index_operation_json(),
{
    let responses = index_responses();
    let mut text: Vec<u8> = Vec::new();
    push_str(&mut text, INDEX_OPERATION);
    push_responses(&mut text, &responses);
    push_str(&mut text, "}");
    text
}

/// The OpenAPI operation object of `POST /`, as JSON text.
pub fn evaluate_operation() -> (text: Vec<u8>)
    ensures
        text@ == evaluate_operation_json(),
{
    let responses = evaluate_responses();
    let mut text: Vec<u8> = Vec::new();
    push_str(&mut text, EVALUATE_OPERATION);
    push_responses(&mut text, &responses);
    push_str(&mut text, "}");
    text
}

/// The OpenAPI document of this service, as JSON text.
pub fn openapi_document() -> (text: Vec<u8>)
    ensures
        text@ == document_json(),
{
    let index = index_operation();
    let evaluate = evaluate_operation();
    let mut text: Vec<u8> = Vec::new();
    push_str(&mut text, DOC_OPEN);
    push_str(&mut text, SERVICE);
    push_str(&mut text, DOC_INFO);
    push_bytes(&mut text, index.as_slice());
    push_str(&mut text, ",\"post\":");
    push_bytes(&mut text, evaluate.as_slice());
    push_str(&mut text, DOC_CLOSE);
    text
}

/// The HTTP methods of the documented operations.
#[derive(Clone, Copy, PartialEq, Eq, Structural, Debug)]
pub enum Method {
    Get,
    Post,
}

impl Method {
    /// The method's key in an OpenAPI path item.
    pub open spec fn key(self) -> Seq<char> {
        match self {
            Method::Get => "get"@,
            Method::Post => "post"@,
        }
    }
}

#[verifier::external_type_specification]
#[verifier::external_body]
pub struct ExOpenApi(utoipa::openapi::OpenApi);

#[verifier::external_type_specification]
#[verifier::external_body]
pub struct ExOperation(utoipa::openapi::path::Operation);

/// What an OpenAPI operation is known by here: its `operationId`, its summary, its
/// description, the schema `$ref` of its JSON request body with whether the body is required,
/// and the status keys of its responses.
pub uninterp spec fn operation_summary(op: utoipa::openapi::path::Operation) -> (
    Option<Seq<char>>,
    Option<Seq<char>>,
    Option<Seq<char>>,
    Option<(Seq<char>, bool)>,
    Set<Seq<char>>,
);

/// The summary of the operation that `read_operation` reads from the JSON text `text`.
pub uninterp spec fn operation_summary_in_text(text: Seq<u8>) -> (
    Option<Seq<char>>,
    Option<Seq<char>>,
    Option<Seq<char>>,
    Option<(Seq<char>, bool)>,
    Set<Seq<char>>,
);

/// The operations an OpenAPI document holds in its paths, each under its path and the key of
/// its HTTP method, by its summary.
pub uninterp spec fn document_operations(doc: utoipa::openapi::OpenApi) -> Map<
    (Seq<char>, Seq<char>),
    (
        Option<Seq<char>>,
        Option<Seq<char>>,
        Option<Seq<char>>,
        Option<(Seq<char>, bool)>,
        Set<Seq<char>>,
    ),
>;

/// The names of the component schemas of an OpenAPI document.
pub uninterp spec fn schema_names(doc: utoipa::openapi::OpenApi) -> Set<Seq<char>>;

/// The names of the component schemas of the document that `read_openapi` reads from the JSON
/// text `text`.
pub uninterp spec fn schema_names_in_text(text: Seq<u8>) -> Set<Seq<char>>;

/// Reads an OpenAPI document from its JSON text: `serde_json::from_slice` into utoipa's
/// `OpenApi`, and utoipa's empty `OpenApi::default()` where the text is none. Its component
/// schemas are named as a function of the text alone; the rest is left unsaid here.
#[verifier::external_body]
fn read_openapi(text: &[u8]) -> (doc: utoipa::openapi::OpenApi)
    ensures
        schema_names(doc) == schema_names_in_text(text@),
{
    serde_json::from_slice(text).unwrap_or_default()
}

/// Reads an OpenAPI operation from its JSON text: `serde_json::from_slice` into utoipa's
/// `Operation`, and the empty `Operation::default()` where the text is none. The operation is
/// the text parsed, every field kept: its summary (id, summary, description, request body,
/// response keys) is the one function of the text named `operation_summary_in_text`.
#[verifier::external_body]
fn read_operation(text: &[u8]) -> (op: utoipa::openapi::path::Operation)
    ensures
        operation_summary(op) == operation_summary_in_text(text@),
{
    serde_json::from_slice(text).unwrap_or_default()
}

/// Empties the paths of `doc`: they become utoipa's `Paths::new()`, which holds no path. The
/// components stay.
#[verifier::external_body]
fn clear_paths(doc: &mut utoipa::openapi::OpenApi)
    ensures
        document_operations(*final(doc)).dom().is_empty(),
        schema_names(*final(doc)) == schema_names(*old(doc)),
{
    doc.paths = utoipa::openapi::path::Paths::new();
}

/// utoipa's `Paths::add_path_operation` on the paths of `doc`, for one method: `operation` is
/// set under `path` for `method`, every other operation stays (the source sets that one field
/// of an existing path item, or inserts a path item holding only it), and the components stay.
#[verifier::external_body]
fn add_path_operation(
    doc: &mut utoipa::openapi::OpenApi,
    path: &str,
    method: Method,
    operation: utoipa::openapi::path::Operation,
)
    ensures
        document_operations(*final(doc)) == document_operations(*old(doc)).insert(
            (path@, method.key()),
            operation_summary(operation),
        ),
        schema_names(*final(doc)) == schema_names(*old(doc)),
{
    let method = match method {
        Method::Get => utoipa::openapi::path::HttpMethod::Get,
        Method::Post => utoipa::openapi::path::HttpMethod::Post,
    };
    doc.paths.add_path_operation(path, vec![method], operation);
}

/// The OpenAPI description of this service's routes.
pub struct ApiDoc;

impl ApiDoc {
    /// The OpenAPI document, read from `openapi_document`, its paths set from the operation
    /// texts: `GET /` as read from `index_operation`, `POST /` as read from
    /// `evaluate_operation`, and no other operation; its component schemas those of the
    /// document text.
    pub fn openapi() -> (doc: utoipa::openapi::OpenApi)
        ensures
            document_operations(doc) == map![
                ("/"@, Method::Get.key()) => operation_summary_in_text(index_operation_json()),
                ("/"@, Method::Post.key()) => operation_summary_in_text(evaluate_operation_json()),
            ],
            schema_names(doc) == schema_names_in_text(document_json()),
    {
        let text = openapi_document();
        let mut doc = read_openapi(text.as_slice());
        clear_paths(&mut doc);
        let ghost cleared = document_operations(doc);
        let index = index_operation();
        add_path_operation(&mut doc, "/", Method::Get, read_operation(index.as_slice()));
        let evaluate = evaluate_operation();
        add_path_operation(&mut doc, "/", Method::Post, read_operation(evaluate.as_slice()));
        proof {
            assert(cleared =~= Map::empty());
            assert(document_operations(doc) =~= map![
                ("/"@, Method::Get.key()) => operation_summary_in_text(index_operation_json()),
                ("/"@, Method::Post.key()) => operation_summary_in_text(evaluate_operation_json()),
            ]);
        }
        doc
    }
}

} // verus!
