//! The messages of JSON-RPC 2.0, and how they are written and read as JSON.
//!
//! Reference: <https://www.jsonrpc.org/specification>

use crate::json::{
    find_member, inspect, json_document, json_string_literal, member, members_view, Json,
    JsonError, JsonShape, JsonShapeView,
};
use crate::text::{
    chars_of, decimal_string, integer_value, is_single_line, lemma_signed_decimal_single_line,
    lemma_single_line_concat, parse_integer, signed_decimal,
};
use vstd::prelude::*;

verus! {

/// The greatest distance below zero of an identifier that is a number.
pub const ID_BELOW: u64 = 0x8000_0000_0000_0000;

/// The greatest identifier that is a number.
pub const ID_ABOVE: u64 = 0xffff_ffff_ffff_ffff;

/// The identifier that ties a response to its request: a whole number, a
/// string, or null.
#[derive(Debug, Clone, PartialEq, Eq)]
pub enum RequestId {
    Null,
    Number(i128),
    Text(String),
}

/// Mathematical form of [`RequestId`].
pub enum RequestIdView {
    Null,
    Number(int),
    Text(Seq<char>),
}

impl View for RequestId {
    type V = RequestIdView;

    open spec fn view(&self) -> RequestIdView {
        match self {
            RequestId::Null => RequestIdView::Null,
            RequestId::Number(n) => RequestIdView::Number(*n as int),
            RequestId::Text(s) => RequestIdView::Text(s@),
        }
    }
}

/// An identifier as it is shown to the user: strings between double quotes.
pub open spec fn id_label(id: RequestIdView) -> Seq<char> {
    match id {
        RequestIdView::Null => "null"@,
        RequestIdView::Number(n) => signed_decimal(n),
        RequestIdView::Text(s) => "\""@ + s + "\""@,
    }
}

/// An identifier as JSON.
pub open spec fn id_json(id: RequestIdView) -> Seq<char> {
    match id {
        RequestIdView::Null => "null"@,
        RequestIdView::Number(n) => signed_decimal(n),
        RequestIdView::Text(s) => json_string_literal(s),
    }
}

/// The outermost form of the JSON document `text`; `None` where it is no
/// JSON document.
pub open spec fn shape_of_json(text: Seq<char>) -> Option<JsonShapeView> {
    match json_document(text) {
        Some(d) => Some(d.shape),
        None => None,
    }
}

/// The identifier that a JSON document of the form `shape` is: null, a
/// string, or a number written without fraction and exponent, between
/// `-ID_BELOW` and `ID_ABOVE`. `None` for any other form.
pub open spec fn id_of_shape(shape: JsonShapeView) -> Option<RequestIdView> {
    match shape {
        JsonShapeView::Null => Some(RequestIdView::Null),
        JsonShapeView::Text(s) => Some(RequestIdView::Text(s)),
        JsonShapeView::Number(n) => match integer_value(n) {
            Some(v) => if -(ID_BELOW as int) <= v <= ID_ABOVE as int {
                Some(RequestIdView::Number(v))
            } else {
                None
            },
            None => None,
        },
        _ => None,
    }
}

/// The identifier that the JSON document `text` is.
pub open spec fn id_of_json(text: Seq<char>) -> Option<RequestIdView> {
    match shape_of_json(text) {
        Some(shape) => id_of_shape(shape),
        None => None,
    }
}

impl RequestId {
    /// Whether the two identifiers are the same.
    pub fn same_as(&self, other: &RequestId) -> (r: bool)
        ensures
            r == (self@ == other@),
    {
        match (self, other) {
            (RequestId::Null, RequestId::Null) => true,
            (RequestId::Number(a), RequestId::Number(b)) => *a == *b,
            (RequestId::Text(a), RequestId::Text(b)) => *a == *b,
            _ => false,
        }
    }

    /// A copy of the identifier.
    pub fn duplicate(&self) -> (r: RequestId)
        ensures
            r@ == self@,
    {
        match self {
            RequestId::Null => RequestId::Null,
            RequestId::Number(n) => RequestId::Number(*n),
            RequestId::Text(s) => RequestId::Text(s.clone()),
        }
    }

    /// The identifier as it is shown to the user.
    pub fn label(&self) -> (s: String)
        ensures
            s@ == id_label(self@),
    {
        match self {
            RequestId::Null => String::from_str("null"),
            RequestId::Number(n) => decimal_string(*n),
            RequestId::Text(t) => {
                let mut s = String::from_str("\"");
                s.append(t.as_str());
                s.append("\"");
                s
            },
        }
    }

    /// The identifier as JSON: always `Ok`, and a single line.
    pub fn to_json(&self) -> (r: Result<Json, JsonError>)
        ensures
            r matches Ok(j) && j@ == id_json(self@) && is_single_line(j@),
    {
        match self {
            RequestId::Null => {
                proof {
                    reveal_strlit("null");
                }
                Ok(Json::null())
            },
            RequestId::Number(n) => {
                proof {
                    lemma_signed_decimal_single_line(*n as int);
                }
                Ok(Json { text: decimal_string(*n) })
            },
            RequestId::Text(t) => Json::string(t.as_str()),
        }
    }

    /// The identifier that a JSON document of the form `shape` is.
    pub fn from_shape(shape: JsonShape) -> (r: Option<RequestId>)
        ensures
            r is Some <==> id_of_shape(shape@) is Some,
            r matches Some(id) ==> id@ == id_of_shape(shape@)->0,
    {
        match shape {
            JsonShape::Null => Some(RequestId::Null),
            JsonShape::Text(s) => Some(RequestId::Text(s)),
            JsonShape::Number(n) => {
                let digits = chars_of(n.as_str());
                match parse_integer(&digits, ID_BELOW, ID_ABOVE) {
                    Some(v) => Some(RequestId::Number(v)),
                    None => None,
                }
            },
            _ => None,
        }
    }

    /// The identifier that the JSON document `json` is.
    pub fn from_json(json: &Json) -> (r: Option<RequestId>)
        ensures
            r is Some <==> id_of_json(json@) is Some,
            r matches Some(id) ==> id@ == id_of_json(json@)->0,
    {
        match inspect(json.as_str()) {
            Ok(d) => RequestId::from_shape(d.shape),
            Err(_) => None,
        }
    }
}

/// A request: the protocol version, the identifier, the method and its
/// parameters.
#[derive(Debug)]
pub struct RpcRequest {
    /// The protocol version, `2.0`.
    pub jsonrpc: String,
    pub id: RequestId,
    /// The name of the method, such as `config.get`.
    pub method: String,
    /// The parameters: an object or an array.
    pub params: Json,
}

/// The JSON object of a request whose members are written as given.
pub open spec fn request_object(
    jsonrpc: Seq<char>,
    id: Seq<char>,
    method: Seq<char>,
    params: Seq<char>,
) -> Seq<char> {
    "{\"jsonrpc\":"@ + jsonrpc + ",\"id\":"@ + id + ",\"method\":"@ + method + ",\"params\":"@
        + params + "}"@
}

/// The line of JSON that stands for a request.
pub open spec fn request_text(
    jsonrpc: Seq<char>,
    id: RequestIdView,
    method: Seq<char>,
    params: Seq<char>,
) -> Seq<char> {
    request_object(json_string_literal(jsonrpc), id_json(id), json_string_literal(method), params)
}

/// Writes the JSON object of a request from its members, each given as
/// JSON: the version, the identifier, the method and the parameters, in
/// this order.
pub fn write_request_object(jsonrpc: &Json, id: &Json, method: &Json, params: &Json) -> (s: String)
    ensures
        s@ == request_object(jsonrpc@, id@, method@, params@),
        is_single_line(jsonrpc@) && is_single_line(id@) && is_single_line(method@)
            && is_single_line(params@) ==> is_single_line(s@),
{
    proof {
        reveal_strlit("{\"jsonrpc\":");
        reveal_strlit(",\"id\":");
        reveal_strlit(",\"method\":");
        reveal_strlit(",\"params\":");
        reveal_strlit("}");
        if is_single_line(jsonrpc@) && is_single_line(id@) && is_single_line(method@)
            && is_single_line(params@) {
            let a = "{\"jsonrpc\":"@ + jsonrpc@;
            lemma_single_line_concat("{\"jsonrpc\":"@, jsonrpc@);
            lemma_single_line_concat(a, ",\"id\":"@);
            lemma_single_line_concat(a + ",\"id\":"@, id@);
            let b = a + ",\"id\":"@ + id@;
            lemma_single_line_concat(b, ",\"method\":"@);
            lemma_single_line_concat(b + ",\"method\":"@, method@);
            let c = b + ",\"method\":"@ + method@;
            lemma_single_line_concat(c, ",\"params\":"@);
            lemma_single_line_concat(c + ",\"params\":"@, params@);
            lemma_single_line_concat(c + ",\"params\":"@ + params@, "}"@);
        }
    }
    let mut s = String::from_str("{\"jsonrpc\":");
    s.append(jsonrpc.as_str());
    s.append(",\"id\":");
    s.append(id.as_str());
    s.append(",\"method\":");
    s.append(method.as_str());
    s.append(",\"params\":");
    s.append(params.as_str());
    s.append("}");
    s
}

impl RpcRequest {
    /// A request of protocol version 2.0.
    pub fn new(id: RequestId, method: &str, params: Json) -> (r: RpcRequest)
        ensures
            r.jsonrpc@ == "2.0"@,
            r.id == id,
            r.method@ == method@,
            r.params == params,
    {
        RpcRequest {
            jsonrpc: String::from_str("2.0"),
            id,
            method: String::from_str(method),
            params,
        }
    }

    /// The request as one line of JSON, without the line break: always
    /// `Ok`, with the object whose members are the version, the identifier,
    /// the method and the parameters, in this order. It is a single line
    /// where the parameters are.
    pub fn to_json_string(&self) -> (r: Result<String, JsonError>)
        ensures
            r matches Ok(s) && s@ == request_text(
                self.jsonrpc@,
                self.id@,
                self.method@,
                self.params@,
            ) && (is_single_line(self.params@) ==> is_single_line(s@)),
    {
        let version = Json::string(self.jsonrpc.as_str())?;
        let id = self.id.to_json()?;
        let method = Json::string(self.method.as_str())?;
        Ok(write_request_object(&version, &id, &method, &self.params))
    }
}

/// The error that a peer reports.
#[derive(Debug)]
pub struct RpcError {
    pub code: i32,
    pub message: String,
    /// Further data, where the peer sent any.
    pub data: Option<Json>,
}

/// A response that carries a result.
#[derive(Debug)]
pub struct RpcSuccessResponse {
    pub jsonrpc: String,
    pub id: RequestId,
    pub result: Json,
}

/// A response that carries an error.
#[derive(Debug)]
pub struct RpcErrorResponse {
    pub jsonrpc: String,
    pub id: RequestId,
    pub error: RpcError,
}

/// A response: a result or an error, never both.
#[derive(Debug)]
pub enum RpcResponse {
    Success(RpcSuccessResponse),
    Error(RpcErrorResponse),
}

/// A message that asks for no response.
#[derive(Debug)]
pub struct RpcNotification {
    pub jsonrpc: String,
    pub method: String,
    pub params: Json,
}

/// Mathematical form of [`RpcError`].
pub struct RpcErrorView {
    pub code: int,
    pub message: Seq<char>,
    pub data: Option<Seq<char>>,
}

impl View for RpcError {
    type V = RpcErrorView;

    open spec fn view(&self) -> RpcErrorView {
        RpcErrorView {
            code: self.code as int,
            message: self.message@,
            data: match self.data {
                Some(d) => Some(d@),
                None => None,
            },
        }
    }
}

/// Mathematical form of [`RpcResponse`].
pub enum RpcResponseView {
    Success { jsonrpc: Seq<char>, id: RequestIdView, result: Seq<char> },
    Error { jsonrpc: Seq<char>, id: RequestIdView, error: RpcErrorView },
}

impl View for RpcResponse {
    type V = RpcResponseView;

    open spec fn view(&self) -> RpcResponseView {
        match self {
            RpcResponse::Success(s) => RpcResponseView::Success {
                jsonrpc: s.jsonrpc@,
                id: s.id@,
                result: s.result@,
            },
            RpcResponse::Error(e) => RpcResponseView::Error {
                jsonrpc: e.jsonrpc@,
                id: e.id@,
                error: e.error@,
            },
        }
    }
}

/// The string that a JSON document of the form `shape` is; `None` where it
/// is no string.
pub open spec fn string_of_shape(shape: JsonShapeView) -> Option<Seq<char>> {
    match shape {
        JsonShapeView::Text(s) => Some(s),
        _ => None,
    }
}

/// The whole number between `-2^31` and `2^31 - 1` that a JSON document of
/// the form `shape` is; `None` for any other form.
pub open spec fn code_of_shape(shape: JsonShapeView) -> Option<int> {
    match shape {
        JsonShapeView::Number(n) => match integer_value(n) {
            Some(v) => if -0x8000_0000 <= v <= 0x7fff_ffff {
                Some(v)
            } else {
                None
            },
            None => None,
        },
        _ => None,
    }
}

/// A member of a JSON object that was looked up: its text and, where the
/// text is a JSON document, the form of that.
pub struct MemberView {
    pub text: Seq<char>,
    pub shape: Option<JsonShapeView>,
}

/// The member `key` among `members`.
pub open spec fn member_view(members: Seq<(Seq<char>, Seq<char>)>, key: Seq<char>) -> Option<
    MemberView,
> {
    match find_member(members, key) {
        Some(text) => Some(MemberView { text, shape: shape_of_json(text) }),
        None => None,
    }
}

/// The string that a member is, where there is the member and it is a
/// string.
pub open spec fn string_member(member: Option<MemberView>) -> Option<Seq<char>> {
    match member {
        Some(m) => match m.shape {
            Some(shape) => string_of_shape(shape),
            None => None,
        },
        None => None,
    }
}

/// The error object with these members: a `code` that is a 32-bit whole
/// number and a `message` that is a string. Its `data` is what the member
/// of that name holds, unless that is null.
pub open spec fn error_of_parts(
    code: Option<MemberView>,
    message: Option<MemberView>,
    data: Option<MemberView>,
) -> Option<RpcErrorView> {
    let code_value = match code {
        Some(m) => match m.shape {
            Some(shape) => code_of_shape(shape),
            None => None,
        },
        None => None,
    };
    if code_value is Some && string_member(message) is Some {
        Some(
            RpcErrorView {
                code: code_value->0,
                message: string_member(message)->0,
                data: match data {
                    Some(m) => if m.shape == Some(JsonShapeView::Null) {
                        None
                    } else {
                        Some(m.text)
                    },
                    None => None,
                },
            },
        )
    } else {
        None
    }
}

/// The error object that the JSON document `text` is.
pub open spec fn error_of_json(text: Seq<char>) -> Option<RpcErrorView> {
    match shape_of_json(text) {
        Some(JsonShapeView::Object(members)) => error_of_parts(
            member_view(members, "code"@),
            member_view(members, "message"@),
            member_view(members, "data"@),
        ),
        _ => None,
    }
}

/// The response with these members. With a version that is a string, an
/// identifier and a `result` it is a success, whatever else there is.
/// Without a `result`, with an `error`, it is an error. Else it is none.
pub open spec fn response_of_parts(
    jsonrpc: Option<MemberView>,
    id: Option<MemberView>,
    result: Option<Seq<char>>,
    error: Option<RpcErrorView>,
) -> Option<RpcResponseView> {
    let id_value = match id {
        Some(m) => match m.shape {
            Some(shape) => id_of_shape(shape),
            None => None,
        },
        None => None,
    };
    if string_member(jsonrpc) is Some && id_value is Some {
        if result is Some {
            Some(
                RpcResponseView::Success {
                    jsonrpc: string_member(jsonrpc)->0,
                    id: id_value->0,
                    result: result->0,
                },
            )
        } else if error is Some {
            Some(
                RpcResponseView::Error {
                    jsonrpc: string_member(jsonrpc)->0,
                    id: id_value->0,
                    error: error->0,
                },
            )
        } else {
            None
        }
    } else {
        None
    }
}

/// The response that the members of a JSON object stand for.
pub open spec fn response_of_members(members: Seq<(Seq<char>, Seq<char>)>) -> Option<
    RpcResponseView,
> {
    response_of_parts(
        member_view(members, "jsonrpc"@),
        member_view(members, "id"@),
        find_member(members, "result"@),
        match find_member(members, "error"@) {
            Some(text) => error_of_json(text),
            None => None,
        },
    )
}

/// The response that the line `text` stands for; `None` where it is no JSON
/// object or does not have the members of a response.
pub open spec fn response_of_json(text: Seq<char>) -> Option<RpcResponseView> {
    match shape_of_json(text) {
        Some(JsonShapeView::Object(members)) => response_of_members(members),
        _ => None,
    }
}

/// A member of a JSON object that was looked up: its text and, where the
/// text is a JSON document, the form of that.
#[derive(Debug)]
pub struct Member {
    pub text: Json,
    pub shape: Option<JsonShape>,
}

impl View for Member {
    type V = MemberView;

    open spec fn view(&self) -> MemberView {
        MemberView {
            text: self.text@,
            shape: match self.shape {
                Some(shape) => Some(shape@),
                None => None,
            },
        }
    }
}

/// The view of a member that may be there.
pub open spec fn optional_member_view(member: Option<Member>) -> Option<MemberView> {
    match member {
        Some(m) => Some(m@),
        None => None,
    }
}

/// Looks the member `key` up among `members`.
pub fn lookup(members: &Vec<(String, Json)>, key: &str) -> (r: Option<Member>)
    ensures
        optional_member_view(r) == member_view(members_view(members@), key@),
{
    match member(members, key) {
        Some(json) => {
            let shape = match inspect(json.as_str()) {
                Ok(d) => Some(d.shape),
                Err(_) => None,
            };
            Some(Member { text: json.duplicate(), shape })
        },
        None => None,
    }
}

/// The string that a member is.
fn member_string(member: Option<Member>) -> (r: Option<String>)
    ensures
        r is Some <==> string_member(optional_member_view(member)) is Some,
        r matches Some(s) ==> s@ == string_member(optional_member_view(member))->0,
{
    match member {
        Some(Member { shape: Some(JsonShape::Text(s)), .. }) => Some(s),
        _ => None,
    }
}

impl RpcError {
    /// The error object with these members.
    pub fn from_parts(code: Option<Member>, message: Option<Member>, data: Option<Member>) -> (r:
        Option<RpcError>)
        ensures
            r is Some <==> error_of_parts(
                optional_member_view(code),
                optional_member_view(message),
                optional_member_view(data),
            ) is Some,
            r matches Some(e) ==> e@ == error_of_parts(
                optional_member_view(code),
                optional_member_view(message),
                optional_member_view(data),
            )->0,
    {
        let code = match code {
            Some(Member { shape: Some(JsonShape::Number(n)), .. }) => {
                let digits = chars_of(n.as_str());
                match parse_integer(&digits, 0x8000_0000, 0x7fff_ffff) {
                    Some(v) => v as i32,
                    None => {
                        return None;
                    },
                }
            },
            _ => {
                return None;
            },
        };
        let message = match member_string(message) {
            Some(m) => m,
            None => {
                return None;
            },
        };
        let data = match data {
            Some(Member { shape: Some(JsonShape::Null), .. }) => None,
            Some(Member { text, .. }) => Some(text),
            None => None,
        };
        Some(RpcError { code, message, data })
    }

    /// The error object that `json` is.
    pub fn from_json(json: &Json) -> (r: Option<RpcError>)
        ensures
            r is Some <==> error_of_json(json@) is Some,
            r matches Some(e) ==> e@ == error_of_json(json@)->0,
    {
        match inspect(json.as_str()) {
            Ok(d) => match d.shape {
                JsonShape::Object(members) => RpcError::from_parts(
                    lookup(&members, "code"),
                    lookup(&members, "message"),
                    lookup(&members, "data"),
                ),
                _ => None,
            },
            Err(_) => None,
        }
    }
}

impl RpcResponse {
    /// Whether the response carries a result.
    pub fn is_success(&self) -> (r: bool)
        ensures
            r == (self is Success),
            r == (self@ is Success),
    {
        match self {
            RpcResponse::Success(_) => true,
            RpcResponse::Error(_) => false,
        }
    }

    /// Whether the response carries an error.
    pub fn is_error(&self) -> (r: bool)
        ensures
            r == (self is Error),
            r == (self@ is Error),
    {
        match self {
            RpcResponse::Success(_) => false,
            RpcResponse::Error(_) => true,
        }
    }

    /// The identifier of the request that the response answers.
    pub fn id(&self) -> (r: &RequestId)
        ensures
            *r == self.spec_id(),
    {
        match self {
            RpcResponse::Success(s) => &s.id,
            RpcResponse::Error(e) => &e.id,
        }
    }

    /// The identifier of the response.
    pub open spec fn spec_id(&self) -> RequestId {
        match self {
            RpcResponse::Success(s) => s.id,
            RpcResponse::Error(e) => e.id,
        }
    }

    /// The response with these members.
    pub fn from_parts(
        jsonrpc: Option<Member>,
        id: Option<Member>,
        result: Option<Json>,
        error: Option<RpcError>,
    ) -> (r: Option<RpcResponse>)
        ensures
            ({
                let expected = response_of_parts(
                    optional_member_view(jsonrpc),
                    optional_member_view(id),
                    match result {
                        Some(j) => Some(j@),
                        None => None,
                    },
                    match error {
                        Some(e) => Some(e@),
                        None => None,
                    },
                );
                &&& r is Some <==> expected is Some
                &&& r matches Some(resp) ==> resp@ == expected->0
            }),
    {
        let jsonrpc = match member_string(jsonrpc) {
            Some(v) => v,
            None => {
                return None;
            },
        };
        let id = match id {
            Some(Member { shape: Some(shape), .. }) => match RequestId::from_shape(shape) {
                Some(id) => id,
                None => {
                    return None;
                },
            },
            _ => {
                return None;
            },
        };
        match result {
            Some(result) => Some(RpcResponse::Success(RpcSuccessResponse { jsonrpc, id, result })),
            None => match error {
                Some(error) => Some(RpcResponse::Error(RpcErrorResponse { jsonrpc, id, error })),
                None => None,
            },
        }
    }

    /// The response that the members of a JSON object stand for.
    pub fn from_members(members: &Vec<(String, Json)>) -> (r: Option<RpcResponse>)
        ensures
            r is Some <==> response_of_members(members_view(members@)) is Some,
            r matches Some(resp) ==> resp@ == response_of_members(members_view(members@))->0,
    {
        let result = match member(members, "result") {
            Some(j) => Some(j.duplicate()),
            None => None,
        };
        let error = match member(members, "error") {
            Some(j) => RpcError::from_json(j),
            None => None,
        };
        RpcResponse::from_parts(lookup(members, "jsonrpc"), lookup(members, "id"), result, error)
    }

    /// Reads one line of JSON as a response.
    pub fn from_json_str(s: &str) -> (r: Result<RpcResponse, JsonError>)
        ensures
            r is Ok <==> response_of_json(s@) is Some,
            r matches Ok(resp) ==> resp@ == response_of_json(s@)->0,
    {
        let d = inspect(s)?;
        let response = match d.shape {
            JsonShape::Object(members) => RpcResponse::from_members(&members),
            _ => None,
        };
        match response {
            Some(resp) => Ok(resp),
            None => Err(
                JsonError {
                    message: String::from_str(
                        "data did not match any variant of untagged enum RpcResponse",
                    ),
                },
            ),
        }
    }
}

/// Mathematical form of [`RpcRequest`].
pub struct RpcRequestView {
    pub jsonrpc: Seq<char>,
    pub id: RequestIdView,
    pub method: Seq<char>,
    pub params: Seq<char>,
}

impl View for RpcRequest {
    type V = RpcRequestView;

    open spec fn view(&self) -> RpcRequestView {
        RpcRequestView {
            jsonrpc: self.jsonrpc@,
            id: self.id@,
            method: self.method@,
            params: self.params@,
        }
    }
}

/// The request with these members: a version and a method that are
/// strings, an identifier, and parameters. Without one of them it is none.
pub open spec fn request_of_parts(
    jsonrpc: Option<MemberView>,
    id: Option<MemberView>,
    method: Option<MemberView>,
    params: Option<Seq<char>>,
) -> Option<RpcRequestView> {
    let id_value = match id {
        Some(m) => match m.shape {
            Some(shape) => id_of_shape(shape),
            None => None,
        },
        None => None,
    };
    if string_member(jsonrpc) is Some && id_value is Some && string_member(method) is Some
        && params is Some {
        Some(
            RpcRequestView {
                jsonrpc: string_member(jsonrpc)->0,
                id: id_value->0,
                method: string_member(method)->0,
                params: params->0,
            },
        )
    } else {
        None
    }
}

/// The request that the line `text` stands for; `None` where it is no JSON
/// object or does not have the members of a request.
pub open spec fn request_of_json(text: Seq<char>) -> Option<RpcRequestView> {
    match shape_of_json(text) {
        Some(JsonShapeView::Object(members)) => request_of_parts(
            member_view(members, "jsonrpc"@),
            member_view(members, "id"@),
            member_view(members, "method"@),
            find_member(members, "params"@),
        ),
        _ => None,
    }
}

impl RpcRequest {
    /// The request with these members.
    pub fn from_parts(
        jsonrpc: Option<Member>,
        id: Option<Member>,
        method: Option<Member>,
        params: Option<Json>,
    ) -> (r: Option<RpcRequest>)
        ensures
            ({
                let expected = request_of_parts(
                    optional_member_view(jsonrpc),
                    optional_member_view(id),
                    optional_member_view(method),
                    match params {
                        Some(j) => Some(j@),
                        None => None,
                    },
                );
                &&& r is Some <==> expected is Some
                &&& r matches Some(request) ==> request@ == expected->0
            }),
    {
        let jsonrpc = match member_string(jsonrpc) {
            Some(v) => v,
            None => {
                return None;
            },
        };
        let id = match id {
            Some(Member { shape: Some(shape), .. }) => match RequestId::from_shape(shape) {
                Some(id) => id,
                None => {
                    return None;
                },
            },
            _ => {
                return None;
            },
        };
        let method = match member_string(method) {
            Some(v) => v,
            None => {
                return None;
            },
        };
        match params {
            Some(params) => Some(RpcRequest { jsonrpc, id, method, params }),
            None => None,
        }
    }

    /// Reads one line of JSON as a request.
    pub fn from_json_str(s: &str) -> (r: Result<RpcRequest, JsonError>)
        ensures
            r is Ok <==> request_of_json(s@) is Some,
            r matches Ok(request) ==> request@ == request_of_json(s@)->0,
    {
        let d = inspect(s)?;
        let request = match d.shape {
            JsonShape::Object(members) => {
                let params = match member(&members, "params") {
                    Some(j) => Some(j.duplicate()),
                    None => None,
                };
                RpcRequest::from_parts(
                    lookup(&members, "jsonrpc"),
                    lookup(&members, "id"),
                    lookup(&members, "method"),
                    params,
                )
            },
            _ => None,
        };
        match request {
            Some(request) => Ok(request),
            None => Err(JsonError { message: String::from_str("data is no request") }),
        }
    }
}

/// A response is a success or an error, and never both.
pub proof fn lemma_success_or_error(response: RpcResponse)
    ensures
        (response is Success) != (response is Error),
        (response@ is Success) != (response@ is Error),
        response@ is Success <==> response is Success,
{
}

} // verus!
