//! The messages that are exchanged with `codex app-server`, one line of JSON each.

use crate::json;
use crate::json::{named, text_value, Json, JsonView};
use crate::text;
use crate::text::signed_decimal_text;
use vstd::prelude::*;
use vstd::string::*;

verus! {

/// The error of a failed request.
#[derive(Debug)]
pub struct RpcError {
    pub message: String,
    pub code: Option<i64>,
    pub data: Option<Json>,
}

/// A message of the app-server.
#[derive(Debug)]
pub enum RpcMessage {
    /// The answer to a request.
    Response { id: u64, result: Option<Json>, error: Option<RpcError> },
    /// News that need no answer.
    Notification { method: String, params: Json },
    /// A request of the app-server itself.
    ServerRequest { id: u64, method: String, params: Json },
}

/// The `error` member of a message is not made as an error is.
#[derive(Debug, PartialEq, Eq)]
pub struct MalformedError;

/// An error as mathematics.
pub struct RpcErrorView {
    pub message: Seq<char>,
    pub code: Option<i64>,
    pub data: Option<JsonView>,
}

/// A message as mathematics.
pub enum RpcMessageView {
    Response { id: u64, result: Option<JsonView>, error: Option<RpcErrorView> },
    Notification { method: Seq<char>, params: JsonView },
    ServerRequest { id: u64, method: Seq<char>, params: JsonView },
}

/// An optional value as mathematics.
pub open spec fn value_view(value: Option<Json>) -> Option<JsonView> {
    match value {
        Some(json) => Some(json@),
        None => None,
    }
}

impl View for RpcError {
    type V = RpcErrorView;

    open spec fn view(&self) -> RpcErrorView {
        RpcErrorView { message: self.message@, code: self.code, data: value_view(self.data) }
    }
}

/// An optional error as mathematics.
pub open spec fn error_view(error: Option<RpcError>) -> Option<RpcErrorView> {
    match error {
        Some(e) => Some(e@),
        None => None,
    }
}

impl View for RpcMessage {
    type V = RpcMessageView;

    open spec fn view(&self) -> RpcMessageView {
        match self {
            RpcMessage::Response { id, result, error } => RpcMessageView::Response {
                id: *id,
                result: value_view(*result),
                error: error_view(*error),
            },
            RpcMessage::Notification { method, params } => RpcMessageView::Notification {
                method: method@,
                params: params@,
            },
            RpcMessage::ServerRequest { id, method, params } => RpcMessageView::ServerRequest {
                id: *id,
                method: method@,
                params: params@,
            },
        }
    }
}

/// An optional integer: absent or `null` is none, and nothing but an integer is one.
/// The outer `None` says that the value is something else.
pub open spec fn optional_code(value: Option<JsonView>) -> Option<Option<i64>> {
    match value {
        None => Some(None),
        Some(JsonView::Null) => Some(None),
        Some(inner) => match json::as_integer(inner) {
            Some(n) => Some(Some(n)),
            None => None,
        },
    }
}

/// An optional value: absent or `null` is none.
pub open spec fn optional_data(value: Option<JsonView>) -> Option<JsonView> {
    match value {
        Some(JsonView::Null) => None,
        other => other,
    }
}

/// The error made of these parts, if they have the right types.
pub open spec fn error_of_parts(
    message: Option<JsonView>,
    code: Option<JsonView>,
    data: Option<JsonView>,
) -> Option<RpcErrorView> {
    match (message, optional_code(code)) {
        (Some(JsonView::Text(text)), Some(number)) => Some(
            RpcErrorView { message: text, code: number, data: optional_data(data) },
        ),
        _ => None,
    }
}

/// The element `i` of a sequence, if there is one.
pub open spec fn element(items: Seq<JsonView>, i: int) -> Option<JsonView> {
    if 0 <= i < items.len() {
        Some(items[i])
    } else {
        None
    }
}

/// The error that `value` denotes: an object with the members `message`, `code` and `data`, or an
/// array of one to three such parts in this order.
pub open spec fn rpc_error_of(value: JsonView) -> Option<RpcErrorView> {
    match value {
        JsonView::Object(_) => error_of_parts(
            json::member(value, "message"@),
            json::member(value, "code"@),
            json::member(value, "data"@),
        ),
        JsonView::Array(items) => if items.len() <= 3 {
            error_of_parts(element(items, 0), element(items, 1), element(items, 2))
        } else {
            None
        },
        _ => None,
    }
}

fn error_from_parts(message: Option<&Json>, code: Option<&Json>, data: Option<&Json>) -> (error:
    Result<RpcError, MalformedError>)
    ensures
        ({
            let expected = error_of_parts(ref_view(message), ref_view(code), ref_view(data));
            match error {
                Ok(e) => expected == Some(e@),
                Err(_) => expected is None,
            }
        }),
{
    let message = match message {
        Some(json) => match json.as_str() {
            Some(text) => text.to_owned(),
            None => {
                return Err(MalformedError);
            },
        },
        None => {
            return Err(MalformedError);
        },
    };
    let code = match code {
        Some(json) => if json.is_null() {
            None
        } else {
            match json.as_i64() {
                Some(n) => Some(n),
                None => {
                    return Err(MalformedError);
                },
            }
        },
        None => None,
    };
    let data = match data {
        Some(json) => if json.is_null() {
            None
        } else {
            Some(json.duplicate())
        },
        None => None,
    };
    Ok(RpcError { message, code, data })
}

/// A borrowed optional value as mathematics.
pub open spec fn ref_view(value: Option<&Json>) -> Option<JsonView> {
    match value {
        Some(json) => Some(json@),
        None => None,
    }
}

fn element_at(items: &Vec<Json>, i: usize) -> (item: Option<&Json>)
    ensures
        ref_view(item) == element(json::item_views(items@), i as int),
{
    if i < items.len() {
        Some(&items[i])
    } else {
        None
    }
}

/// Reads the error that `value` denotes.
pub fn decode_rpc_error(value: &Json) -> (error: Result<RpcError, MalformedError>)
    ensures
        match error {
            Ok(e) => rpc_error_of(value@) == Some(e@),
            Err(_) => rpc_error_of(value@) is None,
        },
{
    if value.is_object() {
        error_from_parts(value.get("message"), value.get("code"), value.get("data"))
    } else {
        match value.as_array() {
            Some(items) => if items.len() <= 3 {
                error_from_parts(element_at(items, 0), element_at(items, 1), element_at(items, 2))
            } else {
                Err(MalformedError)
            },
            None => Err(MalformedError),
        }
    }
}

/// What `value` is as a message: with a method and an id it is a request, with a method alone a
/// notification, with an id alone a response, and else nothing. The outer `None` says that its
/// `error` member is malformed.
pub open spec fn message_of(value: JsonView) -> Option<Option<RpcMessageView>> {
    let method = json::text_member(value, "method"@);
    let id = json::member(value, "id"@);
    let params = match json::member(value, "params"@) {
        Some(inner) => inner,
        None => JsonView::Null,
    };
    let error = json::member(value, "error"@);
    if error matches Some(e) && rpc_error_of(e) is None {
        None
    } else {
        Some(
            match (method, id) {
                (Some(method), Some(JsonView::Unsigned(id))) => Some(
                    RpcMessageView::ServerRequest { id, method, params },
                ),
                (Some(method), _) => Some(RpcMessageView::Notification { method, params }),
                (None, Some(JsonView::Unsigned(id))) => Some(
                    RpcMessageView::Response {
                        id,
                        result: json::member(value, "result"@),
                        error: match error {
                            Some(e) => rpc_error_of(e),
                            None => None,
                        },
                    },
                ),
                (None, _) => None,
            },
        )
    }
}

fn copy_member(value: &Json, name: &str) -> (copy: Option<Json>)
    ensures
        value_view(copy) == json::member(value@, name@),
{
    match value.get(name) {
        Some(inner) => Some(inner.duplicate()),
        None => None,
    }
}

/// Reads a message from a JSON value.
pub fn message_from_value(value: &Json) -> (message: Result<Option<RpcMessage>, MalformedError>)
    ensures
        match message {
            Ok(Some(m)) => message_of(value@) == Some(Some(m@)),
            Ok(None) => message_of(value@) == Some(None::<RpcMessageView>),
            Err(_) => message_of(value@) is None,
        },
{
    let method = value.text("method");
    let id = match value.get("id") {
        Some(json) => json.as_u64(),
        None => None,
    };
    let error = match value.get("error") {
        Some(json) => match decode_rpc_error(json) {
            Ok(error) => Some(error),
            Err(malformed) => {
                return Err(malformed);
            },
        },
        None => None,
    };
    let params = match value.get("params") {
        Some(json) => json.duplicate(),
        None => Json::Null,
    };
    match (method, id) {
        (Some(method), Some(id)) => Ok(
            Some(RpcMessage::ServerRequest { id, method: method.to_owned(), params }),
        ),
        (Some(method), None) => Ok(
            Some(RpcMessage::Notification { method: method.to_owned(), params }),
        ),
        (None, Some(id)) => Ok(
            Some(RpcMessage::Response { id, result: copy_member(value, "result"), error }),
        ),
        (None, None) => Ok(None),
    }
}

/// What the line `line` is as a message: a line that is no JSON text is nothing.
pub open spec fn message_of_line(line: Seq<char>) -> Option<Option<RpcMessageView>> {
    match json::parsed_json(line) {
        Some(value) => message_of(value),
        None => Some(None),
    }
}

/// Reads a message from a line of the app-server.
pub fn parse_rpc_message(line: &str) -> (message: Result<Option<RpcMessage>, MalformedError>)
    ensures
        match message {
            Ok(Some(m)) => message_of_line(line@) == Some(Some(m@)),
            Ok(None) => message_of_line(line@) == Some(None::<RpcMessageView>),
            Err(_) => message_of_line(line@) is None,
        },
{
    match Json::parse(line) {
        Some(value) => message_from_value(&value),
        None => Ok(None),
    }
}

/// The words for an error, from the JSON text of its data.
pub open spec fn error_words(message: Seq<char>, code: Option<i64>, data: Option<Seq<char>>) -> Seq<
    char,
> {
    let coded = match code {
        Some(n) => message + " | code "@ + text::signed_decimal(n as int),
        None => message,
    };
    match data {
        Some(shown) => coded + " | "@ + shown,
        None => coded,
    }
}

/// The words for an error, from the JSON text of its data.
pub fn join_error_words(message: &str, code: Option<i64>, data: Option<String>) -> (words: String)
    ensures
        words@ == error_words(message@, code, text::text_view(data)),
{
    let mut words = message.to_owned();
    match code {
        Some(n) => {
            words.append(" | code ");
            words.append(signed_decimal_text(n).as_str());
        },
        None => {},
    }
    match data {
        Some(shown) => {
            words.append(" | ");
            words.append(shown.as_str());
        },
        None => {},
    }
    words
}

/// The words for an error.
pub open spec fn rpc_error_words(error: RpcErrorView) -> Seq<char> {
    error_words(
        error.message,
        error.code,
        match error.data {
            Some(data) => Some(json::json_text(data)),
            None => None,
        },
    )
}

/// The words for an error.
pub fn format_rpc_error(error: &RpcError) -> (words: String)
    ensures
        words@ == rpc_error_words(error@),
{
    let data = match &error.data {
        Some(json) => Some(json.to_text()),
        None => None,
    };
    join_error_words(error.message.as_str(), error.code, data)
}

/// The request `method` with the id `id`, as JSON.
pub open spec fn request_value(id: u64, method: Seq<char>, params: JsonView) -> JsonView {
    JsonView::Object(
        json::object_of(
            seq![
                ("method"@, JsonView::Text(method)),
                ("id"@, JsonView::Unsigned(id)),
                ("params"@, params),
            ],
        ),
    )
}

/// The answer to the request `id`, as JSON.
pub open spec fn result_value(id: u64, result: JsonView) -> JsonView {
    JsonView::Object(
        json::object_of(seq![("id"@, JsonView::Unsigned(id)), ("result"@, result)]),
    )
}

/// The notification `method`, as JSON.
pub open spec fn notification_value(method: Seq<char>) -> JsonView {
    JsonView::Object(json::object_of(seq![("method"@, JsonView::Text(method))]))
}

/// The line that carries `value`.
pub open spec fn line_of(value: JsonView) -> Seq<char> {
    json::json_text(value).push('\n')
}

/// Writes `value` as one line.
fn write_line(value: &Json) -> (line: String)
    ensures
        line@ == line_of(value@),
        is_one_line(line@),
        json::plain_within(value@, 127) ==> json::parsed_json(line@.drop_last()) == Some(value@),
{
    let mut line = value.to_text();
    let ghost before = line@;
    proof {
        reveal_strlit("\n");
    }
    line.append("\n");
    assert("\n"@ =~= seq!['\n']);
    assert(line@ =~= before.push('\n'));
    assert forall|i: int| 0 <= i < line@.len() - 1 implies line@[i] != '\n' by {
        assert(line@[i] == before[i]);
    }
    assert(line@.drop_last() =~= before);
    line
}

/// Whether `line` ends with a line feed and holds no other.
pub open spec fn is_one_line(line: Seq<char>) -> bool {
    &&& line.len() > 0
    &&& line.last() == '\n'
    &&& forall|i: int| 0 <= i < line.len() - 1 ==> line[i] != '\n'
}

/// What the bridge knows of a running app-server: the ids of its own requests count up from one.
#[derive(Debug)]
pub struct AppServerProcess {
    next_id: u64,
}

/// A request that is to be sent.
#[derive(Debug)]
pub struct OutgoingRequest {
    /// The id under which it will be answered.
    pub id: u64,
    /// The line to send.
    pub line: String,
}

impl View for AppServerProcess {
    type V = u64;

    /// The id of the next request.
    closed spec fn view(&self) -> u64 {
        self.next_id
    }
}

/// What comes next from the app-server.
#[derive(Debug)]
pub enum Incoming {
    /// The app-server closed its output.
    Closed,
    /// A line that is no message; the next line is to be read.
    Noise,
    /// A message.
    Message(RpcMessage),
    /// A message whose error is malformed.
    Malformed,
}

/// What comes next from the app-server, as mathematics.
pub enum IncomingView {
    Closed,
    Noise,
    Message(RpcMessageView),
    Malformed,
}

impl View for Incoming {
    type V = IncomingView;

    open spec fn view(&self) -> IncomingView {
        match self {
            Incoming::Closed => IncomingView::Closed,
            Incoming::Noise => IncomingView::Noise,
            Incoming::Message(message) => IncomingView::Message(message@),
            Incoming::Malformed => IncomingView::Malformed,
        }
    }
}

/// What the line `line` of the app-server is; `None` is the end of its output.
pub open spec fn incoming(line: Option<Seq<char>>) -> IncomingView {
    match line {
        Some(line) => match message_of_line(line) {
            Some(Some(message)) => IncomingView::Message(message),
            Some(None) => IncomingView::Noise,
            None => IncomingView::Malformed,
        },
        None => IncomingView::Closed,
    }
}

/// What a message means to one who waits for a response.
#[derive(Debug)]
pub enum Awaited {
    /// It is something else.
    NotYet,
    /// The request succeeded with this result.
    Result(Json),
    /// The request failed for this reason.
    Failed(String),
    /// The request failed because the error of a message could not be decoded; the reason is the
    /// decoder's.
    Malformed,
}

/// What a message means to one who waits, as mathematics.
pub enum AwaitedView {
    NotYet,
    Result(JsonView),
    Failed(Seq<char>),
    Malformed,
}

impl View for Awaited {
    type V = AwaitedView;

    open spec fn view(&self) -> AwaitedView {
        match self {
            Awaited::NotYet => AwaitedView::NotYet,
            Awaited::Result(json) => AwaitedView::Result(json@),
            Awaited::Failed(reason) => AwaitedView::Failed(reason@),
            Awaited::Malformed => AwaitedView::Malformed,
        }
    }
}

/// What `incoming` means to one who waits for the response `expected_id`: an error counts before
/// a result, and a response without a result has the result `null`.
pub open spec fn awaited(expected_id: u64, incoming: IncomingView) -> AwaitedView {
    match incoming {
        IncomingView::Message(RpcMessageView::Response { id, result, error }) => if id
            != expected_id {
            AwaitedView::NotYet
        } else {
            match error {
                Some(e) => AwaitedView::Failed(rpc_error_words(e)),
                None => AwaitedView::Result(
                    match result {
                        Some(value) => value,
                        None => JsonView::Null,
                    },
                ),
            }
        },
        IncomingView::Message(_) => AwaitedView::NotYet,
        IncomingView::Noise => AwaitedView::NotYet,
        IncomingView::Malformed => AwaitedView::Malformed,
        IncomingView::Closed => AwaitedView::Failed(
            "app-server closed before response "@ + text::decimal(expected_id as nat),
        ),
    }
}

/// The parameters of `initialize`.
pub open spec fn initialize_params(version: Seq<char>) -> JsonView {
    JsonView::Object(
        json::object_of(
            seq![
                (
                    "clientInfo"@,
                    JsonView::Object(
                        json::object_of(
                            seq![
                                ("name"@, JsonView::Text("telegram-codex-bridge"@)),
                                ("version"@, JsonView::Text(version)),
                            ],
                        ),
                    ),
                ),
                (
                    "capabilities"@,
                    JsonView::Object(
                        json::object_of(seq![("experimentalApi"@, JsonView::Bool(false))]),
                    ),
                ),
            ],
        ),
    )
}

impl AppServerProcess {
    /// An app-server that has just been started.
    pub fn new() -> (process: AppServerProcess)
        ensures
            process@ == 1,
    {
        AppServerProcess { next_id: 1 }
    }

    /// The id of the next request.
    pub fn next_id(&self) -> (id: u64)
        ensures
            id == self@,
    {
        self.next_id
    }

    /// The request that has to come first, from the bridge in its version `version`. Once it has
    /// been answered, the app-server is notified that it is `initialized`.
    pub fn initialize(&mut self, version: &str) -> (request: OutgoingRequest)
        requires
            old(self)@ < u64::MAX,
        ensures
            final(self)@ == old(self)@ + 1,
            request.id == old(self)@,
            request.line@ == line_of(
                request_value(old(self)@, "initialize"@, initialize_params(version@)),
            ),
            is_one_line(request.line@),
            json::parsed_json(request.line@.drop_last()) == Some(
                request_value(old(self)@, "initialize"@, initialize_params(version@)),
            ),
    {
        let mut info = Vec::new();
        info.push(named("name", text_value("telegram-codex-bridge")));
        info.push(named("version", text_value(version)));
        assert(json::member_views(info@) =~= seq![
            ("name"@, JsonView::Text("telegram-codex-bridge"@)),
            ("version"@, JsonView::Text(version@)),
        ]);
        let mut capabilities = Vec::new();
        capabilities.push(named("experimentalApi", Json::Bool(false)));
        assert(json::member_views(capabilities@) =~= seq![
            ("experimentalApi"@, JsonView::Bool(false)),
        ]);
        let mut params = Vec::new();
        params.push(named("clientInfo", Json::Object(info)));
        params.push(named("capabilities", Json::Object(capabilities)));
        proof {
            reveal_with_fuel(json::json_tree, 2);
        }
        assert(json::member_views(params@) =~= seq![
            ("clientInfo"@, params@[0].value@),
            ("capabilities"@, params@[1].value@),
        ]);
        proof {
            json::lemma_plain_object(json::member_views(info@), 125);
            json::lemma_plain_object(json::member_views(capabilities@), 125);
            json::lemma_plain_object(json::member_views(params@), 126);
        }
        self.send_request("initialize", Json::Object(params))
    }

    /// The request `method`, under an id that no other request has. The line reads back as this
    /// request.
    pub fn send_request(&mut self, method: &str, params: Json) -> (request: OutgoingRequest)
        requires
            old(self)@ < u64::MAX,
        ensures
            final(self)@ == old(self)@ + 1,
            request.id == old(self)@,
            request.line@ == line_of(request_value(old(self)@, method@, params@)),
            is_one_line(request.line@),
            json::plain_within(params@, 126) ==> json::parsed_json(request.line@.drop_last())
                == Some(request_value(old(self)@, method@, params@)),
            json::plain_within(params@, 126) ==> incoming(Some(request.line@.drop_last()))
                == IncomingView::Message(
                RpcMessageView::ServerRequest {
                    id: request.id,
                    method: method@,
                    params: params@,
                },
            ),
    {
        let id = self.next_id;
        self.next_id = id + 1;
        let mut members = Vec::new();
        members.push(named("method", text_value(method)));
        members.push(named("id", Json::Unsigned(id)));
        members.push(named("params", params));
        let value = Json::Object(members);
        assert(json::member_views(members@) =~= seq![
            ("method"@, JsonView::Text(method@)),
            ("id"@, JsonView::Unsigned(id)),
            ("params"@, params@),
        ]);
        proof {
            law_request_is_read_back(id, method@, params@);
            if json::plain_within(params@, 126) {
                lemma_plain_request(id, method@, params@);
            }
        }
        OutgoingRequest { id, line: write_line(&value) }
    }

    /// The line that answers the request `id` of the app-server.
    pub fn send_result(&self, id: u64, result: Json) -> (line: String)
        ensures
            line@ == line_of(result_value(id, result@)),
            is_one_line(line@),
            json::plain_within(result@, 126) ==> json::parsed_json(line@.drop_last()) == Some(
                result_value(id, result@),
            ),
            json::plain_within(result@, 126) ==> incoming(Some(line@.drop_last()))
                == IncomingView::Message(
                RpcMessageView::Response { id, result: Some(result@), error: None },
            ),
    {
        let mut members = Vec::new();
        members.push(named("id", Json::Unsigned(id)));
        members.push(named("result", result));
        let value = Json::Object(members);
        assert(json::member_views(members@) =~= seq![
            ("id"@, JsonView::Unsigned(id)),
            ("result"@, result@),
        ]);
        proof {
            law_result_is_read_back(id, result@);
            if json::plain_within(result@, 126) {
                lemma_plain_result(id, result@);
            }
        }
        write_line(&value)
    }

    /// The line that notifies the app-server of `method`.
    pub fn send_notification(&self, method: &str) -> (line: String)
        ensures
            line@ == line_of(notification_value(method@)),
            is_one_line(line@),
            json::parsed_json(line@.drop_last()) == Some(notification_value(method@)),
            incoming(Some(line@.drop_last())) == IncomingView::Message(
                RpcMessageView::Notification { method: method@, params: JsonView::Null },
            ),
    {
        let mut members = Vec::new();
        members.push(named("method", text_value(method)));
        let value = Json::Object(members);
        assert(json::member_views(members@) =~= seq![("method"@, JsonView::Text(method@))]);
        proof {
            law_notification_is_read_back(method@);
            json::lemma_plain_object(seq![("method"@, JsonView::Text(method@))], 127);
        }
        write_line(&value)
    }

    /// Reads a line of the app-server; `None` is the end of its output.
    pub fn next_message(line: Option<&str>) -> (next: Incoming)
        ensures
            next@ == incoming(
                match line {
                    Some(line) => Some(line@),
                    None => None,
                },
            ),
    {
        match line {
            Some(line) => match parse_rpc_message(line) {
                Ok(Some(message)) => Incoming::Message(message),
                Ok(None) => Incoming::Noise,
                Err(_) => Incoming::Malformed,
            },
            None => Incoming::Closed,
        }
    }

    /// What `next` means to one who waits for the response `expected_id`.
    pub fn await_response(expected_id: u64, next: Incoming) -> (meaning: Awaited)
        ensures
            meaning@ == awaited(expected_id, next@),
    {
        match next {
            Incoming::Message(RpcMessage::Response { id, result, error }) => {
                if id != expected_id {
                    return Awaited::NotYet;
                }
                match error {
                    Some(e) => Awaited::Failed(format_rpc_error(&e)),
                    None => match result {
                        Some(value) => Awaited::Result(value),
                        None => Awaited::Result(Json::Null),
                    },
                }
            },
            Incoming::Message(_) => Awaited::NotYet,
            Incoming::Noise => Awaited::NotYet,
            Incoming::Malformed => Awaited::Malformed,
            Incoming::Closed => {
                let mut words = "app-server closed before response ".to_owned();
                words.append(text::decimal_text(expected_id).as_str());
                Awaited::Failed(words)
            },
        }
    }
}

proof fn lemma_member_names()
    ensures
        "method"@ != "id"@,
        "method"@ != "params"@,
        "method"@ != "result"@,
        "method"@ != "error"@,
        "id"@ != "params"@,
        "id"@ != "result"@,
        "id"@ != "error"@,
        "params"@ != "error"@,
        "result"@ != "error"@,
        "result"@ != "params"@,
{
    reveal_strlit("method");
    reveal_strlit("id");
    reveal_strlit("params");
    reveal_strlit("result");
    reveal_strlit("error");
    assert("method"@[0] == 'm' && "params"@[0] == 'p' && "result"@[0] == 'r');
    assert("method"@.len() == 6 && "id"@.len() == 2 && "error"@.len() == 5);
    assert("params"@.len() == 6 && "result"@.len() == 6);
}

/// A request that is sent is read as this request.
pub proof fn law_request_is_read_back(id: u64, method: Seq<char>, params: JsonView)
    ensures
        message_of(request_value(id, method, params)) == Some(
            Some(RpcMessageView::ServerRequest { id, method, params }),
        ),
{
    lemma_member_names();
    let members = seq![
        ("method"@, JsonView::Text(method)),
        ("id"@, JsonView::Unsigned(id)),
        ("params"@, params),
    ];
    json::lemma_member_found(members, 0);
    json::lemma_member_found(members, 1);
    json::lemma_member_found(members, 2);
    json::lemma_member_missing(members, "error"@);
}

/// An answer that is sent is read as this answer.
pub proof fn law_result_is_read_back(id: u64, result: JsonView)
    ensures
        message_of(result_value(id, result)) == Some(
            Some(RpcMessageView::Response { id, result: Some(result), error: None }),
        ),
{
    lemma_member_names();
    let members = seq![("id"@, JsonView::Unsigned(id)), ("result"@, result)];
    json::lemma_member_found(members, 0);
    json::lemma_member_found(members, 1);
    json::lemma_member_missing(members, "error"@);
    json::lemma_member_missing(members, "method"@);
}

/// A notification that is sent is read as this notification, without parameters.
pub proof fn law_notification_is_read_back(method: Seq<char>)
    ensures
        message_of(notification_value(method)) == Some(
            Some(RpcMessageView::Notification { method, params: JsonView::Null }),
        ),
{
    lemma_member_names();
    let members = seq![("method"@, JsonView::Text(method))];
    json::lemma_member_found(members, 0);
    json::lemma_member_missing(members, "id"@);
    json::lemma_member_missing(members, "params"@);
    json::lemma_member_missing(members, "error"@);
}

proof fn lemma_plain_request(id: u64, method: Seq<char>, params: JsonView)
    requires
        json::plain_within(params, 126),
    ensures
        json::plain_within(request_value(id, method, params), 127),
{
    json::lemma_plain_object(
        seq![
            ("method"@, JsonView::Text(method)),
            ("id"@, JsonView::Unsigned(id)),
            ("params"@, params),
        ],
        127,
    );
}

proof fn lemma_plain_result(id: u64, result: JsonView)
    requires
        json::plain_within(result, 126),
    ensures
        json::plain_within(result_value(id, result), 127),
{
    json::lemma_plain_object(seq![("id"@, JsonView::Unsigned(id)), ("result"@, result)], 127);
}

/// One who waits for the answer to a request gets the result that was sent under its id, and
/// nothing that was sent under another id.
pub proof fn law_answer_reaches_its_request(expected_id: u64, id: u64, result: JsonView)
    ensures
        match message_of(result_value(id, result)) {
            Some(Some(message)) => awaited(expected_id, IncomingView::Message(message)) == if id
                == expected_id {
                AwaitedView::Result(result)
            } else {
                AwaitedView::NotYet
            },
            _ => false,
        },
{
    law_result_is_read_back(id, result);
}

} // verus!
