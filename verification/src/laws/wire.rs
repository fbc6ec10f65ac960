//! Laws of JSON values, of the messages that are exchanged with the app-server, and of the
//! requests that are made of it.

use crate::codex;
use crate::codex::{started_thread, CodexClient, TurnState};
use crate::json;
use crate::json::{named, optional_text_value, text_value, Json, JsonView, Member};
use crate::rpc;
use crate::rpc::{
    decode_rpc_error, format_rpc_error, join_error_words, message_from_value, parse_rpc_message,
    AppServerProcess, Awaited, Incoming, MalformedError, OutgoingRequest, RpcError, RpcMessage,
};
use crate::text::{decimal_text, signed_decimal_text};
use crate::workdir::WorkDir;
use vstd::prelude::*;
use vstd::string::*;

verus! {

/// Whether `value` is an object with the member `name`, and `inner` is its value.
pub open spec fn holds(value: JsonView, name: Seq<char>, inner: JsonView) -> bool {
    value matches JsonView::Object(members) && members.contains_key(name) && members[name] == inner
}

/// Whether `value` is no object, or one without the member `name`.
pub open spec fn lacks(value: JsonView, name: Seq<char>) -> bool {
    value matches JsonView::Object(members) ==> !members.contains_key(name)
}

/// Whether `value` is an object whose members have these names, and no others.
pub open spec fn holds_only(value: JsonView, names: Seq<Seq<char>>) -> bool {
    value matches JsonView::Object(members) && (forall|name: Seq<char>|
        members.contains_key(name) ==> #[trigger] names.contains(name)) && (forall|i: int|
        0 <= i < names.len() ==> members.contains_key(#[trigger] names[i]))
}

/// Whether the line `line` of the bridge is JSON text for `value`, on a line of its own.
pub open spec fn carries(line: Seq<char>, value: JsonView) -> bool {
    &&& line.len() > 0
    &&& line.last() == '\n'
    &&& forall|i: int| 0 <= i < line.len() - 1 ==> line[i] != '\n'
    &&& json::parsed_json(line.drop_last()) == Some(value)
}

/// What an object made of members with distinct names holds.
pub proof fn lemma_object(members: Seq<(Seq<char>, JsonView)>)
    requires
        forall|i: int, j: int|
            0 <= i < j < members.len() ==> (#[trigger] members[i]).0 != (#[trigger] members[j]).0,
    ensures
        forall|i: int|
            0 <= i < members.len() ==> holds(
                JsonView::Object(json::object_of(members)),
                (#[trigger] members[i]).0,
                members[i].1,
            ),
        holds_only(
            JsonView::Object(json::object_of(members)),
            Seq::new(members.len(), |i: int| members[i].0),
        ),
{
    let value = JsonView::Object(json::object_of(members));
    let names = Seq::new(members.len(), |i: int| members[i].0);
    assert forall|i: int| 0 <= i < members.len() implies holds(
        value,
        (#[trigger] members[i]).0,
        members[i].1,
    ) by {
        json::lemma_member_found(members, i);
    }
    assert forall|name: Seq<char>|
        json::object_of(members).contains_key(name) implies #[trigger] names.contains(name) by {
        if !names.contains(name) {
            assert forall|j: int| 0 <= j < members.len() implies (#[trigger] members[j]).0
                != name by {
                assert(names[j] == members[j].0);
            }
            json::lemma_member_missing(members, name);
        }
    }
    assert forall|i: int| 0 <= i < names.len() implies json::object_of(members).contains_key(
        #[trigger] names[i],
    ) by {
        assert(holds(value, members[i].0, members[i].1));
    }
}

/// An object with one member holds this member and nothing else.
pub proof fn lemma_one_member(name: Seq<char>, inner: JsonView)
    ensures
        holds(JsonView::Object(json::object_of(seq![(name, inner)])), name, inner),
        holds_only(JsonView::Object(json::object_of(seq![(name, inner)])), seq![name]),
{
    let members = seq![(name, inner)];
    lemma_object(members);
    assert(holds(JsonView::Object(json::object_of(members)), members[0].0, members[0].1));
    assert(Seq::new(members.len(), |i: int| members[i].0) =~= seq![name]);
}

/// A member is found under its name, and nothing is found under a name that no member has, nor in a
/// value that is no object.
pub proof fn law_members_are_found_by_name(value: &Json, name: &str, found: Option<&Json>)
    requires
        call_ensures(Json::get, (value, name), found),
    ensures
        match found {
            Some(inner) => holds(value@, name@, inner@),
            None => lacks(value@, name@),
        },
{
}

/// Of two members with one name the later one counts.
pub proof fn law_the_later_member_counts(
    members: Vec<Member>,
    front: Vec<Member>,
    name: &str,
    found: Option<&Json>,
    before: Option<&Json>,
)
    requires
        members@.len() > 0,
        front@ == members@.drop_last(),
        call_ensures(Json::get, (&Json::Object(members), name), found),
        call_ensures(Json::get, (&Json::Object(front), name), before),
    ensures
        if members@.last().name@ == name@ {
            found matches Some(inner) && inner@ == members@.last().value@
        } else {
            match before {
                Some(inner) => found matches Some(given) && given@ == inner@,
                None => found is None,
            }
        },
{
    let views = json::member_views(members@);
    assert(views.drop_last() =~= json::member_views(front@));
    assert(views.last() == (members@.last().name@, members@.last().value@));
}

/// What is read from a value is what it holds: text from text, integers from integers that fit, the
/// elements from an array, and nothing from anything else.
pub proof fn law_values_are_read_as_they_are(
    value: &Json,
    words: Option<&str>,
    unsigned: Option<u64>,
    signed: Option<i64>,
    null: bool,
    items: Option<&Vec<Json>>,
    object: bool,
    copy: Json,
)
    requires
        call_ensures(Json::as_str, (value,), words),
        call_ensures(Json::as_u64, (value,), unsigned),
        call_ensures(Json::as_i64, (value,), signed),
        call_ensures(Json::is_null, (value,), null),
        call_ensures(Json::as_array, (value,), items),
        call_ensures(Json::is_object, (value,), object),
        call_ensures(Json::duplicate, (value,), copy),
    ensures
        match value@ {
            JsonView::Text(given) => words matches Some(read) && read@ == given,
            _ => words is None,
        },
        match value@ {
            JsonView::Unsigned(n) => unsigned == Some(n),
            _ => unsigned is None,
        },
        match value@ {
            JsonView::Unsigned(n) => if n <= i64::MAX {
                signed matches Some(m) && m == n
            } else {
                signed is None
            },
            JsonView::Negative(n) => signed == Some(n),
            _ => signed is None,
        },
        null == (value@ is Null),
        match value@ {
            JsonView::Array(elements) => items matches Some(read) && read@.len() == elements.len()
                && forall|i: int| 0 <= i < elements.len() ==> (#[trigger] read@[i])@ == elements[i],
            _ => items is None,
        },
        object == (value@ is Object),
        copy@ == value@,
{
    if items is Some {
        let read = items->0;
        assert forall|i: int| 0 <= i < read@.len() implies (#[trigger] read@[i])@
            == json::item_views(read@)[i] by {}
    }
}

/// A text member, alone or in an object that is a member, is read as it is; anything else is not
/// read as text.
pub proof fn law_text_is_found_where_it_stands(
    value: &Json,
    outer: &str,
    inner: &str,
    direct: Option<&str>,
    nested: Option<&str>,
)
    requires
        call_ensures(Json::text, (value, inner), direct),
        call_ensures(Json::text_in, (value, outer, inner), nested),
    ensures
        match direct {
            Some(words) => holds(value@, inner@, JsonView::Text(words@)),
            None => lacks(value@, inner@) || exists|other: JsonView| #[trigger]
                holds(value@, inner@, other) && !(other is Text),
        },
        match nested {
            Some(words) => exists|held: JsonView| #[trigger]
                holds(value@, outer@, held) && holds(held, inner@, JsonView::Text(words@)),
            None => forall|held: JsonView, words: Seq<char>|
                holds(value@, outer@, held) ==> !#[trigger] holds(
                    held,
                    inner@,
                    JsonView::Text(words),
                ),
        },
{
    if direct is None && !lacks(value@, inner@) {
        let members = value@->Object_0;
        assert(holds(value@, inner@, members[inner@]));
    }
    if nested is Some {
        let members = value@->Object_0;
        assert(holds(value@, outer@, members[outer@]));
    }
}

/// Text that is written for a value reads back as this value where it is shallow and its numbers are
/// integers.
pub proof fn law_written_values_are_read_back(
    value: &Json,
    written: String,
    given: &str,
    read: Option<Json>,
)
    requires
        call_ensures(Json::to_text, (value,), written),
        call_ensures(Json::parse, (given,), read),
        given@ == written@,
        json::plain_within(value@, 127),
    ensures
        read matches Some(copy) && copy@ == value@,
        forall|i: int| 0 <= i < written@.len() ==> written@[i] != '\n',
{
}

/// Values are made of what they are given.
pub proof fn law_values_are_made_of_their_parts(
    words: &str,
    optional: &Option<String>,
    name: &str,
    inner: Json,
    made: Json,
    maybe: Json,
    member: Member,
)
    requires
        call_ensures(text_value, (words,), made),
        call_ensures(optional_text_value, (optional,), maybe),
        call_ensures(named, (name, inner), member),
    ensures
        made@ == JsonView::Text(words@),
        match *optional {
            Some(given) => maybe@ == JsonView::Text(given@),
            None => maybe@ is Null,
        },
        member.name@ == name@,
        member.value@ == inner@,
{
}

/// Whether `data` is what an error carries as data under `value`: nothing where that is absent or
/// `null`.
pub open spec fn is_data(value: Option<JsonView>, data: Option<Json>) -> bool {
    if value is None || value->0 is Null {
        data is None
    } else {
        data matches Some(kept) && kept@ == value->0
    }
}

/// Whether `code` is the number that an error has under `value`: none where that is absent or
/// `null`.
pub open spec fn is_code(value: Option<JsonView>, code: Option<i64>) -> bool {
    match value {
        None => code is None,
        Some(JsonView::Null) => code is None,
        Some(JsonView::Unsigned(n)) => code matches Some(m) && m == n,
        Some(JsonView::Negative(n)) => code == Some(n),
        Some(_) => false,
    }
}

/// Whether an error can have the number `value`.
pub open spec fn can_be_code(value: Option<JsonView>) -> bool {
    match value {
        None => true,
        Some(JsonView::Null) => true,
        Some(JsonView::Unsigned(n)) => n <= i64::MAX,
        Some(JsonView::Negative(n)) => true,
        Some(_) => false,
    }
}

/// Whether `result` is what comes of decoding an error with these parts: there must be a message in
/// text and the code must be an integer, if there is one.
pub open spec fn is_error_of(
    message: Option<JsonView>,
    code: Option<JsonView>,
    data: Option<JsonView>,
    result: Result<RpcError, MalformedError>,
) -> bool {
    if message matches Some(JsonView::Text(_)) && can_be_code(code) {
        result matches Ok(error) && message == Some(JsonView::Text(error.message@)) && is_code(
            code,
            error.code,
        ) && is_data(data, error.data)
    } else {
        result is Err
    }
}

/// An error is an object with the members `message`, `code` and `data`, or an array of one to three
/// of these in this order, and nothing else.
pub proof fn law_errors_are_decoded(value: &Json, result: Result<RpcError, MalformedError>)
    requires
        call_ensures(decode_rpc_error, (value,), result),
    ensures
        match value@ {
            JsonView::Object(members) => is_error_of(
                if members.contains_key("message"@) {
                    Some(members["message"@])
                } else {
                    None
                },
                if members.contains_key("code"@) {
                    Some(members["code"@])
                } else {
                    None
                },
                if members.contains_key("data"@) {
                    Some(members["data"@])
                } else {
                    None
                },
                result,
            ),
            JsonView::Array(items) => if 1 <= items.len() <= 3 {
                is_error_of(
                    Some(items[0]),
                    if items.len() >= 2 {
                        Some(items[1])
                    } else {
                        None
                    },
                    if items.len() == 3 {
                        Some(items[2])
                    } else {
                        None
                    },
                    result,
                )
            } else {
                result is Err
            },
            _ => result is Err,
        },
{
}

/// The text under `method`, if there is one.
pub open spec fn is_method(value: JsonView, method: Seq<char>) -> bool {
    holds(value, "method"@, JsonView::Text(method))
}

/// Whether `params` is what the member `params` holds, `null` where there is none.
pub open spec fn is_params(value: JsonView, params: JsonView) -> bool {
    holds(value, "params"@, params) || (lacks(value, "params"@) && params is Null)
}

/// A message is malformed where it has an error that cannot be decoded, and only there.
pub proof fn law_only_bad_errors_are_malformed(
    value: &Json,
    result: Result<Option<RpcMessage>, MalformedError>,
    error: &Json,
    decoded: Result<RpcError, MalformedError>,
)
    requires
        call_ensures(message_from_value, (value,), result),
        call_ensures(decode_rpc_error, (error,), decoded),
    ensures
        lacks(value@, "error"@) ==> result is Ok,
        holds(value@, "error"@, error@) ==> (result is Err <==> decoded is Err),
{
}

/// With a method and an id a message is a request of the app-server; with a method and no id a
/// notification.
pub proof fn law_methods_make_requests_and_notifications(
    value: &Json,
    message: Option<RpcMessage>,
    method: Seq<char>,
    id: u64,
)
    requires
        call_ensures(
            message_from_value,
            (value,),
            Ok::<Option<RpcMessage>, MalformedError>(message),
        ),
        is_method(value@, method),
    ensures
        holds(value@, "id"@, JsonView::Unsigned(id)) ==> (message matches Some(
            RpcMessage::ServerRequest { id: read, method: name, params },
        ) && read == id && name@ == method && is_params(value@, params@)),
        lacks(value@, "id"@) || (exists|other: JsonView| #[trigger]
            holds(value@, "id"@, other) && !(other is Unsigned)) ==> (message matches Some(
            RpcMessage::Notification { method: name, params },
        ) && name@ == method && is_params(value@, params@)),
{
}

/// With an id and no method a message is a response, with its result and its error; with neither it
/// is no message.
pub proof fn law_ids_make_responses(
    value: &Json,
    message: Option<RpcMessage>,
    id: u64,
    error: &Json,
    decoded: RpcError,
)
    requires
        call_ensures(
            message_from_value,
            (value,),
            Ok::<Option<RpcMessage>, MalformedError>(message),
        ),
        call_ensures(
            decode_rpc_error,
            (error,),
            Ok::<RpcError, MalformedError>(decoded),
        ),
        forall|method: Seq<char>| !#[trigger] is_method(value@, method),
    ensures
        holds(value@, "id"@, JsonView::Unsigned(id)) ==> (message matches Some(
            RpcMessage::Response { id: read, result, error: failure },
        ) && {
            &&& read == id
            &&& match result {
                Some(given) => holds(value@, "result"@, given@),
                None => lacks(value@, "result"@),
            }
            &&& lacks(value@, "error"@) ==> failure is None
            &&& holds(value@, "error"@, error@) ==> (failure matches Some(read) && read@
                == decoded@)
        }),
        (forall|n: u64| !#[trigger] holds(value@, "id"@, JsonView::Unsigned(n))) ==> message is None,
{
    if json::text_member(value@, "method"@) is Some {
        assert(is_method(value@, json::text_member(value@, "method"@)->0));
    }
    match json::member(value@, "id"@) {
        Some(JsonView::Unsigned(n)) => {
            assert(holds(value@, "id"@, JsonView::Unsigned(n)));
        },
        _ => {},
    }
}

/// A line is the message that its JSON value is; a line that is no JSON text is noise, and the end
/// of the output is the end.
pub proof fn law_lines_are_read_as_messages(
    line: &str,
    read: Result<Option<RpcMessage>, MalformedError>,
    value: &Json,
    of_value: Result<Option<RpcMessage>, MalformedError>,
    next: Incoming,
    end: Incoming,
)
    requires
        call_ensures(parse_rpc_message, (line,), read),
        call_ensures(message_from_value, (value,), of_value),
        call_ensures(AppServerProcess::next_message, (Some(line),), next),
        call_ensures(AppServerProcess::next_message, (None::<&str>,), end),
    ensures
        end is Closed,
        json::parsed_json(line@) is None ==> (read matches Ok(None)) && next is Noise,
        json::parsed_json(line@) == Some(value@) ==> match of_value {
            Ok(Some(message)) => (read matches Ok(Some(same)) && same@ == message@)
                && (next matches Incoming::Message(same) && same@ == message@),
            Ok(None) => (read matches Ok(None)) && next is Noise,
            Err(_) => read is Err && next is Malformed,
        },
{
}

/// The words for an error: its message, then its code, then its data, as far as they are there.
pub proof fn law_errors_are_put_in_words(
    message: &str,
    code: Option<i64>,
    data: Option<String>,
    words: String,
    number: String,
)
    requires
        call_ensures(join_error_words, (message, code, data), words),
        code matches Some(n) ==> call_ensures(signed_decimal_text, (n,), number),
    ensures
        match (code, data) {
            (None, None) => words@ == message@,
            (Some(_), None) => words@ == message@ + " | code "@ + number@,
            (None, Some(shown)) => words@ == message@ + " | "@ + shown@,
            (Some(_), Some(shown)) => words@ == message@ + " | code "@ + number@ + " | "@ + shown@,
        },
{
}

/// An error is put in words with the JSON text of its data.
pub proof fn law_decoded_errors_are_put_in_words(
    error: &RpcError,
    words: String,
    data: Json,
    shown: String,
    joined: String,
    message: &str,
)
    requires
        call_ensures(format_rpc_error, (error,), words),
        call_ensures(Json::to_text, (&data,), shown),
        error.data matches Some(held) ==> held@ == data@,
        message@ == error.message@,
        call_ensures(
            join_error_words,
            (
                message,
                error.code,
                if error.data is Some {
                    Some(shown)
                } else {
                    None
                },
            ),
            joined,
        ),
    ensures
        words@ == joined@,
{
}

/// One who waits for a response gets it: its error in words where it has one, else its result, and
/// `null` where it has none. Everything else is passed over, but for a message that cannot be
/// decoded and the end of the output.
pub proof fn law_responses_are_awaited(
    expected_id: u64,
    next: Incoming,
    meaning: Awaited,
    failure: &RpcError,
    words: String,
    number: String,
)
    requires
        call_ensures(AppServerProcess::await_response, (expected_id, next), meaning),
        call_ensures(format_rpc_error, (failure,), words),
        call_ensures(decimal_text, (expected_id,), number),
    ensures
        match next {
            Incoming::Closed => meaning matches Awaited::Failed(reason) && reason@
                == "app-server closed before response "@ + number@,
            Incoming::Malformed => meaning is Malformed,
            Incoming::Noise => meaning is NotYet,
            Incoming::Message(RpcMessage::Response { id, result, error }) => if id != expected_id {
                meaning is NotYet
            } else {
                match error {
                    Some(e) => meaning is Failed && (e@ == failure@ ==> meaning->Failed_0@
                        == words@),
                    None => match result {
                        Some(value) => meaning matches Awaited::Result(given) && given@ == value@,
                        None => meaning matches Awaited::Result(given) && given@ is Null,
                    },
                }
            },
            Incoming::Message(_) => meaning is NotYet,
        },
{
}

/// Requests are numbered from one on, each by its own number.
pub proof fn law_requests_are_numbered(
    fresh: AppServerProcess,
    process: &mut AppServerProcess,
    method: &str,
    params: Json,
    request: OutgoingRequest,
    next: u64,
    after: u64,
)
    requires
        call_ensures(AppServerProcess::new, (), fresh),
        call_ensures(AppServerProcess::send_request, (process, method, params), request),
        call_ensures(AppServerProcess::next_id, (&*old(process),), next),
        call_ensures(AppServerProcess::next_id, (&*final(process),), after),
    ensures
        fresh@ == 1,
        request.id == next,
        after == next + 1,
{
}

/// A request is an object of its method, its id and its parameters, on a line of its own.
pub proof fn law_requests_say_what_they_ask(
    process: &mut AppServerProcess,
    method: &str,
    params: Json,
    request: OutgoingRequest,
)
    requires
        call_ensures(AppServerProcess::send_request, (process, method, params), request),
        json::plain_within(params@, 126),
    ensures
        exists|value: JsonView|
            {
                &&& #[trigger] carries(request.line@, value)
                &&& holds(value, "method"@, JsonView::Text(method@))
                &&& holds(value, "id"@, JsonView::Unsigned(request.id))
                &&& holds(value, "params"@, params@)
                &&& holds_only(value, seq!["method"@, "id"@, "params"@])
            },
{
    let value = rpc::request_value(old(process)@, method@, params@);
    lemma_request(old(process)@, method@, params@);
    assert(carries(request.line@, value));
}

proof fn lemma_request(id: u64, method: Seq<char>, params: JsonView)
    ensures
        ({
            let value = rpc::request_value(id, method, params);
            &&& holds(value, "method"@, JsonView::Text(method))
            &&& holds(value, "id"@, JsonView::Unsigned(id))
            &&& holds(value, "params"@, params)
            &&& holds_only(value, seq!["method"@, "id"@, "params"@])
        }),
{
    reveal_strlit("method");
    reveal_strlit("id");
    reveal_strlit("params");
    assert("method"@[0] == 'm' && "params"@[0] == 'p');
    assert("method"@.len() == 6 && "id"@.len() == 2);
    let members = seq![
        ("method"@, JsonView::Text(method)),
        ("id"@, JsonView::Unsigned(id)),
        ("params"@, params),
    ];
    lemma_object(members);
    assert(holds(rpc::request_value(id, method, params), members[0].0, members[0].1));
    assert(holds(rpc::request_value(id, method, params), members[1].0, members[1].1));
    assert(holds(rpc::request_value(id, method, params), members[2].0, members[2].1));
    assert(Seq::new(members.len(), |i: int| members[i].0) =~= seq!["method"@, "id"@, "params"@]);
}

/// An answer is an object of the id that it answers and the result.
pub proof fn law_answers_say_what_they_answer(
    process: &AppServerProcess,
    id: u64,
    result: Json,
    line: String,
)
    requires
        call_ensures(AppServerProcess::send_result, (process, id, result), line),
        json::plain_within(result@, 126),
    ensures
        exists|value: JsonView|
            {
                &&& #[trigger] carries(line@, value)
                &&& holds(value, "id"@, JsonView::Unsigned(id))
                &&& holds(value, "result"@, result@)
                &&& holds_only(value, seq!["id"@, "result"@])
            },
{
    reveal_strlit("id");
    reveal_strlit("result");
    assert("id"@.len() == 2 && "result"@.len() == 6);
    let value = rpc::result_value(id, result@);
    let members = seq![("id"@, JsonView::Unsigned(id)), ("result"@, result@)];
    lemma_object(members);
    assert(holds(value, members[0].0, members[0].1));
    assert(holds(value, members[1].0, members[1].1));
    assert(Seq::new(members.len(), |i: int| members[i].0) =~= seq!["id"@, "result"@]);
    assert(carries(line@, value));
}

/// A notification is an object of its method and nothing else.
pub proof fn law_notifications_say_their_method(
    process: &AppServerProcess,
    method: &str,
    line: String,
)
    requires
        call_ensures(AppServerProcess::send_notification, (process, method), line),
    ensures
        exists|value: JsonView|
            {
                &&& #[trigger] carries(line@, value)
                &&& holds(value, "method"@, JsonView::Text(method@))
                &&& holds_only(value, seq!["method"@])
            },
{
    let value = rpc::notification_value(method@);
    let members = seq![("method"@, JsonView::Text(method@))];
    lemma_object(members);
    assert(holds(value, members[0].0, members[0].1));
    assert(Seq::new(members.len(), |i: int| members[i].0) =~= seq!["method"@]);
    assert(carries(line@, value));
}

/// Whether `line` is the request `method` with the id `id` and the parameters `params`.
pub open spec fn asks(line: Seq<char>, id: u64, method: Seq<char>, params: JsonView) -> bool {
    exists|value: JsonView|
        {
            &&& #[trigger] carries(line, value)
            &&& holds(value, "method"@, JsonView::Text(method))
            &&& holds(value, "id"@, JsonView::Unsigned(id))
            &&& holds(value, "params"@, params)
        }
}

proof fn lemma_asks(line: Seq<char>, id: u64, method: Seq<char>, params: JsonView)
    requires
        rpc::is_one_line(line),
        json::parsed_json(line.drop_last()) == Some(rpc::request_value(id, method, params)),
    ensures
        asks(line, id, method, params),
{
    lemma_request(id, method, params);
    assert(carries(line, rpc::request_value(id, method, params)));
}

/// The bridge introduces itself by its name and its version, and asks for no experimental methods.
pub proof fn law_the_bridge_introduces_itself(
    process: &mut AppServerProcess,
    version: &str,
    request: OutgoingRequest,
)
    requires
        call_ensures(AppServerProcess::initialize, (process, version), request),
    ensures
        request.id == old(process)@,
        final(process)@ == old(process)@ + 1,
        exists|params: JsonView, info: JsonView, capabilities: JsonView|
            {
                &&& #[trigger] asks(request.line@, request.id, "initialize"@, params)
                &&& #[trigger] holds(params, "clientInfo"@, info)
                &&& #[trigger] holds(params, "capabilities"@, capabilities)
                &&& holds_only(params, seq!["clientInfo"@, "capabilities"@])
                &&& holds(info, "name"@, JsonView::Text("telegram-codex-bridge"@))
                &&& holds(info, "version"@, JsonView::Text(version@))
                &&& holds_only(info, seq!["name"@, "version"@])
                &&& holds(capabilities, "experimentalApi"@, JsonView::Bool(false))
                &&& holds_only(capabilities, seq!["experimentalApi"@])
            },
{
    reveal_strlit("name");
    reveal_strlit("version");
    reveal_strlit("clientInfo");
    reveal_strlit("capabilities");
    assert("name"@.len() == 4 && "version"@.len() == 7);
    assert("clientInfo"@.len() == 10 && "capabilities"@.len() == 12);
    let names = seq![
        ("name"@, JsonView::Text("telegram-codex-bridge"@)),
        ("version"@, JsonView::Text(version@)),
    ];
    let info = JsonView::Object(json::object_of(names));
    lemma_object(names);
    assert(holds(info, names[0].0, names[0].1));
    assert(holds(info, names[1].0, names[1].1));
    assert(Seq::new(names.len(), |i: int| names[i].0) =~= seq!["name"@, "version"@]);
    let offers = seq![("experimentalApi"@, JsonView::Bool(false))];
    let capabilities = JsonView::Object(json::object_of(offers));
    lemma_object(offers);
    assert(holds(capabilities, offers[0].0, offers[0].1));
    assert(Seq::new(offers.len(), |i: int| offers[i].0) =~= seq!["experimentalApi"@]);
    let members = seq![("clientInfo"@, info), ("capabilities"@, capabilities)];
    let params = rpc::initialize_params(version@);
    lemma_object(members);
    assert(params == JsonView::Object(json::object_of(members)));
    assert(holds(params, members[0].0, members[0].1));
    assert(holds(params, members[1].0, members[1].1));
    assert(Seq::new(members.len(), |i: int| members[i].0) =~= seq!["clientInfo"@, "capabilities"@]);
    lemma_asks(request.line@, request.id, "initialize"@, params);
}

/// Whether the member `name` is the text that is configured, `null` where none is.
pub open spec fn holds_optional(
    value: JsonView,
    name: Seq<char>,
    configured: Option<Seq<char>>,
) -> bool {
    match configured {
        Some(words) => holds(value, name, JsonView::Text(words)),
        None => holds(value, name, JsonView::Null),
    }
}

/// A thread is started in the working directory of the client, with its settings.
pub proof fn law_a_thread_is_started_as_configured(
    client: &CodexClient,
    process: &mut AppServerProcess,
    request: OutgoingRequest,
)
    requires
        call_ensures(CodexClient::start_thread, (client, process), request),
    ensures
        request.id == old(process)@,
        final(process)@ == old(process)@ + 1,
        exists|params: JsonView|
            {
                &&& #[trigger] asks(request.line@, request.id, "thread/start"@, params)
                &&& holds(params, "cwd"@, JsonView::Text(client@.cwd.display))
                &&& holds_optional(params, "model"@, client@.model)
                &&& holds(params, "approvalPolicy"@, JsonView::Text(client@.approval_policy))
                &&& holds(params, "experimentalRawEvents"@, JsonView::Bool(false))
                &&& holds(params, "persistExtendedHistory"@, JsonView::Bool(false))
                &&& match client@.sandbox_mode {
                    Some(mode) => holds(params, "sandbox"@, JsonView::Text(mode)),
                    None => lacks(params, "sandbox"@),
                }
            },
{
    lemma_setting_names();
    let settings = seq![
        ("cwd"@, JsonView::Text(client@.cwd.display)),
        ("model"@, json::optional_text(client@.model)),
        ("approvalPolicy"@, JsonView::Text(client@.approval_policy)),
        ("experimentalRawEvents"@, JsonView::Bool(false)),
        ("persistExtendedHistory"@, JsonView::Bool(false)),
    ];
    let params = codex::thread_start_params(client@);
    let members = match client@.sandbox_mode {
        Some(mode) => settings.push(("sandbox"@, JsonView::Text(mode))),
        None => settings,
    };
    lemma_object(members);
    assert(holds(params, members[0].0, members[0].1));
    assert(holds(params, members[1].0, members[1].1));
    assert(holds(params, members[2].0, members[2].1));
    assert(holds(params, members[3].0, members[3].1));
    assert(holds(params, members[4].0, members[4].1));
    if client@.sandbox_mode is Some {
        assert(holds(params, members[5].0, members[5].1));
    } else {
        json::lemma_member_missing(members, "sandbox"@);
    }
    lemma_asks(request.line@, request.id, "thread/start"@, params);
}

proof fn lemma_setting_names()
    ensures
        "cwd"@.len() == 3,
        "model"@.len() == 5,
        "approvalPolicy"@.len() == 14,
        "experimentalRawEvents"@.len() == 21,
        "persistExtendedHistory"@.len() == 22,
        "sandbox"@.len() == 7,
        "threadId"@.len() == 8,
        "turnId"@.len() == 6,
        "input"@.len() == 5,
        "input"@ != "model"@,
        "type"@.len() == 4,
        "text"@.len() == 4,
        "type"@ != "text"@,
        "text_elements"@.len() == 13,
{
    reveal_strlit("cwd");
    reveal_strlit("model");
    reveal_strlit("approvalPolicy");
    reveal_strlit("experimentalRawEvents");
    reveal_strlit("persistExtendedHistory");
    reveal_strlit("sandbox");
    reveal_strlit("threadId");
    reveal_strlit("turnId");
    reveal_strlit("input");
    reveal_strlit("type");
    reveal_strlit("text");
    reveal_strlit("text_elements");
    assert("input"@[0] == 'i' && "model"@[0] == 'm');
    assert("type"@[1] == 'y' && "text"@[1] == 'e');
}

/// Whether `params` asks for a turn with `prompt`: its input is one piece of text, the whole prompt.
pub open spec fn asks_for_turn_with(params: JsonView, prompt: Seq<char>) -> bool {
    exists|input: Seq<JsonView>|
        {
            &&& #[trigger] holds(params, "input"@, JsonView::Array(input))
            &&& input.len() == 1
            &&& holds(input[0], "type"@, JsonView::Text("text"@))
            &&& holds(input[0], "text"@, JsonView::Text(prompt))
            &&& holds(input[0], "text_elements"@, JsonView::Array(Seq::empty()))
            &&& holds_only(input[0], seq!["type"@, "text"@, "text_elements"@])
        }
}

/// A turn is started in its thread, in the working directory of the client and with its settings, and
/// its input is the whole prompt. The turn that runs is the one that was asked for, and nothing has
/// happened in it.
pub proof fn law_a_turn_is_started_with_the_prompt(
    client: &CodexClient,
    process: &mut AppServerProcess,
    thread_id: &str,
    prompt: &str,
    started: (OutgoingRequest, TurnState),
)
    requires
        call_ensures(CodexClient::run_turn, (client, process, thread_id, prompt), started),
    ensures
        started.0.id == old(process)@,
        final(process)@ == old(process)@ + 1,
        exists|params: JsonView|
            {
                &&& #[trigger] asks(started.0.line@, started.0.id, "turn/start"@, params)
                &&& holds(params, "threadId"@, JsonView::Text(thread_id@))
                &&& holds(params, "cwd"@, JsonView::Text(client@.cwd.display))
                &&& holds(params, "approvalPolicy"@, JsonView::Text(client@.approval_policy))
                &&& holds_optional(params, "model"@, client@.model)
                &&& asks_for_turn_with(params, prompt@)
                &&& holds_only(
                    params,
                    seq!["threadId"@, "cwd"@, "approvalPolicy"@, "model"@, "input"@],
                )
            },
        started.1@.thread_id == thread_id@,
        started.1@.request_id == started.0.id,
        started.1@.assistant_text.len() == 0,
        started.1@.turn_started is None,
        started.1@.last_status is None,
        !started.1@.interrupted,
        !started.1@.stop_requested,
        !started.1@.interrupt_sent,
        !started.1@.done,
{
    let params = codex::turn_start_params(client@, thread_id@, prompt@);
    lemma_turn_params(client, thread_id@, prompt@);
    lemma_asks(started.0.line@, started.0.id, "turn/start"@, params);
}

proof fn lemma_turn_params(client: &CodexClient, thread_id: Seq<char>, prompt: Seq<char>)
    ensures
        ({
            let params = codex::turn_start_params(client@, thread_id, prompt);
            &&& holds(params, "threadId"@, JsonView::Text(thread_id))
            &&& holds(params, "cwd"@, JsonView::Text(client@.cwd.display))
            &&& holds(params, "approvalPolicy"@, JsonView::Text(client@.approval_policy))
            &&& holds_optional(params, "model"@, client@.model)
            &&& asks_for_turn_with(params, prompt)
            &&& holds_only(
                params,
                seq!["threadId"@, "cwd"@, "approvalPolicy"@, "model"@, "input"@],
            )
        }),
{
    lemma_setting_names();
    let piece = seq![
        ("type"@, JsonView::Text("text"@)),
        ("text"@, JsonView::Text(prompt)),
        ("text_elements"@, JsonView::Array(Seq::empty())),
    ];
    let input = codex::turn_input(prompt);
    lemma_object(piece);
    assert(holds(input, piece[0].0, piece[0].1));
    assert(holds(input, piece[1].0, piece[1].1));
    assert(holds(input, piece[2].0, piece[2].1));
    assert(Seq::new(piece.len(), |i: int| piece[i].0) =~= seq![
        "type"@,
        "text"@,
        "text_elements"@,
    ]);
    let params = codex::turn_start_params(client@, thread_id, prompt);
    let members = seq![
        ("threadId"@, JsonView::Text(thread_id)),
        ("cwd"@, JsonView::Text(client@.cwd.display)),
        ("approvalPolicy"@, JsonView::Text(client@.approval_policy)),
        ("model"@, json::optional_text(client@.model)),
        ("input"@, JsonView::Array(seq![input])),
    ];
    lemma_object(members);
    assert(holds(params, members[0].0, members[0].1));
    assert(holds(params, members[1].0, members[1].1));
    assert(holds(params, members[2].0, members[2].1));
    assert(holds(params, members[3].0, members[3].1));
    assert(holds(params, members[4].0, members[4].1));
    assert(Seq::new(members.len(), |i: int| members[i].0) =~= seq![
        "threadId"@,
        "cwd"@,
        "approvalPolicy"@,
        "model"@,
        "input"@,
    ]);
    assert(holds(params, "input"@, JsonView::Array(seq![input])));
}

/// Different prompts make different requests, and so do different threads.
pub proof fn law_different_prompts_make_different_requests(
    client: &CodexClient,
    process: &mut AppServerProcess,
    thread_id: &str,
    prompt: &str,
    started: (OutgoingRequest, TurnState),
    other: &CodexClient,
    other_process: &mut AppServerProcess,
    other_thread: &str,
    other_prompt: &str,
    other_started: (OutgoingRequest, TurnState),
)
    requires
        call_ensures(CodexClient::run_turn, (client, process, thread_id, prompt), started),
        call_ensures(
            CodexClient::run_turn,
            (other, other_process, other_thread, other_prompt),
            other_started,
        ),
        started.0.line@ == other_started.0.line@,
    ensures
        prompt@ == other_prompt@,
        thread_id@ == other_thread@,
        started.0.id == other_started.0.id,
{
    let left = codex::turn_start_params(client@, thread_id@, prompt@);
    let right = codex::turn_start_params(other@, other_thread@, other_prompt@);
    lemma_request(started.0.id, "turn/start"@, left);
    lemma_request(other_started.0.id, "turn/start"@, right);
    assert(left == right);
    lemma_turn_params(client, thread_id@, prompt@);
    lemma_turn_params(other, other_thread@, other_prompt@);
}

/// A turn is interrupted where its stop was asked for, its id is known, it has not been interrupted
/// before and it is not over; then Codex is asked so, by the ids of its thread and of itself.
pub proof fn law_a_turn_is_interrupted_by_its_ids(
    turn: &mut TurnState,
    process: &mut AppServerProcess,
    request: Option<OutgoingRequest>,
)
    requires
        call_ensures(TurnState::interrupt, (turn, process), request),
    ensures
        request is Some <==> old(turn)@.stop_requested && old(turn)@.turn_started is Some && !old(
            turn,
        )@.interrupt_sent && !old(turn)@.done,
        final(turn)@.interrupt_sent == (old(turn)@.interrupt_sent || request is Some),
        final(turn)@.thread_id == old(turn)@.thread_id,
        final(turn)@.request_id == old(turn)@.request_id,
        final(turn)@.assistant_text == old(turn)@.assistant_text,
        final(turn)@.interrupted == old(turn)@.interrupted,
        final(turn)@.turn_started == old(turn)@.turn_started,
        final(turn)@.stop_requested == old(turn)@.stop_requested,
        final(turn)@.done == old(turn)@.done,
        final(turn)@.last_status == old(turn)@.last_status,
        request is None ==> final(process)@ == old(process)@,
        request matches Some(request) ==> request.id == old(process)@ && final(process)@ == old(
            process,
        )@ + 1 && exists|params: JsonView|
            {
                &&& #[trigger] asks(request.line@, request.id, "turn/interrupt"@, params)
                &&& holds(params, "threadId"@, JsonView::Text(old(turn)@.thread_id))
                &&& holds(params, "turnId"@, JsonView::Text(old(turn)@.turn_started->0))
                &&& holds_only(params, seq!["threadId"@, "turnId"@])
            },
{
    if request is Some {
        lemma_setting_names();
        let members = seq![
            ("threadId"@, JsonView::Text(old(turn)@.thread_id)),
            ("turnId"@, JsonView::Text(old(turn)@.turn_started->0)),
        ];
        let params = codex::turn_interrupt_params(
            old(turn)@.thread_id,
            old(turn)@.turn_started->0,
        );
        lemma_object(members);
        assert(holds(params, members[0].0, members[0].1));
        assert(holds(params, members[1].0, members[1].1));
        assert(Seq::new(members.len(), |i: int| members[i].0) =~= seq!["threadId"@, "turnId"@]);
        lemma_asks(request->0.line@, request->0.id, "turn/interrupt"@, params);
    }
}

/// A client holds the settings that it was made with; a move changes its working directory alone,
/// and a copy holds the same.
pub proof fn law_a_client_keeps_its_settings(
    binary: String,
    cwd: WorkDir,
    model: Option<String>,
    approval_policy: String,
    sandbox_mode: Option<String>,
    client: CodexClient,
    moving: &mut CodexClient,
    place: WorkDir,
    copy: CodexClient,
    program: &str,
)
    requires
        call_ensures(
            CodexClient::new,
            (binary, cwd, model, approval_policy, sandbox_mode),
            client,
        ),
        *old(moving) == client,
        call_ensures(CodexClient::set_cwd, (moving, place), ()),
        call_ensures(CodexClient::duplicate, (&*final(moving),), copy),
        call_ensures(CodexClient::binary, (&client,), program),
    ensures
        program@ == binary@,
        client@.cwd == cwd@,
        copy@.binary == binary@,
        copy@.cwd == place@,
        match model {
            Some(name) => copy@.model == Some(name@),
            None => copy@.model is None,
        },
        copy@.approval_policy == approval_policy@,
        match sandbox_mode {
            Some(mode) => copy@.sandbox_mode == Some(mode@),
            None => copy@.sandbox_mode is None,
        },
{
}

/// A thread that was started is known by the text under `thread` and `id`; a response without it is
/// reported.
pub proof fn law_a_started_thread_has_an_id(response: &Json, thread_id: Result<String, String>)
    requires
        call_ensures(started_thread, (response,), thread_id),
    ensures
        match thread_id {
            Ok(id) => exists|thread: JsonView| #[trigger]
                holds(response@, "thread"@, thread) && holds(thread, "id"@, JsonView::Text(id@)),
            Err(reason) => reason@ == "thread/start response missing thread id"@ && forall|
                thread: JsonView,
                id: Seq<char>,
            |
                holds(response@, "thread"@, thread) ==> !#[trigger] holds(
                    thread,
                    "id"@,
                    JsonView::Text(id),
                ),
        },
{
    if thread_id is Ok {
        let members = response@->Object_0;
        assert(holds(response@, "thread"@, members["thread"@]));
    }
}

} // verus!
