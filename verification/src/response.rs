//! How a response is told apart: a success with its result, a failure that
//! the service reported, a body that cannot be understood, or no response
//! at all.

use crate::json::{
    json_array, json_bool, json_integer, json_null, json_object, json_string,
    lemma_null_text_is_null, null_text, read_array, read_bool, read_integer, read_object,
    read_string, reads_as_null,
};
use crate::text::{lemma_bytes_deep_view, optional_bytes};
use vstd::prelude::*;
use vstd::slice::slice_to_vec;

verus! {

/// One error that the service reports.
#[derive(Clone, Debug, PartialEq, Eq)]
pub struct ApiError {
    pub code: i64,
    pub message: String,
}

/// What an error entry says.
pub ghost struct ApiErrorView {
    pub code: i64,
    pub message: Seq<char>,
}

impl View for ApiError {
    type V = ApiErrorView;

    open spec fn view(&self) -> ApiErrorView {
        ApiErrorView { code: self.code, message: self.message@ }
    }
}

impl DeepView for ApiError {
    type V = ApiErrorView;

    open spec fn deep_view(&self) -> ApiErrorView {
        self@
    }
}

/// The envelope in which the service wraps every answer.
#[derive(Clone, Debug, PartialEq, Eq)]
pub struct Envelope {
    /// Whether the service reports success.
    pub success: bool,
    /// The text of the result; `null` where the envelope has none.
    pub result: Vec<u8>,
    /// The text of the metadata that comes with the result, if any.
    pub result_info: Option<Vec<u8>>,
    /// The text of the messages, if any.
    pub messages: Option<Vec<u8>>,
    /// The errors, in the order in which the service lists them.
    pub errors: Vec<ApiError>,
}

/// What an envelope says.
pub ghost struct EnvelopeView {
    pub success: bool,
    pub result: Seq<u8>,
    pub result_info: Option<Seq<u8>>,
    pub messages: Option<Seq<u8>>,
    pub errors: Seq<ApiErrorView>,
}

impl View for Envelope {
    type V = EnvelopeView;

    open spec fn view(&self) -> EnvelopeView {
        EnvelopeView {
            success: self.success,
            result: self.result@,
            result_info: optional_bytes(self.result_info),
            messages: optional_bytes(self.messages),
            errors: self.errors.deep_view(),
        }
    }
}

impl DeepView for Envelope {
    type V = EnvelopeView;

    open spec fn deep_view(&self) -> EnvelopeView {
        self@
    }
}

/// The text of the first member called `name`, if there is one.
pub open spec fn member(members: Seq<(Seq<char>, Seq<u8>)>, name: Seq<char>) -> Option<Seq<u8>>
    decreases members.len(),
{
    if members.len() == 0 {
        None
    } else if members[0].0 == name {
        Some(members[0].1)
    } else {
        member(members.drop_first(), name)
    }
}

/// The text of the member called `name`, unless it is missing or `null`.
pub open spec fn present(members: Seq<(Seq<char>, Seq<u8>)>, name: Seq<char>) -> Option<Seq<u8>> {
    match member(members, name) {
        Some(text) => if json_null(text) {
            None
        } else {
            Some(text)
        },
        None => None,
    }
}

/// The error entry that `text` holds: an object with an integer `code` and
/// a string `message`.
pub open spec fn error_of(text: Seq<u8>) -> Option<ApiErrorView> {
    match json_object(text) {
        Some(members) => match (member(members, "code"@), member(members, "message"@)) {
            (Some(code), Some(message)) => match (json_integer(code), json_string(message)) {
                (Some(code), Some(message)) => Some(ApiErrorView { code, message }),
                _ => None,
            },
            _ => None,
        },
        None => None,
    }
}

/// The error entries that the texts hold, in order; `None` where one of the
/// texts holds no error entry.
pub open spec fn errors_of(items: Seq<Seq<u8>>) -> Option<Seq<ApiErrorView>>
    decreases items.len(),
{
    if items.len() == 0 {
        Some(Seq::empty())
    } else {
        match (errors_of(items.drop_last()), error_of(items.last())) {
            (Some(head), Some(last)) => Some(head.push(last)),
            _ => None,
        }
    }
}

/// The errors that an object lists under `errors`: none where the member is
/// missing or `null`; `None` where it is there and is no list of error
/// entries.
pub open spec fn listed_errors(members: Seq<(Seq<char>, Seq<u8>)>) -> Option<Seq<ApiErrorView>> {
    match present(members, "errors"@) {
        Some(text) => match json_array(text) {
            Some(items) => errors_of(items),
            None => None,
        },
        None => Some(Seq::empty()),
    }
}

/// The envelope that `body` holds: an object with a boolean `success` and,
/// if it has `errors`, a list of error entries there.
pub open spec fn envelope_of(body: Seq<u8>) -> Option<EnvelopeView> {
    match json_object(body) {
        Some(members) => match member(members, "success"@) {
            Some(flag) => match (json_bool(flag), listed_errors(members)) {
                (Some(success), Some(errors)) => Some(
                    EnvelopeView {
                        success,
                        result: match member(members, "result"@) {
                            Some(text) => text,
                            None => null_text(),
                        },
                        result_info: present(members, "result_info"@),
                        messages: present(members, "messages"@),
                        errors,
                    },
                ),
                _ => None,
            },
            None => None,
        },
        None => None,
    }
}

/// The errors that `body` reports, whether or not it is a whole envelope:
/// those that it lists under `errors` where it is an object and the list is
/// well formed, else none.
pub open spec fn reported_errors(body: Seq<u8>) -> Seq<ApiErrorView> {
    match json_object(body) {
        Some(members) => match listed_errors(members) {
            Some(errors) => errors,
            None => Seq::empty(),
        },
        None => Seq::empty(),
    }
}

/// Finds the first member called `name`.
pub fn find_member<'a>(members: &'a Vec<(String, Vec<u8>)>, name: &str) -> (found: Option<
    &'a Vec<u8>,
>)
    ensures
        match found {
            Some(text) => member(members.deep_view(), name@) == Some(text@),
            None => member(members.deep_view(), name@) is None,
        },
{
    let wanted = name.to_owned();
    let mut i: usize = 0;
    assert(members.deep_view().skip(0) == members.deep_view());
    while i < members.len()
        invariant
            i <= members.len(),
            wanted@ == name@,
            member(members.deep_view(), name@) == member(
                members.deep_view().skip(i as int),
                name@,
            ),
        decreases members.len() - i,
    {
        assert(members.deep_view().skip(i as int)[0] == members.deep_view()[i as int]);
        if members[i].0 == wanted {
            proof {
                lemma_bytes_deep_view(members[i as int].1);
            }
            return Some(&members[i].1);
        }
        assert(members.deep_view().skip(i as int).drop_first() == members.deep_view().skip(
            i + 1,
        ));
        i += 1;
    }
    None
}

/// Finds the member called `name` and copies its text, unless it is missing
/// or `null`.
pub fn find_present(members: &Vec<(String, Vec<u8>)>, name: &str) -> (found: Option<Vec<u8>>)
    ensures
        optional_bytes(found) == present(members.deep_view(), name@),
{
    match find_member(members, name) {
        Some(text) => {
            if reads_as_null(text.as_slice()) {
                None
            } else {
                Some(slice_to_vec(text.as_slice()))
            }
        },
        None => None,
    }
}

/// Reads one error entry.
pub fn parse_error(text: &[u8]) -> (error: Option<ApiError>)
    ensures
        error.deep_view() == error_of(text@),
{
    let members = match read_object(text) {
        Some(members) => members,
        None => return None,
    };
    let code = match find_member(&members, "code") {
        Some(code) => code,
        None => return None,
    };
    let message = match find_member(&members, "message") {
        Some(message) => message,
        None => return None,
    };
    let code = read_integer(code.as_slice());
    let message = read_string(message.as_slice());
    match (code, message) {
        (Some(code), Some(message)) => Some(ApiError { code, message }),
        _ => None,
    }
}

/// Reads a list of error entries: all of them, or none where one cannot be
/// read.
pub fn parse_errors(items: &Vec<Vec<u8>>) -> (errors: Option<Vec<ApiError>>)
    ensures
        errors.deep_view() == errors_of(items.deep_view()),
{
    let mut errors: Vec<ApiError> = Vec::new();
    let mut i: usize = 0;
    assert(items.deep_view().take(0) == Seq::<Seq<u8>>::empty());
    while i < items.len()
        invariant
            i <= items.len(),
            errors_of(items.deep_view().take(i as int)) == Some(errors.deep_view()),
        decreases items.len() - i,
    {
        let ghost done = items.deep_view().take(i + 1);
        proof {
            lemma_bytes_deep_view(items[i as int]);
            assert(done.drop_last() == items.deep_view().take(i as int));
            assert(done.last() == items[i as int]@);
        }
        match parse_error(items[i].as_slice()) {
            Some(error) => {
                let ghost before = errors.deep_view();
                errors.push(error);
                assert(errors.deep_view() == before.push(error@));
            },
            None => {
                proof {
                    lemma_errors_need_every_entry(items.deep_view(), i as int);
                }
                return None;
            },
        }
        i += 1;
    }
    assert(items.deep_view().take(i as int) == items.deep_view());
    Some(errors)
}

/// Where one text holds no error entry, the list holds no errors.
pub proof fn lemma_errors_need_every_entry(items: Seq<Seq<u8>>, at: int)
    requires
        0 <= at < items.len(),
        error_of(items[at]) is None,
    ensures
        errors_of(items) is None,
    decreases items.len(),
{
    if at < items.len() - 1 {
        lemma_errors_need_every_entry(items.drop_last(), at);
    }
}

/// Reads the errors that an object lists under `errors`.
pub fn parse_listed_errors(members: &Vec<(String, Vec<u8>)>) -> (errors: Option<Vec<ApiError>>)
    ensures
        errors.deep_view() == listed_errors(members.deep_view()),
{
    match find_present(members, "errors") {
        Some(text) => match read_array(text.as_slice()) {
            Some(items) => parse_errors(&items),
            None => None,
        },
        None => Some(Vec::new()),
    }
}

/// Reads the envelope that a body holds.
pub fn parse_envelope(body: &[u8]) -> (envelope: Option<Envelope>)
    ensures
        envelope.deep_view() == envelope_of(body@),
{
    let members = match read_object(body) {
        Some(members) => members,
        None => return None,
    };
    let success = match find_member(&members, "success") {
        Some(flag) => read_bool(flag.as_slice()),
        None => return None,
    };
    let errors = parse_listed_errors(&members);
    match (success, errors) {
        (Some(success), Some(errors)) => {
            let result = match find_member(&members, "result") {
                Some(text) => slice_to_vec(text.as_slice()),
                None => null_bytes(),
            };
            let result_info = find_present(&members, "result_info");
            let messages = find_present(&members, "messages");
            Some(Envelope { success, result, result_info, messages, errors })
        },
        _ => None,
    }
}

/// The text of the JSON value `null`.
pub fn null_bytes() -> (text: Vec<u8>)
    ensures
        text@ == null_text(),
{
    let mut text: Vec<u8> = Vec::new();
    text.push(0x6e);
    text.push(0x75);
    text.push(0x6c);
    text.push(0x6c);
    assert(text@ == null_text());
    text
}

/// Reads the errors that a body reports, whether or not it is a whole
/// envelope.
pub fn parse_reported_errors(body: &[u8]) -> (errors: Vec<ApiError>)
    ensures
        errors.deep_view() == reported_errors(body@),
{
    match read_object(body) {
        Some(members) => match parse_listed_errors(&members) {
            Some(errors) => errors,
            None => Vec::new(),
        },
        None => Vec::new(),
    }
}

/// Why no response was obtained.
#[derive(Clone, Copy, Debug, PartialEq, Eq, Structural)]
pub enum TransportErrorKind {
    /// The request could not be built.
    Request,
    /// The configured time ran out before the response arrived.
    Timeout,
    /// No connection could be made.
    Connect,
    /// Anything else that went wrong on the way.
    Other,
}

/// A failure of the transport: no response was obtained.
#[derive(Clone, Debug, PartialEq, Eq)]
pub struct TransportError {
    pub kind: TransportErrorKind,
    pub message: String,
}

/// What a transport failure says.
pub ghost struct TransportErrorView {
    pub kind: TransportErrorKind,
    pub message: Seq<char>,
}

impl View for TransportError {
    type V = TransportErrorView;

    open spec fn view(&self) -> TransportErrorView {
        TransportErrorView { kind: self.kind, message: self.message@ }
    }
}

impl DeepView for TransportError {
    type V = TransportErrorView;

    open spec fn deep_view(&self) -> TransportErrorView {
        self@
    }
}

/// A response as the transport hands it over: the status code and the body.
#[derive(Clone, Debug, PartialEq, Eq)]
pub struct RawResponse {
    pub status: u16,
    pub body: Vec<u8>,
}

/// The three ways in which a request can fail.
#[derive(Clone, Debug, PartialEq, Eq)]
pub enum ApiFailure {
    /// No response was obtained.
    Transport(TransportError),
    /// The service answered and reported a failure, with these errors.
    Service { status: u16, errors: Vec<ApiError> },
    /// The service answered and the body could not be understood.
    Invalid { status: u16, body: Vec<u8> },
}

/// What a failure says.
pub ghost enum ApiFailureView {
    Transport(TransportErrorView),
    Service { status: u16, errors: Seq<ApiErrorView> },
    Invalid { status: u16, body: Seq<u8> },
}

impl View for ApiFailure {
    type V = ApiFailureView;

    open spec fn view(&self) -> ApiFailureView {
        match self {
            ApiFailure::Transport(error) => ApiFailureView::Transport(error@),
            ApiFailure::Service { status, errors } => ApiFailureView::Service {
                status: *status,
                errors: errors.deep_view(),
            },
            ApiFailure::Invalid { status, body } => ApiFailureView::Invalid {
                status: *status,
                body: body@,
            },
        }
    }
}

impl DeepView for ApiFailure {
    type V = ApiFailureView;

    open spec fn deep_view(&self) -> ApiFailureView {
        self@
    }
}

/// A success: the result, and what the service sent along with it.
#[derive(Clone, Debug, PartialEq, Eq)]
pub struct ApiSuccess<ResultType> {
    pub result: ResultType,
    /// The text of the metadata that comes with the result, if any.
    pub result_info: Option<Vec<u8>>,
    /// The text of the messages, if any.
    pub messages: Option<Vec<u8>>,
    pub errors: Vec<ApiError>,
}

/// What a success says.
pub ghost struct ApiSuccessView<ResultType> {
    pub result: ResultType,
    pub result_info: Option<Seq<u8>>,
    pub messages: Option<Seq<u8>>,
    pub errors: Seq<ApiErrorView>,
}

impl<ResultType> View for ApiSuccess<ResultType> {
    type V = ApiSuccessView<ResultType>;

    open spec fn view(&self) -> ApiSuccessView<ResultType> {
        ApiSuccessView {
            result: self.result,
            result_info: optional_bytes(self.result_info),
            messages: optional_bytes(self.messages),
            errors: self.errors.deep_view(),
        }
    }
}

/// The outcome of a request: exactly one of a success and a failure.
pub type ApiResponse<ResultType> = Result<ApiSuccess<ResultType>, ApiFailure>;

/// What an outcome says.
pub open spec fn response_view<ResultType>(response: ApiResponse<ResultType>) -> Result<
    ApiSuccessView<ResultType>,
    ApiFailureView,
> {
    match response {
        Ok(success) => Ok(success@),
        Err(failure) => Err(failure@),
    }
}

/// The result that an outcome carries, if it is a success.
pub open spec fn carried_result<ResultType>(response: ApiResponse<ResultType>) -> Option<
    ResultType,
> {
    match response {
        Ok(success) => Some(success.result),
        Err(_) => None,
    }
}

/// A success value that can be read from the text of a result.
pub trait ApiResult: Sized {
    /// Reads the value from the text of the envelope's `result`; `None`
    /// where the text has not the shape of this type.
    fn from_json(payload: &[u8]) -> Option<Self>;
}

/// Whether a status code stands for success: the codes from 200 to 299.
pub open spec fn is_success_status(status: u16) -> bool {
    200 <= status < 300
}

/// The failure that a response stands for whatever its result holds, if
/// there is one. A status code outside the successful ones is a failure of
/// the service, with the errors that the body reports. With a successful
/// status code, a body that holds no envelope cannot be understood, and an
/// envelope that does not report success is a failure of the service.
pub open spec fn failure_of(status: u16, body: Seq<u8>) -> Option<ApiFailureView> {
    if !is_success_status(status) {
        Some(ApiFailureView::Service { status, errors: reported_errors(body) })
    } else {
        match envelope_of(body) {
            Some(envelope) => if envelope.success {
                None
            } else {
                Some(ApiFailureView::Service { status, errors: envelope.errors })
            },
            None => Some(ApiFailureView::Invalid { status, body }),
        }
    }
}

/// What a success envelope and the reading of its result come to: a success
/// with the result and what came with it, or a body that cannot be
/// understood where the result could not be read.
pub open spec fn concluded<ResultType>(
    status: u16,
    body: Seq<u8>,
    envelope: EnvelopeView,
    decoded: Option<ResultType>,
) -> Result<ApiSuccessView<ResultType>, ApiFailureView> {
    match decoded {
        Some(result) => Ok(
            ApiSuccessView {
                result,
                result_info: envelope.result_info,
                messages: envelope.messages,
                errors: envelope.errors,
            },
        ),
        None => Err(ApiFailureView::Invalid { status, body }),
    }
}

/// What a response comes to, given the reading of its result.
pub open spec fn mapped<ResultType>(status: u16, body: Seq<u8>, decoded: Option<ResultType>) -> Result<
    ApiSuccessView<ResultType>,
    ApiFailureView,
> {
    match failure_of(status, body) {
        Some(failure) => Err(failure),
        None => concluded(status, body, envelope_of(body)->0, decoded),
    }
}

/// Tells whether a status code stands for success.
pub fn status_is_success(status: u16) -> (success: bool)
    ensures
        success == is_success_status(status),
{
    200 <= status && status < 300
}

/// Tells a response that needs its result read from one that is a failure
/// whatever its result holds.
pub fn classify(response: &RawResponse) -> (class: Result<Envelope, ApiFailure>)
    ensures
        match class {
            Ok(envelope) => {
                &&& failure_of(response.status, response.body@) is None
                &&& envelope_of(response.body@) == Some(envelope@)
            },
            Err(failure) => failure_of(response.status, response.body@) == Some(failure@),
        },
{
    if !status_is_success(response.status) {
        let errors = parse_reported_errors(response.body.as_slice());
        return Err(ApiFailure::Service { status: response.status, errors });
    }
    match parse_envelope(response.body.as_slice()) {
        Some(envelope) => {
            if envelope.success {
                Ok(envelope)
            } else {
                Err(ApiFailure::Service { status: response.status, errors: envelope.errors })
            }
        },
        None => Err(
            ApiFailure::Invalid {
                status: response.status,
                body: slice_to_vec(response.body.as_slice()),
            },
        ),
    }
}

/// Concludes on a success envelope, given the reading of its result.
pub fn conclude<ResultType>(
    response: RawResponse,
    envelope: Envelope,
    decoded: Option<ResultType>,
) -> (outcome: ApiResponse<ResultType>)
    ensures
        response_view(outcome) == concluded(response.status, response.body@, envelope@, decoded),
{
    match decoded {
        Some(result) => Ok(
            ApiSuccess {
                result,
                result_info: envelope.result_info,
                messages: envelope.messages,
                errors: envelope.errors,
            },
        ),
        None => Err(ApiFailure::Invalid { status: response.status, body: response.body }),
    }
}

/// Interprets a response: a failure where the response stands for one;
/// else `ResultType` is asked to read the text under `result`, and the
/// outcome is a success with what it read, or a body that cannot be
/// understood where it read nothing.
pub fn map_api_response<ResultType: ApiResult>(response: RawResponse) -> (outcome: ApiResponse<
    ResultType,
>)
    ensures
        response_view(outcome) == mapped(
            response.status,
            response.body@,
            carried_result(outcome),
        ),
        failure_of(response.status, response.body@) is None ==> exists|
            payload: &[u8],
            decoded: Option<ResultType>,
        |
            #![trigger call_ensures(ResultType::from_json, (payload,), decoded)]
            {
                &&& payload@ == envelope_of(response.body@)->0.result
                &&& call_ensures(ResultType::from_json, (payload,), decoded)
                &&& response_view(outcome) == mapped(response.status, response.body@, decoded)
            },
{
    match classify(&response) {
        Ok(envelope) => {
            let decoded = ResultType::from_json(envelope.result.as_slice());
            conclude(response, envelope, decoded)
        },
        Err(failure) => Err(failure),
    }
}

/// Interprets what the transport hands over: its failure where it obtained
/// no response, else the response.
pub fn map_outcome<ResultType: ApiResult>(sent: Result<RawResponse, TransportError>) -> (outcome:
    ApiResponse<ResultType>)
    ensures
        match sent {
            Ok(response) => {
                &&& response_view(outcome) == mapped(
                    response.status,
                    response.body@,
                    carried_result(outcome),
                )
                &&& failure_of(response.status, response.body@) is None ==> exists|
                    payload: &[u8],
                    decoded: Option<ResultType>,
                |
                    #![trigger call_ensures(ResultType::from_json, (payload,), decoded)]
                    {
                        &&& payload@ == envelope_of(response.body@)->0.result
                        &&& call_ensures(ResultType::from_json, (payload,), decoded)
                        &&& response_view(outcome) == mapped(
                            response.status,
                            response.body@,
                            decoded,
                        )
                    }
            },
            Err(error) => response_view(outcome) == Err::<ApiSuccessView<ResultType>, _>(
                ApiFailureView::Transport(error@),
            ),
        },
{
    match sent {
        Ok(response) => map_api_response(response),
        Err(error) => Err(ApiFailure::Transport(error)),
    }
}

/// Hands over the body of a response as it came, whatever its status code;
/// the failure of the transport where it obtained no response.
pub fn raw_bytes(sent: Result<RawResponse, TransportError>) -> (bytes: Result<
    Vec<u8>,
    TransportError,
>)
    ensures
        match sent {
            Ok(response) => bytes == Ok::<Vec<u8>, TransportError>(response.body),
            Err(error) => bytes == Err::<Vec<u8>, TransportError>(error),
        },
{
    match sent {
        Ok(response) => Ok(response.body),
        Err(error) => Err(error),
    }
}

/// A body that is no JSON object, under a successful status code, cannot be
/// understood: the outcome is that failure, with the status code and the
/// body, whatever the reading of a result would give.
pub proof fn lemma_unreadable_body_is_invalid<ResultType>(
    status: u16,
    body: Seq<u8>,
    decoded: Option<ResultType>,
)
    requires
        is_success_status(status),
        json_object(body) is None,
    ensures
        mapped(status, body, decoded) == Err::<ApiSuccessView<ResultType>, _>(
            ApiFailureView::Invalid { status, body },
        ),
{
}

/// An envelope that reports success, under a successful status code, gives
/// a success that carries the result read from the text under `result`,
/// with the metadata, the messages and the errors of the envelope.
pub proof fn lemma_success_carries_result<ResultType>(
    status: u16,
    body: Seq<u8>,
    result: ResultType,
)
    requires
        is_success_status(status),
        envelope_of(body) matches Some(envelope) && envelope.success,
    ensures
        mapped(status, body, Some(result)) matches Ok(success) && {
            &&& success.result == result
            &&& success.result_info == envelope_of(body)->0.result_info
            &&& success.messages == envelope_of(body)->0.messages
            &&& success.errors == envelope_of(body)->0.errors
        },
        envelope_of(body)->0.result == match member(json_object(body)->0, "result"@) {
            Some(text) => text,
            None => null_text(),
        },
{
}

/// A status code outside the successful ones gives a failure of the
/// service, with the errors that the body reports, whatever else the body
/// holds; and an envelope that reports no success gives one under any
/// status code.
pub proof fn lemma_service_failures<ResultType>(
    status: u16,
    body: Seq<u8>,
    decoded: Option<ResultType>,
)
    ensures
        !is_success_status(status) ==> mapped(status, body, decoded) == Err::<
            ApiSuccessView<ResultType>,
            _,
        >(ApiFailureView::Service { status, errors: reported_errors(body) }),
        envelope_of(body) matches Some(envelope) && !envelope.success ==> mapped(
            status,
            body,
            decoded,
        ) == Err::<ApiSuccessView<ResultType>, _>(
            ApiFailureView::Service { status, errors: envelope_of(body)->0.errors },
        ),
{
    if envelope_of(body) is Some && !is_success_status(status) {
        assert(reported_errors(body) == envelope_of(body)->0.errors);
    }
}

/// An envelope without a `result` has `null` for its result: a type that
/// reads itself from `null`, as `()` does, reads itself from such an
/// envelope.
pub proof fn lemma_missing_result_is_null(body: Seq<u8>)
    requires
        envelope_of(body) is Some,
        member(json_object(body)->0, "result"@) is None,
    ensures
        envelope_of(body)->0.result == null_text(),
        json_null(envelope_of(body)->0.result),
{
    lemma_null_text_is_null();
}

} // verus!
