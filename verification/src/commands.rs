//! The command surface: what a request against the local API needs before it
//! can be sent.

use crate::extract::{CredentialsView, ExtractionError};
use crate::lcu::{Action, Lcu, LcuView};
use vstd::prelude::*;

verus! {

/// The one method that can be invoked.
pub const METHOD_GET: &'static str = "get";

/// Why an invocation gave no answer.
#[derive(Debug)]
pub enum ApiError {
    /// The handle is empty: not connected yet, or disconnected.
    NotConnected,
    /// The method is not one that can be invoked.
    UnsupportedMethod,
    /// The client failed to carry the request out; the text is its failure.
    TransportError(String),
}

/// Mathematical content of an [`ApiError`].
pub enum ApiErrorView {
    NotConnected,
    UnsupportedMethod,
    TransportError(Seq<char>),
}

impl View for ApiError {
    type V = ApiErrorView;

    open spec fn view(&self) -> ApiErrorView {
        match self {
            ApiError::NotConnected => ApiErrorView::NotConnected,
            ApiError::UnsupportedMethod => ApiErrorView::UnsupportedMethod,
            ApiError::TransportError(failure) => ApiErrorView::TransportError(failure@),
        }
    }
}

impl ApiError {
    /// The text of [`ApiError::message`].
    pub open spec fn message_of(self) -> Seq<char> {
        match self {
            ApiError::NotConnected => "Not connected to the game client"@,
            ApiError::UnsupportedMethod => "Unsupported method"@,
            ApiError::TransportError(failure) => failure@,
        }
    }

    /// What to tell the user.
    pub fn message(&self) -> (text: String)
        ensures
            text@ == self.message_of(),
    {
        match self {
            ApiError::NotConnected => "Not connected to the game client".to_owned(),
            ApiError::UnsupportedMethod => "Unsupported method".to_owned(),
            ApiError::TransportError(failure) => failure.clone(),
        }
    }
}

/// A request that is ready to be sent: the credentials of the connection it
/// goes over, and the endpoint it asks for.
#[derive(Debug)]
pub struct ApiRequest {
    pub port: String,
    pub token: String,
    pub endpoint: String,
}

/// Mathematical content of an [`ApiRequest`].
pub struct ApiRequestView {
    pub port: Seq<char>,
    pub token: Seq<char>,
    pub endpoint: Seq<char>,
}

impl View for ApiRequest {
    type V = ApiRequestView;

    open spec fn view(&self) -> ApiRequestView {
        ApiRequestView { port: self.port@, token: self.token@, endpoint: self.endpoint@ }
    }
}

/// Mathematical content of an invocation's result.
pub open spec fn invocation_view(invocation: Result<ApiRequest, ApiError>) -> Result<
    ApiRequestView,
    ApiErrorView,
> {
    match invocation {
        Ok(request) => Ok(request@),
        Err(error) => Err(error@),
    }
}

/// What an invocation comes to: without a client it is refused as not
/// connected, whatever the method; with one, every method but `get` is
/// refused as unsupported; and `get` gives the request, bound to the client's
/// credentials.
pub open spec fn invocation(
    client: Option<CredentialsView>,
    method: Seq<char>,
    endpoint: Seq<char>,
) -> Result<ApiRequestView, ApiErrorView> {
    match client {
        None => Err(ApiErrorView::NotConnected),
        Some(credentials) => if method == METHOD_GET@ {
            Ok(ApiRequestView { port: credentials.port, token: credentials.token, endpoint })
        } else {
            Err(ApiErrorView::UnsupportedMethod)
        },
    }
}

/// Prepares the invocation of `method` on `endpoint` against the client that
/// the supervisor holds. The caller sends the request that comes back, after
/// it has let go of the supervisor.
pub fn invoke_api(lcu: &Lcu, method: &str, endpoint: &str) -> (prepared: Result<
    ApiRequest,
    ApiError,
>)
    ensures
        invocation_view(prepared) == invocation(lcu@.client, method@, endpoint@),
{
    match lcu.client() {
        None => Err(ApiError::NotConnected),
        Some(credentials) => {
            if method.to_owned() == METHOD_GET.to_owned() {
                Ok(
                    ApiRequest {
                        port: credentials.port.clone(),
                        token: credentials.token.clone(),
                        endpoint: endpoint.to_owned(),
                    },
                )
            } else {
                Err(ApiError::UnsupportedMethod)
            }
        },
    }
}

/// Mathematical content of an answer: the body as it is, or the error.
pub open spec fn answer_view<T>(answer: Result<T, ApiError>) -> Result<T, ApiErrorView> {
    match answer {
        Ok(body) => Ok(body),
        Err(error) => Err(error@),
    }
}

/// What the client's report of a request that was sent comes to.
pub open spec fn answer<T>(sent: Result<T, Seq<char>>) -> Result<T, ApiErrorView> {
    match sent {
        Ok(body) => Ok(body),
        Err(failure) => Err(ApiErrorView::TransportError(failure)),
    }
}

/// Mathematical content of the client's report.
pub open spec fn sent_view<T>(sent: Result<T, String>) -> Result<T, Seq<char>> {
    match sent {
        Ok(body) => Ok(body),
        Err(failure) => Err(failure@),
    }
}

/// Concludes an invocation from what the client reported of the request: the
/// body that came back is the answer, and a failure of the client is handed
/// on as a transport error that holds its text.
pub fn transport_outcome<T>(sent: Result<T, String>) -> (concluded: Result<T, ApiError>)
    ensures
        answer_view(concluded) == answer(sent_view(sent)),
{
    match sent {
        Ok(body) => Ok(body),
        Err(failure) => Err(ApiError::TransportError(failure)),
    }
}

/// A successful extraction on a rising edge turns invocations from refused to
/// prepared: a disconnected supervisor that observes the game client asks for
/// an extraction; until its outcome is in, `get` is refused as not connected;
/// once it came in with credentials they are installed, and `get` is prepared
/// with them.
pub proof fn lemma_connect_enables_api(
    s: LcuView,
    credentials: CredentialsView,
    endpoint: Seq<char>,
)
    requires
        s.wf(),
        s.listening,
        s.client is None,
    ensures
        invocation(s.client, METHOD_GET@, endpoint) == Err::<ApiRequestView, ApiErrorView>(
            ApiErrorView::NotConnected,
        ),
        s.poll(true).1 == Action::Connect,
        invocation(s.poll(true).0.client, METHOD_GET@, endpoint) == Err::<
            ApiRequestView,
            ApiErrorView,
        >(ApiErrorView::NotConnected),
        s.poll(true).0.complete(Ok(credentials)).1,
        invocation(s.poll(true).0.complete(Ok(credentials)).0.client, METHOD_GET@, endpoint)
            == Ok::<ApiRequestView, ApiErrorView>(
            ApiRequestView { port: credentials.port, token: credentials.token, endpoint },
        ),
{
}

/// A failed extraction leaves invocations refused: nothing is installed, and
/// the next poll that finds the game client present asks again.
pub proof fn lemma_failed_extraction_stays_disconnected(
    s: LcuView,
    error: ExtractionError,
    method: Seq<char>,
    endpoint: Seq<char>,
)
    requires
        s.wf(),
    ensures
        s.client is None ==> invocation(s.complete(Err(error)).0.client, method, endpoint)
            == Err::<ApiRequestView, ApiErrorView>(ApiErrorView::NotConnected),
        s.listening && s.client is None ==> s.complete(Err(error)).0.poll(true).1
            == Action::Connect,
{
}

} // verus!
