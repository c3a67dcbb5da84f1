//! Credential extraction: from the launch command line of the game client to
//! the port and bearer token of its local API.

use crate::process::{is_lol_running, target_present};
use crate::query::{launch_meaning, launch_outcome};
use base64::Engine;
use vstd::prelude::*;
use vstd::string::*;
use vstd::utf8::*;

verus! {

/// Pattern that locates the port flag; its first group is the port number.
pub const PORT_PATTERN: &'static str = "--app-port=(\\d+)";

/// Pattern that locates the secret flag; its first group is the secret.
pub const SECRET_PATTERN: &'static str = "--remoting-auth-token=(\\w+)";

/// What is put in front of the secret before it is encoded.
pub const TOKEN_PREFIX: &'static str = "riot:";

/// The port and bearer token of the local API.
#[derive(Debug)]
pub struct Credentials {
    pub port: String,
    pub token: String,
}

/// Mathematical content of [`Credentials`].
pub struct CredentialsView {
    pub port: Seq<char>,
    pub token: Seq<char>,
}

impl View for Credentials {
    type V = CredentialsView;

    open spec fn view(&self) -> CredentialsView {
        CredentialsView { port: self.port@, token: self.token@ }
    }
}

impl Clone for Credentials {
    fn clone(&self) -> (copy: Self)
        ensures
            copy@ == self@,
    {
        Credentials { port: self.port.clone(), token: self.token.clone() }
    }
}

/// Why an extraction attempt produced no credentials.
#[derive(Clone, Copy, Debug, PartialEq, Eq, Structural)]
pub enum ExtractionError {
    /// No process with the target's executable name is running.
    ProcessNotFound,
    /// The elevated query was refused.
    PrivilegeDenied,
    /// The elevated query could not be run, or its output could not be read.
    QueryFailed,
    /// The command line lacks the port flag or the secret flag.
    MalformedCommandLine,
}

impl ExtractionError {
    /// The text of [`ExtractionError::message`].
    pub open spec fn message_of(self) -> Seq<char> {
        match self {
            ExtractionError::ProcessNotFound => "The game client is not running"@,
            ExtractionError::PrivilegeDenied => "The elevated query was refused"@,
            ExtractionError::QueryFailed => "Failed to execute command"@,
            ExtractionError::MalformedCommandLine => "The command line holds no port and token"@,
        }
    }

    /// What to tell the user.
    pub fn message(&self) -> (text: &'static str)
        ensures
            text@ == self.message_of(),
    {
        match self {
            ExtractionError::ProcessNotFound => "The game client is not running",
            ExtractionError::PrivilegeDenied => "The elevated query was refused",
            ExtractionError::QueryFailed => "Failed to execute command",
            ExtractionError::MalformedCommandLine => "The command line holds no port and token",
        }
    }
}

#[verifier::external_type_specification]
#[verifier::external_body]
pub struct ExPatternError(regex::Error);

/// The text of capture group `group` in the leftmost match of `pattern` in
/// `haystack`, as the regex engine finds it. `None` where the pattern has no
/// match, where the group took no part in the match, and where the engine does
/// not accept the pattern.
pub uninterp spec fn captured(pattern: Seq<char>, haystack: Seq<char>, group: nat) -> Option<
    Seq<char>,
>;

/// The standard, padded base64 text of `bytes`.
pub uninterp spec fn base64_standard(bytes: Seq<u8>) -> Seq<char>;

/// Compiles `pattern` with `regex::Regex::new`, searches `haystack` with
/// `Regex::captures` and hands out the text of group `group` of the match.
///
/// Trusted: the search is a function of the pattern and the haystack alone, so
/// what it yields is `captured` of them; a pattern that the engine refuses
/// comes back as the engine's error, and then `captured` is `None`.
#[verifier::external_body]
fn search_group(pattern: &str, haystack: &str, group: usize) -> (found: Result<
    Option<String>,
    regex::Error,
>)
    ensures
        found is Err ==> captured(pattern@, haystack@, group as nat) is None,
        found matches Ok(text) ==> text.deep_view() == captured(
            pattern@,
            haystack@,
            group as nat,
        ),
{
    let compiled = regex::Regex::new(pattern)?;
    let groups = compiled.captures(haystack);
    Ok(groups.and_then(|g| g.get(group)).map(|m| m.as_str().to_string()))
}

/// Whether `len` bytes can be encoded: the encoded text has four characters
/// for every three bytes begun, and must fit in one allocation.
pub open spec fn encodable(len: nat) -> bool {
    (len / 3 + 1) * 4 <= isize::MAX
}

/// Calls `Engine::encode` on `base64::engine::general_purpose::STANDARD`.
///
/// Trusted: the result is the standard padded base64 text of `input`. The
/// engine panics where the encoded length cannot be computed or allocated,
/// which `requires` leaves out.
#[verifier::external_body]
fn encode_standard(input: &[u8]) -> (encoded: String)
    requires
        encodable(input@.len()),
    ensures
        encoded@ == base64_standard(input@),
{
    base64::engine::general_purpose::STANDARD.encode(input)
}

/// The bearer token that belongs to `secret`.
pub open spec fn token_of(secret: Seq<char>) -> Seq<char> {
    base64_standard(encode_utf8(TOKEN_PREFIX@ + secret))
}

/// Whether a token can be composed for `secret`.
pub open spec fn composable(secret: Seq<char>) -> bool {
    encodable(encode_utf8(TOKEN_PREFIX@ + secret).len())
}

/// What [`bearer_token`] yields for `secret`.
pub open spec fn composed(secret: Seq<char>) -> Option<Seq<char>> {
    if composable(secret) {
        Some(token_of(secret))
    } else {
        None
    }
}

/// Composes the bearer token for `secret`: the standard base64 text of the
/// prefix followed by the secret. `None` exactly where the text would be too
/// long to encode.
pub fn bearer_token(secret: &str) -> (token: Option<String>)
    ensures
        token.deep_view() == composed(secret@),
{
    let mut plain = TOKEN_PREFIX.to_owned();
    plain.append(secret);
    let bytes = plain.as_str().as_bytes();
    let limit: usize = isize::MAX as usize;
    if bytes.len() / 3 < limit / 4 {
        Some(encode_standard(bytes))
    } else {
        None
    }
}

/// Mathematical content of an extraction's result.
pub open spec fn outcome_view(outcome: Result<Credentials, ExtractionError>) -> Result<
    CredentialsView,
    ExtractionError,
> {
    match outcome {
        Ok(credentials) => Ok(credentials@),
        Err(error) => Err(error),
    }
}

/// The credentials that two captures give: both must be there, and the secret
/// must be short enough to encode. The port is taken as it was captured, the
/// token is composed from the secret; nothing is filled in for a missing part.
pub open spec fn credentials_of(port: Option<Seq<char>>, secret: Option<Seq<char>>) -> Result<
    CredentialsView,
    ExtractionError,
> {
    match (port, secret) {
        (Some(p), Some(s)) => if composable(s) {
            Ok(CredentialsView { port: p, token: token_of(s) })
        } else {
            Err(ExtractionError::MalformedCommandLine)
        },
        _ => Err(ExtractionError::MalformedCommandLine),
    }
}

/// The credentials that a command line gives: the first group of the port
/// pattern and the first group of the secret pattern, put together.
pub open spec fn parsed(command_line: Seq<char>) -> Result<CredentialsView, ExtractionError> {
    credentials_of(
        captured(PORT_PATTERN@, command_line, 1),
        captured(SECRET_PATTERN@, command_line, 1),
    )
}

/// Builds the credentials from what the two patterns captured.
pub fn credentials_from_captures(port: Option<String>, secret: Option<String>) -> (outcome: Result<
    Credentials,
    ExtractionError,
>)
    ensures
        outcome_view(outcome) == credentials_of(port.deep_view(), secret.deep_view()),
        port is None || secret is None ==> outcome == Err::<Credentials, ExtractionError>(
            ExtractionError::MalformedCommandLine,
        ),
        outcome matches Ok(credentials) ==> port matches Some(p) && secret matches Some(s)
            && credentials.port@ == p@ && credentials.token@ == token_of(s@),
{
    match (port, secret) {
        (Some(port), Some(secret)) => match bearer_token(secret.as_str()) {
            Some(token) => Ok(Credentials { port, token }),
            None => Err(ExtractionError::MalformedCommandLine),
        },
        _ => Err(ExtractionError::MalformedCommandLine),
    }
}

/// Reads the port and the secret out of the launch command line of the game
/// client and composes the credentials of its local API.
///
/// A command line in which either pattern finds nothing is malformed: no
/// credentials come back with one part only.
pub fn get_lcu_port_token(command_info: &str) -> (outcome: Result<Credentials, ExtractionError>)
    ensures
        outcome_view(outcome) == parsed(command_info@),
        captured(PORT_PATTERN@, command_info@, 1) is None || captured(
            SECRET_PATTERN@,
            command_info@,
            1,
        ) is None ==> outcome == Err::<Credentials, ExtractionError>(
            ExtractionError::MalformedCommandLine,
        ),
        outcome matches Err(error) ==> error == ExtractionError::MalformedCommandLine,
{
    let port = match search_group(PORT_PATTERN, command_info, 1) {
        Ok(found) => found,
        Err(_) => None,
    };
    let secret = match search_group(SECRET_PATTERN, command_info, 1) {
        Ok(found) => found,
        Err(_) => None,
    };
    credentials_from_captures(port, secret)
}

/// What one extraction attempt comes to, from what was observed of it: the
/// executable names of the processes, the code that the elevated launch of the
/// query returned (`None` where it was not made), and the text that was read
/// back (`None` where nothing could be read).
///
/// The steps fail in their order: without the target among the processes the
/// attempt ends as process not found; a launch that was not made, or whose
/// output could not be read, as a failed query; a launch that returned a
/// failure code as that code means; and a command line that was read is parsed.
pub open spec fn extraction(
    process_names: Seq<String>,
    launch_code: Option<i32>,
    output: Option<Seq<char>>,
) -> Result<CredentialsView, ExtractionError> {
    if !target_present(process_names) {
        Err(ExtractionError::ProcessNotFound)
    } else {
        match launch_code {
            None => Err(ExtractionError::QueryFailed),
            Some(code) => match launch_meaning(code) {
                Err(error) => Err(error),
                Ok(_) => match output {
                    None => Err(ExtractionError::QueryFailed),
                    Some(command_line) => parsed(command_line),
                },
            },
        }
    }
}

/// Decides one extraction attempt from what was observed of it.
pub fn extract_credentials(
    process_names: &Vec<String>,
    launch_code: Option<i32>,
    output: Option<&str>,
) -> (outcome: Result<Credentials, ExtractionError>)
    ensures
        outcome_view(outcome) == extraction(process_names@, launch_code, output.deep_view()),
{
    if !is_lol_running(process_names) {
        return Err(ExtractionError::ProcessNotFound);
    }
    let code = match launch_code {
        Some(code) => code,
        None => {
            return Err(ExtractionError::QueryFailed);
        },
    };
    match launch_outcome(code) {
        Err(error) => Err(error),
        Ok(_) => match output {
            None => Err(ExtractionError::QueryFailed),
            Some(command_line) => get_lcu_port_token(command_line),
        },
    }
}

/// Extraction is repeatable: two attempts that observe the same processes,
/// the same launch code and the same output end alike, and where they
/// succeed they give the same port and the same token.
pub proof fn lemma_extraction_repeatable(
    process_names: Seq<String>,
    launch_code: Option<i32>,
    output: Option<Seq<char>>,
    first: Result<Credentials, ExtractionError>,
    second: Result<Credentials, ExtractionError>,
)
    requires
        outcome_view(first) == extraction(process_names, launch_code, output),
        outcome_view(second) == extraction(process_names, launch_code, output),
    ensures
        outcome_view(first) == outcome_view(second),
        first matches Ok(a) ==> second matches Ok(b) && a.port@ == b.port@ && a.token@
            == b.token@,
        first matches Err(e) ==> second == Err::<Credentials, ExtractionError>(e),
{
}

/// A command line in which the port pattern or the secret pattern finds
/// nothing is malformed, and credentials never come with one part only: where
/// a command line gives credentials, both patterns found their group, the
/// port is the one group and the token is composed from the other.
pub proof fn lemma_missing_flag_is_malformed(command_line: Seq<char>)
    ensures
        captured(PORT_PATTERN@, command_line, 1) is None || captured(
            SECRET_PATTERN@,
            command_line,
            1,
        ) is None ==> parsed(command_line) == Err::<CredentialsView, ExtractionError>(
            ExtractionError::MalformedCommandLine,
        ),
        parsed(command_line) matches Ok(credentials) ==> {
            &&& captured(PORT_PATTERN@, command_line, 1) == Some(credentials.port)
            &&& captured(SECRET_PATTERN@, command_line, 1) is Some
            &&& credentials.token == token_of(captured(SECRET_PATTERN@, command_line, 1)->0)
        },
        parsed(command_line) matches Err(error) ==> error
            == ExtractionError::MalformedCommandLine,
{
}

} // verus!
