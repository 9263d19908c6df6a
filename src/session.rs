use vstd::prelude::*;

verus! {

/// Declares `reqwest::Client` so that the session client can hold the HTTP
/// client handle. Nothing is assumed of it: the library only moves it.
#[verifier::external_type_specification]
#[verifier::external_body]
pub struct ExClient(reqwest::Client);

/// The init endpoint used when neither an argument nor the environment names one.
pub const DEFAULT_INIT_ENDPOINT: &'static str = "https://api.pogr.io/v1/intake/init";

/// The logs endpoint used when neither an argument nor the environment names one.
pub const DEFAULT_LOGS_ENDPOINT: &'static str = "https://api.pogr.io/v1/intake/logs";

/// The deployment environment used when none is configured.
pub const DEFAULT_ENVIRONMENT: &'static str = "development";

/// The service type used when none is configured.
pub const DEFAULT_SERVICE_TYPE: &'static str = "service";

/// The text of every record that the dispatch rule builds.
pub const CAPTURED_LOG_TEXT: &'static str = "rust tracing log captured";

/// The first of `preferred` and `fallback` that is given, else `default`.
pub open spec fn precedence(
    preferred: Option<String>,
    fallback: Option<String>,
    default: Seq<char>,
) -> Seq<char> {
    match preferred {
        Some(p) => p@,
        None => match fallback {
            Some(f) => f@,
            None => default,
        },
    }
}

fn first_given(preferred: Option<String>, fallback: Option<String>, default: &str) -> (r: String)
    ensures
        r@ == precedence(preferred, fallback, default@),
{
    match preferred {
        Some(p) => p,
        None => match fallback {
            Some(f) => f,
            None => default.to_string(),
        },
    }
}

/// The two endpoint URLs, fixed at construction.
#[derive(Debug)]
pub struct EndpointConfig {
    pub init_endpoint: String,
    pub logs_endpoint: String,
}

impl EndpointConfig {
    /// Resolves each endpoint: an explicit argument wins over the environment,
    /// which wins over the public default.
    pub fn resolve(
        init_arg: Option<String>,
        init_env: Option<String>,
        logs_arg: Option<String>,
        logs_env: Option<String>,
    ) -> (r: EndpointConfig)
        ensures
            r.init_endpoint@ == precedence(init_arg, init_env, DEFAULT_INIT_ENDPOINT@),
            r.logs_endpoint@ == precedence(logs_arg, logs_env, DEFAULT_LOGS_ENDPOINT@),
    {
        EndpointConfig {
            init_endpoint: first_given(init_arg, init_env, DEFAULT_INIT_ENDPOINT),
            logs_endpoint: first_given(logs_arg, logs_env, DEFAULT_LOGS_ENDPOINT),
        }
    }
}

/// Who is logging: the service's name, deployment environment and type.
#[derive(Debug)]
pub struct ServiceIdentity {
    pub service_name: String,
    pub environment: String,
    pub service_type: String,
}

impl ServiceIdentity {
    /// Resolves the identity: the configured name, else the program's own
    /// name; the configured environment and type, else their defaults.
    pub fn resolve(
        name_env: Option<String>,
        program_name: String,
        environment_env: Option<String>,
        type_env: Option<String>,
    ) -> (r: ServiceIdentity)
        ensures
            r.service_name@ == precedence(name_env, Some(program_name), Seq::empty()),
            r.environment@ == precedence(environment_env, None, DEFAULT_ENVIRONMENT@),
            r.service_type@ == precedence(type_env, None, DEFAULT_SERVICE_TYPE@),
    {
        ServiceIdentity {
            service_name: first_given(name_env, Some(program_name), ""),
            environment: first_given(environment_env, None, DEFAULT_ENVIRONMENT),
            service_type: first_given(type_env, None, DEFAULT_SERVICE_TYPE),
        }
    }
}

/// Why a session could not be established. Each of these is fatal to
/// construction.
#[derive(Debug, PartialEq, Eq, Structural)]
pub enum InitError {
    MissingAccessKey,
    MissingSecretKey,
    Transport,
    MalformedResponse,
    Rejected,
}

/// Why one submission failed. None of these reaches the event's emitter.
#[derive(Debug, PartialEq, Eq, Structural)]
pub enum SubmitError {
    Transport,
    MalformedResponse,
    Refused,
}

/// What came back from one request to the intake service.
#[derive(Debug)]
pub enum Reply<T> {
    /// A response whose body decoded as `T`.
    Delivered(T),
    /// The request could not be sent or the response not read.
    TransportFailed,
    /// The response body did not decode.
    Undecodable,
}

#[derive(Debug)]
pub struct InitPayload {
    pub session_id: String,
}

/// The body of the init endpoint's response.
#[derive(Debug)]
pub struct InitResponse {
    pub success: bool,
    pub payload: Option<InitPayload>,
}

#[derive(Debug)]
pub struct LogPayload {
    pub log_id: String,
}

/// The body of the logs endpoint's response.
#[derive(Debug)]
pub struct LogResponse {
    pub success: bool,
    pub payload: Option<LogPayload>,
}

/// A request header, name and value.
pub open spec fn header_view(h: (String, String)) -> (Seq<char>, Seq<char>) {
    (h.0@, h.1@)
}

/// A list of request headers as names and values.
pub open spec fn headers_view(hs: Seq<(String, String)>) -> Seq<(Seq<char>, Seq<char>)> {
    hs.map_values(|h: (String, String)| header_view(h))
}

/// The headers of the init request: the two credentials and the content type.
pub open spec fn init_headers_spec(access: Seq<char>, secret: Seq<char>) -> Seq<
    (Seq<char>, Seq<char>),
> {
    seq![
        ("POGR_ACCESS"@, access),
        ("POGR_SECRET"@, secret),
        ("Content-Type"@, "application/json"@),
    ]
}

/// The headers of a logs request: the session id and the content type.
pub open spec fn log_headers_spec(session_id: Seq<char>) -> Seq<(Seq<char>, Seq<char>)> {
    seq![("INTAKE_SESSION_ID"@, session_id), ("Content-Type"@, "application/json"@)]
}

/// The headers of the init request, or the credential that is missing.
pub fn init_headers(access: Option<String>, secret: Option<String>) -> (r: Result<
    Vec<(String, String)>,
    InitError,
>)
    ensures
        access is None ==> r == Err::<Vec<(String, String)>, InitError>(InitError::MissingAccessKey),
        access is Some && secret is None ==> r == Err::<Vec<(String, String)>, InitError>(
            InitError::MissingSecretKey,
        ),
        r is Ok <==> (access is Some && secret is Some),
        r is Ok ==> headers_view(r.unwrap()@) == init_headers_spec(
            access.unwrap()@,
            secret.unwrap()@,
        ),
{
    let access = match access {
        Some(a) => a,
        None => return Err(InitError::MissingAccessKey),
    };
    let secret = match secret {
        Some(s) => s,
        None => return Err(InitError::MissingSecretKey),
    };
    let ghost (a, s) = (access@, secret@);
    let mut hs: Vec<(String, String)> = Vec::new();
    hs.push(("POGR_ACCESS".to_string(), access));
    hs.push(("POGR_SECRET".to_string(), secret));
    hs.push(("Content-Type".to_string(), "application/json".to_string()));
    assert(headers_view(hs@) =~= init_headers_spec(a, s));
    Ok(hs)
}

/// The session client: the HTTP client, the service's identity, the session
/// id that the init handshake returned and the two endpoints. Nothing in it
/// changes after construction.
pub struct PogrAppender {
    pub client: reqwest::Client,
    pub service_name: String,
    pub environment: String,
    pub service_type: String,
    pub session_id: String,
    pub logs_endpoint: String,
    pub init_endpoint: String,
}

/// The session id that an init reply grants, if it grants one: a delivered
/// response that reports success and carries a payload.
pub open spec fn granted_session(reply: Reply<InitResponse>) -> Option<Seq<char>> {
    match reply {
        Reply::Delivered(r) => if r.success && r.payload is Some {
            Some(r.payload.unwrap().session_id@)
        } else {
            None
        },
        _ => None,
    }
}

/// The error with which an init reply that grants no session fails.
pub open spec fn init_failure(reply: Reply<InitResponse>) -> InitError {
    match reply {
        Reply::Delivered(r) => if r.success {
            InitError::MalformedResponse
        } else {
            InitError::Rejected
        },
        Reply::TransportFailed => InitError::Transport,
        Reply::Undecodable => InitError::MalformedResponse,
    }
}

impl PogrAppender {
    /// Completes the init handshake: a reply that reports success and carries
    /// a session id yields the session client; any other reply is an error.
    pub fn establish(
        client: reqwest::Client,
        identity: ServiceIdentity,
        endpoints: EndpointConfig,
        reply: Reply<InitResponse>,
    ) -> (r: Result<PogrAppender, InitError>)
        ensures
            r is Ok <==> granted_session(reply) is Some,
            r is Err ==> r == Err::<PogrAppender, InitError>(init_failure(reply)),
            r is Ok ==> {
                let a = r.unwrap();
                &&& Some(a.session_id@) == granted_session(reply)
                &&& a.service_name@ == identity.service_name@
                &&& a.environment@ == identity.environment@
                &&& a.service_type@ == identity.service_type@
                &&& a.init_endpoint@ == endpoints.init_endpoint@
                &&& a.logs_endpoint@ == endpoints.logs_endpoint@
            },
    {
        match reply {
            Reply::Delivered(response) => {
                if !response.success {
                    return Err(InitError::Rejected);
                }
                match response.payload {
                    Some(payload) => Ok(PogrAppender {
                        client,
                        service_name: identity.service_name,
                        environment: identity.environment,
                        service_type: identity.service_type,
                        session_id: payload.session_id,
                        logs_endpoint: endpoints.logs_endpoint,
                        init_endpoint: endpoints.init_endpoint,
                    }),
                    None => Err(InitError::MalformedResponse),
                }
            },
            Reply::TransportFailed => Err(InitError::Transport),
            Reply::Undecodable => Err(InitError::MalformedResponse),
        }
    }

    /// The headers of a logs request under this session.
    pub fn log_headers(&self) -> (r: Vec<(String, String)>)
        ensures
            headers_view(r@) == log_headers_spec(self.session_id@),
    {
        let mut hs: Vec<(String, String)> = Vec::new();
        hs.push(("INTAKE_SESSION_ID".to_string(), self.session_id.clone()));
        hs.push(("Content-Type".to_string(), "application/json".to_string()));
        assert(headers_view(hs@) =~= log_headers_spec(self.session_id@));
        hs
    }
}

/// The log id that a logs reply acknowledges, if it acknowledges one.
pub open spec fn acknowledged_log(reply: Reply<LogResponse>) -> Option<Seq<char>> {
    match reply {
        Reply::Delivered(r) => if r.success && r.payload is Some {
            Some(r.payload.unwrap().log_id@)
        } else {
            None
        },
        _ => None,
    }
}

/// The error of a logs reply that acknowledges nothing.
pub open spec fn submit_failure(reply: Reply<LogResponse>) -> SubmitError {
    match reply {
        Reply::Delivered(r) => if r.success {
            SubmitError::MalformedResponse
        } else {
            SubmitError::Refused
        },
        Reply::TransportFailed => SubmitError::Transport,
        Reply::Undecodable => SubmitError::MalformedResponse,
    }
}

/// Reads the reply to one submission: the acknowledged log id, or the error
/// to report as a diagnostic.
pub fn submission_outcome(reply: Reply<LogResponse>) -> (r: Result<String, SubmitError>)
    ensures
        r is Ok <==> acknowledged_log(reply) is Some,
        r is Ok ==> Some(r.unwrap()@) == acknowledged_log(reply),
        r is Err ==> r == Err::<String, SubmitError>(submit_failure(reply)),
{
    match reply {
        Reply::Delivered(response) => {
            if !response.success {
                return Err(SubmitError::Refused);
            }
            match response.payload {
                Some(payload) => Ok(payload.log_id),
                None => Err(SubmitError::MalformedResponse),
            }
        },
        Reply::TransportFailed => Err(SubmitError::Transport),
        Reply::Undecodable => Err(SubmitError::MalformedResponse),
    }
}

} // verus!
