//! The Hetzner Cloud API: finding, creating and deleting the runner server.
use crate::config::HetznerConfig;
use crate::http::{
    decoding_message, decoding_text, refusal_message, refusal_text, ApiRequest, Method, Reply,
};
use crate::text::{decimal, decimal_text};
use vstd::prelude::*;
use vstd::string::*;

verus! {

/// Hetzner API base URL
pub const HETZNER_API_URL: &'static str = "https://api.hetzner.cloud/v1";

/// Errors that can occur during Hetzner API calls. A server that does not exist is no error: its
/// search finds none.
#[derive(Debug)]
pub enum HetznerError {
    /// The HTTP exchange failed.
    Request(String),
    /// The API answered with a status that is no success.
    Api { status: u16, message: String },
    /// No SSH key has this name.
    SshKeyNotFound(String),
    /// The body of the answer could not be decoded.
    Parse(String),
}

impl HetznerError {
    /// The characters of the message of this error.
    pub open spec fn spec_describe(self) -> Seq<char> {
        match self {
            HetznerError::Request(cause) => "HTTP request failed: "@ + cause@,
            HetznerError::Api { status, message } => "Hetzner API error (status "@ + decimal(
                status as nat,
            ) + "): "@ + message@,
            HetznerError::SshKeyNotFound(name) => "SSH key not found: "@ + name@,
            HetznerError::Parse(cause) => "Invalid API response: "@ + cause@,
        }
    }

    /// The message of this error.
    pub fn describe(&self) -> (message: String)
        ensures
            message@ == self.spec_describe(),
    {
        match self {
            HetznerError::Request(cause) => {
                String::from_str("HTTP request failed: ").concat(cause.as_str())
            },
            HetznerError::Api { status, message } => {
                String::from_str("Hetzner API error (status ").concat(
                    decimal_text(*status as u64).as_str(),
                ).concat("): ").concat(message.as_str())
            },
            HetznerError::SshKeyNotFound(name) => {
                String::from_str("SSH key not found: ").concat(name.as_str())
            },
            HetznerError::Parse(cause) => {
                String::from_str("Invalid API response: ").concat(cause.as_str())
            },
        }
    }
}

/// Hetzner server information.
#[derive(Debug, Clone)]
pub struct Server {
    /// Server ID
    pub id: u64,
    /// Server name
    pub name: String,
    /// Server status (initializing, running, off, etc.)
    pub status: String,
    /// Public IPv4 address
    pub public_net: PublicNet,
}

/// Network information of a server.
#[derive(Debug, Clone)]
pub struct PublicNet {
    pub ipv4: Option<Ipv4>,
}

/// An IPv4 address.
#[derive(Debug, Clone)]
pub struct Ipv4 {
    pub ip: String,
}

/// SSH key information.
#[derive(Debug, Clone)]
pub struct SshKey {
    pub id: u64,
}

/// Request body for server creation.
#[derive(Debug)]
pub struct CreateServerRequest {
    pub name: String,
    pub server_type: String,
    pub image: String,
    pub location: String,
    pub ssh_keys: Vec<u64>,
    pub user_data: String,
}

/// A request for server creation, with its body.
#[derive(Debug)]
pub struct ServerOrder {
    pub request: ApiRequest,
    pub body: CreateServerRequest,
}

/// Hetzner API client: what it asks for, and what it makes of the answers.
#[derive(Debug)]
pub struct HetznerClient {
    /// API token
    pub token: String,
    /// Server configuration
    pub config: HetznerConfig,
}

impl HetznerClient {
    /// Creates a new Hetzner client with the configured token and server settings.
    pub fn new(config: &HetznerConfig) -> (client: HetznerClient)
        ensures
            client.token@ == config.token@,
            client.config == *config,
    {
        HetznerClient { token: config.token.clone(), config: config.copy() }
    }

    /// Whether `request` is the one with this method for an endpoint of the API.
    pub open spec fn asks(self, request: ApiRequest, method: Method, endpoint: Seq<char>) -> bool {
        request.is(method, HETZNER_API_URL@ + endpoint, "Bearer "@ + self.token@)
    }

    /// The request with this method for an endpoint of the API.
    fn request(&self, method: Method, endpoint: &str) -> (request: ApiRequest)
        ensures
            self.asks(request, method, endpoint@),
    {
        ApiRequest {
            method,
            url: HETZNER_API_URL.to_owned().concat(endpoint),
            authorization: String::from_str("Bearer ").concat(self.token.as_str()),
        }
    }

    /// The GET request for an endpoint of the API.
    pub fn get(&self, endpoint: &str) -> (request: ApiRequest)
        ensures
            self.asks(request, Method::Get, endpoint@),
    {
        self.request(Method::Get, endpoint)
    }

    /// The POST request for an endpoint of the API.
    pub fn post(&self, endpoint: &str) -> (request: ApiRequest)
        ensures
            self.asks(request, Method::Post, endpoint@),
    {
        self.request(Method::Post, endpoint)
    }

    /// The DELETE request for an endpoint of the API.
    pub fn delete(&self, endpoint: &str) -> (request: ApiRequest)
        ensures
            self.asks(request, Method::Delete, endpoint@),
    {
        self.request(Method::Delete, endpoint)
    }

    /// Whether `outcome` is what becomes of `reply`.
    pub open spec fn outcome_of<T>(reply: Reply<T>, outcome: Result<T, HetznerError>) -> bool {
        match reply {
            Reply::Failed(cause) => outcome == Err::<T, _>(HetznerError::Request(cause)),
            Reply::Refused { status, text } => {
                &&& outcome is Err
                &&& outcome->Err_0 is Api
                &&& outcome->Err_0->status == status
                &&& outcome->Err_0->message@ == refusal_message(text)
            },
            Reply::Answered(Ok(value)) => outcome == Ok::<T, HetznerError>(value),
            Reply::Answered(Err(cause)) => {
                &&& outcome is Err
                &&& outcome->Err_0 is Parse
                &&& outcome->Err_0->Parse_0@ == decoding_message(cause@)
            },
        }
    }

    /// What becomes of the reply to a request whose answer is decoded: the answer, or the error that
    /// the reply is.
    pub fn receive<T>(reply: Reply<T>) -> (outcome: Result<T, HetznerError>)
        ensures
            HetznerClient::outcome_of(reply, outcome),
    {
        match reply {
            Reply::Failed(cause) => Err(HetznerError::Request(cause)),
            Reply::Refused { status, text } => {
                Err(HetznerError::Api { status, message: refusal_text(text) })
            },
            Reply::Answered(Ok(value)) => Ok(value),
            Reply::Answered(Err(cause)) => {
                Err(HetznerError::Parse(decoding_text(cause.as_str())))
            },
        }
    }

    /// What becomes of the reply to a deletion: with a success status the deletion is done, whatever
    /// the body holds; else the reply is an error.
    pub fn receive_deletion(reply: Reply<()>) -> (outcome: Result<(), HetznerError>)
        ensures
            outcome is Ok <==> reply is Answered,
            !(reply is Answered) ==> HetznerClient::outcome_of(reply, outcome),
    {
        match reply {
            Reply::Answered(_) => Ok(()),
            other => HetznerClient::receive(other),
        }
    }

    /// The request for the SSH keys with a name.
    pub fn ssh_keys_request(&self, name: &str) -> (request: ApiRequest)
        ensures
            self.asks(request, Method::Get, "/ssh_keys?name="@ + name@),
    {
        self.get(String::from_str("/ssh_keys?name=").concat(name).as_str())
    }

    /// Takes the reply to the request for the SSH keys with a name: the ID of the first one.
    pub fn get_ssh_key_id(&self, name: &str, reply: Reply<Vec<SshKey>>) -> (outcome: Result<
        u64,
        HetznerError,
    >)
        ensures
            match reply {
                Reply::Answered(Ok(keys)) => if keys@.len() > 0 {
                    outcome == Ok::<_, HetznerError>(keys@[0].id)
                } else {
                    outcome is Err && outcome->Err_0 is SshKeyNotFound
                        && outcome->Err_0->SshKeyNotFound_0@ == name@
                },
                _ => outcome is Err && HetznerClient::outcome_of(reply, Err(outcome->Err_0)),
            },
    {
        match HetznerClient::receive(reply) {
            Ok(keys) => {
                if keys.len() > 0 {
                    Ok(keys[0].id)
                } else {
                    Err(HetznerError::SshKeyNotFound(name.to_owned()))
                }
            },
            Err(error) => Err(error),
        }
    }

    /// The request for the servers with a name.
    pub fn servers_request(&self, name: &str) -> (request: ApiRequest)
        ensures
            self.asks(request, Method::Get, "/servers?name="@ + name@),
    {
        self.get(String::from_str("/servers?name=").concat(name).as_str())
    }

    /// Takes the reply to the request for the servers with a name: the first one, or none.
    pub fn find_server_by_name(&self, reply: Reply<Vec<Server>>) -> (outcome: Result<
        Option<Server>,
        HetznerError,
    >)
        ensures
            match reply {
                Reply::Answered(Ok(servers)) => outcome == Ok::<_, HetznerError>(
                    if servers@.len() > 0 {
                        Some(servers@[0])
                    } else {
                        None
                    },
                ),
                _ => outcome is Err && HetznerClient::outcome_of(reply, Err(outcome->Err_0)),
            },
    {
        match HetznerClient::receive(reply) {
            Ok(servers) => {
                let mut servers = servers;
                if servers.len() > 0 {
                    Ok(Some(servers.swap_remove(0)))
                } else {
                    Ok(None)
                }
            },
            Err(error) => Err(error),
        }
    }

    /// Whether `order` asks for the configured kind of server, with this name, cloud-init
    /// configuration and SSH key.
    pub open spec fn orders(
        self,
        order: ServerOrder,
        name: Seq<char>,
        user_data: Seq<char>,
        ssh_key_id: u64,
    ) -> bool {
        &&& self.asks(order.request, Method::Post, "/servers"@)
        &&& order.body.name@ == name
        &&& order.body.server_type@ == self.config.server_type@
        &&& order.body.image@ == self.config.image@
        &&& order.body.location@ == self.config.location@
        &&& order.body.ssh_keys@ == seq![ssh_key_id]
        &&& order.body.user_data@ == user_data
    }

    /// Takes the reply to the request for the configured SSH key: the order for a server with this
    /// name and cloud-init configuration, to which the key gives access.
    pub fn create_server(&self, name: &str, user_data: &str, keys: Reply<Vec<SshKey>>) -> (outcome:
        Result<ServerOrder, HetznerError>)
        ensures
            match keys {
                Reply::Answered(Ok(found)) => if found@.len() > 0 {
                    &&& outcome is Ok
                    &&& self.orders(outcome->Ok_0, name@, user_data@, found@[0].id)
                } else {
                    outcome is Err && outcome->Err_0 is SshKeyNotFound
                        && outcome->Err_0->SshKeyNotFound_0@ == self.config.ssh_key_name@
                },
                _ => outcome is Err && HetznerClient::outcome_of(keys, Err(outcome->Err_0)),
            },
    {
        match self.get_ssh_key_id(self.config.ssh_key_name.as_str(), keys) {
            Ok(ssh_key_id) => {
                let mut ssh_keys: Vec<u64> = Vec::new();
                ssh_keys.push(ssh_key_id);
                assert(ssh_keys@ =~= seq![ssh_key_id]);
                Ok(
                    ServerOrder {
                        request: self.post("/servers"),
                        body: CreateServerRequest {
                            name: name.to_owned(),
                            server_type: self.config.server_type.clone(),
                            image: self.config.image.clone(),
                            location: self.config.location.clone(),
                            ssh_keys,
                            user_data: user_data.to_owned(),
                        },
                    },
                )
            },
            Err(error) => Err(error),
        }
    }

    /// The request that deletes a server by its ID.
    pub fn delete_server(&self, server_id: u64) -> (request: ApiRequest)
        ensures
            self.asks(request, Method::Delete, "/servers/"@ + decimal(server_id as nat)),
    {
        self.delete(
            String::from_str("/servers/").concat(decimal_text(server_id).as_str()).as_str(),
        )
    }
}

} // verus!
