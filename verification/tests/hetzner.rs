use runner_orchestrator::config::HetznerConfig;
use runner_orchestrator::hetzner::{
    HetznerClient, HetznerError, Ipv4, PublicNet, Server, SshKey,
};
use runner_orchestrator::http::{Method, Reply};

fn client() -> HetznerClient {
    HetznerClient::new(&HetznerConfig {
        token: "t0ken".to_string(),
        server_type: "ccx23".to_string(),
        location: "nbg1".to_string(),
        image: "ubuntu-24.04".to_string(),
        ssh_key_name: "my-key".to_string(),
    })
}

fn server(id: u64) -> Server {
    Server {
        id,
        name: "flexi-runner".to_string(),
        status: "running".to_string(),
        public_net: PublicNet {
            ipv4: Some(Ipv4 {
                ip: "192.0.2.1".to_string(),
            }),
        },
    }
}

#[test]
fn requests_name_the_endpoint() {
    let request = client().servers_request("flexi-runner");
    assert_eq!(request.method, Method::Get);
    assert_eq!(
        request.url,
        "https://api.hetzner.cloud/v1/servers?name=flexi-runner"
    );
    assert_eq!(request.authorization, "Bearer t0ken");
    assert_eq!(
        client().ssh_keys_request("my-key").url,
        "https://api.hetzner.cloud/v1/ssh_keys?name=my-key"
    );
    let request = client().delete_server(1234567890123);
    assert_eq!(request.method, Method::Delete);
    assert_eq!(
        request.url,
        "https://api.hetzner.cloud/v1/servers/1234567890123"
    );
    assert_eq!(client().post("/x").method, Method::Post);
    assert_eq!(client().get("/x").url, "https://api.hetzner.cloud/v1/x");
    assert_eq!(client().delete("").url, "https://api.hetzner.cloud/v1");
}

#[test]
fn first_ssh_key_counts() {
    let keys = Reply::Answered(Ok(vec![SshKey { id: 7 }, SshKey { id: 8 }]));
    assert_eq!(client().get_ssh_key_id("k", keys).unwrap(), 7);
    let error = client()
        .get_ssh_key_id("k", Reply::Answered(Ok(vec![])))
        .unwrap_err();
    assert!(matches!(&error, HetznerError::SshKeyNotFound(name) if name == "k"));
    assert_eq!(error.describe(), "SSH key not found: k");
}

#[test]
fn first_server_counts() {
    let servers = Reply::Answered(Ok(vec![server(3), server(4)]));
    let found = client().find_server_by_name(servers).unwrap().unwrap();
    assert_eq!(found.id, 3);
    let found = client().find_server_by_name(Reply::Answered(Ok(vec![])));
    assert!(found.unwrap().is_none());
}

#[test]
fn server_order_is_complete() {
    let keys = Reply::Answered(Ok(vec![SshKey { id: 7 }]));
    let order = client()
        .create_server("flexi-runner", "#cloud-config\n", keys)
        .unwrap();
    assert_eq!(order.request.method, Method::Post);
    assert_eq!(order.request.url, "https://api.hetzner.cloud/v1/servers");
    assert_eq!(order.body.name, "flexi-runner");
    assert_eq!(order.body.server_type, "ccx23");
    assert_eq!(order.body.image, "ubuntu-24.04");
    assert_eq!(order.body.location, "nbg1");
    assert_eq!(order.body.ssh_keys, vec![7]);
    assert_eq!(order.body.user_data, "#cloud-config\n");
}

#[test]
fn no_order_without_the_key() {
    let error = client()
        .create_server("n", "u", Reply::Answered(Ok(vec![])))
        .unwrap_err();
    assert_eq!(error.describe(), "SSH key not found: my-key");
}

#[test]
fn error_messages() {
    let error = HetznerClient::receive::<u8>(Reply::Failed("timeout".to_string())).unwrap_err();
    assert_eq!(error.describe(), "HTTP request failed: timeout");
    let refused: Reply<u8> = Reply::Refused {
        status: 404,
        text: Some("not found".to_string()),
    };
    let error = HetznerClient::receive(refused).unwrap_err();
    assert_eq!(
        error.describe(),
        "Hetzner API error (status 404): not found"
    );
    let refused: Reply<u8> = Reply::Refused {
        status: 502,
        text: None,
    };
    let error = HetznerClient::receive(refused).unwrap_err();
    assert_eq!(
        error.describe(),
        "Hetzner API error (status 502): Unknown error"
    );
    let undecodable: Reply<u8> = Reply::Answered(Err("eof".to_string()));
    let error = HetznerClient::receive(undecodable).unwrap_err();
    assert_eq!(
        error.describe(),
        "Invalid API response: JSON parsing failed: eof"
    );
    assert!(HetznerClient::receive(Reply::Answered(Ok(()))).is_ok());
}

#[test]
fn a_deletion_succeeds_by_its_status_alone() {
    let undecodable = Reply::Answered(Err("EOF while parsing".to_string()));
    assert!(HetznerClient::receive_deletion(undecodable).is_ok());
    assert!(HetznerClient::receive_deletion(Reply::Answered(Ok(()))).is_ok());
    let failed = HetznerClient::receive_deletion(Reply::Failed("timeout".to_string()));
    assert_eq!(
        failed.unwrap_err().describe(),
        "HTTP request failed: timeout"
    );
    let refused = HetznerClient::receive_deletion(Reply::Refused {
        status: 404,
        text: None,
    });
    assert_eq!(
        refused.unwrap_err().describe(),
        "Hetzner API error (status 404): Unknown error"
    );
}
