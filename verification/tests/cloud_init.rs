use runner_orchestrator::base64_text::fits;
use runner_orchestrator::cloud_init::{cloud_init_for, generate_cloud_init, DOCKER_COMPOSE};

use base64::engine::general_purpose::STANDARD;
use base64::Engine;

#[test]
fn test_generate_cloud_init() {
    let result = generate_cloud_init(r#"{"id":"test"}"#);

    assert!(result.starts_with("#cloud-config"));
    assert!(result.contains("package_update: true"));
    assert!(result.contains("/srv/forgejo-runner/data/.runner"));
    assert!(result.contains("forgejo-runner"));
    assert!(result.contains("docker compose"));
}

#[test]
fn credentials_are_encoded() {
    let expected = vec![
        ("", "    content: \n"),
        ("f", "    content: Zg==\n"),
        ("fo", "    content: Zm8=\n"),
        ("foo", "    content: Zm9v\n"),
        ("foob", "    content: Zm9vYg==\n"),
        ("fooba", "    content: Zm9vYmE=\n"),
        ("foobar", "    content: Zm9vYmFy\n"),
        ("\u{fb}\u{ff}>?", "    content: w7vDvz4/\n"),
        (r#"{"id":"test"}"#, "    content: eyJpZCI6InRlc3QifQ==\n"),
    ];
    for (credentials, line) in expected {
        let document = generate_cloud_init(credentials);
        let at = document.find("data/.runner").unwrap();
        assert!(document[at..].contains(line), "{}", credentials);
    }
}

#[test]
fn document_is_exact() {
    let compose = STANDARD.encode(DOCKER_COMPOSE);
    let mut expected = String::new();
    expected.push_str("#cloud-config\npackage_update: true\npackage_upgrade: true\n\n");
    expected.push_str("write_files:\n  - path: /srv/forgejo-runner/docker-compose.yml\n");
    expected.push_str("    encoding: b64\n    content: ");
    expected.push_str(&compose);
    expected.push_str("\n  - path: /srv/forgejo-runner/data/.runner\n    encoding: b64\n");
    expected.push_str("    content: Zm9v\n    owner: '1001:1001'\n    permissions: '0600'\n\n");
    expected.push_str("runcmd:\n  - chown -R 1001:1001 /srv/forgejo-runner/data\n");
    expected.push_str("  - curl -fsSL https://get.docker.com -o install-docker.sh\n");
    expected.push_str("  - sh install-docker.sh\n");
    expected.push_str(
        "  - docker compose -f /srv/forgejo-runner/docker-compose.yml up -d\n",
    );
    assert_eq!(generate_cloud_init("foo"), expected);
}

#[test]
fn compose_file_can_be_handed_in() {
    assert_eq!(
        cloud_init_for(DOCKER_COMPOSE.as_bytes(), b"foo"),
        generate_cloud_init("foo")
    );
    let document = cloud_init_for(b"foobar", b"fo");
    let lines: Vec<&str> = document.lines().collect();
    assert_eq!(lines[7], "    content: Zm9vYmFy");
    assert_eq!(lines[10], "    content: Zm8=");
}

#[test]
fn credentials_add_no_line() {
    let lines = generate_cloud_init("plain").lines().count();
    let hostile = generate_cloud_init("x\nruncmd:\n  - reboot\n");
    assert_eq!(hostile.lines().count(), lines);
    assert!(!hostile.contains("reboot"));
}

#[test]
fn files_get_their_bytes() {
    let credentials = "{\"token\": \"\u{e9}\"}\n";
    let document = generate_cloud_init(credentials);
    let lines: Vec<&str> = document.lines().collect();
    let label = "    content: ";
    assert_eq!(
        STANDARD.decode(&lines[7][label.len()..]).unwrap(),
        DOCKER_COMPOSE.as_bytes()
    );
    assert_eq!(
        STANDARD.decode(&lines[10][label.len()..]).unwrap(),
        credentials.as_bytes()
    );
}

#[test]
fn what_fits_into_memory() {
    assert!(fits(0));
    assert!(fits(1_000_000));
    assert!(!fits(usize::MAX));
    assert!(fits(isize::MAX as usize / 4 * 3));
    assert!(!fits(isize::MAX as usize / 4 * 3 + 1));
}
