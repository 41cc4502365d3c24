//! The cloud-init configuration of the runner server.
use crate::base64_text::{
    base64_bytes, base64_length, base64_text, encode_standard, law_base64_decodes,
    law_base64_is_one_line,
};
use crate::text::texts;
use vstd::prelude::*;
use vstd::string::*;

verus! {

/// Docker Compose configuration of the runner.
pub const DOCKER_COMPOSE: &'static str = r#"services:
  docker-in-docker:
    image: docker:dind
    privileged: true
    command: ["dockerd", "-H", "tcp://0.0.0.0:2375", "--tls=false"]
    restart: unless-stopped
  runner:
    image: data.forgejo.org/forgejo/runner:11
    depends_on: [docker-in-docker]
    environment:
      DOCKER_HOST: tcp://docker-in-docker:2375
    user: "1001:1001"
    volumes:
      - ./data:/data
    restart: unless-stopped
    command: forgejo-runner daemon
"#;

/// The lines of the cloud-init configuration, around the Base64 texts of the Docker Compose
/// configuration and of the runner credentials.
pub open spec fn cloud_init_lines(docker_compose: Seq<char>, runner: Seq<char>) -> Seq<Seq<char>> {
    seq![
        "#cloud-config"@,
        "package_update: true"@,
        "package_upgrade: true"@,
        ""@,
        "write_files:"@,
        "  - path: /srv/forgejo-runner/docker-compose.yml"@,
        "    encoding: b64"@,
        "    content: "@ + docker_compose,
        "  - path: /srv/forgejo-runner/data/.runner"@,
        "    encoding: b64"@,
        "    content: "@ + runner,
        "    owner: '1001:1001'"@,
        "    permissions: '0600'"@,
        ""@,
        "runcmd:"@,
        "  - chown -R 1001:1001 /srv/forgejo-runner/data"@,
        "  - curl -fsSL https://get.docker.com -o install-docker.sh"@,
        "  - sh install-docker.sh"@,
        "  - docker compose -f /srv/forgejo-runner/docker-compose.yml up -d"@,
    ]
}

/// The text that consists of these lines, each with its line end.
pub open spec fn with_line_ends(lines: Seq<Seq<char>>) -> Seq<char>
    decreases lines.len(),
{
    if lines.len() == 0 {
        Seq::empty()
    } else {
        with_line_ends(lines.drop_last()) + lines.last().push('\n')
    }
}

/// The cloud-init configuration that writes these bytes into the two files.
pub open spec fn cloud_init_document(docker_compose: Seq<u8>, runner: Seq<u8>) -> Seq<char> {
    with_line_ends(cloud_init_lines(base64_text(docker_compose), base64_text(runner)))
}

/// Writes lines one below the other.
fn join_lines(lines: &Vec<String>) -> (text: String)
    ensures
        text@ == with_line_ends(texts(lines@)),
{
    let mut text = String::new();
    assert(texts(lines@).take(0) =~= Seq::<Seq<char>>::empty());
    for i in 0..lines.len()
        invariant
            text@ == with_line_ends(texts(lines@).take(i as int)),
    {
        let ghost before = text@;
        text.append(lines[i].as_str());
        text.push('\n');
        assert(texts(lines@).take(i + 1).drop_last() =~= texts(lines@).take(i as int));
        assert(text@ =~= before + lines@[i as int]@.push('\n'));
    }
    assert(texts(lines@).take(lines@.len() as int) =~= texts(lines@));
    text
}

/// The cloud-init configuration for a Docker Compose configuration and runner credentials. Neither
/// may be so long that no memory could hold its Base64 text.
pub fn cloud_init_for(docker_compose: &[u8], runner: &[u8]) -> (document: String)
    requires
        base64_length(docker_compose@.len()) <= isize::MAX,
        base64_length(runner@.len()) <= isize::MAX,
    ensures
        document@ == cloud_init_document(docker_compose@, runner@),
{
    let ghost compose_bytes = docker_compose@;
    let ghost runner_bytes = runner@;
    let docker_compose = encode_standard(docker_compose);
    let runner = encode_standard(runner);
    let lines: Vec<String> = vec![
        "#cloud-config".to_owned(),
        "package_update: true".to_owned(),
        "package_upgrade: true".to_owned(),
        "".to_owned(),
        "write_files:".to_owned(),
        "  - path: /srv/forgejo-runner/docker-compose.yml".to_owned(),
        "    encoding: b64".to_owned(),
        "    content: ".to_owned().concat(docker_compose.as_str()),
        "  - path: /srv/forgejo-runner/data/.runner".to_owned(),
        "    encoding: b64".to_owned(),
        "    content: ".to_owned().concat(runner.as_str()),
        "    owner: '1001:1001'".to_owned(),
        "    permissions: '0600'".to_owned(),
        "".to_owned(),
        "runcmd:".to_owned(),
        "  - chown -R 1001:1001 /srv/forgejo-runner/data".to_owned(),
        "  - curl -fsSL https://get.docker.com -o install-docker.sh".to_owned(),
        "  - sh install-docker.sh".to_owned(),
        "  - docker compose -f /srv/forgejo-runner/docker-compose.yml up -d".to_owned(),
    ];
    assert(texts(lines@) =~= cloud_init_lines(
        base64_text(compose_bytes),
        base64_text(runner_bytes),
    ));
    join_lines(&lines)
}

/// The Docker Compose configuration is short enough to be encoded.
proof fn lemma_docker_compose_fits()
    ensures
        base64_length(DOCKER_COMPOSE.spec_bytes().len()) <= isize::MAX,
{
    reveal_strlit(r#"services:
  docker-in-docker:
    image: docker:dind
    privileged: true
    command: ["dockerd", "-H", "tcp://0.0.0.0:2375", "--tls=false"]
    restart: unless-stopped
  runner:
    image: data.forgejo.org/forgejo/runner:11
    depends_on: [docker-in-docker]
    environment:
      DOCKER_HOST: tcp://docker-in-docker:2375
    user: "1001:1001"
    volumes:
      - ./data:/data
    restart: unless-stopped
    command: forgejo-runner daemon
"#);
    assert(DOCKER_COMPOSE.is_ascii());
    is_ascii_spec_bytes(DOCKER_COMPOSE);
}

/// Generates the cloud-init configuration for the runner server.
///
/// The configuration:
/// 1. Updates packages
/// 2. Writes the pre-registered `.runner` credentials to `data/.runner`
/// 3. Writes the docker-compose.yml
/// 4. Sets ownership of the data directory to uid/gid 1001 (forgejo-runner)
/// 5. Installs Docker
/// 6. Starts the Forgejo runner via docker compose
///
/// The credentials must not be so long that no memory could hold their Base64 text.
pub fn generate_cloud_init(runner_dot_file: &str) -> (document: String)
    requires
        base64_length(runner_dot_file.spec_bytes().len()) <= isize::MAX,
    ensures
        document@ == cloud_init_document(DOCKER_COMPOSE.spec_bytes(), runner_dot_file.spec_bytes()),
{
    proof {
        lemma_docker_compose_fits();
    }
    cloud_init_for(DOCKER_COMPOSE.as_bytes(), runner_dot_file.as_bytes())
}

/// The complete lines of a text, and what stands behind the last line end.
pub open spec fn split_lines(text: Seq<char>) -> (Seq<Seq<char>>, Seq<char>)
    decreases text.len(),
{
    if text.len() == 0 {
        (Seq::empty(), Seq::empty())
    } else {
        let (lines, rest) = split_lines(text.drop_last());
        if text.last() == '\n' {
            (lines.push(rest), Seq::empty())
        } else {
            (lines, rest.push(text.last()))
        }
    }
}

proof fn lemma_split_line(text: Seq<char>, line: Seq<char>)
    requires
        split_lines(text).1.len() == 0,
        !line.contains('\n'),
    ensures
        split_lines(text + line) == (split_lines(text).0, line),
    decreases line.len(),
{
    if line.len() == 0 {
        assert(text + line =~= text);
        assert(split_lines(text).1 =~= line);
    } else {
        let init = line.drop_last();
        assert forall|c: char| init.contains(c) implies line.contains(c) by {
            let i = init.index_of(c);
            assert(line[i] == c);
        }
        assert(line.contains(line.last())) by {
            assert(line[line.len() - 1] == line.last());
        }
        lemma_split_line(text, init);
        assert((text + line).drop_last() =~= text + init);
        assert(init.push(line.last()) =~= line);
    }
}

proof fn lemma_split_lines(lines: Seq<Seq<char>>)
    requires
        forall|i: int| 0 <= i < lines.len() ==> !(#[trigger] lines[i]).contains('\n'),
    ensures
        split_lines(with_line_ends(lines)) == (lines, Seq::<char>::empty()),
    decreases lines.len(),
{
    if lines.len() == 0 {
        assert(lines =~= Seq::empty());
    } else {
        let init = lines.drop_last();
        assert(forall|i: int| 0 <= i < init.len() ==> init[i] == lines[i]);
        lemma_split_lines(init);
        let text = with_line_ends(init);
        assert(lines[lines.len() - 1] == lines.last());
        lemma_split_line(text, lines.last());
        assert((text + lines.last().push('\n')).drop_last() =~= text + lines.last());
        assert(init.push(lines.last()) =~= lines);
    }
}

/// Whatever the credentials hold, the configuration has exactly the lines that it is meant to have:
/// nothing in the credentials adds a line to it.
pub proof fn law_credentials_add_no_line(docker_compose: Seq<u8>, runner: Seq<u8>)
    ensures
        split_lines(cloud_init_document(docker_compose, runner)) == (
            cloud_init_lines(base64_text(docker_compose), base64_text(runner)),
            Seq::<char>::empty(),
        ),
{
    let compose_text = base64_text(docker_compose);
    let runner_text = base64_text(runner);
    let lines = cloud_init_lines(compose_text, runner_text);
    law_base64_is_one_line(docker_compose);
    law_base64_is_one_line(runner);
    reveal_strlit("#cloud-config");
    reveal_strlit("package_update: true");
    reveal_strlit("package_upgrade: true");
    reveal_strlit("");
    reveal_strlit("write_files:");
    reveal_strlit("  - path: /srv/forgejo-runner/docker-compose.yml");
    reveal_strlit("    encoding: b64");
    reveal_strlit("    content: ");
    reveal_strlit("  - path: /srv/forgejo-runner/data/.runner");
    reveal_strlit("    owner: '1001:1001'");
    reveal_strlit("    permissions: '0600'");
    reveal_strlit("runcmd:");
    reveal_strlit("  - chown -R 1001:1001 /srv/forgejo-runner/data");
    reveal_strlit("  - curl -fsSL https://get.docker.com -o install-docker.sh");
    reveal_strlit("  - sh install-docker.sh");
    reveal_strlit("  - docker compose -f /srv/forgejo-runner/docker-compose.yml up -d");
    lemma_contains_concat("    content: "@, compose_text, '\n');
    lemma_contains_concat("    content: "@, runner_text, '\n');
    assert forall|i: int| 0 <= i < lines.len() implies !(#[trigger] lines[i]).contains('\n') by {
    }
    lemma_split_lines(lines);
}

/// The two files get exactly the bytes that were given for them: the content lines decode to them.
pub proof fn law_files_get_their_bytes(docker_compose: Seq<u8>, runner: Seq<u8>)
    ensures
        ({
            let lines = split_lines(cloud_init_document(docker_compose, runner)).0;
            let label = "    content: "@;
            &&& lines[5] == "  - path: /srv/forgejo-runner/docker-compose.yml"@
            &&& lines[7].take(label.len() as int) == label
            &&& base64_bytes(lines[7].skip(label.len() as int)) == docker_compose
            &&& lines[8] == "  - path: /srv/forgejo-runner/data/.runner"@
            &&& lines[10].take(label.len() as int) == label
            &&& base64_bytes(lines[10].skip(label.len() as int)) == runner
        }),
{
    let label = "    content: "@;
    law_credentials_add_no_line(docker_compose, runner);
    lemma_file_lines(base64_text(docker_compose), base64_text(runner));
    lemma_labelled(label, docker_compose);
    lemma_labelled(label, runner);
}

proof fn lemma_file_lines(docker_compose: Seq<char>, runner: Seq<char>)
    ensures
        ({
            let lines = cloud_init_lines(docker_compose, runner);
            &&& lines[5] == "  - path: /srv/forgejo-runner/docker-compose.yml"@
            &&& lines[7] == "    content: "@ + docker_compose
            &&& lines[8] == "  - path: /srv/forgejo-runner/data/.runner"@
            &&& lines[10] == "    content: "@ + runner
        }),
{
}

proof fn lemma_labelled(label: Seq<char>, bytes: Seq<u8>)
    ensures
        (label + base64_text(bytes)).take(label.len() as int) == label,
        base64_bytes((label + base64_text(bytes)).skip(label.len() as int)) == bytes,
{
    law_base64_decodes(bytes);
    assert((label + base64_text(bytes)).take(label.len() as int) =~= label);
    assert((label + base64_text(bytes)).skip(label.len() as int) =~= base64_text(bytes));
}

proof fn lemma_contains_concat(a: Seq<char>, b: Seq<char>, c: char)
    ensures
        (a + b).contains(c) ==> a.contains(c) || b.contains(c),
{
    if (a + b).contains(c) {
        let i = (a + b).index_of(c);
        if i < a.len() {
            assert(a[i] == c);
        } else {
            assert(b[i - a.len()] == c);
        }
    }
}

} // verus!
