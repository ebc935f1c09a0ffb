use cftun::cloudflared::{CloudflaredTunnel, CommandOutput};
use cftun::config::TunnelConfig;
use cftun::create::CreateArgs;
use cftun::delete::DeleteArgs;
use cftun::dialog::{Event, Outcome, Request};
use cftun::import::ImportArgs;
use cftun::metadata::Metadata;
use cftun::session::{Command, Session};
use cftun::update::UpdateArgs;
use std::collections::BTreeMap;

/// A machine with cloudflared on it.
struct Machine {
    metadata: Metadata,
    configs: BTreeMap<String, TunnelConfig>,
    tunnels: Vec<(String, String)>,
    routes: BTreeMap<String, String>,
    /// The configuration that was run last.
    ran: Option<String>,
    /// How many requests changed something.
    changes: usize,
    /// What the user says to a question for a yes.
    yes: bool,
    /// The number of the request that fails, if any.
    fails_at: usize,
    /// How many requests there were.
    requests: usize,
}

impl Machine {
    fn new() -> Machine {
        Machine {
            metadata: Metadata::new(),
            configs: BTreeMap::new(),
            tunnels: Vec::new(),
            routes: BTreeMap::new(),
            ran: None,
            changes: 0,
            yes: true,
            fails_at: usize::MAX,
            requests: 0,
        }
    }

    fn cloudflared(&mut self, args: &[String]) -> Event {
        let words: Vec<&str> = args.iter().map(|s| s.as_str()).collect();
        let mut stdout = String::new();
        let mut success = true;
        match words.as_slice() {
            ["tunnel", "create", name] => {
                let id = format!("id-{}", self.tunnels.len());
                stdout = format!("Created tunnel {name} with id {id}\n");
                self.tunnels.push((name.to_string(), id));
            }
            ["tunnel", "delete", id] => self.tunnels.retain(|t| t.1 != *id),
            ["tunnel", "route", "dns", "delete", hostname] => {
                success = self.routes.remove(*hostname).is_some();
            }
            ["tunnel", "route", "dns", name, hostname] => {
                self.routes.insert(hostname.to_string(), name.to_string());
            }
            other => panic!("{other:?}"),
        }
        Event::Output(CommandOutput {
            success,
            status: "exit status".to_string(),
            stdout: stdout.into_bytes(),
            stderr: vec![],
        })
    }

    fn carry_out(&mut self, request: Request) -> Event {
        self.requests += 1;
        if self.requests == self.fails_at {
            return Event::Failed;
        }
        if matches!(
            request,
            Request::RunCloudflared(_)
                | Request::WriteConfig { .. }
                | Request::SaveMetadata(_)
                | Request::RemoveFile(_)
        ) {
            self.changes += 1;
        }
        match request {
            Request::LoadMetadata => {
                Event::Loaded { home: "/h".to_string(), metadata: self.metadata.clone() }
            }
            Request::FetchTunnels => Event::Tunnels(
                self.tunnels
                    .iter()
                    .map(|(name, id)| CloudflaredTunnel {
                        id: id.clone(),
                        name: name.clone(),
                        created_at: String::new(),
                        connections: 0,
                    })
                    .collect(),
            ),
            Request::RunCloudflared(args) => self.cloudflared(&args),
            Request::RunTunnel(args) => {
                self.ran = Some(args[2].clone());
                Event::Exited { success: true, status: String::new() }
            }
            Request::Ask(question) => {
                Event::Answer(question.default.unwrap_or("typed.example.com".to_string()))
            }
            Request::Select { choices, .. } => Event::Answer(choices[0].value.clone()),
            Request::Confirm(_) => Event::Confirmed(self.yes),
            Request::WriteConfig { path, config } => {
                self.configs.insert(path, config);
                Event::Done
            }
            Request::SaveMetadata(metadata) => {
                self.metadata = metadata;
                Event::Done
            }
            Request::CheckExists(path) => Event::Exists(self.configs.contains_key(&path)),
            Request::RemoveFile(path) => {
                self.configs.remove(&path);
                Event::Done
            }
            Request::ReadFile(path) => Event::Content(format!("{:?}", self.configs[&path])),
            Request::Stop(_) => panic!("the command has ended"),
        }
    }

    fn run(&mut self, command: Command) -> Outcome {
        let (mut session, mut step) = Session::start(command);
        let mut events = 0;
        loop {
            let request = step.request;
            if let Request::Stop(outcome) = request {
                return outcome;
            }
            let event = self.carry_out(request);
            events += 1;
            assert!(events <= 10);
            (session, step) = session.step(event);
        }
    }

    /// Every managed tunnel has a configuration of its own, which runs it.
    fn consistent(&self) -> bool {
        let names = self.metadata.names();
        let mut paths: Vec<String> = Vec::new();
        let all = names.iter().all(|n| {
            let t = self.metadata.get(n).unwrap();
            paths.push(t.config_path.clone());
            match self.configs.get(&t.config_path) {
                Some(c) => {
                    c.tunnel == t.uuid
                        && c.ingress.len() == 2
                        && c.ingress[0].hostname == t.hostname
                        && c.ingress[0].service == t.service
                        && c.ingress[1].hostname.is_empty()
                        && c.ingress[1].service == "http_status:404"
                }
                None => false,
            }
        });
        paths.sort();
        paths.dedup();
        all && paths.len() == names.len()
    }
}

fn to_create(name: &str, hostname: &str, local: &str) -> Command {
    Command::Create(CreateArgs {
        name: Some(name.to_string()),
        hostname: Some(hostname.to_string()),
        local: Some(local.to_string()),
    })
}

fn to_delete(name: &str, cleanup: bool) -> Command {
    Command::Delete(DeleteArgs { name: Some(name.to_string()), cleanup })
}

fn to_update(name: &str, hostname: Option<&str>, local: Option<&str>) -> Command {
    Command::Update(UpdateArgs {
        name: Some(name.to_string()),
        hostname: hostname.map(String::from),
        local: local.map(String::from),
    })
}

fn nothing_said() -> Vec<Command> {
    vec![
        Command::Create(CreateArgs { name: None, hostname: None, local: None }),
        Command::Update(UpdateArgs { name: None, hostname: None, local: Some("99".to_string()) }),
        Command::Delete(DeleteArgs { name: None, cleanup: false }),
    ]
}

#[test]
fn files_stay_consistent() {
    let mut m = Machine::new();
    assert!(matches!(m.run(to_create("a", "a.example.com", "3000")), Outcome::Success));
    assert!(m.consistent());
    assert!(matches!(m.run(to_create("b", "b.example.com", "443")), Outcome::Success));
    assert!(m.consistent());
    m.run(to_update("a", Some("c.example.com"), Some("http://x")));
    assert!(m.consistent());
    m.run(to_delete("b", false));
    assert!(m.consistent());
    m.run(Command::Import(ImportArgs {
        name: "b".to_string(),
        hostname: "d.example.com".to_string(),
        local: "1".to_string(),
    }));
    assert!(m.consistent());
    m.run(to_delete("a", true));
    assert!(m.consistent());
    assert_eq!(m.metadata.names(), ["b"]);
    assert_eq!(m.metadata.get("b").unwrap().uuid, "id-1");
    assert_eq!(m.configs.len(), 1);
    assert_eq!(m.tunnels.len(), 1);
    assert_eq!(m.routes.get("d.example.com").map(|s| s.as_str()), Some("b"));
}

#[test]
fn metadata_is_spared() {
    let mut m = Machine::new();
    m.tunnels.push(("tunnels".to_string(), "id-x".to_string()));
    let import = Command::Import(ImportArgs {
        name: "tunnels".to_string(),
        hostname: "t.example.com".to_string(),
        local: "1".to_string(),
    });
    assert!(matches!(m.run(import), Outcome::Failure(_)));
    m.tunnels.clear();
    assert!(matches!(m.run(to_create("tunnels", "t.example.com", "1")), Outcome::Failure(_)));
    assert_eq!(m.changes, 0);
    m.run(to_create("a", "a.example.com", "3000"));
    m.run(to_update("a", Some("b.example.com"), None));
    assert!(!m.configs.contains_key("/h/.cloudflared/cftun/tunnels.yaml"));
}

#[test]
fn a_config_is_not_shared() {
    let mut m = Machine::new();
    m.run(to_create("a", "a.example.com", "3000"));
    let before = m.changes;
    let outcome = m.run(to_create("/h/.cloudflared/cftun/a", "b.example.com", "1"));
    assert!(matches!(outcome, Outcome::Failure(_)));
    assert_eq!(m.changes, before);
    assert!(m.consistent());
}

#[test]
fn a_failed_creation_leaves_files_consistent() {
    for fails_at in 1..8 {
        let mut m = Machine::new();
        m.run(to_create("a", "a.example.com", "3000"));
        m.requests = 0;
        m.fails_at = fails_at;
        let outcome = m.run(to_create("b", "b.example.com", "3000"));
        assert!(m.consistent());
        assert_eq!(
            matches!(outcome, Outcome::Reported(None)),
            fails_at != 2 && fails_at < 7,
            "{fails_at}"
        );
    }
}

#[test]
fn a_failed_update_can_part_the_files() {
    let mut m = Machine::new();
    m.run(to_create("a", "a.example.com", "3000"));
    m.requests = 0;
    m.fails_at = 3;
    assert!(matches!(m.run(to_update("a", None, Some("1"))), Outcome::Reported(None)));
    assert!(!m.consistent());
}

#[test]
fn delete_undoes_create() {
    for cleanup in [false, true] {
        let mut m = Machine::new();
        m.run(to_create("a", "a.example.com", "3000"));
        let before = format!("{:?}", m.metadata);
        m.run(to_create("b", "b.example.com", "3000"));
        assert_ne!(format!("{:?}", m.metadata), before);
        m.run(to_delete("b", cleanup));
        assert_eq!(format!("{:?}", m.metadata), before);
        assert_eq!(m.tunnels.len(), if cleanup { 1 } else { 2 });
        assert_eq!(m.configs.len(), if cleanup { 1 } else { 2 });
        assert_eq!(m.routes.len(), if cleanup { 1 } else { 2 });
    }
}

#[test]
fn a_created_tunnel_runs_with_its_config() {
    let mut m = Machine::new();
    m.run(to_create("hook", "hook.example.com", "3000"));
    for _ in 0..2 {
        m.run(Command::Run(Some("hook".to_string())));
        let path = m.ran.take().unwrap();
        assert_eq!(path, "/h/.cloudflared/cftun/hook.yaml");
        assert_eq!(m.configs[&path].ingress[0].hostname, "hook.example.com");
        assert_eq!(m.configs[&path].ingress[0].service, "http://localhost:3000");
    }
}

#[test]
fn inspection_changes_nothing() {
    let mut m = Machine::new();
    m.run(to_create("a", "a.example.com", "3000"));
    let before = m.changes;
    m.run(Command::List);
    m.run(Command::Status);
    m.run(Command::Show("a".to_string()));
    m.run(Command::Run(None));
    assert_eq!(m.changes, before);
}

#[test]
fn a_no_changes_nothing() {
    for command in nothing_said() {
        let mut m = Machine::new();
        m.run(to_create("a", "a.example.com", "3000"));
        let before = m.changes;
        m.yes = false;
        assert!(matches!(m.run(command), Outcome::Success));
        assert_eq!(m.changes, before);
    }
}

#[test]
fn a_yes_changes_something() {
    for command in nothing_said() {
        let mut m = Machine::new();
        m.run(to_create("a", "a.example.com", "3000"));
        let before = m.changes;
        assert!(matches!(m.run(command), Outcome::Success));
        assert!(m.changes > before);
    }
}

#[test]
fn an_ended_command_stays_ended() {
    let (mut session, _) = Session::start(Command::List);
    for _ in 0..12 {
        let (next, _) = session.step(Event::Failed);
        session = next;
    }
    let (_, step) = session.step(Event::Tunnels(vec![]));
    assert!(matches!(step.request, Request::Stop(Outcome::Reported(None))));
}

#[test]
fn update_is_never_without_a_change() {
    let mut m = Machine::new();
    m.run(to_create("a", "a.example.com", "3000"));
    let before = m.changes;
    assert!(matches!(m.run(to_update("a", None, None)), Outcome::Success));
    assert_eq!(m.changes, before);
}

#[test]
fn each_tunnel_is_created_once() {
    let mut m = Machine::new();
    m.run(to_create("a", "a.example.com", "3000"));
    let before = m.changes;
    assert!(matches!(m.run(to_create("a", "b.example.com", "1")), Outcome::Failure(_)));
    assert_eq!(m.changes, before);
}
