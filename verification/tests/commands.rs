use cftun::cloudflared::{CloudflaredTunnel, CommandOutput};
use cftun::create::{Create, CreateArgs};
use cftun::delete::DeleteArgs;
use cftun::dialog::{Event, Notice, Outcome, Request, Step, Style};
use cftun::error::Error;
use cftun::import::{Import, ImportArgs};
use cftun::metadata::{Metadata, TunnelMeta};
use cftun::session::{Command, Session};
use cftun::update::{Update, UpdateArgs};

const HOME: &str = "/home/me";

/// A command that is being run.
struct Play {
    session: Option<Session>,
    step: Step,
}

impl Play {
    fn new(command: Command) -> Play {
        let (session, step) = Session::start(command);
        Play { session: Some(session), step }
    }

    fn answer(&mut self, event: Event) -> &mut Play {
        let (session, step) = self.session.take().unwrap().step(event);
        self.session = Some(session);
        self.step = step;
        self
    }

    /// What was shown last.
    fn shown(&self) -> Vec<String> {
        self.step.notices.iter().map(text).collect()
    }

    /// What is asked for.
    fn asked(&self) -> String {
        match &self.step.request {
            Request::RunCloudflared(args) => format!("cloudflared {}", args.join(" ")),
            Request::RunTunnel(args) => format!("run {}", args.join(" ")),
            Request::Ask(q) => {
                format!("ask {} [{}] {:?} {:?}", q.prompt, q.placeholder, q.default, q.suggestions)
            }
            Request::Select { message, search, choices } => {
                let values: Vec<&str> = choices.iter().map(|c| c.value.as_str()).collect();
                format!("select {message} {search} {values:?}")
            }
            Request::Confirm(text) => format!("confirm {text}"),
            Request::WriteConfig { path, config } => {
                let rules: Vec<String> =
                    config.ingress.iter().map(|r| format!("{}={}", r.hostname, r.service)).collect();
                format!(
                    "write {path} {} {} {}",
                    config.tunnel,
                    config.credentials_file,
                    rules.join(" ")
                )
            }
            Request::SaveMetadata(m) => format!("save {}", noted(m)),
            Request::CheckExists(path) => format!("exists {path}"),
            Request::RemoveFile(path) => format!("remove {path}"),
            Request::ReadFile(path) => format!("read {path}"),
            Request::Stop(Outcome::Success) => "success".to_string(),
            Request::Stop(Outcome::Failure(e)) => format!("failure {}", e.message()),
            Request::Stop(Outcome::Reported(context)) => format!("reported {context:?}"),
            Request::LoadMetadata => "load".to_string(),
            Request::FetchTunnels => "fetch".to_string(),
        }
    }
}

fn text(notice: &Notice) -> String {
    match notice {
        Notice::Line(spans) => spans
            .iter()
            .map(|s| match s.style {
                Style::Plain => s.text.clone(),
                style => format!("<{style:?} {}>", s.text),
            })
            .collect(),
        Notice::Intro(t) => format!("intro {t}"),
        Notice::SpinnerStart(t) => format!("start {t}"),
        Notice::SpinnerStop(t) => format!("stop {t}"),
        Notice::Outro(t) => format!("outro {t}"),
        Notice::OutroCancel(t) => format!("cancel {t}"),
        Notice::OutroNote { title, body } => format!("note {title}|{body}"),
    }
}

fn noted(m: &Metadata) -> String {
    let entries: Vec<String> = m
        .names()
        .iter()
        .map(|n| {
            let t = m.get(n).unwrap();
            format!("{n}:{},{},{},{}", t.uuid, t.hostname, t.service, t.config_path)
        })
        .collect();
    entries.join(" ")
}

fn kept(names: &[&str]) -> Metadata {
    let mut m = Metadata::new();
    for n in names {
        m.insert(
            n.to_string(),
            TunnelMeta {
                uuid: format!("id-{n}"),
                hostname: format!("{n}.example.com"),
                service: "http://localhost:1".to_string(),
                config_path: format!("/c/{n}.yaml"),
            },
        );
    }
    m
}

fn loaded(names: &[&str]) -> Event {
    Event::Loaded { home: HOME.to_string(), metadata: kept(names) }
}

fn tunnels(names: &[&str]) -> Event {
    Event::Tunnels(
        names
            .iter()
            .map(|n| CloudflaredTunnel {
                id: format!("cf-{n}"),
                name: n.to_string(),
                created_at: "then".to_string(),
                connections: 0,
            })
            .collect(),
    )
}

fn printed(stdout: &str) -> Event {
    Event::Output(CommandOutput {
        success: true,
        status: "exit status: 0".to_string(),
        stdout: stdout.as_bytes().to_vec(),
        stderr: vec![],
    })
}

fn failed_run() -> Event {
    Event::Output(CommandOutput {
        success: false,
        status: "exit status: 1".to_string(),
        stdout: b"o\n".to_vec(),
        stderr: b"e\n".to_vec(),
    })
}

fn answer(s: &str) -> Event {
    Event::Answer(s.to_string())
}

fn some(s: &str) -> Option<String> {
    Some(s.to_string())
}

fn create(name: Option<&str>, hostname: Option<&str>, local: Option<&str>) -> Play {
    Play::new(Command::Create(CreateArgs {
        name: name.map(String::from),
        hostname: hostname.map(String::from),
        local: local.map(String::from),
    }))
}

fn update(name: Option<&str>, hostname: Option<&str>, local: Option<&str>) -> Play {
    Play::new(Command::Update(UpdateArgs {
        name: name.map(String::from),
        hostname: hostname.map(String::from),
        local: local.map(String::from),
    }))
}

fn delete(name: Option<&str>, cleanup: bool) -> Play {
    Play::new(Command::Delete(DeleteArgs { name: name.map(String::from), cleanup }))
}

fn import(name: &str, hostname: &str, local: &str) -> Play {
    Play::new(Command::Import(ImportArgs {
        name: name.to_string(),
        hostname: hostname.to_string(),
        local: local.to_string(),
    }))
}

#[test]
fn create_from_the_command_line() {
    let mut p = create(Some("hook"), Some("hook.example.com"), Some("3000"));
    assert_eq!(p.asked(), "load");
    p.answer(loaded(&["old"]));
    assert_eq!(p.asked(), "fetch");
    p.answer(tunnels(&["other"]));
    assert_eq!(p.shown(), ["<Cyan →> Creating cloudflared tunnel 'hook'..."]);
    assert_eq!(p.asked(), "cloudflared tunnel create hook");
    p.answer(printed("Created tunnel hook with id 12-34\n"));
    assert_eq!(
        p.shown(),
        [
            "  Created tunnel UUID: <Dimmed 12-34>",
            "<Cyan →> Routing hook.example.com → hook...",
        ]
    );
    assert_eq!(p.asked(), "cloudflared tunnel route dns hook hook.example.com");
    p.answer(printed(""));
    assert!(p.shown().is_empty());
    assert_eq!(
        p.asked(),
        "write /home/me/.cloudflared/cftun/hook.yaml 12-34 /home/me/.cloudflared/12-34.json hook.example.com=http://localhost:3000 =http_status:404"
    );
    p.answer(Event::Done);
    assert_eq!(
        p.asked(),
        "save hook:12-34,hook.example.com,http://localhost:3000,/home/me/.cloudflared/cftun/hook.yaml old:id-old,old.example.com,http://localhost:1,/c/old.yaml"
    );
    p.answer(Event::Done);
    assert_eq!(
        p.shown(),
        [
            "<Green ✓> Tunnel 'hook' ready.",
            "  Public URL:   <GreenUnderlined https://hook.example.com>",
            "  Local target: <Dimmed http://localhost:3000>",
            "  Run it with:  <Cyan cftun run hook>",
        ]
    );
    assert_eq!(p.asked(), "success");
}

#[test]
fn create_in_a_dialog() {
    let mut p = create(None, None, None);
    p.answer(loaded(&[])).answer(tunnels(&["taken"]));
    assert_eq!(p.shown(), ["intro Create a new tunnel"]);
    assert_eq!(p.asked(), "ask Tunnel name [e.g. my-dev-tunnel] None []");
    match &p.step.request {
        Request::Ask(q) => {
            assert!(q.check.verdict("taken").is_err());
            assert!(q.check.verdict("hook").is_ok());
        }
        other => panic!("{other:?}"),
    }
    p.answer(answer("hook"));
    assert_eq!(p.asked(), "ask Public hostname [e.g. webhook.example.com] None []");
    p.answer(answer("hook.example.com"));
    assert_eq!(
        p.asked(),
        "ask Local service [e.g. 3000 or http://localhost:3000] None [\"3000\", \"8080\", \"8443\", \"http://localhost:3000\", \"http://localhost:8080\"]"
    );
    p.answer(answer("8443"));
    assert_eq!(
        p.asked(),
        "confirm Create tunnel 'hook' → https://hook.example.com → https://localhost:8443?"
    );
    p.answer(Event::Confirmed(true));
    assert_eq!(p.shown(), ["start Creating tunnel 'hook'..."]);
    p.answer(printed("Created tunnel hook with id 7"));
    assert_eq!(
        p.shown(),
        ["stop Created: 7", "start Routing DNS hook.example.com → hook..."]
    );
    p.answer(printed(""));
    assert_eq!(p.shown(), ["stop DNS route created"]);
    p.answer(Event::Done).answer(Event::Done);
    assert_eq!(
        p.shown(),
        ["note Tunnel 'hook' is ready!|Public URL:   https://hook.example.com\nLocal target: https://localhost:8443\nRun it with:  cftun run hook"]
    );
    assert_eq!(p.asked(), "success");
}

#[test]
fn create_asks_only_for_what_is_missing() {
    let mut p = create(Some("hook"), None, Some("3000"));
    p.answer(loaded(&[])).answer(Event::Failed);
    assert_eq!(p.shown(), ["intro Create a new tunnel"]);
    assert!(p.asked().starts_with("ask Public hostname"));
    p.answer(answer("h.example.com"));
    assert!(p.asked().starts_with("confirm Create tunnel 'hook'"));
}

#[test]
fn create_can_be_cancelled() {
    let mut p = create(None, Some("h.example.com"), Some("3000"));
    p.answer(loaded(&[])).answer(tunnels(&[])).answer(answer("hook"));
    p.answer(Event::Confirmed(false));
    assert_eq!(p.shown(), ["cancel Cancelled."]);
    assert_eq!(p.asked(), "success");
}

#[test]
fn create_refuses_a_listed_name() {
    let mut p = create(Some("both"), Some("h.example.com"), Some("3000"));
    p.answer(loaded(&["both"])).answer(tunnels(&["both"]));
    assert_eq!(
        p.asked(),
        "failure a cloudflared tunnel named 'both' already exists. pick a different name or import it with `cftun import both <hostname> <port/url>`"
    );
}

#[test]
fn create_refuses_a_managed_name() {
    let mut p = create(Some("mine"), Some("h.example.com"), Some("3000"));
    p.answer(loaded(&["mine"])).answer(tunnels(&["other"]));
    assert_eq!(
        p.asked(),
        "failure tunnel 'mine' already exists in cftun. run `cftun list` to see it"
    );
}

#[test]
fn create_refuses_a_reserved_name() {
    let refusal = "failure the name 'tunnels' is reserved: its config would replace the metadata of cftun. pick a different name";
    let mut p = create(Some("tunnels"), Some("h.example.com"), Some("3000"));
    p.answer(loaded(&[])).answer(tunnels(&[]));
    assert_eq!(p.asked(), refusal);
    let mut p = create(None, Some("h.example.com"), Some("3000"));
    p.answer(loaded(&[])).answer(tunnels(&[]));
    match &p.step.request {
        Request::Ask(q) => assert!(q.check.verdict("tunnels").is_err()),
        other => panic!("{other:?}"),
    }
    p.answer(answer("tunnels"));
    assert_eq!(p.asked(), refusal);
}

#[test]
fn import_refuses_a_reserved_name() {
    let mut p = import("tunnels", "h.example.com", "1");
    p.answer(loaded(&["web"]));
    assert_eq!(
        p.asked(),
        "failure the name 'tunnels' is reserved: its config would replace the metadata of cftun. pick a different name"
    );
    let mut p = import("/home/me/.cloudflared/cftun/tunnels", "h.example.com", "1");
    p.answer(loaded(&[]));
    assert!(p.asked().starts_with("failure the name '/home/me/.cloudflared/cftun/tunnels' is "));
}

#[test]
fn create_takes_a_name_as_it_was_typed() {
    let mut p = create(None, Some("h.example.com"), Some("3000"));
    p.answer(loaded(&[])).answer(tunnels(&[]));
    match &p.step.request {
        Request::Ask(q) => assert!(q.check.verdict(" tunnels").is_ok()),
        other => panic!("{other:?}"),
    }
    p.answer(answer(" tunnels")).answer(Event::Confirmed(true));
    p.answer(printed("with id 1")).answer(printed(""));
    assert!(p.asked().starts_with("write /home/me/.cloudflared/cftun/ tunnels.yaml 1 "));
}

#[test]
fn no_config_replaces_that_of_another_tunnel() {
    let mut p = create(Some("/c/web"), Some("h.example.com"), Some("3000"));
    p.answer(loaded(&["api", "web"])).answer(tunnels(&[]));
    let refusal = "failure the name '/c/web' is taken: its config would replace that of another tunnel. pick a different name";
    assert_eq!(p.asked(), refusal);
    let mut p = import("/c/web", "h.example.com", "1");
    p.answer(loaded(&["api", "web"]));
    assert_eq!(p.asked(), refusal);
    let mut p = import("/c/web", "h.example.com", "1");
    p.answer(loaded(&["api"]));
    assert_eq!(p.asked(), "fetch");
}

#[test]
fn asked_or_not_create_does_the_same() {
    let rest = || vec![printed("with id 1"), printed(""), Event::Done, Event::Done];
    let mut said = create(Some("n"), Some("h.example.com"), Some("1"));
    said.answer(loaded(&["web"])).answer(tunnels(&["x"]));
    let mut asked = create(None, None, None);
    asked.answer(loaded(&["web"])).answer(tunnels(&["x"])).answer(answer("n"));
    asked.answer(answer("h.example.com")).answer(answer("1")).answer(Event::Confirmed(true));
    assert_eq!(asked.asked(), said.asked());
    for (a, b) in rest().into_iter().zip(rest()) {
        assert_eq!(asked.answer(a).asked(), said.answer(b).asked());
    }
    assert_eq!(said.asked(), "success");
}

#[test]
fn asked_delete_ignores_cleanup() {
    for mode in ["local", "full"] {
        let mut with = delete(None, true);
        let mut without = delete(None, false);
        for p in [&mut with, &mut without] {
            p.answer(loaded(&["web"])).answer(answer("web")).answer(answer(mode));
            p.answer(Event::Confirmed(true));
        }
        assert_eq!(with.asked(), without.asked());
        assert_eq!(with.shown(), without.shown());
    }
}

#[test]
fn create_fails_with_cloudflared() {
    let start = || {
        let mut p = create(Some("hook"), Some("h.example.com"), Some("3000"));
        p.answer(loaded(&[])).answer(tunnels(&[]));
        p
    };
    let mut p = start();
    p.answer(failed_run());
    assert_eq!(
        p.asked(),
        "failure cloudflared tunnel create hook failed (exit status: 1):\nstdout: o\nstderr: e"
    );
    let mut p = start();
    p.answer(printed("nothing to read"));
    assert_eq!(p.asked(), "failure could not parse tunnel UUID from cloudflared output");
    let mut p = start();
    p.answer(printed("with id 1")).answer(failed_run());
    assert_eq!(
        p.asked(),
        "failure cloudflared tunnel route dns hook h.example.com failed (exit status: 1):\nstdout: o\nstderr: e"
    );
    let mut p = start();
    p.answer(Event::Failed);
    assert_eq!(p.asked(), "reported None");
    let mut p = start();
    p.answer(printed("with id 1")).answer(printed("")).answer(Event::Failed);
    assert_eq!(p.asked(), "reported None");
    p.answer(Event::Done);
    assert_eq!(p.asked(), "reported None");
}

#[test]
fn list_goes_on_without_cloudflared() {
    let mut p = Play::new(Command::List);
    assert_eq!(p.asked(), "fetch");
    p.answer(Event::Failed);
    assert_eq!(p.asked(), "load");
    p.answer(loaded(&["web"]));
    assert_eq!(p.shown().len(), 4);
    assert_eq!(
        p.shown()[1],
        "  <Cyan •> <Bold web> → <Green https://web.example.com> (<Dimmed http://localhost:1>) [<Dimmed offline>]"
    );
    assert_eq!(p.asked(), "success");
}

#[test]
fn status_needs_cloudflared() {
    let mut p = Play::new(Command::Status);
    p.answer(Event::Failed);
    assert_eq!(p.asked(), "reported None");
    let mut p = Play::new(Command::Status);
    p.answer(tunnels(&["a"])).answer(loaded(&[]));
    assert_eq!(p.shown()[1], "  <Dimmed Total tunnels: >1");
    assert_eq!(p.asked(), "success");
}

#[test]
fn show_prints_the_config() {
    let mut p = Play::new(Command::Show("web".to_string()));
    p.answer(loaded(&["web"]));
    assert_eq!(p.asked(), "read /c/web.yaml");
    p.answer(Event::Content("tunnel: id-web\n".to_string()));
    assert_eq!(
        p.shown(),
        ["<Cyan ●> Config for '<Bold web>' (/c/web.yaml):", "tunnel: id-web\n"]
    );
    assert_eq!(p.asked(), "success");
}

#[test]
fn show_needs_a_managed_tunnel() {
    let mut p = Play::new(Command::Show("web".to_string()));
    p.answer(loaded(&["api"]));
    assert_eq!(
        p.asked(),
        "failure tunnel 'web' not found. run `cftun list` to see available tunnels (or import it with `cftun import <name> <hostname> <port/url>`)"
    );
}

#[test]
fn run_starts_cloudflared_with_the_config() {
    let mut p = Play::new(Command::Run(some("web")));
    p.answer(loaded(&["web"]));
    assert_eq!(
        p.shown(),
        [
            "<Cyan →> Starting tunnel 'web' → <Green https://web.example.com> → <Dimmed http://localhost:1>",
            "",
        ]
    );
    assert_eq!(p.asked(), "run tunnel --config /c/web.yaml run");
    p.answer(Event::Exited { success: true, status: "exit status: 0".to_string() });
    assert_eq!(p.asked(), "success");
}

#[test]
fn run_lets_choose() {
    let mut p = Play::new(Command::Run(None));
    p.answer(loaded(&["web", "api"]));
    assert_eq!(p.asked(), "select Select a tunnel to run true [\"api\", \"web\"]");
    p.answer(answer("api"));
    assert_eq!(p.asked(), "run tunnel --config /c/api.yaml run");
    p.answer(Event::Exited { success: false, status: "exit status: 2".to_string() });
    assert_eq!(p.asked(), "failure cloudflared exited with exit status: 2");
}

#[test]
fn run_needs_a_tunnel() {
    let mut p = Play::new(Command::Run(None));
    p.answer(loaded(&[]));
    assert_eq!(
        p.asked(),
        "failure no tunnels managed by cftun. create one with `cftun create`"
    );
    let mut p = Play::new(Command::Run(some("x")));
    p.answer(loaded(&["web"]));
    assert!(p.asked().starts_with("failure tunnel 'x' not found. "));
}

#[test]
fn import_adopts_a_tunnel() {
    let mut p = import("ext", "ext.example.com", "8080");
    p.answer(loaded(&["web"]));
    assert_eq!(p.asked(), "fetch");
    p.answer(tunnels(&["web", "ext"]));
    assert_eq!(p.shown(), ["<Cyan →> Routing DNS ext.example.com → ext..."]);
    assert_eq!(p.asked(), "cloudflared tunnel route dns delete ext.example.com");
    p.answer(failed_run());
    assert_eq!(p.asked(), "cloudflared tunnel route dns ext ext.example.com");
    p.answer(printed(""));
    assert_eq!(
        p.asked(),
        "write /home/me/.cloudflared/cftun/ext.yaml cf-ext /home/me/.cloudflared/cf-ext.json ext.example.com=http://localhost:8080 =http_status:404"
    );
    p.answer(Event::Done);
    assert_eq!(
        p.asked(),
        "save ext:cf-ext,ext.example.com,http://localhost:8080,/home/me/.cloudflared/cftun/ext.yaml web:id-web,web.example.com,http://localhost:1,/c/web.yaml"
    );
    p.answer(Event::Done);
    assert_eq!(
        p.shown(),
        [
            "<Green ✓> Tunnel 'ext' imported.",
            "  Public URL:   <GreenUnderlined https://ext.example.com>",
            "  Local target: <Dimmed http://localhost:8080>",
            "  Run it with:  <Cyan cftun run ext>",
        ]
    );
    assert_eq!(p.asked(), "success");
}

#[test]
fn import_refuses_what_is_managed_or_unknown() {
    let mut p = import("web", "h.example.com", "1");
    p.answer(loaded(&["web"]));
    assert_eq!(p.asked(), "failure tunnel 'web' is already managed by cftun");
    let mut p = import("ext", "h.example.com", "1");
    p.answer(loaded(&["web"])).answer(tunnels(&["web"]));
    assert_eq!(
        p.asked(),
        "failure no cloudflared tunnel named 'ext' found. run `cftun list` to see existing tunnels"
    );
    let mut p = import("ext", "h.example.com", "1");
    p.answer(loaded(&[])).answer(Event::Failed);
    assert_eq!(p.asked(), "reported Some(\"fetching cloudflared tunnels\")");
    let mut p = import("ext", "h.example.com", "1");
    p.answer(loaded(&[])).answer(tunnels(&["ext"])).answer(Event::Failed).answer(failed_run());
    assert!(p.asked().starts_with("failure cloudflared tunnel route dns ext h.example.com failed"));
}

#[test]
fn import_takes_the_first_of_a_name() {
    let mut p = import("ext", "h.example.com", "1");
    let twice = |id: &str| CloudflaredTunnel {
        id: id.to_string(),
        name: "ext".to_string(),
        created_at: String::new(),
        connections: 0,
    };
    p.answer(loaded(&[])).answer(Event::Tunnels(vec![twice("1"), twice("2")]));
    p.answer(printed("")).answer(printed(""));
    assert!(p.asked().starts_with("write /home/me/.cloudflared/cftun/ext.yaml 1 "));
}

#[test]
fn update_of_the_hostname() {
    let mut p = update(Some("web"), Some("new.example.com"), None);
    p.answer(loaded(&["api", "web"]));
    assert_eq!(
        p.shown(),
        ["<Cyan →> Updating DNS route: web.example.com → new.example.com..."]
    );
    assert_eq!(p.asked(), "cloudflared tunnel route dns delete web.example.com");
    p.answer(Event::Failed);
    assert_eq!(p.asked(), "cloudflared tunnel route dns web new.example.com");
    p.answer(printed(""));
    assert_eq!(
        p.asked(),
        "write /c/web.yaml id-web /home/me/.cloudflared/id-web.json new.example.com=http://localhost:1 =http_status:404"
    );
    p.answer(Event::Done);
    assert_eq!(
        p.asked(),
        "save api:id-api,api.example.com,http://localhost:1,/c/api.yaml web:id-web,new.example.com,http://localhost:1,/c/web.yaml"
    );
    p.answer(Event::Done);
    assert_eq!(
        p.shown(),
        [
            "<Green ✓> Tunnel 'web' updated.",
            "  Public URL:   <GreenUnderlined https://new.example.com>",
            "  Local target: <Dimmed http://localhost:1>",
        ]
    );
    assert_eq!(p.asked(), "success");
}

#[test]
fn update_of_the_service_touches_no_route() {
    let mut p = update(Some("web"), Some("web.example.com"), Some("443"));
    p.answer(loaded(&["web"]));
    assert!(p.shown().is_empty());
    assert_eq!(
        p.asked(),
        "write /c/web.yaml id-web /home/me/.cloudflared/id-web.json web.example.com=https://localhost:443 =http_status:404"
    );
}

#[test]
fn update_in_a_dialog() {
    let mut p = update(None, None, None);
    p.answer(loaded(&["web", "api"]));
    assert_eq!(p.shown(), ["intro Update a tunnel"]);
    assert_eq!(p.asked(), "select Select a tunnel to update true [\"api\", \"web\"]");
    p.answer(answer("web"));
    assert_eq!(
        p.asked(),
        "ask New hostname [e.g. webhook.example.com] Some(\"web.example.com\") []"
    );
    p.answer(answer("new.example.com"));
    assert_eq!(
        p.asked(),
        "ask New local service [e.g. 3000 or http://localhost:3000] Some(\"http://localhost:1\") [\"3000\", \"8080\", \"8443\", \"http://localhost:3000\", \"http://localhost:8080\"]"
    );
    p.answer(answer("8080"));
    assert_eq!(
        p.asked(),
        "confirm Update tunnel 'web'?  https://new.example.com → http://localhost:8080"
    );
    p.answer(Event::Confirmed(true));
    assert_eq!(
        p.shown(),
        ["start Updating DNS route: web.example.com → new.example.com..."]
    );
    p.answer(failed_run());
    assert!(p.shown().is_empty());
    p.answer(printed(""));
    assert_eq!(p.shown(), ["stop DNS route updated", "start Writing config..."]);
    p.answer(Event::Done).answer(Event::Done);
    assert_eq!(
        p.shown(),
        [
            "stop Config updated",
            "note Tunnel 'web' updated!|Public URL:   https://new.example.com\nLocal target: http://localhost:8080",
        ]
    );
    assert_eq!(p.asked(), "success");
}

#[test]
fn update_without_a_change_ends() {
    let mut p = update(Some("web"), None, None);
    p.answer(loaded(&["web"]));
    p.answer(answer("web.example.com")).answer(answer("http://localhost:1"));
    assert_eq!(p.shown(), ["cancel No changes to make."]);
    assert_eq!(p.asked(), "success");
}

#[test]
fn update_can_be_cancelled() {
    let mut p = update(Some("web"), None, None);
    p.answer(loaded(&["web"])).answer(answer("web.example.com")).answer(answer("9"));
    p.answer(Event::Confirmed(false));
    assert_eq!(p.shown(), ["cancel Cancelled."]);
    assert_eq!(p.asked(), "success");
}

#[test]
fn update_needs_a_managed_tunnel() {
    let mut p = update(None, None, None);
    p.answer(loaded(&[]));
    assert_eq!(
        p.shown(),
        [
            "intro Update a tunnel",
            "cancel No tunnels to update. Create one with `cftun create`.",
        ]
    );
    assert_eq!(p.asked(), "success");
    let mut p = update(Some("x"), Some("h.example.com"), None);
    p.answer(loaded(&["web"]));
    assert!(p.asked().starts_with("failure tunnel 'x' not found. "));
}

#[test]
fn update_stops_where_the_route_fails() {
    let mut p = update(Some("web"), Some("n.example.com"), None);
    p.answer(loaded(&["web"])).answer(printed("")).answer(failed_run());
    assert_eq!(
        p.asked(),
        "failure cloudflared tunnel route dns web n.example.com failed (exit status: 1):\nstdout: o\nstderr: e"
    );
}

#[test]
fn delete_from_the_metadata_alone() {
    let mut p = delete(Some("web"), false);
    p.answer(loaded(&["api", "web"]));
    assert_eq!(p.asked(), "save api:id-api,api.example.com,http://localhost:1,/c/api.yaml");
    p.answer(Event::Done);
    assert_eq!(
        p.shown(),
        ["<Green ✓> Tunnel 'web' removed from cftun metadata. Use <Cyan --cleanup> to also delete from Cloudflare."]
    );
    assert_eq!(p.asked(), "success");
}

#[test]
fn delete_with_cleanup() {
    let mut p = delete(Some("web"), true);
    p.answer(loaded(&["web"]));
    assert_eq!(p.shown(), ["<Cyan →> Deleting cloudflared tunnel 'web'..."]);
    assert_eq!(p.asked(), "cloudflared tunnel delete id-web");
    p.answer(failed_run());
    assert_eq!(p.shown(), ["<Cyan →> Removing DNS route web.example.com..."]);
    assert_eq!(p.asked(), "cloudflared tunnel route dns delete web.example.com");
    p.answer(Event::Failed);
    assert_eq!(p.asked(), "exists /c/web.yaml");
    p.answer(Event::Exists(true));
    assert_eq!(p.asked(), "remove /c/web.yaml");
    p.answer(Event::Done);
    assert_eq!(p.asked(), "save ");
    p.answer(Event::Done);
    assert_eq!(p.shown(), ["<Green ✓> Tunnel 'web' removed."]);
    assert_eq!(p.asked(), "success");
}

#[test]
fn delete_in_a_dialog() {
    let mut p = delete(None, false);
    p.answer(loaded(&["web"]));
    assert_eq!(p.shown(), ["intro Delete a tunnel"]);
    assert_eq!(p.asked(), "select Select a tunnel to delete true [\"web\"]");
    p.answer(answer("web"));
    assert_eq!(p.asked(), "select Cleanup mode false [\"local\", \"full\"]");
    p.answer(answer("full"));
    assert_eq!(p.asked(), "confirm Delete tunnel 'web'?");
    p.answer(Event::Confirmed(true));
    assert_eq!(p.shown(), ["start Deleting tunnel 'web' from Cloudflare..."]);
    p.answer(printed(""));
    assert_eq!(p.shown(), ["stop Deleted", "start Removing DNS route web.example.com..."]);
    p.answer(printed(""));
    assert_eq!(p.shown(), ["stop Removed"]);
    p.answer(Event::Exists(true));
    assert_eq!(p.shown(), ["start Removing config file..."]);
    p.answer(Event::Done);
    assert_eq!(p.shown(), ["stop Removed"]);
    p.answer(Event::Done);
    assert_eq!(p.shown(), ["outro Tunnel 'web' fully deleted."]);
    assert_eq!(p.asked(), "success");
}

#[test]
fn delete_keeps_the_tunnel_in_a_dialog() {
    let mut p = delete(None, true);
    p.answer(loaded(&["web"])).answer(answer("web")).answer(answer("local"));
    assert_eq!(p.asked(), "confirm Remove tunnel 'web'?");
    p.answer(Event::Confirmed(true));
    assert_eq!(p.asked(), "save ");
    p.answer(Event::Done);
    assert_eq!(p.shown(), ["outro Removed 'web' from cftun. Still exists in Cloudflare."]);
}

#[test]
fn delete_can_be_cancelled() {
    let mut p = delete(None, false);
    p.answer(loaded(&["web"])).answer(answer("web")).answer(answer("full"));
    p.answer(Event::Confirmed(false));
    assert_eq!(p.shown(), ["cancel Cancelled."]);
    assert_eq!(p.asked(), "success");
}

#[test]
fn delete_needs_a_managed_tunnel() {
    let mut p = delete(None, false);
    p.answer(loaded(&[]));
    assert_eq!(p.shown(), ["intro Delete a tunnel", "cancel No tunnels managed by cftun."]);
    assert_eq!(p.asked(), "success");
    let mut p = delete(Some("x"), true);
    p.answer(loaded(&["web"]));
    assert_eq!(
        p.asked(),
        "failure tunnel 'x' not found in cftun metadata. run `cftun list` to see available tunnels (or import it with `cftun import x <hostname> <port/url>`)"
    );
}

#[test]
fn delete_without_a_config_goes_on() {
    let mut p = delete(Some("web"), true);
    p.answer(loaded(&["web"])).answer(printed("")).answer(printed("")).answer(Event::Exists(false));
    assert_eq!(p.asked(), "save ");
}

#[test]
fn delete_stops_where_the_config_stays() {
    let mut p = delete(Some("web"), true);
    p.answer(loaded(&["web"])).answer(printed("")).answer(printed("")).answer(Event::Exists(true));
    p.answer(Event::Failed);
    assert_eq!(p.asked(), "reported None");
}

#[test]
fn text_of_cloudflared_decides() {
    let fresh = || {
        let args = CreateArgs { name: some("n"), hostname: some("h"), local: some("1") };
        let (c, _) = Create::start(args);
        let (c, _) = c.step(loaded(&[]));
        let (c, _) = c.step(tunnels(&[]));
        c
    };
    let (c, step) = fresh().announced(Ok("x with id 12\n".to_string()));
    match step.request {
        Request::RunCloudflared(args) => assert_eq!(args, ["tunnel", "route", "dns", "n", "h"]),
        other => panic!("{other:?}"),
    }
    let (_, step) = c.connected(Ok(String::new()));
    match step.request {
        Request::WriteConfig { path, config } => {
            assert_eq!(path, "/home/me/.cloudflared/cftun/n.yaml");
            assert_eq!(config.tunnel, "12");
        }
        other => panic!("{other:?}"),
    }
    let (_, step) = fresh().announced(Ok("x".to_string()));
    assert!(matches!(step.request, Request::Stop(Outcome::Failure(Error::UuidNotFound))));
    let (_, step) = fresh().announced(Err(Error::NoTunnels));
    assert!(matches!(step.request, Request::Stop(Outcome::Failure(Error::NoTunnels))));
    let (_, step) = fresh().connected(Err(Error::NoTunnels));
    assert!(matches!(step.request, Request::Stop(Outcome::Failure(Error::NoTunnels))));
}

#[test]
fn route_of_cloudflared_decides() {
    for good in [true, false] {
        let said = || if good { Ok(String::new()) } else { Err(Error::NoTunnels) };
        let args = UpdateArgs { name: some("web"), hostname: some("h"), local: None };
        let (u, _) = Update::start(args);
        let (u, _) = u.step(loaded(&["web"]));
        let (_, step) = u.connected(said());
        assert_eq!(matches!(step.request, Request::WriteConfig { .. }), good);
        let args = ImportArgs {
            name: "ext".to_string(),
            hostname: "h".to_string(),
            local: "1".to_string(),
        };
        let (i, _) = Import::start(args);
        let (i, _) = i.step(loaded(&[]));
        let (i, _) = i.step(tunnels(&["ext"]));
        let (_, step) = i.connected(said());
        assert_eq!(matches!(step.request, Request::WriteConfig { .. }), good);
    }
}
