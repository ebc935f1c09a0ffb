//! Creating a tunnel and pointing a host name to it.
use crate::cloudflared::{
    checked, cloudflared_ok, create_args, create_args_of, parse_uuid, result_view, route_args,
    route_args_of, uuid_of, CloudflaredTunnel, CloudflaredTunnelView, CommandOutput, CommandOutputView,
};
use crate::config::{config_of, new_tunnel, tunnel_config, tunnel_of};
use crate::dialog::{
    dimmed, ending, failing, plain, put_span, quiet, reported, Check, CheckView, Event, EventView,
    Notice, NoticeView, Question, QuestionView, Request, RequestView, Step, StepView, Style,
};
use crate::error::{Error, ErrorView};
use crate::metadata::{claims, listing, Metadata, TunnelMetaView};
use crate::paths::{config_path, config_path_of, is_reserved, name_reserved};
use crate::report::{
    arrow_line, arrow_notice, is_listed, local_target_line, local_target_notice, name_listed,
    public_url_line, public_url_notice, run_hint_line, run_hint_notice, tick_line, tick_notice,
};
use crate::service::{normalize_service, service_url};
use crate::text::{cat2, cat3, cat5, fresh, put, put_text};
use vstd::prelude::*;

verus! {

/// What the user said on the command line.
#[derive(Debug)]
pub struct CreateArgs {
    pub name: Option<String>,
    pub hostname: Option<String>,
    pub local: Option<String>,
}

/// The texts of [`CreateArgs`].
pub struct CreateArgsView {
    pub name: Option<Seq<char>>,
    pub hostname: Option<Seq<char>>,
    pub local: Option<Seq<char>>,
}

impl View for CreateArgs {
    type V = CreateArgsView;

    open spec fn view(&self) -> CreateArgsView {
        CreateArgsView {
            name: self.name.deep_view(),
            hostname: self.hostname.deep_view(),
            local: self.local.deep_view(),
        }
    }
}

impl CreateArgsView {
    /// Whether the user is asked for what is missing.
    pub open spec fn interactive(self) -> bool {
        self.name is None || self.hostname is None || self.local is None
    }
}

/// What the command waits for.
#[derive(Clone, Copy, Debug, PartialEq, Eq, Structural)]
pub enum CreatePhase {
    Loading,
    Fetching,
    AskingName,
    AskingHostname,
    AskingLocal,
    Confirming,
    Creating,
    Routing,
    Writing,
    Saving,
    Stopped,
}

/// The command on its way. A text that is not known yet is empty.
#[derive(Debug)]
pub struct Create {
    phase: CreatePhase,
    args: CreateArgs,
    home: String,
    metadata: Metadata,
    tunnels: Vec<CloudflaredTunnel>,
    name: String,
    hostname: String,
    local: String,
    uuid: String,
}

/// The contents of [`Create`].
pub struct CreateView {
    pub phase: CreatePhase,
    pub args: CreateArgsView,
    pub home: Seq<char>,
    pub metadata: Map<Seq<char>, TunnelMetaView>,
    pub tunnels: Seq<CloudflaredTunnelView>,
    pub name: Seq<char>,
    pub hostname: Seq<char>,
    pub local: Seq<char>,
    pub uuid: Seq<char>,
}

impl View for Create {
    type V = CreateView;

    closed spec fn view(&self) -> CreateView {
        CreateView {
            phase: self.phase,
            args: self.args@,
            home: self.home@,
            metadata: self.metadata@,
            tunnels: self.tunnels.deep_view(),
            name: self.name@,
            hostname: self.hostname@,
            local: self.local@,
            uuid: self.uuid@,
        }
    }
}

/// The question for the name: one that is neither managed nor listed nor reserved.
pub open spec fn name_question(
    home: Seq<char>,
    metadata: Map<Seq<char>, TunnelMetaView>,
    tunnels: Seq<CloudflaredTunnelView>,
) -> QuestionView {
    QuestionView {
        prompt: "Tunnel name"@,
        placeholder: "e.g. my-dev-tunnel"@,
        default: None,
        suggestions: Seq::empty(),
        check: CheckView::NewName {
            managed: listing(metadata),
            listed: tunnels.map_values(|t: CloudflaredTunnelView| t.name),
            home,
        },
    }
}

/// The question for the host name.
pub open spec fn hostname_question() -> QuestionView {
    QuestionView {
        prompt: "Public hostname"@,
        placeholder: "e.g. webhook.example.com"@,
        default: None,
        suggestions: Seq::empty(),
        check: CheckView::Hostname,
    }
}

/// Local services that are suggested.
pub open spec fn suggested_services() -> Seq<Seq<char>> {
    Seq::empty().push("3000"@).push("8080"@).push("8443"@).push("http://localhost:3000"@).push(
        "http://localhost:8080"@,
    )
}

/// The question for the local service.
pub open spec fn local_question() -> QuestionView {
    QuestionView {
        prompt: "Local service"@,
        placeholder: "e.g. 3000 or http://localhost:3000"@,
        default: None,
        suggestions: suggested_services(),
        check: CheckView::Anything,
    }
}

/// `s`, ended.
pub open spec fn create_stopped(s: CreateView) -> CreateView {
    CreateView { phase: CreatePhase::Stopped, ..s }
}

/// The command at its start.
pub open spec fn create_start(args: CreateArgsView) -> (CreateView, StepView) {
    (
        CreateView {
            phase: CreatePhase::Loading,
            args,
            home: Seq::empty(),
            metadata: Map::empty(),
            tunnels: Seq::empty(),
            name: Seq::empty(),
            hostname: Seq::empty(),
            local: Seq::empty(),
            uuid: Seq::empty(),
        },
        quiet(RequestView::LoadMetadata),
    )
}

/// The title of the dialog, where there is one.
pub open spec fn create_intro(args: CreateArgsView) -> Seq<NoticeView> {
    if args.interactive() {
        Seq::empty().push(NoticeView::Intro("Create a new tunnel"@))
    } else {
        Seq::empty()
    }
}

/// Once the tunnels are known: the name is asked for, unless it was given.
pub open spec fn create_fetched(
    s: CreateView,
    tunnels: Seq<CloudflaredTunnelView>,
) -> (CreateView, StepView) {
    let s = CreateView { tunnels, ..s };
    let notices = create_intro(s.args);
    match s.args.name {
        Some(name) => create_named(s, notices, name),
        None => (
            CreateView { phase: CreatePhase::AskingName, ..s },
            StepView {
                notices,
                request: RequestView::Ask(name_question(s.home, s.metadata, s.tunnels)),
            },
        ),
    }
}

/// Once the name is known: it must be free and so must the path of its
/// configuration, and the host name is asked for, unless it was given.
pub open spec fn create_named(
    s: CreateView,
    notices: Seq<NoticeView>,
    name: Seq<char>,
) -> (CreateView, StepView) {
    let s = CreateView { name, ..s };
    if is_listed(s.tunnels, name) {
        (create_stopped(s), failing(notices, ErrorView::TunnelExists { name }))
    } else if s.metadata.contains_key(name) {
        (create_stopped(s), failing(notices, ErrorView::NameInUse { name }))
    } else if is_reserved(s.home, name) {
        (create_stopped(s), failing(notices, ErrorView::ReservedName { name }))
    } else if claims(s.metadata, config_path_of(s.home, name)) {
        (create_stopped(s), failing(notices, ErrorView::ConfigInUse { name }))
    } else {
        match s.args.hostname {
            Some(hostname) => create_hosted(s, notices, hostname),
            None => (
                CreateView { phase: CreatePhase::AskingHostname, ..s },
                StepView { notices, request: RequestView::Ask(hostname_question()) },
            ),
        }
    }
}

/// Once the host name is known: the service is asked for, unless it was given.
pub open spec fn create_hosted(
    s: CreateView,
    notices: Seq<NoticeView>,
    hostname: Seq<char>,
) -> (CreateView, StepView) {
    let s = CreateView { hostname, ..s };
    match s.args.local {
        Some(local) => create_served(s, notices, local),
        None => (
            CreateView { phase: CreatePhase::AskingLocal, ..s },
            StepView { notices, request: RequestView::Ask(local_question()) },
        ),
    }
}

/// Once the service is known: a user who was asked is asked for a yes.
pub open spec fn create_served(
    s: CreateView,
    notices: Seq<NoticeView>,
    local: Seq<char>,
) -> (CreateView, StepView) {
    let s = CreateView { local, ..s };
    if s.args.interactive() {
        (
            CreateView { phase: CreatePhase::Confirming, ..s },
            StepView {
                notices,
                request: RequestView::Confirm(
                    "Create tunnel '"@ + s.name + "' → https://"@ + s.hostname + " → "@
                        + service_url(s.local) + "?"@,
                ),
            },
        )
    } else {
        create_execute(s, notices)
    }
}

/// Once everything is settled: cloudflared creates the tunnel.
pub open spec fn create_execute(s: CreateView, notices: Seq<NoticeView>) -> (CreateView, StepView) {
    let notice = if s.args.interactive() {
        NoticeView::SpinnerStart("Creating tunnel '"@ + s.name + "'..."@)
    } else {
        arrow_line(" Creating cloudflared tunnel '"@ + s.name + "'..."@)
    };
    (
        CreateView { phase: CreatePhase::Creating, ..s },
        StepView {
            notices: notices.push(notice),
            request: RequestView::RunCloudflared(create_args_of(s.name)),
        },
    )
}

/// Once cloudflared was told to create the tunnel.
pub open spec fn create_created(s: CreateView, output: CommandOutputView) -> (
    CreateView,
    StepView,
) {
    create_announced(s, checked(create_args_of(s.name), output))
}

/// Once it is known what cloudflared said of the new tunnel: the id is read, and
/// the host name is routed.
pub open spec fn create_announced(s: CreateView, said: Result<Seq<char>, ErrorView>) -> (
    CreateView,
    StepView,
) {
    match said {
        Err(e) => (create_stopped(s), failing(Seq::empty(), e)),
        Ok(text) => match uuid_of(text) {
            None => (create_stopped(s), failing(Seq::empty(), ErrorView::UuidNotFound)),
            Some(uuid) => {
                let route = s.hostname + " → "@ + s.name + "..."@;
                let notices = if s.args.interactive() {
                    Seq::empty().push(NoticeView::SpinnerStop("Created: "@ + uuid)).push(
                        NoticeView::SpinnerStart("Routing DNS "@ + route),
                    )
                } else {
                    Seq::empty().push(
                        NoticeView::Line(
                            Seq::empty().push(plain("  Created tunnel UUID: "@)).push(
                                dimmed(uuid),
                            ),
                        ),
                    ).push(arrow_line(" Routing "@ + route))
                };
                (
                    CreateView { phase: CreatePhase::Routing, uuid, ..s },
                    StepView {
                        notices,
                        request: RequestView::RunCloudflared(route_args_of(s.name, s.hostname)),
                    },
                )
            },
        },
    }
}

/// Once cloudflared was told to route the host name.
pub open spec fn create_routed(s: CreateView, output: CommandOutputView) -> (CreateView, StepView) {
    create_connected(s, checked(route_args_of(s.name, s.hostname), output))
}

/// Once it is known whether the host name is routed: the configuration is written.
pub open spec fn create_connected(s: CreateView, said: Result<Seq<char>, ErrorView>) -> (
    CreateView,
    StepView,
) {
    match said {
        Err(e) => (create_stopped(s), failing(Seq::empty(), e)),
        Ok(_) => (
            CreateView { phase: CreatePhase::Writing, ..s },
            StepView {
                notices: if s.args.interactive() {
                    Seq::empty().push(NoticeView::SpinnerStop("DNS route created"@))
                } else {
                    Seq::empty()
                },
                request: RequestView::WriteConfig {
                    path: config_path_of(s.home, s.name),
                    config: config_of(s.home, s.uuid, s.hostname, service_url(s.local)),
                },
            },
        ),
    }
}

/// Once the configuration is written: the tunnel is noted.
pub open spec fn create_written(s: CreateView) -> (CreateView, StepView) {
    (
        CreateView { phase: CreatePhase::Saving, ..s },
        quiet(
            RequestView::SaveMetadata(
                s.metadata.insert(
                    s.name,
                    tunnel_of(s.home, s.name, s.uuid, s.hostname, s.local),
                ),
            ),
        ),
    )
}

/// What is said of a tunnel that cftun has taken on: `what` was done, where it
/// is found, and how to run it.
pub open spec fn ready_lines(
    name: Seq<char>,
    what: Seq<char>,
    hostname: Seq<char>,
    service: Seq<char>,
) -> Seq<NoticeView> {
    Seq::empty().push(tick_line(" Tunnel '"@ + name + what)).push(public_url_line(hostname)).push(
        local_target_line(service),
    ).push(run_hint_line(name))
}

/// Once the tunnel is noted: the user is told.
pub open spec fn create_saved(s: CreateView) -> (CreateView, StepView) {
    let service = service_url(s.local);
    let notices = if s.args.interactive() {
        Seq::empty().push(
            NoticeView::OutroNote {
                title: "Tunnel '"@ + s.name + "' is ready!"@,
                body: "Public URL:   https://"@ + s.hostname + "\nLocal target: "@ + service
                    + "\nRun it with:  cftun run "@ + s.name,
            },
        )
    } else {
        ready_lines(s.name, "' ready."@, s.hostname, service)
    };
    (create_stopped(s), ending(notices))
}

/// The command after `event`. An event that does not answer the request, as where
/// it could not be carried out, ends the command; only a list of tunnels that is
/// not to be had is taken for an empty one.
pub open spec fn create_step(s: CreateView, event: EventView) -> (CreateView, StepView) {
    match (s.phase, event) {
        (CreatePhase::Loading, EventView::Loaded { home, metadata }) => (
            CreateView { phase: CreatePhase::Fetching, home, metadata, ..s },
            quiet(RequestView::FetchTunnels),
        ),
        (CreatePhase::Fetching, EventView::Tunnels(tunnels)) => create_fetched(s, tunnels),
        (CreatePhase::Fetching, _) => create_fetched(s, Seq::empty()),
        (CreatePhase::AskingName, EventView::Answer(name)) => create_named(s, Seq::empty(), name),
        (CreatePhase::AskingHostname, EventView::Answer(hostname)) => create_hosted(
            s,
            Seq::empty(),
            hostname,
        ),
        (CreatePhase::AskingLocal, EventView::Answer(local)) => create_served(
            s,
            Seq::empty(),
            local,
        ),
        (CreatePhase::Confirming, EventView::Confirmed(yes)) => if yes {
            create_execute(s, Seq::empty())
        } else {
            (
                create_stopped(s),
                ending(Seq::empty().push(NoticeView::OutroCancel("Cancelled."@))),
            )
        },
        (CreatePhase::Creating, EventView::Output(output)) => create_created(s, output),
        (CreatePhase::Routing, EventView::Output(output)) => create_routed(s, output),
        (CreatePhase::Writing, EventView::Done) => create_written(s),
        (CreatePhase::Saving, EventView::Done) => create_saved(s),
        _ => (create_stopped(s), reported()),
    }
}

/// Local services that are suggested.
pub fn service_suggestions() -> (r: Vec<String>)
    ensures
        r.deep_view() == suggested_services(),
{
    let mut v = fresh();
    put_text(&mut v, "3000");
    put_text(&mut v, "8080");
    put_text(&mut v, "8443");
    put_text(&mut v, "http://localhost:3000");
    put_text(&mut v, "http://localhost:8080");
    v
}

/// The names of the tunnels that cloudflared lists.
fn listed_names(tunnels: &Vec<CloudflaredTunnel>) -> (r: Vec<String>)
    ensures
        r.deep_view() == tunnels.deep_view().map_values(|t: CloudflaredTunnelView| t.name),
{
    let mut out: Vec<String> = Vec::new();
    let mut i: usize = 0;
    while i < tunnels.len()
        invariant
            i <= tunnels.len(),
            out.len() == i,
            forall|j: int| 0 <= j < i ==> (#[trigger] out@[j])@ == tunnels@[j].name@,
        decreases tunnels.len() - i,
    {
        out.push(tunnels[i].name.clone());
        i += 1;
    }
    assert(out.deep_view() =~= tunnels.deep_view().map_values(|t: CloudflaredTunnelView| t.name));
    out
}

/// What is said of a tunnel that cftun has taken on.
pub fn ready_notices(name: &str, what: &str, hostname: &str, service: &str) -> (r: Vec<Notice>)
    ensures
        r.deep_view() == ready_lines(name@, what@, hostname@, service@),
{
    let mut notices = fresh();
    put(&mut notices, tick_notice(cat3(" Tunnel '", name, what).as_str()));
    put(&mut notices, public_url_notice(hostname));
    put(&mut notices, local_target_notice(service));
    put(&mut notices, run_hint_notice(name));
    notices
}

impl Create {
    /// Starts the command.
    pub fn start(args: CreateArgs) -> (r: (Create, Step))
        ensures
            (r.0@, r.1@) == create_start(args@),
    {
        (
            Create {
                phase: CreatePhase::Loading,
                args,
                home: String::new(),
                metadata: Metadata::new(),
                tunnels: fresh(),
                name: String::new(),
                hostname: String::new(),
                local: String::new(),
                uuid: String::new(),
            },
            Step::quiet(Request::LoadMetadata),
        )
    }

    /// Whether the user is asked for what is missing.
    fn interactive(&self) -> (r: bool)
        ensures
            r == self@.args.interactive(),
    {
        self.args.name.is_none() || self.args.hostname.is_none() || self.args.local.is_none()
    }

    /// Ends the command with `step`.
    fn stop(self, step: Step) -> (r: (Create, Step))
        ensures
            (r.0@, r.1) == (create_stopped(self@), step),
    {
        (Create { phase: CreatePhase::Stopped, ..self }, step)
    }

    fn fetched(self, tunnels: Vec<CloudflaredTunnel>) -> (r: (Create, Step))
        ensures
            (r.0@, r.1@) == create_fetched(self@, tunnels.deep_view()),
    {
        let s = Create { tunnels, ..self };
        let mut notices = fresh();
        if s.interactive() {
            put(&mut notices, Notice::Intro("Create a new tunnel".to_string()));
        }
        match s.args.name.clone() {
            Some(name) => s.named(notices, name),
            None => {
                let question = Question {
                    prompt: "Tunnel name".to_string(),
                    placeholder: "e.g. my-dev-tunnel".to_string(),
                    default: None,
                    suggestions: fresh(),
                    check: Check::NewName {
                        managed: s.metadata.names(),
                        listed: listed_names(&s.tunnels),
                        home: s.home.clone(),
                    },
                };
                (
                    Create { phase: CreatePhase::AskingName, ..s },
                    Step { notices, request: Request::Ask(question) },
                )
            },
        }
    }

    fn named(self, notices: Vec<Notice>, name: String) -> (r: (Create, Step))
        ensures
            (r.0@, r.1@) == create_named(self@, notices.deep_view(), name@),
    {
        let s = Create { name: name.clone(), ..self };
        if name_listed(&s.tunnels, &name) {
            s.stop(Step::failing(notices, Error::TunnelExists { name }))
        } else if s.metadata.contains_key(name.as_str()) {
            s.stop(Step::failing(notices, Error::NameInUse { name }))
        } else if name_reserved(s.home.as_str(), name.as_str()) {
            s.stop(Step::failing(notices, Error::ReservedName { name }))
        } else if s.metadata.has_config_at(&config_path(s.home.as_str(), name.as_str())) {
            s.stop(Step::failing(notices, Error::ConfigInUse { name }))
        } else {
            match s.args.hostname.clone() {
                Some(hostname) => s.hosted(notices, hostname),
                None => {
                    let question = Question {
                        prompt: "Public hostname".to_string(),
                        placeholder: "e.g. webhook.example.com".to_string(),
                        default: None,
                        suggestions: fresh(),
                        check: Check::Hostname,
                    };
                    (
                        Create { phase: CreatePhase::AskingHostname, ..s },
                        Step { notices, request: Request::Ask(question) },
                    )
                },
            }
        }
    }

    fn hosted(self, notices: Vec<Notice>, hostname: String) -> (r: (Create, Step))
        ensures
            (r.0@, r.1@) == create_hosted(self@, notices.deep_view(), hostname@),
    {
        let s = Create { hostname, ..self };
        match s.args.local.clone() {
            Some(local) => s.served(notices, local),
            None => {
                let question = Question {
                    prompt: "Local service".to_string(),
                    placeholder: "e.g. 3000 or http://localhost:3000".to_string(),
                    default: None,
                    suggestions: service_suggestions(),
                    check: Check::Anything,
                };
                (
                    Create { phase: CreatePhase::AskingLocal, ..s },
                    Step { notices, request: Request::Ask(question) },
                )
            },
        }
    }

    fn served(self, notices: Vec<Notice>, local: String) -> (r: (Create, Step))
        ensures
            (r.0@, r.1@) == create_served(self@, notices.deep_view(), local@),
    {
        let s = Create { local, ..self };
        if s.interactive() {
            let mut text = cat5(
                "Create tunnel '",
                s.name.as_str(),
                "' → https://",
                s.hostname.as_str(),
                " → ",
            );
            text.append(normalize_service(s.local.as_str()).as_str());
            text.append("?");
            (
                Create { phase: CreatePhase::Confirming, ..s },
                Step { notices, request: Request::Confirm(text) },
            )
        } else {
            s.execute(notices)
        }
    }

    fn execute(self, notices: Vec<Notice>) -> (r: (Create, Step))
        ensures
            (r.0@, r.1@) == create_execute(self@, notices.deep_view()),
    {
        let s = self;
        let mut notices = notices;
        if s.interactive() {
            put(
                &mut notices,
                Notice::SpinnerStart(cat3("Creating tunnel '", s.name.as_str(), "'...")),
            );
        } else {
            put(
                &mut notices,
                arrow_notice(
                    cat3(" Creating cloudflared tunnel '", s.name.as_str(), "'...").as_str(),
                ),
            );
        }
        let request = Request::RunCloudflared(create_args(s.name.as_str()));
        (Create { phase: CreatePhase::Creating, ..s }, Step { notices, request })
    }

    fn created(self, output: CommandOutput) -> (r: (Create, Step))
        ensures
            (r.0@, r.1@) == create_created(self@, output@),
    {
        let said = cloudflared_ok(&create_args(self.name.as_str()), &output);
        self.announced(said)
    }

    /// Goes on once it is known what cloudflared said of the new tunnel.
    pub fn announced(self, said: Result<String, Error>) -> (r: (Create, Step))
        ensures
            (r.0@, r.1@) == create_announced(self@, result_view(said)),
    {
        let s = self;
        match said {
            Err(e) => s.stop(Step::failing(fresh(), e)),
            Ok(text) => match parse_uuid(text.as_str()) {
                None => s.stop(Step::failing(fresh(), Error::UuidNotFound)),
                Some(uuid) => {
                    let mut route = cat3(s.hostname.as_str(), " → ", s.name.as_str());
                    route.append("...");
                    let mut notices = fresh();
                    if s.interactive() {
                        put(&mut notices, Notice::SpinnerStop(cat2("Created: ", uuid.as_str())));
                        put(
                            &mut notices,
                            Notice::SpinnerStart(cat2("Routing DNS ", route.as_str())),
                        );
                    } else {
                        let mut line = fresh();
                        put_span(&mut line, Style::Plain, "  Created tunnel UUID: ");
                        put_span(&mut line, Style::Dimmed, uuid.as_str());
                        put(&mut notices, Notice::Line(line));
                        put(&mut notices, arrow_notice(cat2(" Routing ", route.as_str()).as_str()));
                    }
                    let request = Request::RunCloudflared(
                        route_args(s.name.as_str(), s.hostname.as_str()),
                    );
                    (Create { phase: CreatePhase::Routing, uuid, ..s }, Step { notices, request })
                },
            },
        }
    }

    fn routed(self, output: CommandOutput) -> (r: (Create, Step))
        ensures
            (r.0@, r.1@) == create_routed(self@, output@),
    {
        let said = cloudflared_ok(&route_args(self.name.as_str(), self.hostname.as_str()), &output);
        self.connected(said)
    }

    /// Goes on once it is known whether the host name is routed.
    pub fn connected(self, said: Result<String, Error>) -> (r: (Create, Step))
        ensures
            (r.0@, r.1@) == create_connected(self@, result_view(said)),
    {
        let s = self;
        match said {
            Err(e) => s.stop(Step::failing(fresh(), e)),
            Ok(_) => {
                let mut notices = fresh();
                if s.interactive() {
                    put(&mut notices, Notice::SpinnerStop("DNS route created".to_string()));
                }
                let request = Request::WriteConfig {
                    path: config_path(s.home.as_str(), s.name.as_str()),
                    config: tunnel_config(
                        s.home.as_str(),
                        s.uuid.as_str(),
                        s.hostname.as_str(),
                        normalize_service(s.local.as_str()).as_str(),
                    ),
                };
                (Create { phase: CreatePhase::Writing, ..s }, Step { notices, request })
            },
        }
    }

    fn written(self) -> (r: (Create, Step))
        ensures
            (r.0@, r.1@) == create_written(self@),
    {
        let s = self;
        let tunnel = new_tunnel(
            s.home.as_str(),
            s.name.as_str(),
            s.uuid.as_str(),
            s.hostname.as_str(),
            s.local.as_str(),
        );
        let mut metadata = s.metadata.clone();
        metadata.insert(s.name.clone(), tunnel);
        (
            Create { phase: CreatePhase::Saving, ..s },
            Step::quiet(Request::SaveMetadata(metadata)),
        )
    }

    fn saved(self) -> (r: (Create, Step))
        ensures
            (r.0@, r.1@) == create_saved(self@),
    {
        let s = self;
        let service = normalize_service(s.local.as_str());
        if s.interactive() {
            let mut body = cat5(
                "Public URL:   https://",
                s.hostname.as_str(),
                "\nLocal target: ",
                service.as_str(),
                "\nRun it with:  cftun run ",
            );
            body.append(s.name.as_str());
            let mut notices = fresh();
            put(
                &mut notices,
                Notice::OutroNote {
                    title: cat3("Tunnel '", s.name.as_str(), "' is ready!"),
                    body,
                },
            );
            s.stop(Step::ending(notices))
        } else {
            let notices = ready_notices(
                s.name.as_str(),
                "' ready.",
                s.hostname.as_str(),
                service.as_str(),
            );
            s.stop(Step::ending(notices))
        }
    }

    /// Goes on after `event`.
    pub fn step(self, event: Event) -> (r: (Create, Step))
        ensures
            (r.0@, r.1@) == create_step(self@, event@),
    {
        match (self.phase, event) {
            (CreatePhase::Loading, Event::Loaded { home, metadata }) => (
                Create { phase: CreatePhase::Fetching, home, metadata, ..self },
                Step::quiet(Request::FetchTunnels),
            ),
            (CreatePhase::Fetching, Event::Tunnels(tunnels)) => self.fetched(tunnels),
            (CreatePhase::Fetching, _) => self.fetched(fresh()),
            (CreatePhase::AskingName, Event::Answer(name)) => self.named(fresh(), name),
            (CreatePhase::AskingHostname, Event::Answer(hostname)) => self.hosted(
                fresh(),
                hostname,
            ),
            (CreatePhase::AskingLocal, Event::Answer(local)) => self.served(fresh(), local),
            (CreatePhase::Confirming, Event::Confirmed(yes)) => if yes {
                self.execute(fresh())
            } else {
                let mut notices = fresh();
                put(&mut notices, Notice::OutroCancel("Cancelled.".to_string()));
                self.stop(Step::ending(notices))
            },
            (CreatePhase::Creating, Event::Output(output)) => self.created(output),
            (CreatePhase::Routing, Event::Output(output)) => self.routed(output),
            (CreatePhase::Writing, Event::Done) => self.written(),
            (CreatePhase::Saving, Event::Done) => self.saved(),
            _ => self.stop(Step::reported()),
        }
    }
}

} // verus!
