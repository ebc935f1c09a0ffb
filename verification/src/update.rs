//! Changing the host name or the local service of a tunnel.
use crate::cloudflared::{
    checked, cloudflared_ok, result_view, route_args, route_args_of, unroute_args,
    unroute_args_of, CommandOutput, CommandOutputView,
};
use crate::config::{config_of, tunnel_config};
use crate::create::{service_suggestions, suggested_services};
use crate::dialog::{
    ending, failing, quiet, reported, Check, CheckView, Event, EventView, Notice, NoticeView,
    Question, QuestionView, Request, RequestView, Step, StepView,
};
use crate::error::{Error, ErrorView};
use crate::metadata::{no_tunnel, no_tunnel_view, Metadata, TunnelMeta, TunnelMetaView};
use crate::report::{
    arrow_line, arrow_notice, local_target_line, local_target_notice, public_url_line,
    public_url_notice, select_tunnel_of, tick_line, tick_notice, tunnel_select_prompt,
};
use crate::service::{normalize_service, service_url};
use crate::text::{cat2, cat3, cat5, fresh, put};
use vstd::prelude::*;

verus! {

/// What the user said on the command line.
#[derive(Debug)]
pub struct UpdateArgs {
    pub name: Option<String>,
    pub hostname: Option<String>,
    pub local: Option<String>,
}

/// The texts of [`UpdateArgs`].
pub struct UpdateArgsView {
    pub name: Option<Seq<char>>,
    pub hostname: Option<Seq<char>>,
    pub local: Option<Seq<char>>,
}

impl View for UpdateArgs {
    type V = UpdateArgsView;

    open spec fn view(&self) -> UpdateArgsView {
        UpdateArgsView {
            name: self.name.deep_view(),
            hostname: self.hostname.deep_view(),
            local: self.local.deep_view(),
        }
    }
}

impl UpdateArgsView {
    /// Whether the user is asked for what is missing.
    pub open spec fn interactive(self) -> bool {
        self.name is None || (self.hostname is None && self.local is None)
    }
}

/// What the command waits for.
#[derive(Clone, Copy, Debug, PartialEq, Eq, Structural)]
pub enum UpdatePhase {
    Loading,
    Selecting,
    AskingHostname,
    AskingLocal,
    Confirming,
    Unrouting,
    Routing,
    Writing,
    Saving,
    Stopped,
}

/// The command on its way. A text that is not known yet is empty.
#[derive(Debug)]
pub struct Update {
    phase: UpdatePhase,
    args: UpdateArgs,
    home: String,
    metadata: Metadata,
    name: String,
    /// The tunnel before the update.
    tunnel: TunnelMeta,
    /// The host name to change to.
    hostname: Option<String>,
    /// The local service to change to.
    local: Option<String>,
}

/// The contents of [`Update`].
pub struct UpdateView {
    pub phase: UpdatePhase,
    pub args: UpdateArgsView,
    pub home: Seq<char>,
    pub metadata: Map<Seq<char>, TunnelMetaView>,
    pub name: Seq<char>,
    pub tunnel: TunnelMetaView,
    pub hostname: Option<Seq<char>>,
    pub local: Option<Seq<char>>,
}

impl View for Update {
    type V = UpdateView;

    closed spec fn view(&self) -> UpdateView {
        UpdateView {
            phase: self.phase,
            args: self.args@,
            home: self.home@,
            metadata: self.metadata@,
            name: self.name@,
            tunnel: self.tunnel@,
            hostname: self.hostname.deep_view(),
            local: self.local.deep_view(),
        }
    }
}

impl UpdateView {
    /// The host name after the update.
    pub open spec fn new_hostname(self) -> Seq<char> {
        match self.hostname {
            Some(hostname) => hostname,
            None => self.tunnel.hostname,
        }
    }

    /// The service after the update.
    pub open spec fn new_service(self) -> Seq<char> {
        match self.local {
            Some(local) => service_url(local),
            None => self.tunnel.service,
        }
    }

    /// The tunnel after the update.
    pub open spec fn new_tunnel(self) -> TunnelMetaView {
        TunnelMetaView {
            hostname: self.new_hostname(),
            service: self.new_service(),
            ..self.tunnel
        }
    }
}

/// The question for the new host name.
pub open spec fn new_hostname_question(hostname: Seq<char>) -> QuestionView {
    QuestionView {
        prompt: "New hostname"@,
        placeholder: "e.g. webhook.example.com"@,
        default: Some(hostname),
        suggestions: Seq::empty(),
        check: CheckView::Anything,
    }
}

/// The question for the new local service.
pub open spec fn new_local_question(service: Seq<char>) -> QuestionView {
    QuestionView {
        prompt: "New local service"@,
        placeholder: "e.g. 3000 or http://localhost:3000"@,
        default: Some(service),
        suggestions: suggested_services(),
        check: CheckView::Anything,
    }
}

/// `answer`, unless it is what is there already.
pub open spec fn unless_same(answer: Seq<char>, present: Seq<char>) -> Option<Seq<char>> {
    if answer == present {
        None
    } else {
        Some(answer)
    }
}

/// `s`, ended.
pub open spec fn update_stopped(s: UpdateView) -> UpdateView {
    UpdateView { phase: UpdatePhase::Stopped, ..s }
}

/// The command at its start.
pub open spec fn update_start(args: UpdateArgsView) -> (UpdateView, StepView) {
    (
        UpdateView {
            phase: UpdatePhase::Loading,
            args,
            home: Seq::empty(),
            metadata: Map::empty(),
            name: Seq::empty(),
            tunnel: no_tunnel_view(),
            hostname: None,
            local: None,
        },
        quiet(RequestView::LoadMetadata),
    )
}

/// The title of the dialog, where there is one.
pub open spec fn update_intro(args: UpdateArgsView) -> Seq<NoticeView> {
    if args.interactive() {
        Seq::empty().push(NoticeView::Intro("Update a tunnel"@))
    } else {
        Seq::empty()
    }
}

/// Once the tunnels are known: the user chooses one, unless it was named.
pub open spec fn update_loaded(s: UpdateView) -> (UpdateView, StepView) {
    let notices = update_intro(s.args);
    match s.args.name {
        Some(name) => update_named(s, notices, name),
        None => if s.metadata == Map::<Seq<char>, TunnelMetaView>::empty() {
            (
                update_stopped(s),
                ending(
                    notices.push(
                        NoticeView::OutroCancel(
                            "No tunnels to update. Create one with `cftun create`."@,
                        ),
                    ),
                ),
            )
        } else {
            (
                UpdateView { phase: UpdatePhase::Selecting, ..s },
                StepView {
                    notices,
                    request: select_tunnel_of("Select a tunnel to update"@, s.metadata),
                },
            )
        },
    }
}

/// Once the tunnel is named: it must be managed, and a user who is asked is asked
/// for the host name, unless it was given.
pub open spec fn update_named(
    s: UpdateView,
    notices: Seq<NoticeView>,
    name: Seq<char>,
) -> (UpdateView, StepView) {
    if !s.metadata.contains_key(name) {
        (update_stopped(s), failing(notices, ErrorView::NotFound { name }))
    } else {
        let s = UpdateView { name, tunnel: s.metadata[name], ..s };
        if s.args.hostname is None && s.args.interactive() {
            (
                UpdateView { phase: UpdatePhase::AskingHostname, ..s },
                StepView {
                    notices,
                    request: RequestView::Ask(new_hostname_question(s.tunnel.hostname)),
                },
            )
        } else {
            update_hosted(s, notices, s.args.hostname)
        }
    }
}

/// Once the host name is known: a user who is asked is asked for the service,
/// unless it was given.
pub open spec fn update_hosted(
    s: UpdateView,
    notices: Seq<NoticeView>,
    hostname: Option<Seq<char>>,
) -> (UpdateView, StepView) {
    let s = UpdateView { hostname, ..s };
    if s.args.local is None && s.args.interactive() {
        (
            UpdateView { phase: UpdatePhase::AskingLocal, ..s },
            StepView {
                notices,
                request: RequestView::Ask(new_local_question(s.tunnel.service)),
            },
        )
    } else {
        update_served(s, notices, s.args.local)
    }
}

/// Once the service is known: there must be something to change, and a user who
/// was asked is asked for a yes.
pub open spec fn update_served(
    s: UpdateView,
    notices: Seq<NoticeView>,
    local: Option<Seq<char>>,
) -> (UpdateView, StepView) {
    let s = UpdateView { local, ..s };
    if s.hostname is None && s.local is None {
        if s.args.interactive() {
            (
                update_stopped(s),
                ending(notices.push(NoticeView::OutroCancel("No changes to make."@))),
            )
        } else {
            (update_stopped(s), failing(notices, ErrorView::NothingToUpdate))
        }
    } else if s.args.interactive() {
        (
            UpdateView { phase: UpdatePhase::Confirming, ..s },
            StepView {
                notices,
                request: RequestView::Confirm(
                    "Update tunnel '"@ + s.name + "'?  https://"@ + s.new_hostname() + " → "@
                        + s.new_service(),
                ),
            },
        )
    } else {
        update_execute(s, notices)
    }
}

/// Once everything is settled: a new host name is routed in place of the old one.
pub open spec fn update_execute(s: UpdateView, notices: Seq<NoticeView>) -> (UpdateView, StepView) {
    if s.new_hostname() != s.tunnel.hostname {
        let change = "Updating DNS route: "@ + s.tunnel.hostname + " → "@ + s.new_hostname()
            + "..."@;
        let notice = if s.args.interactive() {
            NoticeView::SpinnerStart(change)
        } else {
            arrow_line(" "@ + change)
        };
        (
            UpdateView { phase: UpdatePhase::Unrouting, ..s },
            StepView {
                notices: notices.push(notice),
                request: RequestView::RunCloudflared(unroute_args_of(s.tunnel.hostname)),
            },
        )
    } else {
        update_write(s, notices)
    }
}

/// Once the old route is gone, or could not be removed: the new one is made.
pub open spec fn update_unrouted(s: UpdateView) -> (UpdateView, StepView) {
    (
        UpdateView { phase: UpdatePhase::Routing, ..s },
        quiet(RequestView::RunCloudflared(route_args_of(s.name, s.new_hostname()))),
    )
}

/// Once cloudflared was told to make the new route.
pub open spec fn update_routed(s: UpdateView, output: CommandOutputView) -> (UpdateView, StepView) {
    update_connected(s, checked(route_args_of(s.name, s.new_hostname()), output))
}

/// Once it is known whether the new route is made: the configuration is written.
pub open spec fn update_connected(s: UpdateView, said: Result<Seq<char>, ErrorView>) -> (
    UpdateView,
    StepView,
) {
    match said {
        Err(e) => (update_stopped(s), failing(Seq::empty(), e)),
        Ok(_) => update_write(
            s,
            if s.args.interactive() {
                Seq::empty().push(NoticeView::SpinnerStop("DNS route updated"@))
            } else {
                Seq::empty()
            },
        ),
    }
}

/// The configuration is written.
pub open spec fn update_write(s: UpdateView, notices: Seq<NoticeView>) -> (UpdateView, StepView) {
    (
        UpdateView { phase: UpdatePhase::Writing, ..s },
        StepView {
            notices: if s.args.interactive() {
                notices.push(NoticeView::SpinnerStart("Writing config..."@))
            } else {
                notices
            },
            request: RequestView::WriteConfig {
                path: s.tunnel.config_path,
                config: config_of(s.home, s.tunnel.uuid, s.new_hostname(), s.new_service()),
            },
        },
    )
}

/// Once the configuration is written: the change is noted.
pub open spec fn update_written(s: UpdateView) -> (UpdateView, StepView) {
    (
        UpdateView { phase: UpdatePhase::Saving, ..s },
        quiet(RequestView::SaveMetadata(s.metadata.insert(s.name, s.new_tunnel()))),
    )
}

/// Once the change is noted: the user is told.
pub open spec fn update_saved(s: UpdateView) -> (UpdateView, StepView) {
    let notices = if s.args.interactive() {
        Seq::empty().push(NoticeView::SpinnerStop("Config updated"@)).push(
            NoticeView::OutroNote {
                title: "Tunnel '"@ + s.name + "' updated!"@,
                body: "Public URL:   https://"@ + s.new_hostname() + "\nLocal target: "@
                    + s.new_service(),
            },
        )
    } else {
        Seq::empty().push(tick_line(" Tunnel '"@ + s.name + "' updated."@)).push(
            public_url_line(s.new_hostname()),
        ).push(local_target_line(s.new_service()))
    };
    (update_stopped(s), ending(notices))
}

/// The command after `event`. An event that does not answer the request, as where
/// it could not be carried out, ends the command; only that of removing the old
/// route does not matter.
pub open spec fn update_step(s: UpdateView, event: EventView) -> (UpdateView, StepView) {
    match (s.phase, event) {
        (UpdatePhase::Loading, EventView::Loaded { home, metadata }) => update_loaded(
            UpdateView { home, metadata, ..s },
        ),
        (UpdatePhase::Selecting, EventView::Answer(name)) => update_named(s, Seq::empty(), name),
        (UpdatePhase::AskingHostname, EventView::Answer(hostname)) => update_hosted(
            s,
            Seq::empty(),
            unless_same(hostname, s.tunnel.hostname),
        ),
        (UpdatePhase::AskingLocal, EventView::Answer(local)) => update_served(
            s,
            Seq::empty(),
            unless_same(local, s.tunnel.service),
        ),
        (UpdatePhase::Confirming, EventView::Confirmed(yes)) => if yes {
            update_execute(s, Seq::empty())
        } else {
            (
                update_stopped(s),
                ending(Seq::empty().push(NoticeView::OutroCancel("Cancelled."@))),
            )
        },
        (UpdatePhase::Unrouting, _) => update_unrouted(s),
        (UpdatePhase::Routing, EventView::Output(output)) => update_routed(s, output),
        (UpdatePhase::Writing, EventView::Done) => update_written(s),
        (UpdatePhase::Saving, EventView::Done) => update_saved(s),
        _ => (update_stopped(s), reported()),
    }
}

/// `answer`, unless it is what is there already.
fn unless_equal(answer: String, present: &String) -> (r: Option<String>)
    ensures
        r.deep_view() == unless_same(answer@, present@),
{
    if answer == *present {
        None
    } else {
        Some(answer)
    }
}

impl Update {
    /// Starts the command.
    pub fn start(args: UpdateArgs) -> (r: (Update, Step))
        ensures
            (r.0@, r.1@) == update_start(args@),
    {
        (
            Update {
                phase: UpdatePhase::Loading,
                args,
                home: String::new(),
                metadata: Metadata::new(),
                name: String::new(),
                tunnel: no_tunnel(),
                hostname: None,
                local: None,
            },
            Step::quiet(Request::LoadMetadata),
        )
    }

    /// Whether the user is asked for what is missing.
    fn interactive(&self) -> (r: bool)
        ensures
            r == self@.args.interactive(),
    {
        self.args.name.is_none() || (self.args.hostname.is_none() && self.args.local.is_none())
    }

    /// The host name after the update.
    fn new_hostname(&self) -> (r: String)
        ensures
            r@ == self@.new_hostname(),
    {
        match &self.hostname {
            Some(hostname) => hostname.clone(),
            None => self.tunnel.hostname.clone(),
        }
    }

    /// The service after the update.
    fn new_service(&self) -> (r: String)
        ensures
            r@ == self@.new_service(),
    {
        match &self.local {
            Some(local) => normalize_service(local.as_str()),
            None => self.tunnel.service.clone(),
        }
    }

    /// Ends the command with `step`.
    fn stop(self, step: Step) -> (r: (Update, Step))
        ensures
            (r.0@, r.1) == (update_stopped(self@), step),
    {
        (Update { phase: UpdatePhase::Stopped, ..self }, step)
    }

    fn loaded(self) -> (r: (Update, Step))
        ensures
            (r.0@, r.1@) == update_loaded(self@),
    {
        let s = self;
        let mut notices = fresh();
        if s.interactive() {
            put(&mut notices, Notice::Intro("Update a tunnel".to_string()));
        }
        match s.args.name.clone() {
            Some(name) => s.named(notices, name),
            None => {
                if s.metadata.is_empty() {
                    put(
                        &mut notices,
                        Notice::OutroCancel(
                            "No tunnels to update. Create one with `cftun create`.".to_string(),
                        ),
                    );
                    s.stop(Step::ending(notices))
                } else {
                    match tunnel_select_prompt("Select a tunnel to update", &s.metadata) {
                        Ok(request) => (
                            Update { phase: UpdatePhase::Selecting, ..s },
                            Step { notices, request },
                        ),
                        Err(e) => s.stop(Step::failing(notices, e)),
                    }
                }
            },
        }
    }

    fn named(self, notices: Vec<Notice>, name: String) -> (r: (Update, Step))
        ensures
            (r.0@, r.1@) == update_named(self@, notices.deep_view(), name@),
    {
        let s = self;
        let tunnel = match s.metadata.get(name.as_str()) {
            Some(tunnel) => tunnel.clone(),
            None => {
                return s.stop(Step::failing(notices, Error::NotFound { name }));
            },
        };
        let s = Update { name, tunnel, ..s };
        if s.args.hostname.is_none() && s.interactive() {
            let question = Question {
                prompt: "New hostname".to_string(),
                placeholder: "e.g. webhook.example.com".to_string(),
                default: Some(s.tunnel.hostname.clone()),
                suggestions: fresh(),
                check: Check::Anything,
            };
            (
                Update { phase: UpdatePhase::AskingHostname, ..s },
                Step { notices, request: Request::Ask(question) },
            )
        } else {
            let hostname = s.args.hostname.clone();
            s.hosted(notices, hostname)
        }
    }

    fn hosted(self, notices: Vec<Notice>, hostname: Option<String>) -> (r: (Update, Step))
        ensures
            (r.0@, r.1@) == update_hosted(self@, notices.deep_view(), hostname.deep_view()),
    {
        let s = Update { hostname, ..self };
        if s.args.local.is_none() && s.interactive() {
            let question = Question {
                prompt: "New local service".to_string(),
                placeholder: "e.g. 3000 or http://localhost:3000".to_string(),
                default: Some(s.tunnel.service.clone()),
                suggestions: service_suggestions(),
                check: Check::Anything,
            };
            (
                Update { phase: UpdatePhase::AskingLocal, ..s },
                Step { notices, request: Request::Ask(question) },
            )
        } else {
            let local = s.args.local.clone();
            s.served(notices, local)
        }
    }

    fn served(self, notices: Vec<Notice>, local: Option<String>) -> (r: (Update, Step))
        ensures
            (r.0@, r.1@) == update_served(self@, notices.deep_view(), local.deep_view()),
    {
        let s = Update { local, ..self };
        let mut notices = notices;
        if s.hostname.is_none() && s.local.is_none() {
            if s.interactive() {
                put(&mut notices, Notice::OutroCancel("No changes to make.".to_string()));
                s.stop(Step::ending(notices))
            } else {
                s.stop(Step::failing(notices, Error::NothingToUpdate))
            }
        } else if s.interactive() {
            let mut text = cat5(
                "Update tunnel '",
                s.name.as_str(),
                "'?  https://",
                s.new_hostname().as_str(),
                " → ",
            );
            text.append(s.new_service().as_str());
            (
                Update { phase: UpdatePhase::Confirming, ..s },
                Step { notices, request: Request::Confirm(text) },
            )
        } else {
            s.execute(notices)
        }
    }

    fn execute(self, notices: Vec<Notice>) -> (r: (Update, Step))
        ensures
            (r.0@, r.1@) == update_execute(self@, notices.deep_view()),
    {
        let s = self;
        let mut notices = notices;
        let hostname = s.new_hostname();
        if hostname != s.tunnel.hostname {
            let change = cat5(
                "Updating DNS route: ",
                s.tunnel.hostname.as_str(),
                " → ",
                hostname.as_str(),
                "...",
            );
            if s.interactive() {
                put(&mut notices, Notice::SpinnerStart(change));
            } else {
                put(
                    &mut notices,
                    arrow_notice(cat2(" ", change.as_str()).as_str()),
                );
            }
            let request = Request::RunCloudflared(unroute_args(s.tunnel.hostname.as_str()));
            (Update { phase: UpdatePhase::Unrouting, ..s }, Step { notices, request })
        } else {
            s.write_config(notices)
        }
    }

    fn unrouted(self) -> (r: (Update, Step))
        ensures
            (r.0@, r.1@) == update_unrouted(self@),
    {
        let s = self;
        let request = Request::RunCloudflared(
            route_args(s.name.as_str(), s.new_hostname().as_str()),
        );
        (Update { phase: UpdatePhase::Routing, ..s }, Step::quiet(request))
    }

    fn routed(self, output: CommandOutput) -> (r: (Update, Step))
        ensures
            (r.0@, r.1@) == update_routed(self@, output@),
    {
        let args = route_args(self.name.as_str(), self.new_hostname().as_str());
        let said = cloudflared_ok(&args, &output);
        self.connected(said)
    }

    /// Goes on once it is known whether the new route is made.
    pub fn connected(self, said: Result<String, Error>) -> (r: (Update, Step))
        ensures
            (r.0@, r.1@) == update_connected(self@, result_view(said)),
    {
        let s = self;
        match said {
            Err(e) => s.stop(Step::failing(fresh(), e)),
            Ok(_) => {
                let mut notices = fresh();
                if s.interactive() {
                    put(&mut notices, Notice::SpinnerStop("DNS route updated".to_string()));
                }
                s.write_config(notices)
            },
        }
    }

    fn write_config(self, notices: Vec<Notice>) -> (r: (Update, Step))
        ensures
            (r.0@, r.1@) == update_write(self@, notices.deep_view()),
    {
        let s = self;
        let mut notices = notices;
        if s.interactive() {
            put(&mut notices, Notice::SpinnerStart("Writing config...".to_string()));
        }
        let request = Request::WriteConfig {
            path: s.tunnel.config_path.clone(),
            config: tunnel_config(
                s.home.as_str(),
                s.tunnel.uuid.as_str(),
                s.new_hostname().as_str(),
                s.new_service().as_str(),
            ),
        };
        (Update { phase: UpdatePhase::Writing, ..s }, Step { notices, request })
    }

    fn written(self) -> (r: (Update, Step))
        ensures
            (r.0@, r.1@) == update_written(self@),
    {
        let s = self;
        let mut metadata = s.metadata.clone();
        let tunnel = TunnelMeta {
            uuid: s.tunnel.uuid.clone(),
            hostname: s.new_hostname(),
            service: s.new_service(),
            config_path: s.tunnel.config_path.clone(),
        };
        metadata.insert(s.name.clone(), tunnel);
        (
            Update { phase: UpdatePhase::Saving, ..s },
            Step::quiet(Request::SaveMetadata(metadata)),
        )
    }

    fn saved(self) -> (r: (Update, Step))
        ensures
            (r.0@, r.1@) == update_saved(self@),
    {
        let s = self;
        let hostname = s.new_hostname();
        let service = s.new_service();
        let mut notices = fresh();
        if s.interactive() {
            let mut body = cat3("Public URL:   https://", hostname.as_str(), "\nLocal target: ");
            body.append(service.as_str());
            put(&mut notices, Notice::SpinnerStop("Config updated".to_string()));
            put(
                &mut notices,
                Notice::OutroNote {
                    title: cat3("Tunnel '", s.name.as_str(), "' updated!"),
                    body,
                },
            );
        } else {
            put(
                &mut notices,
                tick_notice(cat3(" Tunnel '", s.name.as_str(), "' updated.").as_str()),
            );
            put(&mut notices, public_url_notice(hostname.as_str()));
            put(&mut notices, local_target_notice(service.as_str()));
        }
        s.stop(Step::ending(notices))
    }

    /// Goes on after `event`.
    pub fn step(self, event: Event) -> (r: (Update, Step))
        ensures
            (r.0@, r.1@) == update_step(self@, event@),
    {
        match (self.phase, event) {
            (UpdatePhase::Loading, Event::Loaded { home, metadata }) => {
                let s = Update { home, metadata, ..self };
                s.loaded()
            },
            (UpdatePhase::Selecting, Event::Answer(name)) => self.named(fresh(), name),
            (UpdatePhase::AskingHostname, Event::Answer(hostname)) => {
                let hostname = unless_equal(hostname, &self.tunnel.hostname);
                self.hosted(fresh(), hostname)
            },
            (UpdatePhase::AskingLocal, Event::Answer(local)) => {
                let local = unless_equal(local, &self.tunnel.service);
                self.served(fresh(), local)
            },
            (UpdatePhase::Confirming, Event::Confirmed(yes)) => if yes {
                self.execute(fresh())
            } else {
                let mut notices = fresh();
                put(&mut notices, Notice::OutroCancel("Cancelled.".to_string()));
                self.stop(Step::ending(notices))
            },
            (UpdatePhase::Unrouting, _) => self.unrouted(),
            (UpdatePhase::Routing, Event::Output(output)) => self.routed(output),
            (UpdatePhase::Writing, Event::Done) => self.written(),
            (UpdatePhase::Saving, Event::Done) => self.saved(),
            _ => self.stop(Step::reported()),
        }
    }
}

} // verus!
