//! Taking on a tunnel that exists in Cloudflare.
use crate::cloudflared::{
    checked, cloudflared_ok, result_view, route_args, route_args_of, unroute_args,
    unroute_args_of, CloudflaredTunnel, CloudflaredTunnelView, CommandOutput, CommandOutputView,
};
use crate::config::{config_of, new_tunnel, tunnel_config, tunnel_of};
use crate::create::{ready_lines, ready_notices};
use crate::dialog::{
    ending, failing, quiet, reported, Event, EventView, Outcome, OutcomeView, Request, RequestView,
    Step, StepView,
};
use crate::error::{Error, ErrorView};
use crate::metadata::{claims, Metadata, TunnelMetaView};
use crate::paths::{config_path, config_path_of, is_reserved, name_reserved};
use crate::report::{arrow_line, arrow_notice, is_listed};
use crate::service::{normalize_service, service_url};
use crate::text::{cat5, fresh, put};
use vstd::prelude::*;

verus! {

/// What the user said on the command line.
#[derive(Debug)]
pub struct ImportArgs {
    pub name: String,
    pub hostname: String,
    pub local: String,
}

/// The texts of [`ImportArgs`].
pub struct ImportArgsView {
    pub name: Seq<char>,
    pub hostname: Seq<char>,
    pub local: Seq<char>,
}

impl View for ImportArgs {
    type V = ImportArgsView;

    open spec fn view(&self) -> ImportArgsView {
        ImportArgsView { name: self.name@, hostname: self.hostname@, local: self.local@ }
    }
}

/// What the command waits for.
#[derive(Clone, Copy, Debug, PartialEq, Eq, Structural)]
pub enum ImportPhase {
    Loading,
    Fetching,
    Unrouting,
    Routing,
    Writing,
    Saving,
    Stopped,
}

/// The command on its way. A text that is not known yet is empty.
#[derive(Debug)]
pub struct Import {
    phase: ImportPhase,
    args: ImportArgs,
    home: String,
    metadata: Metadata,
    uuid: String,
}

/// The contents of [`Import`].
pub struct ImportView {
    pub phase: ImportPhase,
    pub args: ImportArgsView,
    pub home: Seq<char>,
    pub metadata: Map<Seq<char>, TunnelMetaView>,
    pub uuid: Seq<char>,
}

impl View for Import {
    type V = ImportView;

    closed spec fn view(&self) -> ImportView {
        ImportView {
            phase: self.phase,
            args: self.args@,
            home: self.home@,
            metadata: self.metadata@,
            uuid: self.uuid@,
        }
    }
}

/// The id of the first of `tunnels` with the name `name`.
pub open spec fn id_of(tunnels: Seq<CloudflaredTunnelView>, name: Seq<char>) -> Option<Seq<char>>
    decreases tunnels.len(),
{
    if tunnels.len() == 0 {
        None
    } else if tunnels[0].name == name {
        Some(tunnels[0].id)
    } else {
        id_of(tunnels.drop_first(), name)
    }
}

/// `s`, ended.
pub open spec fn import_stopped(s: ImportView) -> ImportView {
    ImportView { phase: ImportPhase::Stopped, ..s }
}

/// The command at its start.
pub open spec fn import_start(args: ImportArgsView) -> (ImportView, StepView) {
    (
        ImportView {
            phase: ImportPhase::Loading,
            args,
            home: Seq::empty(),
            metadata: Map::empty(),
            uuid: Seq::empty(),
        },
        quiet(RequestView::LoadMetadata),
    )
}

/// Once the tunnels that are managed are known: this one must not be, and the path
/// of its configuration must be free.
pub open spec fn import_loaded(s: ImportView) -> (ImportView, StepView) {
    if s.metadata.contains_key(s.args.name) {
        (
            import_stopped(s),
            failing(Seq::empty(), ErrorView::AlreadyManaged { name: s.args.name }),
        )
    } else if is_reserved(s.home, s.args.name) {
        (
            import_stopped(s),
            failing(Seq::empty(), ErrorView::ReservedName { name: s.args.name }),
        )
    } else if claims(s.metadata, config_path_of(s.home, s.args.name)) {
        (
            import_stopped(s),
            failing(Seq::empty(), ErrorView::ConfigInUse { name: s.args.name }),
        )
    } else {
        (ImportView { phase: ImportPhase::Fetching, ..s }, quiet(RequestView::FetchTunnels))
    }
}

/// Once the tunnels that exist are known: this one must, and its route is
/// removed.
pub open spec fn import_fetched(
    s: ImportView,
    tunnels: Seq<CloudflaredTunnelView>,
) -> (ImportView, StepView) {
    match id_of(tunnels, s.args.name) {
        None => (
            import_stopped(s),
            failing(Seq::empty(), ErrorView::NoSuchTunnel { name: s.args.name }),
        ),
        Some(uuid) => (
            ImportView { phase: ImportPhase::Unrouting, uuid, ..s },
            StepView {
                notices: Seq::empty().push(
                    arrow_line(
                        " Routing DNS "@ + s.args.hostname + " → "@ + s.args.name + "..."@,
                    ),
                ),
                request: RequestView::RunCloudflared(unroute_args_of(s.args.hostname)),
            },
        ),
    }
}

/// Once cloudflared was told to route the host name.
pub open spec fn import_routed(s: ImportView, output: CommandOutputView) -> (ImportView, StepView) {
    import_connected(s, checked(route_args_of(s.args.name, s.args.hostname), output))
}

/// Once it is known whether the host name is routed: the configuration is written.
pub open spec fn import_connected(s: ImportView, said: Result<Seq<char>, ErrorView>) -> (
    ImportView,
    StepView,
) {
    match said {
        Err(e) => (import_stopped(s), failing(Seq::empty(), e)),
        Ok(_) => (
            ImportView { phase: ImportPhase::Writing, ..s },
            quiet(
                RequestView::WriteConfig {
                    path: config_path_of(s.home, s.args.name),
                    config: config_of(s.home, s.uuid, s.args.hostname, service_url(s.args.local)),
                },
            ),
        ),
    }
}

/// Once the configuration is written: the tunnel is noted.
pub open spec fn import_written(s: ImportView) -> (ImportView, StepView) {
    (
        ImportView { phase: ImportPhase::Saving, ..s },
        quiet(
            RequestView::SaveMetadata(
                s.metadata.insert(
                    s.args.name,
                    tunnel_of(s.home, s.args.name, s.uuid, s.args.hostname, s.args.local),
                ),
            ),
        ),
    )
}

/// The command after `event`. An event that does not answer the request, as where
/// it could not be carried out, ends the command; only that of removing the route
/// does not matter.
pub open spec fn import_step(s: ImportView, event: EventView) -> (ImportView, StepView) {
    match (s.phase, event) {
        (ImportPhase::Loading, EventView::Loaded { home, metadata }) => import_loaded(
            ImportView { home, metadata, ..s },
        ),
        (ImportPhase::Fetching, EventView::Tunnels(tunnels)) => import_fetched(s, tunnels),
        (ImportPhase::Fetching, _) => (
            import_stopped(s),
            quiet(
                RequestView::Stop(OutcomeView::Reported(Some("fetching cloudflared tunnels"@))),
            ),
        ),
        (ImportPhase::Unrouting, _) => (
            ImportView { phase: ImportPhase::Routing, ..s },
            quiet(RequestView::RunCloudflared(route_args_of(s.args.name, s.args.hostname))),
        ),
        (ImportPhase::Routing, EventView::Output(output)) => import_routed(s, output),
        (ImportPhase::Writing, EventView::Done) => import_written(s),
        (ImportPhase::Saving, EventView::Done) => (
            import_stopped(s),
            ending(
                ready_lines(
                    s.args.name,
                    "' imported."@,
                    s.args.hostname,
                    service_url(s.args.local),
                ),
            ),
        ),
        _ => (import_stopped(s), reported()),
    }
}

/// The id of the first of `tunnels` with the name `name`.
pub fn find_id(tunnels: &Vec<CloudflaredTunnel>, name: &String) -> (r: Option<String>)
    ensures
        r.deep_view() == id_of(tunnels.deep_view(), name@),
{
    let ghost all = tunnels.deep_view();
    let mut i: usize = 0;
    assert(all.skip(0) =~= all);
    while i < tunnels.len()
        invariant
            i <= tunnels.len(),
            all == tunnels.deep_view(),
            id_of(all, name@) == id_of(all.skip(i as int), name@),
        decreases tunnels.len() - i,
    {
        assert(all.skip(i as int)[0] == tunnels@[i as int]@);
        if tunnels[i].name == *name {
            return Some(tunnels[i].id.clone());
        }
        assert(all.skip(i as int).drop_first() =~= all.skip(i + 1));
        i += 1;
    }
    None
}

/// The id that is found is that of a tunnel of that name, and one is found where
/// there is such a tunnel.
pub proof fn law_id_of(tunnels: Seq<CloudflaredTunnelView>, name: Seq<char>)
    ensures
        match id_of(tunnels, name) {
            Some(id) => exists|i: int|
                0 <= i < tunnels.len() && (#[trigger] tunnels[i]).name == name && tunnels[i].id
                    == id,
            None => !is_listed(tunnels, name),
        },
    decreases tunnels.len(),
{
    if tunnels.len() > 0 && tunnels[0].name != name {
        let rest = tunnels.drop_first();
        law_id_of(rest, name);
        match id_of(rest, name) {
            Some(id) => {
                let i = choose|i: int|
                    0 <= i < rest.len() && (#[trigger] rest[i]).name == name && rest[i].id == id;
                assert(tunnels[i + 1] == rest[i]);
            },
            None => {
                assert forall|i: int| 0 <= i < tunnels.len() implies (
                #[trigger] tunnels[i]).name != name by {
                    if i > 0 {
                        assert(tunnels[i] == rest[i - 1]);
                    }
                }
            },
        }
    } else if tunnels.len() > 0 {
        assert(tunnels[0].name == name);
    }
}

impl Import {
    /// Starts the command.
    pub fn start(args: ImportArgs) -> (r: (Import, Step))
        ensures
            (r.0@, r.1@) == import_start(args@),
    {
        (
            Import {
                phase: ImportPhase::Loading,
                args,
                home: String::new(),
                metadata: Metadata::new(),
                uuid: String::new(),
            },
            Step::quiet(Request::LoadMetadata),
        )
    }

    /// Ends the command with `step`.
    fn stop(self, step: Step) -> (r: (Import, Step))
        ensures
            (r.0@, r.1) == (import_stopped(self@), step),
    {
        (Import { phase: ImportPhase::Stopped, ..self }, step)
    }

    fn loaded(self) -> (r: (Import, Step))
        ensures
            (r.0@, r.1@) == import_loaded(self@),
    {
        let s = self;
        if s.metadata.contains_key(s.args.name.as_str()) {
            let name = s.args.name.clone();
            s.stop(Step::failing(fresh(), Error::AlreadyManaged { name }))
        } else if name_reserved(s.home.as_str(), s.args.name.as_str()) {
            let name = s.args.name.clone();
            s.stop(Step::failing(fresh(), Error::ReservedName { name }))
        } else if s.metadata.has_config_at(&config_path(s.home.as_str(), s.args.name.as_str())) {
            let name = s.args.name.clone();
            s.stop(Step::failing(fresh(), Error::ConfigInUse { name }))
        } else {
            (
                Import { phase: ImportPhase::Fetching, ..s },
                Step::quiet(Request::FetchTunnels),
            )
        }
    }

    fn fetched(self, tunnels: Vec<CloudflaredTunnel>) -> (r: (Import, Step))
        ensures
            (r.0@, r.1@) == import_fetched(self@, tunnels.deep_view()),
    {
        let s = self;
        match find_id(&tunnels, &s.args.name) {
            None => {
                let name = s.args.name.clone();
                s.stop(Step::failing(fresh(), Error::NoSuchTunnel { name }))
            },
            Some(uuid) => {
                let mut notices = fresh();
                put(
                    &mut notices,
                    arrow_notice(
                        cat5(
                            " Routing DNS ",
                            s.args.hostname.as_str(),
                            " → ",
                            s.args.name.as_str(),
                            "...",
                        ).as_str(),
                    ),
                );
                let request = Request::RunCloudflared(unroute_args(s.args.hostname.as_str()));
                (Import { phase: ImportPhase::Unrouting, uuid, ..s }, Step { notices, request })
            },
        }
    }

    fn routed(self, output: CommandOutput) -> (r: (Import, Step))
        ensures
            (r.0@, r.1@) == import_routed(self@, output@),
    {
        let args = route_args(self.args.name.as_str(), self.args.hostname.as_str());
        let said = cloudflared_ok(&args, &output);
        self.connected(said)
    }

    /// Goes on once it is known whether the host name is routed.
    pub fn connected(self, said: Result<String, Error>) -> (r: (Import, Step))
        ensures
            (r.0@, r.1@) == import_connected(self@, result_view(said)),
    {
        let s = self;
        match said {
            Err(e) => s.stop(Step::failing(fresh(), e)),
            Ok(_) => {
                let request = Request::WriteConfig {
                    path: config_path(s.home.as_str(), s.args.name.as_str()),
                    config: tunnel_config(
                        s.home.as_str(),
                        s.uuid.as_str(),
                        s.args.hostname.as_str(),
                        normalize_service(s.args.local.as_str()).as_str(),
                    ),
                };
                (Import { phase: ImportPhase::Writing, ..s }, Step::quiet(request))
            },
        }
    }

    fn written(self) -> (r: (Import, Step))
        ensures
            (r.0@, r.1@) == import_written(self@),
    {
        let s = self;
        let tunnel = new_tunnel(
            s.home.as_str(),
            s.args.name.as_str(),
            s.uuid.as_str(),
            s.args.hostname.as_str(),
            s.args.local.as_str(),
        );
        let mut metadata = s.metadata.clone();
        metadata.insert(s.args.name.clone(), tunnel);
        (
            Import { phase: ImportPhase::Saving, ..s },
            Step::quiet(Request::SaveMetadata(metadata)),
        )
    }

    /// Goes on after `event`.
    pub fn step(self, event: Event) -> (r: (Import, Step))
        ensures
            (r.0@, r.1@) == import_step(self@, event@),
    {
        match (self.phase, event) {
            (ImportPhase::Loading, Event::Loaded { home, metadata }) => {
                let s = Import { home, metadata, ..self };
                s.loaded()
            },
            (ImportPhase::Fetching, Event::Tunnels(tunnels)) => self.fetched(tunnels),
            (ImportPhase::Fetching, _) => self.stop(
                Step::quiet(
                    Request::Stop(
                        Outcome::Reported(Some("fetching cloudflared tunnels".to_string())),
                    ),
                ),
            ),
            (ImportPhase::Unrouting, _) => {
                let request = Request::RunCloudflared(
                    route_args(self.args.name.as_str(), self.args.hostname.as_str()),
                );
                (Import { phase: ImportPhase::Routing, ..self }, Step::quiet(request))
            },
            (ImportPhase::Routing, Event::Output(output)) => self.routed(output),
            (ImportPhase::Writing, Event::Done) => self.written(),
            (ImportPhase::Saving, Event::Done) => {
                let notices = ready_notices(
                    self.args.name.as_str(),
                    "' imported.",
                    self.args.hostname.as_str(),
                    normalize_service(self.args.local.as_str()).as_str(),
                );
                self.stop(Step::ending(notices))
            },
            _ => self.stop(Step::reported()),
        }
    }
}

/// Of the tunnels of a name the first one listed counts.
pub proof fn law_first_of_a_name(
    before: Seq<CloudflaredTunnelView>,
    tunnel: CloudflaredTunnelView,
    after: Seq<CloudflaredTunnelView>,
)
    requires
        forall|i: int| 0 <= i < before.len() ==> (#[trigger] before[i]).name != tunnel.name,
    ensures
        id_of(before.push(tunnel) + after, tunnel.name) == Some(tunnel.id),
    decreases before.len(),
{
    let all = before.push(tunnel) + after;
    if before.len() > 0 {
        let rest = before.drop_first();
        assert forall|i: int| 0 <= i < rest.len() implies (#[trigger] rest[i]).name
            != tunnel.name by {
            assert(rest[i] == before[i + 1]);
        }
        law_first_of_a_name(rest, tunnel, after);
        assert(all[0] == before[0]);
        assert(all.drop_first() =~= rest.push(tunnel) + after);
    } else {
        assert(all[0] == tunnel);
    }
}

} // verus!
