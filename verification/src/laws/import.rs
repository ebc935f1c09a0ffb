//! What holds of every run that imports a tunnel.
use crate::cloudflared::{
    checked, route_args_of, unroute_args_of, CloudflaredTunnelView, CommandOutputView,
};
use crate::config::{configures, tunnel_of};
use crate::dialog::{changes, readable, EventView, OutcomeView, RequestView};
use crate::error::ErrorView;
use crate::import::{id_of, import_step, law_id_of, ImportArgsView, ImportPhase, ImportView};
use crate::laws::create::{routes, write_request};
use crate::metadata::{claims, TunnelMetaView};
use crate::paths::{config_path_of, credentials_file_of, is_reserved, metadata_path_of};
use crate::report::{is_listed, law_lines_read};
use crate::service::service_url;
use crate::session::{after, lemma_after_push, request_after, CommandView};
use vstd::prelude::*;

verus! {

/// Whether `s` knows what the first of `events` told, the home directory and the
/// tunnels that are managed, and this one is not among them, and the path of its
/// configuration is free.
pub open spec fn import_knows(events: Seq<EventView>, s: ImportView) -> bool {
    &&& events.len() >= 1
    &&& events[0] == EventView::Loaded { home: s.home, metadata: s.metadata }
    &&& !s.metadata.contains_key(s.args.name)
    &&& !is_reserved(s.home, s.args.name)
    &&& !claims(s.metadata, config_path_of(s.home, s.args.name))
}

/// Whether, besides, the id in `s` is that of the tunnel of that name in the
/// second of `events`.
pub open spec fn import_found(events: Seq<EventView>, s: ImportView) -> bool {
    &&& import_knows(events, s)
    &&& events.len() >= 2
    &&& events[1] matches EventView::Tunnels(tunnels) && id_of(tunnels, s.args.name) == Some(
        s.uuid,
    )
}

/// What holds of a run of `import` after `events`.
pub open spec fn import_holds(
    args: ImportArgsView,
    events: Seq<EventView>,
    s: ImportView,
    request: RequestView,
) -> bool {
    let n = events.len() as int;
    let write = write_request(s.home, args.name, s.uuid, args.hostname, args.local);
    &&& s.args == args
    &&& match s.phase {
        ImportPhase::Loading => n == 0 && request is LoadMetadata,
        ImportPhase::Fetching => n == 1 && import_knows(events, s) && request is FetchTunnels,
        ImportPhase::Unrouting => {
            &&& import_found(events, s)
            &&& request == RequestView::RunCloudflared(unroute_args_of(args.hostname))
        },
        ImportPhase::Routing => {
            &&& import_found(events, s)
            &&& request == RequestView::RunCloudflared(route_args_of(args.name, args.hostname))
        },
        ImportPhase::Writing => {
            &&& import_found(events, s)
            &&& routes(events[n - 1], args.name, args.hostname)
            &&& request == write
        },
        ImportPhase::Saving => {
            &&& import_found(events, s)
            &&& routes(events[n - 2], args.name, args.hostname)
            &&& events[n - 1] == EventView::Done
            &&& request_after(CommandView::Import(args), events.drop_last()) == write
            &&& request == RequestView::SaveMetadata(
                s.metadata.insert(
                    args.name,
                    tunnel_of(s.home, args.name, s.uuid, args.hostname, args.local),
                ),
            )
        },
        ImportPhase::Stopped => request is Stop,
    }
}

/// What holds of a run of `import` holds after every event.
#[verifier::rlimit(40)]
pub proof fn lemma_import(args: ImportArgsView, events: Seq<EventView>)
    ensures
        after(CommandView::Import(args), events).0 is Import,
        import_holds(
            args,
            events,
            after(CommandView::Import(args), events).0->Import_0,
            request_after(CommandView::Import(args), events),
        ),
    decreases events.len(),
{
    let n = events.len() as int;
    if n > 0 {
        let front = events.drop_last();
        lemma_import(args, front);
        if n > 1 {
            assert(front[0] == events[0]);
            assert(front[n - 2] == events[n - 2]);
        }
        if n > 2 {
            assert(front[1] == events[1]);
        }
    }
}

/// A tunnel is routed, configured and noted only if it is not managed yet, its
/// configuration has a path of its own and cloudflared lists it.
pub proof fn law_import_is_guarded(args: ImportArgsView, events: Seq<EventView>)
    requires
        changes(request_after(CommandView::Import(args), events)),
    ensures
        events.len() >= 2,
        events[0] is Loaded,
        !events[0]->metadata.contains_key(args.name),
        !is_reserved(events[0]->home, args.name),
        !claims(events[0]->metadata, config_path_of(events[0]->home, args.name)),
        events[1] matches EventView::Tunnels(tunnels) && is_listed(tunnels, args.name),
{
    lemma_import(args, events);
    if let EventView::Tunnels(tunnels) = events[1] {
        law_id_of(tunnels, args.name);
    }
}

/// What is noted in the end is the tunnel under its name, with the id under which
/// cloudflared lists it and the host name that cloudflared routed; all other
/// tunnels stay as they were. The configuration that says the same was written
/// just before, to the path that is noted.
pub proof fn law_import_saves(args: ImportArgsView, events: Seq<EventView>)
    requires
        request_after(CommandView::Import(args), events) is SaveMetadata,
    ensures
        events[0] matches EventView::Loaded { home, metadata } && {
            let n = events.len() as int;
            let saved = request_after(CommandView::Import(args), events)->SaveMetadata_0;
            let tunnel = saved[args.name];
            &&& !metadata.contains_key(args.name)
            &&& saved == metadata.insert(args.name, tunnel)
            &&& events[1] matches EventView::Tunnels(tunnels) && id_of(tunnels, args.name) == Some(
                tunnel.uuid,
            )
            &&& tunnel.hostname == args.hostname
            &&& tunnel.service == service_url(args.local)
            &&& tunnel.config_path == config_path_of(home, args.name)
            &&& routes(events[n - 2], args.name, args.hostname)
            &&& events[n - 1] == EventView::Done
            &&& request_after(
                CommandView::Import(args),
                events.drop_last(),
            ) matches RequestView::WriteConfig { path, config } && path == tunnel.config_path
                && configures(config, tunnel) && config.credentials_file == credentials_file_of(
                home,
                tunnel.uuid,
            )
        },
{
    lemma_import(args, events);
}

/// No configuration is written to the file of the metadata, or to that of the
/// configuration of a managed tunnel.
pub proof fn law_import_spares_files(args: ImportArgsView, events: Seq<EventView>)
    requires
        request_after(CommandView::Import(args), events) is WriteConfig,
    ensures
        events[0] matches EventView::Loaded { home, metadata } && {
            let path = request_after(CommandView::Import(args), events)->path;
            path != metadata_path_of(home) && !claims(metadata, path)
        },
{
    lemma_import(args, events);
}

/// When the tunnel exists, is not managed yet and everything succeeds, this is
/// what is asked for: the metadata, the tunnels, the removal of a route, which
/// may fail, a new route, the configuration and the metadata again.
pub proof fn law_import_runs_through(
    args: ImportArgsView,
    home: Seq<char>,
    metadata: Map<Seq<char>, TunnelMetaView>,
    tunnels: Seq<CloudflaredTunnelView>,
    unrouted: EventView,
    routed: EventView,
    uuid: Seq<char>,
)
    requires
        !metadata.contains_key(args.name),
        !is_reserved(home, args.name),
        !claims(metadata, config_path_of(home, args.name)),
        id_of(tunnels, args.name) == Some(uuid),
        routes(routed, args.name, args.hostname),
    ensures
        ({
            let command = CommandView::Import(args);
            let e1 = Seq::empty().push(EventView::Loaded { home, metadata });
            let e2 = e1.push(EventView::Tunnels(tunnels));
            let e3 = e2.push(unrouted);
            let e4 = e3.push(routed);
            let e5 = e4.push(EventView::Done);
            let e6 = e5.push(EventView::Done);
            &&& request_after(command, Seq::empty()) == RequestView::LoadMetadata
            &&& request_after(command, e1) == RequestView::FetchTunnels
            &&& request_after(command, e2) == RequestView::RunCloudflared(
                unroute_args_of(args.hostname),
            )
            &&& request_after(command, e3) == RequestView::RunCloudflared(
                route_args_of(args.name, args.hostname),
            )
            &&& request_after(command, e4) == write_request(
                home,
                args.name,
                uuid,
                args.hostname,
                args.local,
            )
            &&& request_after(command, e5) == RequestView::SaveMetadata(
                metadata.insert(
                    args.name,
                    tunnel_of(home, args.name, uuid, args.hostname, args.local),
                ),
            )
            &&& request_after(command, e6) == RequestView::Stop(OutcomeView::Success)
        }),
{
    let command = CommandView::Import(args);
    let e0: Seq<EventView> = Seq::empty();
    let e1 = e0.push(EventView::Loaded { home, metadata });
    let e2 = e1.push(EventView::Tunnels(tunnels));
    let e3 = e2.push(unrouted);
    let e4 = e3.push(routed);
    let e5 = e4.push(EventView::Done);
    lemma_after_push(command, e0, EventView::Loaded { home, metadata });
    lemma_after_push(command, e1, EventView::Tunnels(tunnels));
    lemma_after_push(command, e2, unrouted);
    lemma_after_push(command, e3, routed);
    lemma_after_push(command, e4, EventView::Done);
    lemma_after_push(command, e5, EventView::Done);
}

/// A tunnel that is managed, whose configuration has no path of its own, or that
/// cloudflared does not list is refused, and the error says what it is.
pub proof fn law_import_refuses(
    args: ImportArgsView,
    home: Seq<char>,
    metadata: Map<Seq<char>, TunnelMetaView>,
    tunnels: Seq<CloudflaredTunnelView>,
    failure: EventView,
)
    requires
        !(failure is Tunnels),
    ensures
        ({
            let command = CommandView::Import(args);
            let name = args.name;
            let path = config_path_of(home, name);
            let claimed = exists|other: Seq<char>| #[trigger]
                metadata.contains_key(other) && metadata[other].config_path == path;
            let e1 = Seq::empty().push(EventView::Loaded { home, metadata });
            let request = request_after(command, e1);
            &&& metadata.contains_key(name) ==> request == RequestView::Stop(
                OutcomeView::Failure(ErrorView::AlreadyManaged { name }),
            )
            &&& !metadata.contains_key(name) && path == metadata_path_of(home) ==> request
                == RequestView::Stop(OutcomeView::Failure(ErrorView::ReservedName { name }))
            &&& !metadata.contains_key(name) && path != metadata_path_of(home) && claimed ==> request
                == RequestView::Stop(OutcomeView::Failure(ErrorView::ConfigInUse { name }))
            &&& !metadata.contains_key(name) && path != metadata_path_of(home) && !claimed ==> {
                &&& request == RequestView::FetchTunnels
                &&& request_after(command, e1.push(failure)) == RequestView::Stop(
                    OutcomeView::Reported(Some("fetching cloudflared tunnels"@)),
                )
                &&& (forall|i: int| 0 <= i < tunnels.len() ==> (#[trigger] tunnels[i]).name != name)
                    ==> request_after(command, e1.push(EventView::Tunnels(tunnels)))
                    == RequestView::Stop(OutcomeView::Failure(ErrorView::NoSuchTunnel { name }))
            }
        }),
{
    let command = CommandView::Import(args);
    let loaded = EventView::Loaded { home, metadata };
    let e0: Seq<EventView> = Seq::empty();
    let e1 = e0.push(loaded);
    lemma_after_push(command, e0, loaded);
    lemma_after_push(command, e1, failure);
    lemma_after_push(command, e1, EventView::Tunnels(tunnels));
    law_id_of(tunnels, args.name);
}

/// Where cloudflared does not route the host name, the command ends with that error,
/// and nothing is written.
pub proof fn law_import_stops_with_cloudflared(
    args: ImportArgsView,
    home: Seq<char>,
    metadata: Map<Seq<char>, TunnelMetaView>,
    tunnels: Seq<CloudflaredTunnelView>,
    unrouted: EventView,
    routed: CommandOutputView,
)
    requires
        !metadata.contains_key(args.name),
        !is_reserved(home, args.name),
        !claims(metadata, config_path_of(home, args.name)),
        id_of(tunnels, args.name) is Some,
    ensures
        checked(route_args_of(args.name, args.hostname), routed) matches Err(e) ==> request_after(
            CommandView::Import(args),
            Seq::empty().push(EventView::Loaded { home, metadata }).push(
                EventView::Tunnels(tunnels),
            ).push(unrouted).push(EventView::Output(routed)),
        ) == RequestView::Stop(OutcomeView::Failure(e)),
{
    let command = CommandView::Import(args);
    let e0: Seq<EventView> = Seq::empty();
    let e1 = e0.push(EventView::Loaded { home, metadata });
    let e2 = e1.push(EventView::Tunnels(tunnels));
    lemma_after_push(command, e0, EventView::Loaded { home, metadata });
    lemma_after_push(command, e1, EventView::Tunnels(tunnels));
    lemma_after_push(command, e2, unrouted);
    lemma_after_push(command, e2.push(unrouted), EventView::Output(routed));
}

/// In the end the user reads that the tunnel was imported, its public URL, its service
/// and how to run it.
pub proof fn law_import_tells(s: ImportView)
    requires
        s.phase == ImportPhase::Saving,
    ensures
        ({
            let notices = import_step(s, EventView::Done).1.notices;
            &&& notices.len() == 4
            &&& readable(notices[0]) == "✓ Tunnel '"@ + s.args.name + "' imported."@
            &&& readable(notices[1]) == "  Public URL:   https://"@ + s.args.hostname
            &&& readable(notices[2]) == "  Local target: "@ + service_url(s.args.local)
            &&& readable(notices[3]) == "  Run it with:  cftun run "@ + s.args.name
        }),
{
    reveal_strlit("✓");
    reveal_strlit(" Tunnel '");
    reveal_strlit("✓ Tunnel '");
    law_lines_read(" Tunnel '"@ + s.args.name + "' imported."@);
    law_lines_read(s.args.hostname);
    law_lines_read(service_url(s.args.local));
    law_lines_read(s.args.name);
    assert("✓"@ + (" Tunnel '"@ + s.args.name + "' imported."@) =~= "✓ Tunnel '"@ + s.args.name
        + "' imported."@);
}

/// On the way the user reads which host name is routed to which tunnel.
pub proof fn law_import_reports(s: ImportView, tunnels: Seq<CloudflaredTunnelView>)
    requires
        s.phase == ImportPhase::Fetching,
        id_of(tunnels, s.args.name) is Some,
    ensures
        ({
            let notices = import_step(s, EventView::Tunnels(tunnels)).1.notices;
            notices.len() == 1 && readable(notices[0]) == "→ Routing DNS "@ + s.args.hostname
                + " → "@ + s.args.name + "..."@
        }),
{
    reveal_strlit("→");
    reveal_strlit(" Routing DNS ");
    reveal_strlit("→ Routing DNS ");
    let text = " Routing DNS "@ + s.args.hostname + " → "@ + s.args.name + "..."@;
    law_lines_read(text);
    assert("→"@ + text =~= "→ Routing DNS "@ + s.args.hostname + " → "@ + s.args.name + "..."@);
}

} // verus!
