//! What holds of every run that creates a tunnel.
use crate::cloudflared::{
    checked, create_args_of, route_args_of, uuid_of, CloudflaredTunnelView, CommandOutputView,
};
use crate::config::{config_of, configures, tunnel_of};
use crate::create::{
    create_execute, create_fetched, create_hosted, create_intro, create_named, create_served,
    create_step, create_stopped, CreateArgsView, CreatePhase, CreateView,
};
use crate::dialog::{
    changes, complaint, law_answers_taken, lemma_run_together, readable, reported, EventView,
    NoticeView, OutcomeView, RequestView,
};
use crate::error::ErrorView;
use crate::laws::{confirmed, fetched, lemma_confirmed_stays};
use crate::metadata::{claims, law_listing, listing, TunnelMetaView};
use crate::paths::{config_path_of, credentials_file_of, is_reserved, metadata_path_of};
use crate::report::{is_listed, law_lines_read};
use crate::service::service_url;
use crate::session::{
    after, lemma_after_push, lemma_after_same, request_after, CommandView, SessionView,
};
use crate::text::trimmed;
use vstd::prelude::*;

verus! {

/// Whether `s` knows what the first of `events` told: the home directory and the
/// tunnels that are managed.
pub open spec fn create_knows(events: Seq<EventView>, s: CreateView) -> bool {
    &&& events.len() >= 1
    &&& events[0] == EventView::Loaded { home: s.home, metadata: s.metadata }
}

/// Whether `s` knows the tunnels that exist, from the second of `events`.
pub open spec fn create_listed(events: Seq<EventView>, s: CreateView) -> bool {
    &&& create_knows(events, s)
    &&& events.len() >= 2
    &&& s.tunnels == fetched(events[1])
}

/// Whether the name in `s` and the path of its configuration are free, and the name
/// is the one that was given.
pub open spec fn create_name_free(events: Seq<EventView>, s: CreateView) -> bool {
    &&& create_listed(events, s)
    &&& !is_listed(s.tunnels, s.name)
    &&& !s.metadata.contains_key(s.name)
    &&& !is_reserved(s.home, s.name)
    &&& !claims(s.metadata, config_path_of(s.home, s.name))
    &&& s.args.name is Some ==> s.args.name == Some(s.name)
}

/// Whether, besides, the host name in `s` is the one that was given.
pub open spec fn create_hostname_set(events: Seq<EventView>, s: CreateView) -> bool {
    &&& create_name_free(events, s)
    &&& s.args.hostname is Some ==> s.args.hostname == Some(s.hostname)
}

/// Whether, besides, the service in `s` is the one that was given.
pub open spec fn create_local_set(events: Seq<EventView>, s: CreateView) -> bool {
    &&& create_hostname_set(events, s)
    &&& s.args.local is Some ==> s.args.local == Some(s.local)
}

/// Whether, besides, a user who was asked said yes.
pub open spec fn create_settled(events: Seq<EventView>, s: CreateView) -> bool {
    &&& create_local_set(events, s)
    &&& s.args.interactive() ==> confirmed(CommandView::Create(s.args), events)
}

/// The request to write the configuration of a tunnel that cftun takes on.
pub open spec fn write_request(
    home: Seq<char>,
    name: Seq<char>,
    uuid: Seq<char>,
    hostname: Seq<char>,
    local: Seq<char>,
) -> RequestView {
    RequestView::WriteConfig {
        path: config_path_of(home, name),
        config: config_of(home, uuid, hostname, service_url(local)),
    }
}

/// What holds of a run of `create` after `events`.
#[verifier::opaque]
pub open spec fn create_holds(
    args: CreateArgsView,
    events: Seq<EventView>,
    s: CreateView,
    request: RequestView,
) -> bool {
    let n = events.len() as int;
    let write = write_request(s.home, s.name, s.uuid, s.hostname, s.local);
    &&& s.args == args
    &&& match s.phase {
        CreatePhase::Loading => n == 0 && request is LoadMetadata,
        CreatePhase::Fetching => n == 1 && create_knows(events, s) && request is FetchTunnels,
        CreatePhase::AskingName => create_listed(events, s) && request is Ask,
        CreatePhase::AskingHostname => create_name_free(events, s) && request is Ask,
        CreatePhase::AskingLocal => create_hostname_set(events, s) && request is Ask,
        CreatePhase::Confirming => {
            &&& create_local_set(events, s)
            &&& args.interactive()
            &&& request is Confirm
        },
        CreatePhase::Creating => {
            &&& create_settled(events, s)
            &&& request == RequestView::RunCloudflared(create_args_of(s.name))
        },
        CreatePhase::Routing => {
            &&& create_settled(events, s)
            &&& announces(events[n - 1], s.name, s.uuid)
            &&& request == RequestView::RunCloudflared(route_args_of(s.name, s.hostname))
        },
        CreatePhase::Writing => {
            &&& create_settled(events, s)
            &&& announces(events[n - 2], s.name, s.uuid)
            &&& routes(events[n - 1], s.name, s.hostname)
            &&& request == write
        },
        CreatePhase::Saving => {
            &&& create_settled(events, s)
            &&& n >= 3
            &&& announces(events[n - 3], s.name, s.uuid)
            &&& routes(events[n - 2], s.name, s.hostname)
            &&& events[n - 1] == EventView::Done
            &&& request_after(CommandView::Create(args), events.drop_last()) == write
            &&& request == RequestView::SaveMetadata(
                s.metadata.insert(s.name, tunnel_of(s.home, s.name, s.uuid, s.hostname, s.local)),
            )
        },
        CreatePhase::Stopped => request is Stop,
    }
}

/// Whether `event` says that cloudflared created the tunnel `name`, with the id
/// `uuid`.
pub open spec fn announces(event: EventView, name: Seq<char>, uuid: Seq<char>) -> bool {
    event matches EventView::Output(output) && (checked(create_args_of(name), output) matches Ok(
        text,
    ) && uuid_of(text) == Some(uuid))
}

/// Whether `event` says that cloudflared routed `hostname` to the tunnel `name`.
pub open spec fn routes(event: EventView, name: Seq<char>, hostname: Seq<char>) -> bool {
    event matches EventView::Output(output) && checked(route_args_of(name, hostname), output) is Ok
}

proof fn lemma_create_execute(events: Seq<EventView>, s: CreateView, notices: Seq<NoticeView>)
    requires
        create_settled(events, s),
    ensures
        ({
            let r = create_execute(s, notices);
            create_holds(s.args, events, r.0, r.1.request)
        }),
{
    reveal(create_holds);
}

proof fn lemma_create_served(
    events: Seq<EventView>,
    s: CreateView,
    notices: Seq<NoticeView>,
    local: Seq<char>,
)
    requires
        create_hostname_set(events, s),
        s.args.local is Some ==> s.args.local == Some(local),
    ensures
        ({
            let r = create_served(s, notices, local);
            create_holds(s.args, events, r.0, r.1.request)
        }),
{
    if s.args.interactive() {
        reveal(create_holds);
    } else {
        lemma_create_execute(events, CreateView { local, ..s }, notices);
    }
}

proof fn lemma_create_hosted(
    events: Seq<EventView>,
    s: CreateView,
    notices: Seq<NoticeView>,
    hostname: Seq<char>,
)
    requires
        create_name_free(events, s),
        s.args.hostname is Some ==> s.args.hostname == Some(hostname),
    ensures
        ({
            let r = create_hosted(s, notices, hostname);
            create_holds(s.args, events, r.0, r.1.request)
        }),
{
    if let Some(local) = s.args.local {
        lemma_create_served(events, CreateView { hostname, ..s }, notices, local);
    } else {
        reveal(create_holds);
    }
}

proof fn lemma_create_named(
    events: Seq<EventView>,
    s: CreateView,
    notices: Seq<NoticeView>,
    name: Seq<char>,
)
    requires
        create_listed(events, s),
        s.args.name is Some ==> s.args.name == Some(name),
    ensures
        ({
            let r = create_named(s, notices, name);
            create_holds(s.args, events, r.0, r.1.request)
        }),
{
    if !is_listed(s.tunnels, name) && !s.metadata.contains_key(name) && !is_reserved(s.home, name)
        && !claims(s.metadata, config_path_of(s.home, name)) && s.args.hostname is Some {
        lemma_create_hosted(events, CreateView { name, ..s }, notices, s.args.hostname->0);
    } else {
        reveal(create_holds);
    }
}

proof fn lemma_create_fetched(
    events: Seq<EventView>,
    s: CreateView,
    tunnels: Seq<CloudflaredTunnelView>,
)
    requires
        create_knows(events, s),
        events.len() >= 2,
        tunnels == fetched(events[1]),
    ensures
        ({
            let r = create_fetched(s, tunnels);
            create_holds(s.args, events, r.0, r.1.request)
        }),
{
    if let Some(name) = s.args.name {
        lemma_create_named(events, CreateView { tunnels, ..s }, create_intro(s.args), name);
    } else {
        reveal(create_holds);
    }
}

/// Whether what holds of a run of `create` holds of it after `events`.
pub open spec fn create_run_holds(args: CreateArgsView, events: Seq<EventView>) -> bool {
    let r = after(CommandView::Create(args), events);
    r.0 is Create && create_holds(args, events, r.0->Create_0, r.1.request)
}

/// What `create` has come to before the last of `events`.
spec fn create_before(args: CreateArgsView, events: Seq<EventView>) -> CreateView {
    after(CommandView::Create(args), events.drop_last()).0->Create_0
}

/// What is known while `create` asks.
proof fn lemma_create_known(args: CreateArgsView, events: Seq<EventView>)
    requires
        create_run_holds(args, events),
    ensures
        ({
            let s = after(CommandView::Create(args), events).0->Create_0;
            &&& s.args == args
            &&& s.phase == CreatePhase::Loading ==> events.len() == 0
            &&& s.phase == CreatePhase::Fetching ==> events.len() == 1 && create_knows(events, s)
            &&& s.phase == CreatePhase::AskingName ==> create_listed(events, s)
            &&& s.phase == CreatePhase::AskingHostname ==> create_name_free(events, s)
            &&& s.phase == CreatePhase::AskingLocal ==> create_hostname_set(events, s)
            &&& s.phase == CreatePhase::Confirming ==> create_local_set(events, s)
                && request_after(CommandView::Create(args), events) is Confirm
        }),
{
    reveal(create_holds);
}

/// That `create` was stopped because a request failed.
proof fn lemma_create_gave_up(events: Seq<EventView>, s: CreateView)
    ensures
        create_holds(s.args, events, create_stopped(s), reported().request),
{
    reveal(create_holds);
}

/// One event more while `create` asks.
#[verifier::rlimit(40)]
proof fn lemma_create_asking(args: CreateArgsView, events: Seq<EventView>)
    requires
        events.len() > 0,
        create_run_holds(args, events.drop_last()),
        create_before(args, events).phase == CreatePhase::Loading || create_before(
            args,
            events,
        ).phase == CreatePhase::Fetching || create_before(args, events).phase
            == CreatePhase::AskingName || create_before(args, events).phase
            == CreatePhase::AskingHostname || create_before(args, events).phase
            == CreatePhase::AskingLocal,
    ensures
        create_run_holds(args, events),
{
    let front = events.drop_last();
    let s = create_before(args, events);
    let event = events.last();
    lemma_create_known(args, front);
    lemma_create_gave_up(events, s);
    if events.len() > 1 {
        assert(front[0] == events[0]);
    }
    if events.len() > 2 {
        assert(front[1] == events[1]);
    }
    match s.phase {
        CreatePhase::Loading => {
            reveal(create_holds);
        },
        CreatePhase::Fetching => {
            lemma_create_fetched(events, s, fetched(event));
        },
        CreatePhase::AskingName => {
            if let EventView::Answer(name) = event {
                lemma_create_named(events, s, Seq::empty(), name);
            }
        },
        CreatePhase::AskingHostname => {
            if let EventView::Answer(hostname) = event {
                lemma_create_hosted(events, s, Seq::empty(), hostname);
            }
        },
        _ => {
            if let EventView::Answer(local) = event {
                lemma_create_served(events, s, Seq::empty(), local);
            }
        },
    }
}

/// One event more when `create` waits for a yes.
#[verifier::rlimit(40)]
proof fn lemma_create_confirming(args: CreateArgsView, events: Seq<EventView>)
    requires
        events.len() > 0,
        create_run_holds(args, events.drop_last()),
        create_before(args, events).phase == CreatePhase::Confirming,
    ensures
        create_run_holds(args, events),
{
    let front = events.drop_last();
    let s = create_before(args, events);
    lemma_create_known(args, front);
    assert(front[0] == events[0]);
    assert(front[1] == events[1]);
    if events.last() == EventView::Confirmed(true) {
        lemma_confirmed_stays(CommandView::Create(args), events);
        lemma_create_execute(events, s, Seq::empty());
    } else {
        reveal(create_holds);
    }
}

/// One event more when `create` is carried out.
#[verifier::rlimit(40)]
proof fn lemma_create_working(args: CreateArgsView, events: Seq<EventView>)
    requires
        events.len() > 0,
        create_run_holds(args, events.drop_last()),
        create_before(args, events).phase == CreatePhase::Creating || create_before(
            args,
            events,
        ).phase == CreatePhase::Routing || create_before(args, events).phase
            == CreatePhase::Writing || create_before(args, events).phase == CreatePhase::Saving
            || create_before(args, events).phase == CreatePhase::Stopped,
    ensures
        create_run_holds(args, events),
{
    reveal(create_holds);
    let front = events.drop_last();
    let n = events.len() as int;
    if n > 2 {
        assert(front[0] == events[0]);
        assert(front[1] == events[1]);
        assert(front[n - 2] == events[n - 2]);
        assert(front[n - 3] == events[n - 3]);
    }
    if confirmed(CommandView::Create(args), front) {
        lemma_confirmed_stays(CommandView::Create(args), events);
    }
}

/// What holds of a run of `create` holds after every event.
pub proof fn lemma_create(args: CreateArgsView, events: Seq<EventView>)
    ensures
        create_run_holds(args, events),
    decreases events.len(),
{
    if events.len() == 0 {
        reveal(create_holds);
    } else {
        lemma_create(args, events.drop_last());
        match create_before(args, events).phase {
            CreatePhase::Loading
            | CreatePhase::Fetching
            | CreatePhase::AskingName
            | CreatePhase::AskingHostname
            | CreatePhase::AskingLocal => lemma_create_asking(args, events),
            CreatePhase::Confirming => lemma_create_confirming(args, events),
            _ => lemma_create_working(args, events),
        }
    }
}

/// A question for a yes is asked at one point only, and only of a user who was
/// asked before.
pub proof fn lemma_create_confirms(args: CreateArgsView, events: Seq<EventView>)
    requires
        request_after(CommandView::Create(args), events) is Confirm,
    ensures
        after(CommandView::Create(args), events).0 is Create,
        after(CommandView::Create(args), events).0->Create_0.phase == CreatePhase::Confirming,
        args.interactive(),
{
    lemma_create(args, events);
    reveal(create_holds);
}

/// A tunnel is created, routed, configured and noted only under a name that is
/// neither managed nor listed, and that is the one that was given, if any; only
/// where its configuration has a path of its own; and only after a yes from a user
/// who was asked.
pub proof fn law_create_is_guarded(args: CreateArgsView, events: Seq<EventView>)
    requires
        changes(request_after(CommandView::Create(args), events)),
    ensures
        after(CommandView::Create(args), events).0 matches SessionView::Create(s) && {
            &&& events.len() >= 2
            &&& events[0] == EventView::Loaded { home: s.home, metadata: s.metadata }
            &&& !s.metadata.contains_key(s.name)
            &&& !is_listed(fetched(events[1]), s.name)
            &&& !is_reserved(s.home, s.name)
            &&& !claims(s.metadata, config_path_of(s.home, s.name))
            &&& args.name is Some ==> args.name == Some(s.name)
            &&& args.interactive() ==> confirmed(CommandView::Create(args), events)
        },
{
    lemma_create(args, events);
    reveal(create_holds);
}

/// What is noted in the end is the tunnel under its name, with the id that
/// cloudflared announced, the host name that cloudflared routed, and the service
/// that was meant; all other tunnels stay as they were. The configuration that
/// says the same was written just before, to the path that is noted.
pub proof fn law_create_saves(args: CreateArgsView, events: Seq<EventView>)
    requires
        request_after(CommandView::Create(args), events) is SaveMetadata,
    ensures
        after(CommandView::Create(args), events).0 matches SessionView::Create(s) && {
            let n = events.len() as int;
            let saved = request_after(CommandView::Create(args), events)->SaveMetadata_0;
            let tunnel = saved[s.name];
            &&& events[0] == EventView::Loaded { home: s.home, metadata: s.metadata }
            &&& !s.metadata.contains_key(s.name)
            &&& saved == s.metadata.insert(s.name, tunnel)
            &&& args.name is Some ==> args.name == Some(s.name)
            &&& args.hostname is Some ==> args.hostname == Some(tunnel.hostname)
            &&& args.local matches Some(local) ==> tunnel.service == service_url(local)
            &&& tunnel.config_path == config_path_of(s.home, s.name)
            &&& n >= 3
            &&& announces(events[n - 3], s.name, tunnel.uuid)
            &&& routes(events[n - 2], s.name, tunnel.hostname)
            &&& events[n - 1] == EventView::Done
            &&& request_after(
                CommandView::Create(args),
                events.drop_last(),
            ) matches RequestView::WriteConfig { path, config } && path == tunnel.config_path
                && configures(config, tunnel) && config.credentials_file == credentials_file_of(
                s.home,
                tunnel.uuid,
            )
        },
{
    lemma_create(args, events);
    reveal(create_holds);
}

/// No configuration is written to the file of the metadata, or to that of the
/// configuration of a managed tunnel.
pub proof fn law_create_spares_files(args: CreateArgsView, events: Seq<EventView>)
    requires
        request_after(CommandView::Create(args), events) is WriteConfig,
    ensures
        events[0] matches EventView::Loaded { home, metadata } && {
            let path = request_after(CommandView::Create(args), events)->path;
            path != metadata_path_of(home) && !claims(metadata, path)
        },
{
    lemma_create(args, events);
    reveal(create_holds);
}

/// When everything was said on the command line, the name is free and everything
/// succeeds, this is what is asked for: the metadata, the tunnels, a new tunnel,
/// a route, the configuration and the metadata again.
pub proof fn law_create_runs_through(
    name: Seq<char>,
    hostname: Seq<char>,
    local: Seq<char>,
    home: Seq<char>,
    metadata: Map<Seq<char>, TunnelMetaView>,
    tunnels: Seq<CloudflaredTunnelView>,
    created: CommandOutputView,
    routed: CommandOutputView,
    uuid: Seq<char>,
)
    requires
        !metadata.contains_key(name),
        !is_listed(tunnels, name),
        !is_reserved(home, name),
        !claims(metadata, config_path_of(home, name)),
        announces(EventView::Output(created), name, uuid),
        routes(EventView::Output(routed), name, hostname),
    ensures
        ({
            let command = CommandView::Create(
                CreateArgsView { name: Some(name), hostname: Some(hostname), local: Some(local) },
            );
            let e1 = Seq::empty().push(EventView::Loaded { home, metadata });
            let e2 = e1.push(EventView::Tunnels(tunnels));
            let e3 = e2.push(EventView::Output(created));
            let e4 = e3.push(EventView::Output(routed));
            let e5 = e4.push(EventView::Done);
            let e6 = e5.push(EventView::Done);
            &&& request_after(command, Seq::empty()) == RequestView::LoadMetadata
            &&& request_after(command, e1) == RequestView::FetchTunnels
            &&& request_after(command, e2) == RequestView::RunCloudflared(create_args_of(name))
            &&& request_after(command, e3) == RequestView::RunCloudflared(
                route_args_of(name, hostname),
            )
            &&& request_after(command, e4) == write_request(home, name, uuid, hostname, local)
            &&& request_after(command, e5) == RequestView::SaveMetadata(
                metadata.insert(name, tunnel_of(home, name, uuid, hostname, local)),
            )
            &&& request_after(command, e6) == RequestView::Stop(OutcomeView::Success)
        }),
{
    let command = CommandView::Create(
        CreateArgsView { name: Some(name), hostname: Some(hostname), local: Some(local) },
    );
    let e0: Seq<EventView> = Seq::empty();
    let e1 = e0.push(EventView::Loaded { home, metadata });
    let e2 = e1.push(EventView::Tunnels(tunnels));
    let e3 = e2.push(EventView::Output(created));
    let e4 = e3.push(EventView::Output(routed));
    let e5 = e4.push(EventView::Done);
    lemma_after_push(command, e0, EventView::Loaded { home, metadata });
    lemma_after_push(command, e1, EventView::Tunnels(tunnels));
    lemma_after_push(command, e2, EventView::Output(created));
    lemma_after_push(command, e3, EventView::Output(routed));
    lemma_after_push(command, e4, EventView::Done);
    lemma_after_push(command, e5, EventView::Done);
}

/// Whether two runs of `create` are at the same point of the work, for the same
/// tunnel.
spec fn same_work(a: CreateView, b: CreateView) -> bool {
    &&& a == (CreateView { args: a.args, ..b })
    &&& a.phase == CreatePhase::Creating || a.phase == CreatePhase::Routing || a.phase
        == CreatePhase::Writing || a.phase == CreatePhase::Saving || a.phase
        == CreatePhase::Stopped
}

proof fn lemma_same_work(a: CreateView, b: CreateView, event: EventView)
    requires
        same_work(a, b),
    ensures
        same_work(create_step(a, event).0, create_step(b, event).0),
        create_step(a, event).1.request == create_step(b, event).1.request,
{
}

/// What follows the same point of the work is the same.
proof fn lemma_same_rest(
    a: CommandView,
    b: CommandView,
    a_events: Seq<EventView>,
    b_events: Seq<EventView>,
    rest: Seq<EventView>,
)
    requires
        after(a, a_events).0 is Create,
        after(b, b_events).0 is Create,
        same_work(after(a, a_events).0->Create_0, after(b, b_events).0->Create_0),
        request_after(a, a_events) == request_after(b, b_events),
    ensures
        after(a, a_events + rest).0 is Create,
        after(b, b_events + rest).0 is Create,
        same_work(after(a, a_events + rest).0->Create_0, after(b, b_events + rest).0->Create_0),
        request_after(a, a_events + rest) == request_after(b, b_events + rest),
    decreases rest.len(),
{
    if rest.len() == 0 {
        assert(a_events + rest =~= a_events);
        assert(b_events + rest =~= b_events);
    } else {
        let front = rest.drop_last();
        lemma_same_rest(a, b, a_events, b_events, front);
        assert((a_events + rest).drop_last() =~= a_events + front);
        assert((b_events + rest).drop_last() =~= b_events + front);
        lemma_same_work(
            after(a, a_events + front).0->Create_0,
            after(b, b_events + front).0->Create_0,
            rest.last(),
        );
    }
}

/// The answers of a user who is asked for everything, and says yes.
pub open spec fn all_answers(name: Seq<char>, hostname: Seq<char>, local: Seq<char>) -> Seq<
    EventView,
> {
    Seq::empty().push(EventView::Answer(name)).push(EventView::Answer(hostname)).push(
        EventView::Answer(local),
    ).push(EventView::Confirmed(true))
}

/// Once a user who is asked has answered and said yes, `create` asks for the same as
/// where all was said on the command line.
pub proof fn law_asked_create_does_the_same(
    name: Seq<char>,
    hostname: Seq<char>,
    local: Seq<char>,
    home: Seq<char>,
    metadata: Map<Seq<char>, TunnelMetaView>,
    listed: EventView,
    rest: Seq<EventView>,
)
    requires
        !metadata.contains_key(name),
        !is_listed(fetched(listed), name),
        !is_reserved(home, name),
        !claims(metadata, config_path_of(home, name)),
    ensures
        ({
            let asked = CommandView::Create(
                CreateArgsView { name: None, hostname: None, local: None },
            );
            let said = CommandView::Create(
                CreateArgsView { name: Some(name), hostname: Some(hostname), local: Some(local) },
            );
            let start = Seq::empty().push(EventView::Loaded { home, metadata }).push(listed);
            request_after(asked, start + all_answers(name, hostname, local) + rest)
                == request_after(said, start + rest)
        }),
{
    let asked = CommandView::Create(CreateArgsView { name: None, hostname: None, local: None });
    let said = CommandView::Create(
        CreateArgsView { name: Some(name), hostname: Some(hostname), local: Some(local) },
    );
    let loaded = EventView::Loaded { home, metadata };
    let e0: Seq<EventView> = Seq::empty();
    let e1 = e0.push(loaded);
    let e2 = e1.push(listed);
    let e3 = e2.push(EventView::Answer(name));
    let e4 = e3.push(EventView::Answer(hostname));
    let e5 = e4.push(EventView::Answer(local));
    let e6 = e5.push(EventView::Confirmed(true));
    lemma_after_push(asked, e0, loaded);
    lemma_after_push(asked, e1, listed);
    lemma_after_push(asked, e2, EventView::Answer(name));
    lemma_after_push(asked, e3, EventView::Answer(hostname));
    lemma_after_push(asked, e4, EventView::Answer(local));
    lemma_after_push(asked, e5, EventView::Confirmed(true));
    lemma_after_push(said, e0, loaded);
    lemma_after_push(said, e1, listed);
    assert(e2 + all_answers(name, hostname, local) =~= e6);
    lemma_same_rest(asked, said, e6, e2, rest);
}

/// What `create` is told first: what is kept, and the tunnels that exist, or that
/// they are not to be had.
pub open spec fn opening(
    home: Seq<char>,
    metadata: Map<Seq<char>, TunnelMetaView>,
    listed: EventView,
) -> Seq<EventView> {
    Seq::empty().push(EventView::Loaded { home, metadata }).push(listed)
}

/// Where the tunnels that exist are not to be had, `create` goes on as if there were
/// none.
pub proof fn law_create_without_list(
    args: CreateArgsView,
    home: Seq<char>,
    metadata: Map<Seq<char>, TunnelMetaView>,
    failure: EventView,
    rest: Seq<EventView>,
)
    requires
        !(failure is Tunnels),
    ensures
        after(CommandView::Create(args), opening(home, metadata, failure) + rest) == after(
            CommandView::Create(args),
            opening(home, metadata, EventView::Tunnels(Seq::empty())) + rest,
        ),
{
    let command = CommandView::Create(args);
    let loaded = EventView::Loaded { home, metadata };
    let e0: Seq<EventView> = Seq::empty();
    let e1 = e0.push(loaded);
    let none = EventView::Tunnels(Seq::empty());
    lemma_after_push(command, e0, loaded);
    lemma_after_push(command, e1, failure);
    lemma_after_push(command, e1, none);
    lemma_after_same(command, e1.push(failure), command, e1.push(none), rest);
}

/// Whether nothing stands in the way of a new tunnel `name`: no tunnel that exists or
/// is managed has the name, and neither the metadata nor a managed tunnel has the
/// path of its configuration.
pub open spec fn is_welcome(
    home: Seq<char>,
    metadata: Map<Seq<char>, TunnelMetaView>,
    tunnels: Seq<CloudflaredTunnelView>,
    name: Seq<char>,
) -> bool {
    &&& forall|i: int| 0 <= i < tunnels.len() ==> (#[trigger] tunnels[i]).name != name
    &&& !metadata.contains_key(name)
    &&& config_path_of(home, name) != metadata_path_of(home)
    &&& forall|other: Seq<char>| #[trigger]
        metadata.contains_key(other) ==> metadata[other].config_path != config_path_of(home, name)
}

/// `events`, and the answer `text` where it is asked for.
pub open spec fn answered(
    events: Seq<EventView>,
    given: Option<Seq<char>>,
    text: Seq<char>,
) -> Seq<EventView> {
    if given is None {
        events.push(EventView::Answer(text))
    } else {
        events
    }
}

/// The user is asked for what the command line does not say, and for nothing else:
/// first the name, then the host name, then the service. Before the yes is asked for,
/// all three are named; after it, the same is asked for as where all was said on the
/// command line.
#[verifier::rlimit(60)]
pub proof fn law_create_does_as_told(
    args: CreateArgsView,
    name: Seq<char>,
    hostname: Seq<char>,
    local: Seq<char>,
    home: Seq<char>,
    metadata: Map<Seq<char>, TunnelMetaView>,
    listed: EventView,
    rest: Seq<EventView>,
)
    requires
        args.name is None || args.hostname is None || args.local is None,
        args.name matches Some(n) ==> n == name,
        args.hostname matches Some(h) ==> h == hostname,
        args.local matches Some(l) ==> l == local,
        is_welcome(home, metadata, fetched(listed), name),
    ensures
        ({
            let command = CommandView::Create(args);
            let said = CommandView::Create(
                CreateArgsView { name: Some(name), hostname: Some(hostname), local: Some(local) },
            );
            let e2 = opening(home, metadata, listed);
            let e3 = answered(e2, args.name, name);
            let e4 = answered(e3, args.hostname, hostname);
            let e5 = answered(e4, args.local, local);
            &&& args.name is None ==> request_after(command, e2) is Ask
            &&& args.hostname is None ==> request_after(command, e3) is Ask
            &&& args.local is None ==> request_after(command, e4) is Ask
            &&& request_after(command, e5) == RequestView::Confirm(
                "Create tunnel '"@ + name + "' → https://"@ + hostname + " → "@ + service_url(local)
                    + "?"@,
            )
            &&& request_after(command, e5.push(EventView::Confirmed(true)) + rest)
                == request_after(said, e2 + rest)
        }),
{
    let command = CommandView::Create(args);
    let said = CommandView::Create(
        CreateArgsView { name: Some(name), hostname: Some(hostname), local: Some(local) },
    );
    let loaded = EventView::Loaded { home, metadata };
    let tunnels = fetched(listed);
    let e0: Seq<EventView> = Seq::empty();
    let e1 = e0.push(loaded);
    let e2 = e1.push(listed);
    let e3 = answered(e2, args.name, name);
    let e4 = answered(e3, args.hostname, hostname);
    let e5 = answered(e4, args.local, local);
    let yes = EventView::Confirmed(true);
    assert(!is_listed(tunnels, name));
    assert(!is_reserved(home, name));
    assert(!claims(metadata, config_path_of(home, name)));
    let s = CreateView {
        phase: CreatePhase::Fetching,
        args,
        home,
        metadata,
        tunnels: Seq::empty(),
        name: Seq::empty(),
        hostname: Seq::empty(),
        local: Seq::empty(),
        uuid: Seq::empty(),
    };
    lemma_after_push(command, e0, loaded);
    assert(after(command, e1).0 == SessionView::Create(s));
    lemma_after_push(command, e1, listed);
    let notices = create_intro(args);
    let none: Seq<NoticeView> = Seq::empty();
    let s2 = CreateView { tunnels, ..s };
    assert(after(command, e2).0 == SessionView::Create(create_fetched(s, tunnels).0));
    assert(after(command, e2).1 == create_fetched(s, tunnels).1);
    if args.name is None {
        lemma_after_push(command, e2, EventView::Answer(name));
    }
    let n3 = if args.name is None { none } else { notices };
    let a2 = if args.name is None { CreatePhase::AskingName } else { CreatePhase::Fetching };
    let s3 = CreateView { phase: a2, ..s2 };
    assert(after(command, e3).0 == SessionView::Create(create_named(s3, n3, name).0));
    assert(after(command, e3).1 == create_named(s3, n3, name).1);
    if args.hostname is None {
        lemma_after_push(command, e3, EventView::Answer(hostname));
    }
    let n4 = if args.hostname is None { none } else { n3 };
    let a3 = if args.hostname is None { CreatePhase::AskingHostname } else { a2 };
    let s4 = CreateView { phase: a3, name, ..s3 };
    assert(after(command, e4).0 == SessionView::Create(create_hosted(s4, n4, hostname).0));
    assert(after(command, e4).1 == create_hosted(s4, n4, hostname).1);
    if args.local is None {
        lemma_after_push(command, e4, EventView::Answer(local));
    }
    let n5 = if args.local is None { none } else { n4 };
    let a4 = if args.local is None { CreatePhase::AskingLocal } else { a3 };
    let s5 = CreateView { phase: a4, hostname, ..s4 };
    assert(after(command, e5).0 == SessionView::Create(create_served(s5, n5, local).0));
    assert(after(command, e5).1 == create_served(s5, n5, local).1);
    lemma_after_push(command, e5, yes);
    lemma_after_push(said, e0, loaded);
    lemma_after_push(said, e1, listed);
    lemma_same_rest(command, said, e5.push(yes), e2, rest);
}

/// A name that something stands in the way of is refused, whether it was said or
/// asked for, and the error says what it is.
pub proof fn law_create_refuses(
    args: CreateArgsView,
    name: Seq<char>,
    home: Seq<char>,
    metadata: Map<Seq<char>, TunnelMetaView>,
    listed: EventView,
)
    requires
        args.name matches Some(n) ==> n == name,
    ensures
        ({
            let tunnels = fetched(listed);
            let path = config_path_of(home, name);
            let exists_there = exists|i: int|
                0 <= i < tunnels.len() && (#[trigger] tunnels[i]).name == name;
            let request = request_after(
                CommandView::Create(args),
                answered(opening(home, metadata, listed), args.name, name),
            );
            &&& exists_there ==> request == RequestView::Stop(
                OutcomeView::Failure(ErrorView::TunnelExists { name }),
            )
            &&& !exists_there && metadata.contains_key(name) ==> request == RequestView::Stop(
                OutcomeView::Failure(ErrorView::NameInUse { name }),
            )
            &&& !exists_there && !metadata.contains_key(name) && path == metadata_path_of(home)
                ==> request == RequestView::Stop(
                OutcomeView::Failure(ErrorView::ReservedName { name }),
            )
            &&& !exists_there && !metadata.contains_key(name) && path != metadata_path_of(home) && (
            exists|other: Seq<char>| #[trigger]
                metadata.contains_key(other) && metadata[other].config_path == path) ==> request
                == RequestView::Stop(OutcomeView::Failure(ErrorView::ConfigInUse { name }))
            &&& is_welcome(home, metadata, tunnels, name) ==> !(request is Stop)
        }),
{
    let command = CommandView::Create(args);
    let loaded = EventView::Loaded { home, metadata };
    let e0: Seq<EventView> = Seq::empty();
    let e1 = e0.push(loaded);
    let e2 = e1.push(listed);
    lemma_after_push(command, e0, loaded);
    lemma_after_push(command, e1, listed);
    if args.name is None {
        lemma_after_push(command, e2, EventView::Answer(name));
    }
    if is_welcome(home, metadata, fetched(listed), name) {
        assert(!is_listed(fetched(listed), name));
        assert(!claims(metadata, config_path_of(home, name)));
    }
}

/// Where the name is asked for, an answer is taken exactly where, apart from white
/// space around it, it is something and no tunnel that is managed or exists has the
/// name, and as it was typed it is not reserved.
pub proof fn law_create_asks_for_a_name(
    args: CreateArgsView,
    home: Seq<char>,
    metadata: Map<Seq<char>, TunnelMetaView>,
    listed: EventView,
    answer: Seq<char>,
)
    requires
        args.name is None,
        metadata.dom().finite(),
    ensures
        request_after(
            CommandView::Create(args),
            opening(home, metadata, listed),
        ) matches RequestView::Ask(question) && {
            let tunnels = fetched(listed);
            &&& question.default is None
            &&& complaint(question.check, answer) is None <==> {
                &&& trimmed(answer).len() > 0
                &&& !metadata.contains_key(trimmed(answer))
                &&& forall|i: int|
                    0 <= i < tunnels.len() ==> (#[trigger] tunnels[i]).name != trimmed(answer)
                &&& config_path_of(home, answer) != metadata_path_of(home)
            }
        },
{
    let command = CommandView::Create(args);
    let loaded = EventView::Loaded { home, metadata };
    let e0: Seq<EventView> = Seq::empty();
    let e1 = e0.push(loaded);
    lemma_after_push(command, e0, loaded);
    lemma_after_push(command, e1, listed);
    let tunnels = fetched(listed);
    let names = tunnels.map_values(|t: CloudflaredTunnelView| t.name);
    let text = trimmed(answer);
    law_listing(metadata);
    law_answers_taken(listing(metadata), names, home, answer);
    assert(names.contains(text) <==> exists|i: int|
        0 <= i < tunnels.len() && (#[trigger] tunnels[i]).name == text) by {
        if names.contains(text) {
            let i = choose|i: int| 0 <= i < names.len() && names[i] == text;
            assert(tunnels[i].name == text);
        }
        if exists|i: int| 0 <= i < tunnels.len() && (#[trigger] tunnels[i]).name == text {
            let i = choose|i: int| 0 <= i < tunnels.len() && (#[trigger] tunnels[i]).name == text;
            assert(names[i] == text);
        }
    }
}

/// Where the host name is asked for, an answer is taken exactly where, apart from
/// white space around it, it is something with a dot in it; for the service any
/// answer is.
pub proof fn law_create_asks_for_the_rest(
    hostname: Seq<char>,
    name: Seq<char>,
    home: Seq<char>,
    metadata: Map<Seq<char>, TunnelMetaView>,
    listed: EventView,
    answer: Seq<char>,
)
    requires
        is_welcome(home, metadata, fetched(listed), name),
    ensures
        request_after(
            CommandView::Create(CreateArgsView { name: Some(name), hostname: None, local: None }),
            opening(home, metadata, listed),
        ) matches RequestView::Ask(question) && (complaint(question.check, answer) is None <==> {
            &&& trimmed(answer).len() > 0
            &&& trimmed(answer).contains('.')
        }),
        request_after(
            CommandView::Create(
                CreateArgsView { name: Some(name), hostname: Some(hostname), local: None },
            ),
            opening(home, metadata, listed),
        ) matches RequestView::Ask(question) && complaint(question.check, answer) is None,
{
    let loaded = EventView::Loaded { home, metadata };
    let e0: Seq<EventView> = Seq::empty();
    let e1 = e0.push(loaded);
    let a = CommandView::Create(CreateArgsView { name: Some(name), hostname: None, local: None });
    let b = CommandView::Create(
        CreateArgsView { name: Some(name), hostname: Some(hostname), local: None },
    );
    assert(!is_listed(fetched(listed), name));
    assert(!claims(metadata, config_path_of(home, name)));
    lemma_after_push(a, e0, loaded);
    lemma_after_push(a, e1, listed);
    lemma_after_push(b, e0, loaded);
    lemma_after_push(b, e1, listed);
    law_answers_taken(Seq::empty(), Seq::empty(), home, answer);
}

/// Where cloudflared does not create the tunnel, says no id or does not route the host
/// name, the command ends with that error, and nothing is written.
pub proof fn law_create_stops_with_cloudflared(
    name: Seq<char>,
    hostname: Seq<char>,
    local: Seq<char>,
    home: Seq<char>,
    metadata: Map<Seq<char>, TunnelMetaView>,
    listed: EventView,
    created: CommandOutputView,
    routed: CommandOutputView,
)
    requires
        is_welcome(home, metadata, fetched(listed), name),
    ensures
        ({
            let command = CommandView::Create(
                CreateArgsView { name: Some(name), hostname: Some(hostname), local: Some(local) },
            );
            let e3 = opening(home, metadata, listed).push(EventView::Output(created));
            let e4 = e3.push(EventView::Output(routed));
            &&& checked(create_args_of(name), created) matches Err(e) ==> request_after(command, e3)
                == RequestView::Stop(OutcomeView::Failure(e))
            &&& checked(create_args_of(name), created) matches Ok(text) ==> (uuid_of(text) is None
                ==> request_after(command, e3) == RequestView::Stop(
                OutcomeView::Failure(ErrorView::UuidNotFound),
            ))
            &&& checked(create_args_of(name), created) matches Ok(text) ==> (uuid_of(text) is Some
                ==> (checked(route_args_of(name, hostname), routed) matches Err(e) ==> request_after(
                command,
                e4,
            ) == RequestView::Stop(OutcomeView::Failure(e))))
        }),
{
    let command = CommandView::Create(
        CreateArgsView { name: Some(name), hostname: Some(hostname), local: Some(local) },
    );
    let loaded = EventView::Loaded { home, metadata };
    let e0: Seq<EventView> = Seq::empty();
    let e1 = e0.push(loaded);
    let e2 = e1.push(listed);
    let e3 = e2.push(EventView::Output(created));
    assert(!is_listed(fetched(listed), name));
    assert(!claims(metadata, config_path_of(home, name)));
    lemma_after_push(command, e0, loaded);
    lemma_after_push(command, e1, listed);
    lemma_after_push(command, e2, EventView::Output(created));
    lemma_after_push(command, e3, EventView::Output(routed));
}

/// In the end the user reads that the tunnel is ready, its public URL, its service and
/// how to run it.
pub proof fn law_create_tells(s: CreateView)
    requires
        s.phase == CreatePhase::Saving,
    ensures
        ({
            let notices = create_step(s, EventView::Done).1.notices;
            let service = service_url(s.local);
            if s.args.interactive() {
                notices.len() == 1 && readable(notices[0]) == "Tunnel '"@ + s.name
                    + "' is ready!\nPublic URL:   https://"@ + s.hostname + "\nLocal target: "@
                    + service + "\nRun it with:  cftun run "@ + s.name
            } else {
                &&& notices.len() == 4
                &&& readable(notices[0]) == "✓ Tunnel '"@ + s.name + "' ready."@
                &&& readable(notices[1]) == "  Public URL:   https://"@ + s.hostname
                &&& readable(notices[2]) == "  Local target: "@ + service
                &&& readable(notices[3]) == "  Run it with:  cftun run "@ + s.name
            }
        }),
{
    reveal_strlit("✓");
    reveal_strlit(" Tunnel '");
    reveal_strlit("✓ Tunnel '");
    reveal_strlit("' is ready!");
    reveal_strlit("Public URL:   https://");
    reveal_strlit("' is ready!\nPublic URL:   https://");
    law_lines_read(" Tunnel '"@ + s.name + "' ready."@);
    law_lines_read(s.hostname);
    law_lines_read(service_url(s.local));
    law_lines_read(s.name);
    assert("✓"@ + (" Tunnel '"@ + s.name + "' ready."@) =~= "✓ Tunnel '"@ + s.name + "' ready."@);
    let title = "Tunnel '"@ + s.name + "' is ready!"@;
    let body = "Public URL:   https://"@ + s.hostname + "\nLocal target: "@ + service_url(s.local)
        + "\nRun it with:  cftun run "@ + s.name;
    assert(title.push('\n') + body =~= "Tunnel '"@ + s.name
        + "' is ready!\nPublic URL:   https://"@ + s.hostname + "\nLocal target: "@ + service_url(
        s.local,
    ) + "\nRun it with:  cftun run "@ + s.name);
}

/// On the way the user reads what is being done, with the names that it is done for.
pub proof fn law_create_reports(s: CreateView, created: CommandOutputView, uuid: Seq<char>)
    requires
        s.phase == CreatePhase::Creating,
        announces(EventView::Output(created), s.name, uuid),
    ensures
        ({
            let notices = create_step(s, EventView::Output(created)).1.notices;
            let start = create_step(
                CreateView { phase: CreatePhase::Confirming, ..s },
                EventView::Confirmed(true),
            ).1.notices;
            &&& s.args.interactive() ==> start.len() == 1 && readable(start[0])
                == "Creating tunnel '"@ + s.name + "'..."@
            &&& notices.len() == 2
            &&& s.args.interactive() ==> readable(notices[0]) == "Created: "@ + uuid && readable(
                notices[1],
            ) == "Routing DNS "@ + s.hostname + " → "@ + s.name + "..."@
            &&& !s.args.interactive() ==> readable(notices[0]) == "  Created tunnel UUID: "@ + uuid
                && readable(notices[1]) == "→ Routing "@ + s.hostname + " → "@ + s.name + "..."@
        }),
{
    broadcast use lemma_run_together;

    reveal_strlit("→");
    reveal_strlit(" Routing ");
    reveal_strlit("→ Routing ");
    let none: Seq<char> = Seq::empty();
    let route = s.hostname + " → "@ + s.name + "..."@;
    law_lines_read(" Routing "@ + route);
    assert("→"@ + " Routing "@ =~= "→ Routing "@);
    assert("→"@ + (" Routing "@ + route) =~= ("→"@ + " Routing "@) + s.hostname + " → "@ + s.name
        + "..."@);
    assert("Routing DNS "@ + route =~= "Routing DNS "@ + s.hostname + " → "@ + s.name + "..."@);
    assert(none + "  Created tunnel UUID: "@ =~= "  Created tunnel UUID: "@);
}

/// Where all was said on the command line, the user reads which tunnel is created.
pub proof fn law_create_announces_itself(
    name: Seq<char>,
    hostname: Seq<char>,
    local: Seq<char>,
    home: Seq<char>,
    metadata: Map<Seq<char>, TunnelMetaView>,
    listed: EventView,
)
    requires
        is_welcome(home, metadata, fetched(listed), name),
    ensures
        ({
            let notices = after(
                CommandView::Create(
                    CreateArgsView {
                        name: Some(name),
                        hostname: Some(hostname),
                        local: Some(local),
                    },
                ),
                opening(home, metadata, listed),
            ).1.notices;
            notices.len() == 1 && readable(notices[0]) == "→ Creating cloudflared tunnel '"@ + name
                + "'..."@
        }),
{
    let command = CommandView::Create(
        CreateArgsView { name: Some(name), hostname: Some(hostname), local: Some(local) },
    );
    let loaded = EventView::Loaded { home, metadata };
    let e0: Seq<EventView> = Seq::empty();
    assert(!is_listed(fetched(listed), name));
    assert(!claims(metadata, config_path_of(home, name)));
    lemma_after_push(command, e0, loaded);
    lemma_after_push(command, e0.push(loaded), listed);
    reveal_strlit("→");
    reveal_strlit(" Creating cloudflared tunnel '");
    reveal_strlit("→ Creating cloudflared tunnel '");
    law_lines_read(" Creating cloudflared tunnel '"@ + name + "'..."@);
    assert("→"@ + (" Creating cloudflared tunnel '"@ + name + "'..."@)
        =~= "→ Creating cloudflared tunnel '"@ + name + "'..."@);
}

} // verus!
