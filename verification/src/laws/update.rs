//! What holds of every run that updates a tunnel.
use crate::cloudflared::{checked, route_args_of, unroute_args_of, CommandOutputView};
use crate::config::{config_of, configures};
use crate::dialog::{
    changes, readable, reported, EventView, NoticeView, OutcomeView, RequestView,
};
use crate::error::ErrorView;
use crate::laws::create::{answered, routes};
use crate::laws::{confirmed, lemma_confirmed_stays};
use crate::metadata::{no_tunnel_view, TunnelMetaView};
use crate::paths::credentials_file_of;
use crate::report::{law_lines_read, select_tunnel_of};
use crate::service::service_url;
use crate::session::{after, lemma_after_push, request_after, CommandView, SessionView};
use crate::update::{
    unless_same, update_execute, update_hosted, update_intro, update_loaded, update_named,
    update_served, update_step, update_stopped, UpdateArgsView, UpdatePhase, UpdateView,
};
use vstd::prelude::*;

verus! {

/// Whether `s` knows what the first of `events` told: the home directory and the
/// tunnels that are managed.
pub open spec fn update_knows(events: Seq<EventView>, s: UpdateView) -> bool {
    &&& events.len() >= 1
    &&& events[0] == EventView::Loaded { home: s.home, metadata: s.metadata }
}

/// Whether, besides, the tunnel in `s` is a managed one, and the one that was
/// given.
pub open spec fn update_chosen(events: Seq<EventView>, s: UpdateView) -> bool {
    &&& update_knows(events, s)
    &&& s.metadata.contains_key(s.name)
    &&& s.tunnel == s.metadata[s.name]
    &&& s.args.name is Some ==> s.args.name == Some(s.name)
}

/// Whether, besides, the host name in `s` is the one that was given.
pub open spec fn update_hostname_set(events: Seq<EventView>, s: UpdateView) -> bool {
    &&& update_chosen(events, s)
    &&& s.args.hostname is Some || !s.args.interactive() ==> s.hostname == s.args.hostname
}

/// Whether, besides, the service in `s` is the one that was given.
pub open spec fn update_local_set(events: Seq<EventView>, s: UpdateView) -> bool {
    &&& update_hostname_set(events, s)
    &&& s.args.local is Some || !s.args.interactive() ==> s.local == s.args.local
}

/// Whether, besides, a user who was asked said yes.
pub open spec fn update_settled(events: Seq<EventView>, s: UpdateView) -> bool {
    &&& update_local_set(events, s)
    &&& s.args.interactive() ==> confirmed(CommandView::Update(s.args), events)
}

/// The request to write the configuration of the updated tunnel.
pub open spec fn rewrite_request(s: UpdateView) -> RequestView {
    RequestView::WriteConfig {
        path: s.tunnel.config_path,
        config: config_of(s.home, s.tunnel.uuid, s.new_hostname(), s.new_service()),
    }
}

/// What holds of a run of `update` after `events`.
#[verifier::opaque]
pub open spec fn update_holds(
    args: UpdateArgsView,
    events: Seq<EventView>,
    s: UpdateView,
    request: RequestView,
) -> bool {
    let n = events.len() as int;
    let moved = s.new_hostname() != s.tunnel.hostname;
    &&& s.args == args
    &&& match s.phase {
        UpdatePhase::Loading => n == 0 && request is LoadMetadata,
        UpdatePhase::Selecting => update_knows(events, s) && request is Select,
        UpdatePhase::AskingHostname => update_chosen(events, s) && request is Ask,
        UpdatePhase::AskingLocal => update_hostname_set(events, s) && request is Ask,
        UpdatePhase::Confirming => {
            &&& update_local_set(events, s)
            &&& args.interactive()
            &&& request is Confirm
        },
        UpdatePhase::Unrouting => {
            &&& update_settled(events, s)
            &&& moved
            &&& request == RequestView::RunCloudflared(unroute_args_of(s.tunnel.hostname))
        },
        UpdatePhase::Routing => {
            &&& update_settled(events, s)
            &&& moved
            &&& request == RequestView::RunCloudflared(route_args_of(s.name, s.new_hostname()))
        },
        UpdatePhase::Writing => {
            &&& update_settled(events, s)
            &&& moved ==> routes(events[n - 1], s.name, s.new_hostname())
            &&& request == rewrite_request(s)
        },
        UpdatePhase::Saving => {
            &&& update_settled(events, s)
            &&& n >= 2
            &&& moved ==> routes(events[n - 2], s.name, s.new_hostname())
            &&& events[n - 1] == EventView::Done
            &&& request_after(CommandView::Update(args), events.drop_last()) == rewrite_request(s)
            &&& request == RequestView::SaveMetadata(s.metadata.insert(s.name, s.new_tunnel()))
        },
        UpdatePhase::Stopped => {
            &&& request is Stop
            &&& request != RequestView::Stop(OutcomeView::Failure(ErrorView::NothingToUpdate))
        },
    }
}

proof fn lemma_update_execute(events: Seq<EventView>, s: UpdateView, notices: Seq<NoticeView>)
    requires
        update_settled(events, s),
    ensures
        ({
            let r = update_execute(s, notices);
            update_holds(s.args, events, r.0, r.1.request)
        }),
{
    reveal(update_holds);
}

proof fn lemma_update_served(
    events: Seq<EventView>,
    s: UpdateView,
    notices: Seq<NoticeView>,
    local: Option<Seq<char>>,
)
    requires
        update_hostname_set(events, s),
        s.args.local is Some || !s.args.interactive() ==> local == s.args.local,
    ensures
        ({
            let r = update_served(s, notices, local);
            update_holds(s.args, events, r.0, r.1.request)
        }),
{
    let next = UpdateView { local, ..s };
    if !s.args.interactive() {
        lemma_update_execute(events, next, notices);
        reveal(update_holds);
    } else {
        reveal(update_holds);
    }
}

proof fn lemma_update_hosted(
    events: Seq<EventView>,
    s: UpdateView,
    notices: Seq<NoticeView>,
    hostname: Option<Seq<char>>,
)
    requires
        update_chosen(events, s),
        s.args.hostname is Some || !s.args.interactive() ==> hostname == s.args.hostname,
    ensures
        ({
            let r = update_hosted(s, notices, hostname);
            update_holds(s.args, events, r.0, r.1.request)
        }),
{
    let next = UpdateView { hostname, ..s };
    if s.args.local is None && s.args.interactive() {
        reveal(update_holds);
    } else {
        lemma_update_served(events, next, notices, s.args.local);
    }
}

proof fn lemma_update_named(
    events: Seq<EventView>,
    s: UpdateView,
    notices: Seq<NoticeView>,
    name: Seq<char>,
)
    requires
        update_knows(events, s),
        s.args.name is Some ==> s.args.name == Some(name),
    ensures
        ({
            let r = update_named(s, notices, name);
            update_holds(s.args, events, r.0, r.1.request)
        }),
{
    if s.metadata.contains_key(name) && !(s.args.hostname is None && s.args.interactive()) {
        let next = UpdateView { name, tunnel: s.metadata[name], ..s };
        lemma_update_hosted(events, next, notices, s.args.hostname);
    } else {
        reveal(update_holds);
    }
}

proof fn lemma_update_loaded(events: Seq<EventView>, s: UpdateView)
    requires
        update_knows(events, s),
    ensures
        ({
            let r = update_loaded(s);
            update_holds(s.args, events, r.0, r.1.request)
        }),
{
    if let Some(name) = s.args.name {
        lemma_update_named(events, s, update_intro(s.args), name);
    } else {
        reveal(update_holds);
    }
}

/// Whether what holds of a run of `update` holds of it after `events`.
pub open spec fn update_run_holds(args: UpdateArgsView, events: Seq<EventView>) -> bool {
    let r = after(CommandView::Update(args), events);
    r.0 is Update && update_holds(args, events, r.0->Update_0, r.1.request)
}

/// What `update` has come to before the last of `events`.
spec fn update_before(args: UpdateArgsView, events: Seq<EventView>) -> UpdateView {
    after(CommandView::Update(args), events.drop_last()).0->Update_0
}

/// That `update` was stopped because a request failed.
proof fn lemma_update_gave_up(events: Seq<EventView>, s: UpdateView)
    ensures
        update_holds(s.args, events, update_stopped(s), reported().request),
{
    reveal(update_holds);
}

/// What is known while `update` asks.
proof fn lemma_update_known(args: UpdateArgsView, events: Seq<EventView>)
    requires
        update_run_holds(args, events),
    ensures
        ({
            let s = after(CommandView::Update(args), events).0->Update_0;
            &&& s.args == args
            &&& s.phase == UpdatePhase::Loading ==> events.len() == 0
            &&& s.phase == UpdatePhase::Selecting ==> update_knows(events, s)
            &&& s.phase == UpdatePhase::AskingHostname ==> update_chosen(events, s)
            &&& s.phase == UpdatePhase::AskingLocal ==> update_hostname_set(events, s)
            &&& s.phase == UpdatePhase::Confirming ==> update_local_set(events, s)
                && request_after(CommandView::Update(args), events) is Confirm
        }),
{
    reveal(update_holds);
}

/// One event more while `update` asks.
#[verifier::rlimit(40)]
proof fn lemma_update_asking(args: UpdateArgsView, events: Seq<EventView>)
    requires
        events.len() > 0,
        update_run_holds(args, events.drop_last()),
        update_before(args, events).phase == UpdatePhase::Loading || update_before(
            args,
            events,
        ).phase == UpdatePhase::Selecting || update_before(args, events).phase
            == UpdatePhase::AskingHostname || update_before(args, events).phase
            == UpdatePhase::AskingLocal,
    ensures
        update_run_holds(args, events),
{
    let front = events.drop_last();
    let s = update_before(args, events);
    let event = events.last();
    lemma_update_known(args, front);
    lemma_update_gave_up(events, s);
    if events.len() > 1 {
        assert(front[0] == events[0]);
    }
    match s.phase {
        UpdatePhase::Loading => {
            if let EventView::Loaded { home, metadata } = event {
                lemma_update_loaded(events, UpdateView { home, metadata, ..s });
            }
        },
        UpdatePhase::Selecting => {
            if let EventView::Answer(name) = event {
                lemma_update_named(events, s, Seq::empty(), name);
            }
        },
        UpdatePhase::AskingHostname => {
            if let EventView::Answer(hostname) = event {
                lemma_update_hosted(
                    events,
                    s,
                    Seq::empty(),
                    unless_same(hostname, s.tunnel.hostname),
                );
            }
        },
        _ => {
            if let EventView::Answer(local) = event {
                lemma_update_served(events, s, Seq::empty(), unless_same(local, s.tunnel.service));
            }
        },
    }
}

/// One event more when `update` waits for a yes.
#[verifier::rlimit(40)]
proof fn lemma_update_confirming(args: UpdateArgsView, events: Seq<EventView>)
    requires
        events.len() > 0,
        update_run_holds(args, events.drop_last()),
        update_before(args, events).phase == UpdatePhase::Confirming,
    ensures
        update_run_holds(args, events),
{
    let front = events.drop_last();
    let s = update_before(args, events);
    let event = events.last();
    lemma_update_known(args, front);
    lemma_update_gave_up(events, s);
    assert(front[0] == events[0]);
    if event == EventView::Confirmed(true) {
        lemma_confirmed_stays(CommandView::Update(args), events);
        lemma_update_execute(events, s, Seq::empty());
    } else {
        reveal(update_holds);
    }
}

/// One event more when `update` is carried out.
#[verifier::rlimit(40)]
proof fn lemma_update_working(args: UpdateArgsView, events: Seq<EventView>)
    requires
        events.len() > 0,
        update_run_holds(args, events.drop_last()),
        update_before(args, events).phase == UpdatePhase::Unrouting || update_before(
            args,
            events,
        ).phase == UpdatePhase::Routing || update_before(args, events).phase
            == UpdatePhase::Writing || update_before(args, events).phase == UpdatePhase::Saving
            || update_before(args, events).phase == UpdatePhase::Stopped,
    ensures
        update_run_holds(args, events),
{
    reveal(update_holds);
    let front = events.drop_last();
    let n = events.len() as int;
    if n > 1 {
        assert(front[0] == events[0]);
        assert(front[n - 2] == events[n - 2]);
    }
    if confirmed(CommandView::Update(args), front) {
        lemma_confirmed_stays(CommandView::Update(args), events);
    }
}

/// What holds of a run of `update` holds after every event.
pub proof fn lemma_update(args: UpdateArgsView, events: Seq<EventView>)
    ensures
        update_run_holds(args, events),
    decreases events.len(),
{
    if events.len() == 0 {
        reveal(update_holds);
    } else {
        lemma_update(args, events.drop_last());
        match update_before(args, events).phase {
            UpdatePhase::Loading
            | UpdatePhase::Selecting
            | UpdatePhase::AskingHostname
            | UpdatePhase::AskingLocal => lemma_update_asking(args, events),
            UpdatePhase::Confirming => lemma_update_confirming(args, events),
            _ => lemma_update_working(args, events),
        }
    }
}

/// A question for a yes is asked at one point only, and only of a user who was
/// asked before.
pub proof fn lemma_update_confirms(args: UpdateArgsView, events: Seq<EventView>)
    requires
        request_after(CommandView::Update(args), events) is Confirm,
    ensures
        after(CommandView::Update(args), events).0 is Update,
        after(CommandView::Update(args), events).0->Update_0.phase == UpdatePhase::Confirming,
        args.interactive(),
{
    lemma_update(args, events);
    reveal(update_holds);
}

/// Something is changed only for a tunnel that is managed, and that is the one
/// that was given, if any; and only after a yes from a user who was asked.
pub proof fn law_update_is_guarded(args: UpdateArgsView, events: Seq<EventView>)
    requires
        changes(request_after(CommandView::Update(args), events)),
    ensures
        after(CommandView::Update(args), events).0 matches SessionView::Update(s) && {
            &&& events.len() >= 1
            &&& events[0] == EventView::Loaded { home: s.home, metadata: s.metadata }
            &&& s.metadata.contains_key(s.name)
            &&& args.name is Some ==> args.name == Some(s.name)
            &&& args.interactive() ==> confirmed(CommandView::Update(args), events)
        },
{
    lemma_update(args, events);
    reveal(update_holds);
}

/// What is noted in the end differs from what was noted before in the host name
/// and the service of that one tunnel alone: those that were given, and where the
/// user was not asked, only those. The configuration that says the same was
/// written just before, in the place of the old one.
pub proof fn law_update_saves(args: UpdateArgsView, events: Seq<EventView>)
    requires
        request_after(CommandView::Update(args), events) is SaveMetadata,
    ensures
        after(CommandView::Update(args), events).0 matches SessionView::Update(s) && {
            let saved = request_after(CommandView::Update(args), events)->SaveMetadata_0;
            let old = s.metadata[s.name];
            let new = saved[s.name];
            &&& events[0] == EventView::Loaded { home: s.home, metadata: s.metadata }
            &&& s.metadata.contains_key(s.name)
            &&& saved == s.metadata.insert(
                s.name,
                TunnelMetaView { hostname: new.hostname, service: new.service, ..old },
            )
            &&& args.name is Some ==> args.name == Some(s.name)
            &&& args.hostname is Some ==> args.hostname == Some(new.hostname)
            &&& args.local matches Some(local) ==> new.service == service_url(local)
            &&& !args.interactive() && args.hostname is None ==> new.hostname == old.hostname
            &&& !args.interactive() && args.local is None ==> new.service == old.service
            &&& events.last() == EventView::Done
            &&& request_after(
                CommandView::Update(args),
                events.drop_last(),
            ) matches RequestView::WriteConfig { path, config } && path == old.config_path
                && configures(config, new) && config.credentials_file == credentials_file_of(
                s.home,
                new.uuid,
            )
        },
{
    lemma_update(args, events);
    reveal(update_holds);
}

/// Routes are touched only where the host name changes: the old one is taken
/// down, and the new one is made.
pub proof fn law_update_routes(args: UpdateArgsView, events: Seq<EventView>)
    requires
        request_after(CommandView::Update(args), events) is RunCloudflared,
    ensures
        after(CommandView::Update(args), events).0 matches SessionView::Update(s) && {
            let old = s.metadata[s.name].hostname;
            let new = s.new_hostname();
            let asked = request_after(CommandView::Update(args), events)->RunCloudflared_0;
            &&& events[0] == EventView::Loaded { home: s.home, metadata: s.metadata }
            &&& old != new
            &&& asked == unroute_args_of(old) || asked == route_args_of(s.name, new)
        },
{
    lemma_update(args, events);
    reveal(update_holds);
}

/// Where the host name changes, nothing is noted before cloudflared has routed
/// the new one.
pub proof fn law_update_routes_before_saving(args: UpdateArgsView, events: Seq<EventView>)
    requires
        request_after(CommandView::Update(args), events) is SaveMetadata,
    ensures
        after(CommandView::Update(args), events).0 matches SessionView::Update(s) && (
        s.new_hostname() != s.metadata[s.name].hostname ==> events.len() >= 2 && routes(
            events[events.len() - 2],
            s.name,
            s.new_hostname(),
        )),
{
    lemma_update(args, events);
    reveal(update_holds);
}

/// No update is refused for want of something to change: where the command line
/// names nothing, the user is asked.
pub proof fn law_update_asks_for_changes(args: UpdateArgsView, events: Seq<EventView>)
    ensures
        request_after(CommandView::Update(args), events) != RequestView::Stop(
            OutcomeView::Failure(ErrorView::NothingToUpdate),
        ),
{
    lemma_update(args, events);
    reveal(update_holds);
}

/// When a managed tunnel and a change are named and everything succeeds, this is
/// what is asked for: the metadata; where the host name changes, the removal of
/// the old route, which may fail, and the new route; the configuration and the
/// metadata again.
pub proof fn law_update_runs_through(
    name: Seq<char>,
    hostname: Option<Seq<char>>,
    local: Option<Seq<char>>,
    home: Seq<char>,
    metadata: Map<Seq<char>, TunnelMetaView>,
    unrouted: EventView,
    routed: EventView,
)
    requires
        metadata.contains_key(name),
        hostname is Some || local is Some,
        hostname matches Some(new) ==> new == metadata[name].hostname || routes(
            routed,
            name,
            new,
        ),
    ensures
        ({
            let command = CommandView::Update(
                UpdateArgsView { name: Some(name), hostname, local },
            );
            let old = metadata[name];
            let new = TunnelMetaView {
                hostname: if hostname is Some { hostname->0 } else { old.hostname },
                service: if local is Some { service_url(local->0) } else { old.service },
                ..old
            };
            let write = RequestView::WriteConfig {
                path: old.config_path,
                config: config_of(home, old.uuid, new.hostname, new.service),
            };
            let save = RequestView::SaveMetadata(metadata.insert(name, new));
            let success = RequestView::Stop(OutcomeView::Success);
            let e1 = Seq::empty().push(EventView::Loaded { home, metadata });
            let moved = e1.push(unrouted).push(routed);
            &&& request_after(command, Seq::empty()) == RequestView::LoadMetadata
            &&& new.hostname == old.hostname ==> {
                &&& request_after(command, e1) == write
                &&& request_after(command, e1.push(EventView::Done)) == save
                &&& request_after(command, e1.push(EventView::Done).push(EventView::Done))
                    == success
            }
            &&& new.hostname != old.hostname ==> {
                &&& request_after(command, e1) == RequestView::RunCloudflared(
                    unroute_args_of(old.hostname),
                )
                &&& request_after(command, e1.push(unrouted)) == RequestView::RunCloudflared(
                    route_args_of(name, new.hostname),
                )
                &&& request_after(command, moved) == write
                &&& request_after(command, moved.push(EventView::Done)) == save
                &&& request_after(command, moved.push(EventView::Done).push(EventView::Done))
                    == success
            }
        }),
{
    let command = CommandView::Update(UpdateArgsView { name: Some(name), hostname, local });
    let e0: Seq<EventView> = Seq::empty();
    let e1 = e0.push(EventView::Loaded { home, metadata });
    let moved = e1.push(unrouted).push(routed);
    lemma_after_push(command, e0, EventView::Loaded { home, metadata });
    if hostname is Some && hostname->0 != metadata[name].hostname {
        lemma_after_push(command, e1, unrouted);
        lemma_after_push(command, e1.push(unrouted), routed);
        lemma_after_push(command, moved, EventView::Done);
        lemma_after_push(command, moved.push(EventView::Done), EventView::Done);
    } else {
        lemma_after_push(command, e1, EventView::Done);
        lemma_after_push(command, e1.push(EventView::Done), EventView::Done);
    }
}

/// Whether two runs of `update` are at the same point of the work, for the same
/// change.
spec fn same_update(a: UpdateView, b: UpdateView) -> bool {
    &&& a == (UpdateView { args: a.args, ..b })
    &&& a.phase == UpdatePhase::Unrouting || a.phase == UpdatePhase::Routing || a.phase
        == UpdatePhase::Writing || a.phase == UpdatePhase::Saving || a.phase
        == UpdatePhase::Stopped
}

proof fn lemma_same_update(a: UpdateView, b: UpdateView, event: EventView)
    requires
        same_update(a, b),
    ensures
        same_update(update_step(a, event).0, update_step(b, event).0),
        update_step(a, event).1.request == update_step(b, event).1.request,
{
}

/// What follows the same point of the work is the same.
proof fn lemma_same_update_rest(
    a: CommandView,
    b: CommandView,
    a_events: Seq<EventView>,
    b_events: Seq<EventView>,
    rest: Seq<EventView>,
)
    requires
        after(a, a_events).0 is Update,
        after(b, b_events).0 is Update,
        same_update(after(a, a_events).0->Update_0, after(b, b_events).0->Update_0),
        request_after(a, a_events) == request_after(b, b_events),
    ensures
        after(a, a_events + rest).0 is Update,
        after(b, b_events + rest).0 is Update,
        same_update(after(a, a_events + rest).0->Update_0, after(b, b_events + rest).0->Update_0),
        request_after(a, a_events + rest) == request_after(b, b_events + rest),
    decreases rest.len(),
{
    if rest.len() == 0 {
        assert(a_events + rest =~= a_events);
        assert(b_events + rest =~= b_events);
    } else {
        let front = rest.drop_last();
        lemma_same_update_rest(a, b, a_events, b_events, front);
        assert((a_events + rest).drop_last() =~= a_events + front);
        assert((b_events + rest).drop_last() =~= b_events + front);
        lemma_same_update(
            after(a, a_events + front).0->Update_0,
            after(b, b_events + front).0->Update_0,
            rest.last(),
        );
    }
}

/// The change that is meant: what was given on the command line, and otherwise the
/// answer, unless it is what is noted already.
pub open spec fn meant(
    given: Option<Seq<char>>,
    answer: Seq<char>,
    noted: Seq<char>,
) -> Option<Seq<char>> {
    if given is Some {
        given
    } else if answer != noted {
        Some(answer)
    } else {
        None
    }
}

/// Where the user is asked, it is for what the command line does not say, and for
/// nothing else: which tunnel, its host name, its service. Where neither answer
/// differs from what is noted, and nothing was given, the command ends and nothing is
/// changed. Otherwise a yes is asked for, which names the change, and after it the
/// same is asked for as where the tunnel and the change were named on the command
/// line.
#[verifier::rlimit(60)]
pub proof fn law_update_does_as_told(
    args: UpdateArgsView,
    name: Seq<char>,
    hostname: Seq<char>,
    local: Seq<char>,
    home: Seq<char>,
    metadata: Map<Seq<char>, TunnelMetaView>,
    rest: Seq<EventView>,
)
    requires
        args.name is None || (args.hostname is None && args.local is None),
        args.name matches Some(n) ==> n == name,
        metadata.contains_key(name),
    ensures
        ({
            let command = CommandView::Update(args);
            let old = metadata[name];
            let new_hostname = meant(args.hostname, hostname, old.hostname);
            let new_local = meant(args.local, local, old.service);
            let said = CommandView::Update(
                UpdateArgsView { name: Some(name), hostname: new_hostname, local: new_local },
            );
            let e1 = Seq::empty().push(EventView::Loaded { home, metadata });
            let e2 = answered(e1, args.name, name);
            let e3 = answered(e2, args.hostname, hostname);
            let e4 = answered(e3, args.local, local);
            &&& args.name is None ==> request_after(command, e1) == select_tunnel_of(
                "Select a tunnel to update"@,
                metadata,
            )
            &&& args.hostname is None ==> (request_after(
                command,
                e2,
            ) matches RequestView::Ask(question) && question.default == Some(old.hostname))
            &&& args.local is None ==> (request_after(
                command,
                e3,
            ) matches RequestView::Ask(question) && question.default == Some(old.service))
            &&& new_hostname is None && new_local is None ==> request_after(command, e4)
                == RequestView::Stop(OutcomeView::Success)
            &&& new_hostname is Some || new_local is Some ==> {
                &&& request_after(command, e4) == RequestView::Confirm(
                    "Update tunnel '"@ + name + "'?  https://"@ + (if new_hostname is Some {
                        new_hostname->0
                    } else {
                        old.hostname
                    }) + " → "@ + (if new_local is Some {
                        service_url(new_local->0)
                    } else {
                        old.service
                    }),
                )
                &&& request_after(command, e4.push(EventView::Confirmed(true)) + rest)
                    == request_after(said, e1 + rest)
            }
        }),
{
    let command = CommandView::Update(args);
    let old = metadata[name];
    let new_hostname = meant(args.hostname, hostname, old.hostname);
    let new_local = meant(args.local, local, old.service);
    let said = CommandView::Update(
        UpdateArgsView { name: Some(name), hostname: new_hostname, local: new_local },
    );
    let loaded = EventView::Loaded { home, metadata };
    let e0: Seq<EventView> = Seq::empty();
    let e1 = e0.push(loaded);
    let e2 = answered(e1, args.name, name);
    let e3 = answered(e2, args.hostname, hostname);
    let e4 = answered(e3, args.local, local);
    let yes = EventView::Confirmed(true);
    let none: Seq<NoticeView> = Seq::empty();
    let notices = update_intro(args);
    let s = UpdateView {
        phase: UpdatePhase::Loading,
        args,
        home,
        metadata,
        name: Seq::empty(),
        tunnel: no_tunnel_view(),
        hostname: None,
        local: None,
    };
    assert(metadata != Map::<Seq<char>, TunnelMetaView>::empty());
    lemma_after_push(command, e0, loaded);
    assert(after(command, e1).0 == SessionView::Update(update_loaded(s).0));
    assert(after(command, e1).1 == update_loaded(s).1);
    if args.name is None {
        lemma_after_push(command, e1, EventView::Answer(name));
    }
    let n2 = if args.name is None { none } else { notices };
    let p2 = if args.name is None { UpdatePhase::Selecting } else { UpdatePhase::Loading };
    let s2 = UpdateView { phase: p2, ..s };
    assert(after(command, e2).0 == SessionView::Update(update_named(s2, n2, name).0));
    assert(after(command, e2).1 == update_named(s2, n2, name).1);
    if args.hostname is None {
        lemma_after_push(command, e2, EventView::Answer(hostname));
    }
    let n3 = if args.hostname is None { none } else { n2 };
    let p3 = if args.hostname is None { UpdatePhase::AskingHostname } else { p2 };
    let s3 = UpdateView { phase: p3, name, tunnel: old, ..s2 };
    assert(after(command, e3).0 == SessionView::Update(update_hosted(s3, n3, new_hostname).0));
    assert(after(command, e3).1 == update_hosted(s3, n3, new_hostname).1);
    if args.local is None {
        lemma_after_push(command, e3, EventView::Answer(local));
    }
    let n4 = if args.local is None { none } else { n3 };
    let p4 = if args.local is None { UpdatePhase::AskingLocal } else { p3 };
    let s4 = UpdateView { phase: p4, hostname: new_hostname, ..s3 };
    assert(after(command, e4).0 == SessionView::Update(update_served(s4, n4, new_local).0));
    assert(after(command, e4).1 == update_served(s4, n4, new_local).1);
    if new_hostname is Some || new_local is Some {
        lemma_after_push(command, e4, yes);
        lemma_after_push(said, e0, loaded);
        lemma_same_update_rest(command, said, e4.push(yes), e1, rest);
    }
}

/// A tunnel that is not managed is not updated, whether it was named or chosen; and
/// where there is none to choose from, the command ends.
pub proof fn law_update_refuses(
    args: UpdateArgsView,
    name: Seq<char>,
    home: Seq<char>,
    metadata: Map<Seq<char>, TunnelMetaView>,
)
    requires
        args.name matches Some(n) ==> n == name,
        !metadata.contains_key(name),
    ensures
        ({
            let command = CommandView::Update(args);
            let e1 = Seq::empty().push(EventView::Loaded { home, metadata });
            let refused = RequestView::Stop(OutcomeView::Failure(ErrorView::NotFound { name }));
            let nothing = Map::<Seq<char>, TunnelMetaView>::empty();
            &&& args.name is Some || metadata != nothing ==> request_after(
                command,
                answered(e1, args.name, name),
            ) == refused
            &&& args.name is None && metadata == nothing ==> request_after(command, e1)
                == RequestView::Stop(OutcomeView::Success)
        }),
{
    let command = CommandView::Update(args);
    let e0: Seq<EventView> = Seq::empty();
    let loaded = EventView::Loaded { home, metadata };
    lemma_after_push(command, e0, loaded);
    lemma_after_push(command, e0.push(loaded), EventView::Answer(name));
}

/// Where cloudflared does not route the new host name, the command ends with that
/// error, and nothing is written.
pub proof fn law_update_stops_with_cloudflared(
    name: Seq<char>,
    hostname: Seq<char>,
    local: Option<Seq<char>>,
    home: Seq<char>,
    metadata: Map<Seq<char>, TunnelMetaView>,
    unrouted: EventView,
    routed: CommandOutputView,
)
    requires
        metadata.contains_key(name),
        hostname != metadata[name].hostname,
    ensures
        checked(route_args_of(name, hostname), routed) matches Err(e) ==> request_after(
            CommandView::Update(
                UpdateArgsView { name: Some(name), hostname: Some(hostname), local },
            ),
            Seq::empty().push(EventView::Loaded { home, metadata }).push(unrouted).push(
                EventView::Output(routed),
            ),
        ) == RequestView::Stop(OutcomeView::Failure(e)),
{
    let command = CommandView::Update(
        UpdateArgsView { name: Some(name), hostname: Some(hostname), local },
    );
    let e0: Seq<EventView> = Seq::empty();
    let loaded = EventView::Loaded { home, metadata };
    let e1 = e0.push(loaded);
    lemma_after_push(command, e0, loaded);
    lemma_after_push(command, e1, unrouted);
    lemma_after_push(command, e1.push(unrouted), EventView::Output(routed));
}

/// In the end the user reads that the tunnel was updated, its public URL and its
/// service.
pub proof fn law_update_tells(s: UpdateView)
    requires
        s.phase == UpdatePhase::Saving,
    ensures
        ({
            let notices = update_step(s, EventView::Done).1.notices;
            let hostname = if s.hostname is Some { s.hostname->0 } else { s.tunnel.hostname };
            let service = if s.local is Some { service_url(s.local->0) } else { s.tunnel.service };
            if s.args.interactive() {
                notices.len() == 2 && readable(notices[1]) == "Tunnel '"@ + s.name
                    + "' updated!\nPublic URL:   https://"@ + hostname + "\nLocal target: "@ + service
            } else {
                &&& notices.len() == 3
                &&& readable(notices[0]) == "✓ Tunnel '"@ + s.name + "' updated."@
                &&& readable(notices[1]) == "  Public URL:   https://"@ + hostname
                &&& readable(notices[2]) == "  Local target: "@ + service
            }
        }),
{
    reveal_strlit("✓");
    reveal_strlit(" Tunnel '");
    reveal_strlit("✓ Tunnel '");
    reveal_strlit("' updated!");
    reveal_strlit("Public URL:   https://");
    reveal_strlit("' updated!\nPublic URL:   https://");
    let hostname = s.new_hostname();
    let service = s.new_service();
    law_lines_read(" Tunnel '"@ + s.name + "' updated."@);
    law_lines_read(hostname);
    law_lines_read(service);
    assert("✓"@ + (" Tunnel '"@ + s.name + "' updated."@) =~= "✓ Tunnel '"@ + s.name
        + "' updated."@);
    let title = "Tunnel '"@ + s.name + "' updated!"@;
    let body = "Public URL:   https://"@ + hostname + "\nLocal target: "@ + service;
    assert(title.push('\n') + body =~= "Tunnel '"@ + s.name
        + "' updated!\nPublic URL:   https://"@ + hostname + "\nLocal target: "@ + service);
}

/// Where the host name changes, the user reads which route is made in place of which.
pub proof fn law_update_reports(s: UpdateView)
    requires
        s.phase == UpdatePhase::Confirming,
        s.args.interactive(),
        s.hostname matches Some(h) && h != s.tunnel.hostname,
    ensures
        ({
            let notices = update_step(s, EventView::Confirmed(true)).1.notices;
            notices.len() == 1 && readable(notices[0]) == "Updating DNS route: "@
                + s.tunnel.hostname + " → "@ + s.hostname->0 + "..."@
        }),
{
}

/// The same where tunnel and host name were named on the command line.
pub proof fn law_update_announces_itself(
    name: Seq<char>,
    hostname: Seq<char>,
    local: Option<Seq<char>>,
    home: Seq<char>,
    metadata: Map<Seq<char>, TunnelMetaView>,
)
    requires
        metadata.contains_key(name),
        hostname != metadata[name].hostname,
    ensures
        ({
            let notices = after(
                CommandView::Update(
                    UpdateArgsView { name: Some(name), hostname: Some(hostname), local },
                ),
                Seq::empty().push(EventView::Loaded { home, metadata }),
            ).1.notices;
            notices.len() == 1 && readable(notices[0]) == "→ Updating DNS route: "@
                + metadata[name].hostname + " → "@ + hostname + "..."@
        }),
{
    let command = CommandView::Update(
        UpdateArgsView { name: Some(name), hostname: Some(hostname), local },
    );
    let e0: Seq<EventView> = Seq::empty();
    lemma_after_push(command, e0, EventView::Loaded { home, metadata });
    reveal_strlit("→");
    reveal_strlit(" ");
    reveal_strlit("Updating DNS route: ");
    reveal_strlit("→ Updating DNS route: ");
    let change = "Updating DNS route: "@ + metadata[name].hostname + " → "@ + hostname + "..."@;
    law_lines_read(" "@ + change);
    assert("→"@ + (" "@ + change) =~= "→ Updating DNS route: "@ + metadata[name].hostname + " → "@
        + hostname + "..."@);
}

} // verus!
