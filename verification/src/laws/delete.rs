//! What holds of every run that deletes a tunnel.
use crate::cloudflared::{delete_args_of, unroute_args_of};
use crate::delete::{
    delete_execute, delete_intro, delete_loaded, delete_named, delete_step, delete_stopped,
    DeleteArgsView, DeletePhase, DeleteView,
};
use crate::dialog::{
    changes, lemma_run_together, readable, reported, EventView, NoticeView, OutcomeView,
    RequestView,
};
use crate::error::ErrorView;
use crate::laws::create::answered;
use crate::laws::{confirmed, lemma_confirmed_stays};
use crate::metadata::TunnelMetaView;
use crate::report::{law_lines_read, select_tunnel_of};
use crate::session::{after, lemma_after_push, request_after, CommandView, SessionView};
use vstd::prelude::*;

verus! {

/// Whether `s` knows what the first of `events` told: the tunnels that are
/// managed.
pub open spec fn delete_knows(events: Seq<EventView>, s: DeleteView) -> bool {
    &&& events.len() >= 1
    &&& events[0] is Loaded
    &&& events[0]->metadata == s.metadata
}

/// Whether, besides, the tunnel in `s` is a managed one, and the one that was
/// given; and it is deleted as was said.
pub open spec fn delete_picked(events: Seq<EventView>, s: DeleteView) -> bool {
    &&& delete_knows(events, s)
    &&& s.metadata.contains_key(s.name)
    &&& s.tunnel == s.metadata[s.name]
    &&& s.args.name is Some ==> s.args.name == Some(s.name)
    &&& !s.args.interactive() ==> s.cleanup == s.args.cleanup
}

/// Whether, besides, a user who was asked said yes.
pub open spec fn delete_settled(events: Seq<EventView>, s: DeleteView) -> bool {
    &&& delete_picked(events, s)
    &&& s.args.interactive() ==> confirmed(CommandView::Delete(s.args), events)
}

/// What holds of a run of `delete` after `events`.
#[verifier::opaque]
pub open spec fn delete_holds(
    args: DeleteArgsView,
    events: Seq<EventView>,
    s: DeleteView,
    request: RequestView,
) -> bool {
    &&& s.args == args
    &&& match s.phase {
        DeletePhase::Loading => {
            &&& events.len() == 0
            &&& s.cleanup == args.cleanup
            &&& request is LoadMetadata
        },
        DeletePhase::Selecting => {
            &&& delete_knows(events, s)
            &&& args.interactive()
            &&& request is Select
        },
        DeletePhase::ChoosingMode => {
            &&& delete_picked(events, s)
            &&& args.interactive()
            &&& request is Select
        },
        DeletePhase::Confirming => {
            &&& delete_picked(events, s)
            &&& args.interactive()
            &&& request is Confirm
        },
        DeletePhase::Deleting => {
            &&& delete_settled(events, s)
            &&& s.cleanup
            &&& request == RequestView::RunCloudflared(delete_args_of(s.tunnel.uuid))
        },
        DeletePhase::Unrouting => {
            &&& delete_settled(events, s)
            &&& s.cleanup
            &&& request == RequestView::RunCloudflared(unroute_args_of(s.tunnel.hostname))
        },
        DeletePhase::Checking => {
            &&& delete_settled(events, s)
            &&& s.cleanup
            &&& request == RequestView::CheckExists(s.tunnel.config_path)
        },
        DeletePhase::Removing => {
            &&& delete_settled(events, s)
            &&& s.cleanup
            &&& events.last() == EventView::Exists(true)
            &&& request == RequestView::RemoveFile(s.tunnel.config_path)
        },
        DeletePhase::Saving => {
            &&& delete_settled(events, s)
            &&& s.cleanup ==> config_is_gone(args, events, s)
            &&& request == RequestView::SaveMetadata(s.metadata.remove(s.name))
        },
        DeletePhase::Stopped => request is Stop,
    }
}

/// Whether the last of `events` says that the configuration is not there, or was
/// removed.
pub open spec fn config_is_gone(
    args: DeleteArgsView,
    events: Seq<EventView>,
    s: DeleteView,
) -> bool {
    let asked = request_after(CommandView::Delete(args), events.drop_last());
    ||| asked == RequestView::CheckExists(s.tunnel.config_path) && events.last()
        == EventView::Exists(false)
    ||| asked == RequestView::RemoveFile(s.tunnel.config_path) && events.last() == EventView::Done
}

proof fn lemma_delete_execute(events: Seq<EventView>, s: DeleteView, notices: Seq<NoticeView>)
    requires
        delete_settled(events, s),
    ensures
        ({
            let r = delete_execute(s, notices);
            delete_holds(s.args, events, r.0, r.1.request)
        }),
{
    reveal(delete_holds);
}

proof fn lemma_delete_named(
    events: Seq<EventView>,
    s: DeleteView,
    notices: Seq<NoticeView>,
    name: Seq<char>,
)
    requires
        delete_knows(events, s),
        s.args.name is Some ==> s.args.name == Some(name),
        !s.args.interactive() ==> s.cleanup == s.args.cleanup,
    ensures
        ({
            let r = delete_named(s, notices, name);
            delete_holds(s.args, events, r.0, r.1.request)
        }),
{
    if s.metadata.contains_key(name) && !s.args.interactive() {
        let next = DeleteView { name, tunnel: s.metadata[name], ..s };
        lemma_delete_execute(events, next, notices);
    } else {
        reveal(delete_holds);
    }
}

proof fn lemma_delete_loaded(events: Seq<EventView>, s: DeleteView)
    requires
        delete_knows(events, s),
        s.cleanup == s.args.cleanup,
    ensures
        ({
            let r = delete_loaded(s);
            delete_holds(s.args, events, r.0, r.1.request)
        }),
{
    if let Some(name) = s.args.name {
        lemma_delete_named(events, s, delete_intro(s.args), name);
    } else {
        reveal(delete_holds);
    }
}

/// Whether what holds of a run of `delete` holds of it after `events`.
pub open spec fn delete_run_holds(args: DeleteArgsView, events: Seq<EventView>) -> bool {
    let r = after(CommandView::Delete(args), events);
    r.0 is Delete && delete_holds(args, events, r.0->Delete_0, r.1.request)
}

/// What `delete` has come to before the last of `events`.
spec fn delete_before(args: DeleteArgsView, events: Seq<EventView>) -> DeleteView {
    after(CommandView::Delete(args), events.drop_last()).0->Delete_0
}

/// That `delete` was stopped because a request failed.
proof fn lemma_delete_gave_up(events: Seq<EventView>, s: DeleteView)
    ensures
        delete_holds(s.args, events, delete_stopped(s), reported().request),
{
    reveal(delete_holds);
}

/// What is known while `delete` asks.
proof fn lemma_delete_known(args: DeleteArgsView, events: Seq<EventView>)
    requires
        delete_run_holds(args, events),
    ensures
        ({
            let s = after(CommandView::Delete(args), events).0->Delete_0;
            &&& s.args == args
            &&& s.phase == DeletePhase::Loading ==> events.len() == 0 && s.cleanup == args.cleanup
            &&& s.phase == DeletePhase::Selecting ==> delete_knows(events, s)
                && args.interactive()
            &&& s.phase == DeletePhase::ChoosingMode || s.phase == DeletePhase::Confirming
                ==> delete_picked(events, s) && args.interactive()
            &&& s.phase == DeletePhase::Confirming ==> request_after(
                CommandView::Delete(args),
                events,
            ) is Confirm
        }),
{
    reveal(delete_holds);
}

/// One event more while `delete` asks.
#[verifier::rlimit(40)]
proof fn lemma_delete_asking(args: DeleteArgsView, events: Seq<EventView>)
    requires
        events.len() > 0,
        delete_run_holds(args, events.drop_last()),
        delete_before(args, events).phase == DeletePhase::Loading || delete_before(
            args,
            events,
        ).phase == DeletePhase::Selecting || delete_before(args, events).phase
            == DeletePhase::ChoosingMode || delete_before(args, events).phase
            == DeletePhase::Confirming,
    ensures
        delete_run_holds(args, events),
{
    let front = events.drop_last();
    let s = delete_before(args, events);
    let event = events.last();
    lemma_delete_known(args, front);
    lemma_delete_gave_up(events, s);
    if events.len() > 1 {
        assert(front[0] == events[0]);
    }
    match s.phase {
        DeletePhase::Loading => {
            if let EventView::Loaded { home, metadata } = event {
                lemma_delete_loaded(events, DeleteView { metadata, ..s });
            }
        },
        DeletePhase::Selecting => {
            if let EventView::Answer(name) = event {
                lemma_delete_named(events, s, Seq::empty(), name);
            }
        },
        DeletePhase::ChoosingMode => {
            reveal(delete_holds);
        },
        _ => {
            if event == EventView::Confirmed(true) {
                lemma_confirmed_stays(CommandView::Delete(args), events);
                lemma_delete_execute(events, s, Seq::empty());
            } else {
                reveal(delete_holds);
            }
        },
    }
}

/// One event more when `delete` is carried out.
#[verifier::rlimit(40)]
proof fn lemma_delete_working(args: DeleteArgsView, events: Seq<EventView>)
    requires
        events.len() > 0,
        delete_run_holds(args, events.drop_last()),
        !(delete_before(args, events).phase == DeletePhase::Loading),
        !(delete_before(args, events).phase == DeletePhase::Selecting),
        !(delete_before(args, events).phase == DeletePhase::ChoosingMode),
        !(delete_before(args, events).phase == DeletePhase::Confirming),
    ensures
        delete_run_holds(args, events),
{
    reveal(delete_holds);
    let front = events.drop_last();
    if events.len() > 1 {
        assert(front[0] == events[0]);
    }
    if confirmed(CommandView::Delete(args), front) {
        lemma_confirmed_stays(CommandView::Delete(args), events);
    }
}

/// What holds of a run of `delete` holds after every event.
pub proof fn lemma_delete(args: DeleteArgsView, events: Seq<EventView>)
    ensures
        delete_run_holds(args, events),
    decreases events.len(),
{
    if events.len() == 0 {
        reveal(delete_holds);
    } else {
        lemma_delete(args, events.drop_last());
        match delete_before(args, events).phase {
            DeletePhase::Loading
            | DeletePhase::Selecting
            | DeletePhase::ChoosingMode
            | DeletePhase::Confirming => lemma_delete_asking(args, events),
            _ => lemma_delete_working(args, events),
        }
    }
}

/// A question for a yes is asked at one point only, and only of a user who was
/// asked before.
pub proof fn lemma_delete_confirms(args: DeleteArgsView, events: Seq<EventView>)
    requires
        request_after(CommandView::Delete(args), events) is Confirm,
    ensures
        after(CommandView::Delete(args), events).0 is Delete,
        after(CommandView::Delete(args), events).0->Delete_0.phase == DeletePhase::Confirming,
        args.interactive(),
{
    lemma_delete(args, events);
    reveal(delete_holds);
}

/// Something is changed only for a tunnel that is managed, and that is the one
/// that was given, if any; and only after a yes from a user who was asked.
pub proof fn law_delete_is_guarded(args: DeleteArgsView, events: Seq<EventView>)
    requires
        changes(request_after(CommandView::Delete(args), events)),
    ensures
        after(CommandView::Delete(args), events).0 matches SessionView::Delete(s) && {
            &&& events.len() >= 1
            &&& events[0] is Loaded
            &&& events[0]->metadata == s.metadata
            &&& s.metadata.contains_key(s.name)
            &&& args.name is Some ==> args.name == Some(s.name)
            &&& args.interactive() ==> confirmed(CommandView::Delete(args), events)
        },
{
    lemma_delete(args, events);
    reveal(delete_holds);
}

/// What is noted in the end is what was noted before, without that one tunnel.
/// Where all is deleted, its configuration is gone by then.
pub proof fn law_delete_saves(args: DeleteArgsView, events: Seq<EventView>)
    requires
        request_after(CommandView::Delete(args), events) is SaveMetadata,
    ensures
        after(CommandView::Delete(args), events).0 matches SessionView::Delete(s) && {
            let saved = request_after(CommandView::Delete(args), events)->SaveMetadata_0;
            &&& events[0] is Loaded
            &&& events[0]->metadata == s.metadata
            &&& s.metadata.contains_key(s.name)
            &&& saved == s.metadata.remove(s.name)
            &&& s.tunnel == s.metadata[s.name]
            &&& s.cleanup ==> config_is_gone(args, events, s)
        },
{
    lemma_delete(args, events);
    reveal(delete_holds);
}

/// Nothing but the metadata is touched unless all is deleted, as `--cleanup` says
/// on the command line. What is touched then is that tunnel, its route and its
/// configuration.
pub proof fn law_delete_keeps_the_rest(args: DeleteArgsView, events: Seq<EventView>)
    requires
        changes(request_after(CommandView::Delete(args), events)),
        !(request_after(CommandView::Delete(args), events) is SaveMetadata),
    ensures
        after(CommandView::Delete(args), events).0 matches SessionView::Delete(s) && {
            let asked = request_after(CommandView::Delete(args), events);
            let tunnel = s.metadata[s.name];
            &&& s.cleanup
            &&& !args.interactive() ==> args.cleanup
            &&& asked == RequestView::RunCloudflared(delete_args_of(tunnel.uuid)) || asked
                == RequestView::RunCloudflared(unroute_args_of(tunnel.hostname)) || asked
                == RequestView::RemoveFile(tunnel.config_path)
        },
{
    lemma_delete(args, events);
    reveal(delete_holds);
}

/// When a managed tunnel is named and its configuration can be removed, this is
/// what is asked for: the metadata, with `cleanup` the deletion of the tunnel and
/// of its route, which may fail, and of its configuration, and then the metadata
/// again.
pub proof fn law_delete_runs_through(
    name: Seq<char>,
    cleanup: bool,
    home: Seq<char>,
    metadata: Map<Seq<char>, TunnelMetaView>,
    deleted: EventView,
    unrouted: EventView,
)
    requires
        metadata.contains_key(name),
    ensures
        ({
            let command = CommandView::Delete(DeleteArgsView { name: Some(name), cleanup });
            let tunnel = metadata[name];
            let save = RequestView::SaveMetadata(metadata.remove(name));
            let success = RequestView::Stop(OutcomeView::Success);
            let e1 = Seq::empty().push(EventView::Loaded { home, metadata });
            let e2 = e1.push(deleted);
            let e3 = e2.push(unrouted);
            let e4 = e3.push(EventView::Exists(true));
            let e5 = e4.push(EventView::Done);
            let absent = e3.push(EventView::Exists(false));
            &&& request_after(command, Seq::empty()) == RequestView::LoadMetadata
            &&& !cleanup ==> {
                &&& request_after(command, e1) == save
                &&& request_after(command, e1.push(EventView::Done)) == success
            }
            &&& cleanup ==> {
                &&& request_after(command, e1) == RequestView::RunCloudflared(
                    delete_args_of(tunnel.uuid),
                )
                &&& request_after(command, e2) == RequestView::RunCloudflared(
                    unroute_args_of(tunnel.hostname),
                )
                &&& request_after(command, e3) == RequestView::CheckExists(tunnel.config_path)
                &&& request_after(command, e4) == RequestView::RemoveFile(tunnel.config_path)
                &&& request_after(command, e5) == save
                &&& request_after(command, e5.push(EventView::Done)) == success
                &&& request_after(command, absent) == save
                &&& request_after(command, absent.push(EventView::Done)) == success
            }
        }),
{
    let command = CommandView::Delete(DeleteArgsView { name: Some(name), cleanup });
    let e0: Seq<EventView> = Seq::empty();
    let e1 = e0.push(EventView::Loaded { home, metadata });
    let e2 = e1.push(deleted);
    let e3 = e2.push(unrouted);
    let e4 = e3.push(EventView::Exists(true));
    let e5 = e4.push(EventView::Done);
    let absent = e3.push(EventView::Exists(false));
    lemma_after_push(command, e0, EventView::Loaded { home, metadata });
    if cleanup {
        lemma_after_push(command, e1, deleted);
        lemma_after_push(command, e2, unrouted);
        lemma_after_push(command, e3, EventView::Exists(true));
        lemma_after_push(command, e4, EventView::Done);
        lemma_after_push(command, e5, EventView::Done);
        lemma_after_push(command, e3, EventView::Exists(false));
        lemma_after_push(command, absent, EventView::Done);
    } else {
        lemma_after_push(command, e1, EventView::Done);
    }
}

/// Whether two runs of `delete` that ask have come to the same, but for what was
/// said of `cleanup` on the command line.
spec fn same_delete(a: DeleteView, b: DeleteView) -> bool {
    &&& a == (DeleteView { args: a.args, cleanup: a.cleanup, ..b })
    &&& a.args.interactive() && b.args.interactive()
    &&& a.cleanup == b.cleanup || a.phase == DeletePhase::Loading || a.phase
        == DeletePhase::Selecting || a.phase == DeletePhase::ChoosingMode || a.phase
        == DeletePhase::Stopped
}

proof fn lemma_same_delete(a: DeleteView, b: DeleteView, event: EventView)
    requires
        same_delete(a, b),
    ensures
        same_delete(delete_step(a, event).0, delete_step(b, event).0),
        delete_step(a, event).1 == delete_step(b, event).1,
{
}

proof fn lemma_asked_delete(events: Seq<EventView>)
    ensures
        ({
            let with = after(
                CommandView::Delete(DeleteArgsView { name: None, cleanup: true }),
                events,
            );
            let without = after(
                CommandView::Delete(DeleteArgsView { name: None, cleanup: false }),
                events,
            );
            &&& with.1 == without.1
            &&& with.0 is Delete && without.0 is Delete
            &&& same_delete(with.0->Delete_0, without.0->Delete_0)
        }),
    decreases events.len(),
{
    if events.len() > 0 {
        let front = events.drop_last();
        lemma_asked_delete(front);
        lemma_same_delete(
            after(CommandView::Delete(DeleteArgsView { name: None, cleanup: true }), front).0->Delete_0,
            after(CommandView::Delete(DeleteArgsView { name: None, cleanup: false }), front).0->Delete_0,
            events.last(),
        );
    }
}

/// Where the user is asked how much is deleted, it does not matter whether
/// `--cleanup` was said.
pub proof fn law_asked_delete_ignores_cleanup(events: Seq<EventView>)
    ensures
        after(CommandView::Delete(DeleteArgsView { name: None, cleanup: true }), events).1 == after(
            CommandView::Delete(DeleteArgsView { name: None, cleanup: false }),
            events,
        ).1,
{
    lemma_asked_delete(events);
}

/// Whether two runs of `delete` are at the same point of the work, for the same
/// tunnel.
#[verifier::opaque]
spec fn same_deletion(a: DeleteView, b: DeleteView) -> bool {
    &&& a == (DeleteView { args: a.args, ..b })
    &&& a.phase == DeletePhase::Deleting || a.phase == DeletePhase::Unrouting || a.phase
        == DeletePhase::Checking || a.phase == DeletePhase::Removing || a.phase
        == DeletePhase::Saving || a.phase == DeletePhase::Stopped
}

proof fn lemma_same_deletion(a: DeleteView, b: DeleteView, event: EventView)
    requires
        same_deletion(a, b),
    ensures
        same_deletion(delete_step(a, event).0, delete_step(b, event).0),
        delete_step(a, event).1.request == delete_step(b, event).1.request,
{
    reveal(same_deletion);
}

/// What follows the same point of the work is the same.
proof fn lemma_same_deletion_rest(
    a: CommandView,
    b: CommandView,
    a_events: Seq<EventView>,
    b_events: Seq<EventView>,
    rest: Seq<EventView>,
)
    requires
        after(a, a_events).0 is Delete,
        after(b, b_events).0 is Delete,
        same_deletion(after(a, a_events).0->Delete_0, after(b, b_events).0->Delete_0),
        request_after(a, a_events) == request_after(b, b_events),
    ensures
        after(a, a_events + rest).0 is Delete,
        after(b, b_events + rest).0 is Delete,
        same_deletion(after(a, a_events + rest).0->Delete_0, after(b, b_events + rest).0->Delete_0),
        request_after(a, a_events + rest) == request_after(b, b_events + rest),
    decreases rest.len(),
{
    if rest.len() == 0 {
        assert(a_events + rest =~= a_events);
        assert(b_events + rest =~= b_events);
    } else {
        let front = rest.drop_last();
        lemma_same_deletion_rest(a, b, a_events, b_events, front);
        assert((a_events + rest).drop_last() =~= a_events + front);
        assert((b_events + rest).drop_last() =~= b_events + front);
        let x = after(a, a_events + front).0->Delete_0;
        let y = after(b, b_events + front).0->Delete_0;
        lemma_same_deletion(x, y, rest.last());
        assert(after(a, a_events + rest).0 == SessionView::Delete(delete_step(x, rest.last()).0));
        assert(after(b, b_events + rest).0 == SessionView::Delete(delete_step(y, rest.last()).0));
    }
}

/// What `delete` has come to when the user has said which tunnel and how much.
spec fn delete_asked(
    cleanup: bool,
    name: Seq<char>,
    mode: Seq<char>,
    metadata: Map<Seq<char>, TunnelMetaView>,
) -> DeleteView {
    DeleteView {
        phase: DeletePhase::Confirming,
        args: DeleteArgsView { name: None, cleanup },
        metadata,
        name,
        tunnel: metadata[name],
        cleanup: mode == "full"@,
    }
}

proof fn lemma_delete_asks(
    cleanup: bool,
    name: Seq<char>,
    mode: Seq<char>,
    home: Seq<char>,
    metadata: Map<Seq<char>, TunnelMetaView>,
)
    requires
        metadata.contains_key(name),
    ensures
        ({
            let command = CommandView::Delete(DeleteArgsView { name: None, cleanup });
            let e1 = Seq::empty().push(EventView::Loaded { home, metadata });
            let e2 = e1.push(EventView::Answer(name));
            let e3 = e2.push(EventView::Answer(mode));
            &&& request_after(command, e1) == select_tunnel_of(
                "Select a tunnel to delete"@,
                metadata,
            )
            &&& request_after(command, e2) is Select
            &&& mode == "full"@ ==> request_after(command, e3) == RequestView::Confirm(
                "Delete tunnel '"@ + name + "'?"@,
            )
            &&& mode != "full"@ ==> request_after(command, e3) == RequestView::Confirm(
                "Remove tunnel '"@ + name + "'?"@,
            )
            &&& after(command, e3).0 == SessionView::Delete(
                delete_asked(cleanup, name, mode, metadata),
            )
        }),
{
    let command = CommandView::Delete(DeleteArgsView { name: None, cleanup });
    let e0: Seq<EventView> = Seq::empty();
    let loaded = EventView::Loaded { home, metadata };
    let e1 = e0.push(loaded);
    let e2 = e1.push(EventView::Answer(name));
    assert(metadata != Map::<Seq<char>, TunnelMetaView>::empty());
    lemma_after_push(command, e0, loaded);
    lemma_after_push(command, e1, EventView::Answer(name));
    lemma_after_push(command, e2, EventView::Answer(mode));
    assert("Delete"@ + " tunnel '"@ == "Delete tunnel '"@) by {
        reveal_strlit("Delete");
        reveal_strlit(" tunnel '");
        reveal_strlit("Delete tunnel '");
        assert("Delete"@ + " tunnel '"@ =~= "Delete tunnel '"@);
    }
    assert("Remove"@ + " tunnel '"@ == "Remove tunnel '"@) by {
        reveal_strlit("Remove");
        reveal_strlit(" tunnel '");
        reveal_strlit("Remove tunnel '");
        assert("Remove"@ + " tunnel '"@ =~= "Remove tunnel '"@);
    }
}

proof fn lemma_delete_begins(
    cleanup: bool,
    name: Seq<char>,
    mode: Seq<char>,
    home: Seq<char>,
    metadata: Map<Seq<char>, TunnelMetaView>,
)
    requires
        metadata.contains_key(name),
    ensures
        ({
            let command = CommandView::Delete(DeleteArgsView { name: None, cleanup });
            let said = CommandView::Delete(
                DeleteArgsView { name: Some(name), cleanup: mode == "full"@ },
            );
            let e1 = Seq::empty().push(EventView::Loaded { home, metadata });
            let e4 = e1.push(EventView::Answer(name)).push(EventView::Answer(mode)).push(
                EventView::Confirmed(true),
            );
            &&& after(command, e4).0 is Delete
            &&& after(said, e1).0 is Delete
            &&& same_deletion(after(command, e4).0->Delete_0, after(said, e1).0->Delete_0)
            &&& request_after(command, e4) == request_after(said, e1)
        }),
{
    let command = CommandView::Delete(DeleteArgsView { name: None, cleanup });
    let said = CommandView::Delete(DeleteArgsView { name: Some(name), cleanup: mode == "full"@ });
    let e0: Seq<EventView> = Seq::empty();
    let loaded = EventView::Loaded { home, metadata };
    let e3 = e0.push(loaded).push(EventView::Answer(name)).push(EventView::Answer(mode));
    reveal(same_deletion);
    lemma_delete_asks(cleanup, name, mode, home, metadata);
    lemma_after_push(command, e3, EventView::Confirmed(true));
    lemma_after_push(said, e0, loaded);
}

/// Where the user is asked, it is which tunnel to delete, then how much, and then for
/// a yes that names the tunnel. What is deleted is the tunnel that was answered, and
/// as much as was answered: after the yes the same is asked for as where that name was
/// said on the command line, with `--cleanup` for a full cleanup.
pub proof fn law_delete_does_as_told(
    cleanup: bool,
    name: Seq<char>,
    mode: Seq<char>,
    home: Seq<char>,
    metadata: Map<Seq<char>, TunnelMetaView>,
    rest: Seq<EventView>,
)
    requires
        metadata.contains_key(name),
    ensures
        ({
            let command = CommandView::Delete(DeleteArgsView { name: None, cleanup });
            let said = CommandView::Delete(
                DeleteArgsView { name: Some(name), cleanup: mode == "full"@ },
            );
            let e1 = Seq::empty().push(EventView::Loaded { home, metadata });
            let e2 = e1.push(EventView::Answer(name));
            let e3 = e2.push(EventView::Answer(mode));
            &&& request_after(command, e1) == select_tunnel_of(
                "Select a tunnel to delete"@,
                metadata,
            )
            &&& request_after(command, e2) is Select
            &&& mode == "full"@ ==> request_after(command, e3) == RequestView::Confirm(
                "Delete tunnel '"@ + name + "'?"@,
            )
            &&& mode != "full"@ ==> request_after(command, e3) == RequestView::Confirm(
                "Remove tunnel '"@ + name + "'?"@,
            )
            &&& request_after(command, e3.push(EventView::Confirmed(true)) + rest)
                == request_after(said, e1 + rest)
        }),
{
    let command = CommandView::Delete(DeleteArgsView { name: None, cleanup });
    let said = CommandView::Delete(DeleteArgsView { name: Some(name), cleanup: mode == "full"@ });
    let e1 = Seq::empty().push(EventView::Loaded { home, metadata });
    let e3 = e1.push(EventView::Answer(name)).push(EventView::Answer(mode));
    lemma_delete_asks(cleanup, name, mode, home, metadata);
    lemma_delete_begins(cleanup, name, mode, home, metadata);
    lemma_same_deletion_rest(command, said, e3.push(EventView::Confirmed(true)), e1, rest);
}

/// How much is deleted is chosen between what is kept in Cloudflare and a full
/// cleanup.
pub proof fn law_delete_modes(
    cleanup: bool,
    name: Seq<char>,
    home: Seq<char>,
    metadata: Map<Seq<char>, TunnelMetaView>,
)
    requires
        metadata.contains_key(name),
    ensures
        request_after(
            CommandView::Delete(DeleteArgsView { name: None, cleanup }),
            Seq::empty().push(EventView::Loaded { home, metadata }).push(EventView::Answer(name)),
        ) matches RequestView::Select { choices, .. } && {
            &&& choices.len() == 2
            &&& choices[0].value == "local"@
            &&& choices[0].hint == "keep the tunnel in Cloudflare"@
            &&& choices[1].value == "full"@
            &&& choices[1].hint == "delete tunnel, DNS route, and config file"@
        },
{
    let command = CommandView::Delete(DeleteArgsView { name: None, cleanup });
    let e0: Seq<EventView> = Seq::empty();
    let loaded = EventView::Loaded { home, metadata };
    assert(metadata != Map::<Seq<char>, TunnelMetaView>::empty());
    lemma_after_push(command, e0, loaded);
    lemma_after_push(command, e0.push(loaded), EventView::Answer(name));
}

/// A tunnel that is not managed is not deleted, whether it was named or chosen; and
/// where there is none to choose from, the command ends.
pub proof fn law_delete_refuses(
    args: DeleteArgsView,
    name: Seq<char>,
    home: Seq<char>,
    metadata: Map<Seq<char>, TunnelMetaView>,
)
    requires
        args.name matches Some(n) ==> n == name,
        !metadata.contains_key(name),
    ensures
        ({
            let command = CommandView::Delete(args);
            let e1 = Seq::empty().push(EventView::Loaded { home, metadata });
            let nothing = Map::<Seq<char>, TunnelMetaView>::empty();
            &&& args.name is Some || metadata != nothing ==> request_after(
                command,
                answered(e1, args.name, name),
            ) == RequestView::Stop(OutcomeView::Failure(ErrorView::NotInMetadata { name }))
            &&& args.name is None && metadata == nothing ==> request_after(command, e1)
                == RequestView::Stop(OutcomeView::Success)
        }),
{
    let command = CommandView::Delete(args);
    let e0: Seq<EventView> = Seq::empty();
    let loaded = EventView::Loaded { home, metadata };
    lemma_after_push(command, e0, loaded);
    lemma_after_push(command, e0.push(loaded), EventView::Answer(name));
}

/// In the end the user reads which tunnel is gone, and how far.
pub proof fn law_delete_tells(s: DeleteView)
    requires
        s.phase == DeletePhase::Saving,
    ensures
        ({
            let notices = delete_step(s, EventView::Done).1.notices;
            &&& notices.len() == 1
            &&& s.args.interactive() && s.cleanup ==> readable(notices[0]) == "Tunnel '"@ + s.name
                + "' fully deleted."@
            &&& s.args.interactive() && !s.cleanup ==> readable(notices[0]) == "Removed '"@ + s.name
                + "' from cftun. Still exists in Cloudflare."@
            &&& !s.args.interactive() && s.cleanup ==> readable(notices[0]) == "✓ Tunnel '"@
                + s.name + "' removed."@
            &&& !s.args.interactive() && !s.cleanup ==> readable(notices[0]) == "✓ Tunnel '"@
                + s.name
                + "' removed from cftun metadata. Use --cleanup to also delete from Cloudflare."@
        }),
{
    broadcast use lemma_run_together;

    reveal_strlit("✓");
    reveal_strlit(" Tunnel '");
    reveal_strlit("✓ Tunnel '");
    reveal_strlit("' removed from cftun metadata. Use ");
    reveal_strlit("--cleanup");
    reveal_strlit(" to also delete from Cloudflare.");
    reveal_strlit("' removed from cftun metadata. Use --cleanup to also delete from Cloudflare.");
    law_lines_read(" Tunnel '"@ + s.name + "' removed."@);
    assert("✓"@ + (" Tunnel '"@ + s.name + "' removed."@) =~= "✓ Tunnel '"@ + s.name
        + "' removed."@);
    let none: Seq<char> = Seq::empty();
    assert("' removed from cftun metadata. Use "@ + "--cleanup"@
        + " to also delete from Cloudflare."@
        =~= "' removed from cftun metadata. Use --cleanup to also delete from Cloudflare."@);
    assert(none + "✓"@ + (" Tunnel '"@ + s.name + "' removed from cftun metadata. Use "@)
        + "--cleanup"@ + " to also delete from Cloudflare."@ =~= "✓ Tunnel '"@ + s.name + (
    "' removed from cftun metadata. Use "@ + "--cleanup"@ + " to also delete from Cloudflare."@));
}

/// On the way the user reads which tunnel and which route are deleted.
pub proof fn law_delete_reports(s: DeleteView, deleted: EventView)
    requires
        s.phase == DeletePhase::Deleting,
    ensures
        ({
            let notices = delete_step(s, deleted).1.notices;
            &&& s.args.interactive() ==> notices.len() == 2 && readable(notices[1])
                == "Removing DNS route "@ + s.tunnel.hostname + "..."@
            &&& !s.args.interactive() ==> notices.len() == 1 && readable(notices[0])
                == "→ Removing DNS route "@ + s.tunnel.hostname + "..."@
            &&& s.args.interactive() && s.cleanup ==> {
                let start = delete_step(
                    DeleteView { phase: DeletePhase::Confirming, ..s },
                    EventView::Confirmed(true),
                ).1.notices;
                start.len() == 1 && readable(start[0]) == "Deleting tunnel '"@ + s.name
                    + "' from Cloudflare..."@
            }
        }),
{
    reveal_strlit("→");
    reveal_strlit(" Removing DNS route ");
    reveal_strlit("→ Removing DNS route ");
    law_lines_read(" Removing DNS route "@ + s.tunnel.hostname + "..."@);
    assert("→"@ + (" Removing DNS route "@ + s.tunnel.hostname + "..."@)
        =~= "→ Removing DNS route "@ + s.tunnel.hostname + "..."@);
}

/// Where the tunnel was named on the command line, the user reads that it is deleted.
pub proof fn law_delete_announces_itself(
    name: Seq<char>,
    home: Seq<char>,
    metadata: Map<Seq<char>, TunnelMetaView>,
)
    requires
        metadata.contains_key(name),
    ensures
        ({
            let notices = after(
                CommandView::Delete(DeleteArgsView { name: Some(name), cleanup: true }),
                Seq::empty().push(EventView::Loaded { home, metadata }),
            ).1.notices;
            notices.len() == 1 && readable(notices[0]) == "→ Deleting cloudflared tunnel '"@ + name
                + "'..."@
        }),
{
    let command = CommandView::Delete(DeleteArgsView { name: Some(name), cleanup: true });
    let e0: Seq<EventView> = Seq::empty();
    lemma_after_push(command, e0, EventView::Loaded { home, metadata });
    reveal_strlit("→");
    reveal_strlit(" Deleting cloudflared tunnel '");
    reveal_strlit("→ Deleting cloudflared tunnel '");
    law_lines_read(" Deleting cloudflared tunnel '"@ + name + "'..."@);
    assert("→"@ + (" Deleting cloudflared tunnel '"@ + name + "'..."@)
        =~= "→ Deleting cloudflared tunnel '"@ + name + "'..."@);
}

} // verus!
