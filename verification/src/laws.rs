//! What holds of every run of a command, whatever the replies to its requests.
pub mod create;
pub mod delete;
pub mod files;
pub mod import;
pub mod inspect;
pub mod update;

use crate::cloudflared::{run_args_of, CloudflaredTunnelView};
use crate::create::{CreateArgsView, CreatePhase, CreateView};
use crate::delete::{DeleteArgsView, DeletePhase, DeleteView};
use crate::dialog::{changes, plain, EventView, NoticeView, OutcomeView, RequestView};
use crate::import::{ImportPhase, ImportView};
use crate::inspect::{starting_line, OverviewPhase, RunPhase, ShowPhase};
use crate::laws::create::routes;
use crate::metadata::TunnelMetaView;
use crate::session::{
    after, lemma_after_push, request_after, session_step, CommandView, SessionView,
};
use crate::update::{UpdatePhase, UpdateView};
use vstd::prelude::*;

verus! {

/// Whether the user is asked for a yes before `command` changes anything.
pub open spec fn interactive(command: CommandView) -> bool {
    match command {
        CommandView::Create(args) => args.interactive(),
        CommandView::Update(args) => args.interactive(),
        CommandView::Delete(args) => args.interactive(),
        _ => false,
    }
}

/// Whether one of `events` is a yes to the question for one.
#[verifier::opaque]
pub open spec fn confirmed(command: CommandView, events: Seq<EventView>) -> bool {
    exists|i: int|
        0 <= i < events.len() && #[trigger] events[i] == EventView::Confirmed(true)
            && request_after(command, events.take(i)) is Confirm
}

/// What is known of the tunnels after `event` answered the request for them.
pub open spec fn fetched(event: EventView) -> Seq<CloudflaredTunnelView> {
    match event {
        EventView::Tunnels(tunnels) => tunnels,
        _ => Seq::empty(),
    }
}

/// A yes stays one of the events.
pub proof fn lemma_confirmed_stays(command: CommandView, events: Seq<EventView>)
    requires
        events.len() > 0,
        confirmed(command, events.drop_last()) || (events.last() == EventView::Confirmed(true)
            && request_after(command, events.drop_last()) is Confirm),
    ensures
        confirmed(command, events),
{
    reveal(confirmed);
    let front = events.drop_last();
    if confirmed(command, front) {
        let i = choose|i: int|
            0 <= i < front.len() && #[trigger] front[i] == EventView::Confirmed(true)
                && request_after(command, front.take(i)) is Confirm;
        assert(events[i] == EventView::Confirmed(true));
        assert(events.take(i) =~= front.take(i));
    } else {
        let i = events.len() - 1;
        assert(events[i] == EventView::Confirmed(true));
        assert(events.take(i) =~= front);
    }
}

/// How far a command has come.
pub open spec fn progress(s: SessionView) -> nat {
    match s {
        SessionView::Create(s) => match s.phase {
            CreatePhase::Loading => 0,
            CreatePhase::Fetching => 1,
            CreatePhase::AskingName => 2,
            CreatePhase::AskingHostname => 3,
            CreatePhase::AskingLocal => 4,
            CreatePhase::Confirming => 5,
            CreatePhase::Creating => 6,
            CreatePhase::Routing => 7,
            CreatePhase::Writing => 8,
            CreatePhase::Saving => 9,
            CreatePhase::Stopped => 10,
        },
        SessionView::Update(s) => match s.phase {
            UpdatePhase::Loading => 0,
            UpdatePhase::Selecting => 1,
            UpdatePhase::AskingHostname => 2,
            UpdatePhase::AskingLocal => 3,
            UpdatePhase::Confirming => 4,
            UpdatePhase::Unrouting => 5,
            UpdatePhase::Routing => 6,
            UpdatePhase::Writing => 7,
            UpdatePhase::Saving => 8,
            UpdatePhase::Stopped => 10,
        },
        SessionView::Delete(s) => match s.phase {
            DeletePhase::Loading => 0,
            DeletePhase::Selecting => 1,
            DeletePhase::ChoosingMode => 2,
            DeletePhase::Confirming => 3,
            DeletePhase::Deleting => 4,
            DeletePhase::Unrouting => 5,
            DeletePhase::Checking => 6,
            DeletePhase::Removing => 7,
            DeletePhase::Saving => 8,
            DeletePhase::Stopped => 10,
        },
        SessionView::Import(s) => match s.phase {
            ImportPhase::Loading => 0,
            ImportPhase::Fetching => 1,
            ImportPhase::Unrouting => 2,
            ImportPhase::Routing => 3,
            ImportPhase::Writing => 4,
            ImportPhase::Saving => 5,
            ImportPhase::Stopped => 10,
        },
        SessionView::Overview(s) => match s.phase {
            OverviewPhase::Fetching => 0,
            OverviewPhase::Loading => 1,
            OverviewPhase::Stopped => 10,
        },
        SessionView::Show(s) => match s.phase {
            ShowPhase::Loading => 0,
            ShowPhase::Reading => 1,
            ShowPhase::Stopped => 10,
        },
        SessionView::Run(s) => match s.phase {
            RunPhase::Loading => 0,
            RunPhase::Selecting => 1,
            RunPhase::Running => 2,
            RunPhase::Stopped => 10,
        },
    }
}

/// Whether `event` brings `s` further, unless it has ended; and whether it is
/// known as ended exactly where it asks for nothing more.
pub open spec fn moves_on(s: SessionView, event: EventView) -> bool {
    let next = session_step(s, event);
    &&& progress(next.0) > progress(s) || progress(s) == 10
    &&& progress(s) == 10 ==> progress(next.0) == 10
    &&& progress(next.0) == 10 <==> next.1.request is Stop
}

proof fn lemma_create_moves_on(s: CreateView, event: EventView)
    ensures
        moves_on(SessionView::Create(s), event),
{
}

proof fn lemma_update_moves_on(s: UpdateView, event: EventView)
    ensures
        moves_on(SessionView::Update(s), event),
{
}

proof fn lemma_delete_moves_on(s: DeleteView, event: EventView)
    ensures
        moves_on(SessionView::Delete(s), event),
{
}

proof fn lemma_import_moves_on(s: ImportView, event: EventView)
    ensures
        moves_on(SessionView::Import(s), event),
{
}

/// Every event brings a command further, until it has ended.
pub proof fn law_progress(s: SessionView, event: EventView)
    ensures
        moves_on(s, event),
{
    match s {
        SessionView::Create(s) => lemma_create_moves_on(s, event),
        SessionView::Update(s) => lemma_update_moves_on(s, event),
        SessionView::Delete(s) => lemma_delete_moves_on(s, event),
        SessionView::Import(s) => lemma_import_moves_on(s, event),
        _ => {},
    }
}

/// A command has come at least as far as there were events.
proof fn lemma_progress(command: CommandView, events: Seq<EventView>)
    ensures
        progress(after(command, events).0) >= events.len() || progress(after(command, events).0)
            == 10,
        progress(after(command, events).0) == 10 <==> request_after(command, events) is Stop,
    decreases events.len(),
{
    if events.len() > 0 {
        lemma_progress(command, events.drop_last());
        law_progress(after(command, events.drop_last()).0, events.last());
    }
}

/// Every command ends, at the latest after ten events, whatever they are.
pub proof fn law_ends(command: CommandView, events: Seq<EventView>)
    requires
        events.len() >= 10,
    ensures
        request_after(command, events) is Stop,
{
    lemma_progress(command, events);
    lemma_progress_bound(after(command, events).0);
}

proof fn lemma_progress_bound(s: SessionView)
    ensures
        progress(s) <= 10,
{
}

/// A command that has ended does nothing more.
pub proof fn law_stays_ended(command: CommandView, events: Seq<EventView>, event: EventView)
    requires
        request_after(command, events) is Stop,
    ensures
        request_after(command, events.push(event)) is Stop,
{
    lemma_progress(command, events);
    assert(events.push(event).drop_last() =~= events);
    law_progress(after(command, events).0, event);
}

/// Listing, status, showing and running change nothing.
pub proof fn law_inspection_changes_nothing(command: CommandView, events: Seq<EventView>)
    requires
        command is List || command is Status || command is Show || command is Run,
    ensures
        !changes(request_after(command, events)),
        !(after(command, events).0 is Create || after(command, events).0 is Update || after(
            command,
            events,
        ).0 is Delete || after(command, events).0 is Import),
    decreases events.len(),
{
    if events.len() > 0 {
        law_inspection_changes_nothing(command, events.drop_last());
    }
}

/// Where the user is asked, nothing is changed before a yes.
pub proof fn law_changes_need_a_yes(command: CommandView, events: Seq<EventView>)
    requires
        interactive(command),
        changes(request_after(command, events)),
    ensures
        confirmed(command, events),
{
    match command {
        CommandView::Create(args) => create::law_create_is_guarded(args, events),
        CommandView::Update(args) => update::law_update_is_guarded(args, events),
        CommandView::Delete(args) => delete::law_delete_is_guarded(args, events),
        _ => {},
    }
}

/// A question for a yes comes from a command at a certain point of its way.
proof fn lemma_confirm_progress(command: CommandView, events: Seq<EventView>)
    requires
        request_after(command, events) is Confirm,
    ensures
        interactive(command),
        progress(after(command, events).0) == match command {
            CommandView::Create(_) => 5nat,
            CommandView::Update(_) => 4nat,
            _ => 3nat,
        },
        request_after(command, events.push(EventView::Confirmed(false))) == RequestView::Stop(
            OutcomeView::Success,
        ),
{
    lemma_after_push(command, events, EventView::Confirmed(false));
    match command {
        CommandView::Create(args) => {
            create::lemma_create_confirms(args, events);
        },
        CommandView::Update(args) => {
            update::lemma_update_confirms(args, events);
        },
        CommandView::Delete(args) => {
            delete::lemma_delete_confirms(args, events);
        },
        CommandView::Import(args) => {
            import::lemma_import(args, events);
        },
        _ => {
            lemma_inspection_asks_no_yes(command, events);
        },
    }
}

/// Listing, status, showing and running ask for no yes.
proof fn lemma_inspection_asks_no_yes(command: CommandView, events: Seq<EventView>)
    requires
        command is List || command is Status || command is Show || command is Run,
    ensures
        !(request_after(command, events) is Confirm),
{
    if events.len() > 0 {
        law_inspection_changes_nothing(command, events.drop_last());
    }
}

/// More events bring a command further.
proof fn lemma_progress_grows(command: CommandView, events: Seq<EventView>, n: int)
    requires
        0 <= n < events.len(),
        !(request_after(command, events.take(n)) is Stop),
    ensures
        progress(after(command, events).0) > progress(after(command, events.take(n)).0),
    decreases events.len(),
{
    let front = events.drop_last();
    lemma_progress(command, events.take(n));
    if n < front.len() {
        assert(front.take(n) =~= events.take(n));
        lemma_progress_grows(command, front, n);
    } else {
        assert(events.take(n) =~= front);
    }
    law_progress(after(command, front).0, events.last());
    lemma_progress_bound(after(command, events.take(n)).0);
}

/// A no to the question for a yes ends the command well, and nothing was changed.
pub proof fn law_no_changes_nothing(command: CommandView, events: Seq<EventView>)
    requires
        request_after(command, events) is Confirm,
    ensures
        request_after(command, events.push(EventView::Confirmed(false))) == RequestView::Stop(
            OutcomeView::Success,
        ),
        forall|i: int|
            0 <= i <= events.len() ==> !changes(#[trigger] request_after(command, events.take(i))),
{
    lemma_confirm_progress(command, events);
    assert forall|i: int| 0 <= i <= events.len() implies !changes(
        #[trigger] request_after(command, events.take(i)),
    ) by {
        let part = events.take(i);
        if changes(request_after(command, part)) {
            law_changes_need_a_yes(command, part);
            reveal(confirmed);
            let j = choose|j: int|
                0 <= j < part.len() && #[trigger] part[j] == EventView::Confirmed(true)
                    && request_after(command, part.take(j)) is Confirm;
            assert(part.take(j) =~= events.take(j));
            lemma_confirm_progress(command, events.take(j));
            lemma_progress_grows(command, events, j);
        }
    }
}

/// Deleting a tunnel leaves the metadata as it was before the tunnel was created.
pub proof fn law_delete_undoes_create(
    create_args: CreateArgsView,
    create_events: Seq<EventView>,
    delete_args: DeleteArgsView,
    delete_events: Seq<EventView>,
)
    requires
        request_after(CommandView::Create(create_args), create_events) is SaveMetadata,
        request_after(CommandView::Delete(delete_args), delete_events) is SaveMetadata,
        delete_events[0] is Loaded,
        delete_events[0]->metadata == request_after(
            CommandView::Create(create_args),
            create_events,
        )->SaveMetadata_0,
        after(CommandView::Delete(delete_args), delete_events).0->Delete_0.name == after(
            CommandView::Create(create_args),
            create_events,
        ).0->Create_0.name,
    ensures
        create_events[0] is Loaded,
        request_after(CommandView::Delete(delete_args), delete_events)->SaveMetadata_0
            == create_events[0]->metadata,
{
    create::law_create_saves(create_args, create_events);
    delete::law_delete_saves(delete_args, delete_events);
    let s = after(CommandView::Create(create_args), create_events).0->Create_0;
    let saved = request_after(CommandView::Create(create_args), create_events)->SaveMetadata_0;
    assert(s.metadata.insert(s.name, saved[s.name]).remove(s.name) =~= s.metadata);
}

/// A tunnel that was created is run with the configuration that was written for
/// it, and its public URL is the host name that was routed.
pub proof fn law_run_after_create(
    args: CreateArgsView,
    events: Seq<EventView>,
    home: Seq<char>,
)
    requires
        request_after(CommandView::Create(args), events) is SaveMetadata,
    ensures
        ({
            let s = after(CommandView::Create(args), events).0->Create_0;
            let saved = request_after(CommandView::Create(args), events)->SaveMetadata_0;
            let run = CommandView::Run(Some(s.name));
            let step = after(run, seq![EventView::Loaded { home, metadata: saved }]).1;
            &&& request_after(
                CommandView::Create(args),
                events.drop_last(),
            ) matches RequestView::WriteConfig { path, config } && step.request
                == RequestView::RunTunnel(run_args_of(path))
            &&& routes(events[events.len() - 2], s.name, saved[s.name].hostname)
            &&& step.notices[0] == starting_line(s.name, saved[s.name])
        }),
{
    create::law_create_saves(args, events);
    let s = after(CommandView::Create(args), events).0->Create_0;
    let saved = request_after(CommandView::Create(args), events)->SaveMetadata_0;
    let run = CommandView::Run(Some(s.name));
    let none: Seq<EventView> = Seq::empty();
    lemma_after_push(run, none, EventView::Loaded { home, metadata: saved });
}

/// Showing a managed tunnel reads the file of its configuration, and prints what
/// is in it.
pub proof fn law_show_prints_config(
    name: Seq<char>,
    home: Seq<char>,
    metadata: Map<Seq<char>, TunnelMetaView>,
    content: Seq<char>,
)
    requires
        metadata.contains_key(name),
    ensures
        ({
            let command = CommandView::Show(name);
            let path = metadata[name].config_path;
            let loaded = Seq::empty().push(EventView::Loaded { home, metadata });
            let step = after(command, loaded.push(EventView::Content(content))).1;
            &&& request_after(command, loaded) == RequestView::ReadFile(path)
            &&& step.notices.last() == NoticeView::Line(Seq::empty().push(plain(content)))
            &&& step.request == RequestView::Stop(OutcomeView::Success)
        }),
{
    let command = CommandView::Show(name);
    let none: Seq<EventView> = Seq::empty();
    let loaded = none.push(EventView::Loaded { home, metadata });
    lemma_after_push(command, none, EventView::Loaded { home, metadata });
    lemma_after_push(command, loaded, EventView::Content(content));
}

/// Whether `s` goes on where its request could not be carried out: `create` and
/// `list` do without the tunnels that exist, and it does not matter whether a
/// tunnel or a route is there to be deleted.
pub open spec fn tolerates_failure(s: SessionView) -> bool {
    match s {
        SessionView::Create(s) => s.phase == CreatePhase::Fetching,
        SessionView::Overview(s) => s.phase == OverviewPhase::Fetching && !s.status,
        SessionView::Update(s) => s.phase == UpdatePhase::Unrouting,
        SessionView::Delete(s) => s.phase == DeletePhase::Deleting || s.phase
            == DeletePhase::Unrouting,
        SessionView::Import(s) => s.phase == ImportPhase::Unrouting,
        _ => false,
    }
}

/// Where a request could not be carried out, the command ends with that failure,
/// unless it is one that the command does without.
pub proof fn law_failure_ends(s: SessionView)
    ensures
        (session_step(s, EventView::Failed).1.request matches RequestView::Stop(
            OutcomeView::Reported(_),
        )) == !tolerates_failure(s),
{
}

} // verus!
