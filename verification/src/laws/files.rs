//! What the commands make of the files that cftun keeps.
//!
//! A file is known here by the text of its path, and what is said is said of these
//! texts. Two texts can name one file, as those of the tunnels `a` and `./a` do:
//! then a configuration can be overwritten though its path was free.
use crate::cloudflared::run_args_of;
use crate::config::{configures, tunnel_of, TunnelConfigView};
use crate::create::{create_step, CreateArgsView, CreatePhase, CreateView};
use crate::delete::{delete_step, DeleteArgsView, DeletePhase, DeleteView};
use crate::dialog::{EventView, OutcomeView, RequestView};
use crate::import::{import_step, ImportArgsView, ImportPhase, ImportView};
use crate::laws::create::{create_holds, lemma_create, write_request};
use crate::laws::delete::{delete_holds, lemma_delete};
use crate::laws::import::lemma_import;
use crate::laws::law_inspection_changes_nothing;
use crate::laws::update::{lemma_update, rewrite_request, update_holds};
use crate::metadata::{claims, TunnelMetaView};
use crate::paths::{
    cftun_dir_of, config_path_of, is_absolute, is_reserved, joined, law_own_config,
    metadata_path_of,
};
use crate::session::{after, lemma_after_push, request_after, CommandView};
use crate::update::{update_step, UpdateArgsView, UpdatePhase, UpdateView};
use vstd::prelude::*;

verus! {

/// The files that cftun keeps: what the metadata notes, and the configurations by
/// path. The metadata has a path too, and a file holds what was written to it last.
pub struct Files {
    pub home: Seq<char>,
    pub metadata: Map<Seq<char>, TunnelMetaView>,
    pub configs: Map<Seq<char>, TunnelConfigView>,
}

/// Whether every managed tunnel has a configuration of its own, in another place
/// than the metadata, which makes cloudflared run that tunnel.
pub open spec fn consistent(files: Files) -> bool {
    &&& forall|name: Seq<char>| #[trigger]
        files.metadata.contains_key(name) ==> {
            let tunnel = files.metadata[name];
            &&& tunnel.config_path != metadata_path_of(files.home)
            &&& files.configs.contains_key(tunnel.config_path)
            &&& configures(files.configs[tunnel.config_path], tunnel)
        }
    &&& forall|a: Seq<char>, b: Seq<char>| #[trigger]
        files.metadata.contains_key(a) && #[trigger] files.metadata.contains_key(b) && a != b
            ==> files.metadata[a].config_path != files.metadata[b].config_path
}

/// What is noted in `files` once something else than metadata was done to the file
/// at `path`: nothing, where that was the file of the metadata.
pub open spec fn noted_without(files: Files, path: Seq<char>) -> Map<Seq<char>, TunnelMetaView> {
    if path == metadata_path_of(files.home) {
        Map::empty()
    } else {
        files.metadata
    }
}

/// The files once `request` has been carried out.
pub open spec fn carried_out(files: Files, request: RequestView) -> Files {
    match request {
        RequestView::WriteConfig { path, config } => Files {
            metadata: noted_without(files, path),
            configs: files.configs.insert(path, config),
            ..files
        },
        RequestView::RemoveFile(path) => Files {
            metadata: noted_without(files, path),
            configs: files.configs.remove(path),
            ..files
        },
        RequestView::SaveMetadata(metadata) => Files {
            metadata,
            configs: files.configs.remove(metadata_path_of(files.home)),
            ..files
        },
        _ => files,
    }
}

/// What becomes of `files` when `command` runs and its requests are answered with
/// `events`. A file changes where the answer is that the request was carried out.
pub open spec fn files_after(files: Files, command: CommandView, events: Seq<EventView>) -> Files
    decreases events.len(),
{
    if events.len() == 0 {
        files
    } else {
        let front = events.drop_last();
        let before = files_after(files, command, front);
        if events.last() == EventView::Done {
            carried_out(before, request_after(command, front))
        } else {
            before
        }
    }
}

/// Whether what the first of `events` tells is what is in the files.
pub open spec fn told(files: Files, events: Seq<EventView>) -> bool {
    events.len() > 0 && events[0] is Loaded ==> events[0] == EventView::Loaded {
        home: files.home,
        metadata: files.metadata,
    }
}

/// `files` with the configuration of a tunnel that cftun takes on.
spec fn configured(
    files: Files,
    name: Seq<char>,
    uuid: Seq<char>,
    hostname: Seq<char>,
    local: Seq<char>,
) -> Files {
    carried_out(files, write_request(files.home, name, uuid, hostname, local))
}

/// `files` with the configuration of a tunnel that cftun takes on, and with the
/// tunnel noted.
spec fn taken_on(
    files: Files,
    name: Seq<char>,
    uuid: Seq<char>,
    hostname: Seq<char>,
    local: Seq<char>,
) -> Files {
    let tunnel = tunnel_of(files.home, name, uuid, hostname, local);
    carried_out(
        configured(files, name, uuid, hostname, local),
        RequestView::SaveMetadata(files.metadata.insert(name, tunnel)),
    )
}

/// Whether the path of the configuration of `name` is neither that of the metadata
/// nor that of the configuration of a managed tunnel.
pub open spec fn path_is_free(files: Files, name: Seq<char>) -> bool {
    &&& !is_reserved(files.home, name)
    &&& !claims(files.metadata, config_path_of(files.home, name))
}

/// Where the configuration of every managed tunnel goes by its name, the path of a
/// tunnel that is not managed is free, unless its name is reserved, or one of the
/// names is absolute and spells out the path that the other one has in cftun's
/// directory.
pub proof fn law_path_is_free(files: Files, name: Seq<char>)
    requires
        !files.metadata.contains_key(name),
        !is_reserved(files.home, name),
        forall|other: Seq<char>| #[trigger]
            files.metadata.contains_key(other) ==> {
                let dir = cftun_dir_of(files.home);
                &&& files.metadata[other].config_path == config_path_of(files.home, other)
                &&& !(is_absolute(other) && !is_absolute(name) && other == joined(dir, name))
                &&& !(is_absolute(name) && !is_absolute(other) && name == joined(dir, other))
            },
    ensures
        path_is_free(files, name),
{
    assert forall|other: Seq<char>| #[trigger]
        files.metadata.contains_key(other) implies files.metadata[other].config_path
        != config_path_of(files.home, name) by {
        law_own_config(files.home, other, name);
    }
}

/// Taking on a tunnel keeps the files consistent, half way too.
proof fn lemma_taken_on(
    files: Files,
    name: Seq<char>,
    uuid: Seq<char>,
    hostname: Seq<char>,
    local: Seq<char>,
)
    requires
        consistent(files),
        path_is_free(files, name),
    ensures
        consistent(configured(files, name, uuid, hostname, local)),
        consistent(taken_on(files, name, uuid, hostname, local)),
{
}

/// Where `create` comes to after `event`.
proof fn lemma_create_step(s: CreateView, event: EventView)
    ensures
        ({
            let next = create_step(s, event).0;
            &&& next.phase == CreatePhase::Saving ==> s.phase == CreatePhase::Writing && event
                == EventView::Done
            &&& s.phase == CreatePhase::Writing || s.phase == CreatePhase::Saving || s.phase
                == CreatePhase::Stopped ==> next == (CreateView { phase: next.phase, ..s }) && (
            next.phase == CreatePhase::Saving || next.phase == CreatePhase::Stopped)
        }),
{
}

/// What `create` has made of the files.
spec fn create_files(files: Files, s: CreateView, now: Files) -> bool {
    let half = configured(files, s.name, s.uuid, s.hostname, s.local);
    let full = taken_on(files, s.name, s.uuid, s.hostname, s.local);
    &&& match s.phase {
        CreatePhase::Saving => now == half,
        CreatePhase::Stopped => now == files || now == half || now == full,
        _ => now == files,
    }
    &&& now != files ==> path_is_free(files, s.name)
}

proof fn lemma_create_files(files: Files, args: CreateArgsView, events: Seq<EventView>)
    requires
        told(files, events),
    ensures
        after(CommandView::Create(args), events).0 is Create,
        create_files(
            files,
            after(CommandView::Create(args), events).0->Create_0,
            files_after(files, CommandView::Create(args), events),
        ),
    decreases events.len(),
{
    lemma_create(args, events);
    if events.len() > 0 {
        let front = events.drop_last();
        if front.len() > 0 {
            assert(front[0] == events[0]);
        }
        lemma_create_files(files, args, front);
        lemma_create(args, front);
        reveal(create_holds);
        lemma_create_step(
            after(CommandView::Create(args), front).0->Create_0,
            events.last(),
        );
    }
}

/// Creating a tunnel keeps the files consistent at every moment, also where it
/// fails half way.
pub proof fn law_create_keeps_files(files: Files, args: CreateArgsView, events: Seq<EventView>)
    requires
        consistent(files),
        told(files, events),
    ensures
        consistent(files_after(files, CommandView::Create(args), events)),
{
    lemma_create_files(files, args, events);
    let s = after(CommandView::Create(args), events).0->Create_0;
    if files_after(files, CommandView::Create(args), events) != files {
        lemma_taken_on(files, s.name, s.uuid, s.hostname, s.local);
    }
}

/// Where `import` comes to after `event`.
proof fn lemma_import_step(s: ImportView, event: EventView)
    ensures
        ({
            let next = import_step(s, event).0;
            &&& next.phase == ImportPhase::Saving ==> s.phase == ImportPhase::Writing && event
                == EventView::Done
            &&& s.phase == ImportPhase::Writing || s.phase == ImportPhase::Saving || s.phase
                == ImportPhase::Stopped ==> next == (ImportView { phase: next.phase, ..s }) && (
            next.phase == ImportPhase::Saving || next.phase == ImportPhase::Stopped)
        }),
{
}

/// What `import` has made of the files.
spec fn import_files(files: Files, s: ImportView, now: Files) -> bool {
    let half = configured(files, s.args.name, s.uuid, s.args.hostname, s.args.local);
    let full = taken_on(files, s.args.name, s.uuid, s.args.hostname, s.args.local);
    &&& match s.phase {
        ImportPhase::Saving => now == half,
        ImportPhase::Stopped => now == files || now == half || now == full,
        _ => now == files,
    }
    &&& now != files ==> path_is_free(files, s.args.name)
}

proof fn lemma_import_files(files: Files, args: ImportArgsView, events: Seq<EventView>)
    requires
        told(files, events),
    ensures
        after(CommandView::Import(args), events).0 is Import,
        import_files(
            files,
            after(CommandView::Import(args), events).0->Import_0,
            files_after(files, CommandView::Import(args), events),
        ),
    decreases events.len(),
{
    lemma_import(args, events);
    if events.len() > 0 {
        let front = events.drop_last();
        if front.len() > 0 {
            assert(front[0] == events[0]);
        }
        lemma_import_files(files, args, front);
        lemma_import(args, front);
        lemma_import_step(
            after(CommandView::Import(args), front).0->Import_0,
            events.last(),
        );
    }
}

/// Importing a tunnel keeps the files consistent at every moment, also where it
/// fails half way.
pub proof fn law_import_keeps_files(files: Files, args: ImportArgsView, events: Seq<EventView>)
    requires
        consistent(files),
        told(files, events),
    ensures
        consistent(files_after(files, CommandView::Import(args), events)),
{
    lemma_import_files(files, args, events);
    lemma_import(args, events);
    let s = after(CommandView::Import(args), events).0->Import_0;
    if files_after(files, CommandView::Import(args), events) != files {
        lemma_taken_on(files, s.args.name, s.uuid, s.args.hostname, s.args.local);
    }
}

/// Where `update` comes to after `event`.
proof fn lemma_update_step(s: UpdateView, event: EventView)
    ensures
        ({
            let next = update_step(s, event);
            &&& next.0.phase == UpdatePhase::Saving ==> s.phase == UpdatePhase::Writing && event
                == EventView::Done
            &&& s.phase == UpdatePhase::Writing || s.phase == UpdatePhase::Saving || s.phase
                == UpdatePhase::Stopped ==> next.0 == (UpdateView { phase: next.0.phase, ..s }) && (
            next.0.phase == UpdatePhase::Saving || next.0.phase == UpdatePhase::Stopped)
            &&& s.phase == UpdatePhase::Writing || s.phase == UpdatePhase::Stopped || (s.phase
                == UpdatePhase::Saving && event != EventView::Done) ==> next.1.request
                != RequestView::Stop(OutcomeView::Success)
        }),
{
}

/// `files` with the configuration that `update` writes.
spec fn reconfigured(files: Files, s: UpdateView) -> Files {
    carried_out(files, rewrite_request(UpdateView { home: files.home, ..s }))
}

/// `files` with the configuration that `update` writes, and with the change noted.
spec fn updated(files: Files, s: UpdateView) -> Files {
    carried_out(
        reconfigured(files, s),
        RequestView::SaveMetadata(files.metadata.insert(s.name, s.new_tunnel())),
    )
}

/// What `update` has made of the files.
spec fn update_files(files: Files, s: UpdateView, request: RequestView, now: Files) -> bool {
    &&& match s.phase {
        UpdatePhase::Saving => now == reconfigured(files, s),
        UpdatePhase::Stopped => {
            ||| now == files
            ||| now == updated(files, s)
            ||| now == reconfigured(files, s) && request != RequestView::Stop(OutcomeView::Success)
        },
        _ => now == files,
    }
    &&& now != files ==> files.metadata.contains_key(s.name) && s.tunnel == files.metadata[s.name]
}

proof fn lemma_update_files(files: Files, args: UpdateArgsView, events: Seq<EventView>)
    requires
        told(files, events),
    ensures
        after(CommandView::Update(args), events).0 is Update,
        update_files(
            files,
            after(CommandView::Update(args), events).0->Update_0,
            request_after(CommandView::Update(args), events),
            files_after(files, CommandView::Update(args), events),
        ),
    decreases events.len(),
{
    lemma_update(args, events);
    if events.len() > 0 {
        let front = events.drop_last();
        if front.len() > 0 {
            assert(front[0] == events[0]);
        }
        lemma_update_files(files, args, front);
        lemma_update(args, front);
        reveal(update_holds);
        lemma_update_step(
            after(CommandView::Update(args), front).0->Update_0,
            events.last(),
        );
    }
}

/// What an update makes of consistent files is consistent.
proof fn lemma_updated(files: Files, s: UpdateView)
    requires
        consistent(files),
        files.metadata.contains_key(s.name),
        s.tunnel == files.metadata[s.name],
    ensures
        consistent(updated(files, s)),
{
}

/// An update that ends well keeps the files consistent.
proof fn lemma_update_keeps_files(files: Files, args: UpdateArgsView, events: Seq<EventView>)
    requires
        consistent(files),
        told(files, events),
        request_after(CommandView::Update(args), events) == RequestView::Stop(OutcomeView::Success),
    ensures
        consistent(files_after(files, CommandView::Update(args), events)),
{
    lemma_update_files(files, args, events);
    let s = after(CommandView::Update(args), events).0->Update_0;
    assert(s.phase == UpdatePhase::Stopped) by {
        lemma_update(args, events);
        reveal(update_holds);
    }
    if files_after(files, CommandView::Update(args), events) != files {
        lemma_updated(files, s);
    }
}

/// Where `delete` comes to after `event`.
proof fn lemma_delete_step(s: DeleteView, event: EventView)
    ensures
        ({
            let next = delete_step(s, event);
            &&& s.phase == DeletePhase::Removing || s.phase == DeletePhase::Saving || s.phase
                == DeletePhase::Stopped ==> next.0 == (DeleteView { phase: next.0.phase, ..s }) && (
            next.0.phase == DeletePhase::Saving || next.0.phase == DeletePhase::Stopped)
            &&& s.phase == DeletePhase::Removing && next.0.phase == DeletePhase::Saving ==> event
                == EventView::Done
            &&& s.phase == DeletePhase::Saving ==> next.0.phase == DeletePhase::Stopped
            &&& s.phase == DeletePhase::Stopped ==> next.0.phase == DeletePhase::Stopped
            &&& s.phase == DeletePhase::Removing || s.phase == DeletePhase::Stopped || (s.phase
                == DeletePhase::Saving && event != EventView::Done) ==> next.1.request
                != RequestView::Stop(OutcomeView::Success)
        }),
{
}

/// `files` without the configuration of the tunnel in `s`.
spec fn unconfigured(files: Files, s: DeleteView) -> Files {
    carried_out(files, RequestView::RemoveFile(s.tunnel.config_path))
}

/// `now` with the managed tunnels of `files`, but without the one in `s`.
spec fn forgotten(now: Files, files: Files, s: DeleteView) -> Files {
    carried_out(now, RequestView::SaveMetadata(files.metadata.remove(s.name)))
}

/// What `delete` has made of the files.
spec fn delete_files(files: Files, s: DeleteView, request: RequestView, now: Files) -> bool {
    &&& match s.phase {
        DeletePhase::Saving => now == files || now == unconfigured(files, s),
        DeletePhase::Stopped => {
            ||| now == files
            ||| now == forgotten(files, files, s)
            ||| now == forgotten(unconfigured(files, s), files, s)
            ||| now == unconfigured(files, s) && request != RequestView::Stop(OutcomeView::Success)
        },
        _ => now == files,
    }
    &&& now != files ==> files.metadata.contains_key(s.name) && s.tunnel == files.metadata[s.name]
}

proof fn lemma_delete_files(files: Files, args: DeleteArgsView, events: Seq<EventView>)
    requires
        told(files, events),
    ensures
        after(CommandView::Delete(args), events).0 is Delete,
        delete_files(
            files,
            after(CommandView::Delete(args), events).0->Delete_0,
            request_after(CommandView::Delete(args), events),
            files_after(files, CommandView::Delete(args), events),
        ),
    decreases events.len(),
{
    lemma_delete(args, events);
    if events.len() > 0 {
        let front = events.drop_last();
        if front.len() > 0 {
            assert(front[0] == events[0]);
        }
        lemma_delete_files(files, args, front);
        lemma_delete(args, front);
        reveal(delete_holds);
        lemma_delete_step(
            after(CommandView::Delete(args), front).0->Delete_0,
            events.last(),
        );
    }
}

/// What a deletion makes of consistent files is consistent.
proof fn lemma_forgotten(files: Files, s: DeleteView)
    requires
        consistent(files),
        files.metadata.contains_key(s.name),
        s.tunnel == files.metadata[s.name],
    ensures
        consistent(forgotten(files, files, s)),
        consistent(forgotten(unconfigured(files, s), files, s)),
{
}

/// A deletion that ends well keeps the files consistent.
proof fn lemma_delete_keeps_files(files: Files, args: DeleteArgsView, events: Seq<EventView>)
    requires
        consistent(files),
        told(files, events),
        request_after(CommandView::Delete(args), events) == RequestView::Stop(OutcomeView::Success),
    ensures
        consistent(files_after(files, CommandView::Delete(args), events)),
{
    lemma_delete_files(files, args, events);
    let s = after(CommandView::Delete(args), events).0->Delete_0;
    assert(s.phase == DeletePhase::Stopped) by {
        lemma_delete(args, events);
        reveal(delete_holds);
    }
    if files_after(files, CommandView::Delete(args), events) != files {
        lemma_forgotten(files, s);
    }
}

/// Listing, status, showing and running leave the files as they are.
pub proof fn law_inspection_keeps_files(files: Files, command: CommandView, events: Seq<EventView>)
    requires
        command is List || command is Status || command is Show || command is Run,
    ensures
        files_after(files, command, events) == files,
    decreases events.len(),
{
    if events.len() > 0 {
        law_inspection_keeps_files(files, command, events.drop_last());
        law_inspection_changes_nothing(command, events.drop_last());
    }
}

/// Every command that ends well leaves the files consistent: each managed tunnel
/// has a configuration of its own, which makes cloudflared run it.
pub proof fn law_success_keeps_files(files: Files, command: CommandView, events: Seq<EventView>)
    requires
        consistent(files),
        told(files, events),
        request_after(command, events) == RequestView::Stop(OutcomeView::Success),
    ensures
        consistent(files_after(files, command, events)),
{
    match command {
        CommandView::Create(args) => {
            lemma_create_files(files, args, events);
            law_create_keeps_files(files, args, events);
        },
        CommandView::Import(args) => {
            lemma_import(args, events);
            law_import_keeps_files(files, args, events);
        },
        CommandView::Update(args) => lemma_update_keeps_files(files, args, events),
        CommandView::Delete(args) => lemma_delete_keeps_files(files, args, events),
        _ => law_inspection_keeps_files(files, command, events),
    }
}

/// Where the files are consistent, no command asks for a configuration to be
/// written to, or for the removal of, the file of the metadata.
pub proof fn law_metadata_is_spared(files: Files, command: CommandView, events: Seq<EventView>)
    requires
        consistent(files),
        told(files, events),
    ensures
        match request_after(command, events) {
            RequestView::WriteConfig { path, .. } => path != metadata_path_of(files.home),
            RequestView::RemoveFile(path) => path != metadata_path_of(files.home),
            _ => true,
        },
{
    match command {
        CommandView::Create(args) => {
            lemma_create(args, events);
            reveal(create_holds);
        },
        CommandView::Import(args) => lemma_import(args, events),
        CommandView::Update(args) => {
            lemma_update(args, events);
            reveal(update_holds);
        },
        CommandView::Delete(args) => {
            lemma_delete(args, events);
            reveal(delete_holds);
        },
        _ => law_inspection_changes_nothing(command, events),
    }
}

/// Where the files are consistent, a managed tunnel is run with a configuration
/// that is there, and that forwards its host name to its service.
pub proof fn law_run_finds_config(files: Files, name: Seq<char>)
    requires
        consistent(files),
        files.metadata.contains_key(name),
    ensures
        ({
            let tunnel = files.metadata[name];
            let loaded = EventView::Loaded { home: files.home, metadata: files.metadata };
            &&& request_after(CommandView::Run(Some(name)), Seq::empty().push(loaded))
                == RequestView::RunTunnel(run_args_of(tunnel.config_path))
            &&& files.configs.contains_key(tunnel.config_path)
            &&& configures(files.configs[tunnel.config_path], tunnel)
        }),
{
    let loaded = EventView::Loaded { home: files.home, metadata: files.metadata };
    lemma_after_push(CommandView::Run(Some(name)), Seq::empty(), loaded);
}

} // verus!
