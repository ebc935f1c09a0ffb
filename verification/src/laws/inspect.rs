//! What holds of every run that shows or runs tunnels.
use crate::cloudflared::{run_args_of, CloudflaredTunnelView};
use crate::dialog::{lemma_run_together, readable, EventView, OutcomeView, RequestView};
use crate::error::ErrorView;
use crate::inspect::{config_lines, starting_line};
use crate::laws::create::answered;
use crate::laws::fetched;
use crate::metadata::TunnelMetaView;
use crate::report::{list_report_of, select_tunnel_of, status_report_of};
use crate::session::{after, lemma_after_push, request_after, CommandView};
use vstd::prelude::*;

verus! {

/// The list asks for the tunnels that exist and for those that are managed, and shows
/// them. Tunnels that are not to be had are taken for none.
pub proof fn law_list_shows(
    listed: EventView,
    home: Seq<char>,
    metadata: Map<Seq<char>, TunnelMetaView>,
)
    ensures
        ({
            let e1 = Seq::empty().push(listed);
            let last = after(CommandView::List, e1.push(EventView::Loaded { home, metadata })).1;
            &&& request_after(CommandView::List, Seq::empty()) == RequestView::FetchTunnels
            &&& request_after(CommandView::List, e1) == RequestView::LoadMetadata
            &&& last.notices == list_report_of(fetched(listed), metadata)
            &&& last.request == RequestView::Stop(OutcomeView::Success)
        }),
{
    let e0: Seq<EventView> = Seq::empty();
    lemma_after_push(CommandView::List, e0, listed);
    lemma_after_push(CommandView::List, e0.push(listed), EventView::Loaded { home, metadata });
}

/// The status asks for the tunnels that exist and for those that are managed, and
/// shows them. Without the tunnels that exist it fails.
pub proof fn law_status_shows(
    tunnels: Seq<CloudflaredTunnelView>,
    failure: EventView,
    home: Seq<char>,
    metadata: Map<Seq<char>, TunnelMetaView>,
)
    requires
        !(failure is Tunnels),
    ensures
        ({
            let e1 = Seq::empty().push(EventView::Tunnels(tunnels));
            let last = after(CommandView::Status, e1.push(EventView::Loaded { home, metadata })).1;
            &&& request_after(CommandView::Status, Seq::empty()) == RequestView::FetchTunnels
            &&& request_after(CommandView::Status, e1) == RequestView::LoadMetadata
            &&& last.notices == status_report_of(tunnels, metadata)
            &&& last.request == RequestView::Stop(OutcomeView::Success)
            &&& request_after(CommandView::Status, Seq::empty().push(failure)) == RequestView::Stop(
                OutcomeView::Reported(None),
            )
        }),
{
    let e0: Seq<EventView> = Seq::empty();
    let listed = EventView::Tunnels(tunnels);
    lemma_after_push(CommandView::Status, e0, listed);
    lemma_after_push(CommandView::Status, e0, failure);
    lemma_after_push(CommandView::Status, e0.push(listed), EventView::Loaded { home, metadata });
}

/// What is read when a configuration is shown: whose it is and where, and what is in
/// the file.
pub proof fn law_config_reads(name: Seq<char>, path: Seq<char>, content: Seq<char>)
    ensures
        ({
            let lines = config_lines(name, path, content);
            &&& lines.len() == 2
            &&& readable(lines[0]) == "● Config for '"@ + name + "' ("@ + path + "):"@
            &&& readable(lines[1]) == content
        }),
{
    broadcast use lemma_run_together;

    reveal_strlit("●");
    reveal_strlit(" Config for '");
    reveal_strlit("● Config for '");
    let none: Seq<char> = Seq::empty();
    assert(none + "●"@ + " Config for '"@ =~= "● Config for '"@);
    let a = "● Config for '"@ + name;
    assert(a + ("' ("@ + path + "):"@) =~= a + "' ("@ + path + "):"@);
    assert(none + content =~= content);
}

/// Showing a managed tunnel reads the file of its configuration and shows what is in
/// it; a tunnel that is not managed is refused.
pub proof fn law_show(
    name: Seq<char>,
    home: Seq<char>,
    metadata: Map<Seq<char>, TunnelMetaView>,
    content: Seq<char>,
)
    ensures
        ({
            let command = CommandView::Show(name);
            let e1 = Seq::empty().push(EventView::Loaded { home, metadata });
            let last = after(command, e1.push(EventView::Content(content))).1;
            &&& request_after(command, Seq::empty()) == RequestView::LoadMetadata
            &&& !metadata.contains_key(name) ==> request_after(command, e1) == RequestView::Stop(
                OutcomeView::Failure(ErrorView::NotFound { name }),
            )
            &&& metadata.contains_key(name) ==> {
                &&& request_after(command, e1) == RequestView::ReadFile(metadata[name].config_path)
                &&& last.notices == config_lines(name, metadata[name].config_path, content)
                &&& last.request == RequestView::Stop(OutcomeView::Success)
            }
        }),
{
    let command = CommandView::Show(name);
    let e0: Seq<EventView> = Seq::empty();
    let loaded = EventView::Loaded { home, metadata };
    lemma_after_push(command, e0, loaded);
    lemma_after_push(command, e0.push(loaded), EventView::Content(content));
}

/// What is read when a tunnel is run: its name, its public URL and its service.
pub proof fn law_starting_reads(name: Seq<char>, tunnel: TunnelMetaView)
    ensures
        readable(starting_line(name, tunnel)) == "→ Starting tunnel '"@ + name + "' → https://"@
            + tunnel.hostname + " → "@ + tunnel.service,
{
    broadcast use lemma_run_together;

    reveal_strlit("→");
    reveal_strlit(" Starting tunnel '");
    reveal_strlit("→ Starting tunnel '");
    reveal_strlit("' → ");
    reveal_strlit("https://");
    reveal_strlit("' → https://");
    let none: Seq<char> = Seq::empty();
    assert("→"@ + " Starting tunnel '"@ =~= "→ Starting tunnel '"@);
    assert("' → "@ + "https://"@ =~= "' → https://"@);
    assert(none + "→"@ + (" Starting tunnel '"@ + name + "' → "@) + ("https://"@ + tunnel.hostname)
        =~= ("→"@ + " Starting tunnel '"@) + name + ("' → "@ + "https://"@) + tunnel.hostname);
}

/// The tunnel that is run is the one that was named or chosen, with the configuration
/// that is noted for it and no other. One that is not managed is refused, and so is
/// running where there is none to choose from. The end of the run decides how the
/// command ends.
pub proof fn law_run_does_as_told(
    given: Option<Seq<char>>,
    name: Seq<char>,
    home: Seq<char>,
    metadata: Map<Seq<char>, TunnelMetaView>,
    status: Seq<char>,
)
    requires
        given matches Some(n) ==> n == name,
    ensures
        ({
            let command = CommandView::Run(given);
            let nothing = Map::<Seq<char>, TunnelMetaView>::empty();
            let e1 = Seq::empty().push(EventView::Loaded { home, metadata });
            let e2 = answered(e1, given, name);
            let ended = EventView::Exited { success: true, status };
            let failed = EventView::Exited { success: false, status };
            &&& request_after(command, Seq::empty()) == RequestView::LoadMetadata
            &&& given is None && metadata == nothing ==> request_after(command, e1)
                == RequestView::Stop(OutcomeView::Failure(ErrorView::NoTunnels))
            &&& given is None && metadata != nothing ==> request_after(command, e1)
                == select_tunnel_of("Select a tunnel to run"@, metadata)
            &&& !metadata.contains_key(name) && (given is Some || metadata != nothing)
                ==> request_after(command, e2) == RequestView::Stop(
                OutcomeView::Failure(ErrorView::NotFound { name }),
            )
            &&& metadata.contains_key(name) ==> {
                &&& after(command, e2).1.notices[0] == starting_line(name, metadata[name])
                &&& request_after(command, e2) == RequestView::RunTunnel(
                    run_args_of(metadata[name].config_path),
                )
                &&& request_after(command, e2.push(ended)) == RequestView::Stop(
                    OutcomeView::Success,
                )
                &&& request_after(command, e2.push(failed)) == RequestView::Stop(
                    OutcomeView::Failure(ErrorView::Exited { status }),
                )
            }
        }),
{
    let command = CommandView::Run(given);
    let e0: Seq<EventView> = Seq::empty();
    let loaded = EventView::Loaded { home, metadata };
    let e1 = e0.push(loaded);
    let e2 = answered(e1, given, name);
    if metadata.contains_key(name) {
        assert(metadata != Map::<Seq<char>, TunnelMetaView>::empty());
    }
    lemma_after_push(command, e0, loaded);
    lemma_after_push(command, e1, EventView::Answer(name));
    lemma_after_push(command, e2, EventView::Exited { success: true, status });
    lemma_after_push(command, e2, EventView::Exited { success: false, status });
}

} // verus!
