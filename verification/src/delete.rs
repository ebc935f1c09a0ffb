//! Letting go of a tunnel.
use crate::cloudflared::{delete_args, delete_args_of, unroute_args, unroute_args_of};
use crate::dialog::{
    cyan, ending, failing, green, plain, put_span, quiet, reported, Choice, ChoiceView, Event,
    EventView, Notice, NoticeView, Request, RequestView, Step, StepView, Style,
};
use crate::error::{Error, ErrorView};
use crate::metadata::{no_tunnel, no_tunnel_view, Metadata, TunnelMeta, TunnelMetaView};
use crate::report::{
    arrow_line, arrow_notice, select_tunnel_of, tick_line, tick_notice, tunnel_select_prompt,
};
use crate::text::{cat3, fresh, put};
use vstd::prelude::*;

verus! {

/// What the user said on the command line.
#[derive(Debug)]
pub struct DeleteArgs {
    pub name: Option<String>,
    /// Whether the tunnel, its route and its configuration are deleted too.
    pub cleanup: bool,
}

/// The contents of [`DeleteArgs`].
pub struct DeleteArgsView {
    pub name: Option<Seq<char>>,
    pub cleanup: bool,
}

impl View for DeleteArgs {
    type V = DeleteArgsView;

    open spec fn view(&self) -> DeleteArgsView {
        DeleteArgsView { name: self.name.deep_view(), cleanup: self.cleanup }
    }
}

impl DeleteArgsView {
    /// Whether the user is asked which tunnel to delete, and how.
    pub open spec fn interactive(self) -> bool {
        self.name is None
    }
}

/// What the command waits for.
#[derive(Clone, Copy, Debug, PartialEq, Eq, Structural)]
pub enum DeletePhase {
    Loading,
    Selecting,
    ChoosingMode,
    Confirming,
    Deleting,
    Unrouting,
    Checking,
    Removing,
    Saving,
    Stopped,
}

/// The command on its way. A text that is not known yet is empty.
#[derive(Debug)]
pub struct Delete {
    phase: DeletePhase,
    args: DeleteArgs,
    metadata: Metadata,
    name: String,
    tunnel: TunnelMeta,
    cleanup: bool,
}

/// The contents of [`Delete`].
pub struct DeleteView {
    pub phase: DeletePhase,
    pub args: DeleteArgsView,
    pub metadata: Map<Seq<char>, TunnelMetaView>,
    pub name: Seq<char>,
    pub tunnel: TunnelMetaView,
    pub cleanup: bool,
}

impl View for Delete {
    type V = DeleteView;

    closed spec fn view(&self) -> DeleteView {
        DeleteView {
            phase: self.phase,
            args: self.args@,
            metadata: self.metadata@,
            name: self.name@,
            tunnel: self.tunnel@,
            cleanup: self.cleanup,
        }
    }
}

/// The request to choose how much is deleted.
pub open spec fn mode_request() -> RequestView {
    RequestView::Select {
        message: "Cleanup mode"@,
        search: false,
        choices: Seq::empty().push(
            ChoiceView {
                value: "local"@,
                label: Seq::empty().push(plain("Remove from cftun only"@)),
                hint: "keep the tunnel in Cloudflare"@,
            },
        ).push(
            ChoiceView {
                value: "full"@,
                label: Seq::empty().push(plain("Full cleanup"@)),
                hint: "delete tunnel, DNS route, and config file"@,
            },
        ),
    }
}

/// `s`, ended.
pub open spec fn delete_stopped(s: DeleteView) -> DeleteView {
    DeleteView { phase: DeletePhase::Stopped, ..s }
}

/// The command at its start.
pub open spec fn delete_start(args: DeleteArgsView) -> (DeleteView, StepView) {
    (
        DeleteView {
            phase: DeletePhase::Loading,
            args,
            metadata: Map::empty(),
            name: Seq::empty(),
            tunnel: no_tunnel_view(),
            cleanup: args.cleanup,
        },
        quiet(RequestView::LoadMetadata),
    )
}

/// The title of the dialog, where there is one.
pub open spec fn delete_intro(args: DeleteArgsView) -> Seq<NoticeView> {
    if args.interactive() {
        Seq::empty().push(NoticeView::Intro("Delete a tunnel"@))
    } else {
        Seq::empty()
    }
}

/// Once the tunnels are known: the user chooses one, unless it was named.
pub open spec fn delete_loaded(s: DeleteView) -> (DeleteView, StepView) {
    let notices = delete_intro(s.args);
    match s.args.name {
        Some(name) => delete_named(s, notices, name),
        None => if s.metadata == Map::<Seq<char>, TunnelMetaView>::empty() {
            (
                delete_stopped(s),
                ending(notices.push(NoticeView::OutroCancel("No tunnels managed by cftun."@))),
            )
        } else {
            (
                DeleteView { phase: DeletePhase::Selecting, ..s },
                StepView {
                    notices,
                    request: select_tunnel_of("Select a tunnel to delete"@, s.metadata),
                },
            )
        },
    }
}

/// Once the tunnel is named: it must be managed, and a user who was asked chooses
/// how much is deleted.
pub open spec fn delete_named(
    s: DeleteView,
    notices: Seq<NoticeView>,
    name: Seq<char>,
) -> (DeleteView, StepView) {
    if !s.metadata.contains_key(name) {
        (delete_stopped(s), failing(notices, ErrorView::NotInMetadata { name }))
    } else {
        let s = DeleteView { name, tunnel: s.metadata[name], ..s };
        if s.args.interactive() {
            (
                DeleteView { phase: DeletePhase::ChoosingMode, ..s },
                StepView { notices, request: mode_request() },
            )
        } else {
            delete_execute(s, notices)
        }
    }
}

/// Once it is known how much is deleted: the user is asked for a yes.
pub open spec fn delete_chosen(s: DeleteView, mode: Seq<char>) -> (DeleteView, StepView) {
    let full = mode == "full"@;
    let verb = if full {
        "Delete"@
    } else {
        "Remove"@
    };
    (
        DeleteView { phase: DeletePhase::Confirming, cleanup: full, ..s },
        quiet(RequestView::Confirm(verb + " tunnel '"@ + s.name + "'?"@)),
    )
}

/// Once everything is settled: where all is deleted, cloudflared deletes the
/// tunnel.
pub open spec fn delete_execute(s: DeleteView, notices: Seq<NoticeView>) -> (DeleteView, StepView) {
    if s.cleanup {
        let notice = if s.args.interactive() {
            NoticeView::SpinnerStart("Deleting tunnel '"@ + s.name + "' from Cloudflare..."@)
        } else {
            arrow_line(" Deleting cloudflared tunnel '"@ + s.name + "'..."@)
        };
        (
            DeleteView { phase: DeletePhase::Deleting, ..s },
            StepView {
                notices: notices.push(notice),
                request: RequestView::RunCloudflared(delete_args_of(s.tunnel.uuid)),
            },
        )
    } else {
        delete_save(s, notices)
    }
}

/// Once the tunnel is gone, or could not be deleted: its route is removed.
pub open spec fn delete_deleted(s: DeleteView) -> (DeleteView, StepView) {
    let notices = if s.args.interactive() {
        Seq::empty().push(NoticeView::SpinnerStop("Deleted"@)).push(
            NoticeView::SpinnerStart("Removing DNS route "@ + s.tunnel.hostname + "..."@),
        )
    } else {
        Seq::empty().push(arrow_line(" Removing DNS route "@ + s.tunnel.hostname + "..."@))
    };
    (
        DeleteView { phase: DeletePhase::Unrouting, ..s },
        StepView {
            notices,
            request: RequestView::RunCloudflared(unroute_args_of(s.tunnel.hostname)),
        },
    )
}

/// Once the route is gone, or could not be removed: the configuration is looked
/// for.
pub open spec fn delete_unrouted(s: DeleteView) -> (DeleteView, StepView) {
    let notices = if s.args.interactive() {
        Seq::empty().push(NoticeView::SpinnerStop("Removed"@))
    } else {
        Seq::empty()
    };
    (
        DeleteView { phase: DeletePhase::Checking, ..s },
        StepView { notices, request: RequestView::CheckExists(s.tunnel.config_path) },
    )
}

/// Once it is known whether there is a configuration: it is removed.
pub open spec fn delete_checked(s: DeleteView, there: bool) -> (DeleteView, StepView) {
    if there {
        let notices = if s.args.interactive() {
            Seq::empty().push(NoticeView::SpinnerStart("Removing config file..."@))
        } else {
            Seq::empty()
        };
        (
            DeleteView { phase: DeletePhase::Removing, ..s },
            StepView { notices, request: RequestView::RemoveFile(s.tunnel.config_path) },
        )
    } else {
        delete_save(s, Seq::empty())
    }
}

/// Once the configuration is removed: the tunnel is no longer managed.
pub open spec fn delete_removed(s: DeleteView) -> (DeleteView, StepView) {
    delete_save(
        s,
        if s.args.interactive() {
            Seq::empty().push(NoticeView::SpinnerStop("Removed"@))
        } else {
            Seq::empty()
        },
    )
}

/// The tunnel is no longer managed.
pub open spec fn delete_save(s: DeleteView, notices: Seq<NoticeView>) -> (DeleteView, StepView) {
    (
        DeleteView { phase: DeletePhase::Saving, ..s },
        StepView { notices, request: RequestView::SaveMetadata(s.metadata.remove(s.name)) },
    )
}

/// What is said when the tunnel is no longer managed.
pub open spec fn farewell(s: DeleteView) -> NoticeView {
    if s.args.interactive() {
        if s.cleanup {
            NoticeView::Outro("Tunnel '"@ + s.name + "' fully deleted."@)
        } else {
            NoticeView::Outro("Removed '"@ + s.name + "' from cftun. Still exists in Cloudflare."@)
        }
    } else if s.cleanup {
        tick_line(" Tunnel '"@ + s.name + "' removed."@)
    } else {
        NoticeView::Line(
            Seq::empty().push(green("✓"@)).push(
                plain(" Tunnel '"@ + s.name + "' removed from cftun metadata. Use "@),
            ).push(cyan("--cleanup"@)).push(plain(" to also delete from Cloudflare."@)),
        )
    }
}

/// The command after `event`. An event that does not answer the request, as where
/// it could not be carried out, ends the command; only that of deleting the
/// tunnel and its route does not matter, since they may be gone already.
pub open spec fn delete_step(s: DeleteView, event: EventView) -> (DeleteView, StepView) {
    match (s.phase, event) {
        (DeletePhase::Loading, EventView::Loaded { metadata, .. }) => delete_loaded(
            DeleteView { metadata, ..s },
        ),
        (DeletePhase::Selecting, EventView::Answer(name)) => delete_named(s, Seq::empty(), name),
        (DeletePhase::ChoosingMode, EventView::Answer(mode)) => delete_chosen(s, mode),
        (DeletePhase::Confirming, EventView::Confirmed(yes)) => if yes {
            delete_execute(s, Seq::empty())
        } else {
            (
                delete_stopped(s),
                ending(Seq::empty().push(NoticeView::OutroCancel("Cancelled."@))),
            )
        },
        (DeletePhase::Deleting, _) => delete_deleted(s),
        (DeletePhase::Unrouting, _) => delete_unrouted(s),
        (DeletePhase::Checking, EventView::Exists(there)) => delete_checked(s, there),
        (DeletePhase::Removing, EventView::Done) => delete_removed(s),
        (DeletePhase::Saving, EventView::Done) => (
            delete_stopped(s),
            ending(Seq::empty().push(farewell(s))),
        ),
        _ => (delete_stopped(s), reported()),
    }
}

/// A choice with a plain label.
fn plain_choice(value: &str, label: &str, hint: &str) -> (r: Choice)
    ensures
        r@ == (ChoiceView {
            value: value@,
            label: Seq::empty().push(plain(label@)),
            hint: hint@,
        }),
{
    let mut spans = fresh();
    put_span(&mut spans, Style::Plain, label);
    Choice { value: value.to_string(), label: spans, hint: hint.to_string() }
}

impl Delete {
    /// Starts the command.
    pub fn start(args: DeleteArgs) -> (r: (Delete, Step))
        ensures
            (r.0@, r.1@) == delete_start(args@),
    {
        let cleanup = args.cleanup;
        (
            Delete {
                phase: DeletePhase::Loading,
                args,
                metadata: Metadata::new(),
                name: String::new(),
                tunnel: no_tunnel(),
                cleanup,
            },
            Step::quiet(Request::LoadMetadata),
        )
    }

    /// Whether the user is asked which tunnel to delete, and how.
    fn interactive(&self) -> (r: bool)
        ensures
            r == self@.args.interactive(),
    {
        self.args.name.is_none()
    }

    /// Ends the command with `step`.
    fn stop(self, step: Step) -> (r: (Delete, Step))
        ensures
            (r.0@, r.1) == (delete_stopped(self@), step),
    {
        (Delete { phase: DeletePhase::Stopped, ..self }, step)
    }

    fn loaded(self) -> (r: (Delete, Step))
        ensures
            (r.0@, r.1@) == delete_loaded(self@),
    {
        let s = self;
        let mut notices = fresh();
        if s.interactive() {
            put(&mut notices, Notice::Intro("Delete a tunnel".to_string()));
        }
        match s.args.name.clone() {
            Some(name) => s.named(notices, name),
            None => {
                if s.metadata.is_empty() {
                    put(
                        &mut notices,
                        Notice::OutroCancel("No tunnels managed by cftun.".to_string()),
                    );
                    s.stop(Step::ending(notices))
                } else {
                    match tunnel_select_prompt("Select a tunnel to delete", &s.metadata) {
                        Ok(request) => (
                            Delete { phase: DeletePhase::Selecting, ..s },
                            Step { notices, request },
                        ),
                        Err(e) => s.stop(Step::failing(notices, e)),
                    }
                }
            },
        }
    }

    fn named(self, notices: Vec<Notice>, name: String) -> (r: (Delete, Step))
        ensures
            (r.0@, r.1@) == delete_named(self@, notices.deep_view(), name@),
    {
        let s = self;
        let tunnel = match s.metadata.get(name.as_str()) {
            Some(tunnel) => tunnel.clone(),
            None => {
                return s.stop(Step::failing(notices, Error::NotInMetadata { name }));
            },
        };
        let s = Delete { name, tunnel, ..s };
        if s.interactive() {
            let mut choices = fresh();
            put(
                &mut choices,
                plain_choice("local", "Remove from cftun only", "keep the tunnel in Cloudflare"),
            );
            put(
                &mut choices,
                plain_choice("full", "Full cleanup", "delete tunnel, DNS route, and config file"),
            );
            let request = Request::Select {
                message: "Cleanup mode".to_string(),
                search: false,
                choices,
            };
            (Delete { phase: DeletePhase::ChoosingMode, ..s }, Step { notices, request })
        } else {
            s.execute(notices)
        }
    }

    fn chosen(self, mode: String) -> (r: (Delete, Step))
        ensures
            (r.0@, r.1@) == delete_chosen(self@, mode@),
    {
        let s = self;
        let full = mode == "full".to_string();
        let verb = if full {
            "Delete"
        } else {
            "Remove"
        };
        let mut text = cat3(verb, " tunnel '", s.name.as_str());
        text.append("'?");
        (
            Delete { phase: DeletePhase::Confirming, cleanup: full, ..s },
            Step::quiet(Request::Confirm(text)),
        )
    }

    fn execute(self, notices: Vec<Notice>) -> (r: (Delete, Step))
        ensures
            (r.0@, r.1@) == delete_execute(self@, notices.deep_view()),
    {
        let s = self;
        let mut notices = notices;
        if s.cleanup {
            if s.interactive() {
                put(
                    &mut notices,
                    Notice::SpinnerStart(
                        cat3("Deleting tunnel '", s.name.as_str(), "' from Cloudflare..."),
                    ),
                );
            } else {
                put(
                    &mut notices,
                    arrow_notice(
                        cat3(" Deleting cloudflared tunnel '", s.name.as_str(), "'...").as_str(),
                    ),
                );
            }
            let request = Request::RunCloudflared(delete_args(s.tunnel.uuid.as_str()));
            (Delete { phase: DeletePhase::Deleting, ..s }, Step { notices, request })
        } else {
            s.save(notices)
        }
    }

    fn deleted(self) -> (r: (Delete, Step))
        ensures
            (r.0@, r.1@) == delete_deleted(self@),
    {
        let s = self;
        let mut notices = fresh();
        if s.interactive() {
            put(&mut notices, Notice::SpinnerStop("Deleted".to_string()));
            put(
                &mut notices,
                Notice::SpinnerStart(
                    cat3("Removing DNS route ", s.tunnel.hostname.as_str(), "..."),
                ),
            );
        } else {
            put(
                &mut notices,
                arrow_notice(
                    cat3(" Removing DNS route ", s.tunnel.hostname.as_str(), "...").as_str(),
                ),
            );
        }
        let request = Request::RunCloudflared(unroute_args(s.tunnel.hostname.as_str()));
        (Delete { phase: DeletePhase::Unrouting, ..s }, Step { notices, request })
    }

    fn unrouted(self) -> (r: (Delete, Step))
        ensures
            (r.0@, r.1@) == delete_unrouted(self@),
    {
        let s = self;
        let mut notices = fresh();
        if s.interactive() {
            put(&mut notices, Notice::SpinnerStop("Removed".to_string()));
        }
        let request = Request::CheckExists(s.tunnel.config_path.clone());
        (Delete { phase: DeletePhase::Checking, ..s }, Step { notices, request })
    }

    fn checked(self, there: bool) -> (r: (Delete, Step))
        ensures
            (r.0@, r.1@) == delete_checked(self@, there),
    {
        let s = self;
        if there {
            let mut notices = fresh();
            if s.interactive() {
                put(&mut notices, Notice::SpinnerStart("Removing config file...".to_string()));
            }
            let request = Request::RemoveFile(s.tunnel.config_path.clone());
            (Delete { phase: DeletePhase::Removing, ..s }, Step { notices, request })
        } else {
            s.save(fresh())
        }
    }

    fn removed(self) -> (r: (Delete, Step))
        ensures
            (r.0@, r.1@) == delete_removed(self@),
    {
        let s = self;
        let mut notices = fresh();
        if s.interactive() {
            put(&mut notices, Notice::SpinnerStop("Removed".to_string()));
        }
        s.save(notices)
    }

    fn save(self, notices: Vec<Notice>) -> (r: (Delete, Step))
        ensures
            (r.0@, r.1@) == delete_save(self@, notices.deep_view()),
    {
        let s = self;
        let mut metadata = s.metadata.clone();
        metadata.remove(s.name.as_str());
        (
            Delete { phase: DeletePhase::Saving, ..s },
            Step { notices, request: Request::SaveMetadata(metadata) },
        )
    }

    fn saved(self) -> (r: (Delete, Step))
        ensures
            (r.0@, r.1@) == (
                delete_stopped(self@),
                ending(Seq::empty().push(farewell(self@))),
            ),
    {
        let s = self;
        let mut notices = fresh();
        let name = s.name.as_str();
        if s.interactive() {
            if s.cleanup {
                put(&mut notices, Notice::Outro(cat3("Tunnel '", name, "' fully deleted.")));
            } else {
                put(
                    &mut notices,
                    Notice::Outro(
                        cat3("Removed '", name, "' from cftun. Still exists in Cloudflare."),
                    ),
                );
            }
        } else if s.cleanup {
            put(&mut notices, tick_notice(cat3(" Tunnel '", name, "' removed.").as_str()));
        } else {
            let mut line = fresh();
            put_span(&mut line, Style::Green, "✓");
            put_span(
                &mut line,
                Style::Plain,
                cat3(" Tunnel '", name, "' removed from cftun metadata. Use ").as_str(),
            );
            put_span(&mut line, Style::Cyan, "--cleanup");
            put_span(&mut line, Style::Plain, " to also delete from Cloudflare.");
            put(&mut notices, Notice::Line(line));
        }
        s.stop(Step::ending(notices))
    }

    /// Goes on after `event`.
    pub fn step(self, event: Event) -> (r: (Delete, Step))
        ensures
            (r.0@, r.1@) == delete_step(self@, event@),
    {
        match (self.phase, event) {
            (DeletePhase::Loading, Event::Loaded { metadata, .. }) => {
                let s = Delete { metadata, ..self };
                s.loaded()
            },
            (DeletePhase::Selecting, Event::Answer(name)) => self.named(fresh(), name),
            (DeletePhase::ChoosingMode, Event::Answer(mode)) => self.chosen(mode),
            (DeletePhase::Confirming, Event::Confirmed(yes)) => if yes {
                self.execute(fresh())
            } else {
                let mut notices = fresh();
                put(&mut notices, Notice::OutroCancel("Cancelled.".to_string()));
                self.stop(Step::ending(notices))
            },
            (DeletePhase::Deleting, _) => self.deleted(),
            (DeletePhase::Unrouting, _) => self.unrouted(),
            (DeletePhase::Checking, Event::Exists(there)) => self.checked(there),
            (DeletePhase::Removing, Event::Done) => self.removed(),
            (DeletePhase::Saving, Event::Done) => self.saved(),
            _ => self.stop(Step::reported()),
        }
    }
}

} // verus!
