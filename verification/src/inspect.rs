//! The commands that change nothing: listing, status, showing a configuration,
//! and running a tunnel.
use crate::cloudflared::{run_args, run_args_of, CloudflaredTunnel, CloudflaredTunnelView};
use crate::dialog::{
    bold, cyan, dimmed, ending, failing, green, plain, put_span, quiet, reported, Event, EventView,
    Notice, NoticeView, Request, RequestView, Step, StepView, Style,
};
use crate::error::{Error, ErrorView};
use crate::metadata::{Metadata, TunnelMetaView};
use crate::report::{
    blank, blank_notice, list_report, list_report_of, status_report,
    status_report_of, tunnel_select_of, tunnel_select_prompt,
};
use crate::text::{cat2, cat3, fresh, put};
use vstd::prelude::*;

verus! {

/// What an overview waits for.
#[derive(Clone, Copy, Debug, PartialEq, Eq, Structural)]
pub enum OverviewPhase {
    Fetching,
    Loading,
    Stopped,
}

/// The list of the tunnels, or with `status` their status, on its way.
#[derive(Debug)]
pub struct Overview {
    phase: OverviewPhase,
    status: bool,
    tunnels: Vec<CloudflaredTunnel>,
}

/// The contents of [`Overview`].
pub struct OverviewView {
    pub phase: OverviewPhase,
    pub status: bool,
    pub tunnels: Seq<CloudflaredTunnelView>,
}

impl View for Overview {
    type V = OverviewView;

    closed spec fn view(&self) -> OverviewView {
        OverviewView {
            phase: self.phase,
            status: self.status,
            tunnels: self.tunnels.deep_view(),
        }
    }
}

/// The command at its start.
pub open spec fn overview_start(status: bool) -> (OverviewView, StepView) {
    (
        OverviewView { phase: OverviewPhase::Fetching, status, tunnels: Seq::empty() },
        quiet(RequestView::FetchTunnels),
    )
}

/// Once it is known which tunnels exist: those that are managed are read.
pub open spec fn overview_fetched(
    s: OverviewView,
    tunnels: Seq<CloudflaredTunnelView>,
) -> (OverviewView, StepView) {
    (
        OverviewView { phase: OverviewPhase::Loading, tunnels, ..s },
        quiet(RequestView::LoadMetadata),
    )
}

/// The command after `event`. An event that does not answer the request, as where
/// it could not be carried out, ends the command; only the list takes tunnels
/// that are not to be had for none.
pub open spec fn overview_step(s: OverviewView, event: EventView) -> (OverviewView, StepView) {
    let stopped = OverviewView { phase: OverviewPhase::Stopped, ..s };
    match (s.phase, event) {
        (OverviewPhase::Fetching, EventView::Tunnels(tunnels)) => overview_fetched(s, tunnels),
        (OverviewPhase::Fetching, _) => if s.status {
            (stopped, reported())
        } else {
            overview_fetched(s, Seq::empty())
        },
        (OverviewPhase::Loading, EventView::Loaded { metadata, .. }) => (
            stopped,
            ending(
                if s.status {
                    status_report_of(s.tunnels, metadata)
                } else {
                    list_report_of(s.tunnels, metadata)
                },
            ),
        ),
        _ => (stopped, reported()),
    }
}

impl Overview {
    /// Starts the command.
    pub fn start(status: bool) -> (r: (Overview, Step))
        ensures
            (r.0@, r.1@) == overview_start(status),
    {
        (
            Overview { phase: OverviewPhase::Fetching, status, tunnels: fresh() },
            Step::quiet(Request::FetchTunnels),
        )
    }

    fn fetched(self, tunnels: Vec<CloudflaredTunnel>) -> (r: (Overview, Step))
        ensures
            (r.0@, r.1@) == overview_fetched(self@, tunnels.deep_view()),
    {
        (
            Overview { phase: OverviewPhase::Loading, tunnels, ..self },
            Step::quiet(Request::LoadMetadata),
        )
    }

    /// Goes on after `event`.
    pub fn step(self, event: Event) -> (r: (Overview, Step))
        ensures
            (r.0@, r.1@) == overview_step(self@, event@),
    {
        match (self.phase, event) {
            (OverviewPhase::Fetching, Event::Tunnels(tunnels)) => self.fetched(tunnels),
            (OverviewPhase::Fetching, _) => if self.status {
                (Overview { phase: OverviewPhase::Stopped, ..self }, Step::reported())
            } else {
                self.fetched(fresh())
            },
            (OverviewPhase::Loading, Event::Loaded { metadata, .. }) => {
                let notices = if self.status {
                    status_report(&self.tunnels, &metadata)
                } else {
                    list_report(&self.tunnels, &metadata)
                };
                (Overview { phase: OverviewPhase::Stopped, ..self }, Step::ending(notices))
            },
            _ => (Overview { phase: OverviewPhase::Stopped, ..self }, Step::reported()),
        }
    }
}

/// What showing a configuration waits for.
#[derive(Clone, Copy, Debug, PartialEq, Eq, Structural)]
pub enum ShowPhase {
    Loading,
    Reading,
    Stopped,
}

/// Showing the configuration of a tunnel, on its way.
#[derive(Debug)]
pub struct Show {
    phase: ShowPhase,
    name: String,
    path: String,
}

/// The contents of [`Show`].
pub struct ShowView {
    pub phase: ShowPhase,
    pub name: Seq<char>,
    pub path: Seq<char>,
}

impl View for Show {
    type V = ShowView;

    closed spec fn view(&self) -> ShowView {
        ShowView { phase: self.phase, name: self.name@, path: self.path@ }
    }
}

/// The command at its start.
pub open spec fn show_start(name: Seq<char>) -> (ShowView, StepView) {
    (
        ShowView { phase: ShowPhase::Loading, name, path: Seq::empty() },
        quiet(RequestView::LoadMetadata),
    )
}

/// What is shown of a configuration: a heading, and what is in the file.
pub open spec fn config_lines(
    name: Seq<char>,
    path: Seq<char>,
    content: Seq<char>,
) -> Seq<NoticeView> {
    Seq::empty().push(
        NoticeView::Line(
            Seq::empty().push(cyan("●"@)).push(plain(" Config for '"@)).push(bold(name)).push(
                plain("' ("@ + path + "):"@),
            ),
        ),
    ).push(NoticeView::Line(Seq::empty().push(plain(content))))
}

/// The command after `event`. An event that does not answer the request, as where
/// it could not be carried out, ends the command.
pub open spec fn show_step(s: ShowView, event: EventView) -> (ShowView, StepView) {
    let stopped = ShowView { phase: ShowPhase::Stopped, ..s };
    match (s.phase, event) {
        (ShowPhase::Loading, EventView::Loaded { metadata, .. }) => if metadata.contains_key(
            s.name,
        ) {
            let path = metadata[s.name].config_path;
            (
                ShowView { phase: ShowPhase::Reading, path, ..s },
                quiet(RequestView::ReadFile(path)),
            )
        } else {
            (stopped, failing(Seq::empty(), ErrorView::NotFound { name: s.name }))
        },
        (ShowPhase::Reading, EventView::Content(content)) => (
            stopped,
            ending(config_lines(s.name, s.path, content)),
        ),
        _ => (stopped, reported()),
    }
}

impl Show {
    /// Starts the command.
    pub fn start(name: String) -> (r: (Show, Step))
        ensures
            (r.0@, r.1@) == show_start(name@),
    {
        (
            Show { phase: ShowPhase::Loading, name, path: String::new() },
            Step::quiet(Request::LoadMetadata),
        )
    }

    fn stop(self, step: Step) -> (r: (Show, Step))
        ensures
            (r.0@, r.1) == (ShowView { phase: ShowPhase::Stopped, ..self@ }, step),
    {
        (Show { phase: ShowPhase::Stopped, ..self }, step)
    }

    /// Goes on after `event`.
    pub fn step(self, event: Event) -> (r: (Show, Step))
        ensures
            (r.0@, r.1@) == show_step(self@, event@),
    {
        match (self.phase, event) {
            (ShowPhase::Loading, Event::Loaded { metadata, .. }) => match metadata.get(
                self.name.as_str(),
            ) {
                Some(tunnel) => {
                    let path = tunnel.config_path.clone();
                    let request = Request::ReadFile(tunnel.config_path.clone());
                    (Show { phase: ShowPhase::Reading, path, ..self }, Step::quiet(request))
                },
                None => {
                    let name = self.name.clone();
                    self.stop(Step::failing(fresh(), Error::NotFound { name }))
                },
            },
            (ShowPhase::Reading, Event::Content(content)) => {
                let mut head = fresh();
                put_span(&mut head, Style::Cyan, "●");
                put_span(&mut head, Style::Plain, " Config for '");
                put_span(&mut head, Style::Bold, self.name.as_str());
                put_span(
                    &mut head,
                    Style::Plain,
                    cat3("' (", self.path.as_str(), "):").as_str(),
                );
                let mut body = fresh();
                put_span(&mut body, Style::Plain, content.as_str());
                let mut notices = fresh();
                put(&mut notices, Notice::Line(head));
                put(&mut notices, Notice::Line(body));
                self.stop(Step::ending(notices))
            },
            _ => self.stop(Step::reported()),
        }
    }
}

/// What running a tunnel waits for.
#[derive(Clone, Copy, Debug, PartialEq, Eq, Structural)]
pub enum RunPhase {
    Loading,
    Selecting,
    Running,
    Stopped,
}

/// Running a tunnel, on its way.
#[derive(Debug)]
pub struct Run {
    phase: RunPhase,
    name: Option<String>,
    metadata: Metadata,
}

/// The contents of [`Run`].
pub struct RunView {
    pub phase: RunPhase,
    pub name: Option<Seq<char>>,
    pub metadata: Map<Seq<char>, TunnelMetaView>,
}

impl View for Run {
    type V = RunView;

    closed spec fn view(&self) -> RunView {
        RunView {
            phase: self.phase,
            name: self.name.deep_view(),
            metadata: self.metadata@,
        }
    }
}

/// `s`, ended.
pub open spec fn run_stopped(s: RunView) -> RunView {
    RunView { phase: RunPhase::Stopped, ..s }
}

/// The command at its start.
pub open spec fn run_start(name: Option<Seq<char>>) -> (RunView, StepView) {
    (
        RunView { phase: RunPhase::Loading, name, metadata: Map::empty() },
        quiet(RequestView::LoadMetadata),
    )
}

/// The line that announces that a tunnel is run.
pub open spec fn starting_line(name: Seq<char>, tunnel: TunnelMetaView) -> NoticeView {
    NoticeView::Line(
        Seq::empty().push(cyan("→"@)).push(plain(" Starting tunnel '"@ + name + "' → "@)).push(
            green("https://"@ + tunnel.hostname),
        ).push(plain(" → "@)).push(dimmed(tunnel.service)),
    )
}

/// Once the tunnels are known: the user chooses one, unless it was named.
pub open spec fn run_loaded(s: RunView) -> (RunView, StepView) {
    match s.name {
        Some(name) => run_named(s, name),
        None => match tunnel_select_of("Select a tunnel to run"@, s.metadata) {
            Ok(request) => (RunView { phase: RunPhase::Selecting, ..s }, quiet(request)),
            Err(e) => (run_stopped(s), failing(Seq::empty(), e)),
        },
    }
}

/// Once the tunnel is named: it must be managed, and is run with its
/// configuration.
pub open spec fn run_named(s: RunView, name: Seq<char>) -> (RunView, StepView) {
    if s.metadata.contains_key(name) {
        let tunnel = s.metadata[name];
        (
            RunView { phase: RunPhase::Running, ..s },
            StepView {
                notices: Seq::empty().push(starting_line(name, tunnel)).push(blank()),
                request: RequestView::RunTunnel(run_args_of(tunnel.config_path)),
            },
        )
    } else {
        (run_stopped(s), failing(Seq::empty(), ErrorView::NotFound { name }))
    }
}

/// The command after `event`. An event that does not answer the request, as where
/// it could not be carried out, ends the command.
pub open spec fn run_step(s: RunView, event: EventView) -> (RunView, StepView) {
    match (s.phase, event) {
        (RunPhase::Loading, EventView::Loaded { metadata, .. }) => run_loaded(
            RunView { metadata, ..s },
        ),
        (RunPhase::Selecting, EventView::Answer(name)) => run_named(s, name),
        (RunPhase::Running, EventView::Exited { success, status }) => (
            run_stopped(s),
            if success {
                ending(Seq::empty())
            } else {
                failing(Seq::empty(), ErrorView::Exited { status })
            },
        ),
        _ => (run_stopped(s), reported()),
    }
}

impl Run {
    /// Starts the command.
    pub fn start(name: Option<String>) -> (r: (Run, Step))
        ensures
            (r.0@, r.1@) == run_start(name.deep_view()),
    {
        (
            Run { phase: RunPhase::Loading, name, metadata: Metadata::new() },
            Step::quiet(Request::LoadMetadata),
        )
    }

    fn stop(self, step: Step) -> (r: (Run, Step))
        ensures
            (r.0@, r.1) == (run_stopped(self@), step),
    {
        (Run { phase: RunPhase::Stopped, ..self }, step)
    }

    fn loaded(self) -> (r: (Run, Step))
        ensures
            (r.0@, r.1@) == run_loaded(self@),
    {
        let s = self;
        match s.name.clone() {
            Some(name) => s.named(name),
            None => match tunnel_select_prompt("Select a tunnel to run", &s.metadata) {
                Ok(request) => (Run { phase: RunPhase::Selecting, ..s }, Step::quiet(request)),
                Err(e) => s.stop(Step::failing(fresh(), e)),
            },
        }
    }

    fn named(self, name: String) -> (r: (Run, Step))
        ensures
            (r.0@, r.1@) == run_named(self@, name@),
    {
        let s = self;
        let tunnel = match s.metadata.get(name.as_str()) {
            Some(tunnel) => tunnel.clone(),
            None => {
                return s.stop(Step::failing(fresh(), Error::NotFound { name }));
            },
        };
        let mut line = fresh();
        put_span(&mut line, Style::Cyan, "→");
        put_span(
            &mut line,
            Style::Plain,
            cat3(" Starting tunnel '", name.as_str(), "' → ").as_str(),
        );
        put_span(&mut line, Style::Green, cat2("https://", tunnel.hostname.as_str()).as_str());
        put_span(&mut line, Style::Plain, " → ");
        put_span(&mut line, Style::Dimmed, tunnel.service.as_str());
        let mut notices = fresh();
        put(&mut notices, Notice::Line(line));
        put(&mut notices, blank_notice());
        let request = Request::RunTunnel(run_args(tunnel.config_path.as_str()));
        (Run { phase: RunPhase::Running, ..s }, Step { notices, request })
    }

    /// Goes on after `event`.
    pub fn step(self, event: Event) -> (r: (Run, Step))
        ensures
            (r.0@, r.1@) == run_step(self@, event@),
    {
        match (self.phase, event) {
            (RunPhase::Loading, Event::Loaded { metadata, .. }) => {
                let s = Run { metadata, ..self };
                s.loaded()
            },
            (RunPhase::Selecting, Event::Answer(name)) => self.named(name),
            (RunPhase::Running, Event::Exited { success, status }) => if success {
                self.stop(Step::ending(fresh()))
            } else {
                self.stop(Step::failing(fresh(), Error::Exited { status }))
            },
            _ => self.stop(Step::reported()),
        }
    }
}

} // verus!
