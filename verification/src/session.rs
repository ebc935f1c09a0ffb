//! A command from its start to its end.
use crate::create::{create_start, create_step, Create, CreateArgs, CreateArgsView, CreateView};
use crate::delete::{delete_start, delete_step, Delete, DeleteArgs, DeleteArgsView, DeleteView};
use crate::dialog::{Event, EventView, RequestView, Step, StepView};
use crate::import::{import_start, import_step, Import, ImportArgs, ImportArgsView, ImportView};
use crate::inspect::{
    overview_start, overview_step, run_start, run_step, show_start, show_step, Overview,
    OverviewView, Run, RunView, Show, ShowView,
};
use crate::update::{update_start, update_step, Update, UpdateArgs, UpdateArgsView, UpdateView};
use vstd::prelude::*;

verus! {

/// What cftun can be told to do.
#[derive(Debug)]
pub enum Command {
    Create(CreateArgs),
    List,
    Status,
    Run(Option<String>),
    Show(String),
    Import(ImportArgs),
    Update(UpdateArgs),
    Delete(DeleteArgs),
}

/// The contents of a [`Command`].
pub enum CommandView {
    Create(CreateArgsView),
    List,
    Status,
    Run(Option<Seq<char>>),
    Show(Seq<char>),
    Import(ImportArgsView),
    Update(UpdateArgsView),
    Delete(DeleteArgsView),
}

impl View for Command {
    type V = CommandView;

    open spec fn view(&self) -> CommandView {
        match self {
            Command::Create(args) => CommandView::Create(args@),
            Command::List => CommandView::List,
            Command::Status => CommandView::Status,
            Command::Run(name) => CommandView::Run(name.deep_view()),
            Command::Show(name) => CommandView::Show(name@),
            Command::Import(args) => CommandView::Import(args@),
            Command::Update(args) => CommandView::Update(args@),
            Command::Delete(args) => CommandView::Delete(args@),
        }
    }
}

/// A command on its way.
#[derive(Debug)]
pub enum Session {
    Create(Create),
    Overview(Overview),
    Run(Run),
    Show(Show),
    Import(Import),
    Update(Update),
    Delete(Delete),
}

/// The contents of a [`Session`].
pub enum SessionView {
    Create(CreateView),
    Overview(OverviewView),
    Run(RunView),
    Show(ShowView),
    Import(ImportView),
    Update(UpdateView),
    Delete(DeleteView),
}

impl View for Session {
    type V = SessionView;

    open spec fn view(&self) -> SessionView {
        match self {
            Session::Create(s) => SessionView::Create(s@),
            Session::Overview(s) => SessionView::Overview(s@),
            Session::Run(s) => SessionView::Run(s@),
            Session::Show(s) => SessionView::Show(s@),
            Session::Import(s) => SessionView::Import(s@),
            Session::Update(s) => SessionView::Update(s@),
            Session::Delete(s) => SessionView::Delete(s@),
        }
    }
}

/// `command` at its start.
pub open spec fn session_start(command: CommandView) -> (SessionView, StepView) {
    match command {
        CommandView::Create(args) => {
            let r = create_start(args);
            (SessionView::Create(r.0), r.1)
        },
        CommandView::List => {
            let r = overview_start(false);
            (SessionView::Overview(r.0), r.1)
        },
        CommandView::Status => {
            let r = overview_start(true);
            (SessionView::Overview(r.0), r.1)
        },
        CommandView::Run(name) => {
            let r = run_start(name);
            (SessionView::Run(r.0), r.1)
        },
        CommandView::Show(name) => {
            let r = show_start(name);
            (SessionView::Show(r.0), r.1)
        },
        CommandView::Import(args) => {
            let r = import_start(args);
            (SessionView::Import(r.0), r.1)
        },
        CommandView::Update(args) => {
            let r = update_start(args);
            (SessionView::Update(r.0), r.1)
        },
        CommandView::Delete(args) => {
            let r = delete_start(args);
            (SessionView::Delete(r.0), r.1)
        },
    }
}

/// The command after `event`.
pub open spec fn session_step(s: SessionView, event: EventView) -> (SessionView, StepView) {
    match s {
        SessionView::Create(s) => {
            let r = create_step(s, event);
            (SessionView::Create(r.0), r.1)
        },
        SessionView::Overview(s) => {
            let r = overview_step(s, event);
            (SessionView::Overview(r.0), r.1)
        },
        SessionView::Run(s) => {
            let r = run_step(s, event);
            (SessionView::Run(r.0), r.1)
        },
        SessionView::Show(s) => {
            let r = show_step(s, event);
            (SessionView::Show(r.0), r.1)
        },
        SessionView::Import(s) => {
            let r = import_step(s, event);
            (SessionView::Import(r.0), r.1)
        },
        SessionView::Update(s) => {
            let r = update_step(s, event);
            (SessionView::Update(r.0), r.1)
        },
        SessionView::Delete(s) => {
            let r = delete_step(s, event);
            (SessionView::Delete(r.0), r.1)
        },
    }
}

/// Where `command` has come after `events`, and what it did last.
pub open spec fn after(command: CommandView, events: Seq<EventView>) -> (SessionView, StepView)
    decreases events.len(),
{
    if events.len() == 0 {
        session_start(command)
    } else {
        session_step(after(command, events.drop_last()).0, events.last())
    }
}

/// What `command` needs done after `events`.
pub open spec fn request_after(command: CommandView, events: Seq<EventView>) -> RequestView {
    after(command, events).1.request
}

/// What one event more leads to.
pub proof fn lemma_after_push(command: CommandView, events: Seq<EventView>, event: EventView)
    ensures
        after(command, events.push(event)) == session_step(after(command, events).0, event),
{
    assert(events.push(event).drop_last() =~= events);
}

/// What follows the same point is the same.
pub proof fn lemma_after_same(
    a: CommandView,
    a_events: Seq<EventView>,
    b: CommandView,
    b_events: Seq<EventView>,
    rest: Seq<EventView>,
)
    requires
        after(a, a_events) == after(b, b_events),
    ensures
        after(a, a_events + rest) == after(b, b_events + rest),
    decreases rest.len(),
{
    if rest.len() == 0 {
        assert(a_events + rest =~= a_events);
        assert(b_events + rest =~= b_events);
    } else {
        lemma_after_same(a, a_events, b, b_events, rest.drop_last());
        assert((a_events + rest).drop_last() =~= a_events + rest.drop_last());
        assert((b_events + rest).drop_last() =~= b_events + rest.drop_last());
    }
}

impl Session {
    /// Starts `command`.
    pub fn start(command: Command) -> (r: (Session, Step))
        ensures
            (r.0@, r.1@) == session_start(command@),
    {
        match command {
            Command::Create(args) => {
                let (s, step) = Create::start(args);
                (Session::Create(s), step)
            },
            Command::List => {
                let (s, step) = Overview::start(false);
                (Session::Overview(s), step)
            },
            Command::Status => {
                let (s, step) = Overview::start(true);
                (Session::Overview(s), step)
            },
            Command::Run(name) => {
                let (s, step) = Run::start(name);
                (Session::Run(s), step)
            },
            Command::Show(name) => {
                let (s, step) = Show::start(name);
                (Session::Show(s), step)
            },
            Command::Import(args) => {
                let (s, step) = Import::start(args);
                (Session::Import(s), step)
            },
            Command::Update(args) => {
                let (s, step) = Update::start(args);
                (Session::Update(s), step)
            },
            Command::Delete(args) => {
                let (s, step) = Delete::start(args);
                (Session::Delete(s), step)
            },
        }
    }

    /// Goes on after `event`.
    pub fn step(self, event: Event) -> (r: (Session, Step))
        ensures
            (r.0@, r.1@) == session_step(self@, event@),
    {
        match self {
            Session::Create(s) => {
                let (s, step) = s.step(event);
                (Session::Create(s), step)
            },
            Session::Overview(s) => {
                let (s, step) = s.step(event);
                (Session::Overview(s), step)
            },
            Session::Run(s) => {
                let (s, step) = s.step(event);
                (Session::Run(s), step)
            },
            Session::Show(s) => {
                let (s, step) = s.step(event);
                (Session::Show(s), step)
            },
            Session::Import(s) => {
                let (s, step) = s.step(event);
                (Session::Import(s), step)
            },
            Session::Update(s) => {
                let (s, step) = s.step(event);
                (Session::Update(s), step)
            },
            Session::Delete(s) => {
                let (s, step) = s.step(event);
                (Session::Delete(s), step)
            },
        }
    }
}

/// What is said of a command is said of all that the user said.
pub proof fn law_command_in_view(
    create: CreateArgs,
    update: UpdateArgs,
    delete: DeleteArgs,
    import: ImportArgs,
    name: String,
)
    ensures
        create.name matches Some(text) ==> create@.name == Some(text@),
        create.name is None ==> create@.name is None,
        create.hostname matches Some(text) ==> create@.hostname == Some(text@),
        create.hostname is None ==> create@.hostname is None,
        create.local matches Some(text) ==> create@.local == Some(text@),
        create.local is None ==> create@.local is None,
        update.name matches Some(text) ==> update@.name == Some(text@),
        update.name is None ==> update@.name is None,
        update.hostname matches Some(text) ==> update@.hostname == Some(text@),
        update.hostname is None ==> update@.hostname is None,
        update.local matches Some(text) ==> update@.local == Some(text@),
        update.local is None ==> update@.local is None,
        delete.name matches Some(text) ==> delete@.name == Some(text@),
        delete.name is None ==> delete@.name is None,
        delete@.cleanup == delete.cleanup,
        import@.name == import.name@,
        import@.hostname == import.hostname@,
        import@.local == import.local@,
        Command::Create(create)@ == CommandView::Create(create@),
        Command::Update(update)@ == CommandView::Update(update@),
        Command::Delete(delete)@ == CommandView::Delete(delete@),
        Command::Import(import)@ == CommandView::Import(import@),
        Command::Show(name)@ == CommandView::Show(name@),
        Command::Run(Some(name))@ == CommandView::Run(Some(name@)),
        Command::Run(None)@ == CommandView::Run(None),
        Command::List@ == CommandView::List,
        Command::Status@ == CommandView::Status,
{
}

} // verus!
