//! What can go wrong in a command.
use crate::text::{cat2, cat3, cat5};
use vstd::prelude::*;

verus! {

/// Why a command ended without success.
#[derive(Debug)]
pub enum Error {
    /// A tunnel to be created exists in Cloudflare.
    TunnelExists { name: String },
    /// A tunnel to be created is managed by cftun.
    NameInUse { name: String },
    /// A tunnel to be created or imported would have its configuration in the file
    /// of the metadata.
    ReservedName { name: String },
    /// A tunnel to be created or imported would have its configuration in the file
    /// of that of a managed tunnel.
    ConfigInUse { name: String },
    /// A tunnel to be imported is managed by cftun.
    AlreadyManaged { name: String },
    /// A tunnel to be imported does not exist in Cloudflare.
    NoSuchTunnel { name: String },
    /// A tunnel is not managed by cftun.
    NotFound { name: String },
    /// A tunnel to be deleted is not managed by cftun.
    NotInMetadata { name: String },
    /// There is no tunnel to choose from.
    NoTunnels,
    /// An update was asked for that changes nothing.
    NothingToUpdate,
    /// cloudflared did not say which id the tunnel has.
    UuidNotFound,
    /// cloudflared failed.
    CommandFailed { command: String, status: String, stdout: String, stderr: String },
    /// cloudflared could not list the tunnels.
    ListFailed { stderr: String },
    /// The running tunnel ended with a failure.
    Exited { status: String },
}

/// The texts of an [`Error`].
pub enum ErrorView {
    TunnelExists { name: Seq<char> },
    NameInUse { name: Seq<char> },
    ReservedName { name: Seq<char> },
    ConfigInUse { name: Seq<char> },
    AlreadyManaged { name: Seq<char> },
    NoSuchTunnel { name: Seq<char> },
    NotFound { name: Seq<char> },
    NotInMetadata { name: Seq<char> },
    NoTunnels,
    NothingToUpdate,
    UuidNotFound,
    CommandFailed { command: Seq<char>, status: Seq<char>, stdout: Seq<char>, stderr: Seq<char> },
    ListFailed { stderr: Seq<char> },
    Exited { status: Seq<char> },
}

impl View for Error {
    type V = ErrorView;

    open spec fn view(&self) -> ErrorView {
        match self {
            Error::TunnelExists { name } => ErrorView::TunnelExists { name: name@ },
            Error::NameInUse { name } => ErrorView::NameInUse { name: name@ },
            Error::ReservedName { name } => ErrorView::ReservedName { name: name@ },
            Error::ConfigInUse { name } => ErrorView::ConfigInUse { name: name@ },
            Error::AlreadyManaged { name } => ErrorView::AlreadyManaged { name: name@ },
            Error::NoSuchTunnel { name } => ErrorView::NoSuchTunnel { name: name@ },
            Error::NotFound { name } => ErrorView::NotFound { name: name@ },
            Error::NotInMetadata { name } => ErrorView::NotInMetadata { name: name@ },
            Error::NoTunnels => ErrorView::NoTunnels,
            Error::NothingToUpdate => ErrorView::NothingToUpdate,
            Error::UuidNotFound => ErrorView::UuidNotFound,
            Error::CommandFailed { command, status, stdout, stderr } => ErrorView::CommandFailed {
                command: command@,
                status: status@,
                stdout: stdout@,
                stderr: stderr@,
            },
            Error::ListFailed { stderr } => ErrorView::ListFailed { stderr: stderr@ },
            Error::Exited { status } => ErrorView::Exited { status: status@ },
        }
    }
}

/// What the user is told of an error.
pub open spec fn message_of(e: ErrorView) -> Seq<char> {
    match e {
        ErrorView::TunnelExists { name } => "a cloudflared tunnel named '"@ + name
            + "' already exists. pick a different name or import it with `cftun import "@ + name
            + " <hostname> <port/url>`"@,
        ErrorView::NameInUse { name } => "tunnel '"@ + name
            + "' already exists in cftun. run `cftun list` to see it"@,
        ErrorView::ReservedName { name } => "the name '"@ + name
            + "' is reserved: its config would replace the metadata of cftun. pick a different name"@,
        ErrorView::ConfigInUse { name } => "the name '"@ + name
            + "' is taken: its config would replace that of another tunnel. pick a different name"@,
        ErrorView::AlreadyManaged { name } => "tunnel '"@ + name
            + "' is already managed by cftun"@,
        ErrorView::NoSuchTunnel { name } => "no cloudflared tunnel named '"@ + name
            + "' found. run `cftun list` to see existing tunnels"@,
        ErrorView::NotFound { name } => "tunnel '"@ + name
            + "' not found. run `cftun list` to see available tunnels (or import it with `cftun import <name> <hostname> <port/url>`)"@,
        ErrorView::NotInMetadata { name } => "tunnel '"@ + name
            + "' not found in cftun metadata. run `cftun list` to see available tunnels (or import it with `cftun import "@
            + name + " <hostname> <port/url>`)"@,
        ErrorView::NoTunnels => "no tunnels managed by cftun. create one with `cftun create`"@,
        ErrorView::NothingToUpdate => "provide at least one of --hostname or --local"@,
        ErrorView::UuidNotFound => "could not parse tunnel UUID from cloudflared output"@,
        ErrorView::CommandFailed { command, status, stdout, stderr } => "cloudflared "@ + command
            + " failed ("@ + status + "):\nstdout: "@ + stdout + "\nstderr: "@ + stderr,
        ErrorView::ListFailed { stderr } => "cloudflared tunnel list failed: "@ + stderr,
        ErrorView::Exited { status } => "cloudflared exited with "@ + status,
    }
}

impl Error {
    /// What the user is told.
    pub fn message(&self) -> (r: String)
        ensures
            r@ == message_of(self@),
    {
        match self {
            Error::TunnelExists { name } => cat5(
                "a cloudflared tunnel named '",
                name.as_str(),
                "' already exists. pick a different name or import it with `cftun import ",
                name.as_str(),
                " <hostname> <port/url>`",
            ),
            Error::NameInUse { name } => cat3(
                "tunnel '",
                name.as_str(),
                "' already exists in cftun. run `cftun list` to see it",
            ),
            Error::ReservedName { name } => cat3(
                "the name '",
                name.as_str(),
                "' is reserved: its config would replace the metadata of cftun. pick a different name",
            ),
            Error::ConfigInUse { name } => cat3(
                "the name '",
                name.as_str(),
                "' is taken: its config would replace that of another tunnel. pick a different name",
            ),
            Error::AlreadyManaged { name } => cat3(
                "tunnel '",
                name.as_str(),
                "' is already managed by cftun",
            ),
            Error::NoSuchTunnel { name } => cat3(
                "no cloudflared tunnel named '",
                name.as_str(),
                "' found. run `cftun list` to see existing tunnels",
            ),
            Error::NotFound { name } => cat3(
                "tunnel '",
                name.as_str(),
                "' not found. run `cftun list` to see available tunnels (or import it with `cftun import <name> <hostname> <port/url>`)",
            ),
            Error::NotInMetadata { name } => cat5(
                "tunnel '",
                name.as_str(),
                "' not found in cftun metadata. run `cftun list` to see available tunnels (or import it with `cftun import ",
                name.as_str(),
                " <hostname> <port/url>`)",
            ),
            Error::NoTunnels =>
                "no tunnels managed by cftun. create one with `cftun create`".to_string(),
            Error::NothingToUpdate => "provide at least one of --hostname or --local".to_string(),
            Error::UuidNotFound =>
                "could not parse tunnel UUID from cloudflared output".to_string(),
            Error::CommandFailed { command, status, stdout, stderr } => {
                let mut out = cat5(
                    "cloudflared ",
                    command.as_str(),
                    " failed (",
                    status.as_str(),
                    "):\nstdout: ",
                );
                out.append(stdout.as_str());
                out.append("\nstderr: ");
                out.append(stderr.as_str());
                out
            },
            Error::ListFailed { stderr } => cat2(
                "cloudflared tunnel list failed: ",
                stderr.as_str(),
            ),
            Error::Exited { status } => cat2(
                "cloudflared exited with ",
                status.as_str(),
            ),
        }
    }
}

/// Every message names the tunnel that it is about, where there is one, and says what
/// to do.
pub proof fn law_messages(name: Seq<char>)
    ensures
        message_of(ErrorView::TunnelExists { name }) == "a cloudflared tunnel named '"@ + name
            + "' already exists. pick a different name or import it with `cftun import "@ + name
            + " <hostname> <port/url>`"@,
        message_of(ErrorView::NameInUse { name }) == "tunnel '"@ + name
            + "' already exists in cftun. run `cftun list` to see it"@,
        message_of(ErrorView::ReservedName { name }) == "the name '"@ + name
            + "' is reserved: its config would replace the metadata of cftun. pick a different name"@,
        message_of(ErrorView::ConfigInUse { name }) == "the name '"@ + name
            + "' is taken: its config would replace that of another tunnel. pick a different name"@,
        message_of(ErrorView::AlreadyManaged { name }) == "tunnel '"@ + name
            + "' is already managed by cftun"@,
        message_of(ErrorView::NoSuchTunnel { name }) == "no cloudflared tunnel named '"@ + name
            + "' found. run `cftun list` to see existing tunnels"@,
        message_of(ErrorView::NotFound { name }) == "tunnel '"@ + name
            + "' not found. run `cftun list` to see available tunnels (or import it with `cftun import <name> <hostname> <port/url>`)"@,
        message_of(ErrorView::NotInMetadata { name }) == "tunnel '"@ + name
            + "' not found in cftun metadata. run `cftun list` to see available tunnels (or import it with `cftun import "@
            + name + " <hostname> <port/url>`)"@,
{
}

/// A message about cloudflared quotes all that is known of its failure.
pub proof fn law_cloudflared_messages(
    command: Seq<char>,
    status: Seq<char>,
    stdout: Seq<char>,
    stderr: Seq<char>,
)
    ensures
        message_of(ErrorView::CommandFailed { command, status, stdout, stderr }) == "cloudflared "@
            + command + " failed ("@ + status + "):\nstdout: "@ + stdout + "\nstderr: "@ + stderr,
        message_of(ErrorView::ListFailed { stderr }) == "cloudflared tunnel list failed: "@ + stderr,
        message_of(ErrorView::Exited { status }) == "cloudflared exited with "@ + status,
{
}

/// What is said of an error is said of all that it quotes.
pub proof fn law_error_in_view(error: Error)
    ensures
        match error {
            Error::TunnelExists { name } => error@ == (ErrorView::TunnelExists { name: name@ }),
            Error::NameInUse { name } => error@ == (ErrorView::NameInUse { name: name@ }),
            Error::ReservedName { name } => error@ == (ErrorView::ReservedName { name: name@ }),
            Error::ConfigInUse { name } => error@ == (ErrorView::ConfigInUse { name: name@ }),
            Error::AlreadyManaged { name } => error@ == (ErrorView::AlreadyManaged { name: name@ }),
            Error::NoSuchTunnel { name } => error@ == (ErrorView::NoSuchTunnel { name: name@ }),
            Error::NotFound { name } => error@ == (ErrorView::NotFound { name: name@ }),
            Error::NotInMetadata { name } => error@ == (ErrorView::NotInMetadata { name: name@ }),
            Error::NoTunnels => error@ is NoTunnels,
            Error::NothingToUpdate => error@ is NothingToUpdate,
            Error::UuidNotFound => error@ is UuidNotFound,
            Error::CommandFailed { command, status, stdout, stderr } => error@ == (
            ErrorView::CommandFailed {
                command: command@,
                status: status@,
                stdout: stdout@,
                stderr: stderr@,
            }),
            Error::ListFailed { stderr } => error@ == (ErrorView::ListFailed { stderr: stderr@ }),
            Error::Exited { status } => error@ == (ErrorView::Exited { status: status@ }),
        },
{
}

} // verus!
