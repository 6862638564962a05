//! What is said about a server as a whole.
use crate::model::{ConnectStatus, Invoker, InvokerView, Server, ServerView};
use crate::names::{get_invoker_name, get_server_name};
use crate::text::because;
use vstd::prelude::*;

verus! {

impl ServerView {
    /// Only coming to a server and leaving it are worth a text.
    pub open spec fn status_text(self, status: ConnectStatus) -> Option<Seq<char>> {
        match status {
            ConnectStatus::Connected => Some("Connected to "@ + self.spoken()),
            ConnectStatus::Disconnected => Some("Disconnected from "@ + self.spoken()),
            _ => None,
        }
    }

    /// The server stopped, for the given reason if it is not empty.
    pub open spec fn stop_text(self, message: Seq<char>) -> Seq<char> {
        self.spoken() + " stopped"@ + crate::text::reason(message)
    }

    /// Somebody, or nobody that we know of, edited the server.
    pub open spec fn edited_text(self, invoker: Option<InvokerView>) -> Seq<char> {
        match invoker {
            Some(invoker) => self.spoken_invoker(invoker) + " edited the server"@,
            None => "The server was edited"@,
        }
    }
}

/// The view of an invoker that may be missing.
pub open spec fn invoker_view(invoker: Option<&Invoker>) -> Option<InvokerView> {
    match invoker {
        Some(invoker) => Some(invoker@),
        None => None,
    }
}

/// Called when the connection status of a server changes.
pub fn connect_status_change(server: Option<&Server>, status: ConnectStatus) -> (r: Option<String>)
    ensures
        crate::text::text(r) == match server {
            Some(server) => server@.status_text(status),
            None => None,
        },
{
    let server = match server {
        Some(server) => server,
        None => return None,
    };
    match status {
        ConnectStatus::Connected => Some("Connected to ".to_owned().concat(get_server_name(server))),
        ConnectStatus::Disconnected => Some(
            "Disconnected from ".to_owned().concat(get_server_name(server)),
        ),
        _ => None,
    }
}

/// Called when a server is stopped.
pub fn server_stop(server: Option<&Server>, message: &str) -> (r: Option<String>)
    ensures
        crate::text::text(r) == match server {
            Some(server) => Some(server@.stop_text(message@)),
            None => None,
        },
{
    match server {
        Some(server) => Some(
            get_server_name(server).to_owned().concat(" stopped").concat(
                because(message).as_str(),
            ),
        ),
        None => None,
    }
}

/// Called when a server reports an error. Nothing is read out: the first result
/// is the line for the log, the second tells the client to handle the error as
/// usual.
pub fn server_error(error: &str, message: &str, extra_message: &str) -> (r: (String, bool))
    ensures
        r.0@ == "A server error occured: "@ + message@ + " ("@ + error@ + "; "@ + extra_message@
            + ")"@,
        !r.1,
{
    let line = "A server error occured: ".to_owned().concat(message).concat(" (").concat(
        error,
    ).concat("; ").concat(extra_message).concat(")");
    (line, false)
}

/// Called when somebody edited the server.
pub fn server_edited(server: Option<&Server>, invoker: Option<&Invoker>) -> (r: Option<String>)
    ensures
        crate::text::text(r) == match server {
            Some(server) => Some(server@.edited_text(invoker_view(invoker))),
            None => None,
        },
{
    match (server, invoker) {
        (Some(server), Some(invoker)) => Some(
            get_invoker_name(server, invoker).to_owned().concat(" edited the server"),
        ),
        (Some(_), None) => Some("The server was edited".to_owned()),
        (None, _) => None,
    }
}

/// Called when we lack the permission for something. Returns what is to be read
/// out, and tells the client to handle the error as usual.
pub fn permission_error(message: &str) -> (r: (String, bool))
    ensures
        r.0@ == "Denied "@ + message@,
        !r.1,
{
    ("Denied ".to_owned().concat(message), false)
}

} // verus!
