//! Laws of what is said about a server as a whole.
use crate::model::{ConnectStatus, Invoker, Server};
use crate::names::{get_invoker_name, get_server_name};
use crate::server_events::{
    connect_status_change, permission_error, server_edited, server_error, server_stop,
};
use vstd::prelude::*;

verus! {

/// We are told when we have come to a server and when we have left it, and nothing
/// of the stages in between.
pub proof fn law_status(server: &Server, status: ConnectStatus, name: &str, r: Option<String>)
    requires
        call_ensures(get_server_name, (server,), name),
        call_ensures(connect_status_change, (Some(server), status), r),
    ensures
        r is Some <==> status == ConnectStatus::Connected || status == ConnectStatus::Disconnected,
        status == ConnectStatus::Connected ==> r->0@ == "Connected to "@ + name@,
        status == ConnectStatus::Disconnected ==> r->0@ == "Disconnected from "@ + name@,
{
}

/// A stop is told with the name of the server, and then with the whole reason if
/// there is one.
pub proof fn law_stop_reason_is_whole(
    server: &Server,
    no_message: &str,
    message: &str,
    name: &str,
    plain: Option<String>,
    r: Option<String>,
)
    requires
        no_message@.len() == 0,
        message@.len() > 0,
        call_ensures(get_server_name, (server,), name),
        call_ensures(server_stop, (Some(server), no_message), plain),
        call_ensures(server_stop, (Some(server), message), r),
    ensures
        plain is Some && r is Some,
        plain->0@ == name@ + " stopped"@,
        r->0@ == plain->0@ + " because "@ + message@,
{
    assert(plain->0@ =~= name@ + " stopped"@);
    assert(r->0@ =~= plain->0@ + " because "@ + message@);
}

/// Whoever edited the server is named; nobody is named where nobody is known.
pub proof fn law_editing(
    server: &Server,
    invoker: &Invoker,
    actor: &str,
    named: Option<String>,
    unnamed: Option<String>,
)
    requires
        call_ensures(get_invoker_name, (server, invoker), actor),
        call_ensures(server_edited, (Some(server), Some(invoker)), named),
        call_ensures(server_edited, (Some(server), None::<&Invoker>), unnamed),
    ensures
        named is Some && unnamed is Some,
        named->0@ == actor@ + " edited the server"@,
        unnamed->0@ == "The server was edited"@,
{
}

/// Errors are passed on to the client. The log line holds all that is known of one,
/// in full.
pub proof fn law_errors(
    error: &str,
    message: &str,
    extra_message: &str,
    logged: (String, bool),
    denied: (String, bool),
)
    requires
        call_ensures(server_error, (error, message, extra_message), logged),
        call_ensures(permission_error, (message,), denied),
    ensures
        !logged.1 && !denied.1,
        logged.0@ == "A server error occured: "@ + message@ + " ("@ + error@ + "; "@
            + extra_message@ + ")"@,
        denied.0@ == "Denied "@ + message@,
{
}

/// Nothing is said of a server that is not known.
pub proof fn law_unknown_server_is_silent(
    status: ConnectStatus,
    message: &str,
    invoker: Option<&Invoker>,
    r: Option<String>,
)
    requires
        ({
            let none = None::<&Server>;
            ||| call_ensures(connect_status_change, (none, status), r)
            ||| call_ensures(server_stop, (none, message), r)
            ||| call_ensures(server_edited, (none, invoker), r)
        }),
    ensures
        r is None,
{
}

} // verus!
