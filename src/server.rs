use vstd::prelude::*;
use crate::json::json_quoted;
use crate::json::json_string;

verus! {

/// The one route that is served.
pub const WELL_KNOWN_PATH: &'static str = "/.well-known/matrix/server";

/// Content type of the discovery document.
pub const JSON_CONTENT_TYPE: &'static str = "application/json";

/// HTTP status of a served discovery document.
pub const STATUS_OK: u16 = 200;

/// The resolved `m.server` value, fixed for the life of the server.
pub struct MServer {
    pub server: String,
}

/// A response of the discovery route.
pub struct Response {
    pub status: u16,
    pub content_type: String,
    pub body: String,
}

/// The discovery document for an `m.server` value: a JSON object whose one
/// member `m.server` holds that value.
pub open spec fn well_known_body(server: Seq<char>) -> Seq<char> {
    "{\"m.server\":"@ + json_quoted(server) + "}"@
}

/// Answers the discovery route: status 200, JSON, and the discovery document
/// for the configured value.
pub fn well_known(m_server: &MServer) -> (r: Response)
    ensures
        r.status == STATUS_OK,
        r.content_type@ == JSON_CONTENT_TYPE@,
        r.body@ == well_known_body(m_server.server@),
{
    let value = json_string(m_server.server.as_str());
    let body = String::from_str("{\"m.server\":").concat(value.as_str()).concat("}");
    Response { status: STATUS_OK, content_type: String::from_str(JSON_CONTENT_TYPE), body }
}

/// A discovery server: the configured value and the route that serves it.
pub struct WellKnownServer {
    state: MServer,
}

impl WellKnownServer {
    /// The `m.server` value that this server hands out.
    pub closed spec fn m_server(&self) -> Seq<char> {
        self.state.server@
    }

    /// Answers a GET request for `path`: the discovery document on its route,
    /// and `None` on every other path, which is left to the HTTP layer.
    pub fn get(&self, path: &str) -> (r: Option<Response>)
        ensures
            path@ == WELL_KNOWN_PATH@ <==> r is Some,
            r matches Some(resp) ==> resp.status == STATUS_OK && resp.content_type@
                == JSON_CONTENT_TYPE@ && resp.body@ == well_known_body(self.m_server()),
    {
        if String::from_str(path) == String::from_str(WELL_KNOWN_PATH) {
            Some(well_known(&self.state))
        } else {
            None
        }
    }
}

/// Repeated GET requests on the discovery route of one server get the same
/// body, character for character.
pub proof fn lemma_repeated_requests_agree(
    srv: WellKnownServer,
    first: Response,
    second: Response,
)
    requires
        first.body@ == well_known_body(srv.m_server()),
        second.body@ == well_known_body(srv.m_server()),
    ensures
        first.body@ == second.body@,
{
}

/// Sets up the discovery server for a resolved `m.server` value.
pub fn rocket(server: String) -> (r: WellKnownServer)
    ensures
        r.m_server() == server@,
{
    WellKnownServer { state: MServer { server } }
}

} // verus!
