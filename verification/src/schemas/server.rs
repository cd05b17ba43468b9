//! Module that holds everything that is necessary for the `Server`
use vstd::prelude::*;

pub use crate::models::server::{InputServer, InsertableServer, QueryableServer, Server};
use crate::models::server::server_request;
use crate::registration::{first_move, CreationAction, PeerCreation};

verus! {

/// Creates a new server: starts its registration (see [`Server::create`]).
pub fn create_server(server: &InputServer) -> (r: (PeerCreation, CreationAction))
    ensures
        r.0.request == server_request(*server),
        (r.0.step, r.1) == first_move(server_request(*server)),
{
    Server::create(server)
}

} // verus!
