//! The records of the service and the decisions taken on them.
pub mod allowed_ips;
pub mod dns_server;
pub mod server;
pub mod user;
pub mod vpn_ip_address;
pub mod vpn_network;

use vstd::prelude::*;

use crate::crypto::{issued_for, Claims};
use crate::models::user::{bcrypt_verify_outcome, jwt_user_of, check_password, JwtUser, LoginError, User, VerifyOutcome};
use crate::schemas::keypair::Keypair;
use crate::validate::{contains_id, is_keypair_used};

verus! {

/// Whether a keypair with the id `id` is used by a client or a server.
pub open spec fn keypair_in_use(client_keypair_ids: Seq<i32>, server_keypair_ids: Seq<i32>, id: i32) -> bool {
    client_keypair_ids.contains(id) || server_keypair_ids.contains(id)
}

/// The keypairs of `keypairs` that no client and no server uses, in their order.
pub open spec fn unused(keypairs: Seq<Keypair>, client_keypair_ids: Seq<i32>, server_keypair_ids: Seq<i32>) -> Seq<Keypair>
    decreases keypairs.len(),
{
    if keypairs.len() == 0 {
        keypairs
    } else {
        let rest = unused(keypairs.drop_last(), client_keypair_ids, server_keypair_ids);
        if keypair_in_use(client_keypair_ids, server_keypair_ids, keypairs.last().id) {
            rest
        } else {
            rest.push(keypairs.last())
        }
    }
}

/// Returns all unused keypairs: those of `keypairs` whose id is the keypair id of no
/// client and of no server.
pub fn unused_keypairs(keypairs: &Vec<Keypair>, client_keypair_ids: &Vec<i32>, server_keypair_ids: &Vec<i32>) -> (r: Vec<Keypair>)
    ensures
        r@ == unused(keypairs@, client_keypair_ids@, server_keypair_ids@),
{
    let mut r: Vec<Keypair> = Vec::new();
    let mut i: usize = 0;
    while i < keypairs.len()
        invariant
            i <= keypairs.len(),
            r@ == unused(keypairs@.take(i as int), client_keypair_ids@, server_keypair_ids@),
        decreases keypairs.len() - i,
    {
        assert(keypairs@.take(i + 1).drop_last() =~= keypairs@.take(i as int));
        if !is_keypair_used(client_keypair_ids, server_keypair_ids, keypairs[i].id) {
            r.push(keypairs[i].duplicate());
        }
        i = i + 1;
    }
    assert(keypairs@.take(keypairs.len() as int) =~= keypairs@);
    r
}

/// A keypair is listed as unused exactly when it is one of the keypairs and neither a
/// client nor a server uses its id.
pub proof fn lemma_unused_keypairs(keypairs: Seq<Keypair>, client_keypair_ids: Seq<i32>, server_keypair_ids: Seq<i32>, k: Keypair)
    ensures
        unused(keypairs, client_keypair_ids, server_keypair_ids).contains(k) <==> keypairs.contains(k)
            && !keypair_in_use(client_keypair_ids, server_keypair_ids, k.id),
    decreases keypairs.len(),
{
    if keypairs.len() > 0 {
        let init = keypairs.drop_last();
        lemma_unused_keypairs(init, client_keypair_ids, server_keypair_ids, k);
        let rest = unused(init, client_keypair_ids, server_keypair_ids);
        assert(keypairs =~= init.push(keypairs.last()));
        if keypairs.contains(k) {
            let j = choose|j: int| 0 <= j < keypairs.len() && keypairs[j] == k;
            if j < keypairs.len() - 1 {
                assert(init[j] == k);
            }
        }
        if init.contains(k) {
            let j = choose|j: int| 0 <= j < init.len() && init[j] == k;
            assert(keypairs[j] == k);
        }
        if !keypair_in_use(client_keypair_ids, server_keypair_ids, keypairs.last().id) {
            let pushed = rest.push(keypairs.last());
            if pushed.contains(k) {
                let j = choose|j: int| 0 <= j < pushed.len() && pushed[j] == k;
                if j < rest.len() {
                    assert(rest[j] == k);
                }
            }
            if rest.contains(k) {
                let j = choose|j: int| 0 <= j < rest.len() && rest[j] == k;
                assert(pushed[j] == k);
            }
            assert(pushed[rest.len() as int] == keypairs.last());
        }
    }
}

/// Endpoint for retrieving a JWT: the claims of a token for `user`, whose stored hash
/// `password` must match; otherwise the error of the check.
pub fn login(user: User, password: &str) -> (r: Result<Claims, LoginError>)
    ensures
        r is Ok <==> bcrypt_verify_outcome(password@, user.password@) == VerifyOutcome::Ok(true),
        r matches Err(LoginError::WrongCredentials) <==> bcrypt_verify_outcome(password@, user.password@) == VerifyOutcome::Ok(false),
        r matches Err(LoginError::Hash(t)) ==> bcrypt_verify_outcome(password@, user.password@) == VerifyOutcome::Err(t@),
        r matches Ok(c) ==> issued_for(jwt_user_of(user), c),
{
    match check_password(&user, password) {
        Ok(()) => {
            let ghost expected = jwt_user_of(user);
            let jwt_user = JwtUser::from(user);
            assert(jwt_user == expected);
            let c = Claims::new(&jwt_user);
            Ok(c)
        },
        Err(e) => Err(e),
    }
}

} // verus!
