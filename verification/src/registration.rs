//! The application-service registration record and the host
//! configuration, with the generator for a fresh registration whose
//! two tokens are drawn at random.

use vstd::prelude::*;
use crate::wrappers::random_alphanumeric;

verus! {

/// The application-service registration: identifiers, the two access
/// tokens, and the namespaces it claims.
#[derive(Debug)]
pub struct Registration {
    pub id: String,
    pub url: String,
    pub app_token: String,
    pub server_token: String,
    pub sender_localpart: String,
    pub rate_limited: Option<bool>,
    pub namespaces: Namespaces,
    pub protocols: Vec<String>,
    pub soru_ephemeral_events: Option<bool>,
    pub ephemeral_events: Option<bool>,
    pub msc3202: Option<bool>,
}

#[derive(Debug)]
pub struct Namespaces {
    pub user_ids: Option<Vec<Namespace>>,
    pub room_aliases: Option<Vec<Namespace>>,
    pub room_ids: Option<Vec<Namespace>>,
}

#[derive(Debug)]
pub struct Namespace {
    pub regex: String,
    pub exclusive: bool,
}

impl Registration {
    /// A fresh registration: both tokens are 64 random alphanumeric
    /// characters; everything else is empty.
    pub fn create_registration() -> (r: Registration)
        ensures
            r.app_token@.len() == 64,
            r.server_token@.len() == 64,
            r.id@ == Seq::<char>::empty(),
            r.url@ == Seq::<char>::empty(),
            r.sender_localpart@ == Seq::<char>::empty(),
            r.rate_limited is None,
            r.namespaces.user_ids is None,
            r.namespaces.room_aliases is None,
            r.namespaces.room_ids is None,
            r.protocols@.len() == 0,
            r.soru_ephemeral_events is None,
            r.ephemeral_events is None,
            r.msc3202 is None,
    {
        let app_token = random_alphanumeric(64);
        let server_token = random_alphanumeric(64);
        Registration {
            id: String::new(),
            url: String::new(),
            app_token,
            server_token,
            sender_localpart: String::new(),
            rate_limited: Option::None,
            namespaces: Namespaces {
                user_ids: Option::None,
                room_aliases: Option::None,
                room_ids: Option::None,
            },
            protocols: Vec::new(),
            soru_ephemeral_events: Option::None,
            ephemeral_events: Option::None,
            msc3202: Option::None,
        }
    }
}

/// Where the application service listens.
#[derive(Debug)]
pub struct HostConfig {
    pub hostname: String,
    pub port: Option<u16>,
}

/// What creating an application-service state needs.
pub struct CreateOpts {
    pub registration: Registration,
    pub homeserver_domain: String,
    pub homeserver_url: String,
    pub host_config: HostConfig,
}

} // verus!
