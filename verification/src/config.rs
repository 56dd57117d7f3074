//! The agent's configuration: connection endpoints, credentials, and
//! the optional donation recipient. Reading it from the command line
//! belongs to the application shell.

use vstd::prelude::*;

verus! {

#[derive(Debug)]
pub struct Config {
    pub matrix_server: String,
    pub matrix_username: String,
    pub matrix_password: String,
    pub lnbits_url: String,
    pub lnbits_x_api_key: String,
    pub database_url: String,
    pub debug_level: String,
    pub donate_user: Option<String>,
    pub btc_donation_address: String,
}

impl Config {
    pub fn new(
        matrix_server: &str,
        matrix_username: &str,
        matrix_password: &str,
        lnbits_url: &str,
        lnbits_x_api_key: &str,
        database_url: &str,
        debug_level: &str,
        donate_user: Option<&String>,
        btc_donation_address: &str,
    ) -> (r: Config)
        ensures
            r.matrix_server@ == matrix_server@,
            r.matrix_username@ == matrix_username@,
            r.matrix_password@ == matrix_password@,
            r.lnbits_url@ == lnbits_url@,
            r.lnbits_x_api_key@ == lnbits_x_api_key@,
            r.database_url@ == database_url@,
            r.debug_level@ == debug_level@,
            (match donate_user {
                Option::Some(d) => r.donate_user matches Option::Some(rd) && rd@ == d@,
                Option::None => r.donate_user is None,
            }),
            r.btc_donation_address@ == btc_donation_address@,
    {
        Config {
            matrix_server: String::from_str(matrix_server),
            matrix_username: String::from_str(matrix_username),
            matrix_password: String::from_str(matrix_password),
            lnbits_url: String::from_str(lnbits_url),
            lnbits_x_api_key: String::from_str(lnbits_x_api_key),
            database_url: String::from_str(database_url),
            debug_level: String::from_str(debug_level),
            donate_user: match donate_user {
                Option::Some(d) => Option::Some(String::from_str(d.as_str())),
                Option::None => Option::None,
            },
            btc_donation_address: String::from_str(btc_donation_address),
        }
    }
}

} // verus!
