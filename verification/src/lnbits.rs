//! Data types of the external custodial wallet API: request parameter
//! records, the wallet and user records it returns, and the client
//! configuration (base URL and headers). The HTTP calls themselves are
//! performed by the application shell, which hands the responses back
//! to the orchestrator as plain values.

use vstd::prelude::*;
use crate::config::Config;
use crate::wrappers::fresh_uuid;

verus! {

/// Parameters of an invoice-creation request.
#[derive(Debug)]
pub struct InvoiceParams {
    pub out: bool,
    pub amount: i64,
    pub memo: Option<String>,
    pub webhook: Option<String>,
    pub description_hash: Option<String>,
}

impl InvoiceParams {
    /// An inbound invoice over `amount` satoshis. A missing memo is
    /// replaced by a freshly generated random token.
    pub fn simple_new(amount: u64, memo: &Option<String>) -> (r: InvoiceParams)
        requires
            amount <= i64::MAX,
        ensures
            r.out == false,
            r.amount == amount as i64,
            (match memo {
                Option::Some(m) => r.memo matches Option::Some(rm) && rm@ == m@,
                Option::None => r.memo matches Option::Some(rm) && rm@.len() == 36,
            }),
            r.webhook is None,
            r.description_hash is None,
    {
        let m: Option<String> = match memo {
            Option::Some(m) => Option::Some(String::from_str(m.as_str())),
            Option::None => Option::Some(fresh_uuid()),
        };
        InvoiceParams {
            out: false,
            amount: amount as i64,
            memo: m,
            webhook: Option::None,
            description_hash: Option::None,
        }
    }
}

/// Parameters of a payment request.
#[derive(Debug)]
pub struct PaymentParams {
    pub out: bool,
    pub bolt11: String,
}

impl PaymentParams {
    pub fn new(out: bool, bolt11: &str) -> (r: PaymentParams)
        ensures
            r.out == out,
            r.bolt11@ == bolt11@,
    {
        PaymentParams { out, bolt11: String::from_str(bolt11) }
    }
}

/// Parameters of a wallet-to-wallet transfer.
#[derive(Debug)]
pub struct TransferParams {
    pub memo: String,
    pub num_satoshis: i64,
    pub dest_wallet_id: String,
}

/// An invoice returned by the wallet service.
#[derive(Debug)]
pub struct BitInvoice {
    pub payment_hash: Option<String>,
    pub payment_request: String,
}

/// An external wallet: id, two capability keys (read/invoice vs
/// admin/spend) and an optional balance.
#[derive(Debug)]
pub struct Wallet {
    pub id: String,
    pub admin: Option<String>,
    pub admin_key: String,
    pub in_key: String,
    pub name: String,
    pub user: String,
    pub balance: Option<u64>,
}

/// Wallet details: the balance in the API's base units, when reported.
#[derive(Debug)]
pub struct WalletInfo {
    pub balance: Option<u64>,
}

/// An error record of the wallet service.
#[derive(Debug)]
pub struct Error {
    pub name: String,
    pub message: String,
    pub code: String,
    pub status: String,
}

/// A user record of the wallet service.
#[derive(Debug)]
pub struct LNBitsUser {
    pub id: String,
    pub name: String,
    pub email: String,
    pub admin: String,
    pub password: Option<String>,
    pub wallets: Option<Vec<Wallet>>,
}

impl LNBitsUser {
    /// The user record that a stored wallet identifier denotes.
    pub fn from_id(lnbits_id: &str) -> (r: LNBitsUser)
        ensures
            r.id@ == lnbits_id@,
            r.admin@ == lnbits_id@,
            r.name@ == Seq::<char>::empty(),
            r.email@ == Seq::<char>::empty(),
            r.password is None,
            r.wallets is None,
    {
        LNBitsUser {
            id: String::from_str(lnbits_id),
            name: String::new(),
            email: String::new(),
            admin: String::from_str(lnbits_id),
            password: Option::None,
            wallets: Option::None,
        }
    }
}

/// The wallet service's endpoint and standing request headers.
pub struct LNBitsClient {
    pub url: String,
    pub header: [(String, String); 3],
}

impl LNBitsClient {
    pub fn new(config: &Config) -> (r: LNBitsClient)
        ensures
            r.url@ == config.lnbits_url@,
            r.header[0].0@ == "Content-Type"@ && r.header[0].1@ == "application/json"@,
            r.header[1].0@ == "Accept"@ && r.header[1].1@ == "application/json"@,
            r.header[2].0@ == "X-Api-Key"@ && r.header[2].1@ == config.lnbits_x_api_key@,
    {
        LNBitsClient {
            url: String::from_str(config.lnbits_url.as_str()),
            header: [
                (String::from_str("Content-Type"), String::from_str("application/json")),
                (String::from_str("Accept"), String::from_str("application/json")),
                (String::from_str("X-Api-Key"), String::from_str(config.lnbits_x_api_key.as_str())),
            ],
        }
    }
}

/// Arguments of the user/wallet creation call.
#[derive(Debug)]
pub struct CreateUserArgs {
    pub wallet_name: String,
    pub admin_id: String,
    pub user_name: String,
    pub email: String,
    pub password: String,
}

impl CreateUserArgs {
    pub fn new(wallet_name: &str, admin_id: &str, user_name: &str, email: &str, password: &str)
        -> (r: CreateUserArgs)
        ensures
            r.wallet_name@ == wallet_name@,
            r.admin_id@ == admin_id@,
            r.user_name@ == user_name@,
            r.email@ == email@,
            r.password@ == password@,
    {
        CreateUserArgs {
            wallet_name: String::from_str(wallet_name),
            admin_id: String::from_str(admin_id),
            user_name: String::from_str(user_name),
            email: String::from_str(email),
            password: String::from_str(password),
        }
    }
}

} // verus!
