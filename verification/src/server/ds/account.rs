use vstd::prelude::*;

use crate::common::account::portfolio::{Portfolio, PortfolioView};
use crate::common::account::transaction::Transaction;

verus! {

/// An account as the server stores it. Hashes and salts are kept in
/// upper-case hexadecimal.
#[derive(Clone, Debug, PartialEq, Eq)]
pub struct Account {
    pub username: String,
    pub email_hash: String,
    pub server_email_salt: String,
    pub client_email_salt: String,
    pub pass_hash: String,
    pub server_pass_salt: String,
    pub client_pass_salt: String,
    /// The credential is a password.
    pub is_pass: bool,
    pub portfolio: Portfolio,
    pub transactions: Vec<Transaction>,
}

/// What an account is, with its texts as sequences of characters.
pub struct AccountView {
    pub username: Seq<char>,
    pub email_hash: Seq<char>,
    pub server_email_salt: Seq<char>,
    pub client_email_salt: Seq<char>,
    pub pass_hash: Seq<char>,
    pub server_pass_salt: Seq<char>,
    pub client_pass_salt: Seq<char>,
    pub is_pass: bool,
    pub portfolio: PortfolioView,
    pub transactions: Seq<Transaction>,
}

impl View for Account {
    type V = AccountView;

    open spec fn view(&self) -> AccountView {
        AccountView {
            username: self.username@,
            email_hash: self.email_hash@,
            server_email_salt: self.server_email_salt@,
            client_email_salt: self.client_email_salt@,
            pass_hash: self.pass_hash@,
            server_pass_salt: self.server_pass_salt@,
            client_pass_salt: self.client_pass_salt@,
            is_pass: self.is_pass,
            portfolio: self.portfolio@,
            transactions: self.transactions@,
        }
    }
}

} // verus!
