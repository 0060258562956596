//! A fixed-credential login check, kept as a stand-alone handler: it
//! admits exactly one built-in identity and refuses everything else.

use crate::custom_errors::account::Error;
use crate::models::account::Account;
use vstd::prelude::*;

verus! {

/// Accepts exactly the built-in `admin` identity with its fixed
/// password; every other pair is refused as wrong credentials.
pub fn login(account: &Account) -> (r: Result<&'static str, Error>)
    ensures
        account.email@ == "admin"@ && account.password@ == "password"@ ==> (r matches Ok(m)
            && m@ == "you're logged"@),
        !(account.email@ == "admin"@ && account.password@ == "password"@) ==> r == Err::<
            &'static str,
            Error,
        >(Error::WrongCredentials),
{
    let admin_email = "admin".to_owned();
    let admin_password = "password".to_owned();
    if account.email == admin_email && account.password == admin_password {
        Ok("you're logged")
    } else {
        Err(Error::WrongCredentials)
    }
}

} // verus!
