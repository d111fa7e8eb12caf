//! The user's own record: a browser is sent to the app, anything else gets
//! the user's id and name.

use vstd::prelude::*;
use crate::db::ids::UserId;
use crate::net::header::Location;
use crate::text::to_owned_string;

verus! {

/// the id and name of the user that asks
#[derive(Debug)]
pub struct MyInfo {
    pub id: UserId,
    pub username: String,
}

/// what the request for the user's own record answers
#[derive(Debug)]
pub enum MeAnswer {
    /// a redirect to the app
    Redirect(Location),
    /// the user's record
    Info(MyInfo),
}

/// the answer to the request for the user's own record: a redirect to `/`
/// for a browser, else the id and name
pub fn retrieve_me(is_html: bool, id: UserId, username: String) -> (rtn: MeAnswer)
    ensures
        is_html ==> (rtn matches MeAnswer::Redirect(loc) && loc@ == "/"@),
        !is_html ==> (rtn matches MeAnswer::Info(info) && info.id == id && info.username@ == username@),
{
    if is_html {
        MeAnswer::Redirect(Location::to(to_owned_string("/")))
    } else {
        MeAnswer::Info(MyInfo { id, username })
    }
}

} // verus!
