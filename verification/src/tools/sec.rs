//! The security commands of the management tool: where a private key is
//! made, and how a read key is shown.

use vstd::prelude::*;
use crate::hex::{spec_to_hex, to_hex_str};
use crate::path::{join_path, spec_join_path};
use crate::text::{push_str, to_owned_string};

verus! {

/// the options of making a private key
#[derive(Debug)]
pub struct PkiCreateArg {
    /// replace a key that is already there
    pub overwrite: bool,
    /// the directory to put the key in
    pub output: String,
}

/// the options of reading a private key
#[derive(Debug)]
pub struct PkiReadArg {
    /// the key file to read
    pub input: String,
}

/// the security commands
#[derive(Debug)]
pub enum SecCmd {
    PkiCreate(PkiCreateArg),
    PkiRead(PkiReadArg),
}

/// the security command
#[derive(Debug)]
pub struct SecArg {
    pub cmd: SecCmd,
}

/// the file of a private key made in a directory
pub fn private_key_path(dir: &str) -> (rtn: String)
    ensures
        rtn@ == spec_join_path(dir@, "private.key"@),
{
    join_path(dir, "private.key")
}

/// what is shown of a read key: when it was made, and its secret bytes in
/// hex, on two lines
pub fn pki_read_text(created: &str, secret: &[u8]) -> (rtn: String)
    ensures
        rtn@ == "created: "@ + created@ + "\nbytes:   "@ + spec_to_hex(secret@) + "\n"@,
{
    let mut rtn = to_owned_string("created: ");
    push_str(&mut rtn, created);
    push_str(&mut rtn, "\nbytes:   ");
    let hex = to_hex_str(secret);
    push_str(&mut rtn, hex.as_str());
    push_str(&mut rtn, "\n");
    rtn
}

} // verus!
