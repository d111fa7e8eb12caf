//! The migration commands of the management tool, and how a migration is
//! shown.

use vstd::prelude::*;
use crate::text::{push_decimal, push_signed_decimal, push_str, spec_decimal, spec_signed_decimal, to_owned_string};

verus! {

/// the migration commands
#[derive(Debug)]
pub enum MigrateCmd {
    /// runs the migrations
    Run,
    /// lists the applied migrations
    Applied(AppliedArgs),
}

/// the migration command
#[derive(Debug)]
pub struct MigrateArgs {
    pub cmd: MigrateCmd,
}

/// the options of listing applied migrations
#[derive(Debug)]
pub struct AppliedArgs {
    /// only the last applied migration
    pub last: bool,
}

/// what is shown of a migration: its prefix and version, name, checksum
/// and when it was applied; listed ones are indented as items
pub open spec fn spec_migrate_text(
    listed: bool,
    prefix: Seq<char>,
    version: i32,
    name: Seq<char>,
    checksum: u64,
    applied_on: Option<Seq<char>>,
) -> Seq<char> {
    let lead = if listed { "  - "@ } else { Seq::empty() };
    let indent = if listed { "    "@ } else { Seq::empty() };
    lead + prefix + spec_signed_decimal(version as int) + ") "@ + name + "\n"@ + indent + "checksum: "@
        + spec_decimal(checksum as nat) + match applied_on {
        Some(d) => "\n"@ + indent + "date: "@ + d,
        None => Seq::empty(),
    }
}

/// the text of a migration, as an item of a list or on its own
pub fn migrate_text(listed: bool, prefix: &str, version: i32, name: &str, checksum: u64, applied_on: Option<&str>) -> (rtn: String)
    ensures
        rtn@ == spec_migrate_text(
            listed,
            prefix@,
            version,
            name@,
            checksum,
            match applied_on {
                Some(d) => Some(d@),
                None => None,
            },
        ),
{
    let mut rtn = String::new();
    if listed {
        push_str(&mut rtn, "  - ");
    }
    push_str(&mut rtn, prefix);
    push_signed_decimal(&mut rtn, version as i64);
    push_str(&mut rtn, ") ");
    push_str(&mut rtn, name);
    push_str(&mut rtn, "\n");
    if listed {
        push_str(&mut rtn, "    ");
    }
    push_str(&mut rtn, "checksum: ");
    push_decimal(&mut rtn, checksum);
    let ghost head = rtn@;
    match applied_on {
        Some(d) => {
            push_str(&mut rtn, "\n");
            if listed {
                push_str(&mut rtn, "    ");
            }
            push_str(&mut rtn, "date: ");
            push_str(&mut rtn, d);
        },
        None => {},
    }
    assert(rtn@ =~= spec_migrate_text(
        listed,
        prefix@,
        version,
        name@,
        checksum,
        match applied_on {
            Some(d) => Some(d@),
            None => None,
        },
    ));
    rtn
}

} // verus!
