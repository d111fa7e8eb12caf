//! The common error of the library and the text of error chains.

use vstd::prelude::*;
use crate::text::{push_decimal, push_str, spec_decimal, string_views};

verus! {

/// the error returned when writing formatted text fails
#[verifier::external_type_specification]
#[verifier::external_body]
pub struct ExFmtError(std::fmt::Error);

/// the common error of the library: a message that says what failed
#[derive(Debug)]
pub struct ContextError {
    cxt: String,
}

impl ContextError {
    /// the message of the error
    pub closed spec fn spec_cxt(&self) -> Seq<char> {
        self.cxt@
    }

    /// creates a new error with the given message
    pub fn context(cxt: String) -> (rtn: ContextError)
        ensures
            rtn.spec_cxt() == cxt@,
    {
        ContextError { cxt }
    }

    /// the message of the error
    pub fn cxt(&self) -> (rtn: &str)
        ensures
            rtn@ == self.spec_cxt(),
    {
        self.cxt.as_str()
    }
}

/// the numbered lines of an error chain: line `i` is `"{i}) {chain[i]}"`,
/// and the lines after the first start on a new line
pub open spec fn spec_chain_lines(chain: Seq<Seq<char>>) -> Seq<char>
    decreases chain.len(),
{
    if chain.len() == 0 {
        Seq::empty()
    } else {
        let n = (chain.len() - 1) as nat;
        let line = spec_decimal(n) + ") "@ + chain.last();
        if n == 0 {
            line
        } else {
            spec_chain_lines(chain.drop_last()) + "\n"@ + line
        }
    }
}

/// the error stack text of an error chain under a prefix:
/// `"{prefix}: \n0) {err}\n1) {source}..."`
pub open spec fn spec_error_list(prefix: Seq<char>, chain: Seq<Seq<char>>) -> Seq<char> {
    prefix + ": \n"@ + spec_chain_lines(chain)
}

/// creates an error stack string from the given prefix and the displayed
/// error chain: the error itself first, then each of its sources in turn
pub fn create_error_list(prefix: &str, chain: &Vec<String>) -> (rtn: Result<String, std::fmt::Error>)
    requires
        chain@.len() >= 1,
        chain@.len() <= u64::MAX,
    ensures
        rtn matches Ok(msg) && msg@ == spec_error_list(prefix@, string_views(chain@)),
{
    let ghost views = string_views(chain@);
    let mut msg = String::new();
    push_str(&mut msg, prefix);
    push_str(&mut msg, ": \n0) ");
    push_str(&mut msg, chain[0].as_str());
    proof {
        let first = views.take(1);
        assert(first.drop_last() =~= Seq::<Seq<char>>::empty());
        reveal_with_fuel(spec_chain_lines, 2);
        assert(spec_decimal(0) =~= seq!['0']);
        assert(msg@ =~= prefix@ + ": \n"@ + spec_chain_lines(first)) by {
            reveal_strlit(": \n0) ");
            reveal_strlit(": \n");
            reveal_strlit(") ");
            assert(spec_chain_lines(first) =~= spec_decimal(0) + ") "@ + views[0]);
        }
    }
    let len = chain.len();
    let mut count: usize = 1;
    while count < len
        invariant
            1 <= count <= len,
            len == chain@.len(),
            len <= u64::MAX,
            views == string_views(chain@),
            msg@ == prefix@ + ": \n"@ + spec_chain_lines(views.take(count as int)),
        decreases len - count,
    {
        let ghost before = msg@;
        push_str(&mut msg, "\n");
        push_decimal(&mut msg, count as u64);
        push_str(&mut msg, ") ");
        push_str(&mut msg, chain[count].as_str());
        proof {
            let t = views.take(count + 1);
            assert(t.drop_last() =~= views.take(count as int));
            assert(t.last() == chain@[count as int]@);
            assert(msg@ =~= prefix@ + ": \n"@ + spec_chain_lines(t));
        }
        count = count + 1;
    }
    assert(views.take(len as int) =~= views);
    Ok(msg)
}

} // verus!
