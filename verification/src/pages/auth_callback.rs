//! The page to which the single sign-on service sends the user back with a ticket.

use crate::contexts::user_context::AuthError;
use crate::text::{
    chars_of, lemma_position_unique, matches_at, skip_leading, skip_leading_from, split,
    split_ranges, starts_with,
};
use vstd::prelude::*;

verus! {

/// What the callback page does with its query string.
#[derive(Debug, PartialEq)]
pub enum LoginStep {
    /// Exchange this ticket, which is not empty, for an identity.
    Exchange(String),
    /// Show this error; nothing is sent.
    Refuse(AuthError),
}

/// The value of the first of `pieces` that begins with `ticket=`.
pub open spec fn first_ticket(pieces: Seq<Seq<char>>) -> Option<Seq<char>>
    decreases pieces.len(),
{
    if pieces.len() == 0 {
        None
    } else if starts_with(pieces[0], "ticket="@) {
        Some(pieces[0].skip("ticket="@.len() as int))
    } else {
        first_ticket(pieces.drop_first())
    }
}

/// The ticket in a query string: the query without its leading `?` is cut at each `&`,
/// and the first piece that begins with `ticket=` gives its value.
pub open spec fn spec_extract_ticket(query: Seq<char>) -> Option<Seq<char>> {
    first_ticket(split(skip_leading(query, '?'), '&'))
}

/// Finds the ticket in a query string.
pub fn extract_ticket(query: &str) -> (ticket: Option<String>)
    ensures
        match ticket {
            Some(t) => spec_extract_ticket(query@) == Some(t@),
            None => spec_extract_ticket(query@) is None,
        },
{
    let v = chars_of(query);
    let name = chars_of("ticket=");
    let n = v.len();
    let from = skip_leading_from(&v, 0, n, '?');
    let ranges = split_ranges(&v, from, n, '&');
    let ghost pieces = split(skip_leading(query@, '?'), '&');
    proof {
        assert(v@.subrange(0, n as int) =~= v@);
        assert(pieces.skip(0) =~= pieces);
    }
    let mut i: usize = 0;
    while i < ranges.len()
        invariant
            i <= ranges.len(),
            v@ == query@,
            name@ == "ticket="@,
            n == v.len(),
            from <= n,
            pieces == split(skip_leading(query@, '?'), '&'),
            ranges@.len() == pieces.len(),
            forall|k: int|
                0 <= k < ranges@.len() ==> from <= (#[trigger] ranges@[k]).0 <= ranges@[k].1 <= n
                    && v@.subrange(ranges@[k].0 as int, ranges@[k].1 as int) == pieces[k],
            first_ticket(pieces) == first_ticket(pieces.skip(i as int)),
        decreases ranges.len() - i,
    {
        let (a, b) = ranges[i];
        let ghost piece = pieces[i as int];
        proof {
            let rest = pieces.skip(i as int);
            assert(rest.drop_first() =~= pieces.skip(i + 1));
            if b - a >= name@.len() {
                assert(piece.subrange(0, name@.len() as int) =~= v@.subrange(
                    a as int,
                    a + name@.len(),
                ));
            }
        }
        if b - a >= name.len() && matches_at(&v, a, &name) {
            let ticket = query.substring_char(a + name.len(), b);
            return Some(String::from_str(ticket));
        }
        i += 1;
    }
    None
}

/// What the callback page does with the query `query`.
pub open spec fn spec_auth_callback(query: Seq<char>) -> Result<Seq<char>, AuthError> {
    match spec_extract_ticket(query) {
        None => Err(AuthError::TicketMissing),
        Some(t) => if t.len() == 0 {
            Err(AuthError::LoginFailed)
        } else {
            Ok(t)
        },
    }
}

/// Decides what the callback page does: without a ticket parameter the ticket is missing;
/// an empty ticket is a rejected one; any other ticket is exchanged.
pub fn auth_callback(query: &str) -> (step: LoginStep)
    ensures
        match step {
            LoginStep::Exchange(t) => spec_auth_callback(query@) == Ok::<Seq<char>, AuthError>(t@)
                && t@.len() > 0,
            LoginStep::Refuse(e) => spec_auth_callback(query@) == Err::<Seq<char>, AuthError>(e),
        },
{
    match extract_ticket(query) {
        None => LoginStep::Refuse(AuthError::TicketMissing),
        Some(t) => {
            if t.as_str().unicode_len() == 0 {
                LoginStep::Refuse(AuthError::LoginFailed)
            } else {
                LoginStep::Exchange(t)
            }
        },
    }
}

/// A callback whose query is `?ticket=` followed by a ticket exchanges exactly that
/// ticket, whatever the ticket is, as long as it is not empty and holds no `&`.
pub proof fn law_ticket_is_exchanged(ticket: Seq<char>)
    requires
        ticket.len() > 0,
        forall|i: int| 0 <= i < ticket.len() ==> ticket[i] != '&',
    ensures
        spec_auth_callback("?ticket="@ + ticket) == Ok::<Seq<char>, AuthError>(ticket),
{
    let query = "?ticket="@ + ticket;
    let name = "ticket="@;
    let rest = name + ticket;
    reveal_strlit("?ticket=");
    reveal_strlit("ticket=");
    assert(query.drop_first() =~= rest);
    assert(skip_leading(rest, '?') == rest);
    lemma_position_unique(rest, '&', rest.len() as int);
    assert(rest.subrange(0, name.len() as int) =~= name);
    assert(rest.skip(name.len() as int) =~= ticket);
}

} // verus!
