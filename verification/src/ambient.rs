//! The two things an operation needs that are neither computed nor asked of
//! the caller: the host name of this machine and a random choice. The
//! library gets them for itself.

use vstd::prelude::*;
use crate::outside::{choose_index, os_hostname};
use crate::protocol::{Ask, AskView, Reply, ReplyView};

verus! {

/// The question is one that the library answers for itself.
pub open spec fn is_local(ask: AskView) -> bool {
    ask is Pick || ask is Hostname
}

/// `reply` is an answer that the library may give to `ask`: some host name
/// for the host name, some index below the count for a choice.
pub open spec fn answers_locally(ask: AskView, reply: ReplyView) -> bool {
    match ask {
        AskView::Pick { count } => reply matches ReplyView::Picked(k) && (k < count || (count == 0
            && k == 0)),
        AskView::Hostname => reply is Hostname,
        AskView::Call(_) => false,
    }
}

/// Answers a question that the library answers for itself, and no other.
pub fn answer_locally(ask: &Ask) -> (r: Option<Reply>)
    ensures
        r is Some <==> is_local(ask@),
        r matches Some(reply) ==> answers_locally(ask@, reply@),
{
    match ask {
        Ask::Pick { count } => match choose_index(*count) {
            Some(k) => Some(Reply::Picked(k)),
            None => Some(Reply::Picked(0)),
        },
        Ask::Hostname => Some(Reply::Hostname(os_hostname())),
        Ask::Call(_) => None,
    }
}

} // verus!
