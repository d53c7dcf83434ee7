//! The reply threader: for each reply of a list, how many replies of that
//! list address its author.

use vstd::prelude::*;
use crate::model::{Reply, ReplyView, reply_views};

verus! {

/// How many replies of `replies` address `name`.
pub open spec fn replies_to(replies: Seq<ReplyView>, name: Seq<char>) -> nat {
    replies.filter(|r: ReplyView| r.reply_to == name).len()
}

/// `replies` with each count set to the number of replies of the whole list
/// that address that reply's author. Nothing else changes.
pub open spec fn threaded(replies: Seq<ReplyView>) -> Seq<ReplyView> {
    Seq::new(
        replies.len(),
        |i: int| ReplyView { reply_count: replies_to(replies, replies[i].author), ..replies[i] },
    )
}

/// Two lists that agree, place by place, on whom each reply addresses give
/// the same count for every name.
pub proof fn lemma_replies_to_same_targets(a: Seq<ReplyView>, b: Seq<ReplyView>, name: Seq<char>)
    requires
        a.len() == b.len(),
        forall|i: int| 0 <= i < a.len() ==> a[i].reply_to == b[i].reply_to,
    ensures
        replies_to(a, name) == replies_to(b, name),
    decreases a.len(),
{
    reveal(Seq::filter);
    if a.len() > 0 {
        lemma_replies_to_same_targets(a.drop_last(), b.drop_last(), name);
    }
}

/// Threading a threaded list changes nothing.
pub proof fn lemma_threaded_idempotent(replies: Seq<ReplyView>)
    ensures
        threaded(threaded(replies)) == threaded(replies),
{
    let once = threaded(replies);
    assert forall|i: int| 0 <= i < once.len() implies #[trigger] threaded(once)[i] == once[i] by {
        lemma_replies_to_same_targets(once, replies, once[i].author);
    }
    assert(threaded(once) =~= once);
}

/// In a threaded list every count is the number of replies that address
/// that reply's author.
pub proof fn lemma_threaded_counts(replies: Seq<ReplyView>, i: int)
    requires
        0 <= i < replies.len(),
    ensures
        threaded(replies)[i].reply_count == replies_to(threaded(replies), threaded(replies)[i].author),
        threaded(replies)[i].reply_count == replies_to(replies, replies[i].author),
{
    lemma_replies_to_same_targets(threaded(replies), replies, replies[i].author);
}

/// Counts the replies of `replies` that address `name`.
pub fn count_replies_to(replies: &Vec<Reply>, name: &String) -> (n: usize)
    ensures
        n == replies_to(reply_views(replies@), name@),
{
    let mut n: usize = 0;
    let mut j: usize = 0;
    let ghost views = reply_views(replies@);
    let ghost pred = |r: ReplyView| r.reply_to == name@;
    while j < replies.len()
        invariant
            j <= replies.len(),
            views == reply_views(replies@),
            pred == |r: ReplyView| r.reply_to == name@,
            n == views.take(j as int).filter(pred).len(),
            n <= j,
        decreases replies.len() - j,
    {
        proof {
            reveal(Seq::filter);
            assert(views.take(j + 1).drop_last() =~= views.take(j as int));
            assert(views.take(j + 1).last() == replies@[j as int]@);
        }
        if replies[j].reply_to == *name {
            n += 1;
        }
        j += 1;
    }
    assert(views.take(replies.len() as int) =~= views);
    n
}

/// Sets every reply's count from the whole list, as `threaded` says.
pub fn thread_replies(replies: &mut Vec<Reply>)
    ensures
        reply_views(final(replies)@) == threaded(reply_views(old(replies)@)),
{
    let ghost before = reply_views(replies@);
    let mut i: usize = 0;
    while i < replies.len()
        invariant
            before == reply_views(old(replies)@),
            replies.len() == before.len(),
            i <= replies.len(),
            forall|k: int| 0 <= k < i ==> replies@[k]@ == #[trigger] threaded(before)[k],
            forall|k: int| i <= k < replies.len() ==> replies@[k]@ == #[trigger] before[k],
        decreases replies.len() - i,
    {
        let count = count_replies_to(replies, &replies[i].author);
        proof {
            let now = reply_views(replies@);
            assert forall|k: int| 0 <= k < now.len() implies now[k].reply_to
                == before[k].reply_to by {
                if k < i {
                    assert(replies@[k]@ == threaded(before)[k]);
                } else {
                    assert(replies@[k]@ == before[k]);
                }
            }
            lemma_replies_to_same_targets(now, before, before[i as int].author);
        }
        replies[i].reply_count = count;
        i += 1;
    }
    assert(reply_views(replies@) =~= threaded(before));
}

} // verus!
