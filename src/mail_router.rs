use vstd::prelude::*;

use crate::domain::{MailCategory, MailContent, MailMessage, MailTitle};
use crate::ids::UserId;

verus! {

/// Identities in strictly increasing order of their value.
pub open spec fn strictly_sorted(s: Seq<UserId>) -> bool {
    forall|i: int, j: int| 0 <= i < j < s.len() ==> s[i].0 < s[j].0
}

/// Inserts `u` into a strictly sorted list unless it is already there.
fn insert_sorted(v: &mut Vec<UserId>, u: UserId)
    requires
        strictly_sorted(old(v)@),
    ensures
        strictly_sorted(final(v)@),
        final(v)@.to_set() == old(v)@.to_set().insert(u),
{
    let mut i: usize = 0;
    while i < v.len() && v[i].0 < u.0
        invariant
            i <= v@.len(),
            forall|j: int| 0 <= j < i ==> v@[j].0 < u.0,
        decreases v@.len() - i,
    {
        i = i + 1;
    }
    if i < v.len() && v[i].0 == u.0 {
        assert(v@[i as int] == u);
        assert(v@.to_set().insert(u) =~= v@.to_set());
        return;
    }
    let ghost before = v@;
    v.insert(i, u);
    assert(v@ =~= before.subrange(0, i as int).push(u) + before.subrange(i as int, before.len() as int));
    assert forall|x: UserId| v@.to_set().contains(x) <==> before.to_set().insert(u).contains(x) by {
        if v@.contains(x) {
            let k = choose|k: int| 0 <= k < v@.len() && v@[k] == x;
            if k < i {
                assert(before[k] == x);
            } else if k > i {
                assert(before[k - 1] == x);
            }
        }
        if before.contains(x) {
            let k = choose|k: int| 0 <= k < before.len() && before[k] == x;
            if k < i {
                assert(v@[k] == x);
            } else {
                assert(v@[k + 1] == x);
            }
        }
        if x == u {
            assert(v@[i as int] == x);
        }
    }
    assert(v@.to_set() =~= before.to_set().insert(u));
}

/// Routes mail of each category to the users subscribed to it.
///
/// Each (category, user) pair is held at most once.
#[derive(Debug, Clone)]
pub struct MailRouter {
    subscriptions: Vec<(MailCategory, UserId)>,
}

impl MailRouter {
    /// The subscriptions as a set of (category, user) pairs.
    pub closed spec fn pairs(&self) -> Set<(MailCategory, UserId)> {
        self.subscriptions@.to_set()
    }

    /// The users subscribed to `category`.
    pub open spec fn subscribers(&self, category: MailCategory) -> Set<UserId> {
        Set::new(|u: UserId| self.pairs().contains((category, u)))
    }

    /// Who receives mail of `category`, given an optional primary recipient.
    pub open spec fn recipients(&self, category: MailCategory, primary: Option<UserId>) -> Set<UserId> {
        match primary {
            Some(p) => self.subscribers(category).insert(p),
            None => self.subscribers(category),
        }
    }

    pub closed spec fn wf(&self) -> bool {
        self.subscriptions@.no_duplicates()
    }

    pub fn new() -> (r: Self)
        ensures
            r.wf(),
            r.pairs() == Set::<(MailCategory, UserId)>::empty(),
    {
        let r = MailRouter { subscriptions: Vec::new() };
        assert(r.subscriptions@.to_set() =~= Set::<(MailCategory, UserId)>::empty());
        r
    }

    fn position(&self, category: MailCategory, user_id: UserId) -> (r: Option<usize>)
        ensures
            match r {
                Some(i) => i < self.subscriptions@.len() && self.subscriptions@[i as int] == (category, user_id),
                None => !self.subscriptions@.contains((category, user_id)),
            },
    {
        let mut i: usize = 0;
        while i < self.subscriptions.len()
            invariant
                i <= self.subscriptions@.len(),
                forall|j: int| 0 <= j < i ==> self.subscriptions@[j] != (category, user_id),
            decreases self.subscriptions@.len() - i,
        {
            let (c, u) = self.subscriptions[i];
            if c == category && u.0 == user_id.0 {
                return Some(i);
            }
            i = i + 1;
        }
        None
    }

    /// Subscribes `user_id` to `category`; true when it was not subscribed yet.
    pub fn subscribe(&mut self, category: MailCategory, user_id: UserId) -> (r: bool)
        requires
            old(self).wf(),
        ensures
            final(self).wf(),
            r == !old(self).pairs().contains((category, user_id)),
            final(self).pairs() == old(self).pairs().insert((category, user_id)),
    {
        match self.position(category, user_id) {
            Some(_) => {
                assert(self.pairs().insert((category, user_id)) =~= self.pairs());
                false
            },
            None => {
                let ghost before = self.subscriptions@;
                self.subscriptions.push((category, user_id));
                assert(self.subscriptions@.to_set() =~= before.to_set().insert((category, user_id))) by {
                    assert forall|x| #[trigger] self.subscriptions@.contains(x) <==> before.contains(x) || x == (category, user_id) by {
                        if before.contains(x) {
                            let k = choose|k: int| 0 <= k < before.len() && before[k] == x;
                            assert(self.subscriptions@[k] == x);
                        }
                        if x == (category, user_id) {
                            assert(self.subscriptions@[before.len() as int] == x);
                        }
                    }
                }
                true
            },
        }
    }

    /// Removes the subscription of `user_id` to `category`; true when there was one.
    pub fn unsubscribe(&mut self, category: MailCategory, user_id: UserId) -> (r: bool)
        requires
            old(self).wf(),
        ensures
            final(self).wf(),
            r == old(self).pairs().contains((category, user_id)),
            final(self).pairs() == old(self).pairs().remove((category, user_id)),
    {
        match self.position(category, user_id) {
            Some(i) => {
                let ghost before = self.subscriptions@;
                self.subscriptions.remove(i);
                assert(self.subscriptions@ =~= before.remove(i as int));
                assert(self.subscriptions@.to_set() =~= before.to_set().remove((category, user_id))) by {
                    assert forall|x| #[trigger] self.subscriptions@.contains(x) <==> before.contains(x) && x != (category, user_id) by {
                        if self.subscriptions@.contains(x) {
                            let k = choose|k: int| 0 <= k < self.subscriptions@.len() && self.subscriptions@[k] == x;
                            if k < i {
                                assert(before[k] == x);
                            } else {
                                assert(before[k + 1] == x);
                            }
                        }
                        if before.contains(x) && x != (category, user_id) {
                            let k = choose|k: int| 0 <= k < before.len() && before[k] == x;
                            if k < i {
                                assert(self.subscriptions@[k] == x);
                            } else {
                                assert(k != i);
                                assert(self.subscriptions@[k - 1] == x);
                            }
                        }
                    }
                }
                true
            },
            None => {
                assert(self.pairs().remove((category, user_id)) =~= self.pairs());
                false
            },
        }
    }

    /// Everyone who receives mail of `category`: the primary recipient and
    /// the subscribers, each once, in increasing order of identity.
    pub fn route(&self, category: MailCategory, primary_recipient: Option<UserId>) -> (r: Vec<UserId>)
        ensures
            strictly_sorted(r@),
            r@.to_set() == self.recipients(category, primary_recipient),
    {
        let mut out: Vec<UserId> = Vec::new();
        if let Some(p) = primary_recipient {
            insert_sorted(&mut out, p);
        }
        let ghost start = out@.to_set();
        assert(start =~= match primary_recipient {
            Some(p) => Set::<UserId>::empty().insert(p),
            None => Set::<UserId>::empty(),
        });
        let mut i: usize = 0;
        while i < self.subscriptions.len()
            invariant
                i <= self.subscriptions@.len(),
                strictly_sorted(out@),
                out@.to_set() == start + Set::new(|u: UserId| exists|j: int| 0 <= j < i && #[trigger] self.subscriptions@[j] == (category, u)),
            decreases self.subscriptions@.len() - i,
        {
            let (c, u) = self.subscriptions[i];
            let ghost prev = out@.to_set();
            if c == category {
                insert_sorted(&mut out, u);
            }
            i = i + 1;
            assert(out@.to_set() =~= start + Set::new(|u: UserId| exists|j: int| 0 <= j < i && #[trigger] self.subscriptions@[j] == (category, u))) by {
                assert forall|x: UserId| out@.to_set().contains(x) <==> (start.contains(x) || exists|j: int| 0 <= j < i && #[trigger] self.subscriptions@[j] == (category, x)) by {
                    if exists|j: int| 0 <= j < i && #[trigger] self.subscriptions@[j] == (category, x) {
                        let j = choose|j: int| 0 <= j < i && #[trigger] self.subscriptions@[j] == (category, x);
                        if j < i - 1 {
                            assert(prev.contains(x));
                        }
                    }
                    if prev.contains(x) && !start.contains(x) {
                        let j = choose|j: int| 0 <= j < i - 1 && #[trigger] self.subscriptions@[j] == (category, x);
                        assert(0 <= j < i);
                    }
                }
            }
        }
        assert(out@.to_set() =~= self.recipients(category, primary_recipient)) by {
            assert forall|x: UserId| #![auto] self.pairs().contains((category, x)) <==> (exists|j: int| 0 <= j < self.subscriptions@.len() && #[trigger] self.subscriptions@[j] == (category, x)) by {
                if self.pairs().contains((category, x)) {
                    assert(self.subscriptions@.contains((category, x)));
                }
            }
        }
        out
    }

    /// One unread mail for every routed recipient, in routing order.
    pub fn dispatch(
        &self,
        category: MailCategory,
        title: MailTitle,
        content: MailContent,
        primary_recipient: Option<UserId>,
    ) -> (r: Vec<MailMessage>)
        ensures
            exists|routed: Seq<UserId>|
                #![trigger routed.to_set()]
                strictly_sorted(routed) && routed.to_set() == self.recipients(category, primary_recipient)
                && r@.len() == routed.len()
                && forall|i: int| #![trigger r@[i]] 0 <= i < r@.len() ==> {
                    &&& r@[i].spec_recipient() == routed[i]
                    &&& r@[i].spec_category() == category
                    &&& r@[i].spec_status() == crate::domain::MailStatus::Unread
                    &&& r@[i].spec_title() == title
                    &&& r@[i].spec_content() == content
                },
    {
        let routed = self.route(category, primary_recipient);
        let mut out: Vec<MailMessage> = Vec::new();
        let mut i: usize = 0;
        while i < routed.len()
            invariant
                i <= routed@.len(),
                out@.len() == i,
                forall|k: int| #![trigger out@[k]] 0 <= k < i ==> {
                    &&& out@[k].spec_recipient() == routed@[k]
                    &&& out@[k].spec_category() == category
                    &&& out@[k].spec_status() == crate::domain::MailStatus::Unread
                    &&& out@[k].spec_title() == title
                    &&& out@[k].spec_content() == content
                },
            decreases routed@.len() - i,
        {
            out.push(MailMessage::new(routed[i], category, title.copy(), content.copy()));
            i = i + 1;
        }
        out
    }
}

} // verus!
