//! Who a disbandment targets: the author alone, everyone in the channel,
//! or an explicit list of mentioned users.

use vstd::prelude::*;

verus! {

/// A chat-platform user, by its numeric id.
pub type UserId = u64;

/// The target specifier of a disbandment. `Users` keeps mention order and
/// may hold duplicates; the grammar never produces it empty.
#[derive(Debug, Clone, PartialEq, Eq)]
pub enum KaisaneeSpecifier {
    Me,
    All,
    Users(Vec<UserId>),
}

/// The mathematical shape of a target specifier.
pub enum KaisaneeView {
    Me,
    All,
    Users(Seq<UserId>),
}

impl View for KaisaneeSpecifier {
    type V = KaisaneeView;

    open spec fn view(&self) -> KaisaneeView {
        match self {
            KaisaneeSpecifier::Me => KaisaneeView::Me,
            KaisaneeSpecifier::All => KaisaneeView::All,
            KaisaneeSpecifier::Users(u) => KaisaneeView::Users(u@),
        }
    }
}

/// Whether a target specifier can reach anyone besides the author: `Me`
/// cannot, `All` can, and a user list can unless it is exactly the author
/// alone.
pub open spec fn spec_may_include_others(k: KaisaneeView, self_id: UserId) -> bool {
    match k {
        KaisaneeView::Me => false,
        KaisaneeView::All => true,
        KaisaneeView::Users(u) => u != seq![self_id],
    }
}

impl Default for KaisaneeSpecifier {
    /// The default target is everyone in the channel.
    fn default() -> (r: KaisaneeSpecifier)
        ensures
            r@ is All,
    {
        KaisaneeSpecifier::All
    }
}

impl KaisaneeSpecifier {
    /// Whether this specifier can reach anyone besides `user_id`; the
    /// permission gate hangs on this answer.
    pub fn may_include_others(&self, user_id: UserId) -> (r: bool)
        ensures
            r == spec_may_include_others(self@, user_id),
    {
        match self {
            KaisaneeSpecifier::Me => false,
            KaisaneeSpecifier::All => true,
            KaisaneeSpecifier::Users(users) => {
                if users.len() == 1 {
                    let same = users[0] == user_id;
                    proof {
                        if same {
                            assert(users@ =~= seq![user_id]);
                        } else {
                            assert(users@[0] != seq![user_id][0]);
                        }
                    }
                    !same
                } else {
                    proof {
                        assert(users@.len() != seq![user_id].len());
                    }
                    true
                }
            },
        }
    }

    /// A copy with the same view.
    pub fn duplicate(&self) -> (r: KaisaneeSpecifier)
        ensures
            r@ == self@,
    {
        match self {
            KaisaneeSpecifier::Me => KaisaneeSpecifier::Me,
            KaisaneeSpecifier::All => KaisaneeSpecifier::All,
            KaisaneeSpecifier::Users(users) => {
                let mut copy: Vec<UserId> = Vec::new();
                let n = users.len();
                let mut i: usize = 0;
                while i < n
                    invariant
                        i <= n,
                        n == users@.len(),
                        copy@ == users@.subrange(0, i as int),
                    decreases n - i,
                {
                    copy.push(users[i]);
                    i = i + 1;
                    assert(copy@ =~= users@.subrange(0, i as int));
                }
                assert(copy@ =~= users@);
                KaisaneeSpecifier::Users(copy)
            },
        }
    }
}

} // verus!
