//! A two-way join over two operations with the same output type: each side
//! is polled until it finishes, outputs come out in the order the sides
//! finish, and the join is exhausted once both have come out.
//!
//! The polling itself happens where the operations live; the join decides
//! which sides are still to be polled and keeps count of what came out.

use crate::error::MainError;
use vstd::prelude::*;

verus! {

/// Which sides of a join have produced their output.
#[derive(Debug, Clone, Copy, PartialEq, Eq)]
pub enum CompletionStatus {
    Both,
    Left,
    Right,
    Neither,
}

#[derive(Debug, Clone, Copy, PartialEq, Eq)]
pub enum Side {
    Left,
    Right,
}

pub open spec fn other(side: Side) -> Side {
    match side {
        Side::Left => Side::Right,
        Side::Right => Side::Left,
    }
}

/// The sides that have not produced their output yet, in the order they are polled.
pub open spec fn poll_order(status: CompletionStatus) -> Seq<Side> {
    match status {
        CompletionStatus::Neither => seq![Side::Left, Side::Right],
        CompletionStatus::Left => seq![Side::Right],
        CompletionStatus::Right => seq![Side::Left],
        CompletionStatus::Both => seq![],
    }
}

/// The status once `side`, which was pending, has produced its output.
pub open spec fn after(status: CompletionStatus, side: Side) -> CompletionStatus {
    match (status, side) {
        (CompletionStatus::Neither, Side::Left) => CompletionStatus::Left,
        (CompletionStatus::Neither, Side::Right) => CompletionStatus::Right,
        _ => CompletionStatus::Both,
    }
}

/// Two operations joined: `l` and `r` are polled by their owner, in the
/// order that `sides_to_poll` gives, and each output is recorded with
/// `complete` as it comes.
pub struct Both<L, R> {
    completion_status: CompletionStatus,
    pub l: L,
    pub r: R,
}

impl<L, R> Both<L, R> {
    pub closed spec fn spec_status(&self) -> CompletionStatus {
        self.completion_status
    }

    pub closed spec fn spec_l(&self) -> L {
        self.l
    }

    pub closed spec fn spec_r(&self) -> R {
        self.r
    }

    pub fn new(l: L, r: R) -> (res: Self)
        ensures
            res.spec_status() == CompletionStatus::Neither,
            res.spec_l() == l,
            res.spec_r() == r,
    {
        Both { completion_status: CompletionStatus::Neither, l, r }
    }

    pub fn status(&self) -> (res: CompletionStatus)
        ensures
            res == self.spec_status(),
    {
        self.completion_status
    }

    /// The sides still to be polled, in order: the left one first while
    /// neither has finished.
    pub fn sides_to_poll(&self) -> (res: Vec<Side>)
        ensures
            res@ == poll_order(self.spec_status()),
    {
        let mut res: Vec<Side> = Vec::new();
        match self.completion_status {
            CompletionStatus::Neither => {
                res.push(Side::Left);
                res.push(Side::Right);
            },
            CompletionStatus::Left => {
                res.push(Side::Right);
            },
            CompletionStatus::Right => {
                res.push(Side::Left);
            },
            CompletionStatus::Both => {},
        }
        assert(res@ =~= poll_order(self.spec_status()));
        res
    }

    /// Records that `side` has produced its output, which the join yields now.
    pub fn complete(&mut self, side: Side)
        requires
            poll_order(old(self).spec_status()).contains(side),
        ensures
            final(self).spec_status() == after(old(self).spec_status(), side),
            final(self).spec_l() == old(self).spec_l(),
            final(self).spec_r() == old(self).spec_r(),
    {
        self.completion_status = match (self.completion_status, side) {
            (CompletionStatus::Neither, Side::Left) => CompletionStatus::Left,
            (CompletionStatus::Neither, Side::Right) => CompletionStatus::Right,
            _ => CompletionStatus::Both,
        };
    }

    /// How many outputs are still to come, as a lower and an upper bound.
    pub fn size_hint(&self) -> (res: (usize, Option<usize>))
        ensures
            res.0 == poll_order(self.spec_status()).len(),
            res.1 == Some(res.0),
    {
        let len: usize = match self.completion_status {
            CompletionStatus::Both => 0,
            CompletionStatus::Left | CompletionStatus::Right => 1,
            CompletionStatus::Neither => 2,
        };
        (len, Some(len))
    }

    /// Both outputs have come out.
    pub fn is_exhausted(&self) -> (res: bool)
        ensures
            res == (self.spec_status() == CompletionStatus::Both),
    {
        matches!(self.completion_status, CompletionStatus::Both)
    }
}

/// Whichever side finishes first, a fresh join yields exactly two outputs,
/// one from each side, and is then exhausted: the outputs are those of
/// running the two sides one after the other, in some order.
pub proof fn lemma_join_yields_each_side_once(first: Side)
    ensures
        poll_order(CompletionStatus::Neither).contains(first),
        poll_order(after(CompletionStatus::Neither, first)) == seq![other(first)],
        after(after(CompletionStatus::Neither, first), other(first)) == CompletionStatus::Both,
        poll_order(CompletionStatus::Both).len() == 0,
        seq![first, other(first)].to_multiset() == seq![Side::Left, Side::Right].to_multiset(),
{
    assert(poll_order(CompletionStatus::Neither)[0] == Side::Left);
    assert(poll_order(CompletionStatus::Neither)[1] == Side::Right);
    match first {
        Side::Left => {
            assert(poll_order(after(CompletionStatus::Neither, first)) =~= seq![other(first)]);
        },
        Side::Right => {
            assert(poll_order(after(CompletionStatus::Neither, first)) =~= seq![other(first)]);
            let a = seq![Side::Right, Side::Left];
            let b = seq![Side::Left, Side::Right];
            assert(a.to_multiset() =~= b.to_multiset()) by {
                a.to_multiset_ensures();
                b.to_multiset_ensures();
                assert(a =~= seq![Side::Right].push(Side::Left));
                assert(b =~= seq![Side::Left].push(Side::Right));
                seq![Side::Right].to_multiset_ensures();
                seq![Side::Left].to_multiset_ensures();
                Seq::<Side>::empty().to_multiset_ensures();
                assert(seq![Side::Right] =~= Seq::<Side>::empty().push(Side::Right));
                assert(seq![Side::Left] =~= Seq::<Side>::empty().push(Side::Left));
            }
        },
    }
}

/// What a joined upload was for.
#[derive(Debug, Clone, Copy, PartialEq, Eq)]
pub enum Role {
    Photobooth,
    Demo,
}

/// The photobooth and demo results, whatever order the two tagged results came in.
pub open spec fn by_role<T>(first: (T, Role), second: (T, Role)) -> (T, T) {
    if first.1 == Role::Photobooth {
        (first.0, second.0)
    } else {
        (second.0, first.0)
    }
}

/// The outcome of the two uploads in the order they finished: the first
/// failure to come out, else the photobooth and demo addresses.
pub open spec fn paired_results(
    first: (Result<String, MainError>, Role),
    second: (Result<String, MainError>, Role),
) -> Result<(String, String), MainError> {
    match (first.0, second.0) {
        (Err(e), _) => Err(e),
        (Ok(_), Err(e)) => Err(e),
        (Ok(a), Ok(b)) => Ok(by_role((a, first.1), (b, second.1))),
    }
}

/// Recovers the photobooth and demo addresses from two tagged results that
/// came out of a join in the order their uploads finished.
pub fn pair_by_role(
    first: (Result<String, MainError>, Role),
    second: (Result<String, MainError>, Role),
) -> (res: Result<(String, String), MainError>)
    requires
        first.1 != second.1,
    ensures
        res == paired_results(first, second),
{
    let (a, role) = first;
    let (b, _) = second;
    match (a, b) {
        (Err(e), _) => Err(e),
        (Ok(_), Err(e)) => Err(e),
        (Ok(a), Ok(b)) => match role {
            Role::Photobooth => Ok((a, b)),
            Role::Demo => Ok((b, a)),
        },
    }
}

/// When both uploads succeed, the addresses recovered from the join are the
/// same whichever upload finished first.
pub proof fn lemma_pairing_ignores_completion_order(photobooth: String, demo: String)
    ensures
        paired_results((Ok(photobooth), Role::Photobooth), (Ok(demo), Role::Demo))
            == paired_results((Ok(demo), Role::Demo), (Ok(photobooth), Role::Photobooth)),
        paired_results((Ok(photobooth), Role::Photobooth), (Ok(demo), Role::Demo))
            == Ok::<(String, String), MainError>((photobooth, demo)),
{
}

} // verus!
