//! Destination resolution: which registered clients an event is forwarded to.
//!
//! Each member instance registered for the channel is kept unless sending to
//! it would echo the event back to its own origin; every kept member must have
//! a registered client, and one without is a configuration inconsistency that
//! is fatal for the event rather than a silent drop.

use crate::event::Platform;
use vstd::prelude::*;

verus! {

/// Whether a member is suppressed: an event from the bus's own network is not
/// sent back to the instance it originated from.
pub open spec fn spec_suppressed(platform: Platform, id: Seq<char>, member: Seq<char>) -> bool {
    platform == Platform::Eludris && member == id
}

/// The members that remain after echo suppression, from position `i` on, in
/// their original relative order.
pub open spec fn spec_kept_from(
    members: Seq<Seq<char>>,
    platform: Platform,
    id: Seq<char>,
    i: int,
) -> Seq<Seq<char>>
    decreases members.len() - i,
{
    if !(0 <= i < members.len()) {
        Seq::empty()
    } else if spec_suppressed(platform, id, members[i]) {
        spec_kept_from(members, platform, id, i + 1)
    } else {
        seq![members[i]] + spec_kept_from(members, platform, id, i + 1)
    }
}

/// First index at or after `i` whose registered key equals `key`.
pub open spec fn spec_find_from(regs: Seq<Seq<char>>, key: Seq<char>, i: int) -> Option<int>
    decreases regs.len() - i,
{
    if !(0 <= i < regs.len()) {
        None
    } else if regs[i] == key {
        Some(i)
    } else {
        spec_find_from(regs, key, i + 1)
    }
}

/// Destination resolution from member position `i` on: suppressed members are
/// skipped, each kept member resolves to the first registered client holding
/// its key, and the first kept member with no registered client is an error
/// carrying that member.
pub open spec fn spec_resolve_from(
    members: Seq<Seq<char>>,
    platform: Platform,
    id: Seq<char>,
    regs: Seq<Seq<char>>,
    i: int,
) -> Result<Seq<int>, Seq<char>>
    decreases members.len() - i,
{
    if !(0 <= i < members.len()) {
        Ok(Seq::empty())
    } else if spec_suppressed(platform, id, members[i]) {
        spec_resolve_from(members, platform, id, regs, i + 1)
    } else {
        match spec_find_from(regs, members[i], 0) {
            None => Err(members[i]),
            Some(ix) => match spec_resolve_from(members, platform, id, regs, i + 1) {
                Ok(rest) => Ok(seq![ix] + rest),
                Err(e) => Err(e),
            },
        }
    }
}

/// A member instance with no registered client: a configuration inconsistency,
/// fatal for the event being relayed.
#[derive(Debug, PartialEq, Eq, Clone)]
pub enum ResolveError {
    MissingClient(String),
}

impl View for ResolveError {
    type V = Seq<char>;

    open spec fn view(&self) -> Seq<char> {
        match self {
            ResolveError::MissingClient(m) => m@,
        }
    }
}


fn find_client(registered: &Vec<String>, key: &String, i: usize) -> (r: Option<usize>)
    requires
        i <= registered@.len(),
    ensures
        match r {
            Some(ix) => spec_find_from(
                registered@.map_values(|s: String| s@),
                key@,
                i as int,
            ) == Some(ix as int) && ix < registered@.len(),
            None => spec_find_from(registered@.map_values(|s: String| s@), key@, i as int) is None,
        },
    decreases registered@.len() - i,
{
    if i >= registered.len() {
        None
    } else if registered[i] == *key {
        Some(i)
    } else {
        find_client(registered, key, i + 1)
    }
}

fn resolve_from(
    members: &Vec<String>,
    platform: Platform,
    identifier: &String,
    registered: &Vec<String>,
    i: usize,
) -> (r: Result<Vec<usize>, ResolveError>)
    requires
        i <= members@.len(),
    ensures
        match r {
            Ok(ixs) => spec_resolve_from(
                members@.map_values(|s: String| s@),
                platform,
                identifier@,
                registered@.map_values(|s: String| s@),
                i as int,
            ) == Ok::<Seq<int>, Seq<char>>(ixs@.map_values(|u: usize| u as int)) && forall|k: int|
                0 <= k < ixs@.len() ==> #[trigger] ixs@[k] < registered@.len(),
            Err(e) => spec_resolve_from(
                members@.map_values(|s: String| s@),
                platform,
                identifier@,
                registered@.map_values(|s: String| s@),
                i as int,
            ) == Err::<Seq<int>, Seq<char>>(e@),
        },
    decreases members@.len() - i,
{
    if i >= members.len() {
        let ixs: Vec<usize> = Vec::new();
        proof {
            assert(ixs@.map_values(|u: usize| u as int) =~= Seq::<int>::empty());
        }
        return Ok(ixs);
    }
    let suppressed = platform == Platform::Eludris && members[i] == *identifier;
    if suppressed {
        resolve_from(members, platform, identifier, registered, i + 1)
    } else {
        match find_client(registered, &members[i], 0) {
            None => Err(ResolveError::MissingClient(members[i].clone())),
            Some(ix) => match resolve_from(members, platform, identifier, registered, i + 1) {
                Ok(rest) => {
                    let ghost grest = rest@.map_values(|u: usize| u as int);
                    let mut ixs = rest;
                    ixs.insert(0, ix);
                    proof {
                        assert(ixs@.map_values(|u: usize| u as int) =~= seq![ix as int] + grest);
                    }
                    Ok(ixs)
                },
                Err(e) => Err(e),
            },
        }
    }
}

/// Resolve the destinations for an event originating on `platform` with the
/// given instance identifier: the kept members' clients as indices into
/// `registered`, in member order, or the first kept member that has no
/// registered client.
pub fn resolve(
    members: &Vec<String>,
    platform: Platform,
    identifier: &String,
    registered: &Vec<String>,
) -> (r: Result<Vec<usize>, ResolveError>)
    ensures
        match r {
            Ok(ixs) => spec_resolve_from(
                members@.map_values(|s: String| s@),
                platform,
                identifier@,
                registered@.map_values(|s: String| s@),
                0,
            ) == Ok::<Seq<int>, Seq<char>>(ixs@.map_values(|u: usize| u as int)) && forall|k: int|
                0 <= k < ixs@.len() ==> #[trigger] ixs@[k] < registered@.len(),
            Err(e) => spec_resolve_from(
                members@.map_values(|s: String| s@),
                platform,
                identifier@,
                registered@.map_values(|s: String| s@),
                0,
            ) == Err::<Seq<int>, Seq<char>>(e@),
        },
{
    resolve_from(members, platform, identifier, registered, 0)
}

/// Resolution dispatches to exactly the members kept by echo suppression, in
/// their original relative order, each through the first registered client
/// holding its key; it fails exactly when some kept member has no registered
/// client, and the error carries such a member.
pub proof fn lemma_resolve_kept(
    members: Seq<Seq<char>>,
    platform: Platform,
    id: Seq<char>,
    regs: Seq<Seq<char>>,
    i: int,
)
    requires
        0 <= i <= members.len(),
    ensures
        match spec_resolve_from(members, platform, id, regs, i) {
            Ok(ixs) => {
                let kept = spec_kept_from(members, platform, id, i);
                &&& ixs.len() == kept.len()
                &&& forall|k: int|
                    0 <= k < kept.len() ==> spec_find_from(regs, kept[k], 0) == Some(
                        #[trigger] ixs[k],
                    )
            },
            Err(m) => spec_kept_from(members, platform, id, i).contains(m) && spec_find_from(
                regs,
                m,
                0,
            ) is None,
        },
    decreases members.len() - i,
{
    if i < members.len() {
        lemma_resolve_kept(members, platform, id, regs, i + 1);
        if !spec_suppressed(platform, id, members[i]) {
            let kept = spec_kept_from(members, platform, id, i);
            let kept1 = spec_kept_from(members, platform, id, i + 1);
            assert(kept == seq![members[i]] + kept1);
            match spec_find_from(regs, members[i], 0) {
                None => {
                    assert(kept[0] == members[i]);
                },
                Some(ix) => {
                    match spec_resolve_from(members, platform, id, regs, i + 1) {
                        Ok(rest) => {
                            let ixs = seq![ix] + rest;
                            assert forall|k: int| 0 <= k < kept.len() implies spec_find_from(
                                regs,
                                kept[k],
                                0,
                            ) == Some(#[trigger] ixs[k]) by {
                                if k > 0 {
                                    assert(kept[k] == kept1[k - 1]);
                                    assert(ixs[k] == rest[k - 1]);
                                }
                            }
                        },
                        Err(m) => {
                            assert(kept1.contains(m));
                            let w = choose|w: int| 0 <= w < kept1.len() && kept1[w] == m;
                            assert(kept[w + 1] == m);
                        },
                    }
                },
            }
        }
    }
}

/// Echo suppression: an event from the bus's own network with identifier `x`,
/// relayed to a channel whose members are `x`, `y` and `z`, is sent to exactly
/// `y` and `z`, in that order.
pub proof fn lemma_echo_suppression(x: Seq<char>, y: Seq<char>, z: Seq<char>)
    requires
        y != x,
        z != x,
    ensures
        spec_kept_from(seq![x, y, z], Platform::Eludris, x, 0) == seq![y, z],
{
    let ms = seq![x, y, z];
    assert(spec_kept_from(ms, Platform::Eludris, x, 3) =~= Seq::<Seq<char>>::empty());
    assert(spec_kept_from(ms, Platform::Eludris, x, 2) =~= seq![z]);
    assert(spec_kept_from(ms, Platform::Eludris, x, 1) =~= seq![y, z]);
    assert(spec_kept_from(ms, Platform::Eludris, x, 0) =~= seq![y, z]);
}

} // verus!
