//! Keeping the list of known peers up to date: peers that answered are
//! kept as validated, peers that did not are dropped, and addresses that
//! an answer names for the first time are added as not yet validated.

use vstd::prelude::*;

verus! {

/// A peer by its address.
#[derive(Clone, Debug, PartialEq, Eq)]
pub struct Peer {
    pub address: String,
    pub validated: bool,
}

/// What asking one peer for its peers gave: the addresses it named, or
/// nothing where it did not answer.
#[derive(Clone, Debug, PartialEq, Eq)]
pub struct PeerAnswer {
    pub address: String,
    pub peers: Option<Vec<String>>,
}

/// Whether a list holds a peer with this address.
pub open spec fn knows(peers: Seq<Peer>, address: Seq<char>) -> bool {
    exists|i: int| 0 <= i < peers.len() && #[trigger] peers[i].address@ == address
}

/// No address occurs twice.
pub open spec fn distinct(peers: Seq<Peer>) -> bool {
    forall|i: int, j: int|
        0 <= i < j < peers.len() ==> #[trigger] peers[i].address@ != #[trigger] peers[j].address@
}

/// Whether the peer with this address was asked and answered.
pub open spec fn answered(answers: Seq<PeerAnswer>, address: Seq<char>) -> bool {
    exists|j: int|
        0 <= j < answers.len() && #[trigger] answers[j].address@ == address
            && answers[j].peers is Some
}

/// Whether a known peer that answered named this address.
pub open spec fn offered(known: Seq<Peer>, answers: Seq<PeerAnswer>, address: Seq<char>) -> bool {
    exists|j: int, k: int|
        0 <= j < answers.len() && answers[j].peers is Some && knows(known, answers[j].address@)
            && 0 <= k < answers[j].peers->Some_0@.len()
            && #[trigger] answers[j].peers->Some_0@[k]@ == address
}

fn position(peers: &Vec<Peer>, address: &String) -> (found: Option<usize>)
    ensures
        match found {
            Some(i) => i < peers@.len() && peers@[i as int].address@ == address@,
            None => !knows(peers@, address@),
        },
{
    let mut i: usize = 0;
    while i < peers.len()
        invariant
            i <= peers@.len(),
            forall|m: int| 0 <= m < i ==> peers@[m].address@ != address@,
        decreases peers@.len() - i,
    {
        if peers[i].address == *address {
            return Some(i);
        }
        i += 1;
    }
    None
}

fn was_answered(answers: &Vec<PeerAnswer>, address: &String) -> (yes: bool)
    ensures
        yes == answered(answers@, address@),
{
    let mut j: usize = 0;
    while j < answers.len()
        invariant
            j <= answers@.len(),
            forall|m: int|
                0 <= m < j ==> !(answers@[m].address@ == address@ && answers@[m].peers is Some),
        decreases answers@.len() - j,
    {
        if answers[j].address == *address && answers[j].peers.is_some() {
            return true;
        }
        j += 1;
    }
    false
}

/// The peers to go on with, given the peers known so far and what asking
/// them gave.
///
/// A known peer stays, as validated, exactly if it answered. An address
/// that was not known is added, as not validated, exactly if a known peer
/// that answered named it. Answers of peers that were not known count for
/// nothing.
pub fn merge_peers(known: &Vec<Peer>, answers: &Vec<PeerAnswer>) -> (merged: Vec<Peer>)
    requires
        distinct(known@),
    ensures
        distinct(merged@),
        forall|address: Seq<char>|
            knows(merged@, address) <==> (knows(known@, address) && answered(answers@, address))
                || (!knows(known@, address) && offered(known@, answers@, address)),
        forall|i: int|
            0 <= i < merged@.len() ==> merged@[i].validated == knows(
                known@,
                #[trigger] merged@[i].address@,
            ),
{
    let mut merged: Vec<Peer> = Vec::new();
    let mut i: usize = 0;
    while i < known.len()
        invariant
            i <= known@.len(),
            distinct(known@),
            distinct(merged@),
            forall|m: int|
                0 <= m < merged@.len() ==> (#[trigger] merged@[m]).validated && answered(
                    answers@,
                    merged@[m].address@,
                ) && exists|n: int| 0 <= n < i && known@[n].address@ == merged@[m].address@,
            forall|n: int|
                0 <= n < i && answered(answers@, known@[n].address@) ==> knows(
                    merged@,
                    #[trigger] known@[n].address@,
                ),
        decreases known@.len() - i,
    {
        if was_answered(answers, &known[i].address) {
            let ghost before = merged@;
            merged.push(Peer { address: known[i].address.clone(), validated: true });
            proof {
                let last = before.len() as int;
                assert(merged@[last].address@ == known@[i as int].address@);
                assert forall|m: int, n: int| 0 <= m < n < merged@.len() implies merged@[m].address@
                    != merged@[n].address@ by {
                    if n == last {
                        assert(merged@[m] == before[m]);
                        let w = choose|w: int|
                            0 <= w < i && known@[w].address@ == before[m].address@;
                        assert(known@[w].address@ != known@[i as int].address@);
                    } else {
                        assert(merged@[m] == before[m] && merged@[n] == before[n]);
                    }
                }
                assert forall|n: int|
                    0 <= n < i + 1 && answered(answers@, known@[n].address@) implies knows(
                    merged@,
                    #[trigger] known@[n].address@,
                ) by {
                    if n < i {
                        let w = choose|w: int|
                            0 <= w < before.len() && before[w].address@ == known@[n].address@;
                        assert(merged@[w] == before[w]);
                    }
                }
                assert forall|m: int| 0 <= m < merged@.len() implies (#[trigger] merged@[m]).validated
                    && answered(answers@, merged@[m].address@) && exists|n: int|
                    0 <= n < i + 1 && known@[n].address@ == merged@[m].address@ by {
                    if m < last {
                        assert(merged@[m] == before[m]);
                        let w = choose|w: int|
                            0 <= w < i && known@[w].address@ == before[m].address@;
                        assert(0 <= w < i + 1 && known@[w].address@ == merged@[m].address@);
                    } else {
                        assert(known@[i as int].address@ == merged@[m].address@);
                    }
                }
            }
        }
        i += 1;
    }
    let ghost kept = merged@.len() as int;
    let mut j: usize = 0;
    while j < answers.len()
        invariant
            j <= answers@.len(),
            distinct(known@),
            distinct(merged@),
            kept <= merged@.len(),
            forall|m: int|
                0 <= m < kept ==> (#[trigger] merged@[m]).validated && answered(
                    answers@,
                    merged@[m].address@,
                ) && knows(known@, merged@[m].address@),
            forall|n: int|
                0 <= n < known@.len() && answered(answers@, known@[n].address@) ==> knows(
                    merged@,
                    #[trigger] known@[n].address@,
                ),
            forall|m: int|
                kept <= m < merged@.len() ==> !(#[trigger] merged@[m]).validated && !knows(
                    known@,
                    merged@[m].address@,
                ) && offered(known@, answers@, merged@[m].address@),
            forall|a: int, k: int|
                0 <= a < j && answers@[a].peers is Some && knows(known@, answers@[a].address@)
                    && 0 <= k < answers@[a].peers->Some_0@.len() && !knows(
                    known@,
                    answers@[a].peers->Some_0@[k]@,
                ) ==> knows(merged@, #[trigger] answers@[a].peers->Some_0@[k]@),
        decreases answers@.len() - j,
    {
        let asked_known = position(known, &answers[j].address).is_some();
        match &answers[j].peers {
            Some(named) => {
                if asked_known {
                    let mut k: usize = 0;
                    while k < named.len()
                        invariant
                            k <= named@.len(),
                            j < answers@.len(),
                            answers@[j as int].peers == Some(*named),
                            knows(known@, answers@[j as int].address@),
                            distinct(known@),
                            distinct(merged@),
                            kept <= merged@.len(),
                            forall|m: int|
                                0 <= m < kept ==> (#[trigger] merged@[m]).validated && answered(
                                    answers@,
                                    merged@[m].address@,
                                ) && knows(known@, merged@[m].address@),
                            forall|n: int|
                                0 <= n < known@.len() && answered(answers@, known@[n].address@)
                                    ==> knows(merged@, #[trigger] known@[n].address@),
                            forall|m: int|
                                kept <= m < merged@.len() ==> !(#[trigger] merged@[m]).validated
                                    && !knows(known@, merged@[m].address@) && offered(
                                    known@,
                                    answers@,
                                    merged@[m].address@,
                                ),
                            forall|a: int, b: int|
                                0 <= a < j && answers@[a].peers is Some && knows(
                                    known@,
                                    answers@[a].address@,
                                ) && 0 <= b < answers@[a].peers->Some_0@.len() && !knows(
                                    known@,
                                    answers@[a].peers->Some_0@[b]@,
                                ) ==> knows(merged@, #[trigger] answers@[a].peers->Some_0@[b]@),
                            forall|b: int|
                                0 <= b < k && !knows(known@, named@[b]@) ==> knows(
                                    merged@,
                                    #[trigger] named@[b]@,
                                ),
                        decreases named@.len() - k,
                    {
                        let ghost before = merged@;
                        let fresh = position(known, &named[k]).is_none() && position(
                            &merged,
                            &named[k],
                        ).is_none();
                        if fresh {
                            merged.push(Peer { address: named[k].clone(), validated: false });
                            proof {
                                let last = before.len() as int;
                                assert(merged@[last].address@ == named@[k as int]@);
                                assert(answers@[j as int].peers->Some_0@[k as int]@
                                    == named@[k as int]@);
                                assert(offered(known@, answers@, named@[k as int]@));
                                lemma_still_known(before, merged@);
                            }
                        } else {
                            proof {
                                if !knows(known@, named@[k as int]@) {
                                    assert(knows(merged@, named@[k as int]@));
                                }
                            }
                        }
                        k += 1;
                    }
                }
            },
            None => {},
        }
        j += 1;
    }
    proof {
        assert forall|address: Seq<char>| knows(merged@, address) <==> (knows(known@, address)
            && answered(answers@, address)) || (!knows(known@, address) && offered(
            known@,
            answers@,
            address,
        )) by {
            if knows(known@, address) && answered(answers@, address) {
                let n = choose|n: int| 0 <= n < known@.len() && known@[n].address@ == address;
                assert(knows(merged@, known@[n].address@));
            }
            if !knows(known@, address) && offered(known@, answers@, address) {
                let (a, b) = choose|a: int, b: int|
                    0 <= a < answers@.len() && answers@[a].peers is Some && knows(
                        known@,
                        answers@[a].address@,
                    ) && 0 <= b < answers@[a].peers->Some_0@.len()
                        && #[trigger] answers@[a].peers->Some_0@[b]@ == address;
                assert(knows(merged@, answers@[a].peers->Some_0@[b]@));
            }
        }
    }
    merged
}

/// What a list knew, a list that extends it knows too.
proof fn lemma_still_known(before: Seq<Peer>, after: Seq<Peer>)
    requires
        before.len() <= after.len(),
        forall|m: int| 0 <= m < before.len() ==> after[m] == before[m],
    ensures
        forall|address: Seq<char>| knows(before, address) ==> knows(after, address),
{
    assert forall|address: Seq<char>| knows(before, address) implies knows(after, address) by {
        let w = choose|w: int| 0 <= w < before.len() && before[w].address@ == address;
        assert(after[w].address@ == address);
    }
}

} // verus!
