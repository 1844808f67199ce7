use haveno_basic_bootstrap::p2p::peer_exchange::{merge_peers, Peer, PeerAnswer};

fn peer(address: &str, validated: bool) -> Peer {
    Peer { address: address.to_string(), validated }
}

fn answer(address: &str, peers: Option<&[&str]>) -> PeerAnswer {
    PeerAnswer {
        address: address.to_string(),
        peers: peers.map(|list| list.iter().map(|p| p.to_string()).collect()),
    }
}

fn sorted(mut peers: Vec<Peer>) -> Vec<Peer> {
    peers.sort_by(|a, b| a.address.cmp(&b.address));
    peers
}

#[test]
fn peers_that_answer_stay_and_the_others_go() {
    let known = vec![peer("a", false), peer("b", true), peer("c", false)];
    let answers = vec![answer("a", Some(&[])), answer("b", None), answer("c", Some(&[]))];
    assert_eq!(sorted(merge_peers(&known, &answers)), vec![peer("a", true), peer("c", true)]);
}

#[test]
fn named_addresses_are_added_once_and_not_validated() {
    let known = vec![peer("a", false), peer("b", false)];
    let answers = vec![answer("a", Some(&["x", "b", "y", "x"])), answer("b", Some(&["y", "a", "z"]))];
    assert_eq!(
        sorted(merge_peers(&known, &answers)),
        vec![peer("a", true), peer("b", true), peer("x", false), peer("y", false), peer("z", false)]
    );
}

#[test]
fn a_known_peer_that_did_not_answer_is_not_added_back() {
    let known = vec![peer("a", true), peer("b", true)];
    let answers = vec![answer("a", Some(&["b", "n"])), answer("b", None)];
    assert_eq!(sorted(merge_peers(&known, &answers)), vec![peer("a", true), peer("n", false)]);
}

#[test]
fn answers_of_unknown_peers_count_for_nothing() {
    let known = vec![peer("a", false)];
    let answers = vec![answer("stranger", Some(&["s1", "s2"])), answer("a", Some(&["n"]))];
    assert_eq!(sorted(merge_peers(&known, &answers)), vec![peer("a", true), peer("n", false)]);
}

#[test]
fn no_answers_leave_no_peers() {
    let known = vec![peer("a", true), peer("b", false)];
    assert!(merge_peers(&known, &vec![]).is_empty());
    assert!(merge_peers(&known, &vec![answer("a", None), answer("b", None)]).is_empty());
    assert!(merge_peers(&vec![], &vec![answer("a", Some(&["b"]))]).is_empty());
}
