use demoquad::simple_identity;
use demoquad::{Choice, Config, Error, Event, Identifiable, Pallet, Proposal};

const CONFIG: Config =
    Config { min_length: 5, max_length: 50, duration: 2, max_proposals_per_tick: 3 };

/// A registry that knows the accounts 1, 2 and 3.
fn gate() -> simple_identity::Pallet<u8> {
    let mut gate = simple_identity::Pallet::new(simple_identity::Config { reservation_fee: 0 });
    gate.set_identity(&1, (0, 0));
    gate.set_identity(&2, (0, 0));
    gate.set_identity(&3, (0, 0));
    gate
}

fn text(len: usize) -> Vec<u8> {
    vec![b'x'; len]
}

#[test]
fn unauthorized_submission_is_turned_down_and_changes_nothing() {
    let gate = gate();
    let mut pallet = Pallet::new(CONFIG);
    pallet.submit_proposal(&gate, 1, text(10), 0).unwrap();
    let before = pallet.clone();
    for len in [0usize, 4, 5, 10, 50, 51, 1000] {
        assert_eq!(pallet.submit_proposal(&gate, 99, text(len), 0), Err(Error::Unauthorized));
        assert_eq!(pallet, before);
    }
}

#[test]
fn unauthorized_vote_is_turned_down_and_changes_nothing() {
    let gate = gate();
    let mut pallet = Pallet::new(CONFIG);
    let id = pallet.submit_proposal(&gate, 1, text(10), 0).unwrap();
    let before = pallet.clone();
    assert_eq!(pallet.vote_proposal(&gate, 99, id, Choice::Yes, 1), Err(Error::Unauthorized));
    assert_eq!(pallet.vote_proposal(&gate, 99, id + 1, Choice::No, 1), Err(Error::Unauthorized));
    assert_eq!(pallet.vote_proposal(&gate, 99, id, Choice::No, 100), Err(Error::Unauthorized));
    assert_eq!(pallet, before);
    assert!(!pallet.has_voted(id, 99));
}

#[test]
fn text_length_bounds_are_inclusive() {
    let mut pallet = Pallet::new(Config { max_proposals_per_tick: 10, ..CONFIG });
    let empty = pallet.clone();
    assert_eq!(pallet.submit(1, text(0), 0), Err(Error::TooShort));
    assert_eq!(pallet.submit(1, text(4), 0), Err(Error::TooShort));
    assert_eq!(pallet.submit(1, text(51), 0), Err(Error::TooLong));
    assert_eq!(pallet.submit(1, text(5000), 0), Err(Error::TooLong));
    assert_eq!(pallet, empty);
    assert_eq!(pallet.submit(1, text(5), 0), Ok(0));
    assert_eq!(pallet.submit(1, text(50), 0), Ok(1));
    assert_eq!(pallet.submit(1, text(27), 0), Ok(2));
    assert_eq!(pallet.nb_proposals(), 3);
}

#[test]
fn too_long_comes_before_too_short() {
    let config = Config { min_length: 20, max_length: 10, ..CONFIG };
    let mut pallet = Pallet::new(config);
    assert_eq!(pallet.submit(1, text(15), 0), Err(Error::TooLong));
    assert_eq!(pallet.submit(1, text(10), 0), Err(Error::TooShort));
    assert_eq!(pallet.submit(1, text(20), 0), Err(Error::TooLong));
    assert_eq!(pallet.nb_proposals(), 0);
}

#[test]
fn accepted_proposal_is_stored_as_submitted() {
    let mut pallet = Pallet::new(CONFIG);
    assert_eq!(pallet.config(), CONFIG);
    assert_eq!(pallet.get(0), None);
    let id = pallet.submit(7, b"Vote for me".to_vec(), 4).unwrap();
    assert_eq!(id, 0);
    assert_eq!(
        pallet.get(id),
        Some(&Proposal {
            proposer: 7,
            text: b"Vote for me".to_vec(),
            yes_count: 0,
            no_count: 0,
            start_tick: 4,
            end_tick: 7,
            resolved: false,
        })
    );
    assert_eq!(pallet.due_at(7), vec![0]);
    assert_eq!(pallet.due_at(6), Vec::<u32>::new());
    assert_eq!(pallet.nb_proposals(), 1);
}

#[test]
fn identifiers_count_up_from_zero_and_failures_use_none() {
    let mut pallet = Pallet::new(Config { max_proposals_per_tick: 2, ..CONFIG });
    assert_eq!(pallet.submit(1, text(10), 0), Ok(0));
    assert_eq!(pallet.submit(1, text(1), 0), Err(Error::TooShort));
    assert_eq!(pallet.submit(1, text(10), 0), Ok(1));
    assert_eq!(pallet.submit(1, text(10), 0), Err(Error::CapacityExceeded));
    assert_eq!(pallet.submit(1, text(10), 1), Ok(2));
    assert_eq!(pallet.submit(2, text(10), 5), Ok(3));
    assert_eq!(pallet.nb_proposals(), 4);
}

#[test]
fn full_bucket_turns_later_submissions_down_and_keeps_earlier_ones() {
    let mut pallet = Pallet::new(CONFIG);
    assert_eq!(pallet.submit(1, text(10), 0), Ok(0));
    assert_eq!(pallet.submit(2, text(11), 0), Ok(1));
    assert_eq!(pallet.submit(3, text(12), 0), Ok(2));
    let before = pallet.clone();
    assert_eq!(pallet.submit(1, text(13), 0), Err(Error::CapacityExceeded));
    assert_eq!(pallet.submit(2, text(14), 0), Err(Error::CapacityExceeded));
    assert_eq!(pallet, before);
    assert_eq!(pallet.due_at(3), vec![0, 1, 2]);
    assert_eq!(pallet.get(1).unwrap().text, text(11));
    // Another closing tick has a bucket of its own.
    assert_eq!(pallet.submit(1, text(13), 1), Ok(3));
    assert_eq!(pallet.due_at(4), vec![3]);
}

#[test]
fn drained_bucket_takes_submissions_again() {
    let mut pallet = Pallet::new(Config { max_proposals_per_tick: 1, ..CONFIG });
    assert_eq!(pallet.submit(1, text(10), 0), Ok(0));
    assert_eq!(pallet.submit(1, text(10), 0), Err(Error::CapacityExceeded));
    assert_eq!(pallet.on_tick(3), vec![Event::ProposalEnded(0), Event::Lose(0)]);
    assert_eq!(pallet.submit(1, text(10), 0), Ok(1));
}

#[test]
fn no_capacity_means_no_submission() {
    let mut pallet = Pallet::new(Config { max_proposals_per_tick: 0, ..CONFIG });
    assert_eq!(pallet.submit(1, text(10), 0), Err(Error::CapacityExceeded));
    assert_eq!(pallet.nb_proposals(), 0);
}

#[test]
fn second_vote_is_turned_down_and_the_tally_holds_one_vote() {
    let mut pallet = Pallet::new(CONFIG);
    let id = pallet.submit(1, text(10), 0).unwrap();
    assert!(!pallet.has_voted(id, 2));
    assert_eq!(pallet.cast(id, 2, Choice::Yes, 1), Ok(()));
    assert!(pallet.has_voted(id, 2));
    let before = pallet.clone();
    assert_eq!(pallet.cast(id, 2, Choice::Yes, 1), Err(Error::AlreadyVoted));
    assert_eq!(pallet.cast(id, 2, Choice::No, 2), Err(Error::AlreadyVoted));
    assert_eq!(pallet, before);
    assert_eq!(pallet.get(id).unwrap().yes_count, 1);
    assert_eq!(pallet.get(id).unwrap().no_count, 0);
}

#[test]
fn votes_are_kept_apart_by_proposal_and_by_voter() {
    let mut pallet = Pallet::new(CONFIG);
    let first = pallet.submit(1, text(10), 0).unwrap();
    let second = pallet.submit(1, text(10), 0).unwrap();
    assert_eq!(pallet.cast(first, 2, Choice::No, 0), Ok(()));
    assert_eq!(pallet.cast(second, 2, Choice::Yes, 0), Ok(()));
    assert_eq!(pallet.cast(first, 3, Choice::No, 0), Ok(()));
    assert!(pallet.has_voted(first, 2));
    assert!(pallet.has_voted(first, 3));
    assert!(pallet.has_voted(second, 2));
    assert!(!pallet.has_voted(second, 3));
    assert_eq!((pallet.get(first).unwrap().yes_count, pallet.get(first).unwrap().no_count), (0, 2));
    assert_eq!(
        (pallet.get(second).unwrap().yes_count, pallet.get(second).unwrap().no_count),
        (1, 0)
    );
}

#[test]
fn vote_on_unknown_proposal_is_turned_down_and_changes_no_tally() {
    let mut pallet = Pallet::new(CONFIG);
    let id = pallet.submit(1, text(10), 0).unwrap();
    let before = pallet.clone();
    assert_eq!(pallet.cast(id + 1, 2, Choice::Yes, 1), Err(Error::NotFound));
    assert_eq!(pallet.cast(u32::MAX, 2, Choice::No, 1), Err(Error::NotFound));
    assert_eq!(pallet, before);
    assert_eq!(pallet.get(id).unwrap().yes_count, 0);
    assert_eq!(pallet.get(id).unwrap().no_count, 0);
    assert!(!pallet.has_voted(id + 1, 2));
}

#[test]
fn window_is_half_open() {
    let mut pallet = Pallet::new(CONFIG);
    let id = pallet.submit(1, text(10), 0).unwrap();
    assert_eq!(pallet.get(id).unwrap().end_tick, 3);
    assert_eq!(pallet.cast(id, 1, Choice::Yes, 0), Ok(()));
    assert_eq!(pallet.cast(id, 2, Choice::Yes, 2), Ok(()));
    let before = pallet.clone();
    assert_eq!(pallet.cast(id, 3, Choice::Yes, 3), Err(Error::Expired));
    assert_eq!(pallet.cast(id, 3, Choice::Yes, 4), Err(Error::Expired));
    assert_eq!(pallet, before);
    // An earlier ballot is reported before the closed window.
    assert_eq!(pallet.cast(id, 1, Choice::Yes, 3), Err(Error::AlreadyVoted));
}

#[test]
fn resolved_proposal_takes_no_vote_at_any_tick() {
    let mut pallet = Pallet::new(CONFIG);
    let id = pallet.submit(1, text(10), 0).unwrap();
    assert_eq!(pallet.on_tick(3), vec![Event::ProposalEnded(id), Event::Lose(id)]);
    assert!(pallet.get(id).unwrap().resolved);
    let before = pallet.clone();
    assert_eq!(pallet.cast(id, 2, Choice::Yes, 1), Err(Error::Expired));
    assert_eq!(pallet.cast(id, 2, Choice::Yes, 3), Err(Error::Expired));
    assert_eq!(pallet, before);
}

#[test]
fn two_yes_and_one_no_win_and_the_drain_is_idempotent() {
    let gate = gate();
    let mut pallet = Pallet::new(CONFIG);
    let id = pallet.submit_proposal(&gate, 1, b"Vote for me".to_vec(), 0).unwrap();
    assert_eq!(pallet.get(id).unwrap().start_tick, 0);
    assert_eq!(pallet.get(id).unwrap().end_tick, 3);
    assert_eq!(pallet.vote_proposal(&gate, 1, id, Choice::Yes, 0), Ok(()));
    assert_eq!(pallet.vote_proposal(&gate, 2, id, Choice::Yes, 1), Ok(()));
    assert_eq!(pallet.vote_proposal(&gate, 3, id, Choice::No, 2), Ok(()));
    assert_eq!(pallet.on_tick(1), vec![]);
    assert_eq!(pallet.on_tick(2), vec![]);
    assert_eq!(pallet.on_tick(3), vec![Event::ProposalEnded(id), Event::Win(id)]);
    let after = pallet.clone();
    assert_eq!(pallet.on_tick(3), vec![]);
    assert_eq!(pallet, after);
    let record = pallet.get(id).unwrap();
    assert_eq!((record.yes_count, record.no_count, record.resolved), (2, 1, true));
    assert_eq!(pallet.due_at(3), Vec::<u32>::new());
}

#[test]
fn tie_loses() {
    let mut pallet = Pallet::new(CONFIG);
    let tied = pallet.submit(1, text(10), 0).unwrap();
    let unvoted = pallet.submit(1, text(10), 0).unwrap();
    assert_eq!(pallet.cast(tied, 1, Choice::Yes, 1), Ok(()));
    assert_eq!(pallet.cast(tied, 2, Choice::No, 1), Ok(()));
    assert_eq!(
        pallet.on_tick(3),
        vec![
            Event::ProposalEnded(tied),
            Event::Lose(tied),
            Event::ProposalEnded(unvoted),
            Event::Lose(unvoted),
        ]
    );
}

#[test]
fn proposals_are_resolved_in_registration_order_at_their_own_tick() {
    let mut pallet = Pallet::new(CONFIG);
    let a = pallet.submit(1, text(10), 0).unwrap();
    let b = pallet.submit(1, text(10), 1).unwrap();
    let c = pallet.submit(1, text(10), 0).unwrap();
    assert_eq!(pallet.cast(c, 1, Choice::Yes, 1), Ok(()));
    assert_eq!(pallet.cast(b, 1, Choice::No, 1), Ok(()));
    assert_eq!(pallet.cast(a, 1, Choice::No, 1), Ok(()));
    assert_eq!(pallet.cast(a, 2, Choice::Yes, 1), Ok(()));
    assert_eq!(pallet.cast(a, 3, Choice::Yes, 1), Ok(()));
    assert_eq!(
        pallet.on_tick(3),
        vec![
            Event::ProposalEnded(a),
            Event::Win(a),
            Event::ProposalEnded(c),
            Event::Win(c),
        ]
    );
    assert!(pallet.get(a).unwrap().resolved);
    assert!(!pallet.get(b).unwrap().resolved);
    assert!(pallet.get(c).unwrap().resolved);
    assert_eq!(pallet.on_tick(4), vec![Event::ProposalEnded(b), Event::Lose(b)]);
    assert!(pallet.get(b).unwrap().resolved);
    assert_eq!(pallet.on_tick(5), vec![]);
}

#[test]
fn exhausted_allocator_turns_submission_down_without_wrapping() {
    let mut pallet = Pallet::starting_at(CONFIG, u32::MAX - 1);
    assert_eq!(pallet.submit(1, text(10), 0), Ok(u32::MAX - 1));
    assert_eq!(pallet.nb_proposals(), u32::MAX);
    let before = pallet.clone();
    assert_eq!(pallet.submit(1, text(10), 0), Err(Error::Overflow));
    assert_eq!(pallet.submit(1, text(10), 9), Err(Error::Overflow));
    assert_eq!(pallet, before);
    assert_eq!(pallet.nb_proposals(), u32::MAX);
    assert_eq!(pallet.get(0), None);
    // The length of the text is judged first, the bucket last.
    assert_eq!(pallet.submit(1, text(1), 0), Err(Error::TooShort));
    let mut full = Pallet::starting_at(Config { max_proposals_per_tick: 0, ..CONFIG }, u32::MAX);
    assert_eq!(full.submit(1, text(10), 0), Err(Error::Overflow));
}

#[test]
fn closing_tick_is_duration_plus_one_ticks_ahead() {
    assert_eq!(CONFIG.closing_tick(0), Some(3));
    assert_eq!(CONFIG.closing_tick(39), Some(42));
    assert_eq!(Config { duration: 0, ..CONFIG }.closing_tick(5), Some(6));
    assert_eq!(CONFIG.closing_tick(u64::MAX - 3), Some(u64::MAX));
    assert_eq!(CONFIG.closing_tick(u64::MAX - 2), None);
    assert_eq!(CONFIG.closing_tick(u64::MAX), None);
    assert_eq!(Config { duration: u32::MAX, ..CONFIG }.closing_tick(1), Some(1 << 32 | 1));
}

#[test]
fn every_proposal_ends_once_and_its_verdict_follows() {
    let mut pallet = Pallet::new(CONFIG);
    let mut emitted = Vec::new();
    let mut submitted = Vec::new();
    for now in 0..6u64 {
        emitted.extend(pallet.on_tick(now));
        for _ in 0..2 {
            let id = pallet.submit(1, text(10), now).unwrap();
            submitted.push(id);
            if id % 2 == 0 {
                assert_eq!(pallet.cast(id, 2, Choice::Yes, now), Ok(()));
            }
        }
        // A second run for the same tick finds nothing.
        assert_eq!(pallet.on_tick(now), vec![]);
    }
    for now in 6..12u64 {
        emitted.extend(pallet.on_tick(now));
        emitted.extend(pallet.on_tick(now));
    }
    // Going back to an earlier tick finds nothing either.
    for now in 0..12u64 {
        assert_eq!(pallet.on_tick(now), vec![]);
    }
    assert_eq!(emitted.len(), 2 * submitted.len());
    for id in submitted {
        let ends: Vec<usize> = (0..emitted.len())
            .filter(|&at| emitted[at] == Event::ProposalEnded(id))
            .collect();
        assert_eq!(ends.len(), 1);
        let verdict = if id % 2 == 0 { Event::Win(id) } else { Event::Lose(id) };
        assert_eq!(emitted[ends[0] + 1], verdict);
        assert!(pallet.get(id).unwrap().resolved);
    }
}

#[test]
fn tallies_add_up_to_the_number_of_voters() {
    let mut pallet = Pallet::new(CONFIG);
    let id = pallet.submit(1, text(10), 0).unwrap();
    let mut voters = 0;
    for voter in 0..20u64 {
        let choice = if voter % 3 == 0 { Choice::No } else { Choice::Yes };
        assert_eq!(pallet.cast(id, voter, choice, 1), Ok(()));
        voters += 1;
        // A second ballot of the same voter is not counted.
        assert_eq!(pallet.cast(id, voter, Choice::Yes, 1), Err(Error::AlreadyVoted));
        let record = pallet.get(id).unwrap();
        assert_eq!(record.yes_count + record.no_count, voters);
        assert!(pallet.tally_has_room(id, Choice::Yes));
    }
    let record = pallet.get(id).unwrap();
    assert_eq!((record.yes_count, record.no_count), (13, 7));
    assert!(pallet.tally_has_room(id + 1, Choice::No));
}
