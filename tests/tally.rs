use private_voting::circuits::{
    apply_quadratic_vote, cast_simple_vote, cast_vote, init_tallies, reveal_results,
    within_budget, RevealedResults, VoteAllocation, VoteTallies, VOICE_CREDIT_BUDGET,
};

fn tallies(o0: u64, o1: u64, o2: u64, o3: u64, total: u64) -> VoteTallies {
    VoteTallies { option_0: o0, option_1: o1, option_2: o2, option_3: o3, total_votes: total }
}

fn ballot(v0: u64, v1: u64, v2: u64, v3: u64) -> VoteAllocation {
    VoteAllocation { v0, v1, v2, v3 }
}

#[test]
fn fresh_tallies_reveal_all_zero() {
    let r = reveal_results(&init_tallies());
    assert_eq!(
        r,
        RevealedResults {
            option_0: 0,
            option_1: 0,
            option_2: 0,
            option_3: 0,
            total_votes: 0,
            winner: 0
        }
    );
}

#[test]
fn simple_votes_are_counted_per_option() {
    let choices: Vec<u8> = vec![0, 2, 2, 3, 2, 0, 1];
    let mut t = init_tallies();
    for c in &choices {
        t = cast_simple_vote(*c, &t);
    }
    let r = reveal_results(&t);
    assert_eq!(r.option_0, 2);
    assert_eq!(r.option_1, 1);
    assert_eq!(r.option_2, 3);
    assert_eq!(r.option_3, 1);
    assert_eq!(r.total_votes, 7);
    assert_eq!(r.option_0 + r.option_1 + r.option_2 + r.option_3, r.total_votes);
    assert_eq!(r.winner, 2);
}

#[test]
fn simple_vote_out_of_range_counts_only_total() {
    let t = cast_simple_vote(7, &tallies(1, 1, 1, 1, 4));
    assert_eq!(t, tallies(1, 1, 1, 1, 5));
}

#[test]
fn quadratic_vote_within_budget_is_added() {
    let t = cast_vote(&ballot(3, 4, 1, 0), &tallies(10, 20, 30, 40, 100));
    assert_eq!(t, tallies(13, 24, 31, 40, 108));
}

#[test]
fn quadratic_vote_at_exact_budget_is_added() {
    let t = cast_vote(&ballot(5, 5, 5, 5), &init_tallies());
    assert_eq!(t, tallies(5, 5, 5, 5, 20));
    let t = cast_vote(&ballot(10, 0, 0, 0), &init_tallies());
    assert_eq!(t, tallies(10, 0, 0, 0, 10));
}

#[test]
fn quadratic_vote_over_budget_leaves_tallies_unchanged() {
    let before = tallies(4, 3, 2, 1, 10);
    let after = cast_vote(&ballot(8, 7, 0, 0), &before);
    assert_eq!(after, before);
    let after = cast_vote(&ballot(5, 5, 5, 6), &before);
    assert_eq!(after, before);
}

#[test]
fn quadratic_vote_with_huge_allocation_is_rejected_without_overflow() {
    let before = tallies(1, 2, 3, 4, 10);
    let after = cast_vote(&ballot(u64::MAX, u64::MAX, u64::MAX, u64::MAX), &before);
    assert_eq!(after, before);
    assert!(!within_budget(&ballot(u64::MAX, 0, 0, 0), u64::MAX));
}

#[test]
fn budget_check_matches_sum_of_squares() {
    assert_eq!(VOICE_CREDIT_BUDGET, 100);
    assert!(within_budget(&ballot(0, 0, 0, 0), 0));
    assert!(within_budget(&ballot(1, 2, 3, 4), 30));
    assert!(!within_budget(&ballot(1, 2, 3, 4), 29));
    assert!(within_budget(&ballot(4_294_967_295, 0, 0, 0), u64::MAX - 8_589_934_590));
}

#[test]
fn explicit_budget_applies_to_quadratic_vote() {
    let before = init_tallies();
    assert_eq!(apply_quadratic_vote(&ballot(2, 2, 0, 0), &before, 8), tallies(2, 2, 0, 0, 4));
    assert_eq!(apply_quadratic_vote(&ballot(2, 2, 0, 0), &before, 7), before);
}

#[test]
fn tie_goes_to_lowest_index() {
    assert_eq!(reveal_results(&tallies(5, 5, 0, 0, 10)).winner, 0);
    assert_eq!(reveal_results(&tallies(0, 3, 3, 3, 9)).winner, 1);
    assert_eq!(reveal_results(&tallies(0, 0, 0, 0, 0)).winner, 0);
}

#[test]
fn strict_maximum_wins() {
    assert_eq!(reveal_results(&tallies(1, 2, 3, 4, 10)).winner, 3);
    assert_eq!(reveal_results(&tallies(9, 2, 3, 4, 18)).winner, 0);
    assert_eq!(reveal_results(&tallies(1, 2, 7, 7, 17)).winner, 2);
}

#[test]
fn reveal_publishes_every_counter() {
    let r = reveal_results(&tallies(11, 22, 33, 44, 110));
    assert_eq!(
        (r.option_0, r.option_1, r.option_2, r.option_3, r.total_votes),
        (11, 22, 33, 44, 110)
    );
}
