use isupipe::error::Error;
use isupipe::statistics::{find_rank, livestream_rank, sum, RankEntry};

fn ranking() -> Vec<RankEntry> {
    vec![
        RankEntry { id: 3, rank: 1 },
        RankEntry { id: 1, rank: 2 },
        RankEntry { id: 2, rank: 3 },
        RankEntry { id: 1, rank: 9 },
    ]
}

#[test]
fn the_rank_is_that_of_the_first_line() {
    assert_eq!(find_rank(&ranking(), 3), Some(1));
    assert_eq!(find_rank(&ranking(), 1), Some(2));
    assert_eq!(find_rank(&ranking(), 2), Some(3));
}

#[test]
fn what_is_not_ranked_has_no_rank() {
    assert_eq!(find_rank(&ranking(), 4), None);
    assert_eq!(find_rank(&Vec::new(), 1), None);
}

#[test]
fn an_unknown_livestream_is_a_bad_request() {
    assert_eq!(livestream_rank(&ranking(), 2), Ok(3));
    assert_eq!(livestream_rank(&ranking(), 5), Err(Error::BadRequest(String::new())));
}

#[test]
fn tips_are_added_up() {
    assert_eq!(sum(&Vec::new()), Some(0));
    assert_eq!(sum(&vec![100, 0, 2500, 7]), Some(2607));
    assert_eq!(sum(&vec![5, -8]), Some(-3));
    assert_eq!(sum(&vec![i64::MAX - 1, 1]), Some(i64::MAX));
}

#[test]
fn a_sum_that_does_not_fit_is_none() {
    assert_eq!(sum(&vec![i64::MAX, 1]), None);
    assert_eq!(sum(&vec![i64::MAX, 1, -5]), None);
    assert_eq!(sum(&vec![i64::MIN, -1]), None);
    assert_eq!(sum(&vec![-5, i64::MAX, 1]), Some(i64::MAX - 4));
}
