use tetris::bag::Bag;

fn is_permutation(draws: &[usize]) -> bool {
    let mut seen: [bool; 7] = [false; 7];
    if draws.len() != 7 {
        return false;
    }
    for &d in draws {
        if d >= 7 || seen[d] {
            return false;
        }
        seen[d] = true;
    }
    true
}

#[test]
fn a_new_bag_shows_five_and_keeps_two() {
    let bag = Bag::new();
    assert_eq!(bag.next_pieces.len(), 5);
    assert_eq!(bag.queue.len(), 2);
    let mut all: Vec<usize> = bag.next_pieces.clone();
    all.extend(bag.queue.iter().copied());
    assert!(is_permutation(&all));
}

#[test]
fn seven_draws_from_a_boundary_are_a_permutation() {
    let mut bag = Bag::new();
    for _ in 0..50 {
        let mut group: Vec<usize> = Vec::new();
        for _ in 0..7 {
            group.push(bag.next());
        }
        assert!(is_permutation(&group), "{:?}", group);
    }
}

#[test]
fn the_look_ahead_keeps_its_length() {
    let mut bag = Bag::new();
    for _ in 0..100 {
        let _ = bag.next();
        assert_eq!(bag.next_pieces.len(), 5);
        assert!(bag.queue.len() <= 6);
    }
}

#[test]
fn the_bag_refills_only_when_the_reserve_is_empty() {
    let mut bag = Bag::new();
    let expected: [usize; 8] = [1, 0, 6, 5, 4, 3, 2, 1];
    for want in expected {
        let _ = bag.next();
        assert_eq!(bag.queue.len(), want);
    }
}

#[test]
fn next_hands_out_the_head_of_the_look_ahead() {
    let mut bag = Bag::new();
    for _ in 0..40 {
        let shown: Vec<usize> = bag.next_pieces.clone();
        let reserve: Vec<usize> = bag.queue.clone();
        let drawn: usize = bag.next();
        assert_eq!(drawn, shown[0]);
        assert_eq!(&bag.next_pieces[..4], &shown[1..]);
        if !reserve.is_empty() {
            assert_eq!(bag.next_pieces[4], reserve[0]);
            assert_eq!(&bag.queue[..], &reserve[1..]);
        } else {
            let mut fresh: Vec<usize> = vec![bag.next_pieces[4]];
            fresh.extend(bag.queue.iter().copied());
            assert!(is_permutation(&fresh));
        }
    }
}

#[test]
fn no_piece_stays_away_for_more_than_twelve_draws() {
    let mut bag = Bag::new();
    let mut last_seen: [Option<usize>; 7] = [None; 7];
    for draw in 0..700usize {
        let piece: usize = bag.next();
        if let Some(before) = last_seen[piece] {
            assert!(draw - before <= 13);
        } else {
            assert!(draw < 7);
        }
        last_seen[piece] = Some(draw);
    }
}

#[test]
fn bags_are_shuffled() {
    let mut some_order_differs = false;
    for _ in 0..60 {
        let mut bag = Bag::new();
        let mut group: Vec<usize> = Vec::new();
        for _ in 0..7 {
            group.push(bag.next());
        }
        if group != vec![0, 1, 2, 3, 4, 5, 6] {
            some_order_differs = true;
        }
    }
    assert!(some_order_differs);
}

#[test]
fn restock_appends_behind_the_reserve() {
    let mut bag = Bag { queue: vec![1], next_pieces: vec![0, 2, 3, 4, 5] };
    bag.restock(vec![6, 0, 1]);
    assert_eq!(bag.queue, vec![1, 6, 0, 1]);
    assert_eq!(bag.next_pieces, vec![0, 2, 3, 4, 5]);
    bag.restock(vec![]);
    assert_eq!(bag.queue, vec![1, 6, 0, 1]);
}

#[test]
fn a_restocked_bag_deals_in_the_order_of_its_shuffles() {
    let mut bag = Bag { queue: vec![5, 6], next_pieces: vec![0, 1, 2, 3, 4] };
    let shuffles: [[usize; 7]; 3] =
        [[3, 0, 6, 1, 5, 2, 4], [6, 5, 4, 3, 2, 1, 0], [2, 4, 6, 0, 1, 3, 5]];
    let mut expected: Vec<usize> = vec![0, 1, 2, 3, 4, 5, 6];
    for shuffle in shuffles {
        expected.extend(shuffle);
    }
    let mut restocked: usize = 0;
    let mut drawn: Vec<usize> = Vec::new();
    for _ in 0..23 {
        if bag.queue.is_empty() && restocked < 3 {
            bag.restock(shuffles[restocked].to_vec());
            restocked += 1;
        }
        drawn.push(bag.next());
        assert_eq!(bag.next_pieces.len(), 5);
    }
    assert_eq!(drawn, expected[..23].to_vec());
    assert_eq!(bag.next_pieces, expected[23..28].to_vec());
    assert!(bag.queue.is_empty());
}

#[test]
fn next_moves_the_head_of_the_reserve_into_the_look_ahead() {
    let mut bag = Bag { queue: vec![5, 6], next_pieces: vec![0, 1, 2, 3, 4] };
    assert_eq!(bag.next(), 0);
    assert_eq!(bag.next_pieces, vec![1, 2, 3, 4, 5]);
    assert_eq!(bag.queue, vec![6]);
    assert_eq!(bag.next(), 1);
    assert_eq!(bag.next_pieces, vec![2, 3, 4, 5, 6]);
    assert_eq!(bag.queue, vec![]);
}
