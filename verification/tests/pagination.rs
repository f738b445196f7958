use naruto::character::{Element, NarutoChar, Village};
use naruto::connection::{query_characters, Connection};
use naruto::model::QueryRoot;
use naruto::store::NarutoShippuden;

fn page(
    after: Option<usize>,
    before: Option<usize>,
    first: Option<usize>,
    last: Option<usize>,
) -> (bool, bool, Vec<(usize, &'static str)>) {
    let store = NarutoShippuden::new();
    let connection = QueryRoot.humans(&store, after, before, first, last);
    let mut edges = Vec::new();
    for edge in &connection.edges {
        edges.push((edge.cursor, edge.node.0.id));
    }
    (connection.has_previous_page, connection.has_next_page, edges)
}

fn all() -> Vec<(usize, &'static str)> {
    vec![(0, "1000"), (1, "1001"), (2, "1002"), (3, "1003"), (4, "1004"), (5, "1005")]
}

#[test]
fn no_arguments_give_the_whole_roster() {
    assert_eq!(page(None, None, None, None), (false, false, all()));
}

#[test]
fn first_keeps_the_head() {
    assert_eq!(page(None, None, Some(2), None), (false, true, vec![(0, "1000"), (1, "1001")]));
}

#[test]
fn first_one() {
    assert_eq!(page(None, None, Some(1), None), (false, true, vec![(0, "1000")]));
}

#[test]
fn first_zero_keeps_nothing() {
    assert_eq!(page(None, None, Some(0), None), (false, true, vec![]));
}

#[test]
fn first_of_the_whole_length_leaves_no_next_page() {
    assert_eq!(page(None, None, Some(6), None), (false, false, all()));
}

#[test]
fn first_beyond_the_length_is_clamped() {
    assert_eq!(page(None, None, Some(100), None), (false, false, all()));
    assert_eq!(page(None, None, Some(usize::MAX), None), (false, false, all()));
}

#[test]
fn last_keeps_the_tail() {
    assert_eq!(page(None, None, None, Some(2)), (true, false, vec![(4, "1004"), (5, "1005")]));
}

#[test]
fn last_zero_keeps_nothing() {
    assert_eq!(page(None, None, None, Some(0)), (true, false, vec![]));
}

#[test]
fn last_of_the_whole_length() {
    assert_eq!(page(None, None, None, Some(6)), (false, false, all()));
}

#[test]
fn last_beyond_the_length_is_clamped() {
    assert_eq!(page(None, None, None, Some(7)), (false, false, all()));
    assert_eq!(page(None, None, None, Some(usize::MAX)), (false, false, all()));
}

#[test]
fn first_wins_over_last() {
    assert_eq!(page(None, None, Some(1), Some(3)), (false, true, vec![(0, "1000")]));
}

#[test]
fn after_starts_behind_the_cursor() {
    assert_eq!(
        page(Some(2), None, None, None),
        (true, false, vec![(3, "1003"), (4, "1004"), (5, "1005")])
    );
}

#[test]
fn after_the_first() {
    let (previous, next, edges) = page(Some(0), None, None, None);
    assert!(previous);
    assert!(!next);
    assert_eq!(edges, all()[1..].to_vec());
}

#[test]
fn after_the_last_character_leaves_nothing() {
    assert_eq!(page(Some(5), None, None, None), (true, false, vec![]));
}

#[test]
fn after_out_of_range_gives_the_empty_page() {
    assert_eq!(page(Some(6), None, None, None), (false, false, vec![]));
    assert_eq!(page(Some(7), None, Some(2), None), (false, false, vec![]));
    assert_eq!(page(Some(usize::MAX), None, None, Some(2)), (false, false, vec![]));
}

#[test]
fn before_ends_ahead_of_the_cursor() {
    assert_eq!(
        page(None, Some(3), None, None),
        (false, true, vec![(0, "1000"), (1, "1001"), (2, "1002")])
    );
}

#[test]
fn before_the_end_of_the_roster() {
    assert_eq!(page(None, Some(6), None, None), (false, false, all()));
}

#[test]
fn before_zero_gives_the_empty_page() {
    assert_eq!(page(None, Some(0), None, None), (false, false, vec![]));
    assert_eq!(page(None, Some(0), Some(3), None), (false, false, vec![]));
}

#[test]
fn before_out_of_range_gives_the_empty_page() {
    assert_eq!(page(None, Some(7), None, None), (false, false, vec![]));
    assert_eq!(page(None, Some(usize::MAX), None, Some(1)), (false, false, vec![]));
    assert_eq!(page(Some(2), Some(100), None, None), (false, false, vec![]));
}

#[test]
fn after_and_before_cut_a_window() {
    assert_eq!(
        page(Some(0), Some(4), None, None),
        (true, true, vec![(1, "1001"), (2, "1002"), (3, "1003")])
    );
}

#[test]
fn neighbouring_cursors_leave_an_empty_window() {
    assert_eq!(page(Some(2), Some(3), None, None), (true, true, vec![]));
}

#[test]
fn crossing_cursors_give_the_empty_page() {
    assert_eq!(page(Some(3), Some(3), None, None), (false, false, vec![]));
    assert_eq!(page(Some(4), Some(2), None, None), (false, false, vec![]));
    assert_eq!(page(Some(4), Some(2), Some(1), None), (false, false, vec![]));
    assert_eq!(page(Some(5), Some(1), None, Some(1)), (false, false, vec![]));
}

#[test]
fn first_inside_a_window() {
    assert_eq!(
        page(Some(0), Some(5), Some(2), None),
        (true, true, vec![(1, "1001"), (2, "1002")])
    );
}

#[test]
fn first_after_a_cursor() {
    assert_eq!(
        page(Some(2), None, Some(2), None),
        (true, true, vec![(3, "1003"), (4, "1004")])
    );
    assert_eq!(
        page(Some(2), None, Some(3), None),
        (true, false, vec![(3, "1003"), (4, "1004"), (5, "1005")])
    );
    assert_eq!(page(Some(2), None, Some(0), None), (true, true, vec![]));
    assert_eq!(page(Some(5), None, Some(0), None), (true, false, vec![]));
}

#[test]
fn last_inside_a_window() {
    assert_eq!(
        page(Some(0), Some(5), None, Some(2)),
        (true, true, vec![(3, "1003"), (4, "1004")])
    );
}

#[test]
fn last_before_a_cursor() {
    assert_eq!(page(None, Some(2), None, Some(5)), (false, true, vec![(0, "1000"), (1, "1001")]));
    assert_eq!(page(None, Some(2), None, Some(1)), (true, true, vec![(1, "1001")]));
}

#[test]
fn cursors_are_positions_in_the_list() {
    for after in 0..6usize {
        let (_, _, edges) = page(Some(after), None, None, None);
        assert_eq!(edges.len(), 5 - after);
        for (offset, (cursor, id)) in edges.iter().enumerate() {
            assert_eq!(*cursor, after + 1 + offset);
            assert_eq!(*id, all()[*cursor].1);
        }
    }
}

#[test]
fn a_page_never_holds_more_than_asked() {
    for n in 0..9usize {
        let (_, _, head) = page(None, None, Some(n), None);
        assert_eq!(head.len(), n.min(6));
        let (_, _, tail) = page(None, None, None, Some(n));
        assert_eq!(tail.len(), n.min(6));
    }
}

fn sample(id: &'static str, name: &'static str) -> NarutoChar {
    NarutoChar { id, name, friends: vec![], village: Village::Kiri, elements: vec![Element::Water] }
}

fn summary(connection: &Connection<usize>) -> (bool, bool, Vec<(usize, usize)>) {
    let mut edges = Vec::new();
    for edge in &connection.edges {
        edges.push((edge.cursor, edge.node));
    }
    (connection.has_previous_page, connection.has_next_page, edges)
}

#[test]
fn query_characters_maps_each_character_shown() {
    let a = sample("a", "Ao");
    let b = sample("b", "Mei");
    let c = sample("c", "Zabuza");
    let list = vec![&a, &b, &c];
    let connection = query_characters(Some(0), None, None, None, &list, |ch| ch.name.len());
    assert_eq!(summary(&connection), (true, false, vec![(1, 3), (2, 6)]));
}

#[test]
fn query_characters_calls_map_to_only_for_the_page() {
    let a = sample("a", "Ao");
    let b = sample("b", "Mei");
    let c = sample("c", "Zabuza");
    let list = vec![&a, &b, &c];
    let calls = std::cell::Cell::new(0usize);
    let connection = query_characters(None, None, None, Some(1), &list, |ch| {
        calls.set(calls.get() + 1);
        ch.id
    });
    assert_eq!(calls.get(), 1);
    assert_eq!(connection.edges.len(), 1);
    assert_eq!(connection.edges[0].cursor, 2);
    assert_eq!(connection.edges[0].node, "c");
    assert!(connection.has_previous_page);
    assert!(!connection.has_next_page);
}

#[test]
fn query_characters_on_an_empty_list() {
    let list: Vec<&NarutoChar> = Vec::new();
    let connection = query_characters(None, None, None, None, &list, |ch| ch.name.len());
    assert_eq!(summary(&connection), (false, false, vec![]));
    let connection = query_characters(None, None, Some(3), None, &list, |ch| ch.name.len());
    assert_eq!(summary(&connection), (false, false, vec![]));
    let connection = query_characters(None, None, None, Some(3), &list, |ch| ch.name.len());
    assert_eq!(summary(&connection), (false, false, vec![]));
    let connection = query_characters(Some(0), None, None, None, &list, |ch| ch.name.len());
    assert_eq!(summary(&connection), (false, false, vec![]));
    let connection = query_characters(None, Some(0), None, None, &list, |ch| ch.name.len());
    assert_eq!(summary(&connection), (false, false, vec![]));
    let connection = query_characters(None, Some(1), None, None, &list, |ch| ch.name.len());
    assert_eq!(summary(&connection), (false, false, vec![]));
}

#[test]
fn query_characters_on_one_character() {
    let a = sample("a", "Ao");
    let list = vec![&a];
    let connection = query_characters(None, None, Some(1), None, &list, |ch| ch.name.len());
    assert_eq!(summary(&connection), (false, false, vec![(0, 2)]));
    let connection = query_characters(None, None, None, Some(1), &list, |ch| ch.name.len());
    assert_eq!(summary(&connection), (false, false, vec![(0, 2)]));
    let connection = query_characters(None, Some(1), None, None, &list, |ch| ch.name.len());
    assert_eq!(summary(&connection), (false, false, vec![(0, 2)]));
    let connection = query_characters(Some(0), Some(1), None, None, &list, |ch| ch.name.len());
    assert_eq!(summary(&connection), (true, false, vec![]));
}

#[test]
fn first_up_to_a_cursor() {
    assert_eq!(
        page(None, Some(3), Some(5), None),
        (false, true, vec![(0, "1000"), (1, "1001"), (2, "1002")])
    );
    assert_eq!(page(None, Some(6), Some(6), None), (false, false, all()));
    assert_eq!(page(None, Some(6), Some(5), None), (false, true, all()[..5].to_vec()));
}

#[test]
fn flags_tell_what_lies_outside_a_page() {
    let counts = [None, Some(0usize), Some(1), Some(2), Some(3), Some(6), Some(9)];
    let cursors = [None, Some(0usize), Some(1), Some(3), Some(5), Some(6), Some(8)];
    for after in cursors {
        for before in cursors {
            for first in counts {
                for last in counts {
                    let (previous, next, edges) = page(after, before, first, last);
                    if let (Some(head), Some(tail)) = (edges.first(), edges.last()) {
                        assert_eq!(previous, head.0 > 0);
                        assert_eq!(next, tail.0 + 1 < 6);
                    }
                }
            }
        }
    }
}
