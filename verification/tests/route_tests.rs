use scavenger_hunt::LoadError;
use scavenger_hunt::Location;
use scavenger_hunt::resolve;

fn loc(id: usize, title: &str) -> Location {
    Location {
        id,
        title: String::from(title),
        clue: format!("clue of {title}"),
        answers: vec![String::from(title)],
    }
}

#[test]
fn resolve_follows_the_play_order_not_the_table_order() {
    let table = vec![loc(1, "one"), loc(2, "two"), loc(3, "three")];
    let route = resolve(&table, &vec![3, 1]).unwrap();
    assert_eq!(route.route.len(), 2);
    assert_eq!(route.route[0].id, 3);
    assert_eq!(route.route[0].title, "three");
    assert_eq!(route.route[1].id, 1);
}

#[test]
fn resolve_may_repeat_and_reuse_locations() {
    let table = vec![loc(1, "one"), loc(2, "two")];
    let route = resolve(&table, &vec![2, 2, 1]).unwrap();
    assert_eq!(route.route.len(), 3);
    assert_eq!(route.route[0].id, 2);
    assert_eq!(route.route[1].id, 2);
    assert_eq!(route.route[2].id, 1);
}

#[test]
fn resolve_rejects_an_unknown_id() {
    let table = vec![loc(1, "one"), loc(2, "two")];
    let err = resolve(&table, &vec![1, 9, 2]).unwrap_err();
    assert_eq!(err, LoadError::UnknownId { id: 9 });
}

#[test]
fn resolve_reports_the_first_unknown_id() {
    let table = vec![loc(1, "one")];
    let err = resolve(&table, &vec![1, 5, 6]).unwrap_err();
    assert_eq!(err, LoadError::UnknownId { id: 5 });
}

#[test]
fn resolve_lets_the_last_definition_win() {
    let table = vec![loc(1, "early"), loc(1, "late")];
    let route = resolve(&table, &vec![1]).unwrap();
    assert_eq!(route.route[0].title, "late");
}

#[test]
fn resolve_of_empty_order_is_an_empty_route() {
    let table = vec![loc(1, "one")];
    let route = resolve(&table, &vec![]).unwrap();
    assert!(route.route.is_empty());
}
