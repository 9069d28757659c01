use neighborhood_cli::error::MainError;
use neighborhood_cli::join::{pair_by_role, Both, CompletionStatus, Role, Side};

fn run(first: Side) -> Vec<Side> {
    let mut both = Both::new(Role::Photobooth, Role::Demo);
    let mut order = Vec::new();
    assert_eq!(both.sides_to_poll(), vec![Side::Left, Side::Right]);
    assert_eq!(both.size_hint(), (2, Some(2)));
    both.complete(first);
    order.push(first);
    let rest = both.sides_to_poll();
    assert_eq!(rest.len(), 1);
    assert_eq!(both.size_hint(), (1, Some(1)));
    both.complete(rest[0]);
    order.push(rest[0]);
    assert!(both.is_exhausted());
    assert!(both.sides_to_poll().is_empty());
    assert_eq!(both.size_hint(), (0, Some(0)));
    order
}

#[test]
fn join_yields_each_side_once() {
    let mut a = run(Side::Left);
    let mut b = run(Side::Right);
    assert_eq!(a, vec![Side::Left, Side::Right]);
    assert_eq!(b, vec![Side::Right, Side::Left]);
    a.sort_by_key(|s| *s == Side::Right);
    b.sort_by_key(|s| *s == Side::Right);
    assert_eq!(a, b);
}

#[test]
fn join_status() {
    let mut both = Both::new(1u8, 2u8);
    assert_eq!(both.status(), CompletionStatus::Neither);
    both.complete(Side::Right);
    assert_eq!(both.status(), CompletionStatus::Right);
    assert_eq!(both.sides_to_poll(), vec![Side::Left]);
    both.complete(Side::Left);
    assert_eq!(both.status(), CompletionStatus::Both);
    assert_eq!((both.l, both.r), (1, 2));
}

#[test]
fn pairing_ignores_completion_order() {
    let p = "https://x/p.mp4".to_string();
    let d = "https://x/d.mp4".to_string();
    let parallel = pair_by_role((Ok(d.clone()), Role::Demo), (Ok(p.clone()), Role::Photobooth));
    let sequential = pair_by_role((Ok(p.clone()), Role::Photobooth), (Ok(d.clone()), Role::Demo));
    assert_eq!(parallel, Ok((p.clone(), d.clone())));
    assert_eq!(parallel, sequential);
}

#[test]
fn first_failure_wins() {
    let r = pair_by_role(
        (Err(MainError::Server(Some("a".to_string()))), Role::Demo),
        (Err(MainError::Server(Some("b".to_string()))), Role::Photobooth),
    );
    assert_eq!(r, Err(MainError::Server(Some("a".to_string()))));
    let r = pair_by_role((Ok("x".to_string()), Role::Demo), (Err(MainError::Server(None)), Role::Photobooth));
    assert_eq!(r, Err(MainError::Server(None)));
}
