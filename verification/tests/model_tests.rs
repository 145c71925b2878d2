use rbda::algorithms::articulated_body;
use rbda::model::{Joint, Model};
use std::cell::RefCell;

#[derive(Clone, Copy, Debug, PartialEq)]
struct Node {
    depth: u32,
    subtree: u32,
    reach: u32,
}

fn node() -> Node {
    Node { depth: 0, subtree: 0, reach: 0 }
}

// base <- 0 <- 1 <- 3
//          0 <- 2
// base <- 4
fn tree() -> Model<Node> {
    let parents = [None, Some(0), Some(0), Some(1), None];
    let joints = parents.iter().map(|p| Joint { parent: *p, data: node() }).collect();
    Model::new(Joint { parent: None, data: Node { depth: 0, subtree: 0, reach: 100 } }, joints)
}

#[test]
fn model_new_keeps_parts() {
    let m = tree();
    assert_eq!(m.joints.len(), 5);
    assert_eq!(m.joints[3].parent, Some(1));
    assert_eq!(m.base.data.reach, 100);
}

#[test]
fn sweeps_follow_the_tree() {
    let mut m = tree();
    articulated_body(
        &mut m,
        |j: &Node, p: Option<&Node>| Node { depth: p.map_or(1, |p| p.depth + 1), ..*j },
        |j: &Node| Node { subtree: j.subtree + 1, ..*j },
        |c: &Node, p: &Node| Node { subtree: p.subtree + c.subtree, ..*p },
        |j: &Node, src: &Node| Node { reach: src.reach + j.depth, ..*j },
    );
    let depths: Vec<u32> = m.joints.iter().map(|j| j.data.depth).collect();
    let subtrees: Vec<u32> = m.joints.iter().map(|j| j.data.subtree).collect();
    let reaches: Vec<u32> = m.joints.iter().map(|j| j.data.reach).collect();
    assert_eq!(depths, vec![1, 2, 2, 3, 1]);
    assert_eq!(subtrees, vec![4, 2, 1, 1, 1]);
    assert_eq!(reaches, vec![101, 103, 103, 106, 101]);
    let parents: Vec<Option<usize>> = m.joints.iter().map(|j| j.parent).collect();
    assert_eq!(parents, vec![None, Some(0), Some(0), Some(1), None]);
    assert_eq!(m.base.data.reach, 100);
}

#[test]
fn sweep_order_is_out_in_out() {
    let log: RefCell<Vec<(char, u32)>> = RefCell::new(Vec::new());
    let mut m = tree();
    // give every joint its own tag
    for (i, j) in m.joints.iter_mut().enumerate() {
        j.data.reach = i as u32;
    }
    articulated_body(
        &mut m,
        |j: &Node, _p: Option<&Node>| {
            log.borrow_mut().push(('k', j.reach));
            *j
        },
        |j: &Node| {
            log.borrow_mut().push(('t', j.reach));
            *j
        },
        |c: &Node, p: &Node| {
            log.borrow_mut().push(('p', c.reach * 10 + p.reach));
            *p
        },
        |j: &Node, _s: &Node| {
            log.borrow_mut().push(('a', j.reach));
            *j
        },
    );
    let expected = vec![
        ('k', 0), ('k', 1), ('k', 2), ('k', 3), ('k', 4),
        ('t', 4), ('t', 3), ('p', 31), ('t', 2), ('p', 20), ('t', 1), ('p', 10), ('t', 0),
        ('a', 0), ('a', 1), ('a', 2), ('a', 3), ('a', 4),
    ];
    assert_eq!(*log.borrow(), expected);
}

#[test]
fn update_runs_the_sweeps() {
    let mut m = tree();
    m.update(
        |j: &Node, p: Option<&Node>| Node { depth: p.map_or(1, |p| p.depth + 1), ..*j },
        |j: &Node| Node { subtree: j.subtree + 1, ..*j },
        |c: &Node, p: &Node| Node { subtree: p.subtree + c.subtree, ..*p },
        |j: &Node, src: &Node| Node { reach: src.reach + j.depth, ..*j },
    );
    assert_eq!(m.joints[3].data, Node { depth: 3, subtree: 1, reach: 106 });
    assert_eq!(m.joints[0].data, Node { depth: 1, subtree: 4, reach: 101 });
}

#[test]
fn empty_model_is_untouched() {
    let mut m: Model<Node> = Model::new(Joint { parent: None, data: node() }, Vec::new());
    articulated_body(
        &mut m,
        |j: &Node, _p: Option<&Node>| *j,
        |j: &Node| *j,
        |_c: &Node, p: &Node| *p,
        |j: &Node, _s: &Node| *j,
    );
    assert!(m.joints.is_empty());
}

#[test]
fn repeated_updates_keep_the_tree() {
    let mut m = tree();
    for _ in 0..3 {
        m.update(
            |j: &Node, p: Option<&Node>| Node { depth: p.map_or(1, |p| p.depth + 1), ..*j },
            |j: &Node| Node { subtree: 1, ..*j },
            |c: &Node, p: &Node| Node { subtree: p.subtree + c.subtree, ..*p },
            |j: &Node, src: &Node| Node { reach: src.reach + j.depth, ..*j },
        );
    }
    let parents: Vec<Option<usize>> = m.joints.iter().map(|j| j.parent).collect();
    assert_eq!(parents, vec![None, Some(0), Some(0), Some(1), None]);
    let depths: Vec<u32> = m.joints.iter().map(|j| j.data.depth).collect();
    assert_eq!(depths, vec![1, 2, 2, 3, 1]);
}

#[test]
fn parents_in_order_checks_the_tree() {
    assert!(tree().parents_in_order());
    let bad = Model::new(
        Joint { parent: None, data: node() },
        vec![Joint { parent: None, data: node() }, Joint { parent: Some(1), data: node() }],
    );
    assert!(!bad.parents_in_order());
    let forward = Model::new(
        Joint { parent: None, data: node() },
        vec![Joint { parent: Some(1), data: node() }, Joint { parent: None, data: node() }],
    );
    assert!(!forward.parents_in_order());
    let empty: Model<Node> = Model::new(Joint { parent: None, data: node() }, vec![]);
    assert!(empty.parents_in_order());
}

#[test]
fn state_accessors_read_in_joint_order() {
    let mut m = tree();
    for (i, j) in m.joints.iter_mut().enumerate() {
        j.data = Node { depth: i as u32, subtree: 10 + i as u32, reach: 20 + i as u32 };
    }
    let (q, qd) = m.get_state(|n: &Node| n.depth, |n: &Node| n.subtree);
    assert_eq!(q, vec![0, 1, 2, 3, 4]);
    assert_eq!(qd, vec![10, 11, 12, 13, 14]);
    let (v, a) = m.get_dstate(|n: &Node| n.subtree, |n: &Node| n.reach);
    assert_eq!(v, vec![10, 11, 12, 13, 14]);
    assert_eq!(a, vec![20, 21, 22, 23, 24]);
}

#[test]
fn set_state_pairs_up_to_the_shorter_list() {
    let mut m = tree();
    m.set_state(
        &vec![7u32, 8],
        &vec![1u32, 2, 3, 4, 5, 6, 7],
        |n: &Node, q: &u32| Node { depth: *q, ..*n },
        |n: &Node, qd: &u32| Node { subtree: *qd, ..*n },
    );
    let depths: Vec<u32> = m.joints.iter().map(|j| j.data.depth).collect();
    let subtrees: Vec<u32> = m.joints.iter().map(|j| j.data.subtree).collect();
    assert_eq!(depths, vec![7, 8, 0, 0, 0]);
    assert_eq!(subtrees, vec![1, 2, 3, 4, 5]);
    assert_eq!(m.joints[3].parent, Some(1));
}

#[test]
fn integrate_state_steps_every_joint() {
    let mut m = tree();
    for (i, j) in m.joints.iter_mut().enumerate() {
        j.data.depth = i as u32;
        j.data.subtree = 2;
    }
    m.integrate_state(|n: &Node| Node { depth: n.depth + 3 * n.subtree, ..*n });
    let depths: Vec<u32> = m.joints.iter().map(|j| j.data.depth).collect();
    assert_eq!(depths, vec![6, 7, 8, 9, 10]);
}

#[test]
fn same_model_same_sweeps() {
    let run = || {
        let mut m = tree();
        m.update(
            |j: &Node, p: Option<&Node>| Node { depth: p.map_or(1, |p| p.depth + 1), ..*j },
            |j: &Node| Node { subtree: j.subtree + 1, ..*j },
            |c: &Node, p: &Node| Node { subtree: p.subtree + c.subtree, ..*p },
            |j: &Node, src: &Node| Node { reach: src.reach + j.depth, ..*j },
        );
        m.joints.iter().map(|j| j.data).collect::<Vec<Node>>()
    };
    let mut m = tree();
    articulated_body(
        &mut m,
        |j: &Node, p: Option<&Node>| Node { depth: p.map_or(1, |p| p.depth + 1), ..*j },
        |j: &Node| Node { subtree: j.subtree + 1, ..*j },
        |c: &Node, p: &Node| Node { subtree: p.subtree + c.subtree, ..*p },
        |j: &Node, src: &Node| Node { reach: src.reach + j.depth, ..*j },
    );
    let direct: Vec<Node> = m.joints.iter().map(|j| j.data).collect();
    assert_eq!(run(), run());
    assert_eq!(run(), direct);
}
