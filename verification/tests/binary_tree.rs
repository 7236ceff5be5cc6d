use gap_buffer::binary_tree::BinaryTree;
use gap_buffer::binary_tree::BinaryTree::Empty;
use gap_buffer::binary_tree::BinaryTree::NonEmpty;
use gap_buffer::binary_tree::TreeIter;
use gap_buffer::binary_tree::TreeNode;
use rand::prelude::Rng;
use rand::rngs::ThreadRng;
use rand::thread_rng;

type Triple = (&'static str, BinaryTree<&'static str>, BinaryTree<&'static str>);

use std::mem::size_of;

#[test]
fn binary_tree_size() {
    let word = size_of::<usize>();
    assert_eq!(size_of::<BinaryTree<String>>(), word);
    assert_eq!(size_of::<Triple>(), 4 * word);
}

#[test]
fn build_binary_tree() {
    let jupiter_tree = NonEmpty(Box::new(TreeNode {
        element: "Jupiter",
        left: Empty,
        right: Empty,
    }));

    let mercury_tree = NonEmpty(Box::new(TreeNode {
        element: "Mercury",
        left: Empty,
        right: Empty,
    }));

    let mars_tree = NonEmpty(Box::new(TreeNode {
        element: "Mars",
        left: jupiter_tree,
        right: mercury_tree,
    }));

    let venus_tree = NonEmpty(Box::new(TreeNode {
        element: "Venus",
        left: Empty,
        right: Empty,
    }));

    let uranus_tree = NonEmpty(Box::new(TreeNode {
        element: "Uranus",
        left: Empty,
        right: venus_tree,
    }));

    let tree = NonEmpty(Box::new(TreeNode {
        element: "Saturn",
        left: mars_tree,
        right: uranus_tree,
    }));

    assert_eq!(tree.walk(),
               vec!["Jupiter", "Mars", "Mercury", "Saturn", "Uranus", "Venus"]);
}

#[test]
fn test_add_method_1() {
    let planets = vec!["Mercury", "Venus", "Mars", "Jupiter", "Saturn", "Uranus"];
    let mut tree = BinaryTree::Empty;
    for planet in planets {
        tree.add(planet);
    }

    assert_eq!(tree.walk(),
               vec!["Jupiter", "Mars", "Mercury", "Saturn", "Uranus", "Venus"]);
}

#[test]
fn test_add_method_2() {
    let mut tree = BinaryTree::Empty;
    tree.add("Mercury");
    tree.add("Venus");
    for planet in vec!["Mars", "Jupiter", "Saturn", "Uranus"] {
        tree.add(planet);
    }

    assert_eq!(
        tree.walk(),
        vec!["Jupiter", "Mars", "Mercury", "Saturn", "Uranus", "Venus"]
    );
}

fn make_node<T>(left: BinaryTree<T>, element: T, right: BinaryTree<T>) -> BinaryTree<T> {
    NonEmpty(Box::new(TreeNode { left, element, right }))
}

fn collect_elements<'a, T>(mut iter: TreeIter<'a, T>) -> Vec<&'a T> {
    let mut v = Vec::new();
    while let Some(element) = iter.next() {
        v.push(element);
    }
    v
}

#[test]
fn external_iterator() {
    // Build a small tree.
    let mut tree = BinaryTree::Empty;
    tree.add("jaeger");
    tree.add("robot");
    tree.add("droid");
    tree.add("mecha");

    // Iterate over it.
    let mut v = Vec::new();
    let mut iter = tree.iter();
    while let Some(kind) = iter.next() {
        v.push(*kind);
    }
    assert_eq!(v, ["droid", "jaeger", "mecha", "robot"]);

    let mut mega = Vec::new();
    let mut iter = tree.iter();
    while let Some(name) = iter.next() {
        mega.push(format!("mega-{}", name));
    }
    assert_eq!(mega,
               vec!["mega-droid", "mega-jaeger",
                    "mega-mecha", "mega-robot"]);

    let mut iterator = tree.iter();
    assert_eq!(iterator.next(), Some(&"droid"));
    assert_eq!(iterator.next(), Some(&"jaeger"));
    assert_eq!(iterator.next(), Some(&"mecha"));
    assert_eq!(iterator.next(), Some(&"robot"));
    assert_eq!(iterator.next(), None);

    // Construct a tree by hand.
    let left_subtree = make_node(Empty, "mecha", Empty);
    let right_subtree = make_node(make_node(Empty, "droid", Empty),
                                  "robot",
                                  Empty);
    let tree = make_node(left_subtree, "Jaeger", right_subtree);

    // Try initializing the traversal ourselves and see if it runs.
    let mut v = Vec::new();
    let mut iter = TreeIter { unvisited: vec![] };
    iter.push_left_edge(&tree);
    while let Some(kind) = iter.next() {
        v.push(*kind);
    }
    assert_eq!(v, ["mecha", "Jaeger", "droid", "robot"]);

    // Iterate by shared reference.
    let mut v = Vec::new();
    let mut iter = tree.iter();
    while let Some(kind) = iter.next() {
        v.push(*kind);
    }
    assert_eq!(v, ["mecha", "Jaeger", "droid", "robot"]);

    // Iterate once more, collecting the references.
    let v: Vec<&&str> = collect_elements(tree.iter());
    let copied: Vec<&str> = v.into_iter().copied().collect();
    assert_eq!(copied, ["mecha", "Jaeger", "droid", "robot"]);
}

fn make(p: f32, next: &mut i32, rng: &mut ThreadRng) -> BinaryTree<i32> {
    if rng.gen_range(0.0..1.0) > p {
        Empty
    } else {
        let left = make(p * p, next, rng);
        let element = *next;
        *next += 1;
        let right = make(p * p, next, rng);
        NonEmpty(Box::new(TreeNode { left, element, right }))
    }
}

fn make_random_tree(p: f32) -> BinaryTree<i32> {
    make(p, &mut 0, &mut thread_rng())
}

#[test]
fn fuzz() {
    for _ in 0..100 {
        let tree = make_random_tree(0.9999);
        let mut state = Some(0);
        let mut iter = tree.iter();
        while let Some(&i) = iter.next() {
            state = state.and_then(|expected| {
                if i == expected { Some(expected + 1) } else { None }
            });
        }
        assert!(state.is_some());
    }
}
