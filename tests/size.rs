use dirsize::size::{size_of, FsNode};

fn file(len: u64) -> FsNode {
    FsNode::File(Some(len))
}

fn dir(children: Vec<FsNode>) -> FsNode {
    FsNode::Dir(Some(children))
}

#[test]
fn size_of_file_is_its_length() {
    assert_eq!(size_of(&file(0)), 0);
    assert_eq!(size_of(&file(4096)), 4096);
}

#[test]
fn size_of_flat_directory_is_sum() {
    assert_eq!(size_of(&dir(vec![file(1), file(20), file(300)])), 321);
    assert_eq!(size_of(&dir(vec![])), 0);
}

#[test]
fn size_of_nested_directories_sums_leaves() {
    let inner = dir(vec![file(20)]);
    let tree = dir(vec![file(10), inner, dir(vec![dir(vec![file(5)])])]);
    assert_eq!(size_of(&tree), 35);
}

#[test]
fn size_of_unreadable_parts_count_zero() {
    assert_eq!(size_of(&FsNode::File(None)), 0);
    assert_eq!(size_of(&FsNode::Dir(None)), 0);
    assert_eq!(size_of(&FsNode::Other), 0);
    let tree = dir(vec![file(7), FsNode::Dir(None), FsNode::Other, FsNode::File(None)]);
    assert_eq!(size_of(&tree), 7);
}

#[test]
fn size_of_saturates_at_largest_value() {
    let tree = dir(vec![file(u64::MAX), file(1), file(2)]);
    assert_eq!(size_of(&tree), u64::MAX);
}
