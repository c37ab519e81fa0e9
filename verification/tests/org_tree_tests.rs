use erp_ai::iam_models::{Department, DepartmentTreeNode};
use erp_ai::org_tree::build_tree_structure;

fn dept(id: u128, parent: Option<u128>, name: &str) -> Department {
    Department {
        id,
        tenant_id: 1,
        name: name.to_string(),
        code: name.to_lowercase(),
        parent_id: parent,
        path: name.to_lowercase(),
        level: 0,
        description: None,
        is_active: true,
        created_at: 0,
        updated_at: 0,
    }
}

fn shape(nodes: &[DepartmentTreeNode]) -> String {
    let parts: Vec<String> = nodes
        .iter()
        .map(|n| {
            if n.children.is_empty() {
                n.department.name.clone()
            } else {
                format!("{}({})", n.department.name, shape(&n.children))
            }
        })
        .collect();
    parts.join(",")
}

#[test]
fn empty_list_gives_empty_chart() {
    assert!(build_tree_structure(Vec::new()).is_empty());
}

#[test]
fn single_root() {
    let roots = build_tree_structure(vec![dept(1, None, "Company")]);
    assert_eq!(shape(&roots), "Company");
}

#[test]
fn children_keep_list_order() {
    let roots = build_tree_structure(vec![
        dept(1, None, "Company"),
        dept(2, Some(1), "Hanoi"),
        dept(3, Some(1), "Saigon"),
        dept(4, Some(2), "Engineering"),
        dept(5, Some(2), "Sales"),
        dept(6, None, "Other"),
    ]);
    assert_eq!(shape(&roots), "Company(Hanoi(Engineering,Sales),Saigon),Other");
    assert_eq!(roots[0].children[0].children[1].department.id, 5);
}

#[test]
fn missing_parent_makes_a_root() {
    let roots = build_tree_structure(vec![dept(2, Some(99), "Orphan"), dept(3, Some(2), "Child")]);
    assert_eq!(shape(&roots), "Orphan(Child)");
}

#[test]
fn parent_listed_after_child_makes_child_a_root() {
    let roots = build_tree_structure(vec![dept(2, Some(1), "Child"), dept(1, None, "Parent")]);
    assert_eq!(shape(&roots), "Child,Parent");
}

#[test]
fn self_parent_is_a_root() {
    let roots = build_tree_structure(vec![dept(7, Some(7), "Loop")]);
    assert_eq!(shape(&roots), "Loop");
}

#[test]
fn duplicate_id_keeps_last_occurrence() {
    let roots = build_tree_structure(vec![
        dept(1, None, "First"),
        dept(2, Some(1), "A"),
        dept(1, None, "Second"),
        dept(3, Some(1), "B"),
    ]);
    // Only the last department with id 1 counts; it comes after "A", so "A" is a root.
    assert_eq!(shape(&roots), "A,Second(B)");
}

#[test]
fn every_department_is_placed_once() {
    let roots = build_tree_structure(vec![
        dept(1, None, "R"),
        dept(2, Some(1), "C1"),
        dept(3, Some(2), "C2"),
        dept(4, Some(3), "C3"),
        dept(5, Some(42), "R2"),
    ]);
    fn count(nodes: &[DepartmentTreeNode]) -> usize {
        nodes.iter().map(|n| 1 + count(&n.children)).sum()
    }
    assert_eq!(count(&roots), 5);
    for n in &roots[0].children {
        assert_eq!(n.department.parent_id, Some(roots[0].department.id));
    }
}
