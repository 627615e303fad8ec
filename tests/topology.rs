use chip_map::topology::{
    board_layout, coordinates_for, infer_chips_per_domain, num_domains, section_split,
    upstream_neighbor_indices,
};

#[test]
fn section_split_gives_odd_domain_to_bottom() {
    assert_eq!(section_split(6), (3, 3));
    assert_eq!(section_split(7), (4, 3));
    assert_eq!(section_split(2), (1, 1));
    assert_eq!(section_split(1), (1, 0));
    assert_eq!(section_split(0), (1, 0));
}

#[test]
fn domains_round_up() {
    assert_eq!(num_domains(9, 3), 3);
    assert_eq!(num_domains(10, 3), 4);
    assert_eq!(num_domains(0, 3), 0);
}

#[test]
fn coordinates_follow_flat_index() {
    let c = coordinates_for(4, 3, 9);
    assert_eq!((c.domain, c.row, c.is_top_section), (1, 1, false));
    let c = coordinates_for(7, 3, 9);
    assert_eq!((c.domain, c.row, c.is_top_section), (2, 1, true));
    let c = coordinates_for(3, 1, 6);
    assert!(c.is_top_section);
    let c = coordinates_for(2, 1, 6);
    assert!(!c.is_top_section);
}

#[test]
fn neighbors_follow_airflow() {
    // bottom section: upstream is the lower domain
    assert_eq!(upstream_neighbor_indices(4, 3, 9), vec![1, 3, 5]);
    // top section intake domain: no upstream
    assert_eq!(upstream_neighbor_indices(7, 3, 9), vec![6, 8]);
    // top section: upstream is the higher domain
    assert_eq!(upstream_neighbor_indices(3, 1, 6), vec![4]);
    // first domain: no upstream
    assert_eq!(upstream_neighbor_indices(0, 1, 6), Vec::<usize>::new());
    // ragged last domain: a missing row is left out
    assert_eq!(upstream_neighbor_indices(10, 3, 11), vec![9]);
    assert_eq!(upstream_neighbor_indices(9, 3, 10), Vec::<usize>::new());
}

#[test]
fn inferred_chips_per_domain() {
    assert_eq!(infer_chips_per_domain(120), 2);
    assert_eq!(infer_chips_per_domain(300), 3);
    assert_eq!(infer_chips_per_domain(500), 5);
    assert_eq!(infer_chips_per_domain(14), 2);
    assert_eq!(infer_chips_per_domain(7), 3);
    assert_eq!(infer_chips_per_domain(0), 2);
    assert_eq!(infer_chips_per_domain(25), 5);
}

#[test]
fn layout_draws_snake_sections() {
    assert_eq!(
        board_layout(6, 1, false),
        vec![vec![Some(3), Some(4), Some(5)], vec![Some(2), Some(1), Some(0)]]
    );
    assert_eq!(
        board_layout(9, 3, false),
        vec![
            vec![Some(6)],
            vec![Some(7)],
            vec![Some(8)],
            vec![Some(3), Some(0)],
            vec![Some(4), Some(1)],
            vec![Some(5), Some(2)],
        ]
    );
    assert_eq!(
        board_layout(9, 3, true),
        vec![
            vec![Some(8)],
            vec![Some(7)],
            vec![Some(6)],
            vec![Some(5), Some(2)],
            vec![Some(4), Some(1)],
            vec![Some(3), Some(0)],
        ]
    );
}

#[test]
fn layout_leaves_missing_chips_blank() {
    assert_eq!(
        board_layout(10, 3, false),
        vec![
            vec![Some(6), Some(9)],
            vec![Some(7), None],
            vec![Some(8), None],
            vec![Some(3), Some(0)],
            vec![Some(4), Some(1)],
            vec![Some(5), Some(2)],
        ]
    );
    assert_eq!(board_layout(0, 3, false), vec![vec![None], vec![None], vec![None]]);
    assert!(board_layout(5, 0, false).is_empty());
}
