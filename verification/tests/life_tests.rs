use game_of_life::life::GameOfLife;

/// Builds a grid with exactly the given flat indices live.
fn grid_from(width: usize, height: usize, live: &[usize]) -> GameOfLife {
    let mut cells = vec![false; width * height];
    for &i in live {
        cells[i] = true;
    }
    GameOfLife::from_cells(width, height, cells)
}

/// The flat indices of the live cells, in order.
fn live_indices(g: &GameOfLife) -> Vec<usize> {
    g.state
        .iter()
        .enumerate()
        .filter(|&(_, &alive)| alive)
        .map(|(i, _)| i)
        .collect()
}

#[test]
fn update_preserves_dimensions() {
    let mut g = grid_from(5, 4, &[3, 7, 8, 12]);
    g.update();
    assert_eq!(g.width, 5);
    assert_eq!(g.height, 4);
    assert_eq!(g.state.len(), 20);
}

#[test]
fn live_cells_with_two_or_three_neighbors_survive() {
    // An L-triomino: every live cell has two live neighbors, and the dead
    // cell completing the square has three, so one step forms a block.
    let mut g = grid_from(5, 5, &[6, 7, 11]);
    g.update();
    assert_eq!(live_indices(&g), vec![6, 7, 11, 12]);
}

#[test]
fn live_cells_with_zero_or_one_neighbor_die() {
    let mut lone = grid_from(5, 5, &[12]);
    lone.update();
    assert_eq!(live_indices(&lone), Vec::<usize>::new());

    let mut pair = grid_from(5, 5, &[11, 12]);
    pair.update();
    assert_eq!(live_indices(&pair), Vec::<usize>::new());
}

#[test]
fn live_cell_with_four_neighbors_dies() {
    // A plus: the center has four live neighbors and dies; each arm keeps
    // three and survives; four diagonal dead cells gain three and are born.
    let mut g = grid_from(5, 5, &[7, 11, 12, 13, 17]);
    g.update();
    assert_eq!(live_indices(&g), vec![6, 7, 8, 11, 13, 16, 17, 18]);
}

#[test]
fn dead_cell_with_three_neighbors_is_born() {
    // A horizontal blinker: the cells above and below the center have three
    // live neighbors and are born; the ends die with one neighbor each.
    let mut g = grid_from(5, 5, &[11, 12, 13]);
    g.update();
    assert_eq!(live_indices(&g), vec![7, 12, 17]);
    g.update();
    assert_eq!(live_indices(&g), vec![11, 12, 13]);
}

#[test]
fn update_is_deterministic() {
    let cells: Vec<bool> = (0..30).map(|i| i % 3 == 0 || i % 7 == 1).collect();
    let mut a = GameOfLife::from_cells(6, 5, cells.clone());
    let mut b = GameOfLife::from_cells(6, 5, cells);
    a.update();
    b.update();
    assert_eq!(a.state, b.state);
}

#[test]
fn block_still_life_is_fixed_point() {
    // A 2x2 block away from every edge: each live cell has three live
    // neighbors, no dead cell has more than two.
    let before = vec![14, 15, 20, 21];
    let mut g = grid_from(6, 6, &before);
    g.update();
    assert_eq!(live_indices(&g), before);
}

#[test]
fn all_dead_grid_stays_dead() {
    let mut g = grid_from(7, 3, &[]);
    g.update();
    assert_eq!(live_indices(&g), Vec::<usize>::new());
}

#[test]
fn count_excludes_the_cell_itself() {
    // A full 3x3 grid: the center sees all eight ring cells, not itself.
    let g = grid_from(3, 3, &[0, 1, 2, 3, 4, 5, 6, 7, 8]);
    assert_eq!(g.count_neighbours(4), 8);
}

#[test]
fn edge_quirk_last_column_counts_next_row() {
    // Only the first cell of the second row (flat index 4) is live; the
    // last cell of the first row (flat index 3) still counts it, because
    // the neighbor test bounds the flat index only and never clips rows.
    let g = grid_from(4, 2, &[4]);
    assert_eq!(g.count_neighbours(3), 1);

    // And symmetrically from the other side of the row boundary.
    let h = grid_from(4, 2, &[3]);
    assert_eq!(h.count_neighbours(4), 1);
}

#[test]
fn width_one_grid_counts_the_cell_itself_twice() {
    // With width 1 the two diagonal offsets collapse onto the cell itself,
    // so a lone live cell sees two "neighbors" and survives: the same flat
    // arithmetic quirk at its extreme.
    let mut g = grid_from(1, 1, &[0]);
    assert_eq!(g.count_neighbours(0), 2);
    g.update();
    assert_eq!(live_indices(&g), vec![0]);
}

#[test]
fn draw_all_dead_is_repeated_black() {
    let g = grid_from(3, 2, &[]);
    let mut frame = vec![1u8; 24];
    g.draw(&mut frame);
    assert_eq!(frame.len(), 24);
    for pixel in frame.chunks(4) {
        assert_eq!(pixel, [0x00, 0x00, 0x00, 0xff]);
    }
}

#[test]
fn draw_all_live_is_repeated_purple() {
    let g = grid_from(3, 2, &[0, 1, 2, 3, 4, 5]);
    let mut frame = vec![0u8; 24];
    g.draw(&mut frame);
    for pixel in frame.chunks(4) {
        assert_eq!(pixel, [0x5e, 0x48, 0xe8, 0xff]);
    }
}

#[test]
fn draw_mixed_grid_exact_bytes() {
    let g = grid_from(2, 1, &[1]);
    let mut frame = vec![9u8; 8];
    g.draw(&mut frame);
    assert_eq!(frame, vec![0x00, 0x00, 0x00, 0xff, 0x5e, 0x48, 0xe8, 0xff]);
}

#[test]
fn new_with_extreme_seed_probabilities() {
    // A draw from [0, 10) is never below 0 and always below 10, so these
    // two grids are forced despite the random source.
    let dead = GameOfLife::new(4, 3, 0, 10);
    assert_eq!(dead.width, 4);
    assert_eq!(dead.height, 3);
    assert_eq!(dead.state.len(), 12);
    assert!(dead.state.iter().all(|&c| !c));

    let live = GameOfLife::new(4, 3, 10, 10);
    assert_eq!(live.state.len(), 12);
    assert!(live.state.iter().all(|&c| c));
}
