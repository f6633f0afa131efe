use microbit_kit::roulette::roulette_path;

#[test]
fn one_lap() {
    assert_eq!(
        roulette_path(),
        vec![
            (0, 0), (0, 1), (0, 2), (0, 3), (0, 4),
            (1, 4), (2, 4), (3, 4),
            (4, 4), (4, 3), (4, 2), (4, 1), (4, 0),
            (3, 0), (2, 0), (1, 0),
        ]
    );
}

#[test]
fn lap_runs_round_the_edge_without_jumps() {
    let p = roulette_path();
    for i in 0..p.len() {
        let (a, b) = (p[i], p[(i + 1) % p.len()]);
        let dist = a.0.abs_diff(b.0) + a.1.abs_diff(b.1);
        assert_eq!(dist, 1);
        assert!(a.0 == 0 || a.0 == 4 || a.1 == 0 || a.1 == 4);
    }
    let mut sorted = p.clone();
    sorted.sort();
    sorted.dedup();
    assert_eq!(sorted.len(), 16);
}
