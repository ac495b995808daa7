use bishbash::colour::{
    circular_distance, contrasts, first_contrasting, opposite_hue, random_colour, FULL_TURN, HUE_THRESHOLD,
};
use rand::Rng;

#[test]
fn distance_goes_the_short_way_round() {
    assert_eq!(circular_distance(35900, 100), 200);
    assert_eq!(circular_distance(100, 35900), 200);
    assert_eq!(circular_distance(0, 18000), 18000);
    assert_eq!(circular_distance(1000, 5000), 4000);
    assert_eq!(circular_distance(7, 7), 0);
}

#[test]
fn contrast_threshold_is_forty_degrees() {
    assert!(contrasts(4000, 0));
    assert!(!contrasts(3999, 0));
    assert!(contrasts(32000, 0));
    assert!(!contrasts(32001, 0));
}

#[test]
fn opposite_hue_is_half_a_turn_away() {
    assert_eq!(opposite_hue(100), 18100);
    assert_eq!(opposite_hue(20000), 2000);
}

#[test]
fn random_colour_stands_out_from_any_reference() {
    let mut rng = rand::thread_rng();
    for _ in 0..10000 {
        let reference = rng.gen_range(0..FULL_TURN);
        let hue = random_colour(reference);
        assert!(hue < FULL_TURN);
        assert!(circular_distance(hue, reference) >= HUE_THRESHOLD);
    }
}

#[test]
fn random_colour_varies() {
    let hues: Vec<u32> = (0..100).map(|_| random_colour(0)).collect();
    assert!(hues.iter().any(|&h| h != hues[0]));
}

#[test]
fn first_contrasting_draw_is_taken() {
    assert_eq!(first_contrasting(&vec![34200, 18000], 0), 18000);
    assert_eq!(first_contrasting(&vec![1800, 18000], 0), 18000);
    assert_eq!(first_contrasting(&vec![18000, 0], 18000), 0);
    assert_eq!(first_contrasting(&vec![5000, 9000], 0), 5000);
}

#[test]
fn no_contrasting_draw_gives_opposite_hue() {
    assert_eq!(first_contrasting(&vec![], 100), 18100);
    assert_eq!(first_contrasting(&vec![0, 3999, 32001], 0), 18000);
}
