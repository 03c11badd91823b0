use groundray::color::{combine_colors, Color};

#[test]
fn combine_averages_each_channel() {
    let a = Color::new(10, 20, 30);
    let b = Color::new(20, 40, 60);
    assert_eq!(combine_colors(a, b), Color::new(15, 30, 45));
}

#[test]
fn combine_rounds_down() {
    let black = Color::new(0, 0, 0);
    let white = Color::new(255, 255, 255);
    assert_eq!(combine_colors(black, white), Color::new(127, 127, 127));
    assert_eq!(combine_colors(white, black), Color::new(127, 127, 127));
}

#[test]
fn combine_equal_colors_is_identity() {
    let gray = Color::new(160, 160, 160);
    assert_eq!(combine_colors(gray, gray), gray);
}

#[test]
fn combine_handles_odd_sums() {
    let a = Color::new(1, 3, 5);
    let b = Color::new(2, 4, 6);
    // (1+2)/2 = 1, (3+4)/2 = 3, (5+6)/2 = 5, each rounded down
    assert_eq!(combine_colors(a, b), Color::new(1, 3, 5));
}
