use ardoise::imagery::Imagery;
use ardoise::pixel::Bgr8;

fn black() -> Bgr8 {
    Bgr8 { b: 0, g: 0, r: 0 }
}

fn white() -> Bgr8 {
    Bgr8 { b: 255, g: 255, r: 255 }
}

#[test]
fn test_determine_changed_zone() {
    let imagery = Imagery::new(1872, 1404, 5, 1080, 0);
    let black = black();
    let white = white();

    let old_slice = &[
        white, white, black, black, white, /**/
        white, white, black, black, white,
    ];
    let new_slice = &[
        white, white, white, white, white, /**/
        white, white, white, white, white,
    ];

    let geometry: Option<[Option<u16>; 4]> = imagery.determine_changed_zone(old_slice, new_slice);
    assert_ne!(geometry, None);

    let min_changed_line_number: u16 = geometry.unwrap()[0].unwrap();
    let max_changed_line_number: u16 = geometry.unwrap()[1].unwrap();
    let min_changed_col_number: u16 = geometry.unwrap()[2].unwrap();
    let max_changed_col_number: u16 = geometry.unwrap()[3].unwrap();

    assert_eq!(min_changed_line_number, 0);
    assert_eq!(max_changed_line_number, 1);
    assert_eq!(min_changed_col_number, 2);
    assert_eq!(max_changed_col_number, 3);
}

#[test]
fn test_determine_changed_zone_2() {
    let imagery = Imagery::new(1872, 1404, 5, 1080, 0);
    let black = black();
    let white = white();

    let old_slice = &[
        white, white, white, black, white, /**/
        white, white, white, black, white,
    ];
    let new_slice = &[
        white, white, white, white, white, /**/
        white, white, white, white, white,
    ];

    let geometry: Option<[Option<u16>; 4]> = imagery.determine_changed_zone(old_slice, new_slice);
    assert_ne!(geometry, None);

    let min_changed_line_number: u16 = geometry.unwrap()[0].unwrap();
    let max_changed_line_number: u16 = geometry.unwrap()[1].unwrap();
    let min_changed_col_number: u16 = geometry.unwrap()[2].unwrap();
    let max_changed_col_number: u16 = geometry.unwrap()[3].unwrap();

    assert_eq!(min_changed_line_number, 0);
    assert_eq!(max_changed_line_number, 1);
    assert_eq!(min_changed_col_number, 3);
    assert_eq!(max_changed_col_number, 3);
}

#[test]
fn test_determine_changed_zone_3() {
    let imagery = Imagery::new(1872, 1404, 8, 1080, 0);
    let black = black();
    let white = white();

    let old_slice = &[
        white, white, white, white, white, white, white, white, /**/
        white, white, white, white, black, white, white, white,
    ];
    let new_slice = &[
        white, white, white, white, white, white, white, white, /**/
        white, white, white, white, white, white, white, white,
    ];

    let geometry: Option<[Option<u16>; 4]> = imagery.determine_changed_zone(old_slice, new_slice);
    assert_ne!(geometry, None);

    let min_changed_line_number: u16 = geometry.unwrap()[0].unwrap();
    let max_changed_line_number: u16 = geometry.unwrap()[1].unwrap();
    let min_changed_col_number: u16 = geometry.unwrap()[2].unwrap();
    let max_changed_col_number: u16 = geometry.unwrap()[3].unwrap();

    assert_eq!(min_changed_line_number, 1);
    assert_eq!(max_changed_line_number, 1);
    assert_eq!(min_changed_col_number, 4);
    assert_eq!(max_changed_col_number, 4);
}

#[test]
fn test_determine_changed_zone_whole() {
    let imagery = Imagery::new(1872, 1404, 1920, 1080, 0);
    let black = black();
    let white = white();

    let old_slice = &[white; 2 * 1920];
    let new_slice = &[black; 2 * 1920];

    let geometry: Option<[Option<u16>; 4]> = imagery.determine_changed_zone(old_slice, new_slice);
    assert_ne!(geometry, None);

    let min_changed_line_number: u16 = geometry.unwrap()[0].unwrap();
    let max_changed_line_number: u16 = geometry.unwrap()[1].unwrap();
    let min_changed_col_number: u16 = geometry.unwrap()[2].unwrap();
    let max_changed_col_number: u16 = geometry.unwrap()[3].unwrap();

    assert_eq!(min_changed_line_number, 0);
    assert_eq!(max_changed_line_number, 1);
    assert_eq!(min_changed_col_number, 0);
    assert_eq!(max_changed_col_number, 1871);
}

#[test]
fn test_determine_changed_zone_nothing() {
    let imagery = Imagery::new(1872, 1404, 5, 1080, 0);
    let white = white();

    let old_slice = &[
        white, white, white, white, white, /**/
        white, white, white, white, white,
    ];
    let new_slice = &[
        white, white, white, white, white, /**/
        white, white, white, white, white,
    ];

    let geometry: Option<[Option<u16>; 4]> = imagery.determine_changed_zone(old_slice, new_slice);
    assert_eq!(geometry, None);
}

#[test]
fn test_area() {
    let imagery = Imagery::new(1872, 1404, 5, 1080, 0);
    let black = black();
    let white = white();

    let old_slice = &[
        white, white, white, white, white, /**/
        white, white, white, white, white,
    ];
    let new_slice = &[
        white, black, white, white, white, /**/
        white, black, white, white, white,
    ];

    let geometry: Option<[Option<u16>; 4]> = imagery.determine_changed_zone(old_slice, new_slice);
    assert_ne!(geometry, None);

    let min_changed_line_number: u16 = geometry.unwrap()[0].unwrap();
    let max_changed_line_number: u16 = geometry.unwrap()[1].unwrap();
    let min_changed_col_number: u16 = geometry.unwrap()[2].unwrap();
    let max_changed_col_number: u16 = geometry.unwrap()[3].unwrap();

    assert_eq!(min_changed_line_number, 0);
    assert_eq!(max_changed_line_number, 1);
    assert_eq!(min_changed_col_number, 1);
    assert_eq!(max_changed_col_number, 1);

    let changed_area_x: u16 = min_changed_col_number;
    let changed_area_y: u16 = min_changed_line_number;

    let changed_area_width: u16 = max_changed_col_number - min_changed_col_number + 1;
    let changed_area_height: u16 = max_changed_line_number - min_changed_line_number + 1;

    let geometry: [u16; 4] = [
        changed_area_x,
        changed_area_y,
        changed_area_width,
        changed_area_height,
    ];

    let area = imagery.create_pixel_area(geometry, new_slice);
    assert_ne!(area, None);

    let area = area.unwrap();

    assert_eq!(area.x, 0);
    assert_eq!(area.y, 0);
    assert_eq!(area.width, 4);
    assert_eq!(area.height, 2);

    assert_eq!(
        area.bgr_vec,
        vec![white, black, white, white, white, black, white, white]
    );

    let mut y: u16 = 0;
    for grey_chunks in area.bgr_vec.chunks_exact((area.width / 2) as usize) {
        let mut x = 0;
        for _grey in grey_chunks.iter() {
            x += 1;
        }
        assert_eq!(2, x);

        y += 1;
    }
    assert_eq!(4, y);
}

#[test]
fn zone_is_tight_around_scattered_changes() {
    let imagery = Imagery::new(1872, 1404, 6, 1080, 0);
    let white = white();
    let black = black();
    let old = vec![white; 6 * 5];
    let mut new = old.clone();
    new[1 * 6 + 4] = black;
    new[3 * 6 + 2] = black;
    new[2 * 6 + 5] = black;
    let zone = imagery.determine_changed_zone(&old, &new);
    assert_eq!(zone, Some([Some(1), Some(3), Some(2), Some(5)]));
}

#[test]
fn zone_ignores_columns_beyond_the_panel() {
    // capture wider than the panel: column 1871 is the last one looked at
    let imagery = Imagery::new(1872, 1404, 1920, 1080, 0);
    let white = white();
    let black = black();
    let old = vec![white; 1920];
    let mut new = old.clone();
    new[1872] = black;
    new[1919] = black;
    assert_eq!(imagery.determine_changed_zone(&old, &new), None);
    new[1871] = black;
    assert_eq!(
        imagery.determine_changed_zone(&old, &new),
        Some([Some(0), Some(0), Some(1871), Some(1871)])
    );
}

#[test]
fn zone_ignores_rows_beyond_the_panel() {
    let imagery = Imagery::new(8, 2, 4, 4, 0);
    let white = white();
    let black = black();
    let old = vec![white; 4 * 4];
    let mut new = old.clone();
    new[2 * 4 + 1] = black;
    new[3 * 4 + 3] = black;
    assert_eq!(imagery.determine_changed_zone(&old, &new), None);
    new[1 * 4 + 1] = black;
    assert_eq!(
        imagery.determine_changed_zone(&old, &new),
        Some([Some(1), Some(1), Some(1), Some(1)])
    );
}

#[test]
fn zone_with_quarter_turn_pending_swaps_the_bounds() {
    // rows are held to the panel's width, columns to its height
    let imagery = Imagery::new(3, 2, 4, 4, 90);
    let white = white();
    let black = black();
    let old = vec![white; 4 * 4];
    let mut new = old.clone();
    new[0 * 4 + 2] = black; // column 2 is beyond the height of 2
    new[3 * 4 + 0] = black; // row 3 is beyond the width of 3
    assert_eq!(imagery.determine_changed_zone(&old, &new), None);
    new[2 * 4 + 1] = black;
    assert_eq!(
        imagery.determine_changed_zone(&old, &new),
        Some([Some(2), Some(2), Some(1), Some(1)])
    );
}

#[test]
fn zone_of_frames_of_unequal_length_covers_what_both_hold() {
    let imagery = Imagery::new(1872, 1404, 4, 4, 0);
    let white = white();
    let black = black();
    let old = vec![white; 6];
    let new = vec![black; 11];
    assert_eq!(
        imagery.determine_changed_zone(&old, &new),
        Some([Some(0), Some(1), Some(0), Some(3)])
    );
}

#[test]
fn zone_of_a_frame_with_itself_is_nothing() {
    let imagery = Imagery::new(1872, 1404, 7, 3, 0);
    let mut frame = Vec::new();
    for i in 0..21u8 {
        frame.push(Bgr8 { b: i, g: i.wrapping_mul(7), r: 255 - i });
    }
    assert_eq!(imagery.determine_changed_zone(&frame, &frame), None);
}

#[test]
fn zone_of_two_wide_rows_that_differ_in_two_columns() {
    let imagery = Imagery::new(1872, 1404, 1920, 1080, 0);
    let old = vec![white(); 2 * 1920];
    let mut new = old.clone();
    for row in 0..2 {
        new[row * 1920 + 2] = black();
        new[row * 1920 + 3] = black();
    }
    assert_eq!(
        imagery.determine_changed_zone(&old, &new),
        Some([Some(0), Some(1), Some(2), Some(3)])
    );
}
