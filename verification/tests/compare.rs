use ardoise::imagery::Area;
use ardoise::imagery::Image;
use ardoise::imagery::Imagery;
use ardoise::pixel::Bgr8;

fn black_pixel() -> Bgr8 {
    Bgr8 { b: 0, g: 0, r: 0 }
}

fn white_pixel() -> Bgr8 {
    Bgr8 { b: 255, g: 255, r: 255 }
}

#[test]
fn test_compare_slices() {
    let imagery = Imagery::new(1872, 1404, 12, 1080, 0);
    let black = black_pixel();
    let white = white_pixel();

    let old_slice = &[
        white, white, white, white, white, white, white, white, white, white, white,
        white, /**/
        white, white, white, white, white, white, white, white, white, white, white,
        white, /**/
        white, white, white, white, white, white, white, white, white, white, white,
        white, /**/
        white, white, white, white, white, white, white, white, white, white, white,
        white, /**/
    ];

    let new_slice = &[
        white, white, white, white, white, white, white, white, white, white, white,
        white, /**/
        white, white, white, white, black, black, white, white, black, white, white,
        white, /**/
        white, white, white, white, white, white, black, white, white, white, white,
        white, /**/
        white, white, white, white, white, white, white, white, white, white, white,
        white, /**/
    ];

    let area_option: Option<Area> = imagery.compare_image_slices(old_slice, new_slice);
    assert!(area_option.is_some());

    let area = area_option.unwrap();

    assert_eq!(area.x, 4);
    assert_eq!(area.y, 1);
    assert_eq!(area.width, 8);
    assert_eq!(area.height, 2);

    assert_eq!(area.bgr_vec.len(), 16);
    assert_eq!(
        area.bgr_vec,
        vec![
            black, black, white, white, black, white, white, white, /**/
            white, white, black, white, white, white, white, white
        ]
    );
}

#[test]
fn test_compare_slices_whole() {
    let imagery = Imagery::new(1872, 1404, 1920, 1080, 0);
    let black = black_pixel();
    let white = white_pixel();

    let old_slice = &[white; 1920];

    let new_slice = &[black; 1920];

    let area_option: Option<Area> = imagery.compare_image_slices(old_slice, new_slice);
    assert!(area_option.is_some());

    let area = area_option.unwrap();

    assert_eq!(area.x, 0);
    assert_eq!(area.y, 0);
    assert_eq!(area.width, 1872);
    assert_eq!(area.height, 1);

    assert_eq!(area.bgr_vec.len(), 1872);
    assert_eq!(area.bgr_vec, vec![black; 1872]);
}

#[test]
fn test_compare_slices_whole_minus_one() {
    // the capture is as wide as a 1920 by 1080 display
    let imagery = Imagery::new(1872, 1404, 1920, 1080, 0);
    let black = black_pixel();
    let white = white_pixel();

    let old_slice = &[white; (1872 * 2)];

    let mut new_vec: Vec<Bgr8> = vec![white];
    new_vec.extend_from_slice(&[black; (1871)]);
    let result_vec = new_vec.clone();
    new_vec.extend_from_slice(&[white; (1872)]);
    let new_slice = new_vec.as_slice();

    let area_option: Option<Area> = imagery.compare_image_slices(old_slice, new_slice);
    assert!(area_option.is_some());

    let area = area_option.unwrap();

    assert_eq!(area.x, 0);
    assert_eq!(area.y, 0);
    assert_eq!(area.width, 1872);
    assert_eq!(area.height, 1);

    assert_eq!(area.bgr_vec.len(), 1872);
    assert_eq!(area.bgr_vec, result_vec);
}

#[test]
fn test_compare_slices_whole_minus_one_2() {
    let imagery = Imagery::new(1872, 1404, 1872, 1080, 0);
    let black = black_pixel();
    let white = white_pixel();

    let old_slice = &[white; (1872 * 2)];

    let mut new_vec: Vec<Bgr8> = vec![black; 1871];
    new_vec.extend_from_slice(&[white]);
    let result_vec = new_vec.clone();
    new_vec.extend_from_slice(&[white; 1872]);
    let new_slice = new_vec.as_slice();

    let area_option: Option<Area> = imagery.compare_image_slices(old_slice, new_slice);
    assert!(area_option.is_some());

    let area = area_option.unwrap();

    assert_eq!(area.x, 0);
    assert_eq!(area.y, 0);
    assert_eq!(area.width, 1872);
    assert_eq!(area.height, 1);

    assert_eq!(area.bgr_vec.len(), 1872);
    assert_eq!(area.bgr_vec, result_vec);
}

#[test]
fn compare_of_a_frame_with_itself_is_nothing() {
    let imagery = Imagery::new(1872, 1404, 5, 4, 0);
    let mut frame = Vec::new();
    for i in 0..20u8 {
        frame.push(Bgr8 { b: i, g: 3 * i, r: 200 - i });
    }
    assert_eq!(imagery.compare_image_slices(&frame, &frame), None);
    assert_eq!(imagery.try_compare_image_slices(&frame, &frame), Some(None));

    let image = Image::new(frame.clone(), 5, 4);
    let same = Image::new(frame, 5, 4);
    assert!(image.is_some());
    assert_eq!(imagery.compare(&image, &same), None);
}

#[test]
fn compare_aligns_a_single_column_to_a_block_of_four() {
    // raw bounds column 1..1 give x = 0 and width 4
    let imagery = Imagery::new(1872, 1404, 8, 2, 0);
    let white = white_pixel();
    let black = black_pixel();
    let old = vec![white; 16];
    let mut new = old.clone();
    new[1] = black;
    let area = imagery.compare_image_slices(&old, &new).unwrap();
    assert_eq!((area.x, area.y, area.width, area.height), (0, 0, 4, 1));
    assert_eq!(area.bgr_vec, vec![white, black, white, white]);
}

#[test]
fn compare_rounds_start_down_and_width_up() {
    let imagery = Imagery::new(1872, 1404, 16, 3, 0);
    let white = white_pixel();
    let black = black_pixel();
    let old = vec![white; 48];
    let mut new = old.clone();
    new[16 + 6] = black;
    new[16 + 9] = black;
    let area = imagery.compare_image_slices(&old, &new).unwrap();
    // columns 6..=9 become 4..12
    assert_eq!((area.x, area.y, area.width, area.height), (4, 1, 8, 1));
    assert_eq!(
        area.bgr_vec,
        vec![white, white, black, white, white, black, white, white]
    );
}

#[test]
fn compare_shifts_left_where_the_panel_ends() {
    // a panel 10 wide: columns 8..=9 align to 8..12, which is past the panel,
    // so the start moves left by four and the width stays
    let imagery = Imagery::new(10, 4, 12, 1, 0);
    let white = white_pixel();
    let black = black_pixel();
    let old = vec![white; 12];
    let mut new = old.clone();
    new[8] = black;
    new[9] = black;
    let area = imagery.compare_image_slices(&old, &new).unwrap();
    assert_eq!((area.x, area.y, area.width, area.height), (4, 0, 4, 1));
    assert_eq!(area.bgr_vec, vec![white, white, white, white]);
}

#[test]
fn compare_with_quarter_turn_pending_aligns_rows() {
    let imagery = Imagery::new(1872, 1404, 3, 8, 90);
    let white = white_pixel();
    let black = black_pixel();
    let old = vec![white; 24];
    let mut new = old.clone();
    new[5 * 3 + 1] = black;
    let area = imagery.compare_image_slices(&old, &new).unwrap();
    // row 5 becomes rows 4..8, the column is left as it is
    assert_eq!((area.x, area.y, area.width, area.height), (1, 4, 1, 4));
    assert_eq!(area.bgr_vec, vec![white, black, white, white]);
}

#[test]
fn compare_with_another_rotation_aligns_nothing() {
    let imagery = Imagery::new(1872, 1404, 5, 2, 45);
    let white = white_pixel();
    let black = black_pixel();
    let old = vec![white; 10];
    let mut new = old.clone();
    new[6] = black;
    let area = imagery.compare_image_slices(&old, &new).unwrap();
    assert_eq!((area.x, area.y, area.width, area.height), (1, 1, 1, 1));
    assert_eq!(area.bgr_vec, vec![black]);
}

#[test]
fn compare_whole_panel_white_to_black() {
    let imagery = Imagery::new(1872, 1404, 1872, 1404, 0);
    let old = vec![white_pixel(); 1872 * 1404];
    let new = vec![black_pixel(); 1872 * 1404];
    let area = imagery.compare_image_slices(&old, &new).unwrap();
    assert_eq!((area.x, area.y, area.width, area.height), (0, 0, 1872, 1404));
    assert_eq!(area.bgr_vec.len(), 1872 * 1404);
    assert!(area.bgr_vec.iter().all(|p| *p == black_pixel()));
}

#[test]
fn compare_of_a_first_capture_is_held_against_white() {
    let imagery = Imagery::new(8, 2, 8, 2, 0);
    let white = white_pixel();
    let black = black_pixel();
    let mut pixels = vec![white; 16];
    pixels[8 + 5] = black;
    let new = Image::new(pixels, 8, 2);
    assert!(new.is_some());
    let area = imagery.compare(&None, &new).unwrap();
    assert_eq!((area.x, area.y, area.width, area.height), (4, 1, 4, 1));
    assert_eq!(area.bgr_vec, vec![white, black, white, white]);

    // a first capture that is all white changes nothing
    let blank = Image::new(vec![white; 16], 8, 2);
    assert_eq!(imagery.compare(&None, &blank), None);
}

#[test]
fn compare_without_a_new_capture_is_nothing() {
    let imagery = Imagery::new(8, 2, 8, 2, 0);
    let old = Image::new(vec![white_pixel(); 16], 8, 2);
    assert_eq!(imagery.compare(&old, &None), None);
    assert_eq!(imagery.try_compare(&old, &None), Some(None));
    assert_eq!(imagery.try_compare(&None, &None), Some(None));
}

#[test]
fn try_compare_refuses_an_empty_first_capture() {
    let imagery = Imagery::new(8, 2, 8, 2, 0);
    let empty = Image::new(Vec::new(), 0, 0);
    assert!(empty.is_some());
    assert_eq!(imagery.try_compare(&None, &empty), None);
}

#[test]
fn try_compare_refuses_rows_without_width() {
    let imagery = Imagery::new(8, 2, 0, 2, 0);
    let frame = vec![white_pixel(); 4];
    assert_eq!(imagery.try_compare_image_slices(&frame, &frame), None);
}

#[test]
fn try_compare_refuses_a_region_wider_than_the_capture() {
    // rows of two pixels cannot hold a region four wide
    let imagery = Imagery::new(1872, 1404, 2, 1080, 0);
    let old = vec![white_pixel(); 2900];
    let new = vec![black_pixel(); 2900];
    assert_eq!(
        imagery.determine_changed_zone(&old, &new),
        Some([Some(0), Some(1403), Some(0), Some(1)])
    );
    assert_eq!(imagery.try_compare_image_slices(&old, &new), None);
}

#[test]
fn try_compare_refuses_a_shift_below_column_zero() {
    // a panel 3 wide: columns 0..=2 align to 0..4, past the panel, and there
    // is no room to move left
    let imagery = Imagery::new(3, 4, 4, 1, 0);
    let old = vec![white_pixel(); 4];
    let new = vec![black_pixel(); 4];
    assert_eq!(imagery.try_compare_image_slices(&old, &new), None);
}

#[test]
fn try_compare_agrees_with_compare_where_defined() {
    let imagery = Imagery::new(1872, 1404, 12, 4, 0);
    let white = white_pixel();
    let black = black_pixel();
    let old = vec![white; 48];
    let mut new = old.clone();
    new[12 + 4] = black;
    new[24 + 10] = black;
    let tried = imagery.try_compare_image_slices(&old, &new);
    assert_eq!(tried, Some(imagery.compare_image_slices(&old, &new)));
    let area = tried.unwrap().unwrap();
    assert_eq!((area.x, area.y, area.width, area.height), (4, 1, 8, 2));
}

#[test]
fn create_pixel_area_of_an_aligned_rectangle_copies_it() {
    let imagery = Imagery::new(1872, 1404, 8, 3, 0);
    let mut frame = Vec::new();
    for i in 0..24u8 {
        frame.push(Bgr8 { b: i, g: i, r: i });
    }
    let area = imagery.create_pixel_area([4, 1, 4, 2], &frame).unwrap();
    assert_eq!((area.x, area.y, area.width, area.height), (4, 1, 4, 2));
    let expected: Vec<Bgr8> = [12u8, 13, 14, 15, 20, 21, 22, 23]
        .iter()
        .map(|i| Bgr8 { b: *i, g: *i, r: *i })
        .collect();
    assert_eq!(area.bgr_vec, expected);
}

#[test]
fn create_pixel_area_of_an_empty_rectangle_is_nothing() {
    let imagery = Imagery::new(1872, 1404, 8, 3, 0);
    let frame = vec![white_pixel(); 24];
    assert_eq!(imagery.create_pixel_area([4, 1, 0, 2], &frame), None);
    assert_eq!(imagery.create_pixel_area([4, 1, 4, 0], &frame), None);
}

#[test]
fn image_holds_one_pixel_per_cell() {
    assert!(Image::new(vec![white_pixel(); 6], 3, 2).is_some());
    assert!(Image::new(vec![white_pixel(); 5], 3, 2).is_none());
    let image = Image::new(vec![black_pixel(); 6], 3, 2).unwrap();
    assert_eq!(image.get_dimensions(), (3, 2));
    assert_eq!(image.as_slice(), &[black_pixel(); 6]);
}
