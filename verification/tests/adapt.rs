use ardoise::imagery::Image;
use ardoise::imagery::Imagery;
use ardoise::pixel::Bgr8;

fn numbered(count: u8) -> Vec<Bgr8> {
    (0..count).map(|i| Bgr8 { b: i, g: i, r: i }).collect()
}

fn white() -> Bgr8 {
    Bgr8 { b: 255, g: 255, r: 255 }
}

#[test]
fn adapting_cuts_a_larger_frame_to_the_panel() {
    let imagery = Imagery::new(2, 2, 4, 3, 0);
    let frame = numbered(12);
    let image = Image::new(frame.clone(), 4, 3);
    let adapted = imagery.get_slice_adapted_to_eink_size(&image);
    assert_eq!(adapted, vec![frame[0], frame[1], frame[4], frame[5]]);
}

#[test]
fn adapting_fills_a_smaller_frame_with_white_at_the_end() {
    let imagery = Imagery::new(3, 2, 2, 1, 0);
    let frame = numbered(2);
    let image = Image::new(frame.clone(), 2, 1);
    let adapted = imagery.get_slice_adapted_to_eink_size(&image);
    assert_eq!(
        adapted,
        vec![frame[0], frame[1], white(), white(), white(), white()]
    );
}

#[test]
fn adapting_a_panel_sized_frame_keeps_it() {
    let imagery = Imagery::new(3, 2, 3, 2, 0);
    let frame = numbered(6);
    let image = Image::new(frame.clone(), 3, 2);
    assert_eq!(imagery.get_slice_adapted_to_eink_size(&image), frame);
}

#[test]
fn adapting_gives_one_pixel_per_panel_cell() {
    let imagery = Imagery::new(1872, 1404, 1920, 1080, 0);
    let image = Image::new(vec![Bgr8 { b: 0, g: 0, r: 0 }; 1920 * 1080], 1920, 1080);
    let adapted = imagery.get_slice_adapted_to_eink_size(&image);
    assert_eq!(adapted.len(), 1872 * 1404);
    assert_eq!(adapted[1872 * 1080 - 1], Bgr8 { b: 0, g: 0, r: 0 });
    assert_eq!(adapted[1872 * 1080], white());
}
