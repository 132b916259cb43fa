use ardoise::draw::PixelWrite;
use ardoise::draw_buffer;
use ardoise::imagery::Area;
use ardoise::imagery::Imagery;
use ardoise::it8951::IT;
use ardoise::pixel::Bgr8;

fn area(width: u16, height: u16) -> Area {
    Area {
        x: 0,
        y: 0,
        width,
        height,
        bgr_vec: vec![Bgr8 { b: 0, g: 0, r: 0 }; width as usize * height as usize],
    }
}

fn write(x: u16, y: u16, width: u16, color: u8) -> PixelWrite {
    PixelWrite { x, y, width, color }
}

#[test]
fn packed_greys_are_drawn_row_by_row() {
    let imagery = Imagery::new(1872, 1404, 1920, 1080, 0);
    let writes = imagery.draw_buffer_4bpp(&area(4, 2), &vec![10, 11, 12, 13]);
    assert_eq!(
        writes,
        vec![
            write(0, 0, 2, 10),
            write(1, 0, 2, 11),
            write(0, 1, 2, 12),
            write(1, 1, 2, 13),
        ]
    );
}

#[test]
fn packed_greys_are_held_to_the_panel() {
    let imagery = Imagery::new(2, 1, 1920, 1080, 0);
    // rows of four bytes, of which the panel's width lets two through, and
    // of two rows the panel's height lets one through
    let writes = imagery.draw_buffer_4bpp(&area(8, 2), &vec![1, 2, 3, 4, 5, 6, 7, 8]);
    assert_eq!(writes, vec![write(0, 0, 1, 1), write(1, 0, 1, 2)]);
}

#[test]
fn packed_greys_stop_where_the_bytes_end() {
    let imagery = Imagery::new(1872, 1404, 1920, 1080, 0);
    // three bytes make one full row of two
    let writes = imagery.draw_buffer_4bpp(&area(4, 3), &vec![1, 2, 3]);
    assert_eq!(writes, vec![write(0, 0, 2, 1), write(1, 0, 2, 2)]);
}

#[test]
fn greys_are_drawn_into_the_frame_buffer() {
    let mut it = IT::new();
    it.load_buffer_from_vec(vec![0; 6]);
    let it = draw_buffer(&area(2, 2), &vec![1, 2, 3, 4], it);
    assert_eq!(it.frame_buffer(), &vec![1, 2, 3, 4, 0, 0]);
}

#[test]
fn greys_drawn_later_overwrite_earlier_ones() {
    // a region wider than is drawn in full: each row of 1874 greys writes
    // 1873 bytes into rows of 1872, so the last byte of a row lands where
    // the next row begins
    let width = 1874usize;
    let mut grey = vec![0u8; 2 * width];
    grey[1872] = 7; // row 0, column 1872
    grey[width] = 9; // row 1, column 0
    grey[width + 1872] = 5; // row 1, column 1872
    let mut it = IT::new();
    it.load_buffer_from_vec(vec![1; 2 * 1872 + 1]);
    let it = draw_buffer(&area(1874, 2), &grey, it);
    let buffer = it.frame_buffer();
    assert_eq!(buffer.len(), 2 * 1872 + 1);
    assert_eq!(buffer[0], 0);
    assert_eq!(buffer[1872], 9);
    assert_eq!(buffer[2 * 1872], 5);
}
