use ardoise::imagery::Area;
use ardoise::imagery::Imagery;
use ardoise::pixel::Bgr8;

#[test]
fn test_rotation_90() {
    let imagery = Imagery::new(1872, 1404, 4, 1080, 90);
    let black = Bgr8 { b: 0, g: 0, r: 0 };
    let white = Bgr8 { b: 255, g: 255, r: 255 };

    let base_bgr_vec: Vec<Bgr8> = vec![white, black, black, white, white, black, black, white];

    let base_area = Area {
        x: 5,
        y: 10,
        width: 4,
        height: 2,
        bgr_vec: base_bgr_vec,
    };

    let rotated_area = imagery.rotate(base_area.clone(), 90);

    assert_eq!(
        rotated_area.x,
        imagery.eink_width - base_area.y - base_area.height
    );
    assert_eq!(rotated_area.y, base_area.x);
    assert_eq!(rotated_area.width, base_area.height);
    assert_eq!(rotated_area.height, base_area.width);

    let rotated_bgr_vec: Vec<Bgr8> = vec![white, white, black, black, black, black, white, white];

    assert_eq!(rotated_area.bgr_vec, rotated_bgr_vec);
}

#[test]
fn rotation_90_geometry() {
    let imagery = Imagery::new(1872, 1404, 4, 2, 90);
    let area = Area {
        x: 5,
        y: 10,
        width: 4,
        height: 2,
        bgr_vec: vec![Bgr8 { b: 0, g: 0, r: 0 }; 8],
    };
    let rotated = imagery.rotate(area, 90);
    assert_eq!((rotated.x, rotated.y, rotated.width, rotated.height), (1860, 5, 2, 4));
}

#[test]
fn rotation_90_turns_clockwise() {
    let imagery = Imagery::new(100, 100, 3, 2, 90);
    let p = |i: u8| Bgr8 { b: i, g: i, r: i };
    // 1 2 3
    // 4 5 6
    let area = Area {
        x: 0,
        y: 0,
        width: 3,
        height: 2,
        bgr_vec: vec![p(1), p(2), p(3), p(4), p(5), p(6)],
    };
    let rotated = imagery.rotate(area, 90);
    // 4 1
    // 5 2
    // 6 3
    assert_eq!(rotated.bgr_vec, vec![p(4), p(1), p(5), p(2), p(6), p(3)]);
    assert_eq!((rotated.x, rotated.y, rotated.width, rotated.height), (98, 0, 2, 3));
}

#[test]
fn rotation_by_other_angles_passes_through() {
    let imagery = Imagery::new(1872, 1404, 4, 2, 0);
    let p = |i: u8| Bgr8 { b: i, g: 0, r: i };
    let area = Area {
        x: 5,
        y: 10,
        width: 2,
        height: 2,
        bgr_vec: vec![p(1), p(2), p(3), p(4)],
    };
    for angle in [0u16, 180, 270, 45, 91, 360] {
        assert_eq!(imagery.rotate(area.clone(), angle), area);
    }
}
