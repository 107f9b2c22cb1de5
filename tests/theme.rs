use pino::{fallback_colors, get_color, get_size, is_color_key, layout, pywal, window_origin, Pywal, Rect};

fn palette() -> Pywal {
    let c = |i: u32| format!("#0000{:02x}", i);
    Pywal {
        bg: "#101010".to_string(),
        fg: "#f0f0f0".to_string(),
        color0: c(0),
        color1: c(1),
        color2: c(2),
        color3: c(3),
        color4: c(4),
        color5: c(5),
        color6: c(6),
        color7: c(7),
        color8: c(8),
        color9: c(9),
        color10: c(10),
        color11: c(11),
        color12: c(12),
        color13: c(13),
        color14: c(14),
        color15: c(15),
    }
}

#[test]
fn every_key_names_its_colour() {
    let p = palette();
    assert_eq!(get_color(&p, "bg"), "#101010");
    assert_eq!(get_color(&p, "fg"), "#f0f0f0");
    for i in 0..16u32 {
        let key = format!("color{}", i);
        assert!(is_color_key(&p, &key));
        assert_eq!(get_color(&p, &key), format!("#0000{:02x}", i));
    }
}

#[test]
fn unknown_keys_are_not_colours() {
    let p = palette();
    for key in ["", "BG", "color16", "color01", "#000000", "background"] {
        assert!(!is_color_key(&p, key));
    }
}

#[test]
fn pywal_picks_four_colours() {
    let p = palette();
    let r = pywal(&p, "bg".to_string(), "color1".to_string(), "fg".to_string(), "color8".to_string());
    assert_eq!(r, ("#101010".to_string(), "#000001".to_string(), "#f0f0f0".to_string(), "#000008".to_string()));
}

#[test]
fn fallback_colours_default_each_part() {
    let r = fallback_colors(None, Some("#ffffff".to_string()), None, None);
    assert_eq!(r, ("#000000".to_string(), "#ffffff".to_string(), "#b8b8b8".to_string(), "#501701".to_string()));
    let d = fallback_colors(None, None, None, None);
    assert_eq!(d.1, "#62777d");
}

#[test]
fn placements_on_one_monitor() {
    let s = Rect { x: 0, y: 0, w: 1920, h: 1080 };
    let a = Rect { x: 25, y: 55, w: 400, h: 60 };
    assert_eq!(window_origin(Some("top_left"), s, a), (25, 55));
    assert_eq!(window_origin(Some("top_center"), s, a), (760, 55));
    assert_eq!(window_origin(Some("top_right"), s, a), (1495, 55));
    assert_eq!(window_origin(Some("bottom_left"), s, a), (25, 965));
    assert_eq!(window_origin(Some("bottom_center"), s, a), (760, 965));
    assert_eq!(window_origin(Some("bottom_right"), s, a), (1495, 965));
    assert_eq!(window_origin(Some("middle"), s, a), (20, 30));
    assert_eq!(window_origin(None, s, a), (760, 55));
}

#[test]
fn centering_rounds_toward_zero() {
    let s = Rect { x: 10, y: 0, w: 100, h: 100 };
    let a = Rect { x: 0, y: 0, w: 401, h: 10 };
    assert_eq!(window_origin(Some("top_center"), s, a), (10 - 150, 0));
}

#[test]
fn layout_of_default_window() {
    let l = layout(Rect { x: 0, y: 0, w: 400, h: 60 }, (2, 10), (5, 0), (10, 19));
    assert_eq!(l.inner, Rect { x: 7, y: 7, w: 386, h: 46 });
    assert_eq!(l.fill, Rect { x: 1, y: 1, w: 398, h: 58 });
    assert_eq!(l.title, Rect { x: 10, y: 20, w: 376, h: 36 });
    assert_eq!(l.message, Rect { x: 15, y: 39, w: 376, h: 36 });
    let odd = layout(Rect { x: 0, y: 0, w: 100, h: 100 }, (0, -3), (0, 0), (0, 0));
    assert_eq!(odd.inner, Rect { x: -1, y: -1, w: 103, h: 103 });
}

#[test]
fn size_by_side_words_ignores_case() {
    let screens = vec![Rect { x: 0, y: 0, w: 1920, h: 1080 }, Rect { x: 1920, y: 0, w: 1280, h: 1024 }];
    assert_eq!(get_size(&screens, 1, "TOP", "Right", 10, 20, 300, 100), (2890, 20, 300, 100));
    assert_eq!(get_size(&screens, 1, "bottom", "LEFT", 10, 20, 300, 100), (1930, 904, 300, 100));
    assert_eq!(get_size(&screens, 0, "top", "left", 10, 20, 300, 100), (10, 20, 300, 100));
    assert_eq!(get_size(&screens, 0, "Bottom", "right", 10, 20, 300, 100), (1610, 960, 300, 100));
    assert_eq!(get_size(&screens, 0, "middle", "left", 10, 20, 300, 100), (0, 0, 100, 100));
}
