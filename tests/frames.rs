use mandelzoom::frames::frame_file_name;

#[test]
fn two_step_series_names() {
    let names: Vec<String> = (0..2).map(|i| frame_file_name("out.png", i).unwrap()).collect();
    assert_eq!(names, vec!["out-000.png".to_string(), "out-001.png".to_string()]);
}

#[test]
fn index_padding_widths() {
    assert_eq!(frame_file_name("zoom.png", 7), Some("zoom-007.png".to_string()));
    assert_eq!(frame_file_name("zoom.png", 42), Some("zoom-042.png".to_string()));
    assert_eq!(frame_file_name("zoom.png", 999), Some("zoom-999.png".to_string()));
    assert_eq!(frame_file_name("zoom.png", 1000), Some("zoom-1000.png".to_string()));
    assert_eq!(frame_file_name("z.png", u32::MAX), Some(format!("z-{}.png", u32::MAX)));
}

#[test]
fn extension_stops_at_second_dot() {
    assert_eq!(frame_file_name("a.b.c", 3), Some("a-003.b".to_string()));
    assert_eq!(frame_file_name(".png", 0), Some("-000.png".to_string()));
    assert_eq!(frame_file_name("out.", 0), Some("out-000.".to_string()));
}

#[test]
fn template_without_extension_is_refused() {
    assert_eq!(frame_file_name("out", 0), None);
    assert_eq!(frame_file_name("", 5), None);
}
