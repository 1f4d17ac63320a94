use clear_frame::surface::{select_format, SurfaceFormat};

#[test]
fn first_srgb_format_wins() {
    let formats = vec![
        SurfaceFormat { id: 1, srgb: false },
        SurfaceFormat { id: 2, srgb: true },
        SurfaceFormat { id: 3, srgb: true },
    ];
    assert_eq!(select_format(&formats), Some(SurfaceFormat { id: 2, srgb: true }));
}

#[test]
fn srgb_leading_format_wins() {
    let formats = vec![
        SurfaceFormat { id: 9, srgb: true },
        SurfaceFormat { id: 1, srgb: false },
    ];
    assert_eq!(select_format(&formats), Some(SurfaceFormat { id: 9, srgb: true }));
}

#[test]
fn without_srgb_the_first_format_wins() {
    let formats = vec![
        SurfaceFormat { id: 4, srgb: false },
        SurfaceFormat { id: 5, srgb: false },
    ];
    assert_eq!(select_format(&formats), Some(SurfaceFormat { id: 4, srgb: false }));
}

#[test]
fn no_formats_means_no_choice() {
    let formats: Vec<SurfaceFormat> = Vec::new();
    assert_eq!(select_format(&formats), None);
}
