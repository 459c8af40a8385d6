use swapsync::format::{
    choose_surface_format, SurfaceFormat, COLOR_SPACE_SRGB_NONLINEAR, FORMAT_B8G8R8A8_SRGB,
};

const FORMAT_R8G8B8A8_SRGB: u32 = 43;
const COLOR_SPACE_LINEAR_EXT: u32 = 1000104002;

#[test]
fn falls_back_to_first_reported_format() {
    // The surface offers RGBA in the non-linear sRGB space and BGRA in a
    // linear space: no BGRA-sRGB/non-linear pair, so the first listed format
    // is chosen deterministically.
    let formats = vec![
        SurfaceFormat { format: FORMAT_R8G8B8A8_SRGB, color_space: COLOR_SPACE_SRGB_NONLINEAR },
        SurfaceFormat { format: FORMAT_B8G8R8A8_SRGB, color_space: COLOR_SPACE_LINEAR_EXT },
    ];
    let chosen = choose_surface_format(&formats).unwrap();
    assert_eq!(chosen, formats[0]);
    assert_eq!(chosen.format, FORMAT_R8G8B8A8_SRGB);
    assert_eq!(chosen.color_space, COLOR_SPACE_SRGB_NONLINEAR);
}

#[test]
fn prefers_bgra_srgb_nonlinear() {
    let formats = vec![
        SurfaceFormat { format: FORMAT_R8G8B8A8_SRGB, color_space: COLOR_SPACE_SRGB_NONLINEAR },
        SurfaceFormat { format: FORMAT_B8G8R8A8_SRGB, color_space: COLOR_SPACE_SRGB_NONLINEAR },
    ];
    let chosen = choose_surface_format(&formats).unwrap();
    assert_eq!(chosen.format, FORMAT_B8G8R8A8_SRGB);
    assert_eq!(chosen.color_space, COLOR_SPACE_SRGB_NONLINEAR);
}

#[test]
fn takes_first_preferred_pair() {
    let preferred =
        SurfaceFormat { format: FORMAT_B8G8R8A8_SRGB, color_space: COLOR_SPACE_SRGB_NONLINEAR };
    let formats = vec![
        SurfaceFormat { format: FORMAT_B8G8R8A8_SRGB, color_space: COLOR_SPACE_LINEAR_EXT },
        preferred,
        preferred,
    ];
    let chosen = choose_surface_format(&formats).unwrap();
    assert_eq!(chosen, preferred);
}

#[test]
fn empty_format_list_yields_nothing() {
    let formats: Vec<SurfaceFormat> = Vec::new();
    assert!(choose_surface_format(&formats).is_none());
}
