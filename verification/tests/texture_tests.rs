use voxel_orbit::color::dirt_palette_color;
use voxel_orbit::color::grass_palette_color;
use voxel_orbit::color::Rgba;
use voxel_orbit::texture::create_dirt_texture;
use voxel_orbit::texture::create_grass_texture;

fn rgba(red: u16, green: u16, blue: u16, alpha: u16) -> Rgba {
    Rgba { red, green, blue, alpha }
}

#[test]
fn grass_palette_entries_are_exact() {
    assert_eq!(grass_palette_color(0), rgba(0, 196, 0, 1000));
    assert_eq!(grass_palette_color(1), rgba(0, 592, 0, 1000));
    assert_eq!(grass_palette_color(2), rgba(0, 424, 0, 1000));
    // Indices past the palette fall back to the last entry.
    assert_eq!(grass_palette_color(7), rgba(0, 424, 0, 1000));
}

#[test]
fn dirt_palette_entries_are_exact() {
    assert_eq!(dirt_palette_color(0), rgba(494, 176, 0, 1000));
    assert_eq!(dirt_palette_color(1), rgba(494, 176, 0, 1000));
    assert_eq!(dirt_palette_color(2), rgba(424, 165, 0, 1000));
    assert_eq!(dirt_palette_color(9), rgba(424, 165, 0, 1000));
}

#[test]
fn grass_texture_has_full_size_and_only_palette_colors() {
    let pixels = create_grass_texture();
    assert_eq!(pixels.len(), 256);
    for c in pixels {
        assert!(
            c == rgba(0, 196, 0, 1000) || c == rgba(0, 592, 0, 1000) || c == rgba(0, 424, 0, 1000)
        );
    }
}

#[test]
fn dirt_texture_has_full_size_and_only_palette_colors() {
    let pixels = create_dirt_texture();
    assert_eq!(pixels.len(), 256);
    for c in pixels {
        assert!(c == rgba(494, 176, 0, 1000) || c == rgba(424, 165, 0, 1000));
    }
}
