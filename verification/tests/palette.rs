use interactive_wallpaper::palette::PaletteName;

const ALL: [PaletteName; 5] = [
    PaletteName::Ember,
    PaletteName::Ocean,
    PaletteName::Synth,
    PaletteName::Forest,
    PaletteName::Mono,
];

#[test]
fn ember_shades() {
    assert_eq!(
        PaletteName::Ember.colors(),
        [[255, 69, 0, 255], [255, 106, 0, 255], [255, 140, 66, 255], [255, 196, 92, 255]]
    );
}

#[test]
fn ocean_shades() {
    assert_eq!(
        PaletteName::Ocean.colors(),
        [[0, 71, 171, 255], [0, 180, 216, 255], [72, 202, 228, 255], [144, 224, 239, 255]]
    );
}

#[test]
fn synth_shades() {
    assert_eq!(
        PaletteName::Synth.colors(),
        [[106, 13, 173, 255], [201, 24, 74, 255], [255, 93, 143, 255], [255, 179, 198, 255]]
    );
}

#[test]
fn forest_shades() {
    assert_eq!(
        PaletteName::Forest.colors(),
        [[45, 106, 79, 255], [64, 145, 108, 255], [82, 183, 136, 255], [149, 213, 178, 255]]
    );
}

#[test]
fn mono_shades() {
    assert_eq!(
        PaletteName::Mono.colors(),
        [[255, 255, 255, 255], [217, 217, 217, 255], [166, 166, 166, 255], [115, 115, 115, 255]]
    );
}

#[test]
fn every_shade_is_opaque() {
    for p in ALL {
        for c in p.colors() {
            assert_eq!(c[3], 255);
        }
    }
}

#[test]
fn shades_of_a_palette_differ() {
    for p in ALL {
        let c = p.colors();
        for i in 0..4 {
            for j in 0..4 {
                if i != j {
                    assert_ne!(c[i], c[j]);
                }
            }
        }
    }
}
