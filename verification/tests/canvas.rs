use canvas_paint::canvas::sprite::{switch_textures, CanvasTexture, TextureId};
use canvas_paint::canvas::{center, size, HEIGHT, WIDTH, WORKGROUP_SIZE};

fn textures() -> CanvasTexture {
    CanvasTexture { texture_a: TextureId::Index(7), texture_b: TextureId::Index((1u64 << 32) | 7) }
}

#[test]
fn shows_b_after_a() {
    let t = textures();
    assert_eq!(switch_textures(&t, t.texture_a), t.texture_b);
}

#[test]
fn shows_a_after_b() {
    let t = textures();
    assert_eq!(switch_textures(&t, t.texture_b), t.texture_a);
}

#[test]
fn shows_a_after_any_other_texture() {
    let t = textures();
    assert_eq!(switch_textures(&t, TextureId::Uuid(7)), t.texture_a);
    assert_eq!(switch_textures(&t, TextureId::Index(8)), t.texture_a);
}

#[test]
fn switching_twice_restores_the_texture() {
    let t = CanvasTexture { texture_a: TextureId::Uuid(1), texture_b: TextureId::Index(1) };
    for start in [t.texture_a, t.texture_b] {
        assert_eq!(switch_textures(&t, switch_textures(&t, start)), start);
    }
}

#[test]
fn equal_textures_always_show_the_same() {
    let t = CanvasTexture { texture_a: TextureId::Index(3), texture_b: TextureId::Index(3) };
    assert_eq!(switch_textures(&t, TextureId::Index(3)), TextureId::Index(3));
}

#[test]
fn canvas_dimensions() {
    assert_eq!(size(), (5760, 5760));
    assert_eq!((WIDTH, HEIGHT), (1920 * 3, 1920 * 3));
    assert_eq!(center(), (2880, 2880));
    assert_eq!(WIDTH % WORKGROUP_SIZE, 0);
}
