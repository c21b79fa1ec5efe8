use vstd::prelude::*;

verus! {

/// The identity of an image asset, as the asset server tells one asset from
/// another: by its slot in the asset storage or by a fixed UUID.
#[derive(Clone, Copy, Debug, PartialEq, Eq, Structural)]
pub enum TextureId {
    /// An asset stored at an index of the asset storage, with the generation of
    /// that index, packed in one number as the asset server packs them.
    Index(u64),
    /// An asset named by a UUID.
    Uuid(u128),
}

/// The two textures that the canvas is painted into, in turn.
#[derive(Clone, Copy, Debug, PartialEq, Eq, Structural)]
pub struct CanvasTexture {
    pub texture_a: TextureId,
    pub texture_b: TextureId,
}

/// The texture that the canvas sprite shows next when it shows `displayed`.
pub open spec fn next_texture(canvas_texture: CanvasTexture, displayed: TextureId) -> TextureId {
    if displayed == canvas_texture.texture_a {
        canvas_texture.texture_b
    } else {
        canvas_texture.texture_a
    }
}

/// Swaps the texture that the canvas sprite shows: it shows texture B after
/// texture A, and texture A after anything else.
pub fn switch_textures(canvas_texture: &CanvasTexture, displayed: TextureId) -> (next: TextureId)
    ensures
        next == next_texture(*canvas_texture, displayed),
{
    if displayed == canvas_texture.texture_a {
        canvas_texture.texture_b
    } else {
        canvas_texture.texture_a
    }
}

/// Whatever the sprite showed, after a switch it shows one of the canvas's two
/// textures.
pub proof fn switch_lands_on_canvas_texture(canvas_texture: CanvasTexture, displayed: TextureId)
    ensures
        next_texture(canvas_texture, displayed) == canvas_texture.texture_a
            || next_texture(canvas_texture, displayed) == canvas_texture.texture_b,
{
}

/// Switching twice from one of the canvas's two textures shows that texture
/// again: the sprite alternates between them.
pub proof fn switch_twice_restores(canvas_texture: CanvasTexture, displayed: TextureId)
    requires
        displayed == canvas_texture.texture_a || displayed == canvas_texture.texture_b,
    ensures
        next_texture(canvas_texture, next_texture(canvas_texture, displayed)) == displayed,
{
}

/// Where the two textures differ, a switch always changes what the sprite shows.
pub proof fn switch_changes_texture(canvas_texture: CanvasTexture, displayed: TextureId)
    requires
        canvas_texture.texture_a != canvas_texture.texture_b,
        displayed == canvas_texture.texture_a || displayed == canvas_texture.texture_b,
    ensures
        next_texture(canvas_texture, displayed) != displayed,
{
}

} // verus!
