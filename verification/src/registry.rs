//! The texture registry: identifiers that draw commands carry, resolved to
//! the textures the device can bind.

use imgui::TextureId;
use imgui::Textures;
use vstd::prelude::*;

verus! {

/// The identifier reserved for the font atlas texture. It is never looked up
/// in the registry.
pub const FONT_TEX_ID: usize = usize::MAX;

/// A device texture, held by the address of its interface pointer.
pub type TextureHandle = usize;

/// `imgui::Textures`: the map from texture identifiers to what a renderer
/// stores for them. Nothing is known of its inside.
#[verifier::external_type_specification]
#[verifier::external_body]
#[verifier::reject_recursive_types(T)]
pub struct ExTextures<T>(Textures<T>);

/// The entries of a registry: each identifier in use with the handle stored
/// under it.
pub uninterp spec fn entries(textures: Textures<usize>) -> Map<usize, usize>;

/// `imgui::Textures::new`: builds the registry around a fresh map, so it
/// starts without entries.
#[verifier::external_body]
pub(crate) fn empty_registry() -> (registry: Textures<usize>)
    ensures
        entries(registry).dom() == Set::<usize>::empty(),
{
    Textures::new()
}

/// `imgui::Textures::get`: a read of the underlying map at the identifier's
/// number, giving the stored handle, or nothing where the identifier is not in
/// use.
#[verifier::external_body]
pub(crate) fn registry_get(textures: &Textures<usize>, id: usize) -> (found: Option<usize>)
    ensures
        found == (if entries(*textures).contains_key(id) {
            Some(entries(*textures)[id])
        } else {
            None
        }),
{
    textures.get(TextureId::new(id)).copied()
}

/// The handle a caller finds under an identifier: the one stored for it, and
/// nothing for an identifier that is not in use or is the reserved one.
pub open spec fn stored(registry: Map<usize, usize>, id: usize) -> Option<TextureHandle> {
    if id != FONT_TEX_ID && registry.contains_key(id) {
        Some(registry[id])
    } else {
        None
    }
}

/// Looks a texture up by its identifier.
pub fn lookup_texture(textures: &Textures<usize>, id: usize) -> (handle: Option<TextureHandle>)
    ensures
        handle == stored(entries(*textures), id),
{
    if id == FONT_TEX_ID {
        None
    } else {
        registry_get(textures, id)
    }
}

/// What a draw command's texture identifier stands for.
#[derive(Clone, Copy, Debug, PartialEq, Eq, Structural)]
pub enum TextureSource {
    /// The renderer's own font atlas texture.
    FontAtlas,
    /// A texture the caller registered, with the handle stored for it.
    Registered { id: usize, handle: TextureHandle },
}

/// The texture an identifier denotes, given the registry's entries: the font
/// atlas for the reserved identifier whatever the registry holds, the stored
/// handle for an identifier in use, and nothing otherwise.
pub open spec fn resolve(registry: Map<usize, usize>, id: usize) -> Option<TextureSource> {
    if id == FONT_TEX_ID {
        Some(TextureSource::FontAtlas)
    } else if registry.contains_key(id) {
        Some(TextureSource::Registered { id, handle: registry[id] })
    } else {
        None
    }
}

/// Resolves a draw command's texture identifier against the registry.
pub fn resolve_texture(textures: &Textures<usize>, id: usize) -> (source: Option<TextureSource>)
    ensures
        source == resolve(entries(*textures), id),
{
    if id == FONT_TEX_ID {
        Some(TextureSource::FontAtlas)
    } else {
        match registry_get(textures, id) {
            Some(handle) => Some(TextureSource::Registered { id, handle }),
            None => None,
        }
    }
}

} // verus!
