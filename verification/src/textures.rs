//! The texture registry of `imgui`, which maps texture ids to the handles of shader resource views.

use imgui::Textures;
use vstd::prelude::*;

verus! {

#[verifier::external_type_specification]
#[verifier::external_body]
#[verifier::reject_recursive_types(T)]
pub struct ExTextures<T>(imgui::Textures<T>);

/// The handles that a registry holds, by the numbers of their texture ids.
pub uninterp spec fn texture_views(textures: Textures<u64>) -> Map<usize, u64>;

/// The number of the texture id that a registry gives next.
pub uninterp spec fn next_texture_id(textures: Textures<u64>) -> usize;

/// The contents of a registry that holds nothing.
pub open spec fn no_views() -> Map<usize, u64> {
    Map::empty()
}

/// The entry of a registry with the given number, if there is one.
pub open spec fn entry(views: Map<usize, u64>, id: usize) -> Option<u64> {
    if views.dom().contains(id) {
        Some(views[id])
    } else {
        None
    }
}

/// Calls `imgui::Textures::new`, which makes a registry that holds nothing and gives the id zero
/// next.
#[verifier::external_body]
pub(crate) fn new_textures() -> (textures: Textures<u64>)
    ensures
        texture_views(textures) == no_views(),
        next_texture_id(textures) == 0,
{
    Textures::new()
}

/// Calls `imgui::Textures::insert`, which puts a handle under the id that is next, in the place of
/// what is under that id, and counts the next id up by one. It is not called where that overflows.
#[verifier::external_body]
pub(crate) fn insert_texture(textures: &mut Textures<u64>, view: u64) -> (id: usize)
    requires
        next_texture_id(*old(textures)) < usize::MAX,
    ensures
        id == next_texture_id(*old(textures)),
        texture_views(*final(textures)) == texture_views(*old(textures)).insert(id, view),
        next_texture_id(*final(textures)) == next_texture_id(*old(textures)) + 1,
{
    textures.insert(view).id()
}

/// Calls `imgui::Textures::remove`, which takes out and returns the entry with the given id, or
/// returns nothing where the registry has no such entry. The id that is next stays.
#[verifier::external_body]
pub(crate) fn remove_texture(textures: &mut Textures<u64>, id: usize) -> (view: Option<u64>)
    ensures
        view == entry(texture_views(*old(textures)), id),
        texture_views(*final(textures)) == texture_views(*old(textures)).remove(id),
        next_texture_id(*final(textures)) == next_texture_id(*old(textures)),
{
    textures.remove(imgui::TextureId::from(id))
}

/// Calls `imgui::Textures::get`, which finds the entry with the given id, or nothing where the
/// registry has no such entry.
#[verifier::external_body]
pub(crate) fn get_texture(textures: &Textures<u64>, id: usize) -> (view: Option<u64>)
    ensures
        view == entry(texture_views(*textures), id),
{
    textures.get(imgui::TextureId::from(id)).copied()
}

} // verus!
