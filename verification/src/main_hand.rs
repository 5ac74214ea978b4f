//! The block that the player holds in the main hand, and when its cube has
//! to be drawn anew.

use vstd::prelude::*;
use crate::block::BlockID;
use crate::shapes::{centered_unit_cube, cube_vertices, UVFaces, Vertex};
use crate::texture::TexturePack;

verus! {

/// The vertices of the cube that shows a held block: a whole unit cube
/// with its least corner at the origin and no occlusion.
pub open spec fn held_cube(layers: UVFaces) -> Seq<Vertex> {
    cube_vertices(
        0,
        0,
        0,
        layers,
        Seq::new(6, |f: int| true),
        Seq::new(6, |f: int| Seq::new(4, |c: int| 0u8)),
    )
}

/// What the render state of the hand holds, as plain values.
pub struct MainHandRenderView {
    /// Handle of the vertex array object that draws the held block.
    pub vao: u32,
    /// Handle of the buffer that holds the held block's vertices.
    pub vbo: u32,
    /// Whether the buffer no longer shows the held block.
    pub dirty: bool,
}

/// The buffers that the held block is drawn from, and whether their content
/// is out of date.
pub struct MainHandRender {
    vao: u32,
    pub vbo: u32,
    dirty: bool,
}

impl View for MainHandRender {
    type V = MainHandRenderView;

    closed spec fn view(&self) -> MainHandRenderView {
        MainHandRenderView { vao: self.vao, vbo: self.vbo, dirty: self.dirty }
    }
}

impl MainHandRender {
    /// A render state with no buffers attached, whose content is out of
    /// date.
    pub fn new() -> (render: MainHandRender)
        ensures
            render@ == (MainHandRenderView { vao: 0, vbo: 0, dirty: true }),
    {
        MainHandRender { vao: 0, vbo: 0, dirty: true }
    }

    /// Hands the render state the buffers that the held block is uploaded
    /// to. Whether the content is out of date stays as it was.
    pub fn attach_buffers(&mut self, vao: u32, vbo: u32)
        ensures
            final(self)@ == (MainHandRenderView { vao, vbo, ..old(self)@ }),
    {
        self.vao = vao;
        self.vbo = vbo;
    }

    /// Handle of the vertex array object that draws the held block; 0 while
    /// none is attached.
    pub fn vao(&self) -> (vao: u32)
        ensures
            vao == self@.vao,
    {
        self.vao
    }

    /// Whether the buffer no longer shows the held block.
    pub fn is_dirty(&self) -> (dirty: bool)
        ensures
            dirty == self@.dirty,
    {
        self.dirty
    }

    /// Where the buffer is out of date, returns the vertices of `item` that
    /// belong in it and marks the buffer up to date; where it is not,
    /// returns `None` and changes nothing.
    pub fn update_vbo_if_dirty(&mut self, item: BlockID, texture_pack: &TexturePack) -> (data:
        Option<Vec<Vertex>>)
        ensures
            old(self)@.dirty ==> data.is_some() && data.unwrap()@ == held_cube(
                texture_pack.layers(item),
            ) && final(self)@ == (MainHandRenderView { dirty: false, ..old(self)@ }),
            !old(self)@.dirty ==> data.is_none() && final(self)@ == old(self)@,
    {
        if self.dirty {
            let data = self.update_vbo(item, texture_pack);
            self.dirty = false;
            Some(data)
        } else {
            None
        }
    }

    /// The vertices of `item` that belong in the buffer: those of a whole
    /// cube that shows the item's textures.
    pub fn update_vbo(&self, item: BlockID, texture_pack: &TexturePack) -> (data: Vec<Vertex>)
        ensures
            data@ == held_cube(texture_pack.layers(item)),
            data@.len() == 36,
    {
        centered_unit_cube(0, 0, 0, texture_pack.get(item))
    }
}

/// What the hand holds, as plain values.
pub struct MainHandView {
    /// The block kind that the hand shows, if any.
    pub showing_item: Option<BlockID>,
    /// The render state.
    pub render: MainHandRenderView,
}

/// The player's main hand: the block that it shows, and the state of the
/// buffers that the block is drawn from.
pub struct MainHand {
    showing_item: Option<BlockID>,
    pub render: MainHandRender,
}

impl View for MainHand {
    type V = MainHandView;

    closed spec fn view(&self) -> MainHandView {
        MainHandView { showing_item: self.showing_item, render: self.render@ }
    }
}

impl MainHand {
    /// An empty hand, with a render state that has no buffers attached.
    pub fn new() -> (hand: MainHand)
        ensures
            hand@.showing_item.is_none(),
            hand@.render == (MainHandRenderView { vao: 0, vbo: 0, dirty: true }),
    {
        MainHand { showing_item: None, render: MainHandRender::new() }
    }

    /// The block kind that the hand shows, if any.
    pub fn showing_item(&self) -> (item: Option<BlockID>)
        ensures
            item == self@.showing_item,
    {
        self.showing_item
    }

    /// Puts `item` in the hand, or empties it, and marks the buffer out of
    /// date. The buffer handles stay as they were.
    pub fn set_showing_item(&mut self, item: Option<BlockID>)
        ensures
            final(self)@.showing_item == item,
            final(self)@.render == (MainHandRenderView { dirty: true, ..old(self)@.render }),
    {
        self.showing_item = item;
        self.render.dirty = true;
    }

    /// Where the hand shows a block and the buffer is out of date, returns
    /// the vertices that belong in the buffer and marks it up to date. An
    /// empty hand, or a buffer that is up to date, gives `None` and changes
    /// nothing.
    pub fn update_if_dirty(&mut self, texture_pack: &TexturePack) -> (data: Option<Vec<Vertex>>)
        ensures
            final(self)@.showing_item == old(self)@.showing_item,
            old(self)@.showing_item.is_some() && old(self)@.render.dirty ==> data.is_some()
                && data.unwrap()@ == held_cube(
                texture_pack.layers(old(self)@.showing_item.unwrap()),
            ) && final(self)@.render == (MainHandRenderView { dirty: false, ..old(self)@.render }),
            old(self)@.showing_item.is_none() || !old(self)@.render.dirty ==> data.is_none()
                && final(self)@ == old(self)@,
    {
        if let Some(item) = self.showing_item {
            self.render.update_vbo_if_dirty(item, texture_pack)
        } else {
            None
        }
    }
}

} // verus!
