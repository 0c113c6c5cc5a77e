use vstd::prelude::*;

verus! {

/// A sprite to be XOR-ed onto the display: its origin and its rows, one byte
/// per row, the most significant bit leftmost.
#[derive(Debug, PartialEq, Eq)]
pub struct Sprite {
    pub v_x: usize,
    pub v_y: usize,
    pub buf: Vec<u8>,
}

/// One display mutation, as the machine hands it to a renderer.
#[derive(Debug, PartialEq, Eq)]
pub enum DrawJob {
    Draw(Sprite),
    Clear,
}

/// The mathematical value of a [`Sprite`].
pub struct SpriteView {
    pub x: int,
    pub y: int,
    pub rows: Seq<u8>,
}

/// The mathematical value of a [`DrawJob`].
pub enum DrawJobView {
    Draw(SpriteView),
    Clear,
}

impl View for Sprite {
    type V = SpriteView;

    open spec fn view(&self) -> SpriteView {
        SpriteView { x: self.v_x as int, y: self.v_y as int, rows: self.buf@ }
    }
}

impl View for DrawJob {
    type V = DrawJobView;

    open spec fn view(&self) -> DrawJobView {
        match *self {
            DrawJob::Draw(sprite) => DrawJobView::Draw(sprite@),
            DrawJob::Clear => DrawJobView::Clear,
        }
    }
}

} // verus!
