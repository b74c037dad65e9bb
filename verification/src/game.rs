//! The game and the native objects it holds once it has run.

use vstd::prelude::*;
use crate::stage::{Event, Stage, Step};

verus! {

/// The native objects that the game keeps, each by the value of its handle.
/// The objects themselves stay with the driver that made them.
#[derive(Clone, Copy, Debug, PartialEq, Eq)]
pub struct Resources {
    /// Handle of the window.
    pub hwnd: isize,
    /// Address of the DXGI factory.
    pub factory: usize,
    /// Address of the adapter that the device was made on.
    pub adapter: usize,
    /// Address of the Direct3D 12 device.
    pub device: usize,
}

/// A bare-bones game: a titled window of a given size, and the graphics
/// objects behind it once they exist.
///
/// A game is brought up and run by a driver that makes the native calls. The
/// game says which call is next ([`BareBoneGame::step`]), the driver makes it
/// and hands back what it gave ([`BareBoneGame::advance`]), until the step is
/// [`Step::Finish`] or [`Step::Fail`].
#[derive(Debug)]
pub struct BareBoneGame {
    /// Title of the window.
    pub title: String,
    /// Width of the window and of the back buffers.
    pub width: u32,
    /// Height of the window and of the back buffers.
    pub height: u32,
    /// The objects the game holds: none until its message loop has ended.
    pub resources: Option<Resources>,
    /// How far the game has come.
    pub stage: Stage,
}

impl BareBoneGame {
    /// A game that has made no call yet: it holds nothing and awaits its
    /// window.
    pub fn new(title: String, width: u32, height: u32) -> (game: BareBoneGame)
        ensures
            game.title == title,
            game.width == width,
            game.height == height,
            game.resources.is_none(),
            game.stage == Stage::Window,
    {
        BareBoneGame { title, width, height, resources: None, stage: Stage::Window }
    }

    /// The native call that the game awaits the answer to.
    pub fn step(&self) -> (step: Step)
        ensures
            step == self.stage.request(self.width, self.height),
    {
        self.stage.step(self.width, self.height)
    }

    /// Tells whether `event` is an answer that the game can go on from.
    pub fn accepts(&self, event: &Event) -> (ok: bool)
        ensures
            ok == self.stage.admits(*event),
    {
        self.stage.accepts(event)
    }

    /// Takes the answer to the call that the game awaited and returns the
    /// call to make next. The game holds its resources from the moment its
    /// message loop has ended, and none before.
    pub fn advance(&mut self, event: Event) -> (step: Step)
        requires
            old(self).stage.admits(event),
        ensures
            final(self).stage == old(self).stage.after(event),
            final(self).resources == final(self).stage.kept(),
            final(self).title == old(self).title,
            final(self).width == old(self).width,
            final(self).height == old(self).height,
            step == final(self).stage.request(final(self).width, final(self).height),
    {
        let next = self.stage.advance(event);
        self.resources = next.resources();
        self.stage = next;
        next.step(self.width, self.height)
    }
}

} // verus!
