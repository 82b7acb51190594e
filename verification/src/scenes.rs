//! The application's example scenes: the opening splash and the main menu,
//! and the tagged variant that lets one scene manager own both.

pub mod menu;
pub mod opening;

use vstd::prelude::*;

use crate::elements::scenes::{AsScene, CommandView, HostFrame, SceneCommand};
use menu::{spec_menu_loaded, MainScreen};
use opening::Opening;

verus! {

/// One of the application's scenes. The scene manager is generic over a
/// single scene type, so heterogeneous registries hold this tagged variant
/// and dispatch on it.
pub enum AppScene {
    Opening(Opening),
    Menu(MainScreen),
}

impl AsScene for AppScene {
    open spec fn inv(&self) -> bool {
        match self {
            AppScene::Opening(o) => o.inv(),
            AppScene::Menu(m) => m.inv(),
        }
    }

    open spec fn spec_name(&self) -> Seq<char> {
        match self {
            AppScene::Opening(o) => o.spec_name(),
            AppScene::Menu(m) => m.spec_name(),
        }
    }

    /// The wrapped scene's reply, verbatim.
    open spec fn spec_reply(self, host: HostFrame) -> CommandView {
        match self {
            AppScene::Opening(o) => o.spec_reply(host),
            AppScene::Menu(m) => m.spec_reply(host),
        }
    }

    /// An update keeps the variant and steps the wrapped scene.
    open spec fn spec_step(self, host: HostFrame, after: Self) -> bool {
        match (self, after) {
            (AppScene::Opening(o), AppScene::Opening(o2)) => o.spec_step(host, o2),
            (AppScene::Menu(m), AppScene::Menu(m2)) => m.spec_step(host, m2),
            _ => false,
        }
    }

    fn name(&self) -> (r: String) {
        match self {
            AppScene::Opening(o) => o.name(),
            AppScene::Menu(m) => m.name(),
        }
    }

    /// Keeps the variant and loads the wrapped scene, carrying the leaf
    /// scenes' load contracts through the dispatch enum.
    fn load(&mut self, host: &HostFrame)
        ensures
            match (*old(self), *final(self)) {
                (AppScene::Opening(o), AppScene::Opening(o2)) => o2 == o,
                (AppScene::Menu(m), AppScene::Menu(m2)) => spec_menu_loaded(m, m2),
                _ => false,
            },
    {
        match self {
            AppScene::Opening(o) => o.load(host),
            AppScene::Menu(m) => m.load(host),
        }
    }

    fn update(&mut self, host: &HostFrame) -> (cmd: SceneCommand) {
        match self {
            AppScene::Opening(o) => o.update(host),
            AppScene::Menu(m) => m.update(host),
        }
    }

    /// Keeps the variant and the wrapped scene untouched, as the leaf
    /// scenes' unloads do.
    fn unload(&mut self, host: &HostFrame)
        ensures
            *final(self) == *old(self),
    {
        match self {
            AppScene::Opening(o) => o.unload(host),
            AppScene::Menu(m) => m.unload(host),
        }
    }
}

} // verus!
