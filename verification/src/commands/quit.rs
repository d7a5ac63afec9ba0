//! quit: ends the application.
use vstd::prelude::*;

use super::Command;
use crate::app::{App, AppView};

verus! {

pub struct Cmd;

impl Command for Cmd {
    open spec fn name_text(&self) -> Seq<char> {
        "quit"@
    }

    open spec fn help_text(&self) -> Seq<char> {
        "終了（Esc でも可）"@
    }

    open spec fn outcome(&self, before: AppView) -> AppView {
        before.quit()
    }

    fn name(&self) -> (r: &'static str) {
        "quit"
    }

    fn help(&self) -> (r: &'static str) {
        "終了（Esc でも可）"
    }

    fn run(&self, app: &mut App) {
        app.quit();
    }
}

} // verus!
