//! clear: empties the output history.
use vstd::prelude::*;

use super::Command;
use crate::app::{App, AppView};

verus! {

pub struct Cmd;

impl Command for Cmd {
    open spec fn name_text(&self) -> Seq<char> {
        "clear"@
    }

    open spec fn help_text(&self) -> Seq<char> {
        "出力を消去"@
    }

    open spec fn outcome(&self, before: AppView) -> AppView {
        before.output_cleared()
    }

    fn name(&self) -> (r: &'static str) {
        "clear"
    }

    fn help(&self) -> (r: &'static str) {
        "出力を消去"
    }

    fn run(&self, app: &mut App) {
        app.clear_output();
    }
}

} // verus!
