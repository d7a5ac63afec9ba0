//! help: lists the registered commands, then the prompt's other uses.
use vstd::prelude::*;

use super::{command_help, command_name, registry, registry_spec, Command, CommandId};
use crate::app::{App, AppView};
use crate::history::lemma_capped_push;
use crate::text::{pad_right, push_padded, push_str, string_of};

verus! {

pub struct Cmd;

/// The column that the labels of the help listing are padded to.
pub const LABEL_WIDTH: usize = 8;

/// One line of the help listing: two spaces, `label` padded to `LABEL_WIDTH`, then `text`.
pub open spec fn help_line(label: Seq<char>, text: Seq<char>) -> Seq<char> {
    seq![' ', ' '] + pad_right(label, LABEL_WIDTH as nat) + text
}

/// The help listing: one line per registered command in registry order, then the
/// shell prefix and the completion keys.
pub open spec fn help_lines() -> Seq<Seq<char>> {
    registry_spec().map_values(|id: CommandId| help_line(command_name(id), command_help(id)))
        + seq![
        help_line("!<cmd>"@, "シェルを実行（例: !ls -la）"@),
        help_line("Tab"@, "補完 / ↑↓ で候補選択"@),
    ]
}

fn help_line_text(label: &str, text: &str) -> (r: String)
    ensures
        r@ == help_line(label@, text@),
{
    let mut line: Vec<char> = Vec::new();
    line.push(' ');
    line.push(' ');
    push_padded(&mut line, label, LABEL_WIDTH);
    push_str(&mut line, text);
    assert(line@ =~= help_line(label@, text@));
    string_of(line.as_slice())
}

impl Command for Cmd {
    open spec fn name_text(&self) -> Seq<char> {
        "help"@
    }

    open spec fn help_text(&self) -> Seq<char> {
        "コマンド一覧を表示"@
    }

    open spec fn outcome(&self, before: AppView) -> AppView {
        before.with_lines(help_lines())
    }

    fn name(&self) -> (r: &'static str) {
        "help"
    }

    fn help(&self) -> (r: &'static str) {
        "コマンド一覧を表示"
    }

    fn run(&self, app: &mut App) {
        let ghost start = app@;
        let ghost all = help_lines();
        let reg = registry();
        let mut i: usize = 0;
        while i < reg.len()
            invariant
                reg@ == registry_spec(),
                i <= reg@.len(),
                app.wf(),
                all == help_lines(),
                app@ == start.with_lines(all.take(i as int)),
            decreases reg@.len() - i,
        {
            let id = reg[i];
            let line = help_line_text(id.name(), id.help());
            let ghost before = app@;
            app.push_output(line);
            proof {
                lemma_capped_push(start.output + all.take(i as int), line@);
                assert(all[i as int] == help_line(command_name(reg@[i as int]), command_help(reg@[i as int])));
                assert(start.output + all.take(i + 1) =~= (start.output + all.take(i as int)).push(line@));
            }
            i = i + 1;
        }
        let line = help_line_text("!<cmd>", "シェルを実行（例: !ls -la）");
        app.push_output(line);
        proof {
            lemma_capped_push(start.output + all.take(4), line@);
            assert(all[4] == line@);
            assert(start.output + all.take(5) =~= (start.output + all.take(4)).push(line@));
        }
        let line = help_line_text("Tab", "補完 / ↑↓ で候補選択");
        app.push_output(line);
        proof {
            lemma_capped_push(start.output + all.take(5), line@);
            assert(all[5] == line@);
            assert(start.output + all.take(6) =~= (start.output + all.take(5)).push(line@));
            assert(all.take(6) =~= all);
        }
    }
}

} // verus!
