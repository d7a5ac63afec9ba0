//! The prompt's commands, one file each. `registry` fixes their order, which is the
//! order of completion and of the help listing.
use vstd::prelude::*;

use crate::app::{App, AppView};

pub mod clear;
pub mod effect;
pub mod help;
pub mod quit;

verus! {

/// A prompt command: its name (what the user types), its help text, and what running
/// it does to the application.
pub trait Command {
    spec fn name_text(&self) -> Seq<char>;

    spec fn help_text(&self) -> Seq<char>;

    /// The application after the command ran on `before`.
    spec fn outcome(&self, before: AppView) -> AppView;

    fn name(&self) -> (r: &'static str)
        ensures
            r@ == self.name_text(),
    ;

    fn help(&self) -> (r: &'static str)
        ensures
            r@ == self.help_text(),
    ;

    fn run(&self, app: &mut App)
        requires
            old(app).wf(),
        ensures
            final(app).wf(),
            final(app)@ == self.outcome(old(app)@),
    ;
}

/// One entry of the command registry.
#[derive(Clone, Copy, PartialEq, Eq, Structural, Debug)]
pub enum CommandId {
    Effect,
    Help,
    Clear,
    Quit,
}

/// The registered commands, in completion and help order.
pub open spec fn registry_spec() -> Seq<CommandId> {
    seq![CommandId::Effect, CommandId::Help, CommandId::Clear, CommandId::Quit]
}

pub open spec fn command_name(id: CommandId) -> Seq<char> {
    match id {
        CommandId::Effect => "effect"@,
        CommandId::Help => "help"@,
        CommandId::Clear => "clear"@,
        CommandId::Quit => "quit"@,
    }
}

pub open spec fn command_help(id: CommandId) -> Seq<char> {
    match id {
        CommandId::Effect => "エフェクト画面を開く"@,
        CommandId::Help => "コマンド一覧を表示"@,
        CommandId::Clear => "出力を消去"@,
        CommandId::Quit => "終了（Esc でも可）"@,
    }
}

/// What running the command `id` does to the application `v`.
pub open spec fn command_outcome(id: CommandId, v: AppView) -> AppView {
    match id {
        CommandId::Effect => v.effects_opened(),
        CommandId::Help => v.with_lines(help::help_lines()),
        CommandId::Clear => v.output_cleared(),
        CommandId::Quit => v.quit(),
    }
}

/// Every command's name is ASCII: as many bytes as chars, and at most six of them.
pub proof fn lemma_name_bytes(id: CommandId)
    ensures
        vstd::utf8::encode_utf8(command_name(id)).len() == command_name(id).len(),
        4 <= command_name(id).len() <= 6,
{
    reveal_strlit("effect");
    reveal_strlit("help");
    reveal_strlit("clear");
    reveal_strlit("quit");
    assert(vstd::utf8::is_ascii_chars(command_name(id)));
    vstd::utf8::is_ascii_chars_encode_utf8(command_name(id));
}

/// The registered commands, in completion and help order.
pub fn registry() -> (r: Vec<CommandId>)
    ensures
        r@ == registry_spec(),
{
    let r = vec![CommandId::Effect, CommandId::Help, CommandId::Clear, CommandId::Quit];
    assert(r@ =~= registry_spec());
    r
}

impl CommandId {
    pub fn name(self) -> (r: &'static str)
        ensures
            r@ == command_name(self),
    {
        match self {
            CommandId::Effect => effect::Cmd.name(),
            CommandId::Help => help::Cmd.name(),
            CommandId::Clear => clear::Cmd.name(),
            CommandId::Quit => quit::Cmd.name(),
        }
    }

    pub fn help(self) -> (r: &'static str)
        ensures
            r@ == command_help(self),
    {
        match self {
            CommandId::Effect => effect::Cmd.help(),
            CommandId::Help => help::Cmd.help(),
            CommandId::Clear => clear::Cmd.help(),
            CommandId::Quit => quit::Cmd.help(),
        }
    }

    pub fn run(self, app: &mut App)
        requires
            old(app).wf(),
        ensures
            final(app).wf(),
            final(app)@ == command_outcome(self, old(app)@),
    {
        match self {
            CommandId::Effect => effect::Cmd.run(app),
            CommandId::Help => help::Cmd.run(app),
            CommandId::Clear => clear::Cmd.run(app),
            CommandId::Quit => quit::Cmd.run(app),
        }
    }
}

} // verus!
