//! The application: the prompt with its input line, completion and output history,
//! the effect screen, and the switch between them.
use vstd::prelude::*;

use crate::commands::effect::{
    effects_start, effects_step, effects_ticked, Effects, EffectsView, Nav, MODE_COUNT,
};
use crate::commands::{command_name, command_outcome, registry, registry_spec, CommandId};
use crate::history::{capped, lemma_capped_push, MAX_OUTPUT};
use crate::key::Key;
use crate::text::{
    chars_of, decode_lossy, decimal_text, equals_str, is_prefix_of_str, lossy_text, push_decimal,
    push_str, split_lines, string_of, text_lines, trim, trim_chars,
};

verus! {

/// The character that starts a shell command at the prompt.
pub const SHELL_PREFIX: char = '!';

/// Which screen is showing.
#[derive(Clone, Copy, PartialEq, Eq, Structural, Debug)]
pub enum Screen {
    Prompt,
    Effects,
}

/// The application as a value.
#[verifier::ext_equal]
pub struct AppView {
    pub screen: Screen,
    /// The text typed at the prompt.
    pub input: Seq<char>,
    /// The output history, oldest line first.
    pub output: Seq<Seq<char>>,
    /// The selected completion candidate.
    pub sugg_idx: int,
    /// The frames the prompt's cursor animation has run.
    pub ticks: int,
    pub effects: EffectsView,
    pub quitting: bool,
}

impl AppView {
    pub open spec fn with_output(self, output: Seq<Seq<char>>) -> AppView {
        AppView { output, ..self }
    }

    /// `self` with `lines` appended to its history, which keeps the newest `MAX_OUTPUT`.
    pub open spec fn with_lines(self, lines: Seq<Seq<char>>) -> AppView {
        self.with_output(capped(self.output + lines))
    }

    /// `self` with `line` appended to its history, which keeps the newest `MAX_OUTPUT`.
    pub open spec fn with_line(self, line: Seq<char>) -> AppView {
        self.with_output(capped(self.output.push(line)))
    }

    pub open spec fn output_cleared(self) -> AppView {
        self.with_output(Seq::empty())
    }

    pub open spec fn quit(self) -> AppView {
        AppView { quitting: true, ..self }
    }

    /// `self` showing the effect screen, restarted on its first effect.
    pub open spec fn effects_opened(self) -> AppView {
        AppView { screen: Screen::Effects, effects: effects_start(), ..self }
    }
}

/// Whether `input` is a shell command: it starts with `SHELL_PREFIX`.
pub open spec fn is_shell_input(input: Seq<char>) -> bool {
    input.len() > 0 && input[0] == SHELL_PREFIX
}

/// The commands of `ids` whose name starts with `prefix`, in order.
pub open spec fn prefix_matches(ids: Seq<CommandId>, prefix: Seq<char>) -> Seq<CommandId>
    decreases ids.len(),
{
    if ids.len() == 0 {
        Seq::empty()
    } else {
        let rest = prefix_matches(ids.drop_last(), prefix);
        if prefix.is_prefix_of(command_name(ids.last())) {
            rest.push(ids.last())
        } else {
            rest
        }
    }
}

/// The completion candidates for `input`: none in shell mode; every command when the
/// trimmed input is empty; otherwise the commands whose name starts with it, unless the
/// only one is the input itself.
pub open spec fn suggestions(input: Seq<char>) -> Seq<CommandId> {
    if is_shell_input(input) {
        Seq::empty()
    } else {
        let typed = trim(input);
        if typed.len() == 0 {
            registry_spec()
        } else {
            let ms = prefix_matches(registry_spec(), typed);
            if ms.len() == 1 && command_name(ms[0]) == typed {
                Seq::empty()
            } else {
                ms
            }
        }
    }
}

/// The first command of `ids` named `line`.
pub open spec fn find_named(ids: Seq<CommandId>, line: Seq<char>) -> Option<CommandId>
    decreases ids.len(),
{
    if ids.len() == 0 {
        None
    } else if command_name(ids[0]) == line {
        Some(ids[0])
    } else {
        find_named(ids.drop_first(), line)
    }
}

/// The well-formedness of an application state: the history holds at most
/// `MAX_OUTPUT` lines, the selected candidate is the first or one that exists, and the
/// effect screen's selection is one of its effects.
pub open spec fn app_inv(v: AppView) -> bool {
    &&& v.output.len() <= MAX_OUTPUT
    &&& 0 <= v.sugg_idx
    &&& (v.sugg_idx == 0 || v.sugg_idx < suggestions(v.input).len())
    &&& 0 <= v.effects.cursor < MODE_COUNT
}

/// The application as it starts: the empty prompt, no output.
pub open spec fn initial_view() -> AppView {
    AppView {
        screen: Screen::Prompt,
        input: Seq::empty(),
        output: Seq::empty(),
        sugg_idx: 0,
        ticks: 0,
        effects: effects_start(),
        quitting: false,
    }
}

/// `v` one frame later: the prompt's animation advances, and the effect animation too
/// while the effect screen shows. Frame counts stop at `u64::MAX`.
pub open spec fn updated(v: AppView) -> AppView {
    AppView {
        ticks: if v.ticks < u64::MAX { v.ticks + 1 } else { v.ticks },
        effects: if v.screen == Screen::Effects { effects_ticked(v.effects) } else { v.effects },
        ..v
    }
}

/// Whether a completion candidate is selected, so that Tab or Enter can take it.
pub open spec fn can_accept(v: AppView) -> bool {
    0 <= v.sugg_idx < suggestions(v.input).len()
}

/// `v` with the selected candidate taken as the input.
pub open spec fn accepted(v: AppView) -> AppView {
    AppView { input: command_name(suggestions(v.input)[v.sugg_idx]), sugg_idx: 0, ..v }
}

/// The history line that echoes a submitted line.
pub open spec fn echo_line(line: Seq<char>) -> Seq<char> {
    "> "@ + line
}

/// The history line for a line that names no command.
pub open spec fn unknown_line(line: Seq<char>) -> Seq<char> {
    "unknown command: "@ + line + "  ('help' でコマンド一覧)"@
}

/// Submitting the input: it is cleared; an empty trimmed line does nothing more;
/// otherwise the line is echoed, and then a shell line asks for its trimmed command to
/// be run (when there is one), a command's name runs it, and anything else is reported
/// as unknown. The second part is the shell command to run.
pub open spec fn submitted(v: AppView) -> (AppView, Option<Seq<char>>) {
    let line = trim(v.input);
    let cleared = AppView { input: Seq::empty(), sugg_idx: 0, ..v };
    if line.len() == 0 {
        (cleared, None)
    } else {
        let echoed = cleared.with_line(echo_line(line));
        if line[0] == SHELL_PREFIX {
            let cmd = trim(line.drop_first());
            (echoed, if cmd.len() == 0 { None } else { Some(cmd) })
        } else {
            match find_named(registry_spec(), line) {
                Some(id) => (command_outcome(id, echoed), None),
                None => (echoed.with_line(unknown_line(line)), None),
            }
        }
    }
}

/// A key press at the prompt.
pub open spec fn prompt_step(v: AppView, key: Key) -> (AppView, Option<Seq<char>>) {
    let n = suggestions(v.input).len();
    match key {
        Key::Esc => (v.quit(), None),
        Key::Enter => if can_accept(v) {
            (accepted(v), None)
        } else {
            submitted(v)
        },
        Key::Backspace => (
            AppView {
                input: if v.input.len() > 0 { v.input.drop_last() } else { v.input },
                sugg_idx: 0,
                ..v
            },
            None,
        ),
        Key::Tab => (if can_accept(v) { accepted(v) } else { v }, None),
        Key::Up => (
            if v.sugg_idx > 0 { AppView { sugg_idx: v.sugg_idx - 1, ..v } } else { v },
            None,
        ),
        Key::Down => (
            if n > 0 && v.sugg_idx + 1 < n { AppView { sugg_idx: v.sugg_idx + 1, ..v } } else { v },
            None,
        ),
        Key::Char(c) => (AppView { input: v.input.push(c), sugg_idx: 0, ..v }, None),
        Key::Other => (v, None),
    }
}

/// A key press: Ctrl-C quits on either screen; otherwise the showing screen handles it.
/// The second part is the shell command that the press asks to run.
pub open spec fn key_step(v: AppView, key: Key, ctrl: bool) -> (AppView, Option<Seq<char>>) {
    if key == Key::Char('c') && ctrl {
        (v.quit(), None)
    } else if v.screen == Screen::Prompt {
        prompt_step(v, key)
    } else {
        let (e, nav) = effects_step(v.effects, key);
        let moved = AppView { effects: e, ..v };
        (
            match nav {
                Nav::Exit => AppView { screen: Screen::Prompt, ..moved },
                Nav::Quit => moved.quit(),
                Nav::Stay => moved,
            },
            None,
        )
    }
}

/// The line that reports a failed shell command's exit code, -1 when it has none.
pub open spec fn exit_line(code: Option<i32>) -> Seq<char> {
    "[exit: "@ + decimal_text(
        match code {
            Some(c) => c as int,
            None => -1,
        },
    ) + "]"@
}

/// The history lines of a finished shell command: the lines of its standard output, then
/// of its standard error, then its exit code.
pub open spec fn shell_lines(stdout: Seq<u8>, stderr: Seq<u8>, code: Option<i32>) -> Seq<Seq<char>> {
    text_lines(lossy_text(stdout)) + text_lines(lossy_text(stderr)) + seq![exit_line(code)]
}

/// The history line of a shell command that could not be run.
pub open spec fn error_line(message: Seq<char>) -> Seq<char> {
    "[error] "@ + message
}

/// The text of an optional string.
pub open spec fn opt_text(s: Option<String>) -> Option<Seq<char>> {
    match s {
        Some(t) => Some(t@),
        None => None,
    }
}

/// The application state.
pub struct App {
    screen: Screen,
    input: Vec<char>,
    output: Vec<String>,
    sugg_idx: usize,
    ticks: u64,
    effects: Effects,
    quitting: bool,
}

impl View for App {
    type V = AppView;

    closed spec fn view(&self) -> AppView {
        AppView {
            screen: self.screen,
            input: self.input@,
            output: self.output@.map_values(|s: String| s@),
            sugg_idx: self.sugg_idx as int,
            ticks: self.ticks as int,
            effects: self.effects@,
            quitting: self.quitting,
        }
    }
}

proof fn lemma_prefix_matches_len(ids: Seq<CommandId>, prefix: Seq<char>)
    ensures
        prefix_matches(ids, prefix).len() <= ids.len(),
    decreases ids.len(),
{
    if ids.len() > 0 {
        lemma_prefix_matches_len(ids.drop_last(), prefix);
    }
}

/// There are never more candidates than commands.
pub proof fn lemma_suggestions_len(input: Seq<char>)
    ensures
        suggestions(input).len() <= registry_spec().len(),
{
    lemma_prefix_matches_len(registry_spec(), trim(input));
}

proof fn lemma_find_named_skip(ids: Seq<CommandId>, line: Seq<char>, i: int)
    requires
        0 <= i <= ids.len(),
        forall|k: int| 0 <= k < i ==> command_name(#[trigger] ids[k]) != line,
    ensures
        find_named(ids, line) == find_named(ids.skip(i), line),
    decreases i,
{
    if i > 0 {
        lemma_find_named_skip(ids, line, i - 1);
        assert(ids.skip(i - 1).drop_first() =~= ids.skip(i));
    } else {
        assert(ids.skip(0) =~= ids);
    }
}

impl App {
    /// The application's state is well formed.
    pub open spec fn wf(&self) -> bool {
        app_inv(self@)
    }

    pub fn new() -> (r: App)
        ensures
            r.wf(),
            r@ == initial_view(),
    {
        let r = App {
            screen: Screen::Prompt,
            input: Vec::new(),
            output: Vec::new(),
            sugg_idx: 0,
            ticks: 0,
            effects: Effects::new(),
            quitting: false,
        };
        assert(r@ =~= initial_view());
        r
    }

    /// Advances the animations by one frame.
    pub fn update(&mut self)
        requires
            old(self).wf(),
        ensures
            final(self).wf(),
            final(self)@ == updated(old(self)@),
    {
        self.ticks = self.ticks.saturating_add(1);
        if self.screen == Screen::Effects {
            self.effects.tick();
        }
        assert(self@ =~= updated(old(self)@));
    }

    /// Handles a key press, `ctrl` telling whether Control was held. What it returns is a
    /// shell command that the caller is to run and report with `record_shell_output` or
    /// `record_shell_error`.
    pub fn handle_key(&mut self, key: Key, ctrl: bool) -> (r: Option<String>)
        requires
            old(self).wf(),
        ensures
            final(self).wf(),
            (final(self)@, opt_text(r)) == key_step(old(self)@, key, ctrl),
    {
        if key == Key::Char('c') && ctrl {
            self.quitting = true;
            assert(self@ =~= old(self)@.quit());
            return None;
        }
        match self.screen {
            Screen::Prompt => self.handle_prompt_key(key),
            Screen::Effects => {
                let nav = self.effects.handle_key(key);
                match nav {
                    Nav::Exit => self.screen = Screen::Prompt,
                    Nav::Quit => self.quitting = true,
                    Nav::Stay => {},
                }
                let ghost (e, n) = effects_step(old(self)@.effects, key);
                let ghost moved = AppView { effects: e, ..old(self)@ };
                assert(self@ =~= match n {
                    Nav::Exit => AppView { screen: Screen::Prompt, ..moved },
                    Nav::Quit => moved.quit(),
                    Nav::Stay => moved,
                });
                None
            },
        }
    }

    fn handle_prompt_key(&mut self, key: Key) -> (r: Option<String>)
        requires
            old(self).wf(),
            old(self)@.screen == Screen::Prompt,
        ensures
            final(self).wf(),
            (final(self)@, opt_text(r)) == prompt_step(old(self)@, key),
    {
        proof {
            lemma_suggestions_len(self@.input);
        }
        match key {
            Key::Esc => {
                self.quitting = true;
                assert(self@ =~= old(self)@.quit());
                None
            },
            Key::Enter => {
                if !self.accept_suggestion() {
                    self.submit()
                } else {
                    None
                }
            },
            Key::Backspace => {
                self.sugg_idx = 0;
                self.input.pop();
                assert(self@ =~= prompt_step(old(self)@, key).0);
                None
            },
            Key::Tab => {
                self.accept_suggestion();
                None
            },
            Key::Up => {
                if self.sugg_idx > 0 {
                    self.sugg_idx = self.sugg_idx - 1;
                }
                assert(self@ =~= prompt_step(old(self)@, key).0);
                None
            },
            Key::Down => {
                let n = self.matches().len();
                if n > 0 && self.sugg_idx + 1 < n {
                    self.sugg_idx = self.sugg_idx + 1;
                }
                assert(self@ =~= prompt_step(old(self)@, key).0);
                None
            },
            Key::Char(c) => {
                self.sugg_idx = 0;
                self.input.push(c);
                assert(self@ =~= prompt_step(old(self)@, key).0);
                None
            },
            Key::Other => None,
        }
    }

    /// The completion candidates for the current input.
    pub fn matches(&self) -> (r: Vec<CommandId>)
        ensures
            r@ == suggestions(self@.input),
    {
        if self.is_shell_mode() {
            return Vec::new();
        }
        let typed = trim_chars(self.input.as_slice());
        let reg = registry();
        if typed.len() == 0 {
            return reg;
        }
        let mut ms: Vec<CommandId> = Vec::new();
        let mut i: usize = 0;
        while i < reg.len()
            invariant
                reg@ == registry_spec(),
                i <= reg@.len(),
                ms@ == prefix_matches(reg@.take(i as int), typed@),
            decreases reg@.len() - i,
        {
            let id = reg[i];
            let hit = is_prefix_of_str(typed.as_slice(), id.name());
            if hit {
                ms.push(id);
            }
            i = i + 1;
            assert(reg@.take(i as int).drop_last() =~= reg@.take(i - 1));
        }
        assert(reg@.take(reg@.len() as int) =~= reg@);
        if ms.len() == 1 {
            let only = ms[0];
            if equals_str(typed.as_slice(), only.name()) {
                return Vec::new();
            }
        }
        ms
    }

    /// Whether the input is a shell command.
    pub fn is_shell_mode(&self) -> (r: bool)
        ensures
            r == is_shell_input(self@.input),
    {
        self.input.len() > 0 && self.input[0] == SHELL_PREFIX
    }

    /// Takes the selected completion candidate as the input; false when there is none.
    pub fn accept_suggestion(&mut self) -> (r: bool)
        requires
            old(self).wf(),
        ensures
            final(self).wf(),
            r == can_accept(old(self)@),
            final(self)@ == if r { accepted(old(self)@) } else { old(self)@ },
    {
        let ms = self.matches();
        if self.sugg_idx < ms.len() {
            let id = ms[self.sugg_idx];
            self.sugg_idx = 0;
            self.input = chars_of(id.name());
            assert(self@ =~= accepted(old(self)@));
            true
        } else {
            false
        }
    }

    /// Submits the input line; see `submitted`. What it returns is a shell command that
    /// the caller is to run and report with `record_shell_output` or `record_shell_error`.
    pub fn submit(&mut self) -> (r: Option<String>)
        requires
            old(self).wf(),
        ensures
            final(self).wf(),
            (final(self)@, opt_text(r)) == submitted(old(self)@),
    {
        let ghost v = old(self)@;
        let mut line = trim_chars(self.input.as_slice());
        self.sugg_idx = 0;
        self.input.clear();
        let ghost cleared = AppView { input: Seq::empty(), sugg_idx: 0, ..v };
        assert(self@ =~= cleared);
        if line.len() == 0 {
            return None;
        }
        let mut echo: Vec<char> = Vec::new();
        push_str(&mut echo, "> ");
        let mut k: usize = 0;
        while k < line.len()
            invariant
                k <= line@.len(),
                echo@ == "> "@ + line@.take(k as int),
                self.wf(),
                self@ == cleared,
            decreases line@.len() - k,
        {
            echo.push(line[k]);
            k = k + 1;
            assert(echo@ =~= "> "@ + line@.take(k as int));
        }
        assert(line@.take(line@.len() as int) =~= line@);
        self.push_output(string_of(echo.as_slice()));
        let ghost echoed = cleared.with_line(echo_line(line@));
        assert(self@ =~= echoed);
        if line[0] == SHELL_PREFIX {
            let rest = line.split_off(1);
            let cmd = trim_chars(rest.as_slice());
            if cmd.len() == 0 {
                return None;
            }
            return Some(string_of(cmd.as_slice()));
        }
        let reg = registry();
        let mut i: usize = 0;
        while i < reg.len()
            invariant
                reg@ == registry_spec(),
                i <= reg@.len(),
                forall|j: int| 0 <= j < i ==> command_name(#[trigger] reg@[j]) != line@,
                self.wf(),
                self@ == echoed,
                line@ == trim(v.input),
                v == old(self)@,
                cleared == (AppView { input: Seq::empty(), sugg_idx: 0, ..v }),
                echoed == cleared.with_line(echo_line(line@)),
                line@.len() > 0,
                line@[0] != SHELL_PREFIX,
            decreases reg@.len() - i,
        {
            let id = reg[i];
            if equals_str(line.as_slice(), id.name()) {
                proof {
                    lemma_find_named_skip(reg@, line@, i as int);
                    assert(reg@.skip(i as int)[0] == id);
                }
                id.run(self);
                return None;
            }
            i = i + 1;
        }
        proof {
            lemma_find_named_skip(reg@, line@, reg@.len() as int);
        }
        let mut msg: Vec<char> = Vec::new();
        push_str(&mut msg, "unknown command: ");
        let mut k: usize = 0;
        while k < line.len()
            invariant
                k <= line@.len(),
                msg@ == "unknown command: "@ + line@.take(k as int),
                self.wf(),
                self@ == echoed,
            decreases line@.len() - k,
        {
            msg.push(line[k]);
            k = k + 1;
            assert(msg@ =~= "unknown command: "@ + line@.take(k as int));
        }
        push_str(&mut msg, "  ('help' でコマンド一覧)");
        assert(msg@ =~= unknown_line(line@));
        self.push_output(string_of(msg.as_slice()));
        None
    }

    /// Shows the effect screen, restarted on its first effect.
    pub fn open_effects(&mut self)
        requires
            old(self).wf(),
        ensures
            final(self).wf(),
            final(self)@ == old(self)@.effects_opened(),
    {
        self.effects.reset();
        self.screen = Screen::Effects;
        assert(self@ =~= old(self)@.effects_opened());
    }

    /// Empties the output history.
    pub fn clear_output(&mut self)
        requires
            old(self).wf(),
        ensures
            final(self).wf(),
            final(self)@ == old(self)@.output_cleared(),
    {
        self.output.clear();
        assert(self@ =~= old(self)@.output_cleared());
    }

    /// Asks the application to end.
    pub fn quit(&mut self)
        requires
            old(self).wf(),
        ensures
            final(self).wf(),
            final(self)@ == old(self)@.quit(),
    {
        self.quitting = true;
        assert(self@ =~= old(self)@.quit());
    }

    /// Appends `line` to the history, dropping the oldest lines beyond `MAX_OUTPUT`.
    pub fn push_output(&mut self, line: String)
        requires
            old(self).wf(),
        ensures
            final(self).wf(),
            final(self)@ == old(self)@.with_line(line@),
    {
        let ghost lines = old(self)@.output.push(line@);
        self.output.push(line);
        assert(self.output@.map_values(|s: String| s@) =~= lines);
        let n = self.output.len();
        if n > MAX_OUTPUT {
            let overflow = n - MAX_OUTPUT;
            let kept = self.output.split_off(overflow);
            self.output = kept;
            assert(self.output@.map_values(|s: String| s@) =~= capped(lines));
        }
        assert(self@ =~= old(self)@.with_line(line@));
    }

    fn push_lines(&mut self, lines: Vec<&str>)
        requires
            old(self).wf(),
        ensures
            final(self).wf(),
            final(self)@ == old(self)@.with_lines(lines@.map_values(|s: &str| s@)),
    {
        let ghost start = self@;
        let ghost all = lines@.map_values(|s: &str| s@);
        let mut i: usize = 0;
        while i < lines.len()
            invariant
                i <= lines@.len(),
                all == lines@.map_values(|s: &str| s@),
                self.wf(),
                self@ == start.with_lines(all.take(i as int)),
            decreases lines@.len() - i,
        {
            let line = String::from_str(lines[i]);
            self.push_output(line);
            proof {
                lemma_capped_push(start.output + all.take(i as int), all[i as int]);
                assert(start.output + all.take(i + 1) =~= (start.output + all.take(i as int)).push(
                    all[i as int],
                ));
            }
            i = i + 1;
        }
        assert(all.take(lines@.len() as int) =~= all);
    }

    /// Records a finished shell command: the lines of its standard output, then of its
    /// standard error, then its exit code (-1 when it has none).
    pub fn record_shell_output(&mut self, stdout: &[u8], stderr: &[u8], code: Option<i32>)
        requires
            old(self).wf(),
        ensures
            final(self).wf(),
            final(self)@ == old(self)@.with_lines(shell_lines(stdout@, stderr@, code)),
    {
        let ghost start = self@;
        let out_text = decode_lossy(stdout);
        let out_lines = split_lines(out_text.as_str());
        self.push_lines(out_lines);
        let err_text = decode_lossy(stderr);
        let err_lines = split_lines(err_text.as_str());
        self.push_lines(err_lines);
        let ghost a = text_lines(lossy_text(stdout@));
        let ghost b = text_lines(lossy_text(stderr@));
        proof {
            crate::history::lemma_capped_append(start.output + a, b);
            assert(start.output + a + b =~= start.output + (a + b));
        }
        let mut line: Vec<char> = Vec::new();
        push_str(&mut line, "[exit: ");
        let c: i32 = match code {
            Some(c) => c,
            None => -1,
        };
        push_decimal(&mut line, c);
        push_str(&mut line, "]");
        assert(line@ =~= exit_line(code));
        self.push_output(string_of(line.as_slice()));
        proof {
            lemma_capped_push(start.output + (a + b), exit_line(code));
            assert((start.output + (a + b)).push(exit_line(code)) =~= start.output + shell_lines(
                stdout@,
                stderr@,
                code,
            ));
        }
    }

    /// Records a shell command that could not be run, with the reason given.
    pub fn record_shell_error(&mut self, message: &str)
        requires
            old(self).wf(),
        ensures
            final(self).wf(),
            final(self)@ == old(self)@.with_line(error_line(message@)),
    {
        let mut line: Vec<char> = Vec::new();
        push_str(&mut line, "[error] ");
        push_str(&mut line, message);
        self.push_output(string_of(line.as_slice()));
    }

    /// Which screen shows.
    pub fn screen(&self) -> (r: Screen)
        ensures
            r == self@.screen,
    {
        self.screen
    }

    /// Whether the application is to end.
    pub fn is_quitting(&self) -> (r: bool)
        ensures
            r == self@.quitting,
    {
        self.quitting
    }

    /// The frames the prompt's cursor animation has run.
    pub fn ticks(&self) -> (r: u64)
        ensures
            r == self@.ticks,
    {
        self.ticks
    }

    /// The effect screen's state.
    pub fn effects(&self) -> (r: &Effects)
        ensures
            r@ == self@.effects,
    {
        &self.effects
    }

    /// The output history, oldest line first.
    pub fn output(&self) -> (r: &Vec<String>)
        ensures
            r@.map_values(|s: String| s@) == self@.output,
    {
        &self.output
    }

    /// The text typed at the prompt.
    pub fn input_text(&self) -> (r: String)
        ensures
            r@ == self@.input,
    {
        string_of(self.input.as_slice())
    }

    /// The selected completion candidate.
    pub fn selected_suggestion(&self) -> (r: usize)
        ensures
            r == self@.sugg_idx,
    {
        self.sugg_idx
    }
}

} // verus!
