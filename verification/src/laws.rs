//! Properties of the application that hold across its operations.
use vstd::prelude::*;

use crate::app::{
    accepted, app_inv, can_accept, echo_line, find_named, is_shell_input, key_step,
    lemma_suggestions_len, prefix_matches, prompt_step, shell_lines, submitted, suggestions,
    unknown_line, updated, AppView, Screen, SHELL_PREFIX,
};
use crate::commands::effect::{effects_start, effects_step, EffectsView, MODE_COUNT};
use crate::commands::help::{help_line, help_lines};
use crate::commands::{
    command_help, command_name, command_outcome, lemma_name_bytes, registry_spec, CommandId,
};
use crate::history::{capped, lemma_capped_bound, MAX_OUTPUT};
use crate::key::Key;
use crate::text::{decimal_text, is_white_space, lossy_text, text_lines, trim, trim_end, trim_start};
use crate::prompt::history_start;

verus! {

/// The effect screen's selection stays on one of its effects whatever key is pressed.
pub proof fn law_effects_cursor_in_menu(e: EffectsView, key: Key)
    requires
        0 <= e.cursor < MODE_COUNT,
    ensures
        0 <= effects_step(e, key).0.cursor < MODE_COUNT,
{
}

/// Moving the selection on the effect screen restarts the animation of the newly
/// selected effect.
pub proof fn law_effects_move_restarts(e: EffectsView, key: Key)
    ensures
        effects_step(e, key).0.cursor != e.cursor ==> effects_step(e, key).0.ticks == 0,
        effects_step(e, key).0.cursor == e.cursor ==> effects_step(e, key).0 == e,
{
}

/// Up then Down on the effect screen comes back to the same effect, when Up could move.
pub proof fn law_effects_up_down(e: EffectsView)
    requires
        0 < e.cursor < MODE_COUNT,
    ensures
        effects_step(effects_step(e, Key::Up).0, Key::Down).0.cursor == e.cursor,
{
}

/// Ctrl-C ends the application on either screen and changes nothing else.
pub proof fn law_ctrl_c_quits(v: AppView)
    ensures
        key_step(v, Key::Char('c'), true) == (v.quit(), None::<Seq<char>>),
{
}

/// Opening the effect screen and leaving it with Esc gives back the prompt as it was.
pub proof fn law_effects_round_trip(v: AppView)
    requires
        v.screen == Screen::Prompt,
    ensures
        key_step(v.effects_opened(), Key::Esc, false) == (
            AppView { effects: effects_start(), ..v },
            None::<Seq<char>>,
        ),
{
    let (s, r) = key_step(v.effects_opened(), Key::Esc, false);
    assert(s =~= AppView { effects: effects_start(), ..v });
}

/// In shell mode nothing is offered for completion.
pub proof fn law_shell_mode_no_suggestions(input: Seq<char>)
    requires
        is_shell_input(input),
    ensures
        suggestions(input).len() == 0,
{
}

/// An input that is empty or only white space offers every command, in registry order.
pub proof fn law_blank_input_offers_all(input: Seq<char>)
    requires
        !is_shell_input(input),
        trim(input).len() == 0,
    ensures
        suggestions(input) == registry_spec(),
{
}

proof fn lemma_no_white_space_trim(s: Seq<char>)
    requires
        forall|i: int| 0 <= i < s.len() ==> !is_white_space(#[trigger] s[i]),
    ensures
        trim(s) == s,
{
    assert(trim_start(s) == s);
    assert(trim_end(s) == s);
}

proof fn lemma_names_plain(id: CommandId)
    ensures
        trim(command_name(id)) == command_name(id),
        command_name(id).len() > 0,
        command_name(id)[0] != SHELL_PREFIX,
        forall|other: CommandId|
            command_name(id).is_prefix_of(#[trigger] command_name(other)) ==> other == id,
{
    reveal_strlit("effect");
    reveal_strlit("help");
    reveal_strlit("clear");
    reveal_strlit("quit");
    lemma_name_bytes(id);
    lemma_no_white_space_trim(command_name(id));
    assert forall|other: CommandId|
        command_name(id).is_prefix_of(#[trigger] command_name(other)) implies other == id by {
        if other != id {
            let a = command_name(id);
            let b = command_name(other);
            if a.len() <= b.len() {
                assert(a[0] != b.subrange(0, a.len() as int)[0] || a[1] != b.subrange(0, a.len() as int)[1]);
            }
        }
    }
}

/// A command's exact name offers no completion: the name is complete as typed.
pub proof fn law_name_complete(id: CommandId)
    ensures
        suggestions(command_name(id)).len() == 0,
{
    lemma_names_plain(id);
    let name = command_name(id);
    let reg = registry_spec();
    assert(reg.drop_last() =~= seq![CommandId::Effect, CommandId::Help, CommandId::Clear]);
    assert(reg.drop_last().drop_last() =~= seq![CommandId::Effect, CommandId::Help]);
    assert(reg.drop_last().drop_last().drop_last() =~= seq![CommandId::Effect]);
    assert(reg.drop_last().drop_last().drop_last().drop_last() =~= Seq::<CommandId>::empty());
    lemma_names_plain(CommandId::Effect);
    lemma_names_plain(CommandId::Help);
    lemma_names_plain(CommandId::Clear);
    lemma_names_plain(CommandId::Quit);
    assert(name.is_prefix_of(name)) by {
        assert(name =~= name.subrange(0, name.len() as int));
    }
    reveal_with_fuel(prefix_matches, 5);
    assert(prefix_matches(reg, name) =~= seq![id]);
}

/// Taking a completion candidate leaves nothing more to complete, so the next Enter
/// submits the command.
pub proof fn law_accept_completes(v: AppView)
    requires
        app_inv(v),
        can_accept(v),
    ensures
        suggestions(accepted(v).input).len() == 0,
        !can_accept(accepted(v)),
        prompt_step(accepted(v), Key::Enter) == submitted(accepted(v)),
{
    law_name_complete(suggestions(v.input)[v.sugg_idx]);
}

proof fn lemma_find_named_registry(id: CommandId)
    ensures
        find_named(registry_spec(), command_name(id)) == Some(id),
{
    lemma_names_plain(CommandId::Effect);
    lemma_names_plain(CommandId::Help);
    lemma_names_plain(CommandId::Clear);
    lemma_names_plain(CommandId::Quit);
    let reg = registry_spec();
    assert(reg.drop_first() =~= seq![CommandId::Help, CommandId::Clear, CommandId::Quit]);
    assert(reg.drop_first().drop_first() =~= seq![CommandId::Clear, CommandId::Quit]);
    assert(reg.drop_first().drop_first().drop_first() =~= seq![CommandId::Quit]);
    reveal_with_fuel(find_named, 5);
}

/// Submitting a command's name, with any surrounding white space, echoes it and runs
/// that command.
pub proof fn law_submit_runs_command(v: AppView, id: CommandId)
    requires
        trim(v.input) == command_name(id),
    ensures
        submitted(v) == (
            command_outcome(
                id,
                AppView { input: Seq::empty(), sugg_idx: 0, ..v }.with_line(echo_line(command_name(id))),
            ),
            None::<Seq<char>>,
        ),
{
    lemma_names_plain(id);
    lemma_find_named_registry(id);
}

/// The history never holds more than `MAX_OUTPUT` lines, and a line just written is
/// its newest.
pub proof fn law_history_newest(v: AppView, line: Seq<char>)
    ensures
        v.with_line(line).output.len() <= MAX_OUTPUT,
        v.with_line(line).output.last() == line,
{
    lemma_capped_bound(v.output.push(line));
}

proof fn lemma_outcome_inv(id: CommandId, v: AppView)
    requires
        app_inv(v),
        v.sugg_idx == 0,
    ensures
        app_inv(command_outcome(id, v)),
{
    lemma_capped_bound(v.output + help_lines());
}

/// Every key press keeps the application well formed.
pub proof fn law_key_step_keeps_inv(v: AppView, key: Key, ctrl: bool)
    requires
        app_inv(v),
    ensures
        app_inv(key_step(v, key, ctrl).0),
{
    lemma_suggestions_len(v.input);
    if !(key == Key::Char('c') && ctrl) && v.screen == Screen::Prompt && key == Key::Enter && !can_accept(v) {
        let line = trim(v.input);
        let cleared = AppView { input: Seq::empty(), sugg_idx: 0, ..v };
        if line.len() > 0 {
            let echoed = cleared.with_line(echo_line(line));
            lemma_capped_bound(cleared.output.push(echo_line(line)));
            lemma_capped_bound(echoed.output.push(unknown_line(line)));
            match find_named(registry_spec(), line) {
                Some(id) => lemma_outcome_inv(id, echoed),
                None => {},
            }
        }
    }
}

/// Completion and the help listing come from the same registry: every registered
/// command is offered on an empty prompt and has its line in the help listing.
pub proof fn law_registry_shared(id: CommandId)
    ensures
        registry_spec().contains(id),
        suggestions(Seq::empty()).contains(id),
        help_lines().contains(help_line(command_name(id), command_help(id))),
{
    let k: int = match id {
        CommandId::Effect => 0,
        CommandId::Help => 1,
        CommandId::Clear => 2,
        CommandId::Quit => 3,
    };
    assert(registry_spec()[k] == id);
    assert(trim(Seq::<char>::empty()) =~= Seq::<char>::empty());
    assert(help_lines()[k] == help_line(command_name(id), command_help(id)));
}

/// At the prompt, Enter with no candidate selected submits the input.
pub proof fn law_enter_without_candidate_submits(v: AppView)
    requires
        v.screen == Screen::Prompt,
        !can_accept(v),
    ensures
        key_step(v, Key::Enter, false) == submitted(v),
{
}

/// At the prompt, Tab takes the selected candidate when there is one and otherwise
/// changes nothing; it never touches the history nor asks for a shell command.
pub proof fn law_tab_accepts(v: AppView)
    requires
        v.screen == Screen::Prompt,
    ensures
        key_step(v, Key::Tab, false) == (
            if can_accept(v) { accepted(v) } else { v },
            None::<Seq<char>>,
        ),
        key_step(v, Key::Tab, false).0.output == v.output,
{
}

/// At the prompt, a key that the prompt does not react to changes nothing.
pub proof fn law_other_key_changes_nothing(v: AppView)
    requires
        v.screen == Screen::Prompt,
    ensures
        key_step(v, Key::Other, false) == (v, None::<Seq<char>>),
{
}

/// At the prompt, after every key the selected candidate is the first or one that exists.
pub proof fn law_prompt_selection_valid(v: AppView, key: Key)
    requires
        app_inv(v),
        v.screen == Screen::Prompt,
    ensures
        ({
            let w = prompt_step(v, key).0;
            w.sugg_idx == 0 || w.sugg_idx < suggestions(w.input).len()
        }),
{
    law_key_step_keeps_inv(v, key, false);
}

proof fn lemma_find_named_none(line: Seq<char>)
    requires
        forall|id: CommandId| command_name(id) != line,
    ensures
        find_named(registry_spec(), line) is None,
{
    let reg = registry_spec();
    assert(reg.drop_first() =~= seq![CommandId::Help, CommandId::Clear, CommandId::Quit]);
    assert(reg.drop_first().drop_first() =~= seq![CommandId::Clear, CommandId::Quit]);
    assert(reg.drop_first().drop_first().drop_first() =~= seq![CommandId::Quit]);
    assert(reg.drop_first().drop_first().drop_first().drop_first() =~= Seq::<CommandId>::empty());
    reveal_with_fuel(find_named, 5);
}

/// Submitting asks for a shell command only for a line whose trimmed text starts with
/// '!', and then the command is the rest of that line, trimmed and not empty.
pub proof fn law_submit_shell_only_with_prefix(v: AppView)
    ensures
        submitted(v).1 is Some ==> {
            let line = trim(v.input);
            &&& line.len() > 0
            &&& line[0] == '!'
            &&& submitted(v).1 == Some(trim(line.drop_first()))
            &&& trim(line.drop_first()).len() > 0
        },
{
    let line = trim(v.input);
    if line.len() > 0 && line[0] != SHELL_PREFIX {
        match find_named(registry_spec(), line) {
            Some(id) => {},
            None => {},
        }
    }
}

/// Submitting a non-empty line that does not start with '!' and names no command runs
/// nothing, clears the input, and appends exactly the echo of the line and the
/// unknown-command report to the history.
pub proof fn law_submit_unknown(v: AppView)
    requires
        trim(v.input).len() > 0,
        trim(v.input)[0] != '!',
        forall|id: CommandId| command_name(id) != trim(v.input),
    ensures
        submitted(v) == (
            AppView {
                input: Seq::empty(),
                sugg_idx: 0,
                output: capped(
                    v.output + seq![
                        "> "@ + trim(v.input),
                        "unknown command: "@ + trim(v.input) + "  ('help' でコマンド一覧)"@,
                    ],
                ),
                ..v
            },
            None::<Seq<char>>,
        ),
{
    let line = trim(v.input);
    lemma_find_named_none(line);
    let cleared = AppView { input: Seq::empty(), sugg_idx: 0, ..v };
    crate::history::lemma_capped_push(v.output.push(echo_line(line)), unknown_line(line));
    assert(v.output.push(echo_line(line)).push(unknown_line(line)) =~= v.output + seq![
        "> "@ + line,
        "unknown command: "@ + line + "  ('help' でコマンド一覧)"@,
    ]);
    let (w, r) = submitted(v);
    assert(w =~= AppView {
        input: Seq::empty(),
        sugg_idx: 0,
        output: capped(
            v.output + seq!["> "@ + line, "unknown command: "@ + line + "  ('help' でコマンド一覧)"@],
        ),
        ..v
    });
}

proof fn lemma_prefix_matches_contains(ids: Seq<CommandId>, p: Seq<char>, x: CommandId)
    ensures
        prefix_matches(ids, p).contains(x) <==> (ids.contains(x) && p.is_prefix_of(command_name(x))),
        forall|i: int|
            0 <= i < prefix_matches(ids, p).len() ==> p.is_prefix_of(
                command_name(#[trigger] prefix_matches(ids, p)[i]),
            ),
    decreases ids.len(),
{
    if ids.len() > 0 {
        let rest = ids.drop_last();
        lemma_prefix_matches_contains(rest, p, x);
        assert(ids =~= rest.push(ids.last()));
        if ids.contains(x) && x != ids.last() {
            let k = choose|k: int| 0 <= k < ids.len() && ids[k] == x;
            assert(rest[k] == x);
        }
        if prefix_matches(ids, p).contains(x) && x != ids.last() {
            assert(prefix_matches(rest, p).contains(x)) by {
                let m = prefix_matches(rest, p);
                if p.is_prefix_of(command_name(ids.last())) {
                    let k = choose|k: int| 0 <= k < m.push(ids.last()).len() && m.push(ids.last())[k] == x;
                    assert(m[k] == x);
                }
            }
        }
        if rest.contains(x) && p.is_prefix_of(command_name(x)) {
            let m = prefix_matches(rest, p);
            if p.is_prefix_of(command_name(ids.last())) {
                let k = choose|k: int| 0 <= k < m.len() && m[k] == x;
                assert(m.push(ids.last())[k] == x);
            }
        }
        if x == ids.last() && p.is_prefix_of(command_name(x)) {
            let m = prefix_matches(rest, p);
            assert(m.push(ids.last())[m.len() as int] == x);
        }
    }
}

/// Every completion candidate's name starts with the trimmed input; and every command
/// whose name starts with it, other than one already typed out in full, is a candidate.
pub proof fn law_candidates_start_with_input(input: Seq<char>, id: CommandId)
    requires
        !is_shell_input(input),
        trim(input).len() > 0,
    ensures
        forall|i: int|
            0 <= i < suggestions(input).len() ==> trim(input).is_prefix_of(
                command_name(#[trigger] suggestions(input)[i]),
            ),
        trim(input).is_prefix_of(command_name(id)) && command_name(id) != trim(input)
            ==> suggestions(input).contains(id),
{
    let p = trim(input);
    let reg = registry_spec();
    lemma_prefix_matches_contains(reg, p, id);
    let k: int = match id {
        CommandId::Effect => 0,
        CommandId::Help => 1,
        CommandId::Clear => 2,
        CommandId::Quit => 3,
    };
    assert(reg[k] == id);
    let ms = prefix_matches(reg, p);
    if p.is_prefix_of(command_name(id)) && command_name(id) != p {
        assert(ms.contains(id));
        if ms.len() == 1 {
            let j = choose|j: int| 0 <= j < ms.len() && ms[j] == id;
            assert(j == 0);
        }
    }
}

/// Backspace at the prompt deletes exactly the last character of a non-empty input, and
/// touches nothing but the input and the selection.
pub proof fn law_backspace_deletes_last(v: AppView)
    requires
        v.screen == Screen::Prompt,
        v.input.len() > 0,
    ensures
        ({
            let (w, r) = key_step(v, Key::Backspace, false);
            &&& r is None
            &&& w.input.len() == v.input.len() - 1
            &&& forall|i: int| 0 <= i < w.input.len() ==> w.input[i] == v.input[i]
            &&& w.output == v.output
            &&& w.screen == v.screen
            &&& w.quitting == v.quitting
            &&& w.sugg_idx == 0
        }),
{
}

/// The prompt shows the newest history lines that fit in `rows` rows: all of them when
/// they fit, otherwise the last `rows`.
pub proof fn law_history_window(v: AppView, rows: int)
    requires
        rows >= 0,
    ensures
        ({
            let shown = v.output.skip(history_start(v, rows));
            &&& shown.len() == if v.output.len() <= rows { v.output.len() as int } else { rows }
            &&& forall|i: int| 0 <= i < shown.len() ==> shown[i] == v.output[v.output.len() - shown.len() + i]
            &&& v.output.len() <= rows ==> shown == v.output
        }),
{
    if v.output.len() <= rows {
        assert(v.output.skip(0) =~= v.output);
    }
}

/// Whatever the exit code, a finished shell command's history lines start with the
/// lines of its standard output, then of its standard error; the code changes only the
/// last line, which reports it.
pub proof fn law_shell_lines_keep_output(stdout: Seq<u8>, stderr: Seq<u8>, code: Option<i32>, other: Option<i32>)
    ensures
        ({
            let out = text_lines(lossy_text(stdout));
            let err = text_lines(lossy_text(stderr));
            let lines = shell_lines(stdout, stderr, code);
            &&& lines.len() == out.len() + err.len() + 1
            &&& lines.take(out.len() as int) == out
            &&& lines.subrange(out.len() as int, (out.len() + err.len()) as int) == err
            &&& lines.drop_last() == shell_lines(stdout, stderr, other).drop_last()
            &&& lines.last() == "[exit: "@ + decimal_text(
                match code {
                    Some(c) => c as int,
                    None => -1,
                },
            ) + "]"@
        }),
{
    let out = text_lines(lossy_text(stdout));
    let err = text_lines(lossy_text(stderr));
    let lines = shell_lines(stdout, stderr, code);
    assert(lines.take(out.len() as int) =~= out);
    assert(lines.subrange(out.len() as int, (out.len() + err.len()) as int) =~= err);
    assert(lines.drop_last() =~= shell_lines(stdout, stderr, other).drop_last());
}

/// Every frame keeps the application well formed.
pub proof fn law_update_keeps_inv(v: AppView)
    requires
        app_inv(v),
    ensures
        app_inv(updated(v)),
{
}

} // verus!
