//! What the prompt screen shows and where: the history above, the input row, the key
//! help row at the bottom, and above the input either the shell hint or the completion
//! popup.
use vstd::prelude::*;
use vstd::utf8::encode_utf8;

use crate::app::{is_shell_input, suggestions, App, AppView};
use crate::commands::{command_name, CommandId};
use crate::text::{cell_width, chars_of, pad_right, push_padded, string_of, text_width};

verus! {

/// The most completion candidates the popup shows at once.
pub const MAX_SUGGESTIONS: usize = 6;

/// The hint shown above the input in shell mode.
pub const SHELL_HINT: &'static str = " sh -c で実行します（例: !ls -la） ";

/// A rectangle of terminal cells.
#[derive(Clone, Copy, PartialEq, Eq, Structural, Debug)]
pub struct Area {
    pub x: u16,
    pub y: u16,
    pub width: u16,
    pub height: u16,
}

/// One row of the completion popup.
pub struct PopupRow {
    pub label: String,
    pub selected: bool,
}

/// The completion popup: where it stands and its rows.
pub struct Popup {
    pub area: Area,
    pub rows: Vec<PopupRow>,
}

/// The prompt screen's content and layout.
pub struct PromptView {
    /// The newest history lines that fit above the input row, joined by '\n'.
    pub history: String,
    pub history_area: Area,
    pub input_area: Area,
    pub help_area: Area,
    /// Whether the input is a shell command.
    pub shell: bool,
    /// The input as shown: without its shell prefix in shell mode.
    pub body: String,
    /// Where the shell hint stands, in shell mode.
    pub hint_area: Option<Area>,
    /// The completion popup, outside shell mode when there are candidates.
    pub popup: Option<Popup>,
}

/// `lines` joined by '\n'.
pub open spec fn joined(lines: Seq<Seq<char>>) -> Seq<char>
    decreases lines.len(),
{
    if lines.len() == 0 {
        Seq::empty()
    } else if lines.len() == 1 {
        lines[0]
    } else {
        joined(lines.drop_last()) + seq!['\n'] + lines.last()
    }
}

/// The first history line that fits in `rows` rows: the newest lines are kept.
pub open spec fn history_start(v: AppView, rows: int) -> int {
    if v.output.len() > rows {
        v.output.len() - rows
    } else {
        0
    }
}

/// The input as the prompt shows it: without its shell prefix in shell mode.
pub open spec fn shown_input(v: AppView) -> Seq<char> {
    if is_shell_input(v.input) {
        v.input.drop_first()
    } else {
        v.input
    }
}

/// The width in bytes of a command's name.
pub open spec fn name_bytes(id: CommandId) -> int {
    encode_utf8(command_name(id)).len() as int
}

/// The widest name, in bytes, among `ids` (0 for none).
pub open spec fn widest_name(ids: Seq<CommandId>) -> int
    decreases ids.len(),
{
    if ids.len() == 0 {
        0
    } else {
        let rest = widest_name(ids.drop_last());
        if name_bytes(ids.last()) > rest {
            name_bytes(ids.last())
        } else {
            rest
        }
    }
}

/// `x` kept within `lo..=hi` the way `x.min(hi).max(lo)` keeps it.
pub open spec fn fit(x: int, hi: int, lo: int) -> int {
    let m = if x < hi { x } else { hi };
    if m > lo {
        m
    } else {
        lo
    }
}

/// The width of the shell hint on a screen `width` columns wide.
pub open spec fn hint_width(width: u16) -> int {
    fit((cell_width(SHELL_HINT@) as u16) as int, width.saturating_sub(2) as int, 1)
}

/// The width of the completion popup for candidates `ids` on a screen `width` wide.
pub open spec fn popup_width(ids: Seq<CommandId>, width: u16) -> int {
    fit(((widest_name(ids) as u16) + 4) as int, width.saturating_sub(2) as int, 1)
}

/// The label of a popup row: a space, then the name padded to the popup's inner width.
pub open spec fn popup_label(id: CommandId, popup_w: int) -> Seq<char> {
    seq![' '] + pad_right(command_name(id), if popup_w > 0 { (popup_w - 1) as nat } else { 0 })
}

proof fn lemma_widest_name_bound(ids: Seq<CommandId>)
    ensures
        0 <= widest_name(ids),
        forall|i: int| 0 <= i < ids.len() ==> name_bytes(#[trigger] ids[i]) <= widest_name(ids),
        ids.len() > 0 ==> exists|i: int| 0 <= i < ids.len() && name_bytes(ids[i]) == widest_name(ids),
    decreases ids.len(),
{
    if ids.len() > 0 {
        lemma_widest_name_bound(ids.drop_last());
        assert forall|i: int| 0 <= i < ids.len() implies name_bytes(#[trigger] ids[i]) <= widest_name(ids) by {
            if i < ids.len() - 1 {
                assert(ids[i] == ids.drop_last()[i]);
            }
        }
        if ids.len() > 1 && name_bytes(ids.last()) <= widest_name(ids.drop_last()) {
            let j = choose|j: int| 0 <= j < ids.len() - 1 && name_bytes(ids.drop_last()[j]) == widest_name(ids.drop_last());
            assert(ids[j] == ids.drop_last()[j]);
        }
    }
}

impl App {
    /// The prompt screen on a terminal `width` by `height` cells; nothing when it has no
    /// columns or fewer than two rows.
    pub fn prompt_view(&self, width: u16, height: u16) -> (r: Option<PromptView>)
        ensures
            (width == 0 || height < 2) <==> r is None,
            r matches Some(p) ==> {
                let input_y = height - 2;
                let ms = suggestions(self@.input);
                let n = if ms.len() < MAX_SUGGESTIONS { ms.len() as int } else { MAX_SUGGESTIONS as int };
                let pw = popup_width(ms, width);
                &&& p.history@ == joined(self@.output.skip(history_start(self@, input_y)))
                &&& self@.output.len() <= input_y ==> p.history@ == joined(self@.output)
                &&& p.history_area == Area { x: 0, y: 0, width, height: input_y as u16 }
                &&& p.input_area == Area { x: 0, y: input_y as u16, width, height: 1 }
                &&& p.help_area == Area { x: 0, y: (height - 1) as u16, width, height: 1 }
                &&& p.shell == is_shell_input(self@.input)
                &&& p.body@ == shown_input(self@)
                &&& p.hint_area == if p.shell {
                    Some(
                        Area {
                            x: 2,
                            y: (input_y as u16).saturating_sub(1),
                            width: hint_width(width) as u16,
                            height: 1,
                        },
                    )
                } else {
                    None::<Area>
                }
                &&& (p.shell || ms.len() == 0) <==> p.popup is None
                &&& p.popup matches Some(pop) ==> {
                    &&& pop.area == Area {
                        x: 2,
                        y: (input_y as u16).saturating_sub(n as u16),
                        width: pw as u16,
                        height: n as u16,
                    }
                    &&& pop.rows@.len() == n
                    &&& forall|i: int|
                        0 <= i < n ==> {
                            &&& (#[trigger] pop.rows@[i]).label@ == popup_label(ms[i], pw)
                            &&& pop.rows@[i].selected == (i == self@.sugg_idx)
                        }
                }
            },
    {
        if width == 0 || height < 2 {
            return None;
        }
        let input_y = height - 2;
        // The history: the newest lines that fit above the input row.
        let output = self.output();
        let ghost lines = self@.output;
        let start = output.len().saturating_sub(input_y as usize);
        let mut text: Vec<char> = Vec::new();
        let mut i: usize = start;
        while i < output.len()
            invariant
                start <= i <= output@.len(),
                lines == output@.map_values(|s: String| s@),
                start == history_start(self@, input_y as int),
                lines == self@.output,
                text@ == joined(lines.subrange(start as int, i as int)),
            decreases output@.len() - i,
        {
            let ghost before = text@;
            if i > start {
                text.push('\n');
            }
            let piece = chars_of(output[i].as_str());
            let mut k: usize = 0;
            while k < piece.len()
                invariant
                    k <= piece@.len(),
                    text@ == (if i > start { before + seq!['\n'] } else { before }) + piece@.take(k as int),
                decreases piece@.len() - k,
            {
                text.push(piece[k]);
                k = k + 1;
                assert(text@ =~= (if i > start { before + seq!['\n'] } else { before }) + piece@.take(k as int));
            }
            assert(piece@.take(piece@.len() as int) =~= piece@);
            let ghost sub = lines.subrange(start as int, i + 1);
            assert(sub.drop_last() =~= lines.subrange(start as int, i as int));
            if i == start {
                assert(text@ =~= joined(sub));
            }
            i = i + 1;
        }
        assert(lines.subrange(start as int, lines.len() as int) =~= lines.skip(start as int));
        assert(lines.len() <= input_y ==> lines.skip(start as int) =~= lines);
        let history = string_of(text.as_slice());
        // The input row.
        let shell = self.is_shell_mode();
        let input = self.input_text();
        let input_chars = chars_of(input.as_str());
        let body = if shell {
            let mut b: Vec<char> = Vec::new();
            let mut k: usize = 1;
            while k < input_chars.len()
                invariant
                    1 <= k <= input_chars@.len(),
                    b@ == input_chars@.subrange(1, k as int),
                decreases input_chars@.len() - k,
            {
                b.push(input_chars[k]);
                k = k + 1;
                assert(b@ =~= input_chars@.subrange(1, k as int));
            }
            assert(b@ =~= input_chars@.drop_first());
            string_of(b.as_slice())
        } else {
            input
        };
        let history_area = Area { x: 0, y: 0, width, height: input_y };
        let input_area = Area { x: 0, y: input_y, width, height: 1 };
        let help_area = Area { x: 0, y: height - 1, width, height: 1 };
        if shell {
            let hw = text_width(SHELL_HINT) as u16;
            let room = width.saturating_sub(2);
            let hw = if hw < room { hw } else { room };
            let hw = if hw > 1 { hw } else { 1 };
            let hint_area = Some(Area { x: 2, y: input_y.saturating_sub(1), width: hw, height: 1 });
            return Some(PromptView { history, history_area, input_area, help_area, shell, body, hint_area, popup: None });
        }
        // The completion popup.
        let ms = self.matches();
        if ms.len() == 0 {
            return Some(PromptView { history, history_area, input_area, help_area, shell, body, hint_area: None, popup: None });
        }
        proof {
            crate::app::lemma_suggestions_len(self@.input);
            lemma_widest_name_bound(ms@);
        }
        let n: usize = if ms.len() < MAX_SUGGESTIONS { ms.len() } else { MAX_SUGGESTIONS };
        let top = input_y.saturating_sub(n as u16);
        let mut widest: usize = 0;
        let mut j: usize = 0;
        while j < ms.len()
            invariant
                j <= ms@.len(),
                ms@.len() <= 4,
                widest == widest_name(ms@.take(j as int)),
                widest <= 6,
            decreases ms@.len() - j,
        {
            let len = ms[j].name().len();
            proof {
                crate::commands::lemma_name_bytes(ms@[j as int]);
                assert(ms@.take(j + 1).drop_last() =~= ms@.take(j as int));
            }
            if len > widest {
                widest = len;
            }
            j = j + 1;
        }
        assert(ms@.take(ms@.len() as int) =~= ms@);
        let pw = widest as u16 + 4;
        let room = width.saturating_sub(2);
        let pw = if pw < room { pw } else { room };
        let pw = if pw > 1 { pw } else { 1 };
        let inner = (pw as usize).saturating_sub(1);
        let mut rows: Vec<PopupRow> = Vec::new();
        let mut i: usize = 0;
        while i < n
            invariant
                i <= n <= ms@.len(),
                pw as int == popup_width(ms@, width),
                inner == (pw as int) - 1,
                rows@.len() == i,
                forall|k: int|
                    0 <= k < i ==> {
                        &&& (#[trigger] rows@[k]).label@ == popup_label(ms@[k], pw as int)
                        &&& rows@[k].selected == (k == self@.sugg_idx)
                    },
            decreases n - i,
        {
            let mut label: Vec<char> = Vec::new();
            label.push(' ');
            push_padded(&mut label, ms[i].name(), inner);
            assert(label@ =~= popup_label(ms@[i as int], pw as int));
            rows.push(PopupRow { label: string_of(label.as_slice()), selected: i == self.selected_suggestion() });
            i = i + 1;
        }
        let popup = Some(Popup { area: Area { x: 2, y: top, width: pw, height: n as u16 }, rows });
        Some(PromptView { history, history_area, input_area, help_area, shell, body, hint_area: None, popup })
    }
}

} // verus!
