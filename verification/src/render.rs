//! What is shown on the screen: the panels of a frame, the columns they
//! stand in, and the writes that turn the frame on the screen into the next
//! one.

use vstd::prelude::*;
use vstd::utf8::encode_utf8;
use crate::config::{decimal, find_menu, items_view, menus_view, Config, ConfigView, MenuView};
use crate::hoverable::{styled, Hoverable, HoverableView};

verus! {

/// How long the display rests between two ticks: a tenth of a second, in
/// nanoseconds.
pub const TICK_NANOS: u128 = 100_000_000;

/// The glyph for a place in the line that is taken.
pub const OCCUPIED: char = '|';

/// The glyph for a place in the line that is free.
pub const EMPTY: char = '-';

/// The line of customers as a bar: one glyph for each place, the taken
/// places first.
pub open spec fn bar(queue_length: nat, max_line_size: nat) -> Seq<char> {
    Seq::new(max_line_size, |i: int| if i < queue_length { OCCUPIED } else { EMPTY })
}

/// The line of a menu that shows one drink.
pub open spec fn menu_line(item: HoverableView) -> Seq<char> {
    "  "@ + styled(item)
}

/// The lines of a menu, one for each drink, with a line break between
/// each two.
pub open spec fn menu_lines(items: Seq<HoverableView>) -> Seq<char>
    decreases items.len(),
{
    if items.len() == 0 {
        Seq::empty()
    } else if items.len() == 1 {
        menu_line(items[0])
    } else {
        menu_lines(items.drop_last()) + "\n"@ + menu_line(items.last())
    }
}

/// The drinks panel for a player on `level`: a heading, then the menu of
/// that level, or a notice where the settings hold none.
pub open spec fn drinks_panel(cfg: ConfigView, level: nat) -> Seq<char> {
    "Drinks:\n"@ + match find_menu(cfg.drinks, decimal(level)) {
        Some(items) => menu_lines(items),
        None => "  No drinks available."@,
    }
}

/// Draws the line of customers as a bar of `max_line_size` glyphs, of
/// which the first `queue_length` show a taken place.
pub fn queue_bar(queue_length: usize, max_line_size: usize) -> (panel: String)
    ensures
        panel@ == bar(queue_length as nat, max_line_size as nat),
        panel@.len() == max_line_size,
        forall|i: int| 0 <= i < queue_length && i < max_line_size ==> panel@[i] == OCCUPIED,
        forall|i: int| queue_length <= i < max_line_size ==> panel@[i] == EMPTY,
{
    let mut panel = String::new();
    let mut i: usize = 0;
    while i < max_line_size
        invariant
            i <= max_line_size,
            panel@ == bar(queue_length as nat, i as nat),
        decreases max_line_size - i,
    {
        proof {
            reveal_strlit("|");
            reveal_strlit("-");
        }
        if i < queue_length {
            panel.append("|");
        } else {
            panel.append("-");
        }
        i += 1;
    }
    panel
}

/// Draws the drinks panel for a player on `level`.
pub fn drinks_menu(cfg: &Config, level: u8) -> (panel: String)
    ensures
        panel@ == drinks_panel(cfg@, level as nat),
        find_menu(cfg@.drinks, decimal(level as nat)) is None ==> panel@ == "Drinks:\n"@
            + "  No drinks available."@,
{
    let mut panel = "Drinks:\n".to_owned();
    match cfg.menu_for_level(level) {
        Some(items) => {
            let ghost all = items_view(items@);
            let mut i: usize = 0;
            while i < items.len()
                invariant
                    i <= items.len(),
                    all == items_view(items@),
                    panel@ == "Drinks:\n"@ + menu_lines(all.take(i as int)),
                decreases items.len() - i,
            {
                if i > 0 {
                    panel.append("\n");
                }
                panel.append("  ");
                let item = items[i].to_string();
                panel.append(item.as_str());
                proof {
                    let upto = all.take(i + 1);
                    assert(upto.drop_last() =~= all.take(i as int));
                }
                i += 1;
            }
            proof {
                assert(all.take(i as int) =~= all);
            }
        },
        None => {
            panel.append("  No drinks available.");
        },
    }
    panel
}

/// The number of panels in a frame: the drinks menu and the line.
pub const PANELS: usize = 2;

/// The width of a line of text, which is the number of bytes it takes.
pub open spec fn line_width(line: Seq<char>) -> nat {
    encode_utf8(line).len()
}

/// The larger of two widths.
pub open spec fn wider(a: nat, b: nat) -> nat {
    if a >= b {
        a
    } else {
        b
    }
}

/// The width of the widest line of a menu, its heading included.
pub open spec fn menu_width(items: Seq<HoverableView>) -> nat
    decreases items.len(),
{
    if items.len() == 0 {
        line_width("Drinks:"@)
    } else {
        wider(menu_width(items.drop_last()), line_width(menu_line(items.last())))
    }
}

/// The width of the widest line of any menu, or 0 where there is no menu.
pub open spec fn drinks_width(menus: Seq<MenuView>) -> nat
    decreases menus.len(),
{
    if menus.len() == 0 {
        0
    } else {
        wider(drinks_width(menus.drop_last()), menu_width(menus.last().items))
    }
}

fn text_width(line: &str) -> (width: usize)
    ensures
        width == line_width(line@),
{
    line.as_bytes().len()
}

fn menu_line_width(item: &Hoverable) -> (width: usize)
    ensures
        width == line_width(menu_line(item@)),
{
    let mut line = "  ".to_owned();
    let text = item.to_string();
    line.append(text.as_str());
    text_width(line.as_str())
}

/// The width that the drinks panel needs, whichever level the player is
/// on: that of the widest line of any menu in the settings.
pub fn max_drinks_width(cfg: &Config) -> (width: usize)
    ensures
        width == drinks_width(cfg@.drinks),
{
    let ghost all = cfg@.drinks;
    let mut width: usize = 0;
    let mut m: usize = 0;
    while m < cfg.drinks.len()
        invariant
            m <= cfg.drinks.len(),
            all == menus_view(cfg.drinks@),
            width == drinks_width(all.take(m as int)),
        decreases cfg.drinks.len() - m,
    {
        let items = &cfg.drinks[m].items;
        let ghost lines = items_view(items@);
        let mut widest: usize = text_width("Drinks:");
        let mut i: usize = 0;
        while i < items.len()
            invariant
                i <= items.len(),
                lines == items_view(items@),
                widest == menu_width(lines.take(i as int)),
            decreases items.len() - i,
        {
            let w: usize = menu_line_width(&items[i]);
            proof {
                let upto = lines.take(i + 1);
                assert(upto.drop_last() =~= lines.take(i as int));
            }
            if w > widest {
                widest = w;
            }
            i += 1;
        }
        proof {
            assert(lines.take(i as int) =~= lines);
            let upto = all.take(m + 1);
            assert(upto.drop_last() =~= all.take(m as int));
        }
        if widest > width {
            width = widest;
        }
        m += 1;
    }
    proof {
        assert(all.take(m as int) =~= all);
    }
    width
}

/// The widths of the panels for these settings, left to right: the
/// drinks panel is as wide as the widest menu line and the padding right
/// of it, and the line panel has one column for each place in the line.
pub open spec fn panel_widths(cfg: ConfigView) -> Seq<nat> {
    seq![cfg.right_side_menu_padding + drinks_width(cfg.drinks), cfg.max_line_size]
}

/// The screen column in which panel `i` starts. The first panel starts in
/// column 1, and each further one where the panel left of it ends.
pub open spec fn column_at(widths: Seq<nat>, i: nat) -> nat
    decreases i,
{
    if i == 0 {
        1
    } else {
        column_at(widths, (i - 1) as nat) + widths[i - 1]
    }
}

/// Where the panels stand on the screen.
#[derive(Debug, PartialEq, Eq)]
pub struct Layout {
    widths: Vec<usize>,
    columns: Vec<usize>,
}

impl View for Layout {
    type V = Seq<nat>;

    /// The widths of the panels, left to right.
    closed spec fn view(&self) -> Seq<nat> {
        Seq::new(self.widths@.len(), |i: int| self.widths@[i] as nat)
    }
}

impl Layout {
    #[verifier::type_invariant]
    spec fn columns_follow_widths(self) -> bool {
        &&& self.widths@.len() == PANELS
        &&& self.columns@.len() == PANELS
        &&& forall|i: nat| i < PANELS ==> #[trigger] column_at(self@, i) == self.columns@[i as int]
        &&& column_at(self@, PANELS as nat) <= usize::MAX
    }

    /// Lays the panels out for these settings. The result is `None` where
    /// the panels would reach beyond the largest column that a `usize` can
    /// name.
    pub fn new(cfg: &Config) -> (layout: Option<Layout>)
        ensures
            layout is Some <==> column_at(panel_widths(cfg@), PANELS as nat) <= usize::MAX,
            layout matches Some(l) ==> l@ == panel_widths(cfg@),
    {
        proof {
            reveal_with_fuel(column_at, 3);
        }
        let drinks: usize = match cfg.right_side_menu_padding.checked_add(max_drinks_width(cfg)) {
            Some(w) => w,
            None => {
                return None;
            },
        };
        let line: usize = cfg.max_line_size;
        let line_column: usize = match drinks.checked_add(1) {
            Some(c) => c,
            None => {
                return None;
            },
        };
        if line_column.checked_add(line).is_none() {
            return None;
        }
        let mut widths: Vec<usize> = Vec::new();
        widths.push(drinks);
        widths.push(line);
        let mut columns: Vec<usize> = Vec::new();
        columns.push(1);
        columns.push(line_column);
        Some(Layout { widths, columns })
    }

    /// The widths of the panels, left to right.
    pub fn widths(&self) -> (widths: &Vec<usize>)
        ensures
            widths@.len() == self@.len(),
            forall|i: int| 0 <= i < widths@.len() ==> widths@[i] == self@[i],
    {
        &self.widths
    }

    /// The columns in which the panels start, left to right.
    pub fn columns(&self) -> (columns: &Vec<usize>)
        ensures
            columns@.len() == self@.len(),
            self@.len() == PANELS,
            forall|i: int| 0 <= i < columns@.len() ==> columns@[i] == column_at(self@, i as nat),
    {
        proof {
            use_type_invariant(self);
        }
        &self.columns
    }
}

/// The panels of one tick of the display, left to right.
#[derive(Debug, PartialEq, Eq)]
pub struct Frame {
    panels: Vec<String>,
}

impl View for Frame {
    type V = Seq<Seq<char>>;

    /// The text of each panel.
    closed spec fn view(&self) -> Seq<Seq<char>> {
        Seq::new(self.panels@.len(), |i: int| self.panels@[i]@)
    }
}

/// The frame for a player on `level` and a line of `queue_length`
/// customers.
pub open spec fn frame_of(cfg: ConfigView, level: nat, queue_length: nat) -> Seq<Seq<char>> {
    seq![drinks_panel(cfg, level), bar(queue_length, cfg.max_line_size)]
}

/// The frame of a screen on which nothing has been drawn yet.
pub open spec fn blank_frame() -> Seq<Seq<char>> {
    seq![Seq::<char>::empty(), Seq::<char>::empty()]
}

impl Frame {
    #[verifier::type_invariant]
    spec fn has_every_panel(self) -> bool {
        self.panels@.len() == PANELS
    }

    /// The frame of a screen on which nothing has been drawn yet: every
    /// panel is empty.
    pub fn blank() -> (frame: Frame)
        ensures
            frame@ == blank_frame(),
    {
        let mut panels: Vec<String> = Vec::new();
        panels.push(String::new());
        panels.push(String::new());
        Frame { panels }
    }

    /// The text of each panel, left to right.
    pub fn panels(&self) -> (panels: &Vec<String>)
        ensures
            panels@.len() == PANELS,
            self@.len() == PANELS,
            forall|i: int| 0 <= i < PANELS ==> (#[trigger] panels@[i])@ == self@[i],
    {
        proof {
            use_type_invariant(self);
        }
        &self.panels
    }
}

/// Computes what the screen has to show for a player on `level` and a line
/// of `queue_length` customers.
pub fn render_frame(cfg: &Config, level: u8, queue_length: usize) -> (frame: Frame)
    ensures
        frame@ == frame_of(cfg@, level as nat, queue_length as nat),
{
    let mut panels: Vec<String> = Vec::new();
    panels.push(drinks_menu(cfg, level));
    panels.push(queue_bar(queue_length, cfg.max_line_size));
    Frame { panels }
}

/// A text filled up with blanks on the right until it has `width`
/// characters; a text that has as many or more is left as it is.
pub open spec fn padded(text: Seq<char>, width: nat) -> Seq<char> {
    if text.len() >= width {
        text
    } else {
        text + Seq::new((width - text.len()) as nat, |i: int| ' ')
    }
}

/// Fills `text` up with blanks on the right until it has `width`
/// characters.
pub fn pad_to_width(text: &str, width: usize) -> (out: String)
    ensures
        out@ == padded(text@, width as nat),
{
    let mut out = text.to_owned();
    let mut len: usize = text.unicode_len();
    if len >= width {
        return out;
    }
    while len < width
        invariant
            text@.len() <= len <= width,
            out@ == text@ + Seq::new((len - text@.len()) as nat, |i: int| ' '),
        decreases width - len,
    {
        proof {
            reveal_strlit(" ");
        }
        out.append(" ");
        len += 1;
    }
    out
}

/// One write to the screen: `text`, put down in the first row from
/// `column` on.
#[derive(Debug, Clone, PartialEq, Eq)]
pub struct PanelWrite {
    pub column: usize,
    pub text: String,
}

/// A write to the screen as plain values.
pub struct PanelWriteView {
    pub column: nat,
    pub text: Seq<char>,
}

impl View for PanelWrite {
    type V = PanelWriteView;

    open spec fn view(&self) -> PanelWriteView {
        PanelWriteView { column: self.column as nat, text: self.text@ }
    }
}

/// The plain values of a list of writes.
pub open spec fn writes_view(writes: Seq<PanelWrite>) -> Seq<PanelWriteView> {
    Seq::new(writes.len(), |i: int| writes[i]@)
}

/// The write that redraws panel `i` of the frame `current`: its text,
/// padded to the width of the panel so that nothing of a wider text stays
/// behind, in the column of the panel.
pub open spec fn panel_write(current: Seq<Seq<char>>, widths: Seq<nat>, i: int) -> PanelWriteView {
    PanelWriteView { column: column_at(widths, i as nat), text: padded(current[i], widths[i]) }
}

/// The writes that redraw those of the first `n` panels in which `current`
/// differs from `last`, left to right.
pub open spec fn writes_upto(
    last: Seq<Seq<char>>,
    current: Seq<Seq<char>>,
    widths: Seq<nat>,
    n: nat,
) -> Seq<PanelWriteView>
    decreases n,
{
    if n == 0 {
        Seq::empty()
    } else {
        let before = writes_upto(last, current, widths, (n - 1) as nat);
        if last[n - 1] == current[n - 1] {
            before
        } else {
            before.push(panel_write(current, widths, n - 1))
        }
    }
}

/// The writes that turn a screen that shows `last` into one that shows
/// `current`: one for each panel that differs, left to right, and none
/// for a panel that is the same.
pub open spec fn frame_writes(
    last: Seq<Seq<char>>,
    current: Seq<Seq<char>>,
    widths: Seq<nat>,
) -> Seq<PanelWriteView> {
    writes_upto(last, current, widths, current.len())
}

/// Compares two frames panel by panel and returns the writes that redraw
/// the panels that differ.
pub fn diff_frames(last: &Frame, current: &Frame, layout: &Layout) -> (writes: Vec<PanelWrite>)
    ensures
        writes_view(writes@) == frame_writes(last@, current@, layout@),
{
    let old_panels = last.panels();
    let new_panels = current.panels();
    let widths = layout.widths();
    let columns = layout.columns();
    let mut writes: Vec<PanelWrite> = Vec::new();
    let mut i: usize = 0;
    while i < PANELS
        invariant
            i <= PANELS,
            old_panels@.len() == PANELS,
            new_panels@.len() == PANELS,
            widths@.len() == PANELS,
            columns@.len() == PANELS,
            last@.len() == PANELS,
            current@.len() == PANELS,
            layout@.len() == PANELS,
            forall|k: int| 0 <= k < PANELS ==> (#[trigger] old_panels@[k])@ == last@[k],
            forall|k: int| 0 <= k < PANELS ==> (#[trigger] new_panels@[k])@ == current@[k],
            forall|k: int| 0 <= k < PANELS ==> widths@[k] == layout@[k],
            forall|k: int| 0 <= k < PANELS ==> columns@[k] == column_at(layout@, k as nat),
            writes_view(writes@) == writes_upto(last@, current@, layout@, i as nat),
        decreases PANELS - i,
    {
        if !(old_panels[i] == new_panels[i]) {
            let text = pad_to_width(new_panels[i].as_str(), widths[i]);
            writes.push(PanelWrite { column: columns[i], text });
        }
        i += 1;
    }
    writes
}

/// One tick of the display: computes the frame for the state that was
/// read, returns the writes that bring the screen up to it, and remembers
/// it as the frame on the screen. The screen needs flushing exactly when
/// the returned list is not empty.
pub fn render_tick(
    cfg: &Config,
    layout: &Layout,
    level: u8,
    queue_length: usize,
    last: &mut Frame,
) -> (writes: Vec<PanelWrite>)
    ensures
        writes_view(writes@) == frame_writes(
            old(last)@,
            frame_of(cfg@, level as nat, queue_length as nat),
            layout@,
        ),
        final(last)@ == frame_of(cfg@, level as nat, queue_length as nat),
{
    let current = render_frame(cfg, level, queue_length);
    let writes = diff_frames(last, &current, layout);
    *last = current;
    writes
}

/// The heading of a menu is no wider than the menu.
pub proof fn lemma_heading_fits(items: Seq<HoverableView>)
    ensures
        line_width("Drinks:"@) <= menu_width(items),
    decreases items.len(),
{
    if items.len() > 0 {
        lemma_heading_fits(items.drop_last());
    }
}

/// No line of a menu is wider than the menu.
pub proof fn lemma_menu_width_bounds(items: Seq<HoverableView>, i: int)
    requires
        0 <= i < items.len(),
    ensures
        line_width(menu_line(items[i])) <= menu_width(items),
    decreases items.len(),
{
    if i < items.len() - 1 {
        lemma_menu_width_bounds(items.drop_last(), i);
    }
}

/// No menu is wider than the drinks panel: the panel has room for every
/// line of every level.
pub proof fn lemma_drinks_width_bounds(menus: Seq<MenuView>, m: int)
    requires
        0 <= m < menus.len(),
    ensures
        menu_width(menus[m].items) <= drinks_width(menus),
    decreases menus.len(),
{
    if m < menus.len() - 1 {
        lemma_drinks_width_bounds(menus.drop_last(), m);
    }
}

/// Among the first `n` panels, the writes are those of the panels that
/// differ: each such panel has its write, and every write is that of such
/// a panel.
pub proof fn lemma_writes_are_the_changed_panels(
    last: Seq<Seq<char>>,
    current: Seq<Seq<char>>,
    widths: Seq<nat>,
    n: nat,
)
    ensures
        forall|i: int|
            0 <= i < n && last[i] != current[i] ==> writes_upto(last, current, widths, n).contains(
                #[trigger] panel_write(current, widths, i),
            ),
        forall|w: PanelWriteView| #[trigger]
            writes_upto(last, current, widths, n).contains(w) ==> exists|i: int|
                0 <= i < n && last[i] != current[i] && w == panel_write(current, widths, i),
    decreases n,
{
    if n > 0 {
        let before = writes_upto(last, current, widths, (n - 1) as nat);
        let now = writes_upto(last, current, widths, n);
        lemma_writes_are_the_changed_panels(last, current, widths, (n - 1) as nat);
        if last[n - 1] != current[n - 1] {
            let added = panel_write(current, widths, n - 1);
            assert(now[now.len() - 1] == added);
            assert forall|i: int| 0 <= i < n && last[i] != current[i] implies now.contains(
                #[trigger] panel_write(current, widths, i),
            ) by {
                if i < n - 1 {
                    let w = panel_write(current, widths, i);
                    let k: int = choose|k: int| 0 <= k < before.len() && before[k] == w;
                    assert(now[k] == w);
                }
            }
            assert forall|w: PanelWriteView| #[trigger] now.contains(w) implies exists|i: int|
                0 <= i < n && last[i] != current[i] && w == panel_write(current, widths, i) by {
                let k: int = choose|k: int| 0 <= k < now.len() && now[k] == w;
                if k < before.len() {
                    assert(before.contains(w));
                }
            }
        }
    }
}

/// A padded text starts with the text itself, goes on with blanks only,
/// and covers the whole width, so that it wipes out whatever stood in the
/// panel before.
pub proof fn lemma_padded_covers_width(text: Seq<char>, width: nat)
    ensures
        padded(text, width).len() == wider(text.len(), width),
        padded(text, width).subrange(0, text.len() as int) == text,
        forall|i: int| text.len() <= i < padded(text, width).len() ==> padded(text, width)[i] == ' ',
{
    assert(padded(text, width).subrange(0, text.len() as int) =~= text);
}

/// Among the first `n` panels there is nothing to write exactly when the
/// two frames agree on all of them.
pub proof fn lemma_writes_upto_empty(
    last: Seq<Seq<char>>,
    current: Seq<Seq<char>>,
    widths: Seq<nat>,
    n: nat,
)
    ensures
        writes_upto(last, current, widths, n).len() == 0 <==> forall|k: int|
            0 <= k < n ==> last[k] == current[k],
        writes_upto(last, current, widths, n).len() <= n,
    decreases n,
{
    if n > 0 {
        lemma_writes_upto_empty(last, current, widths, (n - 1) as nat);
    }
}

/// Two frames of the same number of panels need no write, and the screen
/// no flush, exactly when they are the same frame.
pub proof fn lemma_no_writes_iff_unchanged(
    last: Seq<Seq<char>>,
    current: Seq<Seq<char>>,
    widths: Seq<nat>,
)
    requires
        last.len() == current.len(),
    ensures
        frame_writes(last, current, widths).len() == 0 <==> last == current,
        frame_writes(last, current, widths).len() <= current.len(),
{
    lemma_writes_upto_empty(last, current, widths, current.len());
    if frame_writes(last, current, widths).len() == 0 {
        assert(last =~= current);
    }
}

/// A screen that shows a frame needs no write to show it again.
pub proof fn lemma_same_frame_is_idle(frame: Seq<Seq<char>>, widths: Seq<nat>)
    ensures
        frame_writes(frame, frame, widths) == Seq::<PanelWriteView>::empty(),
{
    lemma_no_writes_iff_unchanged(frame, frame, widths);
    assert(frame_writes(frame, frame, widths) =~= Seq::<PanelWriteView>::empty());
}

} // verus!
