//! Menu items: a piece of text with a style, shown in reverse video while
//! the cursor hovers over it.

use vstd::prelude::*;

verus! {

/// Escape sequence that switches the terminal to reverse video.
pub const REVERSE: &'static str = "\x1B[7m";

/// Escape sequence that switches every terminal attribute off.
pub const RESET: &'static str = "\x1B[0m";

/// The characters of [`REVERSE`].
pub open spec fn reverse_code() -> Seq<char> {
    "\x1B[7m"@
}

/// The characters of [`RESET`].
pub open spec fn reset_code() -> Seq<char> {
    "\x1B[0m"@
}

/// One entry of a menu.
#[derive(Debug, PartialEq, Eq)]
pub struct Hoverable {
    /// What the entry says.
    pub text: String,
    /// The escape sequence that sets the style of the entry.
    pub font: String,
    /// Whether the cursor is on the entry.
    pub hovered: bool,
}

/// A menu entry as plain values.
pub struct HoverableView {
    pub text: Seq<char>,
    pub font: Seq<char>,
    pub hovered: bool,
}

impl View for Hoverable {
    type V = HoverableView;

    open spec fn view(&self) -> HoverableView {
        HoverableView { text: self.text@, font: self.font@, hovered: self.hovered }
    }
}

/// The entry that stands for "nothing configured": no text, the reset
/// style, not hovered.
pub open spec fn default_hoverable() -> HoverableView {
    HoverableView { text: Seq::empty(), font: reset_code(), hovered: false }
}

/// What the terminal is sent for an entry: its style, the reverse-video
/// switch if it is hovered, its text, and a final reset.
pub open spec fn styled(h: HoverableView) -> Seq<char> {
    if h.hovered {
        h.font + reverse_code() + h.text + reset_code()
    } else {
        h.font + h.text + reset_code()
    }
}

/// The text of an entry for which none is given: empty.
pub fn default_text() -> (text: String)
    ensures
        text@ == Seq::<char>::empty(),
{
    String::new()
}

/// The style of an entry for which none is given: [`RESET`].
pub fn default_font() -> (font: String)
    ensures
        font@ == reset_code(),
{
    RESET.to_owned()
}

/// Whether an entry is hovered when nothing says so: it is not.
pub fn default_hovered() -> (hovered: bool)
    ensures
        !hovered,
{
    false
}

impl Clone for Hoverable {
    fn clone(&self) -> (copy: Hoverable)
        ensures
            copy@ == self@,
    {
        Hoverable { text: self.text.clone(), font: self.font.clone(), hovered: self.hovered }
    }
}

impl Default for Hoverable {
    fn default() -> (h: Hoverable)
        ensures
            h@ == default_hoverable(),
    {
        Hoverable { text: default_text(), font: default_font(), hovered: default_hovered() }
    }
}

impl Hoverable {
    /// The entry as it is written to the terminal.
    pub fn to_string(&self) -> (out: String)
        ensures
            out@ == styled(self@),
    {
        let mut out = self.font.clone();
        if self.hovered {
            out.append(REVERSE);
        }
        out.append(self.text.as_str());
        out.append(RESET);
        out
    }
}

/// A menu entry as it is written down in a configuration: either just
/// its text, or a record in which any field may be left out.
#[derive(Debug, Clone, PartialEq, Eq)]
pub enum HoverableDef {
    Text(String),
    Full(HoverableFull),
}

/// The record form of a menu entry. A field that is `None` was left out.
#[derive(Debug, Clone, PartialEq, Eq)]
pub struct HoverableFull {
    pub text: Option<String>,
    pub font: Option<String>,
    pub hovered: Option<bool>,
}

/// The record form of a menu entry as plain values.
pub struct HoverableFullView {
    pub text: Option<Seq<char>>,
    pub font: Option<Seq<char>>,
    pub hovered: Option<bool>,
}

/// A written-down menu entry as plain values.
pub enum HoverableDefView {
    Text(Seq<char>),
    Full(HoverableFullView),
}

impl View for HoverableFull {
    type V = HoverableFullView;

    open spec fn view(&self) -> HoverableFullView {
        HoverableFullView {
            text: match self.text {
                Some(t) => Some(t@),
                None => None,
            },
            font: match self.font {
                Some(f) => Some(f@),
                None => None,
            },
            hovered: self.hovered,
        }
    }
}

impl View for HoverableDef {
    type V = HoverableDefView;

    open spec fn view(&self) -> HoverableDefView {
        match self {
            HoverableDef::Text(t) => HoverableDefView::Text(t@),
            HoverableDef::Full(full) => HoverableDefView::Full(full@),
        }
    }
}

/// The menu entry that a written-down entry stands for. A bare text gets
/// the default style and is not hovered; in a record, each field that was
/// left out gets its default.
pub open spec fn normalized(def: HoverableDefView) -> HoverableView {
    match def {
        HoverableDefView::Text(text) => HoverableView { text, ..default_hoverable() },
        HoverableDefView::Full(full) => HoverableView {
            text: match full.text {
                Some(t) => t,
                None => default_hoverable().text,
            },
            font: match full.font {
                Some(f) => f,
                None => default_hoverable().font,
            },
            hovered: match full.hovered {
                Some(h) => h,
                None => default_hoverable().hovered,
            },
        },
    }
}

/// Ghost code cannot build a `String`, so `from_spec` is left open and the
/// conversion is described over views, by the `ensures` of `from`.
impl vstd::std_specs::convert::FromSpecImpl<HoverableDef> for Hoverable {
    open spec fn obeys_from_spec() -> bool {
        false
    }

    open spec fn from_spec(hd: HoverableDef) -> Hoverable {
        arbitrary()
    }
}

impl From<HoverableDef> for Hoverable {
    /// Turns a written-down entry into the entry it stands for.
    fn from(hd: HoverableDef) -> (h: Hoverable)
        ensures
            h@ == normalized(hd@),
    {
        match hd {
            HoverableDef::Text(text) => Hoverable {
                text,
                font: default_font(),
                hovered: default_hovered(),
            },
            HoverableDef::Full(full) => Hoverable {
                text: match full.text {
                    Some(t) => t,
                    None => default_text(),
                },
                font: match full.font {
                    Some(f) => f,
                    None => default_font(),
                },
                hovered: match full.hovered {
                    Some(h) => h,
                    None => default_hovered(),
                },
            },
        }
    }
}

/// A bare text stands for the same entry as the record that holds this
/// text, the default style and `hovered: false`, and as the record that
/// holds this text and leaves the other fields out.
pub proof fn lemma_text_is_shorthand(text: Seq<char>)
    ensures
        normalized(HoverableDefView::Text(text)) == normalized(
            HoverableDefView::Full(
                HoverableFullView { text: Some(text), font: Some(reset_code()), hovered: Some(false) },
            ),
        ),
        normalized(HoverableDefView::Text(text)) == normalized(
            HoverableDefView::Full(HoverableFullView { text: Some(text), font: None, hovered: None }),
        ),
{
}

} // verus!
