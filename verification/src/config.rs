//! The settings of a game: read once at start-up and never changed.

use vstd::prelude::*;
use crate::hoverable::{
    default_hoverable, normalized, Hoverable, HoverableDef, HoverableDefView, HoverableView,
};

verus! {

/// The drinks offered to a player on one level.
#[derive(Debug, Clone, PartialEq, Eq)]
pub struct Menu {
    /// The level, as the decimal number that names it in the settings.
    pub level: String,
    /// The drinks, in the order in which they are shown.
    pub items: Vec<Hoverable>,
}

/// A menu as plain values.
pub struct MenuView {
    pub level: Seq<char>,
    pub items: Seq<HoverableView>,
}

/// The plain values of a list of menu entries.
pub open spec fn items_view(items: Seq<Hoverable>) -> Seq<HoverableView> {
    Seq::new(items.len(), |i: int| items[i]@)
}

impl View for Menu {
    type V = MenuView;

    open spec fn view(&self) -> MenuView {
        MenuView { level: self.level@, items: items_view(self.items@) }
    }
}

/// The plain values of a list of menus.
pub open spec fn menus_view(menus: Seq<Menu>) -> Seq<MenuView> {
    Seq::new(menus.len(), |i: int| menus[i]@)
}

/// The settings of a game.
#[derive(Debug, Clone, PartialEq, Eq)]
pub struct Config {
    /// Seconds between two customers arriving.
    pub customer_arrival_wait: usize,
    /// How many customers the line can hold.
    pub max_line_size: usize,
    /// Blank columns to the right of the drinks menu.
    pub right_side_menu_padding: usize,
    /// The menu of each level. Where two menus name the same level, the
    /// first one counts.
    pub drinks: Vec<Menu>,
}

/// The settings as plain values.
pub struct ConfigView {
    pub customer_arrival_wait: nat,
    pub max_line_size: nat,
    pub right_side_menu_padding: nat,
    pub drinks: Seq<MenuView>,
}

impl View for Config {
    type V = ConfigView;

    open spec fn view(&self) -> ConfigView {
        ConfigView {
            customer_arrival_wait: self.customer_arrival_wait as nat,
            max_line_size: self.max_line_size as nat,
            right_side_menu_padding: self.right_side_menu_padding as nat,
            drinks: menus_view(self.drinks@),
        }
    }
}

/// The character sequence of one decimal digit.
pub open spec fn digit(d: nat) -> Seq<char>
    recommends
        d < 10,
{
    if d == 0 {
        "0"@
    } else if d == 1 {
        "1"@
    } else if d == 2 {
        "2"@
    } else if d == 3 {
        "3"@
    } else if d == 4 {
        "4"@
    } else if d == 5 {
        "5"@
    } else if d == 6 {
        "6"@
    } else if d == 7 {
        "7"@
    } else if d == 8 {
        "8"@
    } else {
        "9"@
    }
}

/// A number written in decimal, without leading zeros.
pub open spec fn decimal(n: nat) -> Seq<char>
    decreases n,
{
    if n < 10 {
        digit(n)
    } else {
        decimal(n / 10) + digit(n % 10)
    }
}

/// The drinks of the first menu that names the level `key`, if any does.
pub open spec fn find_menu(drinks: Seq<MenuView>, key: Seq<char>) -> Option<Seq<HoverableView>>
    decreases drinks.len(),
{
    if drinks.len() == 0 {
        None
    } else if drinks.first().level == key {
        Some(drinks.first().items)
    } else {
        find_menu(drinks.drop_first(), key)
    }
}

/// The settings that hold when a configuration says nothing.
pub open spec fn default_config() -> ConfigView {
    ConfigView {
        customer_arrival_wait: 10,
        max_line_size: 10,
        right_side_menu_padding: 1,
        drinks: seq![
            MenuView {
                level: "0"@,
                items: seq![HoverableView { text: "Coffee"@, ..default_hoverable() }],
            },
        ],
    }
}

/// Seconds between two arrivals when the configuration names none: 10.
pub fn default_customer_arrival_wait() -> (seconds: usize)
    ensures
        seconds == default_config().customer_arrival_wait,
{
    10
}

/// Length of the line when the configuration names none: 10.
pub fn default_max_line_size() -> (size: usize)
    ensures
        size == default_config().max_line_size,
{
    10
}

/// Padding right of the drinks menu when the configuration names none: 1.
pub fn default_right_side_menu_padding() -> (columns: usize)
    ensures
        columns == default_config().right_side_menu_padding,
{
    1
}

/// The menus when the configuration names none: level 0 offers coffee.
pub fn default_drinks() -> (drinks: Vec<Menu>)
    ensures
        menus_view(drinks@) == default_config().drinks,
{
    let coffee = Hoverable { text: "Coffee".to_owned(), ..Hoverable::default() };
    let mut items: Vec<Hoverable> = Vec::new();
    items.push(coffee);
    let menu = Menu { level: "0".to_owned(), items };
    let mut drinks: Vec<Menu> = Vec::new();
    drinks.push(menu);
    proof {
        assert(items_view(menu.items@) =~= default_config().drinks[0].items);
    }
    drinks
}

fn digit_text(d: u8) -> (text: &'static str)
    requires
        d < 10,
    ensures
        text@ == digit(d as nat),
{
    match d {
        0 => "0",
        1 => "1",
        2 => "2",
        3 => "3",
        4 => "4",
        5 => "5",
        6 => "6",
        7 => "7",
        8 => "8",
        _ => "9",
    }
}

/// The name under which the settings list the menu of `level`.
pub fn level_key(level: u8) -> (key: String)
    ensures
        key@ == decimal(level as nat),
{
    let mut key = String::new();
    if level >= 100 {
        key.append(digit_text(level / 100));
    }
    if level >= 10 {
        key.append(digit_text((level / 10) % 10));
    }
    key.append(digit_text(level % 10));
    proof {
        reveal_with_fuel(decimal, 3);
    }
    key
}

/// A menu as it is written down in a configuration.
#[derive(Debug, Clone, PartialEq, Eq)]
pub struct MenuDef {
    pub level: String,
    pub items: Vec<HoverableDef>,
}

/// A configuration as it is written down. A field that is `None` was left
/// out.
#[derive(Debug, Clone, PartialEq, Eq)]
pub struct ConfigDef {
    pub customer_arrival_wait: Option<usize>,
    pub max_line_size: Option<usize>,
    pub right_side_menu_padding: Option<usize>,
    pub drinks: Option<Vec<MenuDef>>,
}

/// A written-down menu as plain values.
pub struct MenuDefView {
    pub level: Seq<char>,
    pub items: Seq<HoverableDefView>,
}

/// A written-down configuration as plain values.
pub struct ConfigDefView {
    pub customer_arrival_wait: Option<nat>,
    pub max_line_size: Option<nat>,
    pub right_side_menu_padding: Option<nat>,
    pub drinks: Option<Seq<MenuDefView>>,
}

/// The plain values of a list of written-down menu entries.
pub open spec fn item_defs_view(items: Seq<HoverableDef>) -> Seq<HoverableDefView> {
    Seq::new(items.len(), |i: int| items[i]@)
}

impl View for MenuDef {
    type V = MenuDefView;

    open spec fn view(&self) -> MenuDefView {
        MenuDefView { level: self.level@, items: item_defs_view(self.items@) }
    }
}

/// The plain values of a list of written-down menus.
pub open spec fn menu_defs_view(menus: Seq<MenuDef>) -> Seq<MenuDefView> {
    Seq::new(menus.len(), |i: int| menus[i]@)
}

/// A number that may have been left out, as a plain value.
pub open spec fn given(number: Option<usize>) -> Option<nat> {
    match number {
        Some(n) => Some(n as nat),
        None => None,
    }
}

impl View for ConfigDef {
    type V = ConfigDefView;

    open spec fn view(&self) -> ConfigDefView {
        ConfigDefView {
            customer_arrival_wait: given(self.customer_arrival_wait),
            max_line_size: given(self.max_line_size),
            right_side_menu_padding: given(self.right_side_menu_padding),
            drinks: match self.drinks {
                Some(menus) => Some(menu_defs_view(menus@)),
                None => None,
            },
        }
    }
}

/// The entries that written-down entries stand for, one for one.
pub open spec fn settled_items(items: Seq<HoverableDefView>) -> Seq<HoverableView> {
    Seq::new(items.len(), |i: int| normalized(items[i]))
}

/// The menu that a written-down menu stands for.
pub open spec fn settled_menu(menu: MenuDefView) -> MenuView {
    MenuView { level: menu.level, items: settled_items(menu.items) }
}

/// The menus that written-down menus stand for, one for one.
pub open spec fn settled_menus(menus: Seq<MenuDefView>) -> Seq<MenuView> {
    Seq::new(menus.len(), |i: int| settled_menu(menus[i]))
}

/// The settings that a written-down configuration stands for: each field
/// as given, and its default where it was left out.
pub open spec fn settled(def: ConfigDefView) -> ConfigView {
    ConfigView {
        customer_arrival_wait: match def.customer_arrival_wait {
            Some(seconds) => seconds,
            None => default_config().customer_arrival_wait,
        },
        max_line_size: match def.max_line_size {
            Some(size) => size,
            None => default_config().max_line_size,
        },
        right_side_menu_padding: match def.right_side_menu_padding {
            Some(columns) => columns,
            None => default_config().right_side_menu_padding,
        },
        drinks: match def.drinks {
            Some(menus) => settled_menus(menus),
            None => default_config().drinks,
        },
    }
}

fn settle_items(defs: Vec<HoverableDef>) -> (items: Vec<Hoverable>)
    ensures
        items_view(items@) == settled_items(item_defs_view(defs@)),
{
    let ghost all = defs@;
    let mut items: Vec<Hoverable> = Vec::new();
    for def in it: defs
        invariant
            it.seq() == all,
            items@.len() == it.index(),
            forall|k: int| 0 <= k < items@.len() ==> (#[trigger] items@[k])@ == normalized(all[k]@),
    {
        items.push(Hoverable::from(def));
    }
    items
}

fn settle_menus(defs: Vec<MenuDef>) -> (menus: Vec<Menu>)
    ensures
        menus_view(menus@) == settled_menus(menu_defs_view(defs@)),
{
    let ghost all = defs@;
    let mut menus: Vec<Menu> = Vec::new();
    for def in it: defs
        invariant
            it.seq() == all,
            menus@.len() == it.index(),
            forall|k: int| 0 <= k < menus@.len() ==> (#[trigger] menus@[k])@ == settled_menu(all[k]@),
    {
        let menu = Menu { level: def.level, items: settle_items(def.items) };
        menus.push(menu);
    }
    menus
}

impl Config {
    /// The settings that a written-down configuration stands for.
    pub fn from_def(def: ConfigDef) -> (cfg: Config)
        ensures
            cfg@ == settled(def@),
    {
        Config {
            customer_arrival_wait: match def.customer_arrival_wait {
                Some(seconds) => seconds,
                None => default_customer_arrival_wait(),
            },
            max_line_size: match def.max_line_size {
                Some(size) => size,
                None => default_max_line_size(),
            },
            right_side_menu_padding: match def.right_side_menu_padding {
                Some(columns) => columns,
                None => default_right_side_menu_padding(),
            },
            drinks: match def.drinks {
                Some(menus) => settle_menus(menus),
                None => default_drinks(),
            },
        }
    }

    /// The drinks offered on `level`: those of the first menu listed
    /// under the decimal name of the level, or `None` where the settings
    /// hold no menu for it.
    pub fn menu_for_level(&self, level: u8) -> (found: Option<&Vec<Hoverable>>)
        ensures
            match found {
                Some(items) => find_menu(self@.drinks, decimal(level as nat)) == Some(
                    items_view(items@),
                ),
                None => find_menu(self@.drinks, decimal(level as nat)) is None,
            },
    {
        let key = level_key(level);
        let ghost all = self@.drinks;
        let mut i: usize = 0;
        proof {
            assert(all.skip(0) =~= all);
        }
        while i < self.drinks.len()
            invariant
                i <= self.drinks.len(),
                all == self@.drinks,
                key@ == decimal(level as nat),
                find_menu(all, key@) == find_menu(all.skip(i as int), key@),
            decreases self.drinks.len() - i,
        {
            proof {
                let rest = all.skip(i as int);
                assert(rest.drop_first() =~= all.skip(i + 1));
            }
            if self.drinks[i].level == key {
                return Some(&self.drinks[i].items);
            }
            i += 1;
        }
        None
    }
}

/// A level has a menu exactly when some menu in the list names it, and
/// its menu is then the first one that does.
pub proof fn lemma_find_menu_is_first_match(drinks: Seq<MenuView>, key: Seq<char>)
    ensures
        find_menu(drinks, key) is None <==> forall|i: int|
            0 <= i < drinks.len() ==> (#[trigger] drinks[i]).level != key,
        find_menu(drinks, key) matches Some(items) ==> exists|i: int|
            {
                &&& 0 <= i < drinks.len()
                &&& (#[trigger] drinks[i]).level == key
                &&& drinks[i].items == items
                &&& forall|j: int| 0 <= j < i ==> (#[trigger] drinks[j]).level != key
            },
    decreases drinks.len(),
{
    if drinks.len() > 0 {
        let rest = drinks.drop_first();
        lemma_find_menu_is_first_match(rest, key);
        if drinks.first().level == key {
        } else {
            if find_menu(rest, key) is None {
                assert forall|i: int| 0 <= i < drinks.len() implies (#[trigger] drinks[i]).level
                    != key by {
                    if i > 0 {
                        assert(rest[i - 1] == drinks[i]);
                    }
                }
            } else {
                let items = find_menu(rest, key)->0;
                let k: int = choose|k: int|
                    {
                        &&& 0 <= k < rest.len()
                        &&& (#[trigger] rest[k]).level == key
                        &&& rest[k].items == items
                        &&& forall|j: int| 0 <= j < k ==> (#[trigger] rest[j]).level != key
                    };
                assert forall|j: int| 0 <= j < k + 1 implies (#[trigger] drinks[j]).level
                    != key by {
                    if j > 0 {
                        assert(rest[j - 1] == drinks[j]);
                    }
                }
            }
        }
    }
}

/// A configuration that says nothing stands for the default settings.
pub proof fn lemma_silent_def_is_default()
    ensures
        settled(
            ConfigDefView {
                customer_arrival_wait: None,
                max_line_size: None,
                right_side_menu_padding: None,
                drinks: None,
            },
        ) == default_config(),
{
}

} // verus!
