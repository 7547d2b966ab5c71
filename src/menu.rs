//! The application menu: one untitled submenu with the About box, a custom
//! reload item, a separator and the Quit item.

use vstd::prelude::*;
use crate::text::owned;

verus! {

/// An item of the application's own, recognised by its identifier when the
/// user selects it.
pub struct CustomItem {
    pub id: String,
    pub title: String,
    pub accelerator: Option<String>,
}

/// One entry of a submenu.
pub enum MenuEntry {
    /// The platform's About item for the named application.
    About(String),
    /// The platform's separator line.
    Separator,
    /// The platform's Quit item, handled by the host itself.
    Quit,
    /// An item of the application's own.
    Custom(CustomItem),
}

/// A titled list of entries.
pub struct Submenu {
    pub title: String,
    pub items: Vec<MenuEntry>,
}

/// The menu bar: its submenus, in order.
pub struct MenuTree {
    pub submenus: Vec<Submenu>,
}

/// The mathematical form of a `MenuEntry`.
pub enum EntryModel {
    About(Seq<char>),
    Separator,
    Quit,
    Custom { id: Seq<char>, title: Seq<char>, accelerator: Option<Seq<char>> },
}

/// The mathematical form of a `Submenu`.
pub struct SubmenuModel {
    pub title: Seq<char>,
    pub items: Seq<EntryModel>,
}

impl View for CustomItem {
    type V = EntryModel;

    open spec fn view(&self) -> EntryModel {
        EntryModel::Custom {
            id: self.id@,
            title: self.title@,
            accelerator: match self.accelerator {
                Some(a) => Some(a@),
                None => None,
            },
        }
    }
}

impl View for MenuEntry {
    type V = EntryModel;

    open spec fn view(&self) -> EntryModel {
        match self {
            MenuEntry::About(name) => EntryModel::About(name@),
            MenuEntry::Separator => EntryModel::Separator,
            MenuEntry::Quit => EntryModel::Quit,
            MenuEntry::Custom(item) => item@,
        }
    }
}

impl View for Submenu {
    type V = SubmenuModel;

    open spec fn view(&self) -> SubmenuModel {
        SubmenuModel { title: self.title@, items: self.items@.map_values(|e: MenuEntry| e@) }
    }
}

impl View for MenuTree {
    type V = Seq<SubmenuModel>;

    open spec fn view(&self) -> Seq<SubmenuModel> {
        self.submenus@.map_values(|s: Submenu| s@)
    }
}

/// The custom entries of `s`, in order.
pub open spec fn custom_entries(s: Seq<EntryModel>) -> Seq<EntryModel>
    decreases s.len(),
{
    if s.len() == 0 {
        seq![]
    } else if s[0] is Custom {
        seq![s[0]] + custom_entries(s.drop_first())
    } else {
        custom_entries(s.drop_first())
    }
}

/// The platform's own entries of `s`, in order.
pub open spec fn native_entries(s: Seq<EntryModel>) -> Seq<EntryModel>
    decreases s.len(),
{
    if s.len() == 0 {
        seq![]
    } else if s[0] is Custom {
        native_entries(s.drop_first())
    } else {
        seq![s[0]] + native_entries(s.drop_first())
    }
}

/// The name the About box shows.
pub open spec fn app_name() -> Seq<char> {
    "Jell Machine"@
}

/// The custom item that reloads the web content.
pub open spec fn reload_entry() -> EntryModel {
    EntryModel::Custom {
        id: "reload"@,
        title: "Reload"@,
        accelerator: Some("CommandOrControl+R"@),
    }
}

/// The entries of the application's submenu, in order.
pub open spec fn app_menu_items() -> Seq<EntryModel> {
    seq![EntryModel::About(app_name()), reload_entry(), EntryModel::Separator, EntryModel::Quit]
}

/// The whole menu bar of the application.
pub open spec fn app_menu() -> Seq<SubmenuModel> {
    seq![SubmenuModel { title: Seq::empty(), items: app_menu_items() }]
}

/// Builds the application menu. Its one submenu is untitled; among its
/// entries the only custom one is the reload item, and the platform's
/// About, Separator and Quit entries stand in that order.
pub fn build_menu() -> (r: MenuTree)
    ensures
        r@ == app_menu(),
        r@.len() == 1,
        r@[0].title.len() == 0,
        custom_entries(r@[0].items) == seq![reload_entry()],
        native_entries(r@[0].items) == seq![
            EntryModel::About(app_name()),
            EntryModel::Separator,
            EntryModel::Quit,
        ],
{
    let reload = CustomItem {
        id: owned("reload"),
        title: owned("Reload"),
        accelerator: Some(owned("CommandOrControl+R")),
    };
    let items: Vec<MenuEntry> = vec![
        MenuEntry::About(owned("Jell Machine")),
        MenuEntry::Custom(reload),
        MenuEntry::Separator,
        MenuEntry::Quit,
    ];
    let app = Submenu { title: String::new(), items };
    let r = MenuTree { submenus: vec![app] };
    proof {
        assert(app@.items =~= app_menu_items());
        assert(r@ =~= app_menu());
        lemma_app_menu_split();
    }
    r
}

proof fn lemma_app_menu_split()
    ensures
        custom_entries(app_menu_items()) == seq![reload_entry()],
        native_entries(app_menu_items()) == seq![
            EntryModel::About(app_name()),
            EntryModel::Separator,
            EntryModel::Quit,
        ],
{
    let s = app_menu_items();
    let s1 = s.drop_first();
    let s2 = s1.drop_first();
    let s3 = s2.drop_first();
    let s4 = s3.drop_first();
    assert(s1 =~= seq![reload_entry(), EntryModel::Separator, EntryModel::Quit]);
    assert(s2 =~= seq![EntryModel::Separator, EntryModel::Quit]);
    assert(s3 =~= seq![EntryModel::Quit]);
    assert(s4.len() == 0);
    assert(custom_entries(s4) =~= seq![]);
    assert(native_entries(s4) =~= seq![]);
    assert(custom_entries(s3) =~= seq![]);
    assert(custom_entries(s2) =~= seq![]);
    assert(custom_entries(s1) =~= seq![reload_entry()]);
    assert(native_entries(s3) =~= seq![EntryModel::Quit]);
    assert(native_entries(s2) =~= seq![EntryModel::Separator, EntryModel::Quit]);
    assert(native_entries(s1) =~= seq![EntryModel::Separator, EntryModel::Quit]);
    assert(native_entries(s) =~= seq![
        EntryModel::About(app_name()),
        EntryModel::Separator,
        EntryModel::Quit,
    ]);
}

} // verus!
