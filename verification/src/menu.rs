//! The tray menu: a fixed set of actions, and which of them a state offers.

use vstd::prelude::*;
use crate::command::configuration_line;
use crate::command::open_configuration;
use crate::command::restart_sunshine;
use crate::command::start_sunshine;
use crate::command::stop_sunshine;
use crate::command::systemctl_line;
use crate::command::CommandLine;
use crate::command::ServiceAction;
use crate::state::SunshineState;

verus! {

/// What a menu entry does when the user picks it.
#[derive(Clone, Copy, PartialEq, Eq, Structural, Debug)]
pub enum MenuAction {
    /// Open the daemon's web configuration.
    Configuration,
    /// Restart the daemon.
    Restart,
    /// Start the daemon.
    Startup,
    /// Stop the daemon.
    Shutdown,
    /// Leave the monitor.
    Quit,
}

/// Menu item, the standard one: a labelled entry bound to an action.
#[derive(Clone, Copy, PartialEq, Eq, Structural, Debug)]
pub struct StandardItem {
    /// What the entry does. Label and icon name follow from it.
    pub activate: MenuAction,
    /// Whether the item can be activated or not.
    pub enabled: bool,
}

/// One line of the menu.
#[derive(Clone, Copy, PartialEq, Eq, Structural, Debug)]
pub enum MenuItem {
    /// A labelled entry.
    Standard(StandardItem),
    /// A separator between two groups of entries.
    Separator,
}

impl MenuAction {
    /// The text of the entry.
    pub open spec fn label_text(self) -> Seq<char> {
        match self {
            MenuAction::Configuration => "Configuration"@,
            MenuAction::Restart => "Restart"@,
            MenuAction::Startup => "Startup"@,
            MenuAction::Shutdown => "Shutdown"@,
            MenuAction::Quit => "Quit"@,
        }
    }

    /// The name of the entry's icon in the desktop's icon theme.
    pub open spec fn icon_name_text(self) -> Seq<char> {
        match self {
            MenuAction::Configuration => "configure"@,
            MenuAction::Restart => "view-refresh"@,
            MenuAction::Startup => "media-playback-start"@,
            MenuAction::Shutdown => "kt-stop"@,
            MenuAction::Quit => "gtk-quit"@,
        }
    }

    /// The command behind the action. `Quit` has none: it ends the monitor
    /// itself.
    pub open spec fn command_line(self) -> Option<crate::command::CommandLineView> {
        match self {
            MenuAction::Configuration => Some(configuration_line()),
            MenuAction::Restart => Some(systemctl_line(ServiceAction::Restart.verb_text())),
            MenuAction::Startup => Some(systemctl_line(ServiceAction::Start.verb_text())),
            MenuAction::Shutdown => Some(systemctl_line(ServiceAction::Stop.verb_text())),
            MenuAction::Quit => None,
        }
    }

    /// Returns the text of the entry.
    pub fn label(self) -> (text: &'static str)
        ensures
            text@ == self.label_text(),
    {
        match self {
            MenuAction::Configuration => "Configuration",
            MenuAction::Restart => "Restart",
            MenuAction::Startup => "Startup",
            MenuAction::Shutdown => "Shutdown",
            MenuAction::Quit => "Quit",
        }
    }

    /// Returns the name of the entry's icon.
    pub fn icon_name(self) -> (text: &'static str)
        ensures
            text@ == self.icon_name_text(),
    {
        match self {
            MenuAction::Configuration => "configure",
            MenuAction::Restart => "view-refresh",
            MenuAction::Startup => "media-playback-start",
            MenuAction::Shutdown => "kt-stop",
            MenuAction::Quit => "gtk-quit",
        }
    }

    /// Returns the command that the host runs for the action, or `None` for
    /// `Quit`, on which the host exits.
    pub fn command(self) -> (cmd: Option<CommandLine>)
        ensures
            cmd is Some <==> self != MenuAction::Quit,
            cmd matches Some(line) ==> self.command_line() == Some(line@),
            cmd is None ==> self.command_line() is None,
    {
        match self {
            MenuAction::Configuration => Some(open_configuration()),
            MenuAction::Restart => Some(restart_sunshine()),
            MenuAction::Startup => Some(start_sunshine()),
            MenuAction::Shutdown => Some(stop_sunshine()),
            MenuAction::Quit => None,
        }
    }
}

/// The labelled entry for an action.
pub open spec fn entry(activate: MenuAction, enabled: bool) -> MenuItem {
    MenuItem::Standard(StandardItem { activate, enabled })
}

/// The menu that presents a state, top to bottom: the configuration entry, a
/// separator, the restart entry followed by `Startup` when the daemon is
/// stopped and by `Shutdown` when it is up, a separator, and the quit entry.
/// `Configuration` and `Restart` can be activated only while the daemon is up.
pub open spec fn menu_layout(state: SunshineState) -> Seq<MenuItem> {
    seq![
        entry(MenuAction::Configuration, state.is_up()),
        MenuItem::Separator,
        entry(MenuAction::Restart, state.is_up()),
        if state.is_up() {
            entry(MenuAction::Shutdown, true)
        } else {
            entry(MenuAction::Startup, true)
        },
        MenuItem::Separator,
        entry(MenuAction::Quit, true),
    ]
}

/// An action is available in a menu when the menu holds an enabled entry for
/// it. An entry that is greyed out or left out makes its action unavailable.
pub open spec fn offers(menu: Seq<MenuItem>, action: MenuAction) -> bool {
    menu.contains(entry(action, true))
}

/// What the availability of an action comes to, state by state: `Startup`
/// while the daemon is stopped, `Configuration`, `Restart` and `Shutdown`
/// while it is up, `Quit` always.
pub open spec fn available(state: SunshineState, action: MenuAction) -> bool {
    match action {
        MenuAction::Startup => !state.is_up(),
        MenuAction::Configuration | MenuAction::Restart | MenuAction::Shutdown => state.is_up(),
        MenuAction::Quit => true,
    }
}

/// The menu of a state offers exactly the actions available in that state.
/// So the menu of a stopped daemon offers `Startup` and `Quit` and nothing
/// else, and the menu of a daemon that is up offers everything but `Startup`.
pub proof fn lemma_menu_offers_available(state: SunshineState, action: MenuAction)
    ensures
        offers(menu_layout(state), action) <==> available(state, action),
{
    let menu = menu_layout(state);
    if available(state, action) {
        let at: int = match action {
            MenuAction::Configuration => 0,
            MenuAction::Restart => 2,
            MenuAction::Startup | MenuAction::Shutdown => 3,
            MenuAction::Quit => 5,
        };
        assert(menu[at] == entry(action, true));
    }
}

/// Every state's menu has the same shape: six lines, in three groups parted
/// by separators, with `Configuration` alone in the first and `Quit` alone
/// and enabled in the last.
pub proof fn lemma_menu_shape(state: SunshineState)
    ensures
        menu_layout(state).len() == 6,
        menu_layout(state)[0] == entry(MenuAction::Configuration, state.is_up()),
        menu_layout(state)[1] == MenuItem::Separator,
        menu_layout(state)[2] == entry(MenuAction::Restart, state.is_up()),
        menu_layout(state)[4] == MenuItem::Separator,
        menu_layout(state)[5] == entry(MenuAction::Quit, true),
{
}

} // verus!
