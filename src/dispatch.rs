//! What the shell asks of its host when the user picks a menu item or the
//! web content invokes a command.

use vstd::prelude::*;
use crate::text::{same_text, owned};

verus! {

/// A request to the host runtime.
pub enum HostAction {
    /// End the process with this status code.
    Exit(i32),
    /// Run this script in the window the event came from.
    Eval(String),
}

/// The mathematical form of a `HostAction`.
pub enum ActionModel {
    Exit(i32),
    Eval(Seq<char>),
}

impl View for HostAction {
    type V = ActionModel;

    open spec fn view(&self) -> ActionModel {
        match self {
            HostAction::Exit(code) => ActionModel::Exit(*code),
            HostAction::Eval(script) => ActionModel::Eval(script@),
        }
    }
}

/// The actions of a list, each in its mathematical form.
pub open spec fn actions_view(v: Seq<HostAction>) -> Seq<ActionModel> {
    v.map_values(|a: HostAction| a@)
}

/// Identifier of the menu item that ends the program.
pub open spec fn quit_id() -> Seq<char> {
    "quit"@
}

/// Identifier of the menu item that reloads the web content.
pub open spec fn reload_id() -> Seq<char> {
    "reload"@
}

/// Script that reloads the page shown in a window.
pub open spec fn reload_script() -> Seq<char> {
    "location.reload();"@
}

/// Status code of a regular exit.
pub const EXIT_OK: i32 = 0;

/// The actions owed to a selection of the menu item `id`, in order.
pub open spec fn menu_event_effects(id: Seq<char>) -> Seq<ActionModel> {
    if id == quit_id() {
        seq![ActionModel::Exit(0)]
    } else if id == reload_id() {
        seq![ActionModel::Eval(reload_script())]
    } else {
        seq![]
    }
}

/// The actions owed to an invocation of the `quit` command.
pub open spec fn quit_command_effects() -> Seq<ActionModel> {
    seq![ActionModel::Exit(0)]
}

/// Decides what the host must do when the menu item `id` is selected:
/// `"quit"` ends the process with status 0, `"reload"` reloads the page of
/// the originating window, and any other identifier asks for nothing.
pub fn menu_event_actions(id: &str) -> (r: Vec<HostAction>)
    ensures
        actions_view(r@) == menu_event_effects(id@),
        r@.len() == menu_event_effects(id@).len(),
        forall|i: int| 0 <= i < r@.len() ==> #[trigger] r@[i]@ == menu_event_effects(id@)[i],
{
    let mut r: Vec<HostAction> = Vec::new();
    if same_text(id, "quit") {
        r.push(HostAction::Exit(EXIT_OK));
    } else if same_text(id, "reload") {
        r.push(HostAction::Eval(owned("location.reload();")));
    }
    proof {
        assert(actions_view(r@) =~= menu_event_effects(id@));
        assert forall|i: int| 0 <= i < r@.len() implies #[trigger] r@[i]@ == menu_event_effects(id@)[i] by {
            assert(actions_view(r@)[i] == r@[i]@);
        }
    }
    r
}

/// What the `quit` command asks of the host: end the process with status 0.
pub fn quit() -> (r: Vec<HostAction>)
    ensures
        actions_view(r@) == quit_command_effects(),
        r@.len() == 1,
        r@[0]@ == ActionModel::Exit(0),
{
    let r: Vec<HostAction> = vec![HostAction::Exit(EXIT_OK)];
    proof {
        assert(actions_view(r@) =~= quit_command_effects());
    }
    r
}

/// A command the web content may invoke, with the names of the arguments
/// it passes; the host supplies the application handle itself.
pub struct CommandInfo {
    pub name: String,
    pub params: Vec<String>,
}

/// The mathematical form of a `CommandInfo`.
pub struct CommandModel {
    pub name: Seq<char>,
    pub params: Seq<Seq<char>>,
}

impl View for CommandInfo {
    type V = CommandModel;

    open spec fn view(&self) -> CommandModel {
        CommandModel { name: self.name@, params: self.params@.map_values(|p: String| p@) }
    }
}

/// Why an invocation from the web content was refused.
pub enum CommandError {
    /// No command of this name is registered.
    NotFound(String),
}

/// Name of the command that ends the program.
pub open spec fn quit_command_name() -> Seq<char> {
    "quit"@
}

/// The commands registered with the host.
pub open spec fn command_table() -> Seq<CommandModel> {
    seq![CommandModel { name: quit_command_name(), params: seq![] }]
}

/// The actions owed to an invocation of the command `name`, or `None` where
/// no such command is registered.
pub open spec fn command_effects(name: Seq<char>) -> Option<Seq<ActionModel>> {
    if name == quit_command_name() {
        Some(quit_command_effects())
    } else {
        None
    }
}

/// The commands to register with the host: `quit` alone, which takes no
/// argument from its caller.
pub fn registered_commands() -> (r: Vec<CommandInfo>)
    ensures
        r@.map_values(|c: CommandInfo| c@) == command_table(),
        r@.len() == 1,
        r@[0].name@ == quit_command_name(),
        r@[0].params@.len() == 0,
{
    let quit_info = CommandInfo { name: owned("quit"), params: Vec::new() };
    let r: Vec<CommandInfo> = vec![quit_info];
    proof {
        assert(quit_info@.params =~= seq![]);
        assert(r@.map_values(|c: CommandInfo| c@) =~= command_table());
    }
    r
}

/// Runs the command `name` invoked by the web content: `quit` gives its
/// actions, any other name is refused as not found.
pub fn invoke_command(name: &str) -> (r: Result<Vec<HostAction>, CommandError>)
    ensures
        r is Ok <==> command_effects(name@) is Some,
        r matches Ok(v) ==> Some(actions_view(v@)) == command_effects(name@),
        r matches Err(CommandError::NotFound(n)) ==> n@ == name@,
{
    if same_text(name, "quit") {
        Ok(quit())
    } else {
        Err(CommandError::NotFound(owned(name)))
    }
}

/// A selection of any menu item other than `"quit"` and `"reload"` asks
/// nothing of the host.
pub proof fn lemma_unknown_menu_item_is_ignored(id: Seq<char>)
    requires
        id != quit_id(),
        id != reload_id(),
    ensures
        menu_event_effects(id) == Seq::<ActionModel>::empty(),
{
    assert(menu_event_effects(id) =~= Seq::<ActionModel>::empty());
}

/// Selecting `"reload"` asks for one evaluation of `location.reload();` in
/// the originating window, and for no exit.
pub proof fn lemma_reload_item_evaluates_once()
    ensures
        menu_event_effects(reload_id()) == seq![ActionModel::Eval(reload_script())],
        menu_event_effects(reload_id()).len() == 1,
{
    reveal_strlit("quit");
    reveal_strlit("reload");
    assert(quit_id() != reload_id()) by {
        assert(quit_id().len() != reload_id().len());
    }
}

/// Selecting `"quit"` asks for one exit with status 0, and for no script.
pub proof fn lemma_quit_item_exits_once()
    ensures
        menu_event_effects(quit_id()) == seq![ActionModel::Exit(0)],
        menu_event_effects(quit_id()).len() == 1,
{
}

/// Invoking the `quit` command asks for one exit with status 0 and nothing
/// else, whatever the menu holds.
pub proof fn lemma_quit_command_exits_once()
    ensures
        command_effects(quit_command_name()) == Some(seq![ActionModel::Exit(0)]),
{
}

/// A command can be invoked exactly when it is registered.
pub proof fn lemma_invocable_iff_registered(name: Seq<char>)
    ensures
        command_effects(name) is Some <==> exists|i: int|
            0 <= i < command_table().len() && #[trigger] command_table()[i].name == name,
{
    if command_effects(name) is Some {
        assert(command_table()[0].name == name);
    }
}

} // verus!
