//! Classification of the `buffer` and `python_script` infolists: the
//! registered Slack teams and whether the Slack plugin is loaded.
use vstd::prelude::*;
use crate::models::SlackTeam;
use crate::relay::{
    first_infolist, has_str_var, item_has_str_variable, item_str, read_str_variable, response_infolist, Infolist,
    InfolistItem, Message,
};
use crate::text::same_text;

verus! {

/// The team an item stands for: its `name`, when its buffer type
/// (`localvar_value_00008`) is `team`.
pub open spec fn item_team(item: InfolistItem) -> Option<Seq<char>> {
    if item_str(item, "localvar_value_00008"@) == Some("team"@) {
        item_str(item, "name"@)
    } else {
        None
    }
}

/// The team names of a buffer infolist, in item order.
pub open spec fn teams_of(items: Seq<InfolistItem>) -> Seq<Seq<char>>
    decreases items.len(),
{
    if items.len() == 0 {
        Seq::empty()
    } else {
        teams_of(items.drop_last()) + match item_team(items.last()) {
            Some(t) => seq![t],
            None => Seq::empty(),
        }
    }
}

/// The team names a buffer infolist reports; none without an infolist.
pub open spec fn registered_teams(infolist: Option<Infolist>) -> Seq<Seq<char>> {
    match infolist {
        Some(il) => teams_of(il.items@),
        None => Seq::empty(),
    }
}

/// The names of a list of teams.
pub open spec fn team_names(teams: Seq<SlackTeam>) -> Seq<Seq<char>> {
    teams.map_values(|t: SlackTeam| t.name@)
}

/// The script name under which the Slack plugin is loaded.
pub open spec fn plugin_name() -> Seq<char> {
    "slack"@
}

/// Whether some item of a script infolist has a string variable `name`
/// whose text is `plugin`; every variable of every item is looked at.
pub open spec fn lists_script(items: Seq<InfolistItem>, plugin: Seq<char>) -> bool {
    exists|i: int| 0 <= i < items.len() && has_str_var(#[trigger] items[i], "name"@, plugin)
}

/// The pair (connection ok, plugin loaded) for a script infolist.
pub open spec fn plugin_check(infolist: Option<Infolist>) -> (bool, bool) {
    match infolist {
        Some(il) => (true, lists_script(il.items@, plugin_name())),
        None => (false, false),
    }
}

/// Adds the item's team, if it stands for one.
pub fn count_slack_team(item: &InfolistItem, teams: &mut Vec<SlackTeam>)
    ensures
        team_names(final(teams)@) == team_names(old(teams)@) + match item_team(*item) {
            Some(t) => seq![t],
            None => Seq::empty(),
        },
{
    proof { reveal_strlit("team"); }
    let is_team = match read_str_variable(item, "localvar_value_00008") {
        Some(kind) => same_text(kind.as_str(), "team"),
        None => false,
    };
    if is_team {
        if let Some(name) = read_str_variable(item, "name") {
            teams.push(SlackTeam { name });
            assert(team_names(teams@) =~= team_names(old(teams)@) + seq![item_team(*item)->0]);
            return;
        }
    }
    assert(team_names(teams@) =~= team_names(old(teams)@) + Seq::empty());
}

/// The Slack teams of a buffer infolist, in item order; none without one.
pub fn build_slack_registered_teams(infolist: &Option<Infolist>) -> (r: Vec<SlackTeam>)
    ensures
        team_names(r@) == registered_teams(*infolist),
{
    let mut teams: Vec<SlackTeam> = Vec::new();
    assert(team_names(teams@) =~= Seq::empty());
    match infolist {
        Some(il) => {
            let n = il.items.len();
            let mut i: usize = 0;
            while i < n
                invariant
                    n == il.items@.len(),
                    i <= n,
                    team_names(teams@) == teams_of(il.items@.subrange(0, i as int)),
                decreases n - i,
            {
                let ghost after = il.items@.subrange(0, i + 1);
                assert(after.drop_last() == il.items@.subrange(0, i as int));
                count_slack_team(&il.items[i], &mut teams);
                i = i + 1;
            }
            assert(il.items@.subrange(0, n as int) == il.items@);
        },
        None => {},
    }
    teams
}

/// The Slack teams a relay response to the buffer request reports.
pub fn slack_teams_from_response(response: Option<Message>) -> (r: Vec<SlackTeam>)
    ensures
        team_names(r@) == registered_teams(response_infolist(response)),
{
    let infolist = first_infolist(response);
    build_slack_registered_teams(&infolist)
}

/// Whether a script infolist lists the Slack plugin.
fn lists_slack_script(il: &Infolist) -> (r: bool)
    ensures
        r == lists_script(il.items@, plugin_name()),
{
    let n = il.items.len();
    let mut i: usize = 0;
    while i < n
        invariant
            n == il.items@.len(),
            i <= n,
            forall|j: int| 0 <= j < i ==> !has_str_var(#[trigger] il.items@[j], "name"@, plugin_name()),
        decreases n - i,
    {
        if item_has_str_variable(&il.items[i], "name", "slack") {
            return true;
        }
        i = i + 1;
    }
    false
}

/// Reads the reply to the python script request: `(false, false)` when
/// no infolist came back, else `(true, loaded)` where `loaded` says
/// whether a script named `slack` is listed.
pub fn check_connection_and_python_wee_slack_plugin(response: Option<Message>) -> (r: (bool, bool))
    ensures
        r == plugin_check(response_infolist(response)),
{
    match first_infolist(response) {
        Some(il) => (true, lists_slack_script(&il)),
        None => (false, false),
    }
}

} // verus!
