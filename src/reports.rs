//! What the team and registration commands tell the user.
use vstd::prelude::*;
use crate::config::lines_view;
use crate::models::SlackTeam;
use crate::registration::{ErrorView, Outcome, RegistrationError};
use crate::slack::team_names;
use crate::text::{concat, nat_decimal, nat_to_text};

verus! {

/// The exit status of a finished registration: 0 when the token was
/// sent, found teams or not, 1 when it stopped on an error.
pub fn exit_code(outcome: &Outcome) -> (r: i32)
    ensures
        r == match outcome {
            Outcome::Registered(_) => 0i32,
            Outcome::Failed(_) => 1i32,
        },
{
    match outcome {
        Outcome::Registered(_) => 0,
        Outcome::Failed(_) => 1,
    }
}

/// The diagnostic for each registration error.
pub open spec fn error_lines(e: ErrorView) -> Seq<Seq<char>> {
    match e {
        ErrorView::ConnectionFailed => seq![
            "Error : could not check if wee-slack python plugin is loaded in weechat."@,
            "Did you correctly configure the weechat-relay connection ?"@,
        ],
        ErrorView::PluginNotLoaded => seq![
            "Error : wee-slack python plugin is not loaded in weechat."@,
            "Did you correctly install wee_slack.py python script ?"@,
        ],
        ErrorView::ProcessSpawnFailed(p) => seq![
            "Error : could not start "@ + p + "."@,
            "Please check that "@ + p + " is present in $PATH"@,
        ],
        ErrorView::ProcessNotResponding => seq![
            "Error : weechat did not quit after the /quit command."@,
            "You may stop it with the 'kill' command, then register again."@,
        ],
    }
}

fn two_lines(a: String, b: String) -> (r: Vec<String>)
    ensures
        lines_view(r@) == seq![a@, b@],
{
    let mut v: Vec<String> = Vec::new();
    v.push(a);
    v.push(b);
    assert(lines_view(v@) =~= seq![a@, b@]);
    v
}

/// The diagnostic printed when a registration stops on `e`.
pub fn registration_error_lines(e: &RegistrationError) -> (r: Vec<String>)
    ensures
        lines_view(r@) == error_lines(e@),
{
    match e {
        RegistrationError::ConnectionFailed => two_lines(
            String::from_str("Error : could not check if wee-slack python plugin is loaded in weechat."),
            String::from_str("Did you correctly configure the weechat-relay connection ?"),
        ),
        RegistrationError::PluginNotLoaded => two_lines(
            String::from_str("Error : wee-slack python plugin is not loaded in weechat."),
            String::from_str("Did you correctly install wee_slack.py python script ?"),
        ),
        RegistrationError::ProcessSpawnFailed { program_name } => {
            let mut a = concat("Error : could not start ", program_name.as_str());
            a.append(".");
            let mut b = concat("Please check that ", program_name.as_str());
            b.append(" is present in $PATH");
            two_lines(a, b)
        },
        RegistrationError::ProcessNotResponding => two_lines(
            String::from_str("Error : weechat did not quit after the /quit command."),
            String::from_str("You may stop it with the 'kill' command, then register again."),
        ),
    }
}

/// Advice for a team that does not show up after registering.
pub open spec fn advice_lines() -> Seq<Seq<char>> {
    seq![
        "  - Either your newly registered slack team isn't loaded in Weechat yet"@,
        "      > You may check again later, using the 'list-slack-teams' command."@,
        Seq::empty(),
        "  - Or your token was invalid"@,
        "      > You may retry the whole process, "@,
        "      > ensuring that you use a valid token in the 'register --token <TOKEN>' command."@,
    ]
}

/// Adds the advice for a team that does not show up.
pub fn print_anomaly_advice(lines: &mut Vec<String>)
    ensures
        lines_view(final(lines)@) == lines_view(old(lines)@) + advice_lines(),
{
    lines.push(String::from_str("  - Either your newly registered slack team isn't loaded in Weechat yet"));
    lines.push(String::from_str("      > You may check again later, using the 'list-slack-teams' command."));
    lines.push(String::new());
    lines.push(String::from_str("  - Or your token was invalid"));
    lines.push(String::from_str("      > You may retry the whole process, "));
    lines.push(
        String::from_str("      > ensuring that you use a valid token in the 'register --token <TOKEN>' command."),
    );
    assert(lines_view(lines@) =~= lines_view(old(lines)@) + advice_lines());
}

/// One line per team name.
pub open spec fn team_list_lines(names: Seq<Seq<char>>) -> Seq<Seq<char>> {
    names.map_values(|n: Seq<char>| "  - "@ + n)
}

/// The team report: the registered teams, or that there are none; after a
/// registration, followed by advice in case the new team is missing.
pub open spec fn teams_lines(names: Seq<Seq<char>>, after_registration: bool) -> Seq<Seq<char>> {
    if names.len() > 0 {
        seq![
            Seq::empty(),
            "You got currently "@ + nat_decimal(names.len()) + " registered slack team(s) aka workspace(s) :"@,
        ] + team_list_lines(names) + if after_registration {
            seq![
                Seq::empty(),
                "Note that, in case you don't see the slack team (aka workspace) you just tried to register :"@,
                Seq::empty(),
            ] + advice_lines()
        } else {
            Seq::empty()
        }
    } else {
        seq![
            Seq::empty(),
            "Weechat currently couldn't find any registered slack team (aka workspace) :"@,
        ] + if after_registration {
            seq![Seq::<char>::empty()] + advice_lines()
        } else {
            Seq::empty()
        }
    }
}

/// Builds the team report.
pub fn teams_report(teams: &Vec<SlackTeam>, after_registration: bool) -> (r: Vec<String>)
    ensures
        lines_view(r@) == teams_lines(team_names(teams@), after_registration),
{
    let mut lines: Vec<String> = Vec::new();
    lines.push(String::new());
    let n = teams.len();
    if n != 0 {
        let mut head = concat("You got currently ", nat_to_text(n as u64).as_str());
        head.append(" registered slack team(s) aka workspace(s) :");
        lines.push(head);
        let ghost start = lines_view(lines@);
        let mut i: usize = 0;
        while i < n
            invariant
                n == teams@.len(),
                i <= n,
                lines_view(lines@) == start + team_list_lines(team_names(teams@.subrange(0, i as int))),
            decreases n - i,
        {
            let ghost before = lines_view(lines@);
            lines.push(concat("  - ", teams[i].name.as_str()));
            assert(lines_view(lines@) =~= before.push("  - "@ + teams@[i as int].name@));
            assert(team_list_lines(team_names(teams@.subrange(0, i + 1))) =~= team_list_lines(
                team_names(teams@.subrange(0, i as int)),
            ).push("  - "@ + teams@[i as int].name@));
            assert(lines_view(lines@) =~= start + team_list_lines(team_names(teams@.subrange(0, i + 1))));
            i = i + 1;
        }
        assert(teams@.subrange(0, n as int) == teams@);
        assert(start =~= seq![
            Seq::empty(),
            "You got currently "@ + nat_decimal(n as nat) + " registered slack team(s) aka workspace(s) :"@,
        ]);
        let ghost listed = lines_view(lines@);
        if after_registration {
            lines.push(String::new());
            lines.push(
                String::from_str("Note that, in case you don't see the slack team (aka workspace) you just tried to register :"),
            );
            lines.push(String::new());
            assert(lines_view(lines@) =~= listed + seq![
                Seq::empty(),
                "Note that, in case you don't see the slack team (aka workspace) you just tried to register :"@,
                Seq::empty(),
            ]);
            print_anomaly_advice(&mut lines);
        }
        assert(lines_view(lines@) =~= teams_lines(team_names(teams@), after_registration));
    } else {
        lines.push(String::from_str("Weechat currently couldn't find any registered slack team (aka workspace) :"));
        let ghost said = lines_view(lines@);
        if after_registration {
            lines.push(String::new());
            assert(lines_view(lines@) =~= said + seq![Seq::<char>::empty()]);
            print_anomaly_advice(&mut lines);
        }
        assert(lines_view(lines@) =~= teams_lines(team_names(teams@), after_registration));
    }
    lines
}

/// How to obtain and register a token.
pub open spec fn register_url_lines(url: Seq<char>) -> Seq<Seq<char>> {
    seq![
        "To register a new slack workspace, first you need a workspace token. Please follow this link:"@,
        Seq::empty(),
        "  "@ + url,
        Seq::empty(),
        "Then you need to register your token. You can use the following command: "@,
        Seq::empty(),
        "  register --token <TOKEN>"@,
    ]
}

/// Builds the instructions for obtaining a token at `url`.
pub fn register_url_report(url: &str) -> (r: Vec<String>)
    ensures
        lines_view(r@) == register_url_lines(url@),
{
    let mut lines: Vec<String> = Vec::new();
    lines.push(
        String::from_str("To register a new slack workspace, first you need a workspace token. Please follow this link:"),
    );
    lines.push(String::new());
    lines.push(concat("  ", url));
    lines.push(String::new());
    lines.push(String::from_str("Then you need to register your token. You can use the following command: "));
    lines.push(String::new());
    lines.push(String::from_str("  register --token <TOKEN>"));
    assert(lines_view(lines@) =~= register_url_lines(url@));
    lines
}

} // verus!
