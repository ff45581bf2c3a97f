use vstd::prelude::*;

use crate::escape::{
    escape_spaces, is_space_escape, lemma_no_bare_space, replace_spaces, spaces_follow_backslash,
};

verus! {

/// A process to run: program name and argument list.
pub struct GrantCommand {
    pub program: String,
    pub args: Vec<String>,
}

/// A command as character sequences.
pub struct CommandView {
    pub program: Seq<char>,
    pub args: Seq<Seq<char>>,
}

impl View for GrantCommand {
    type V = CommandView;

    open spec fn view(&self) -> CommandView {
        CommandView { program: self.program@, args: self.args@.map_values(|a: String| a@) }
    }
}

/// What a lookup of the graphical authorization agent found.
#[derive(Clone, Copy, Debug, PartialEq, Eq, Structural)]
pub enum AgentProbe {
    /// The lookup ran and printed where the agent lives.
    Available,
    /// The lookup ran and printed nothing.
    Unavailable,
    /// The lookup could not be run.
    ProbeFailed,
}

/// The probe outcome for a lookup that printed `stdout`, or that could not
/// run at all (`None`).
pub open spec fn spec_classify_probe(stdout: Option<Seq<u8>>) -> AgentProbe {
    match stdout {
        Some(out) => if out.len() == 0 {
            AgentProbe::Unavailable
        } else {
            AgentProbe::Available
        },
        None => AgentProbe::ProbeFailed,
    }
}

/// Classifies the output of the agent lookup.
pub fn classify_probe(stdout: &Option<Vec<u8>>) -> (r: AgentProbe)
    ensures
        r == spec_classify_probe(
            match stdout {
                Some(v) => Some(v@),
                None => None,
            },
        ),
{
    match stdout {
        Some(out) => if out.len() == 0 {
            AgentProbe::Unavailable
        } else {
            AgentProbe::Available
        },
        None => AgentProbe::ProbeFailed,
    }
}

/// The elevation helper used for a probe outcome: the graphical agent when
/// it was found, the terminal tool otherwise (a failed probe included).
pub open spec fn spec_elevator(probe: AgentProbe) -> Seq<char> {
    match probe {
        AgentProbe::Available => "pkexec"@,
        _ => "sudo"@,
    }
}

/// Picks the elevation helper for a probe outcome.
pub fn elevator_for(probe: AgentProbe) -> (r: &'static str)
    ensures
        r@ == spec_elevator(probe),
{
    match probe {
        AgentProbe::Available => "pkexec",
        _ => "sudo",
    }
}

/// How a space is escaped inside the script handed to the graphical
/// administrator prompt: the script is itself a quoted string literal, so the
/// backslash is doubled.
pub open spec fn osascript_space() -> Seq<char> {
    "\\\\ "@
}

/// How a space is escaped in a plain shell fragment.
pub open spec fn shell_space() -> Seq<char> {
    "\\ "@
}

/// The shell fragment that hands the binary at `path` to root and the
/// administrative group and sets its setuid, setgid and execute bits.
pub open spec fn spec_ownership_shell(path: Seq<char>) -> Seq<char> {
    let p = replace_spaces(path, osascript_space());
    "chown root:admin "@ + p + "\nchmod +sx "@ + p
}

/// The command that runs the ownership fragment through the graphical
/// administrator prompt.
pub open spec fn spec_ownership_command(path: Seq<char>) -> CommandView {
    CommandView {
        program: "osascript"@,
        args: seq![
            "-e"@,
            "do shell script \""@ + spec_ownership_shell(path) + "\" with administrator privileges"@,
        ],
    }
}

/// The shell fragment that gives the binary at `path` the capabilities to
/// bind low ports, administer network interfaces and override file access
/// checks.
pub open spec fn spec_capability_shell(path: Seq<char>) -> Seq<char> {
    "setcap cap_net_bind_service,cap_net_admin,cap_dac_override=+ep "@ + replace_spaces(
        path,
        shell_space(),
    )
}

/// The command that runs the capability fragment through the elevation
/// helper chosen by `probe`.
pub open spec fn spec_capability_command(path: Seq<char>, probe: AgentProbe) -> CommandView {
    CommandView {
        program: spec_elevator(probe),
        args: seq!["sh"@, "-c"@, spec_capability_shell(path)],
    }
}

/// A `String` holding `s`.
fn owned(s: &str) -> (r: String)
    ensures
        r@ == s@,
{
    String::from_str(s)
}

/// Builds the ownership command for the binary at `path`.
pub fn ownership_command(path: &str) -> (r: GrantCommand)
    ensures
        r@ == spec_ownership_command(path@),
{
    let p = escape_spaces(path, "\\\\ ");
    let mut script = owned("do shell script \"");
    script.append("chown root:admin ");
    script.append(p.as_str());
    script.append("\nchmod +sx ");
    script.append(p.as_str());
    script.append("\" with administrator privileges");
    let mut args: Vec<String> = Vec::new();
    args.push(owned("-e"));
    args.push(script);
    let r = GrantCommand { program: owned("osascript"), args };
    proof {
        assert(script@ =~= spec_ownership_command(path@).args[1]);
        assert(r@.args =~= spec_ownership_command(path@).args);
    }
    r
}

/// Builds the capability command for the binary at `path`, run through the
/// elevation helper that `probe` calls for.
pub fn capability_command(path: &str, probe: AgentProbe) -> (r: GrantCommand)
    ensures
        r@ == spec_capability_command(path@, probe),
{
    let p = escape_spaces(path, "\\ ");
    let mut shell = owned("setcap cap_net_bind_service,cap_net_admin,cap_dac_override=+ep ");
    shell.append(p.as_str());
    let mut args: Vec<String> = Vec::new();
    args.push(owned("sh"));
    args.push(owned("-c"));
    args.push(shell);
    let r = GrantCommand { program: owned(elevator_for(probe)), args };
    proof {
        assert(r@.args =~= spec_capability_command(path@, probe).args);
    }
    r
}

/// Both platforms escape the path so that none of its spaces stands bare
/// in the fragment: each one follows a backslash.
pub proof fn lemma_escaped_paths_have_no_bare_space(path: Seq<char>)
    ensures
        spaces_follow_backslash(replace_spaces(path, osascript_space())),
        spaces_follow_backslash(replace_spaces(path, shell_space())),
{
    reveal_strlit("\\\\ ");
    reveal_strlit("\\ ");
    assert(is_space_escape(osascript_space()));
    assert(is_space_escape(shell_space()));
    lemma_no_bare_space(path, osascript_space());
    lemma_no_bare_space(path, shell_space());
}

} // verus!
