//! The invocation dispatcher: looks up the matching command by name,
//! installs a context scope, runs the bound filter chain, and turns the
//! outcome into replies.

use vstd::prelude::*;

use crate::command::ChatInputCommand;
use crate::context::{Context, Scope};
use crate::filter::{emitted, outcome, Outcome};
use crate::model::interaction::Invocation;
use crate::text::strs_view;

verus! {

/// The first command of `cmds` named `name`, if any.
pub open spec fn find_command(cmds: Seq<ChatInputCommand>, name: Seq<char>) -> Option<
    ChatInputCommand,
>
    decreases cmds.len(),
{
    if cmds.len() == 0 {
        None
    } else if cmds[0].meta.name@ == name {
        Some(cmds[0])
    } else {
        find_command(cmds.drop_first(), name)
    }
}

/// The replies one dispatch of `inv` against `cmds` produces: exactly the
/// replies of the matched chain's evaluation, followed by the fallback
/// message when no command matches or the chain ultimately rejects.  Only
/// the matched command contributes anything.
pub open spec fn dispatch_view(
    cmds: Seq<ChatInputCommand>,
    inv: Invocation,
    fallback: Seq<char>,
) -> Seq<Seq<char>> {
    match find_command(cmds, inv.name@) {
        Option::None => seq![fallback],
        Option::Some(cmd) => match outcome(cmd.handler, inv) {
            Outcome::Success(_) => emitted(cmd.handler, inv),
            Outcome::Reject(_) => emitted(cmd.handler, inv).push(fallback),
        },
    }
}

fn find_index(commands: &Vec<ChatInputCommand>, name: &String) -> (r: Option<usize>)
    ensures
        match r {
            Some(i) => i < commands@.len() && find_command(commands@, name@) == Some(
                commands@[i as int],
            ),
            None => find_command(commands@, name@) is None,
        },
{
    let mut i: usize = 0;
    proof {
        assert(commands@.skip(0) =~= commands@);
    }
    while i < commands.len()
        invariant
            i <= commands@.len(),
            find_command(commands@, name@) == find_command(commands@.skip(i as int), name@),
        decreases commands@.len() - i,
    {
        let ghost rest = commands@.skip(i as int);
        proof {
            assert(rest[0] == commands@[i as int]);
            assert(rest.drop_first() =~= commands@.skip(i + 1));
        }
        if commands[i].meta.name == *name {
            return Some(i);
        }
        i = i + 1;
    }
    proof {
        assert(commands@.skip(commands@.len() as int) =~= Seq::<ChatInputCommand>::empty());
    }
    None
}

/// Dispatches one decoded invocation.  The first command whose name
/// matches runs its chain under a fresh context scope; no other command's
/// chain is evaluated.  The replies the chain sent are returned, and when
/// no command matches, or the chain ultimately rejects — `NotFound`
/// included — the fallback message is appended, so a dispatch that does
/// not match or rejects always yields a reply.
pub fn dispatch(commands: &Vec<ChatInputCommand>, inv: Invocation, fallback: &str) -> (r: Vec<
    String,
>)
    ensures
        strs_view(r@) == dispatch_view(commands@, inv, fallback@),
{
    match find_index(commands, &inv.name) {
        None => {
            let mut out: Vec<String> = Vec::new();
            out.push(String::from_str(fallback));
            proof {
                assert(strs_view(out@) =~= seq![fallback@]);
            }
            out
        },
        Some(i) => {
            let cmd = &commands[i];
            let mut scope = Scope::new();
            scope.enter(Context::new(inv));
            let res = cmd.handler.evaluate(&mut scope);
            let ctx = scope.exit();
            proof {
                assert(Seq::<Seq<char>>::empty() + emitted(cmd.handler, inv) =~= emitted(
                    cmd.handler,
                    inv,
                ));
            }
            let mut out = ctx.into_replies();
            match res {
                Ok(_) => out,
                Err(_) => {
                    let ghost before = strs_view(out@);
                    out.push(String::from_str(fallback));
                    proof {
                        assert(strs_view(out@) =~= before.push(fallback@));
                    }
                    out
                },
            }
        },
    }
}

} // verus!
