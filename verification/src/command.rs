//! Planned commands: the program, argument list, environment entries and
//! working directory of one phase, the POSIX-shell indirection argv used to
//! spawn it, and its fingerprint text.

use vstd::prelude::*;
use crate::fingerprint::{render_record, rendered_record};

verus! {

/// One fully planned child-process invocation.
pub struct Command {
    pub program: String,
    pub args: Vec<String>,
    pub envs: Vec<(String, String)>,
    pub dir: String,
}

/// The argv that spawns `program` with `args` through the POSIX shell
/// indirection layer, so that shebang-bearing scripts run even where the
/// host cannot execute them as native processes.
pub open spec fn shell_argv_spec(program: Seq<char>, args: Seq<Seq<char>>) -> Seq<Seq<char>> {
    seq!["sh"@, "-c"@, "exec \"$0\" \"$@\""@, program] + args
}

/// The token sequence that identifies a planned command for fingerprinting:
/// program, working directory, arguments, and flattened environment entries.
pub open spec fn env_tokens(envs: Seq<(Seq<char>, Seq<char>)>) -> Seq<Seq<char>>
    decreases envs.len(),
{
    if envs.len() == 0 {
        Seq::empty()
    } else {
        env_tokens(envs.drop_last()).push(envs.last().0).push(envs.last().1)
    }
}

pub open spec fn command_tokens(
    program: Seq<char>,
    dir: Seq<char>,
    args: Seq<Seq<char>>,
    envs: Seq<(Seq<char>, Seq<char>)>,
) -> Seq<Seq<char>> {
    seq![program, dir] + args + env_tokens(envs)
}

impl Command {
    /// All the tokens that identify this command.
    pub open spec fn tokens(&self) -> Seq<Seq<char>> {
        command_tokens(self.program@, self.dir@, self.args.deep_view(), self.envs.deep_view())
    }

    /// Builds the shell-indirected argv for this command.
    pub fn shell_argv(&self) -> (r: Vec<String>)
        ensures
            r.deep_view() == shell_argv_spec(self.program@, self.args.deep_view()),
    {
        let ghost av = self.args.deep_view();
        let mut v: Vec<String> = Vec::new();
        v.push(String::from_str("sh"));
        v.push(String::from_str("-c"));
        v.push(String::from_str("exec \"$0\" \"$@\""));
        v.push(self.program.clone());
        let ghost head = seq!["sh"@, "-c"@, "exec \"$0\" \"$@\""@, self.program@];
        proof {
            assert(v.deep_view() =~= head + av.take(0));
        }
        let mut i: usize = 0;
        while i < self.args.len()
            invariant
                av == self.args.deep_view(),
                av.len() == self.args.len(),
                head == seq!["sh"@, "-c"@, "exec \"$0\" \"$@\""@, self.program@],
                0 <= i <= self.args.len(),
                v.deep_view() == head + av.take(i as int),
            decreases self.args.len() - i,
        {
            let ghost prev = v.deep_view();
            v.push(self.args[i].clone());
            proof {
                assert(v.deep_view() =~= prev.push(av[i as int]));
                assert(av.take(i + 1) =~= av.take(i as int).push(av[i as int]));
                assert(v.deep_view() =~= head + av.take(i + 1));
            }
            i += 1;
        }
        proof {
            assert(av.take(av.len() as int) =~= av);
        }
        v
    }

    /// Renders this command's fingerprint: the canonical record text of all
    /// its tokens.
    pub fn fingerprint(&self) -> (r: String)
        ensures
            r@ == rendered_record(self.tokens()),
    {
        let ghost av = self.args.deep_view();
        let ghost ev = self.envs.deep_view();
        let mut tokens: Vec<String> = Vec::new();
        tokens.push(self.program.clone());
        tokens.push(self.dir.clone());
        let ghost head = seq![self.program@, self.dir@];
        proof {
            assert(tokens.deep_view() =~= head + av.take(0));
        }
        let mut i: usize = 0;
        while i < self.args.len()
            invariant
                av == self.args.deep_view(),
                av.len() == self.args.len(),
                head == seq![self.program@, self.dir@],
                0 <= i <= self.args.len(),
                tokens.deep_view() == head + av.take(i as int),
            decreases self.args.len() - i,
        {
            let ghost prev = tokens.deep_view();
            tokens.push(self.args[i].clone());
            proof {
                assert(tokens.deep_view() =~= prev.push(av[i as int]));
                assert(av.take(i + 1) =~= av.take(i as int).push(av[i as int]));
                assert(tokens.deep_view() =~= head + av.take(i + 1));
            }
            i += 1;
        }
        proof {
            assert(av.take(av.len() as int) =~= av);
        }
        let mut j: usize = 0;
        while j < self.envs.len()
            invariant
                av == self.args.deep_view(),
                ev == self.envs.deep_view(),
                ev.len() == self.envs.len(),
                head == seq![self.program@, self.dir@],
                0 <= j <= self.envs.len(),
                tokens.deep_view() == head + av + env_tokens(ev.take(j as int)),
            decreases self.envs.len() - j,
        {
            let kv = &self.envs[j];
            let ghost prev = tokens.deep_view();
            tokens.push(kv.0.clone());
            proof {
                assert(tokens.deep_view() =~= prev.push(ev[j as int].0));
            }
            let ghost mid = tokens.deep_view();
            tokens.push(kv.1.clone());
            proof {
                assert(tokens.deep_view() =~= mid.push(ev[j as int].1));
                assert(ev.take(j + 1).drop_last() =~= ev.take(j as int));
                assert(ev.take(j + 1).last() == ev[j as int]);
                assert(env_tokens(ev.take(j + 1)) == env_tokens(ev.take(j as int)).push(
                    ev[j as int].0,
                ).push(ev[j as int].1));
                assert(tokens.deep_view() =~= head + av + env_tokens(ev.take(j + 1)));
            }
            j += 1;
        }
        proof {
            assert(ev.take(ev.len() as int) =~= ev);
            assert(tokens.deep_view() =~= self.tokens());
        }
        render_record(&tokens)
    }
}

} // verus!
