//! The table of built-in commands.
//!
//! The table is fixed: a name either stands for one of the built-in
//! commands below or for none, and nothing is ever added or taken away.

use vstd::prelude::*;
use crate::text::same_text;

verus! {

/// The commands that the shell carries out itself.
#[derive(Clone, Copy, Debug, PartialEq, Eq, Structural)]
pub enum Builtin {
    Cd,
    Basename,
    Dirname,
    Pwd,
    Exit,
    Exec,
}

impl Builtin {
    /// The name under which the command is called.
    pub open spec fn spec_name(self) -> &'static str {
        match self {
            Builtin::Cd => "cd",
            Builtin::Basename => "basename",
            Builtin::Dirname => "dirname",
            Builtin::Pwd => "pwd",
            Builtin::Exit => "exit",
            Builtin::Exec => "exec",
        }
    }

    /// The built-in command of a name: the one whose name is exactly this
    /// sequence of characters, if there is one.
    pub open spec fn named(name: Seq<char>) -> Option<Builtin> {
        if name == Builtin::Cd.spec_name()@ {
            Some(Builtin::Cd)
        } else if name == Builtin::Basename.spec_name()@ {
            Some(Builtin::Basename)
        } else if name == Builtin::Dirname.spec_name()@ {
            Some(Builtin::Dirname)
        } else if name == Builtin::Pwd.spec_name()@ {
            Some(Builtin::Pwd)
        } else if name == Builtin::Exit.spec_name()@ {
            Some(Builtin::Exit)
        } else if name == Builtin::Exec.spec_name()@ {
            Some(Builtin::Exec)
        } else {
            None
        }
    }

    /// Every built-in command is found under its own name.
    pub proof fn lemma_named_by_name(self)
        ensures
            Builtin::named(self.spec_name()@) == Some(self),
    {
        reveal_strlit("cd");
        reveal_strlit("basename");
        reveal_strlit("dirname");
        reveal_strlit("pwd");
        reveal_strlit("exit");
        reveal_strlit("exec");
        assert("cd"@.len() == 2);
        assert("basename"@.len() == 8);
        assert("dirname"@.len() == 7);
        assert("pwd"@.len() == 3);
        assert("exit"@.len() == 4 && "exit"@[2] == 'i');
        assert("exec"@.len() == 4 && "exec"@[2] == 'e');
    }

    #[verifier::when_used_as_spec(spec_name)]
    pub fn name(self) -> (name: &'static str)
        ensures
            name == self.spec_name(),
    {
        match self {
            Builtin::Cd => "cd",
            Builtin::Basename => "basename",
            Builtin::Dirname => "dirname",
            Builtin::Pwd => "pwd",
            Builtin::Exit => "exit",
            Builtin::Exec => "exec",
        }
    }

    /// Looks a command name up in the table.
    pub fn lookup(name: &str) -> (found: Option<Builtin>)
        ensures
            found == Builtin::named(name@),
    {
        if same_text(name, "cd") {
            Some(Builtin::Cd)
        } else if same_text(name, "basename") {
            Some(Builtin::Basename)
        } else if same_text(name, "dirname") {
            Some(Builtin::Dirname)
        } else if same_text(name, "pwd") {
            Some(Builtin::Pwd)
        } else if same_text(name, "exit") {
            Some(Builtin::Exit)
        } else if same_text(name, "exec") {
            Some(Builtin::Exec)
        } else {
            None
        }
    }
}

} // verus!
