use vstd::prelude::*;
use vstd::string::StrSliceExecFns;
use crate::text::str_eq;

verus! {

/// The closed set of shells the tool knows how to drive, plus a fallback.
#[derive(Clone, Copy, PartialEq, Eq, Structural, Debug)]
pub enum Shell {
    Powershell,
    BornAgainShell,
    Zsh,
    Fish,
    DebianAlmquistShell,
    KornShell,
    CShell,
    Unknown,
}

/// The executable name used to invoke a shell variant.
pub open spec fn spec_shell_command(sh: Shell) -> Seq<char> {
    match sh {
        Shell::Powershell => "powershell"@,
        Shell::BornAgainShell => "bash"@,
        Shell::Zsh => "zsh"@,
        Shell::Fish => "fish"@,
        Shell::DebianAlmquistShell => "dash"@,
        Shell::KornShell => "ksh"@,
        Shell::CShell => "csh"@,
        Shell::Unknown => "sh"@,
    }
}

/// The flag that makes the shell run an inline command string.
pub open spec fn spec_command_arg(sh: Shell) -> Seq<char> {
    match sh {
        Shell::Powershell => "-Command"@,
        _ => "-c"@,
    }
}

impl Shell {
    /// The (executable, inline-command flag) pair used to run a command
    /// string under this shell. The fallback for an unknown shell is the
    /// POSIX pair ("sh", "-c").
    pub fn to_shell_command_and_command_arg(&self) -> (r: (&'static str, &'static str))
        ensures
            r.0@ == spec_shell_command(*self),
            r.1@ == spec_command_arg(*self),
    {
        match self {
            Shell::Powershell => ("powershell", "-Command"),
            Shell::BornAgainShell => ("bash", "-c"),
            Shell::Zsh => ("zsh", "-c"),
            Shell::Fish => ("fish", "-c"),
            Shell::DebianAlmquistShell => ("dash", "-c"),
            Shell::KornShell => ("ksh", "-c"),
            Shell::CShell => ("csh", "-c"),
            Shell::Unknown => ("sh", "-c"),
        }
    }
}

/// What follows the last path separator; the whole string if it has none.
pub open spec fn suffix_after_last_slash(s: Seq<char>) -> Seq<char>
    decreases s.len(),
{
    if s.len() == 0 {
        s
    } else if s.last() == '/' {
        Seq::<char>::empty()
    } else {
        suffix_after_last_slash(s.drop_last()).push(s.last())
    }
}

proof fn lemma_suffix_subrange(s: Seq<char>, idx: int)
    requires
        0 <= idx <= s.len(),
        forall|k: int| idx <= k < s.len() ==> s[k] != '/',
        idx > 0 ==> s[idx - 1] == '/',
    ensures
        suffix_after_last_slash(s) == s.subrange(idx, s.len() as int),
    decreases s.len(),
{
    if idx == s.len() {
        if s.len() == 0 {
            assert(s.subrange(0, 0) =~= s);
        } else {
            assert(s.last() == '/');
            assert(s.subrange(idx, s.len() as int) =~= Seq::<char>::empty());
        }
    } else {
        assert(s.last() != '/');
        let dl = s.drop_last();
        lemma_suffix_subrange(dl, idx);
        assert(s.subrange(idx, s.len() as int) =~= dl.subrange(idx, dl.len() as int).push(
            s.last(),
        ));
    }
}

/// The basename of a path-like value, used on the contents of the
/// environment variable that names the login shell.
pub fn shell_basename(s: &str) -> (r: &str)
    ensures
        r@ == suffix_after_last_slash(s@),
{
    let n = s.unicode_len();
    let mut i = n;
    while i > 0
        invariant
            i <= n,
            n == s@.len(),
            forall|k: int| i <= k < n ==> s@[k] != '/',
        decreases i,
    {
        if s.get_char(i - 1) == '/' {
            let r = s.substring_char(i, n);
            proof {
                lemma_suffix_subrange(s@, i as int);
            }
            return r;
        }
        i = i - 1;
    }
    proof {
        lemma_suffix_subrange(s@, 0);
        assert(s@.subrange(0, s@.len() as int) =~= s@);
    }
    s
}

/// Which shell a basename taken from the environment names.
pub open spec fn spec_shell_from_name(n: Seq<char>) -> Shell {
    if n == "bash"@ {
        Shell::BornAgainShell
    } else if n == "zsh"@ {
        Shell::Zsh
    } else if n == "fish"@ {
        Shell::Fish
    } else if n == "dash"@ {
        Shell::DebianAlmquistShell
    } else if n == "ksh"@ {
        Shell::KornShell
    } else if n == "csh"@ {
        Shell::CShell
    } else {
        Shell::Unknown
    }
}

/// The view of an optional environment value.
pub open spec fn opt_view(o: Option<&str>) -> Option<Seq<char>> {
    match o {
        Some(s) => Some(s@),
        None => None,
    }
}

/// The shell the environment signals name: on Windows always Powershell,
/// otherwise the shell named by the basename of the shell variable, with
/// Unknown as the fallback.
pub open spec fn spec_detect(shell_var: Option<Seq<char>>, windows: bool) -> Shell {
    if windows {
        Shell::Powershell
    } else {
        match shell_var {
            Some(s) => spec_shell_from_name(suffix_after_last_slash(s)),
            None => Shell::Unknown,
        }
    }
}

impl Shell {
    /// Resolves the shell identity from the two environment signals the
    /// embedder reads once per run: whether the host is Windows, and the
    /// value of the variable naming the login shell, if any.
    pub fn from_signals(shell_var: Option<&str>, windows: bool) -> (r: Shell)
        ensures
            r == spec_detect(opt_view(shell_var), windows),
    {
        if windows {
            return Shell::Powershell;
        }
        match shell_var {
            None => Shell::Unknown,
            Some(sv) => {
                let name = shell_basename(sv);
                if str_eq(name, "bash") {
                    Shell::BornAgainShell
                } else if str_eq(name, "zsh") {
                    Shell::Zsh
                } else if str_eq(name, "fish") {
                    Shell::Fish
                } else if str_eq(name, "dash") {
                    Shell::DebianAlmquistShell
                } else if str_eq(name, "ksh") {
                    Shell::KornShell
                } else if str_eq(name, "csh") {
                    Shell::CShell
                } else {
                    Shell::Unknown
                }
            },
        }
    }
}

/// Shell resolution is a pure function of the environment signals: equal
/// signals always yield the same identity and the same invocation pair.
pub proof fn lemma_detect_deterministic(
    a: Option<Seq<char>>,
    b: Option<Seq<char>>,
    wa: bool,
    wb: bool,
)
    requires
        a == b,
        wa == wb,
    ensures
        spec_detect(a, wa) == spec_detect(b, wb),
        spec_shell_command(spec_detect(a, wa)) == spec_shell_command(spec_detect(b, wb)),
        spec_command_arg(spec_detect(a, wa)) == spec_command_arg(spec_detect(b, wb)),
{
}

} // verus!
