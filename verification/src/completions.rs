//! Where shell completions are installed.

use vstd::prelude::*;
use crate::text::{path_join, push_component, push_str};

verus! {

/// The shells that completions can be generated for.
#[derive(Debug, Clone, Copy, PartialEq, Eq, Structural)]
pub enum CompletionShell {
    /// Bourne Again SHell.
    Bash,
    /// Elvish.
    Elvish,
    /// Friendly Interactive SHell.
    Fish,
    /// PowerShell.
    PowerShell,
    /// Z SHell.
    Zsh,
}

/// The name of a shell as `{:?}` shows it.
pub open spec fn shell_name(s: CompletionShell) -> Seq<char> {
    match s {
        CompletionShell::Bash => "Bash"@,
        CompletionShell::Elvish => "Elvish"@,
        CompletionShell::Fish => "Fish"@,
        CompletionShell::PowerShell => "PowerShell"@,
        CompletionShell::Zsh => "Zsh"@,
    }
}

fn shell_name_of(s: CompletionShell) -> (r: &'static str)
    ensures
        r@ == shell_name(s),
{
    match s {
        CompletionShell::Bash => "Bash",
        CompletionShell::Elvish => "Elvish",
        CompletionShell::Fish => "Fish",
        CompletionShell::PowerShell => "PowerShell",
        CompletionShell::Zsh => "Zsh",
    }
}

/// Why completions cannot be installed.
#[derive(Debug, Clone, Copy, PartialEq, Eq, Structural)]
pub enum CompletionError {
    /// `HOME` is not set.
    HomeNotSet,
    /// The shell has no standard completion folder.
    Unsupported(CompletionShell),
}

/// The text of a [`CompletionError`].
pub open spec fn completion_error_text(e: CompletionError) -> Seq<char> {
    match e {
        CompletionError::HomeNotSet => "HOME not set"@,
        CompletionError::Unsupported(s) => "Automatic installation not supported for "@ + shell_name(s)
            + ". Use `axiom completions "@ + shell_name(s) + "` and redirect to a file."@,
    }
}

impl CompletionError {
    /// The message of this error.
    pub fn message(&self) -> (m: String)
        ensures
            m@ == completion_error_text(*self),
    {
        match self {
            CompletionError::HomeNotSet => String::from_str("HOME not set"),
            CompletionError::Unsupported(s) => {
                let mut m = String::from_str("Automatic installation not supported for ");
                push_str(&mut m, shell_name_of(*s));
                push_str(&mut m, ". Use `axiom completions ");
                push_str(&mut m, shell_name_of(*s));
                push_str(&mut m, "` and redirect to a file.");
                m
            },
        }
    }
}

/// The completion folder of a shell, relative to the home folder, and the
/// file name there.
pub open spec fn completion_location(s: CompletionShell) -> Option<(Seq<char>, Seq<char>)> {
    match s {
        CompletionShell::Zsh => Some((".zsh/completions"@, "_axiom"@)),
        CompletionShell::Bash => Some((".local/share/bash-completion/completions"@, "axiom"@)),
        CompletionShell::Fish => Some((".config/fish/completions"@, "axiom.fish"@)),
        _ => None,
    }
}

/// Where completions for a shell are installed: the folder and the file in
/// it. `HOME` must be set; only Zsh, Bash and Fish have a standard place.
pub open spec fn completion_target(s: CompletionShell, home: Option<Seq<char>>) -> Result<
    (Seq<char>, Seq<char>),
    CompletionError,
> {
    match home {
        None => Err(CompletionError::HomeNotSet),
        Some(h) => match completion_location(s) {
            Some((dir, file)) => Ok((path_join(h, dir), path_join(path_join(h, dir), file))),
            None => Err(CompletionError::Unsupported(s)),
        },
    }
}

/// The folder to create and the file to write completions for `shell` to,
/// given the value of `HOME`.
pub fn completion_install_target(shell: CompletionShell, home: Option<String>) -> (r: Result<
    (String, String),
    CompletionError,
>)
    ensures
        match completion_target(shell, crate::text::opt_view(home)) {
            Ok((dir, file)) => r matches Ok((d, f)) && d@ == dir && f@ == file,
            Err(e) => r == Err::<(String, String), CompletionError>(e),
        },
{
    let home = match home {
        Some(h) => h,
        None => {
            return Err(CompletionError::HomeNotSet);
        },
    };
    let (dir, file) = match shell {
        CompletionShell::Zsh => (".zsh/completions", "_axiom"),
        CompletionShell::Bash => (".local/share/bash-completion/completions", "axiom"),
        CompletionShell::Fish => (".config/fish/completions", "axiom.fish"),
        _ => {
            return Err(CompletionError::Unsupported(shell));
        },
    };
    let mut d = home.clone();
    push_component(&mut d, dir);
    let mut f = d.clone();
    push_component(&mut f, file);
    Ok((d, f))
}

/// Whether installing completions ends with the advice to add the folder to
/// Zsh's search path.
pub fn needs_zsh_setup_hint(shell: CompletionShell) -> (r: bool)
    ensures
        r == (shell == CompletionShell::Zsh),
{
    shell == CompletionShell::Zsh
}

} // verus!
