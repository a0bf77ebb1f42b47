//! Password rules and the display of recovery words.

use vstd::prelude::*;
use crate::text::{decimal, push_decimal, push_str, words};

verus! {

/// The fewest bytes a vault password may have.
pub const MIN_PASSWORD_LENGTH: usize = 8;

/// Why a new password was refused.
#[derive(Debug, Clone, Copy, PartialEq, Eq, Structural)]
pub enum PasswordError {
    /// The password and its confirmation differ.
    Mismatch,
    /// The password is shorter than [`MIN_PASSWORD_LENGTH`] bytes.
    TooShort,
}

/// The text of a [`PasswordError`].
pub open spec fn password_error_text(e: PasswordError) -> Seq<char> {
    match e {
        PasswordError::Mismatch => "Passwords do not match"@,
        PasswordError::TooShort => "Password must be at least 8 characters"@,
    }
}

impl PasswordError {
    /// The message of this error.
    pub fn message(&self) -> (s: String)
        ensures
            s@ == password_error_text(*self),
    {
        match self {
            PasswordError::Mismatch => String::from_str("Passwords do not match"),
            PasswordError::TooShort => String::from_str("Password must be at least 8 characters"),
        }
    }
}

/// Check that a password is at least [`MIN_PASSWORD_LENGTH`] bytes long.
pub fn validate_password_strength(password: &[u8]) -> (r: Result<(), PasswordError>)
    ensures
        r == if password@.len() < MIN_PASSWORD_LENGTH {
            Err::<(), PasswordError>(PasswordError::TooShort)
        } else {
            Ok::<(), PasswordError>(())
        },
{
    if password.len() < MIN_PASSWORD_LENGTH {
        Err(PasswordError::TooShort)
    } else {
        Ok(())
    }
}

/// Check a new password and its confirmation: they must be equal, then
/// long enough.
pub fn check_new_password(password: &[u8], confirm: &[u8]) -> (r: Result<(), PasswordError>)
    ensures
        r == if password@ != confirm@ {
            Err::<(), PasswordError>(PasswordError::Mismatch)
        } else if password@.len() < MIN_PASSWORD_LENGTH {
            Err::<(), PasswordError>(PasswordError::TooShort)
        } else {
            Ok::<(), PasswordError>(())
        },
{
    if password.len() != confirm.len() {
        return Err(PasswordError::Mismatch);
    }
    let n = password.len();
    let mut i: usize = 0;
    while i < n
        invariant
            i <= n == password@.len() == confirm@.len(),
            forall|j: int| 0 <= j < i ==> password@[j] == confirm@[j],
        decreases n - i,
    {
        if password[i] != confirm[i] {
            return Err(PasswordError::Mismatch);
        }
        i = i + 1;
    }
    assert(password@ =~= confirm@);
    validate_password_strength(password)
}

/// The password that the `AXIOMVAULT_PASSWORD` variable supplies: its bytes
/// when it is set and not empty; otherwise the user is asked.
pub fn password_from_environment(value: Option<String>) -> (r: Option<Vec<u8>>)
    ensures
        match value {
            Some(v) if v@.len() > 0 => r matches Some(b) && b@ == vstd::utf8::encode_utf8(v@),
            _ => r is None,
        },
{
    match value {
        Some(v) => if v.as_str().is_empty() {
            None
        } else {
            Some(vstd::slice::slice_to_vec(v.as_str().as_bytes()))
        },
        None => None,
    }
}

/// `s` padded on the left with spaces to at least `width` characters.
pub open spec fn pad_left(s: Seq<char>, width: nat) -> Seq<char> {
    if s.len() >= width {
        s
    } else {
        Seq::new((width - s.len()) as nat, |i: int| ' ') + s
    }
}

/// The line that shows the recovery word `word` at position `n` (from 1).
pub open spec fn recovery_word_line(n: nat, word: Seq<char>) -> Seq<char> {
    "  "@ + pad_left(decimal(n), 2) + ". "@ + word
}

/// The lines that show the recovery words: the whitespace-separated words
/// of `words`, numbered from 1.
pub open spec fn recovery_word_lines(text: Seq<char>) -> Seq<Seq<char>> {
    let ws = words(text);
    Seq::new(ws.len(), |i: int| recovery_word_line((i + 1) as nat, ws[i]))
}

/// The numbered lines in which the recovery words are shown.
pub fn recovery_word_lines_of(text: &str) -> (lines: Vec<String>)
    ensures
        lines@.map_values(|l: String| l@) == recovery_word_lines(text@),
{
    let ws = crate::text::split_whitespace_str(text);
    let ghost wv = ws@.map_values(|w: String| w@);
    let mut lines: Vec<String> = Vec::new();
    let n = ws.len();
    let mut i: usize = 0;
    while i < n
        invariant
            i <= n == ws@.len(),
            wv == ws@.map_values(|w: String| w@),
            wv == words(text@),
            lines@.len() == i,
            forall|k: int|
                0 <= k < i ==> #[trigger] lines@[k]@ == recovery_word_line((k + 1) as nat, wv[k]),
        decreases n - i,
    {
        let mut line = String::from_str("  ");
        if i + 1 < 10 {
            push_str(&mut line, " ");
        }
        let ghost before = line@;
        proof {
            reveal_strlit(" ");
            assert(before == "  "@ + (if i + 1 < 10 { seq![' '] } else { Seq::<char>::empty() }));
        }
        push_decimal(&mut line, (i + 1) as u128);
        proof {
            let d = decimal((i + 1) as nat);
            if i + 1 < 10 {
                assert(d == seq![crate::text::digit_char((i + 1) as nat)]);
                assert(pad_left(d, 2) =~= seq![' '] + d);
            } else {
                lemma_decimal_len_at_least_two((i + 1) as nat);
                assert(pad_left(d, 2) == d);
            }
        }
        push_str(&mut line, ". ");
        push_str(&mut line, ws[i].as_str());
        proof {
            let d = decimal((i + 1) as nat);
            assert(pad_left(d, 2) =~= (if i + 1 < 10 { seq![' '] } else { Seq::<char>::empty() })
                + d);
            assert(line@ =~= recovery_word_line((i + 1) as nat, wv[i as int]));
        }
        lines.push(line);
        i = i + 1;
    }
    assert(lines@.map_values(|l: String| l@) =~= recovery_word_lines(text@));
    lines
}

proof fn lemma_decimal_len_at_least_two(n: nat)
    requires
        n >= 10,
    ensures
        decimal(n).len() >= 2,
{
    assert(decimal(n) == decimal(n / 10).push(crate::text::digit_char(n % 10)));
    assert(decimal(n / 10).len() >= 1) by {
        reveal_with_fuel(decimal, 2);
    }
}

} // verus!
