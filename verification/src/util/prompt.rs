//! The prompt: the status of the line before, the working directory, and a
//! marker.

use vstd::prelude::*;
use vstd::string::StringExecFns;
use crate::util::decimal::{decimal_text, push_decimal};

verus! {

/// The marker where the terminal takes colours: `>>` in bold green.
pub open spec fn ansi_marker() -> Seq<char> {
    "\x1b[1;32m>>\x1b[0m "@
}

/// The marker where it does not.
pub open spec fn plain_marker() -> Seq<char> {
    ">> "@
}

/// The text of the prompt: the status in brackets, if there is one; the
/// directory, if it is known; the marker.
pub open spec fn prompt_text(code: Option<i32>, dir: Option<Seq<char>>, base: Seq<char>) -> Seq<
    char,
> {
    let status = match code {
        Some(n) => "("@ + decimal_text(n as int) + ") "@,
        None => Seq::empty(),
    };
    let place = match dir {
        Some(d) => d + " "@,
        None => Seq::empty(),
    };
    status + place + base
}

/// The text of an optional string.
pub open spec fn optional_text(text: Option<&str>) -> Option<Seq<char>> {
    match text {
        Some(t) => Some(t@),
        None => None,
    }
}

/// The prompt, and the exit status that the next one is to show.
pub struct Prompt {
    pub prompt_base: String,
    pub have_ansi: bool,
    pub return_code: Option<i32>,
}

impl Prompt {
    /// A prompt for a terminal that takes colours, with no status to show.
    pub fn new() -> (prompt: Prompt)
        ensures
            prompt.have_ansi,
            prompt.prompt_base@ == ansi_marker(),
            prompt.return_code is None,
    {
        Prompt::with_ansi(Prompt::init_ansi())
    }

    /// A prompt with the coloured marker if `have_ansi`, else with the plain
    /// one, and with no status to show.
    pub fn with_ansi(have_ansi: bool) -> (prompt: Prompt)
        ensures
            prompt.have_ansi == have_ansi,
            prompt.prompt_base@ == if have_ansi {
                ansi_marker()
            } else {
                plain_marker()
            },
            prompt.return_code is None,
    {
        let base = if have_ansi {
            "\x1b[1;32m>>\x1b[0m "
        } else {
            ">> "
        };
        Prompt { prompt_base: String::from_str(base), have_ansi, return_code: None }
    }

    /// Whether the terminal takes colours without being told to: every
    /// terminal does but the console of Windows.
    fn init_ansi() -> (have_ansi: bool)
        ensures
            have_ansi,
    {
        true
    }

    /// Sets the status that the next prompt shows.
    pub fn set_return_code(&mut self, code: Option<i32>)
        ensures
            final(self).return_code == code,
            final(self).prompt_base == old(self).prompt_base,
            final(self).have_ansi == old(self).have_ansi,
    {
        self.return_code = code;
    }

    /// The text of the next prompt, given the working directory where it is
    /// known. The status is shown once: after this it is forgotten.
    pub fn make_prompt(&mut self, dir: Option<&str>) -> (text: String)
        ensures
            text@ == prompt_text(old(self).return_code, optional_text(dir), old(self).prompt_base@),
            final(self).return_code is None,
            final(self).prompt_base == old(self).prompt_base,
            final(self).have_ansi == old(self).have_ansi,
    {
        let mut prompt = String::new();
        if let Some(code) = self.return_code {
            prompt.append("(");
            push_decimal(&mut prompt, code);
            prompt.append(") ");
        }
        if let Some(d) = dir {
            prompt.append(d);
            prompt.append(" ");
        }
        prompt.append(self.prompt_base.as_str());
        self.reset_state();
        assert(prompt@ =~= prompt_text(
            old(self).return_code,
            optional_text(dir),
            old(self).prompt_base@,
        ));
        prompt
    }

    /// Forgets the status.
    fn reset_state(&mut self)
        ensures
            final(self).return_code is None,
            final(self).prompt_base == old(self).prompt_base,
            final(self).have_ansi == old(self).have_ansi,
    {
        self.return_code = None;
    }
}

} // verus!
