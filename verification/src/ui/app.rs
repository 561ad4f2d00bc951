//! The application shell's screen state and file-name hygiene.

use vstd::prelude::*;

use crate::project::ProjectError;

verus! {

#[derive(Clone, Copy, Debug, PartialEq, Eq, Structural)]
pub enum AppScreen {
    Home,
    NewScoreStep1,
    NewScoreStep2,
    Editor,
}

#[derive(Clone, Copy, Debug, PartialEq, Eq, Structural)]
pub struct AppState {
    pub current_screen: AppScreen,
}

impl AppState {
    /// The shell opens on the home screen.
    pub fn new() -> (state: AppState)
        ensures
            state.current_screen == AppScreen::Home,
    {
        AppState { current_screen: AppScreen::Home }
    }

    /// Moves to the given screen.
    pub fn go_to(&mut self, screen: AppScreen)
        ensures
            final(self).current_screen == screen,
    {
        self.current_screen = screen;
    }
}

/// An error surfaced by the shell: a project failure, or an
/// input/output failure reduced to its message.
#[derive(Debug)]
pub enum UiAppError {
    Project(ProjectError),
    Io(String),
}

impl UiAppError {
    pub open spec fn spec_message(self) -> Seq<char> {
        match self {
            UiAppError::Project(error) => "erro de projeto: "@ + error.spec_message(),
            UiAppError::Io(detail) => "erro de IO: "@ + detail@,
        }
    }

    pub fn message(&self) -> (text: String)
        ensures
            text@ == self.spec_message(),
    {
        match self {
            UiAppError::Project(error) => {
                let mut text = "erro de projeto: ".to_owned();
                let detail = error.message();
                text.append(detail.as_str());
                text
            },
            UiAppError::Io(detail) => {
                let mut text = "erro de IO: ".to_owned();
                text.append(detail.as_str());
                text
            },
        }
    }
}

/// What `str::char::is_alphanumeric` answers for a character; the
/// result depends on the character alone.
pub uninterp spec fn is_alphanumeric_char(c: char) -> bool;

/// Relies on char::is_alphanumeric for the Unicode letter and digit
/// classes.
#[verifier::external_body]
fn char_is_alphanumeric(c: char) -> (alnum: bool)
    ensures
        alnum == is_alphanumeric_char(c),
{
    c.is_alphanumeric()
}

/// Whether a character survives file-name sanitization.
pub open spec fn spec_keeps_char(c: char) -> bool {
    is_alphanumeric_char(c) || c == '-' || c == '_'
}

/// The characters of `s` that survive sanitization, in order.
pub open spec fn spec_sanitized(s: Seq<char>) -> Seq<char>
    decreases s.len(),
{
    if s.len() == 0 {
        Seq::empty()
    } else if spec_keeps_char(s.first()) {
        seq![s.first()] + spec_sanitized(s.drop_first())
    } else {
        spec_sanitized(s.drop_first())
    }
}

/// Reduces a title to a safe file name: letters, digits, hyphens and
/// underscores survive; when nothing survives, the fallback name is
/// used.
#[verifier::loop_isolation(false)]
pub fn sanitize_filename(value: &str) -> (name: String)
    ensures
        spec_sanitized(value@).len() > 0 ==> name@ == spec_sanitized(value@),
        spec_sanitized(value@).len() == 0 ==> name@ == "partitura"@,
{
    let n = value.unicode_len();
    let mut name = String::new();
    let mut i: usize = 0;
    proof {
        assert(value@.subrange(0, n as int) =~= value@);
    }
    while i < n
        invariant
            0 <= i <= n == value@.len(),
            spec_sanitized(value@) == name@ + spec_sanitized(
                value@.subrange(i as int, n as int),
            ),
        decreases n - i,
    {
        let ghost before = value@.subrange(i as int, n as int);
        proof {
            assert(before.first() == value@[i as int]);
            assert(before.drop_first() =~= value@.subrange(i + 1, n as int));
        }
        let c = value.get_char(i);
        if char_is_alphanumeric(c) || c == '-' || c == '_' {
            let piece = value.substring_char(i, i + 1);
            proof {
                assert(piece@ =~= seq![value@[i as int]]);
            }
            name.append(piece);
        }
        i = i + 1;
    }
    proof {
        assert(value@.subrange(n as int, n as int) =~= Seq::<char>::empty());
        assert(spec_sanitized(Seq::<char>::empty()) =~= Seq::<char>::empty());
    }
    if name.as_str().unicode_len() == 0 {
        return "partitura".to_owned();
    }
    name
}

} // verus!
