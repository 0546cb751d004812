//! The two-valued appearance classification and its textual rendering.
//!
//! A native notification hands over an appearance-name token (or nothing at
//! all); the token is classified against a fixed allow-list of candidate
//! names. Only the dark candidate classifies as dark; everything else,
//! the missing token among it, falls back to light by documented default.

use vstd::prelude::*;

verus! {

/// The two-valued light/dark UI theme state being monitored.
#[derive(Debug, Copy, Clone, PartialEq, Eq, Hash, Structural)]
pub enum Appearance {
    Light,
    Dark,
}

/// The appearance-name token of the light candidate in the fixed allow-list.
pub open spec fn light_candidate() -> Seq<char> {
    "NSAppearanceNameAqua"@
}

/// The appearance-name token of the dark candidate in the fixed allow-list.
pub open spec fn dark_candidate() -> Seq<char> {
    "NSAppearanceNameDarkAqua"@
}

/// The mathematical value of an optional token: its character sequence, if any.
pub open spec fn token_view(token: Option<&str>) -> Option<Seq<char>> {
    match token {
        Some(s) => Some(s@),
        None => None,
    }
}

/// What `classify` returns: `Dark` exactly on the dark candidate, `Light`
/// on every other token, the missing token among them.
pub open spec fn classify_spec(token: Option<Seq<char>>) -> Appearance {
    if token == Some(dark_candidate()) {
        Appearance::Dark
    } else {
        Appearance::Light
    }
}

/// Character-for-character equality of two string slices.
fn str_eq(a: &str, b: &str) -> (r: bool)
    ensures
        r == (a@ == b@),
{
    let a_len = a.unicode_len();
    let b_len = b.unicode_len();
    if a_len != b_len {
        return false;
    }
    let mut i: usize = 0;
    while i < a_len
        invariant
            a_len == a@.len(),
            b_len == b@.len(),
            a_len == b_len,
            i <= a_len,
            forall|j: int| 0 <= j < i ==> a@[j] == b@[j],
        decreases a_len - i,
    {
        if a.get_char(i) != b.get_char(i) {
            return false;
        }
        i += 1;
    }
    proof {
        assert(a@ =~= b@);
    }
    true
}

/// Classifies a native appearance-name token against the fixed allow-list.
/// The dark candidate classifies as `Dark`; any other token, the missing
/// token among them, classifies as `Light` (a documented default, not an
/// error).
pub fn classify(token: Option<&str>) -> (a: Appearance)
    ensures
        a == classify_spec(token_view(token)),
{
    match token {
        Some(name) => {
            if str_eq(name, "NSAppearanceNameDarkAqua") {
                Appearance::Dark
            } else {
                Appearance::Light
            }
        },
        None => Appearance::Light,
    }
}

/// What `render` returns: the literal lowercase name of the appearance.
pub open spec fn render_spec(a: Appearance) -> Seq<char> {
    match a {
        Appearance::Light => "light"@,
        Appearance::Dark => "dark"@,
    }
}

/// Renders an appearance as its literal lowercase name.
pub fn render(a: Appearance) -> (s: String)
    ensures
        s@ == render_spec(a),
{
    match a {
        Appearance::Light => "light".to_owned(),
        Appearance::Dark => "dark".to_owned(),
    }
}

/// Builds the fixed candidate list: the light name, then the dark name.
pub fn candidate_names() -> (names: Vec<String>)
    ensures
        names@.len() == 2,
        names@[0]@ == light_candidate(),
        names@[1]@ == dark_candidate(),
{
    let mut names: Vec<String> = Vec::new();
    names.push("NSAppearanceNameAqua".to_owned());
    names.push("NSAppearanceNameDarkAqua".to_owned());
    names
}

/// Law: classification is total and two-valued. The dark candidate, and only
/// the dark candidate, classifies as `Dark`; every other token, the missing
/// token among them, classifies as `Light`.
pub proof fn lemma_classify_total(token: Option<Seq<char>>)
    ensures
        classify_spec(token) == Appearance::Dark <==> token == Some(dark_candidate()),
        classify_spec(token) == Appearance::Light <==> token != Some(dark_candidate()),
{
}

/// Law: rendering the classification of a token is a pure function of the
/// token, and its value is always one of the two lowercase literals.
pub proof fn lemma_render_of_classify(token: Option<Seq<char>>)
    ensures
        render_spec(classify_spec(token)) == (if token == Some(dark_candidate()) {
            "dark"@
        } else {
            "light"@
        }),
{
}

} // verus!
