//! Rules that keep sensitive applications out of reach. They are defense in
//! depth, not a complete classification: the hard boundary is that a target
//! without a verifiable application identity is always rejected.

use crate::errors::{ComputerUseError, ComputerUseErrorCode, ComputerUseResult};
#[allow(unused_imports)]
use crate::errors::{decides, is_plain_error, Refusal};
use crate::text::{
    char_is_alphanumeric, char_is_digit, chars_at, chars_of, lower_text, push_char, text_contains,
    text_ends_with, text_eq, text_eq_ignoring_case, trim_text,
};
#[allow(unused_imports)]
use crate::text::{
    begins_with, ends_with, is_alphanumeric, is_digit, lowered, occurs_in, same_ignoring_case,
    trimmed,
};
#[allow(unused_imports)]
use crate::window_target::without_suffix;
use vstd::prelude::*;
use vstd::string::*;

verus! {

/// The texts of a list.
pub open spec fn texts(list: Seq<&str>) -> Seq<Seq<char>> {
    Seq::new(list.len(), |i: int| list[i]@)
}

/// Words that mark an identity as sensitive wherever they occur in it.
pub open spec fn sensitive_markers() -> Seq<Seq<char>> {
    seq![
        "password"@,
        "credential"@,
        "authentication"@,
        "sign in"@,
        "login"@,
        "terminal"@,
        "command prompt"@,
        "security"@,
        "consent"@,
    ]
}

pub fn sensitive_identity_markers() -> (r: Vec<&'static str>)
    ensures
        texts(r@) == sensitive_markers(),
{
    let list: Vec<&'static str> = vec![
        "password",
        "credential",
        "authentication",
        "sign in",
        "login",
        "terminal",
        "command prompt",
        "security",
        "consent",
    ];
    assert(texts(list@) =~= sensitive_markers());
    list
}

/// Executables that are restricted by name.
pub open spec fn restricted_stems() -> Seq<Seq<char>> {
    seq![
        "alacritty"@,
        "bash"@,
        "cmd"@,
        "conhost"@,
        "consent"@,
        "credentialuibroker"@,
        "cscript"@,
        "fish"@,
        "gnome-terminal"@,
        "gnome-terminal-server"@,
        "konsole"@,
        "logonui"@,
        "lsass"@,
        "mintty"@,
        "mshta"@,
        "node"@,
        "nodejs"@,
        "powershell"@,
        "pwsh"@,
        "regsvr32"@,
        "rundll32"@,
        "sh"@,
        "terminal"@,
        "wezterm"@,
        "winlogon"@,
        "windowsterminal"@,
        "wscript"@,
        "wsl"@,
        "wt"@,
        "xterm"@,
        "zsh"@,
    ]
}

fn restricted_executable_stems() -> (r: Vec<&'static str>)
    ensures
        texts(r@) == restricted_stems(),
{
    let list: Vec<&'static str> = vec![
        "alacritty",
        "bash",
        "cmd",
        "conhost",
        "consent",
        "credentialuibroker",
        "cscript",
        "fish",
        "gnome-terminal",
        "gnome-terminal-server",
        "konsole",
        "logonui",
        "lsass",
        "mintty",
        "mshta",
        "node",
        "nodejs",
        "powershell",
        "pwsh",
        "regsvr32",
        "rundll32",
        "sh",
        "terminal",
        "wezterm",
        "winlogon",
        "windowsterminal",
        "wscript",
        "wsl",
        "wt",
        "xterm",
        "zsh",
    ];
    assert(texts(list@) =~= restricted_stems());
    list
}

/// Some of the markers occurs in the text.
pub open spec fn any_occurs(text: Seq<char>, markers: Seq<Seq<char>>) -> bool {
    exists|i: int| 0 <= i < markers.len() && occurs_in(text, #[trigger] markers[i])
}

pub fn contains_any(text: &str, markers: &Vec<&str>) -> (r: bool)
    ensures
        r == any_occurs(text@, texts(markers@)),
{
    let mut i: usize = 0;
    while i < markers.len()
        invariant
            i <= markers.len(),
            forall|k: int|
                0 <= k < i ==> !occurs_in(text@, #[trigger] texts(markers@)[k]),
        decreases markers.len() - i,
    {
        if text_contains(text, markers[i]) {
            assert(occurs_in(text@, texts(markers@)[i as int]));
            return true;
        }
        i = i + 1;
    }
    false
}

fn is_listed(text: &str, list: &Vec<&str>) -> (r: bool)
    ensures
        r == texts(list@).contains(text@),
{
    let mut i: usize = 0;
    while i < list.len()
        invariant
            i <= list.len(),
            forall|k: int| 0 <= k < i ==> #[trigger] texts(list@)[k] != text@,
        decreases list.len() - i,
    {
        if text_eq(list[i], text) {
            assert(texts(list@)[i as int] == text@);
            return true;
        }
        i = i + 1;
    }
    false
}

pub open spec fn is_quote(c: char) -> bool {
    c == '\'' || c == '"'
}

/// The text without the quotes around it.
pub open spec fn unquoted(s: Seq<char>) -> Seq<char>
    decreases s.len(),
{
    if s.len() > 0 && is_quote(s[0]) {
        unquoted(s.drop_first())
    } else if s.len() > 0 && is_quote(s.last()) {
        unquoted(s.drop_last())
    } else {
        s
    }
}

pub open spec fn is_separator(c: char) -> bool {
    c == '/' || c == '\\'
}

/// What stands behind the last path separator.
pub open spec fn leaf(s: Seq<char>) -> Seq<char>
    decreases s.len(),
{
    if s.len() == 0 || is_separator(s.last()) {
        Seq::empty()
    } else {
        leaf(s.drop_last()).push(s.last())
    }
}

/// The file name of an executable without its extension.
pub open spec fn stem_of(identity: Seq<char>) -> Seq<char> {
    let name = leaf(unquoted(identity));
    if ends_with(name, ".exe"@) {
        without_suffix(name, ".exe"@)
    } else if ends_with(name, ".app"@) {
        without_suffix(name, ".app"@)
    } else {
        name
    }
}

proof fn lemma_unquoted_left(s: Seq<char>, from: int)
    requires
        0 <= from <= s.len(),
        forall|i: int| 0 <= i < from ==> is_quote(#[trigger] s[i]),
    ensures
        unquoted(s) == unquoted(s.subrange(from, s.len() as int)),
    decreases from,
{
    if from == 0 {
        assert(s.subrange(0, s.len() as int) =~= s);
    } else {
        assert(is_quote(s[0]));
        let t = s.drop_first();
        assert forall|i: int| 0 <= i < from - 1 implies is_quote(#[trigger] t[i]) by {
            assert(t[i] == s[i + 1]);
        }
        lemma_unquoted_left(t, from - 1);
        assert(t.subrange(from - 1, t.len() as int) =~= s.subrange(from, s.len() as int));
    }
}

proof fn lemma_unquoted_right(s: Seq<char>, to: int)
    requires
        0 <= to <= s.len(),
        s.len() == 0 || !is_quote(s[0]),
        forall|i: int| to <= i < s.len() ==> is_quote(#[trigger] s[i]),
        to == 0 || !is_quote(s[to - 1]),
    ensures
        unquoted(s) == s.subrange(0, to),
    decreases s.len() - to,
{
    if to == s.len() {
        assert(s.subrange(0, to) =~= s);
    } else {
        assert(is_quote(s[s.len() - 1]));
        let t = s.drop_last();
        lemma_unquoted_right(t, to);
        assert(t.subrange(0, to) =~= s.subrange(0, to));
    }
}

proof fn lemma_leaf(s: Seq<char>, from: int)
    requires
        0 <= from <= s.len(),
        from == 0 || is_separator(s[from - 1]),
        forall|i: int| from <= i < s.len() ==> !is_separator(#[trigger] s[i]),
    ensures
        leaf(s) == s.subrange(from, s.len() as int),
    decreases s.len(),
{
    if s.len() > from {
        assert(!is_separator(s[s.len() - 1]));
        let t = s.drop_last();
        lemma_leaf(t, from);
        assert(s.subrange(from, s.len() as int) =~= t.subrange(from, t.len() as int).push(
            s.last(),
        ));
    } else {
        assert(s.subrange(from, s.len() as int) =~= Seq::empty());
    }
}

pub fn executable_stem(identity: &str) -> (r: &str)
    ensures
        r@ == stem_of(identity@),
{
    let chars = chars_of(identity);
    let n: usize = chars.len();
    let mut from: usize = 0;
    while from < n && (chars[from] == '\'' || chars[from] == '"')
        invariant
            n == chars.len(),
            from <= n,
            forall|i: int| 0 <= i < from ==> is_quote(#[trigger] chars@[i]),
        decreases n - from,
    {
        from = from + 1;
    }
    let mut to: usize = n;
    while to > from && (chars[to - 1] == '\'' || chars[to - 1] == '"')
        invariant
            n == chars.len(),
            from <= to <= n,
            forall|i: int| to <= i < n ==> is_quote(#[trigger] chars@[i]),
        decreases to,
    {
        to = to - 1;
    }
    let mut start: usize = to;
    while start > from && chars[start - 1] != '/' && chars[start - 1] != '\\'
        invariant
            n == chars.len(),
            from <= start <= to <= n,
            forall|i: int| start <= i < to ==> !is_separator(#[trigger] chars@[i]),
        decreases start,
    {
        start = start - 1;
    }
    proof {
        let whole = identity@;
        lemma_unquoted_left(whole, from as int);
        let rest = whole.subrange(from as int, n as int);
        assert forall|i: int| to - from <= i < rest.len() implies is_quote(#[trigger] rest[i]) by {
            assert(rest[i] == chars@[from + i]);
        }
        lemma_unquoted_right(rest, to - from);
        let bare = rest.subrange(0, to - from);
        assert(bare =~= whole.subrange(from as int, to as int));
        assert forall|i: int| start - from <= i < bare.len() implies !is_separator(
            #[trigger] bare[i],
        ) by {
            assert(bare[i] == chars@[from + i]);
        }
        lemma_leaf(bare, start - from);
        assert(bare.subrange(start - from, bare.len() as int) =~= whole.subrange(
            start as int,
            to as int,
        ));
        reveal_strlit(".exe");
        reveal_strlit(".app");
    }
    let name = identity.substring_char(start, to);
    if text_ends_with(name, ".exe") || text_ends_with(name, ".app") {
        let kept: usize = name.unicode_len() - 4;
        return name.substring_char(0, kept);
    }
    name
}

/// A version without the mark of an interpreter's windowed variant.
pub open spec fn version_digits(s: Seq<char>) -> Seq<char> {
    if s.len() > 0 && s[0] == 'w' {
        s.drop_first()
    } else {
        s
    }
}

/// Only digits and dots stand in the text.
pub open spec fn all_version_chars(s: Seq<char>) -> bool {
    forall|i: int| 0 <= i < s.len() ==> is_digit(#[trigger] s[i]) || s[i] == '.'
}

/// The text is what may follow an interpreter's name: nothing, or a version,
/// possibly behind the mark of its windowed variant.
pub open spec fn is_version(s: Seq<char>) -> bool {
    all_version_chars(version_digits(s))
}

pub open spec fn names_python(stem: Seq<char>) -> bool {
    begins_with(stem, "python"@) && is_version(stem.subrange(6, stem.len() as int))
}

pub fn is_python_interpreter(stem: &str) -> (r: bool)
    ensures
        r == names_python(stem@),
{
    proof {
        reveal_strlit("python");
    }
    let chars = chars_of(stem);
    if !chars_at(&chars, &chars_of("python"), 0) {
        return false;
    }
    let n: usize = chars.len();
    let first: usize = if n > 6 && chars[6] == 'w' {
        7
    } else {
        6
    };
    let ghost digits = version_digits(stem@.subrange(6, n as int));
    assert(digits =~= stem@.subrange(first as int, n as int));
    let mut i: usize = first;
    while i < n
        invariant
            chars@ == stem@,
            n == chars.len(),
            first <= i <= n,
            first >= 6,
            digits == stem@.subrange(first as int, n as int),
            names_python(stem@) == all_version_chars(digits),
            forall|k: int|
                0 <= k < i - first ==> is_digit(#[trigger] digits[k]) || digits[k] == '.',
        decreases n - i,
    {
        assert(digits[i - first] == chars@[i as int]);
        if !char_is_digit(chars[i]) && chars[i] != '.' {
            return false;
        }
        i = i + 1;
    }
    true
}

/// The letters and digits of a text.
pub open spec fn compacted(s: Seq<char>) -> Seq<char>
    decreases s.len(),
{
    if s.len() == 0 {
        Seq::empty()
    } else if is_alphanumeric(s.last()) {
        compacted(s.drop_last()).push(s.last())
    } else {
        compacted(s.drop_last())
    }
}

fn compact_text(text: &str) -> (r: String)
    ensures
        r@ == compacted(text@),
{
    let chars = chars_of(text);
    let mut out = String::new();
    let mut i: usize = 0;
    while i < chars.len()
        invariant
            chars@ == text@,
            i <= chars.len(),
            out@ == compacted(text@.take(i as int)),
        decreases chars.len() - i,
    {
        assert(text@.take(i + 1).drop_last() =~= text@.take(i as int));
        assert(text@.take(i + 1).last() == text@[i as int]);
        if char_is_alphanumeric(chars[i]) {
            push_char(&mut out, chars[i]);
        }
        i = i + 1;
    }
    assert(text@.take(text@.len() as int) =~= text@);
    out
}

/// The identity is that of a system, terminal, interpreter, authentication,
/// password, or security application.
pub open spec fn is_sensitive(identity: Seq<char>) -> bool {
    let name = lowered(identity);
    ||| any_occurs(name, sensitive_markers())
    ||| restricted_stems().contains(stem_of(name))
    ||| occurs_in(compacted(name), "windowsterminal"@)
    ||| occurs_in(compacted(name), "credentialuibroker"@)
    ||| names_python(stem_of(name))
}

/// The message under which a sensitive application is refused.
pub open spec fn sensitive_message() -> Seq<char> {
    "system, terminal, command interpreter, authentication, password, and security applications are not allowed"@
}

pub fn invalid_target(message: &'static str) -> (r: ComputerUseError)
    ensures
        is_plain_error(r, ComputerUseErrorCode::InvalidTarget, message@),
{
    ComputerUseError::new(ComputerUseErrorCode::InvalidTarget, message)
}

pub open spec fn sensitive_refusal(identity: Seq<char>) -> Refusal {
    if is_sensitive(identity) {
        Some((ComputerUseErrorCode::InvalidTarget, sensitive_message()))
    } else {
        None
    }
}

pub fn validate_sensitive_application_identity(identity: &str) -> (r: ComputerUseResult<()>)
    ensures
        decides(r, sensitive_refusal(identity@)),
{
    let name = lower_text(identity);
    let stem = executable_stem(name.as_str());
    let compact = compact_text(name.as_str());
    if contains_any(name.as_str(), &sensitive_identity_markers()) || is_listed(
        stem,
        &restricted_executable_stems(),
    ) || text_contains(compact.as_str(), "windowsterminal") || text_contains(
        compact.as_str(),
        "credentialuibroker",
    ) || is_python_interpreter(stem) {
        return Err(
            invalid_target(
                "system, terminal, command interpreter, authentication, password, and security applications are not allowed",
            ),
        );
    }
    Ok(())
}

pub open spec fn observed_identity_refusal(identity: Seq<char>) -> Refusal {
    let name = trimmed(identity);
    if name.len() == 0 || same_ignoring_case(name, "native-window"@) {
        Some(
            (
                ComputerUseErrorCode::InvalidTarget,
                "target application identity could not be verified"@,
            ),
        )
    } else {
        sensitive_refusal(name)
    }
}

pub fn validate_observed_application_identity(identity: &str) -> (r: ComputerUseResult<()>)
    ensures
        decides(r, observed_identity_refusal(identity@)),
{
    let name = trim_text(identity);
    if name.unicode_len() == 0 || text_eq_ignoring_case(name, "native-window") {
        return Err(invalid_target("target application identity could not be verified"));
    }
    validate_sensitive_application_identity(name)
}

pub open spec fn launch_identity_refusal(identity: Seq<char>) -> Refusal {
    let name = trimmed(identity);
    if name.len() == 0 {
        Some((ComputerUseErrorCode::InvalidTarget, "launch application identity is empty"@))
    } else {
        sensitive_refusal(name)
    }
}

pub fn validate_launch_application_identity(identity: &str) -> (r: ComputerUseResult<()>)
    ensures
        decides(r, launch_identity_refusal(identity@)),
{
    let name = trim_text(identity);
    if name.unicode_len() == 0 {
        return Err(invalid_target("launch application identity is empty"));
    }
    validate_sensitive_application_identity(name)
}

/// A target that cannot say what application it belongs to is rejected, and
/// so is every identity that launching would reject.
pub proof fn law_unverified_targets_are_rejected(identity: Seq<char>)
    ensures
        trimmed(identity).len() == 0 ==> observed_identity_refusal(identity) is Some,
        launch_identity_refusal(identity) is Some ==> observed_identity_refusal(identity) is Some,
{
}

/// Case never lets an application through: identities that differ in ASCII
/// case alone are judged alike.
pub proof fn law_case_does_not_matter(a: Seq<char>, b: Seq<char>)
    requires
        same_ignoring_case(a, b),
    ensures
        is_sensitive(a) == is_sensitive(b),
{
}

/// An identity is sensitive where any of the markers occurs in it, or where it
/// names a program that is not to be driven.
pub proof fn law_marked_identities_are_sensitive(identity: Seq<char>)
    ensures
        occurs_in(lowered(identity), "password"@) || occurs_in(lowered(identity), "credential"@)
            || occurs_in(lowered(identity), "authentication"@) || occurs_in(
            lowered(identity),
            "sign in"@,
        ) || occurs_in(lowered(identity), "login"@) || occurs_in(lowered(identity), "terminal"@)
            || occurs_in(lowered(identity), "command prompt"@) || occurs_in(
            lowered(identity),
            "security"@,
        ) || occurs_in(lowered(identity), "consent"@) ==> is_sensitive(identity),
        ({
            let stem = stem_of(lowered(identity));
            stem == "bash"@ || stem == "cmd"@ || stem == "conhost"@ || stem == "powershell"@ || stem
                == "pwsh"@ || stem == "node"@ || stem == "sh"@ || stem == "zsh"@ || stem == "wsl"@
                || stem == "wt"@ || stem == "mshta"@ || stem == "wscript"@ || stem == "cscript"@
                || stem == "rundll32"@ || stem == "regsvr32"@ || stem == "lsass"@ || stem
                == "winlogon"@ || stem == "logonui"@ || stem == "xterm"@ || stem == "konsole"@
                || stem == "alacritty"@ || stem == "mintty"@ || stem == "wezterm"@ || stem
                == "fish"@ || stem == "nodejs"@ ==> is_sensitive(identity)
        }),
        is_sensitive(identity) ==> launch_identity_refusal(identity) is Some || trimmed(identity)
            != identity,
{
    let markers = sensitive_markers();
    assert(markers[0] == "password"@ && markers[1] == "credential"@ && markers[2]
        == "authentication"@ && markers[3] == "sign in"@ && markers[4] == "login"@ && markers[5]
        == "terminal"@ && markers[6] == "command prompt"@ && markers[7] == "security"@ && markers[8]
        == "consent"@);
    let stems = restricted_stems();
    assert(stems[0] == "alacritty"@ && stems[1] == "bash"@ && stems[2] == "cmd"@ && stems[3]
        == "conhost"@ && stems[6] == "cscript"@ && stems[7] == "fish"@ && stems[10] == "konsole"@
        && stems[11] == "logonui"@ && stems[12] == "lsass"@ && stems[13] == "mintty"@ && stems[14]
        == "mshta"@ && stems[15] == "node"@ && stems[16] == "nodejs"@ && stems[17] == "powershell"@
        && stems[18] == "pwsh"@ && stems[19] == "regsvr32"@ && stems[20] == "rundll32"@ && stems[21]
        == "sh"@ && stems[23] == "wezterm"@ && stems[24] == "winlogon"@ && stems[26] == "wscript"@
        && stems[27] == "wsl"@ && stems[28] == "wt"@ && stems[29] == "xterm"@ && stems[30]
        == "zsh"@);
}

/// What is compacted has its letters and digits left, in their order, and nothing
/// else.
pub proof fn law_compacting_keeps_letters_and_digits(text: Seq<char>, c: char)
    ensures
        is_alphanumeric(c) ==> compacted(text.push(c)) == compacted(text).push(c),
        !is_alphanumeric(c) ==> compacted(text.push(c)) == compacted(text),
        compacted(Seq::<char>::empty()).len() == 0,
        occurs_in(compacted(lowered(text)), "windowsterminal"@) ==> is_sensitive(text),
        occurs_in(compacted(lowered(text)), "credentialuibroker"@) ==> is_sensitive(text),
        stem_of(lowered(text)) == "python"@ ==> is_sensitive(text),
{
    assert(text.push(c).drop_last() =~= text);
    if stem_of(lowered(text)) == "python"@ {
        reveal_strlit("python");
        let rest = "python"@.subrange(6, 6);
        assert(rest.len() == 0);
        assert(version_digits(rest).len() == 0);
        assert("python"@.subrange(0, 6) =~= "python"@);
        assert(begins_with("python"@, "python"@));
        assert(is_version(rest));
    }
}

} // verus!
