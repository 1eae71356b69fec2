//! What every component needs to write markup: text made safe to embed,
//! numbers in decimal, and the addresses of the site's pages.

use vstd::prelude::*;
use vstd::std_specs::iter::IteratorSpec;
use vstd::string::StringExecFns;

verus! {

/// `String::push` appends the character to the end of the string.
pub assume_specification[ String::push ](s: &mut String, ch: char)
    ensures
        final(s)@ == old(s)@.push(ch),
;

/// What stands for a character in markup: the five characters that markup
/// gives a meaning to are written as entities, every other as itself.
pub open spec fn entity(c: char) -> Seq<char> {
    if c == '&' {
        "&amp;"@
    } else if c == '<' {
        "&lt;"@
    } else if c == '>' {
        "&gt;"@
    } else if c == '"' {
        "&quot;"@
    } else if c == '\'' {
        "&#x27;"@
    } else {
        seq![c]
    }
}

/// A text with each character replaced by what stands for it in markup.
pub open spec fn escaped(text: Seq<char>) -> Seq<char>
    decreases text.len(),
{
    if text.len() == 0 {
        Seq::empty()
    } else {
        entity(text[0]) + escaped(text.drop_first())
    }
}

/// Makes a text safe to embed in markup, between tags or in an attribute.
pub fn clean(text: &str) -> (r: String)
    ensures
        r@ == escaped(text@),
{
    let mut out = String::new();
    let mut rest = text.chars();
    assert(out@ + escaped(rest.remaining()) =~= escaped(text@));
    loop
        invariant
            rest.obeys_prophetic_iter_laws(),
            rest.decrease() is Some,
            out@ + escaped(rest.remaining()) == escaped(text@),
        decreases rest.decrease()->0,
    {
        let ghost before = rest.remaining();
        let ghost written = out@;
        match rest.next() {
            Some(c) => {
                if c == '&' {
                    out.append("&amp;");
                } else if c == '<' {
                    out.append("&lt;");
                } else if c == '>' {
                    out.append("&gt;");
                } else if c == '"' {
                    out.append("&quot;");
                } else if c == '\'' {
                    out.append("&#x27;");
                } else {
                    out.push(c);
                    assert(out@ =~= written + seq![c]);
                }
                assert(out@ + escaped(rest.remaining()) =~= written + escaped(before));
            },
            None => {
                assert(out@ =~= escaped(text@));
                return out;
            },
        }
    }
}

/// Whether markup gives a character a meaning of its own inside text or
/// inside a quoted attribute.
pub open spec fn breaks_out(c: char) -> bool {
    c == '<' || c == '>' || c == '"' || c == '\''
}

/// What stands for a character holds none that breaks out.
pub proof fn lemma_entity_is_safe(c: char)
    ensures
        forall|i: int| 0 <= i < entity(c).len() ==> !breaks_out(#[trigger] entity(c)[i]),
{
    reveal_strlit("&amp;");
    reveal_strlit("&lt;");
    reveal_strlit("&gt;");
    reveal_strlit("&quot;");
    reveal_strlit("&#x27;");
}

/// Cleaned text holds no character that could close the tag or the
/// attribute it is embedded in, or open another.
pub proof fn law_cleaned_text_stays_inside(text: Seq<char>, i: int)
    requires
        0 <= i < escaped(text).len(),
    ensures
        !breaks_out(escaped(text)[i]),
    decreases text.len(),
{
    if text.len() > 0 {
        lemma_entity_is_safe(text[0]);
        if i >= entity(text[0]).len() {
            law_cleaned_text_stays_inside(text.drop_first(), i - entity(text[0]).len());
        }
    }
}

/// The character of a decimal digit.
pub open spec fn digit_char(d: nat) -> char
    recommends
        d < 10,
{
    ((0x30 + d) as u8) as char
}

/// A number written in decimal, without leading zeros.
pub open spec fn decimal_text(n: nat) -> Seq<char>
    decreases n,
{
    if n < 10 {
        seq![digit_char(n)]
    } else {
        decimal_text(n / 10).push(digit_char(n % 10))
    }
}

/// Appends a number in decimal to a text.
pub fn write_decimal(out: &mut String, n: usize)
    ensures
        final(out)@ == old(out)@ + decimal_text(n as nat),
    decreases n,
{
    if n >= 10 {
        write_decimal(out, n / 10);
    }
    let digit: u8 = (n % 10) as u8;
    out.push((0x30 + digit) as char);
    assert(out@ =~= old(out)@ + decimal_text(n as nat));
}

/// The pages and resources of the site that markup points to.
#[derive(Clone, Copy, PartialEq, Eq, Structural, Debug)]
pub enum Route {
    About,
    Htmx,
    Login,
    Logout,
    PrivacyPolicy,
    Register,
    StaticAppleIcon,
    StaticManifest,
    TermsOfService,
    UserHome,
    Void,
}

impl Route {
    /// The address of a page or resource, as it is written into markup.
    pub open spec fn address(self) -> Seq<char> {
        match self {
            Route::About => "/about"@,
            Route::Htmx => "/static/htmx-1.9.10"@,
            Route::Login => "/authentication/login"@,
            Route::Logout => "/authentication/logout"@,
            Route::PrivacyPolicy => "/privacy"@,
            Route::Register => "/authentication/register"@,
            Route::StaticAppleIcon => "/static/apple_icon"@,
            Route::StaticManifest => "/static/manifest"@,
            Route::TermsOfService => "/terms"@,
            Route::UserHome => "/home"@,
            Route::Void => "/void"@,
        }
    }

    /// The address of a page or resource, as it is written into markup.
    pub fn as_str(&self) -> (r: &'static str)
        ensures
            r@ == self.address(),
    {
        match self {
            Route::About => "/about",
            Route::Htmx => "/static/htmx-1.9.10",
            Route::Login => "/authentication/login",
            Route::Logout => "/authentication/logout",
            Route::PrivacyPolicy => "/privacy",
            Route::Register => "/authentication/register",
            Route::StaticAppleIcon => "/static/apple_icon",
            Route::StaticManifest => "/static/manifest",
            Route::TermsOfService => "/terms",
            Route::UserHome => "/home",
            Route::Void => "/void",
        }
    }
}

} // verus!
