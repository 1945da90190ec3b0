//! Environment-variable expansion and secret hashing, behind trusted
//! wrappers: both depend on process state (the environment, a random
//! salt), so the library states only what holds of every outcome.

use vstd::prelude::*;
use vstd::string::*;

use crate::errors::TemplateError;

verus! {

/// A character of the crypt base64 alphabet: `./0-9A-Za-z`.
pub open spec fn is_crypt_char(c: char) -> bool {
    ||| c == '.'
    ||| c == '/'
    ||| (48 <= c as u32 && c as u32 <= 57)
    ||| (65 <= c as u32 && c as u32 <= 90)
    ||| (97 <= c as u32 && c as u32 <= 122)
}

/// The Unix shadow form of a salted SHA-512 crypt hash with the default
/// round count: `$6$<16-character salt>$<86-character digest>`, salt and
/// digest drawn from the crypt alphabet.
pub open spec fn shadow_sha512_format(s: Seq<char>) -> bool {
    &&& s.len() == 106
    &&& s.take(3) == "$6$"@
    &&& s[19] == '$'
    &&& forall|i: int| 3 <= i < 19 ==> is_crypt_char(#[trigger] s[i])
    &&& forall|i: int| 20 <= i < 106 ==> is_crypt_char(#[trigger] s[i])
}

/// Relies on `sha_crypt::sha512_simple` with `sha_crypt::ROUNDS_DEFAULT`:
/// for these fixed, valid parameters it never fails; it draws a fresh
/// random salt of 16 crypt-alphabet characters and returns
/// `$6$<salt>$<digest>` with an 86-character crypt-alphabet digest (no
/// rounds field, since the default round count is used). The salt is
/// random, so nothing ties the result to the password.
#[verifier::external_body]
pub fn hash_password_sha512(password: &str) -> (r: Result<String, TemplateError>)
    ensures
        r is Ok,
        r matches Ok(h) ==> shadow_sha512_format(h@),
{
    let params = match sha_crypt::Sha512Params::new(sha_crypt::ROUNDS_DEFAULT) {
        Ok(p) => p,
        Err(e) => {
            return Err(TemplateError::Hash { message: format!("invalid sha512-crypt params: {e:?}") });
        },
    };
    match sha_crypt::sha512_simple(password, &params) {
        Ok(h) => Ok(h),
        Err(e) => Err(TemplateError::Hash { message: format!("password hashing failed: {e:?}") }),
    }
}

/// A string with no expansion placeholders of either style: neither a
/// percent sign nor a dollar sign anywhere.
pub open spec fn placeholder_free(s: Seq<char>) -> bool {
    forall|i: int| 0 <= i < s.len() ==> s[i] != '%' && s[i] != '$'
}

/// Relies on `expand_str::expand_string_with_env`: expands
/// percent-delimited placeholders from the process environment. The
/// expanded value depends on the environment; but a string without a
/// percent sign splits into one verbatim piece, so it comes back
/// unchanged (its source splits only on `%`).
#[verifier::external_body]
fn expand_percent_vars(raw: &str) -> (r: Result<String, String>)
    ensures
        r is Ok || !placeholder_free(raw@),
        r matches Ok(s) ==> (placeholder_free(raw@) ==> s@ == raw@),
{
    expand_str::expand_string_with_env(raw).map_err(|e| e.to_string())
}

/// Relies on `shellexpand::env`: expands dollar-prefixed placeholders
/// from the process environment; a missing variable fails and the error
/// carries its name. The expanded value depends on the environment; but
/// a string without a dollar sign comes back unchanged (its source
/// returns the input as-is when it finds no `$`).
#[verifier::external_body]
fn expand_dollar_vars(raw: &str) -> (r: Result<String, String>)
    ensures
        r is Ok || !placeholder_free(raw@),
        r matches Ok(s) ==> (placeholder_free(raw@) ==> s@ == raw@),
{
    match shellexpand::env(raw) {
        Ok(s) => Ok(s.into_owned()),
        Err(e) => Err(e.var_name),
    }
}

/// The message reported when percent-style expansion fails.
pub fn percent_expansion_message(detail: &str) -> (r: String)
    ensures
        r@ == "environment variable expansion failed: "@ + detail@,
{
    let mut m = String::from_str("environment variable expansion failed: ");
    m.append(detail);
    m
}

/// The message reported when a dollar-style variable is not set.
pub fn missing_var_message(var_name: &str, raw: &str) -> (r: String)
    ensures
        r@ == "environment variable '"@ + var_name@ + "' is not set (from '"@ + raw@ + "')"@,
{
    let mut m = String::from_str("environment variable '");
    m.append(var_name);
    m.append("' is not set (from '");
    m.append(raw);
    m.append("')");
    proof {
        assert(m@ =~= "environment variable '"@ + var_name@ + "' is not set (from '"@ + raw@
            + "')"@);
    }
    m
}

/// Expand environment-variable placeholders of both supported styles:
/// percent-delimited first, then dollar-prefixed. The expanded value
/// depends on the process environment, but a string without placeholders
/// comes back unchanged; a failure of either stage is reported with that
/// stage's message.
pub fn expand_env_vars(raw: &str) -> (r: Result<String, TemplateError>)
    ensures
        placeholder_free(raw@) ==> (r matches Ok(s) && s@ == raw@),
        r matches Err(e) ==> (e matches TemplateError::Render { message } && ((exists|detail:
            Seq<char>| message@ == "environment variable expansion failed: "@ + detail) || (exists|
            var_name: Seq<char>,
        | message@ == "environment variable '"@ + var_name + "' is not set (from '"@ + raw@
            + "')"@))),
{
    let percent_expanded = match expand_percent_vars(raw) {
        Ok(s) => s,
        Err(detail) => {
            let message = percent_expansion_message(detail.as_str());
            proof {
                assert(exists|d: Seq<char>|
                    message@ == "environment variable expansion failed: "@ + d) by {
                    assert(message@ == "environment variable expansion failed: "@ + detail@);
                }
            }
            return Err(TemplateError::Render { message });
        },
    };
    match expand_dollar_vars(percent_expanded.as_str()) {
        Ok(s) => Ok(s),
        Err(var_name) => {
            let message = missing_var_message(var_name.as_str(), raw);
            proof {
                assert(exists|v: Seq<char>|
                    message@ == "environment variable '"@ + v + "' is not set (from '"@ + raw@
                        + "')"@) by {
                    assert(message@ == "environment variable '"@ + var_name@
                        + "' is not set (from '"@ + raw@ + "')"@);
                }
            }
            Err(TemplateError::Render { message })
        },
    }
}

} // verus!
