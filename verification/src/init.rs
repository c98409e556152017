use vstd::prelude::*;
use crate::text::{str_equal, trim, trimmed};

verus! {

/// `init` asks before overwriting an existing configuration file unless forced.
pub fn must_confirm_overwrite(force: bool, config_exists: bool) -> (ask: bool)
    ensures
        ask == (!force && config_exists),
{
    !force && config_exists
}

/// Whether the answer to "Overwrite? [y/N]" accepts: once trimmed and
/// lower-cased it is "y". The only text that lower-cases to "y" is "y" or "Y".
pub fn confirms_overwrite(answer: &str) -> (yes: bool)
    ensures
        yes == (trimmed(answer@) == "y"@ || trimmed(answer@) == "Y"@),
{
    let t = trim(answer);
    str_equal(t, "y") || str_equal(t, "Y")
}

/// The upload directory written to the configuration: ".uploads" when the
/// given one is empty.
pub fn config_upload_dir(dir: &str) -> (d: String)
    ensures
        d@ == (if dir@.len() == 0 {
            ".uploads"@
        } else {
            dir@
        }),
{
    if dir.unicode_len() == 0 {
        String::from_str(".uploads")
    } else {
        String::from_str(dir)
    }
}

/// The answer to "Use this token? [Y/n], or enter a new one".
#[derive(Debug)]
pub enum TokenAnswer {
    /// Keep the generated token.
    UseGenerated,
    /// Ask for a token of the user's own.
    AskCustom,
    /// Use this token, typed in place of an answer.
    Custom(String),
}

pub open spec fn token_answer_fits(answer: Seq<char>, a: TokenAnswer) -> bool {
    let t = trimmed(answer);
    if t == ""@ || t == "y"@ || t == "Y"@ {
        a is UseGenerated
    } else if t == "n"@ || t == "N"@ {
        a is AskCustom
    } else {
        a matches TokenAnswer::Custom(c) && c@ == t
    }
}

/// Reads the answer to the token question: empty, "y" or "Y" keep the
/// generated token, "n" or "N" ask for another, anything else is the token.
pub fn token_answer(answer: &str) -> (a: TokenAnswer)
    ensures
        token_answer_fits(answer@, a),
        a is UseGenerated <==> (trimmed(answer@) == ""@ || trimmed(answer@) == "y"@ || trimmed(
            answer@,
        ) == "Y"@),
        a is AskCustom <==> (trimmed(answer@) == "n"@ || trimmed(answer@) == "N"@),
        a is Custom ==> a->Custom_0@ == trimmed(answer@),
{
    let t = trim(answer);
    let a = if str_equal(t, "") || str_equal(t, "y") || str_equal(t, "Y") {
        TokenAnswer::UseGenerated
    } else if str_equal(t, "n") || str_equal(t, "N") {
        TokenAnswer::AskCustom
    } else {
        TokenAnswer::Custom(String::from_str(t))
    };
    proof {
        law_token_answer_cases(answer@, a);
    }
    a
}

/// The characters that generated tokens are made of.
pub open spec fn token_alphabet() -> Seq<char> {
    "ABCDEFGHIJKLMNOPQRSTUVWXYZabcdefghijklmnopqrstuvwxyz0123456789"@
}

/// The token character that a random byte selects.
pub open spec fn token_char(b: u8) -> char {
    token_alphabet()[(b % 62) as int]
}

/// Turns random bytes into a token, one letter or digit per byte.
pub fn token_from_random_bytes(random: &[u8]) -> (token: String)
    ensures
        token@ == random@.map_values(|b: u8| token_char(b)),
{
    let alphabet = "ABCDEFGHIJKLMNOPQRSTUVWXYZabcdefghijklmnopqrstuvwxyz0123456789";
    proof {
        reveal_strlit("ABCDEFGHIJKLMNOPQRSTUVWXYZabcdefghijklmnopqrstuvwxyz0123456789");
    }
    let mut token = String::new();
    let mut i: usize = 0;
    while i < random.len()
        invariant
            alphabet@ == token_alphabet(),
            alphabet@.len() == 62,
            i <= random@.len(),
            token@ == random@.take(i as int).map_values(|b: u8| token_char(b)),
        decreases random@.len() - i,
    {
        let k = (random[i] % 62) as usize;
        let piece = alphabet.substring_char(k, k + 1);
        token.append(piece);
        assert(random@.take(i + 1).map_values(|b: u8| token_char(b)) =~= random@.take(
            i as int,
        ).map_values(|b: u8| token_char(b)) + piece@);
        i += 1;
    }
    assert(random@.take(i as int) =~= random@);
    token
}

/// The text of the configuration file that `init` writes.
pub fn config_file_content(dir: &str, token: &str) -> (text: String)
    ensures
        text@ == "# Fake-CDN Configuration\n# Upload directory for files\ndir = \""@ + dir@
            + "\"\n\n# Authorization token for uploads\ntoken = \""@ + token@ + "\"\n"@,
{
    let mut text = String::from_str("# Fake-CDN Configuration\n# Upload directory for files\ndir = \"");
    text.append(dir);
    text.append("\"\n\n# Authorization token for uploads\ntoken = \"");
    text.append(token);
    text.append("\"\n");
    text
}

/// Law: byte values select, modulo 62, the letters 'A' to 'Z', then 'a' to
/// 'z', then the digits '0' to '9', in that order.
pub proof fn law_token_char_order(b: u8)
    ensures
        ({
            let k = (b % 62) as u32;
            token_char(b) as u32 == if k < 26 {
                65 + k
            } else if k < 52 {
                97 + (k - 26)
            } else {
                48 + (k - 52)
            }
        }),
{
    reveal_strlit("ABCDEFGHIJKLMNOPQRSTUVWXYZabcdefghijklmnopqrstuvwxyz0123456789");
}

/// Law: every character of a generated token is an ASCII letter or digit.
pub proof fn law_token_char_alphanumeric(b: u8)
    ensures
        ({
            let c = token_char(b);
            ||| ('a' <= c && c <= 'z')
            ||| ('A' <= c && c <= 'Z')
            ||| ('0' <= c && c <= '9')
        }),
{
    reveal_strlit("ABCDEFGHIJKLMNOPQRSTUVWXYZabcdefghijklmnopqrstuvwxyz0123456789");
    let k = (b % 62) as int;
    assert(0 <= k < 62);
}

/// Law: the generated token is kept only for an answer that trims to "", "y"
/// or "Y"; another token is asked for only for "n" or "N"; every other trimmed
/// answer, in particular every one of two or more characters, is itself the
/// token.
pub proof fn law_token_answer_cases(answer: Seq<char>, a: TokenAnswer)
    requires
        token_answer_fits(answer, a),
    ensures
        a is UseGenerated <==> (trimmed(answer) == ""@ || trimmed(answer) == "y"@ || trimmed(answer) == "Y"@),
        a is AskCustom <==> (trimmed(answer) == "n"@ || trimmed(answer) == "N"@),
        trimmed(answer).len() >= 2 ==> (a is Custom && a->Custom_0@ == trimmed(answer)),
        (trimmed(answer) != ""@ && trimmed(answer) != "y"@ && trimmed(answer) != "Y"@
            && trimmed(answer) != "n"@ && trimmed(answer) != "N"@) ==> (a is Custom && a->Custom_0@ == trimmed(answer)),
{
    reveal_strlit("");
    reveal_strlit("y");
    reveal_strlit("Y");
    reveal_strlit("n");
    reveal_strlit("N");
    assert(""@.len() == 0 && "y"@.len() == 1 && "Y"@.len() == 1 && "n"@.len() == 1 && "N"@.len() == 1);
    assert("n"@[0] != "y"@[0] && "n"@[0] != "Y"@[0] && "N"@[0] != "y"@[0] && "N"@[0] != "Y"@[0]);
    assert("n"@ != "y"@ && "n"@ != "Y"@ && "N"@ != "y"@ && "N"@ != "Y"@ && "n"@ != ""@ && "N"@ != ""@);
}

} // verus!
